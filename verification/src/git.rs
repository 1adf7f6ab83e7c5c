//! The git commands of a session, and what their outcomes mean.

use vstd::pervasive::unreached;
use vstd::prelude::*;
use vstd::string::*;

use crate::console::Tint;
use crate::protocol::{
    CommandLine, CommandView, FailureKind, IoKind, Reply, ReplyKind, ReplyView, Request, RequestView,
};
use crate::text;
use crate::turn::{
    ask, fail_with, finish, make_error_with, make_log, make_plain_error, show, show_nothing, Error,
    ErrorView, OutputView, Turn, TurnView,
};

verus! {

impl CommandView {
    /// A git command.
    pub open spec fn git(args: Seq<Seq<char>>, capture: bool) -> Self {
        CommandView {
            program: "git"@,
            args,
            capture,
            combine_output: false,
            log_command: false,
        }
    }

    /// Asks git for its version.
    pub open spec fn git_version() -> Self {
        Self::git(seq!["--version"@], true)
    }

    /// Asks git whether the current directory is in a repository.
    pub open spec fn git_inside_repo() -> Self {
        Self::git(seq!["rev-parse"@, "--is-inside-work-tree"@], true)
    }

    /// Asks git for the branch that is checked out.
    pub open spec fn git_current_branch() -> Self {
        Self::git(seq!["rev-parse"@, "--abbrev-ref"@, "HEAD"@], true)
    }

    /// Switches to a branch that is there.
    pub open spec fn git_checkout(branch: Seq<char>) -> Self {
        Self::git(seq!["checkout"@, branch], false)
    }

    /// Creates a branch and switches to it.
    pub open spec fn git_checkout_new(branch: Seq<char>) -> Self {
        Self::git(seq!["checkout"@, "-b"@, branch], false)
    }

    /// Merges a branch into one set of uncommitted changes.
    pub open spec fn git_merge_squash(branch: Seq<char>) -> Self {
        Self::git(seq!["merge"@, "--squash"@, branch], false)
    }

    /// Commits what is staged.
    pub open spec fn git_commit(message: Seq<char>) -> Self {
        Self::git(seq!["commit"@, "-m"@, message], false)
    }

    /// Commits all changes of tracked files.
    pub open spec fn git_commit_all(message: Seq<char>) -> Self {
        Self::git(seq!["commit"@, "-am"@, message], false)
    }
}

/// Owned copies of some words.
fn words(list: &[&str]) -> (v: Vec<String>)
    ensures
        crate::protocol::strings(v@) == list@.map_values(|s: &str| s@),
        v@.len() == list@.len(),
        forall|i: int| 0 <= i < v@.len() ==> #[trigger] v@[i]@ == list@[i]@,
{
    let mut v: Vec<String> = Vec::new();
    for i in 0..list.len()
        invariant
            v@.len() == i,
            forall|j: int| 0 <= j < i ==> #[trigger] v@[j]@ == list@[j]@,
    {
        v.push(list[i].to_owned());
    }
    assert(crate::protocol::strings(v@) =~= list@.map_values(|s: &str| s@));
    v
}

/// A git command.
fn git(args: &[&str], capture: bool) -> (command: CommandLine)
    ensures
        command@ == CommandView::git(args@.map_values(|s: &str| s@), capture),
        command.program@ == "git"@,
        command.args@.len() == args@.len(),
        forall|i: int| 0 <= i < args@.len() ==> #[trigger] command.args@[i]@ == args@[i]@,
        command.capture == capture,
        !command.combine_output,
        !command.log_command,
{
    CommandLine {
        program: "git".to_owned(),
        args: words(args),
        capture,
        combine_output: false,
        log_command: false,
    }
}

/// Asks git for its version.
pub(crate) fn version_command() -> (command: CommandLine)
    ensures
        command@ == CommandView::git_version(),
        command.program@ == "git"@,
        command.args@.len() == 1,
        command.args@[0]@ == "--version"@,
        command.capture,
        !command.combine_output,
        !command.log_command,
{
    let args = ["--version"];
    let command = git(&args, true);
    assert(args@.map_values(|s: &str| s@) =~= seq!["--version"@]);
    command
}

/// Asks git whether the current directory is in a repository.
pub(crate) fn inside_repo_command() -> (command: CommandLine)
    ensures
        command@ == CommandView::git_inside_repo(),
        command.program@ == "git"@,
        command.args@.len() == 2,
        command.args@[0]@ == "rev-parse"@,
        command.args@[1]@ == "--is-inside-work-tree"@,
        command.capture,
        !command.combine_output,
        !command.log_command,
{
    let args = ["rev-parse", "--is-inside-work-tree"];
    let command = git(&args, true);
    assert(args@.map_values(|s: &str| s@) =~= seq!["rev-parse"@, "--is-inside-work-tree"@]);
    command
}

/// Asks git for the branch that is checked out.
pub(crate) fn current_branch_command() -> (command: CommandLine)
    ensures
        command@ == CommandView::git_current_branch(),
        command.program@ == "git"@,
        command.args@.len() == 3,
        command.args@[0]@ == "rev-parse"@,
        command.args@[1]@ == "--abbrev-ref"@,
        command.args@[2]@ == "HEAD"@,
        command.capture,
        !command.combine_output,
        !command.log_command,
{
    let args = ["rev-parse", "--abbrev-ref", "HEAD"];
    let command = git(&args, true);
    assert(args@.map_values(|s: &str| s@) =~= seq!["rev-parse"@, "--abbrev-ref"@, "HEAD"@]);
    command
}

/// Switches to a branch that is there.
pub(crate) fn checkout_command(branch: &str) -> (command: CommandLine)
    ensures
        command@ == CommandView::git_checkout(branch@),
        command.program@ == "git"@,
        command.args@.len() == 2,
        command.args@[0]@ == "checkout"@,
        command.args@[1]@ == branch@,
        !command.capture,
        !command.combine_output,
        !command.log_command,
{
    let args = ["checkout", branch];
    let command = git(&args, false);
    assert(args@.map_values(|s: &str| s@) =~= seq!["checkout"@, branch@]);
    command
}

/// Creates a branch and switches to it.
pub(crate) fn checkout_new_command(branch: &str) -> (command: CommandLine)
    ensures
        command@ == CommandView::git_checkout_new(branch@),
        command.program@ == "git"@,
        command.args@.len() == 3,
        command.args@[0]@ == "checkout"@,
        command.args@[1]@ == "-b"@,
        command.args@[2]@ == branch@,
        !command.capture,
        !command.combine_output,
        !command.log_command,
{
    let args = ["checkout", "-b", branch];
    let command = git(&args, false);
    assert(args@.map_values(|s: &str| s@) =~= seq!["checkout"@, "-b"@, branch@]);
    command
}

/// Merges a branch into one set of uncommitted changes.
pub(crate) fn merge_squash_command(branch: &str) -> (command: CommandLine)
    ensures
        command@ == CommandView::git_merge_squash(branch@),
        command.program@ == "git"@,
        command.args@.len() == 3,
        command.args@[0]@ == "merge"@,
        command.args@[1]@ == "--squash"@,
        command.args@[2]@ == branch@,
        !command.capture,
        !command.combine_output,
        !command.log_command,
{
    let args = ["merge", "--squash", branch];
    let command = git(&args, false);
    assert(args@.map_values(|s: &str| s@) =~= seq!["merge"@, "--squash"@, branch@]);
    command
}

/// Commits what is staged.
pub(crate) fn commit_command(message: &str) -> (command: CommandLine)
    ensures
        command@ == CommandView::git_commit(message@),
        command.program@ == "git"@,
        command.args@.len() == 3,
        command.args@[0]@ == "commit"@,
        command.args@[1]@ == "-m"@,
        command.args@[2]@ == message@,
        !command.capture,
        !command.combine_output,
        !command.log_command,
{
    let args = ["commit", "-m", message];
    let command = git(&args, false);
    assert(args@.map_values(|s: &str| s@) =~= seq!["commit"@, "-m"@, message@]);
    command
}

/// Commits all changes of tracked files.
pub(crate) fn commit_all_command(message: &str) -> (command: CommandLine)
    ensures
        command@ == CommandView::git_commit_all(message@),
        command.program@ == "git"@,
        command.args@.len() == 3,
        command.args@[0]@ == "commit"@,
        command.args@[1]@ == "-am"@,
        command.args@[2]@ == message@,
        !command.capture,
        !command.combine_output,
        !command.log_command,
{
    let args = ["commit", "-am", message];
    let command = git(&args, false);
    assert(args@.map_values(|s: &str| s@) =~= seq!["commit"@, "-am"@, message@]);
    command
}

/// What the outcome of asking git for its version says: whether git can be run.
pub open spec fn availability(reply: ReplyView) -> Result<(), ErrorView> {
    match reply {
        ReplyView::Ran(Err(failure)) => if failure.kind == FailureKind::Run(IoKind::NotFound) {
            Err(ErrorView::plain("could not find `git` command"@))
        } else {
            Err(
                ErrorView::plain(
                    "checking for `git` command failed with unexpected error "@ + failure.text,
                ),
            )
        },
        _ => Ok(()),
    }
}

/// Whether git can be run, from the reply to [`version_command`].
pub fn is_git_available(reply: Reply) -> (result: Result<(), Error>)
    requires
        reply@.kind() == ReplyKind::Ran,
    ensures
        crate::turn::result_view(result) == availability(reply@),
{
    match reply {
        Reply::Ran(Ok(_)) => Ok(()),
        Reply::Ran(Err(failure)) => {
            if failure.kind == FailureKind::Run(IoKind::NotFound) {
                // git was not found
                Err(make_plain_error("could not find `git` command".to_owned()))
            } else {
                // Another error occurred
                Err(
                    make_plain_error(
                        "checking for `git` command failed with unexpected error ".to_owned().concat(
                            failure.text.as_str(),
                        ),
                    ),
                )
            }
        },
        _ => unreached(),
    }
}

/// What the outcome of asking git about the directory says.
pub open spec fn repo_presence(reply: ReplyView) -> Result<(), ErrorView> {
    match reply {
        ReplyView::Ran(Err(_)) => Err(
            ErrorView::plain(
                "Current directory is not a git repository, consider running 'git init'"@,
            ),
        ),
        _ => Ok(()),
    }
}

/// Whether the current directory is in a repository, from the reply to
/// [`inside_repo_command`].
pub fn is_git_repo(reply: Reply) -> (result: Result<(), Error>)
    requires
        reply@.kind() == ReplyKind::Ran,
    ensures
        crate::turn::result_view(result) == repo_presence(reply@),
{
    match reply {
        Reply::Ran(Ok(_)) => Ok(()),
        Reply::Ran(Err(_)) => Err(
            make_plain_error(
                "Current directory is not a git repository, consider running 'git init'".to_owned(),
            ),
        ),
        _ => unreached(),
    }
}

/// The error of a git command that concerns branches.
pub open spec fn git_error() -> ErrorView {
    ErrorView::with(
        "Git command error."@,
        "Check if current directory is a git repository"@,
    )
}

fn make_git_error() -> (error: Error)
    ensures
        error@ == git_error(),
{
    make_error_with(
        "Git command error.".to_owned(),
        "Check if current directory is a git repository",
    )
}

/// The branch name in what git printed.
pub open spec fn branch_in(stdout: Seq<u8>) -> Seq<char> {
    text::trimmed(text::utf8_lossy(stdout))
}

/// What the outcome of asking git for the current branch says.
pub open spec fn checked_out_branch(reply: ReplyView) -> Result<Seq<char>, ErrorView> {
    match reply {
        ReplyView::Ran(Ok(stdout)) => Ok(branch_in(stdout)),
        _ => Err(git_error()),
    }
}

/// The branch that is checked out, from the reply to [`current_branch_command`].
pub fn current_branch(reply: Reply) -> (result: Result<String, Error>)
    requires
        reply@.kind() == ReplyKind::Ran,
    ensures
        crate::turn::result_view(result) == checked_out_branch(reply@),
        match reply@ {
            ReplyView::Ran(Ok(stdout)) => vstd::utf8::valid_utf8(stdout)
                ==> crate::turn::result_view(result) == Ok::<Seq<char>, ErrorView>(
                text::trimmed(vstd::utf8::decode_utf8(stdout)),
            ),
            _ => true,
        },
{
    match reply {
        Reply::Ran(Ok(stdout)) => Ok(text::printed_text(stdout.as_slice())),
        Reply::Ran(Err(_)) => Err(make_git_error()),
        _ => unreached(),
    }
}

/// A digit of a number in base 16, in lower case.
pub open spec fn is_lower_hex(c: char) -> bool {
    '0' <= c <= '9' || 'a' <= c <= 'f'
}

/// `s` is a random UUID in its usual form: five groups of lower case
/// hexadecimal digits, with the version and the variant in their places.
pub open spec fn is_v4_text(s: Seq<char>) -> bool {
    &&& s.len() == 36
    &&& forall|i: int|
        0 <= i < 36 ==> if i == 8 || i == 13 || i == 18 || i == 23 {
            #[trigger] s[i] == '-'
        } else {
            is_lower_hex(s[i])
        }
    &&& s[14] == '4'
    &&& s[19] == '8' || s[19] == '9' || s[19] == 'a' || s[19] == 'b'
}

/// There are texts of that form.
pub proof fn v4_text_exists()
    ensures
        exists|id: Seq<char>| is_v4_text(id),
{
    let id = Seq::new(
        36,
        |i: int|
            if i == 8 || i == 13 || i == 18 || i == 23 {
                '-'
            } else if i == 14 {
                '4'
            } else {
                '8'
            },
    );
    assert(is_v4_text(id));
}

/// Calls `uuid::Uuid::new_v4` and formats the result with its `Display`: a
/// random UUID, hyphenated and in lower case. Which one is up to chance. The
/// call panics if the system has no random numbers to give.
#[verifier::external_body]
pub(crate) fn fresh_id() -> (id: String)
    ensures
        is_v4_text(id@),
{
    uuid::Uuid::new_v4().to_string()
}

/// What the names of savepoint branches start with.
pub open spec fn savepoint_prefix() -> Seq<char> {
    "savepoint/"@
}

/// `branch` is a branch that a session works on.
pub open spec fn names_savepoint(branch: Seq<char>) -> bool {
    savepoint_prefix().is_prefix_of(branch)
}

/// Whether a branch is one that a session works on.
pub fn is_savepoint_branch(branch: &str) -> (r: bool)
    ensures
        r == names_savepoint(branch@),
        r == (branch@.len() >= 10 && branch@[0] == 's' && branch@[1] == 'a' && branch@[2] == 'v'
            && branch@[3] == 'e' && branch@[4] == 'p' && branch@[5] == 'o' && branch@[6] == 'i'
            && branch@[7] == 'n' && branch@[8] == 't' && branch@[9] == '/'),
{
    proof {
        crate::laws::beginning::savepoint_branches_by_their_characters(branch@);
    }
    text::starts_with(branch, "savepoint/")
}

/// The savepoint branch for an id.
pub fn savepoint_branch_name(id: &str) -> (name: String)
    ensures
        name@ == savepoint_prefix() + id@,
        name@ == "savepoint/"@ + id@,
{
    "savepoint/".to_owned().concat(id)
}

/// Waiting for git to switch to a branch.
#[derive(Debug, PartialEq, Eq)]
pub struct BranchState {
    pub name: String,
}

/// The view of a [`BranchState`].
pub struct BranchView {
    pub name: Seq<char>,
}

impl View for BranchState {
    type V = BranchView;

    open spec fn view(&self) -> BranchView {
        BranchView { name: self.name@ }
    }
}

impl BranchView {
    /// Switching to a branch of a given name, which is created or not. In a dry
    /// run it is only said.
    pub open spec fn switch(name: Seq<char>, create: bool, dryrun: bool) -> TurnView<
        BranchView,
        Seq<char>,
    > {
        let said = "Switching to branch "@ + name + "!"@;
        if dryrun {
            TurnView::returning(
                seq![OutputView::log(Tint::Green, "(dry run) "@ + said)],
                Ok(name),
            )
        } else {
            TurnView::asking(
                seq![OutputView::log(Tint::Green, said)],
                RequestView::Run(
                    if create {
                        CommandView::git_checkout_new(name)
                    } else {
                        CommandView::git_checkout(name)
                    },
                ),
                BranchView { name },
            )
        }
    }

    /// Switching to a branch: to the one that is named, or to a new savepoint
    /// branch with this id.
    pub open spec fn begin(name: Option<Seq<char>>, dryrun: bool, id: Seq<char>) -> TurnView<
        BranchView,
        Seq<char>,
    > {
        match name {
            Some(name) => Self::switch(name, false, dryrun),
            None => Self::switch(savepoint_prefix() + id, true, dryrun),
        }
    }

    /// The kind of reply that is waited for.
    pub open spec fn awaits(self) -> ReplyKind {
        ReplyKind::Ran
    }

    /// The turn that a reply leads to.
    pub open spec fn after(self, reply: ReplyView) -> TurnView<BranchView, Seq<char>> {
        match reply {
            ReplyView::Ran(Ok(_)) => TurnView::returning(seq![], Ok(self.name)),
            _ => TurnView::returning(seq![], Err(git_error())),
        }
    }
}

/// Switches to a branch of a given name, which is created or not.
pub fn switch_branch(name: String, create: bool, dryrun: bool) -> (turn: Turn<BranchState, String>)
    ensures
        turn@ == BranchView::switch(name@, create, dryrun),
{
    let said = "Switching to branch ".to_owned().concat(name.as_str()).concat("!");
    if dryrun {
        return finish(
            show(make_log(Tint::Green, "(dry run) ".to_owned().concat(said.as_str()))),
            name,
        );
    }
    let command = if create {
        checkout_new_command(name.as_str())
    } else {
        checkout_command(name.as_str())
    };
    ask(show(make_log(Tint::Green, said)), Request::Run(command), BranchState { name })
}

/// Switches to a branch: to the one that is named, or to a savepoint branch that
/// is created under a fresh name.
pub fn branch(name: Option<&str>, dryrun: bool) -> (turn: Turn<BranchState, String>)
    ensures
        name matches Some(n) ==> turn@ == BranchView::switch(n@, false, dryrun),
        name is None ==> exists|id: Seq<char>|
            is_v4_text(id) && turn@ == #[trigger] BranchView::begin(None, dryrun, id),
{
    match name {
        Some(name) => switch_branch(name.to_owned(), false, dryrun),
        None => {
            let id = fresh_id();
            let turn = switch_branch(savepoint_branch_name(id.as_str()), true, dryrun);
            assert(turn@ == BranchView::begin(None, dryrun, id@));
            turn
        },
    }
}

impl BranchState {
    /// Goes on with the outcome of the checkout.
    pub fn resume(self, reply: Reply) -> (turn: Turn<BranchState, String>)
        requires
            reply@.kind() == self@.awaits(),
        ensures
            turn@ == self@.after(reply@),
    {
        match reply {
            Reply::Ran(Ok(_)) => finish(show_nothing(), self.name),
            _ => fail_with(show_nothing(), make_git_error()),
        }
    }
}

/// Waiting for git to commit.
#[derive(Debug, PartialEq, Eq)]
pub struct CommitState {}

impl View for CommitState {
    type V = CommitState;

    open spec fn view(&self) -> CommitState {
        *self
    }
}

impl CommitState {
    /// Committing all changes. In a dry run it is only said.
    pub open spec fn begin(message: Seq<char>, dryrun: bool) -> TurnView<CommitState, ()> {
        if dryrun {
            TurnView::returning(
                seq![OutputView::log(Tint::Green, "(dry run) Autosaving!"@)],
                Ok(()),
            )
        } else {
            TurnView::asking(
                seq![OutputView::log(Tint::Green, "Autosaving!"@)],
                RequestView::Run(CommandView::git_commit_all(message)),
                CommitState {  },
            )
        }
    }

    /// The kind of reply that is waited for.
    pub open spec fn awaits(self) -> ReplyKind {
        ReplyKind::Ran
    }

    /// The turn that a reply leads to.
    pub open spec fn after(self, reply: ReplyView) -> TurnView<CommitState, ()> {
        match reply {
            ReplyView::Ran(Ok(_)) => TurnView::returning(seq![], Ok(())),
            _ => TurnView::returning(
                seq![OutputView::log(Tint::Red, "Fatal error!"@)],
                Err(
                    ErrorView::with(
                        "Git command error."@,
                        "Consider manually removing the `.checkpoint.error` file"@,
                    ),
                ),
            ),
        }
    }
}

/// Commits all changes of tracked files.
pub fn commit(message: &str, dryrun: bool) -> (turn: Turn<CommitState, ()>)
    ensures
        turn@ == CommitState::begin(message@, dryrun),
{
    if dryrun {
        return finish(show(make_log(Tint::Green, "(dry run) Autosaving!".to_owned())), ());
    }
    ask(
        show(make_log(Tint::Green, "Autosaving!".to_owned())),
        Request::Run(commit_all_command(message)),
        CommitState {  },
    )
}

impl CommitState {
    /// Goes on with the outcome of the commit.
    pub fn resume(self, reply: Reply) -> (turn: Turn<CommitState, ()>)
        requires
            reply@.kind() == self@.awaits(),
        ensures
            turn@ == self@.after(reply@),
    {
        match reply {
            Reply::Ran(Ok(_)) => finish(show_nothing(), ()),
            _ => fail_with(
                show(make_log(Tint::Red, "Fatal error!".to_owned())),
                make_error_with(
                    "Git command error.".to_owned(),
                    "Consider manually removing the `.checkpoint.error` file",
                ),
            ),
        }
    }
}

} // verus!
