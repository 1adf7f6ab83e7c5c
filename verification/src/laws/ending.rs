//! Laws of finalizing a session.

use vstd::prelude::*;

use crate::console::{MessageView, Tint};
use crate::finalize::FinalizeView;
use crate::git::BranchView;
use crate::laws::history;
use crate::laws::history::{Input, Machine};
use crate::merge::MergeView;
use crate::protocol::{CommandView, FailureKind, IoKind, Marker, ReplyView, RequestView};
use crate::turn::{ErrorView, NextView, OutputView};

verus! {

/// All that finalizing asks for, in order, where nothing fails: `starting_branch`
/// is what the statefile names, and `savepoint_branch` what is checked out.
pub open spec fn finalize_plan(
    message: Option<Seq<char>>,
    starting_branch: Seq<char>,
    savepoint_branch: Seq<char>,
) -> Seq<RequestView> {
    seq![
        RequestView::Run(CommandView::git_version()),
        RequestView::Run(CommandView::git_inside_repo()),
        RequestView::Read(Marker::Statefile),
        RequestView::Run(CommandView::git_current_branch()),
        RequestView::Run(CommandView::git_checkout(starting_branch)),
        RequestView::Run(CommandView::git_merge_squash(savepoint_branch)),
        RequestView::Run(
            CommandView::git_commit(crate::merge::merge_message(message, savepoint_branch)),
        ),
        RequestView::Remove(Marker::Errfile),
        RequestView::Remove(Marker::Statefile),
    ]
}

/// The branch in the reply to reading the statefile.
pub open spec fn branch_read(reply: ReplyView) -> Seq<char> {
    match reply {
        ReplyView::Text(Ok(text)) => crate::text::trimmed(text),
        _ => seq![],
    }
}

/// The branch in the reply to asking for the one that is checked out.
pub open spec fn branch_told(reply: ReplyView) -> Seq<char> {
    match reply {
        ReplyView::Ran(Ok(stdout)) => crate::git::branch_in(stdout),
        _ => seq![],
    }
}

/// The plan for the branches that the replies tell of.
pub open spec fn plan_of(message: Option<Seq<char>>, inputs: Seq<Input>) -> Seq<RequestView> {
    finalize_plan(message, branch_read(inputs[2].reply), branch_told(inputs[3].reply))
}

/// The state in which the reply to each request of the plan is waited for.
spec fn state_in_plan(message: Option<Seq<char>>, inputs: Seq<Input>, n: nat) -> FinalizeView {
    let dryrun = false;
    let starting_branch = branch_read(inputs[2].reply);
    let savepoint_branch = branch_told(inputs[3].reply);
    let msg = message;
    if n == 0 {
        FinalizeView::CheckingGit { message, dryrun }
    } else if n == 1 {
        FinalizeView::CheckingRepo { message, dryrun }
    } else if n == 2 {
        FinalizeView::Reading { message, dryrun }
    } else if n == 7 {
        FinalizeView::RemovingErrfile { starting_branch }
    } else if n == 8 {
        FinalizeView::RemovingStatefile { starting_branch }
    } else {
        let merge = if n == 3 {
            MergeView::AskingBranch { starting_branch, msg, dryrun }
        } else if n == 4 {
            MergeView::Switching {
                branch: BranchView { name: starting_branch },
                savepoint_branch,
                msg,
            }
        } else if n == 5 {
            MergeView::Squashing { savepoint_branch, msg }
        } else {
            MergeView::Committing
        };
        FinalizeView::Merging { starting_branch, dryrun, merge }
    }
}

/// The first `n` replies are of success, but perhaps the one about the error
/// file.
pub open spec fn went_well(inputs: Seq<Input>, n: nat) -> bool {
    forall|k: int| 0 <= k < n && k != 7 ==> !(#[trigger] inputs[k]).reply.is_failure()
}

/// The error that a failure of each request of the plan leads to.
pub open spec fn plan_error(n: nat, reply: ReplyView) -> ErrorView {
    if n == 0 {
        crate::git::availability(reply)->Err_0
    } else if n == 1 {
        crate::git::repo_presence(reply)->Err_0
    } else if n == 2 {
        crate::files::recorded_branch(reply)->Err_0
    } else if n == 3 || n == 4 {
        crate::git::git_error()
    } else if n == 5 {
        crate::merge::squash_error()
    } else if n == 6 {
        crate::merge::merge_commit_error()
    } else {
        crate::files::completion(reply)->Err_0
    }
}

proof fn lemma_finalize_turn(message: Option<Seq<char>>, inputs: Seq<Input>, n: nat)
    requires
        history::is_history(FinalizeView::begin(message, false), inputs),
        n <= inputs.len(),
    ensures
        n <= 9,
        match history::turn_at(FinalizeView::begin(message, false), inputs, n).next {
            NextView::Do(request, state) => {
                &&& n < 9
                &&& request == plan_of(message, inputs)[n as int]
                &&& state == state_in_plan(message, inputs, n)
                &&& went_well(inputs, n)
            },
            NextView::Return(Ok(())) => n == 9 && went_well(inputs, n),
            NextView::Return(Err(error)) => {
                &&& 0 < n && n != 8
                &&& inputs[n - 1].reply.is_failure()
                &&& error == plan_error((n - 1) as nat, inputs[n - 1].reply)
            },
        },
    decreases n,
{
    let first = FinalizeView::begin(message, false);
    if n > 0 {
        let m = (n - 1) as nat;
        lemma_finalize_turn(message, inputs, m);
        assert(history::turn_at(first, inputs, m).next is Do);
        assert(history::turn_at(first, inputs, n) == state_in_plan(message, inputs, m).step(
            inputs[m as int],
        ));
    }
}

/// Finalizing asks for one thing after the other, in a fixed order. It succeeds
/// if nothing fails but perhaps the removal of the error file, and ends with an
/// error that tells what failed as soon as anything else does.
pub proof fn finalize_follows_its_plan(message: Option<Seq<char>>, inputs: Seq<Input>)
    requires
        history::is_history(FinalizeView::begin(message, false), inputs),
    ensures
        inputs.len() <= 9,
        forall|n: nat|
            n <= inputs.len() ==> match #[trigger] history::request_at(
                FinalizeView::begin(message, false),
                inputs,
                n,
            ) {
                Some(request) => n < 9 && request == plan_of(message, inputs)[n as int],
                None => n == inputs.len(),
            },
        history::succeeds(FinalizeView::begin(message, false), inputs) == (inputs.len() == 9
            && went_well(inputs, 9)),
        0 < inputs.len() && inputs.len() != 8 && inputs.last().reply.is_failure() ==> history::fails_with(
            FinalizeView::begin(message, false),
            inputs,
            plan_error((inputs.len() - 1) as nat, inputs.last().reply),
        ),
        forall|error: ErrorView| #[trigger]
            history::fails_with(FinalizeView::begin(message, false), inputs, error) ==> 0
                < inputs.len() && inputs.len() != 8 && inputs.last().reply.is_failure(),
{
    let first = FinalizeView::begin(message, false);
    assert forall|n: nat| n <= inputs.len() implies match #[trigger] history::request_at(
        first,
        inputs,
        n,
    ) {
        Some(request) => n < 9 && request == plan_of(message, inputs)[n as int],
        None => n == inputs.len(),
    } by {
        lemma_finalize_turn(message, inputs, n);
        if n < inputs.len() {
            assert(history::turn_at(first, inputs, n).next is Do);
        }
    }
    lemma_finalize_turn(message, inputs, inputs.len());
}

/// The statefile is removed only once the savepoints are merged into the branch
/// that it names and committed there: until then finalizing can be tried again.
pub proof fn statefile_outlives_a_failed_merge(
    message: Option<Seq<char>>,
    inputs: Seq<Input>,
    n: nat,
)
    requires
        history::is_history(FinalizeView::begin(message, false), inputs),
        n <= inputs.len(),
        history::request_at(FinalizeView::begin(message, false), inputs, n) == Some(
            RequestView::Remove(Marker::Statefile),
        ),
    ensures
        n == 8,
        forall|k: nat|
            k < 7 ==> #[trigger] history::request_at(
                FinalizeView::begin(message, false),
                inputs,
                k,
            ) == Some(plan_of(message, inputs)[k as int]),
        went_well(inputs, 7),
{
    lemma_finalize_turn(message, inputs, n);
    assert forall|k: nat| k < 7 implies #[trigger] history::request_at(
        FinalizeView::begin(message, false),
        inputs,
        k,
    ) == Some(plan_of(message, inputs)[k as int]) by {
        assert(history::turn_at(FinalizeView::begin(message, false), inputs, k).next is Do);
        lemma_finalize_turn(message, inputs, k);
    }
}

/// A dry run of finalizing changes neither a file nor the repository. It reads
/// the statefile and asks for the current branch, and succeeds if it gets both.
pub proof fn dry_finalize_changes_nothing(message: Option<Seq<char>>, inputs: Seq<Input>)
    requires
        history::is_history(FinalizeView::begin(message, true), inputs),
    ensures
        inputs.len() <= 2,
        forall|n: nat|
            n <= inputs.len() ==> match #[trigger] history::request_at(
                FinalizeView::begin(message, true),
                inputs,
                n,
            ) {
                Some(request) => request.is_read_only(),
                None => true,
            },
        history::succeeds(FinalizeView::begin(message, true), inputs) == (inputs.len() == 2
            && went_well(inputs, 2)),
{
    let first = FinalizeView::begin(message, true);
    reveal_with_fuel(history::turn_at, 4);
    if inputs.len() > 0 {
        assert(history::turn_at(first, inputs, 0).next is Do);
    }
    if inputs.len() > 1 {
        assert(history::turn_at(first, inputs, 1).next is Do);
    }
    if inputs.len() > 2 {
        assert(history::turn_at(first, inputs, 2).next is Do);
    }
    assert forall|n: nat| n <= inputs.len() implies match #[trigger] history::request_at(
        first,
        inputs,
        n,
    ) {
        Some(request) => request.is_read_only(),
        None => true,
    } by {
        assert(n == 0 || n == 1 || n == 2);
    }
}

/// Without a statefile that can be read, finalizing ends there with an error,
/// and has changed nothing.
pub proof fn finalize_needs_a_statefile(
    message: Option<Seq<char>>,
    dryrun: bool,
    inputs: Seq<Input>,
    n: nat,
)
    requires
        history::is_history(FinalizeView::begin(message, dryrun), inputs),
        n < inputs.len(),
        history::request_at(FinalizeView::begin(message, dryrun), inputs, n) == Some(
            RequestView::Read(Marker::Statefile),
        ),
        inputs[n as int].reply.is_failure(),
    ensures
        inputs.len() == n + 1,
        history::fails_with(
            FinalizeView::begin(message, dryrun),
            inputs,
            ErrorView::with(
                "Could not read statefile"@,
                "Consider running 'savepoint start' first"@,
            ),
        ),
        forall|k: nat|
            k <= n ==> match #[trigger] history::request_at(
                FinalizeView::begin(message, dryrun),
                inputs,
                k,
            ) {
                Some(request) => request.is_read_only(),
                None => true,
            },
{
    let first = FinalizeView::begin(message, dryrun);
    assert(history::turn_at(first, inputs, n).next is Do);
    if dryrun {
        dry_finalize_changes_nothing(message, inputs);
        reveal_with_fuel(history::turn_at, 3);
        assert(n == 0);
        if inputs.len() > 1 {
            assert(history::turn_at(first, inputs, 1).next is Do);
        }
    } else {
        lemma_finalize_turn(message, inputs, n);
        assert(n == 2);
        lemma_finalize_turn(message, inputs, 3);
        if inputs.len() > 3 {
            assert(history::turn_at(first, inputs, 3).next is Do);
            assert(!inputs[2].reply.is_failure());
        }
        assert forall|k: nat| k <= n implies match #[trigger] history::request_at(
            first,
            inputs,
            k,
        ) {
            Some(request) => request.is_read_only(),
            None => true,
        } by {
            lemma_finalize_turn(message, inputs, k);
            assert(k == 0 || k == 1 || k == 2);
        }
    }
}

/// Whether there was an error file to remove makes no difference: the statefile
/// is removed next.
pub proof fn errfile_removal_is_best_effort(
    state: FinalizeView,
    one: ReplyView,
    other: ReplyView,
)
    requires
        state is RemovingErrfile,
    ensures
        state.after(one) == state.after(other),
        state.after(one).next is Do,
        state.after(one).next->Do_0 == RequestView::Remove(Marker::Statefile),
{
}


/// Finalizing, word for word, up to the merge: git is looked for, then the
/// repository, and then the statefile is read.
pub proof fn finalize_word_for_word_to_the_statefile(
    message: Option<Seq<char>>,
    inputs: Seq<Input>,
)
    requires
        history::is_history(FinalizeView::begin(message, false), inputs),
    ensures
        history::shows_and_asks(
            history::turn_at(FinalizeView::begin(message, false), inputs, 0),
            seq![],
            RequestView::Run(
                (CommandView {
                    program: "git"@,
                    args: seq!["--version"@],
                    capture: true,
                    combine_output: false,
                    log_command: false,
                }),
            ),
        ),
        inputs.len() >= 1 ==> match inputs[0].reply {
            ReplyView::Ran(Ok(_)) => history::shows_and_asks(
                history::turn_at(FinalizeView::begin(message, false), inputs, 1),
                seq![],
                RequestView::Run(
                    (CommandView {
                        program: "git"@,
                        args: seq!["rev-parse"@, "--is-inside-work-tree"@],
                        capture: true,
                        combine_output: false,
                        log_command: false,
                    }),
                ),
            ),
            ReplyView::Ran(Err(failure)) => history::shows_and_fails(
                history::turn_at(FinalizeView::begin(message, false), inputs, 1),
                seq![],
                if failure.kind == FailureKind::Run(IoKind::NotFound) {
                    "could not find `git` command"@
                } else {
                    "checking for `git` command failed with unexpected error "@ + failure.text
                },
                None,
            ),
            _ => false,
        },
        inputs.len() >= 2 ==> match inputs[1].reply {
            ReplyView::Ran(Ok(_)) => history::shows_and_asks(
                history::turn_at(FinalizeView::begin(message, false), inputs, 2),
                seq![],
                RequestView::Read(Marker::Statefile),
            ),
            ReplyView::Ran(Err(_)) => history::shows_and_fails(
                history::turn_at(FinalizeView::begin(message, false), inputs, 2),
                seq![],
                "Current directory is not a git repository, consider running 'git init'"@,
                None,
            ),
            _ => false,
        },
        inputs.len() >= 3 ==> match inputs[2].reply {
            ReplyView::Text(Ok(_)) => history::shows_and_asks(
                history::turn_at(FinalizeView::begin(message, false), inputs, 3),
                seq![],
                RequestView::Run(
                    (CommandView {
                        program: "git"@,
                        args: seq!["rev-parse"@, "--abbrev-ref"@, "HEAD"@],
                        capture: true,
                        combine_output: false,
                        log_command: false,
                    }),
                ),
            ),
            ReplyView::Text(Err(_)) => history::shows_and_fails(
                history::turn_at(FinalizeView::begin(message, false), inputs, 3),
                seq![],
                "Could not read statefile"@,
                Some("Consider running 'savepoint start' first"@),
            ),
            _ => false,
        },
        inputs.len() >= 4 ==> match inputs[3].reply {
            ReplyView::Ran(Ok(_)) => true,
            ReplyView::Ran(Err(_)) => history::shows_and_fails(
                history::turn_at(FinalizeView::begin(message, false), inputs, 4),
                seq![],
                "Git command error."@,
                Some("Check if current directory is a git repository"@),
            ),
            _ => false,
        },
{
    lemma_finalize_step(message, inputs, 0);
    lemma_finalize_step(message, inputs, 1);
    lemma_finalize_step(message, inputs, 2);
    lemma_finalize_step(message, inputs, 3);
}

proof fn lemma_finalize_step(message: Option<Seq<char>>, inputs: Seq<Input>, n: nat)
    requires
        history::is_history(FinalizeView::begin(message, false), inputs),
    ensures
        n < inputs.len() ==> n < 9 && history::turn_at(
            FinalizeView::begin(message, false),
            inputs,
            n + 1,
        ) == state_in_plan(message, inputs, n).step(inputs[n as int])
            && inputs[n as int].reply.kind() == state_in_plan(message, inputs, n).awaits(),
{
    if n < inputs.len() {
        lemma_finalize_turn(message, inputs, n);
        assert(history::turn_at(FinalizeView::begin(message, false), inputs, n).next is Do);
    }
}

/// Finalizing, word for word, from the merge on. `starting_branch` is what the
/// statefile holds and `savepoint_branch` what git printed, but for white space
/// around them. The commit carries the message that was given, all of it, or one
/// that names the savepoint branch.
pub proof fn finalize_word_for_word_from_the_merge(
    message: Option<Seq<char>>,
    inputs: Seq<Input>,
    text: Seq<char>,
    stdout: Seq<u8>,
    before_base: Seq<char>,
    starting_branch: Seq<char>,
    after_base: Seq<char>,
    before: Seq<char>,
    savepoint_branch: Seq<char>,
    after: Seq<char>,
)
    requires
        history::is_history(FinalizeView::begin(message, false), inputs),
        inputs.len() >= 4,
        inputs[2].reply == ReplyView::Text(Ok(text)),
        text == before_base + starting_branch + after_base,
        crate::text::is_blank(before_base),
        crate::text::is_trimmed(starting_branch),
        crate::text::is_blank(after_base),
        inputs[3].reply == ReplyView::Ran(Ok(stdout)),
        crate::text::utf8_lossy(stdout) == before + savepoint_branch + after,
        crate::text::is_blank(before),
        crate::text::is_trimmed(savepoint_branch),
        crate::text::is_blank(after),
    ensures
        history::shows_and_asks(
            history::turn_at(FinalizeView::begin(message, false), inputs, 4),
            seq![
                OutputView::Log(
                    (MessageView {
                        text: "Merging squashed savepoints from "@ + savepoint_branch + " to "@ + starting_branch + "!"@,
                        tint: Tint::Green,
                    }),
                ),
                OutputView::Log(
                    (MessageView {
                        text: "Switching to branch "@ + starting_branch + "!"@,
                        tint: Tint::Green,
                    }),
                ),
            ],
            RequestView::Run(
                (CommandView {
                    program: "git"@,
                    args: seq!["checkout"@, starting_branch],
                    capture: false,
                    combine_output: false,
                    log_command: false,
                }),
            ),
        ),
        inputs.len() >= 5 ==> match inputs[4].reply {
            ReplyView::Ran(Ok(_)) => history::shows_and_asks(
                history::turn_at(FinalizeView::begin(message, false), inputs, 5),
                seq![],
                RequestView::Run(
                    (CommandView {
                        program: "git"@,
                        args: seq!["merge"@, "--squash"@, savepoint_branch],
                        capture: false,
                        combine_output: false,
                        log_command: false,
                    }),
                ),
            ),
            ReplyView::Ran(Err(_)) => history::shows_and_fails(
                history::turn_at(FinalizeView::begin(message, false), inputs, 5),
                seq![],
                "Git command error."@,
                Some("Check if current directory is a git repository"@),
            ),
            _ => false,
        },
        inputs.len() >= 6 ==> match inputs[5].reply {
            ReplyView::Ran(Ok(_)) => match message {
                Some(given) => history::shows_and_asks(
                    history::turn_at(FinalizeView::begin(message, false), inputs, 6),
                    seq![],
                    RequestView::Run(
                        (CommandView {
                            program: "git"@,
                            args: seq!["commit"@, "-m"@, given],
                            capture: false,
                            combine_output: false,
                            log_command: false,
                        }),
                    ),
                ),
                None => history::shows_and_asks(
                    history::turn_at(FinalizeView::begin(message, false), inputs, 6),
                    seq![],
                    RequestView::Run(
                        (CommandView {
                            program: "git"@,
                            args: seq!["commit"@, "-m"@, "Savepoint: changes from "@ + savepoint_branch + " integrated!"@],
                            capture: false,
                            combine_output: false,
                            log_command: false,
                        }),
                    ),
                ),
            },
            ReplyView::Ran(Err(_)) => history::shows_and_fails(
                history::turn_at(FinalizeView::begin(message, false), inputs, 6),
                seq![],
                "Squashing commits failed."@,
                Some("Resolve conflicts manually and commit."@),
            ),
            _ => false,
        },
        inputs.len() >= 7 ==> match inputs[6].reply {
            ReplyView::Ran(Ok(_)) => history::shows_and_asks(
                history::turn_at(FinalizeView::begin(message, false), inputs, 7),
                seq![],
                RequestView::Remove(Marker::Errfile),
            ),
            ReplyView::Ran(Err(_)) => history::shows_and_fails(
                history::turn_at(FinalizeView::begin(message, false), inputs, 7),
                seq![],
                "Git commit failed."@,
                Some("Check that the squash produced staged changes."@),
            ),
            _ => false,
        },
        inputs.len() >= 8 ==> inputs[7].reply is Done && history::shows_and_asks(
                history::turn_at(FinalizeView::begin(message, false), inputs, 8),
                seq![],
                RequestView::Remove(Marker::Statefile),
            ),
        inputs.len() >= 9 ==> match inputs[8].reply {
            ReplyView::Done(Ok(())) => history::shows_and_returns(
                history::turn_at(FinalizeView::begin(message, false), inputs, 9),
                seq![
                    OutputView::Log(
                        (MessageView {
                            text: "Finalized! Savepoints squashed into "@ + starting_branch + "."@,
                            tint: Tint::Green,
                        }),
                    ),
                ],
                (),
            ),
            ReplyView::Done(Err(failure)) => history::shows_and_fails(
                history::turn_at(FinalizeView::begin(message, false), inputs, 9),
                seq![],
                failure.text,
                None,
            ),
            _ => false,
        },
{
    crate::text::trimming_leaves_the_middle(before_base, starting_branch, after_base);
    crate::text::trimming_leaves_the_middle(before, savepoint_branch, after);
    lemma_finalize_step(message, inputs, 3);
    lemma_finalize_step(message, inputs, 4);
    lemma_finalize_step(message, inputs, 5);
    lemma_finalize_step(message, inputs, 6);
    lemma_finalize_step(message, inputs, 7);
    lemma_finalize_step(message, inputs, 8);
}

/// A dry run of finalizing, word for word.
pub proof fn dry_finalize_word_for_word(
    message: Option<Seq<char>>,
    inputs: Seq<Input>,
    text: Seq<char>,
    before_base: Seq<char>,
    starting_branch: Seq<char>,
    after_base: Seq<char>,
    before: Seq<char>,
    savepoint_branch: Seq<char>,
    after: Seq<char>,
)
    requires
        history::is_history(FinalizeView::begin(message, true), inputs),
        inputs.len() >= 1 && inputs[0].reply is Text && inputs[0].reply->Text_0 is Ok
            ==> inputs[0].reply == ReplyView::Text(Ok(text)),
        text == before_base + starting_branch + after_base,
        crate::text::is_blank(before_base),
        crate::text::is_trimmed(starting_branch),
        crate::text::is_blank(after_base),
        crate::text::is_blank(before),
        crate::text::is_trimmed(savepoint_branch),
        crate::text::is_blank(after),
    ensures
        history::shows_and_asks(
            history::turn_at(FinalizeView::begin(message, true), inputs, 0),
            seq![],
            RequestView::Read(Marker::Statefile),
        ),
        inputs.len() >= 1 ==> match inputs[0].reply {
            ReplyView::Text(Ok(_)) => history::shows_and_asks(
                history::turn_at(FinalizeView::begin(message, true), inputs, 1),
                seq![],
                RequestView::Run(
                    (CommandView {
                        program: "git"@,
                        args: seq!["rev-parse"@, "--abbrev-ref"@, "HEAD"@],
                        capture: true,
                        combine_output: false,
                        log_command: false,
                    }),
                ),
            ),
            ReplyView::Text(Err(_)) => history::shows_and_fails(
                history::turn_at(FinalizeView::begin(message, true), inputs, 1),
                seq![],
                "Could not read statefile"@,
                Some("Consider running 'savepoint start' first"@),
            ),
            _ => false,
        },
        inputs.len() >= 2 ==> match inputs[1].reply {
            ReplyView::Ran(Ok(stdout)) => crate::text::utf8_lossy(stdout) == before
                + savepoint_branch + after ==> history::shows_and_returns(
                history::turn_at(FinalizeView::begin(message, true), inputs, 2),
                seq![
                    OutputView::Log(
                        (MessageView {
                            text: "(dry run) "@ + ("Merging squashed savepoints from "@ + savepoint_branch + " to "@ + starting_branch + "!"@),
                            tint: Tint::Green,
                        }),
                    ),
                    OutputView::Log(
                        (MessageView {
                            text: "Finalized! Savepoints squashed into "@ + starting_branch + "."@,
                            tint: Tint::Green,
                        }),
                    ),
                ],
                (),
            ),
            ReplyView::Ran(Err(_)) => history::shows_and_fails(
                history::turn_at(FinalizeView::begin(message, true), inputs, 2),
                seq![],
                "Git command error."@,
                Some("Check if current directory is a git repository"@),
            ),
            _ => false,
        },
{
    let first = FinalizeView::begin(message, true);
    crate::text::trimming_leaves_the_middle(before_base, starting_branch, after_base);
    crate::text::trimming_leaves_the_middle(before, savepoint_branch, after);
    reveal_with_fuel(history::turn_at, 3);
    if inputs.len() >= 1 {
        assert(history::turn_at(first, inputs, 0).next is Do);
    }
    if inputs.len() >= 2 {
        assert(history::turn_at(first, inputs, 1).next is Do);
    }
}

} // verus!
