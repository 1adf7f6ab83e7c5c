//! Merging the savepoints of a session into one commit on its base branch.

use vstd::prelude::*;
use vstd::string::*;

use crate::console::Tint;
use crate::git::{
    branch, commit_command, current_branch, current_branch_command, merge_squash_command,
    BranchState, BranchView,
};
use crate::protocol::{CommandView, Reply, ReplyKind, ReplyView, Request, RequestView};
use crate::turn::{
    ask, fail_with, finish, make_error_with, make_log, show, show_before, show_nothing, ErrorView,
    Next, NextView, OutputView, Turn, TurnView,
};

verus! {

/// Merging a session.
#[derive(Debug, PartialEq, Eq)]
pub enum MergeState {
    /// Asking for the savepoint branch, which is the one checked out.
    AskingBranch { starting_branch: String, msg: Option<String>, dryrun: bool },
    /// Switching to the base branch.
    Switching { branch: BranchState, savepoint_branch: String, msg: Option<String> },
    /// Merging the savepoint branch, squashed.
    Squashing { savepoint_branch: String, msg: Option<String> },
    /// Committing the merged changes.
    Committing,
}

/// The view of a [`MergeState`].
pub enum MergeView {
    AskingBranch { starting_branch: Seq<char>, msg: Option<Seq<char>>, dryrun: bool },
    Switching { branch: BranchView, savepoint_branch: Seq<char>, msg: Option<Seq<char>> },
    Squashing { savepoint_branch: Seq<char>, msg: Option<Seq<char>> },
    Committing,
}

/// The view of an optional text.
pub open spec fn text_view(text: Option<String>) -> Option<Seq<char>> {
    match text {
        Some(text) => Some(text@),
        None => None,
    }
}

impl View for MergeState {
    type V = MergeView;

    open spec fn view(&self) -> MergeView {
        match self {
            MergeState::AskingBranch { starting_branch, msg, dryrun } => MergeView::AskingBranch {
                starting_branch: starting_branch@,
                msg: text_view(*msg),
                dryrun: *dryrun,
            },
            MergeState::Switching { branch, savepoint_branch, msg } => MergeView::Switching {
                branch: branch@,
                savepoint_branch: savepoint_branch@,
                msg: text_view(*msg),
            },
            MergeState::Squashing { savepoint_branch, msg } => MergeView::Squashing {
                savepoint_branch: savepoint_branch@,
                msg: text_view(*msg),
            },
            MergeState::Committing => MergeView::Committing,
        }
    }
}

/// The message of the merged commit: the one that was given, or one that names
/// the savepoint branch.
pub open spec fn merge_message(msg: Option<Seq<char>>, savepoint_branch: Seq<char>) -> Seq<char> {
    match msg {
        Some(msg) => msg,
        None => "Savepoint: changes from "@ + savepoint_branch + " integrated!"@,
    }
}

/// The error of a merge that git could not do.
pub open spec fn squash_error() -> ErrorView {
    ErrorView::with("Squashing commits failed."@, "Resolve conflicts manually and commit."@)
}

/// The error of a commit that git did not make.
pub open spec fn merge_commit_error() -> ErrorView {
    ErrorView::with("Git commit failed."@, "Check that the squash produced staged changes."@)
}

impl MergeView {
    /// Starting to merge.
    pub open spec fn begin(
        starting_branch: Seq<char>,
        msg: Option<Seq<char>>,
        dryrun: bool,
    ) -> TurnView<MergeView, ()> {
        TurnView::asking(
            seq![],
            RequestView::Run(CommandView::git_current_branch()),
            MergeView::AskingBranch { starting_branch, msg, dryrun },
        )
    }

    /// After switching to the base branch, or on the way to it.
    pub open spec fn switching(
        turn: TurnView<BranchView, Seq<char>>,
        savepoint_branch: Seq<char>,
        msg: Option<Seq<char>>,
    ) -> TurnView<MergeView, ()> {
        match turn.next {
            NextView::Do(request, branch) => TurnView::asking(
                turn.output,
                request,
                MergeView::Switching { branch, savepoint_branch, msg },
            ),
            NextView::Return(Ok(_)) => TurnView::asking(
                turn.output,
                RequestView::Run(CommandView::git_merge_squash(savepoint_branch)),
                MergeView::Squashing { savepoint_branch, msg },
            ),
            NextView::Return(Err(error)) => TurnView::returning(turn.output, Err(error)),
        }
    }

    /// The kind of reply that is waited for.
    pub open spec fn awaits(self) -> ReplyKind {
        ReplyKind::Ran
    }

    /// The turn that a reply leads to.
    pub open spec fn after(self, reply: ReplyView) -> TurnView<MergeView, ()> {
        match self {
            MergeView::AskingBranch {
                starting_branch,
                msg,
                dryrun,
            } => match crate::git::checked_out_branch(reply) {
                Ok(savepoint_branch) => {
                    let said = "Merging squashed savepoints from "@ + savepoint_branch + " to "@
                        + starting_branch + "!"@;
                    if dryrun {
                        TurnView::returning(
                            seq![OutputView::log(Tint::Green, "(dry run) "@ + said)],
                            Ok(()),
                        )
                    } else {
                        Self::switching(
                            BranchView::switch(starting_branch, false, dryrun),
                            savepoint_branch,
                            msg,
                        ).after_showing(seq![OutputView::log(Tint::Green, said)])
                    }
                },
                Err(error) => TurnView::returning(seq![], Err(error)),
            },
            MergeView::Switching { branch, savepoint_branch, msg } => Self::switching(
                branch.after(reply),
                savepoint_branch,
                msg,
            ),
            MergeView::Squashing { savepoint_branch, msg } => if reply.is_failure() {
                TurnView::returning(seq![], Err(squash_error()))
            } else {
                TurnView::asking(
                    seq![],
                    RequestView::Run(
                        CommandView::git_commit(merge_message(msg, savepoint_branch)),
                    ),
                    MergeView::Committing,
                )
            },
            MergeView::Committing => TurnView::returning(
                seq![],
                if reply.is_failure() {
                    Err(merge_commit_error())
                } else {
                    Ok(())
                },
            ),
        }
    }
}

/// Merges the savepoint branch that is checked out into the branch that the
/// session was started from, as one commit.
pub fn merge_squashed(starting_branch: String, msg: Option<String>, dryrun: bool) -> (turn: Turn<
    MergeState,
    (),
>)
    ensures
        turn@ == MergeView::begin(starting_branch@, text_view(msg), dryrun),
{
    ask(
        show_nothing(),
        Request::Run(current_branch_command()),
        MergeState::AskingBranch { starting_branch, msg, dryrun },
    )
}

fn after_branch(
    turn: Turn<BranchState, String>,
    savepoint_branch: String,
    msg: Option<String>,
) -> (r: Turn<MergeState, ()>)
    ensures
        r@ == MergeView::switching(turn@, savepoint_branch@, text_view(msg)),
{
    match turn.next {
        Next::Do(request, branch) => ask(
            turn.output,
            request,
            MergeState::Switching { branch, savepoint_branch, msg },
        ),
        Next::Return(Ok(_)) => {
            let command = merge_squash_command(savepoint_branch.as_str());
            ask(
                turn.output,
                Request::Run(command),
                MergeState::Squashing { savepoint_branch, msg },
            )
        },
        Next::Return(Err(error)) => fail_with(turn.output, error),
    }
}

/// The message of the merged commit.
fn make_merge_message(msg: Option<String>, savepoint_branch: &str) -> (message: String)
    ensures
        message@ == merge_message(text_view(msg), savepoint_branch@),
        match msg {
            Some(given) => message@ == given@,
            None => message@ == "Savepoint: changes from "@ + savepoint_branch@
                + " integrated!"@,
        },
{
    match msg {
        Some(msg) => msg,
        None => "Savepoint: changes from ".to_owned().concat(savepoint_branch).concat(
            " integrated!",
        ),
    }
}

impl MergeState {
    /// Goes on with the reply that is waited for.
    pub fn resume(self, reply: Reply) -> (turn: Turn<MergeState, ()>)
        requires
            reply@.kind() == self@.awaits(),
        ensures
            turn@ == self@.after(reply@),
    {
        match self {
            MergeState::AskingBranch { starting_branch, msg, dryrun } => match current_branch(
                reply,
            ) {
                Ok(savepoint_branch) => {
                    let said = "Merging squashed savepoints from ".to_owned().concat(
                        savepoint_branch.as_str(),
                    ).concat(" to ").concat(starting_branch.as_str()).concat("!");
                    if dryrun {
                        return finish(
                            show(
                                make_log(
                                    Tint::Green,
                                    "(dry run) ".to_owned().concat(said.as_str()),
                                ),
                            ),
                            (),
                        );
                    }
                    let output = show(make_log(Tint::Green, said));
                    // git checkout starting branch
                    let switching = branch(Some(starting_branch.as_str()), dryrun);
                    show_before(output, after_branch(switching, savepoint_branch, msg))
                },
                Err(error) => fail_with(show_nothing(), error),
            },
            MergeState::Switching { branch, savepoint_branch, msg } => after_branch(
                branch.resume(reply),
                savepoint_branch,
                msg,
            ),
            MergeState::Squashing { savepoint_branch, msg } => match reply {
                Reply::Ran(Ok(_)) => {
                    // Not the commit of an autosave, since only what the merge staged is
                    // committed and the error message is different.
                    let message = make_merge_message(msg, savepoint_branch.as_str());
                    ask(
                        show_nothing(),
                        Request::Run(commit_command(message.as_str())),
                        MergeState::Committing,
                    )
                },
                _ => fail_with(
                    show_nothing(),
                    make_error_with(
                        "Squashing commits failed.".to_owned(),
                        "Resolve conflicts manually and commit.",
                    ),
                ),
            },
            MergeState::Committing => match reply {
                Reply::Ran(Ok(_)) => finish(show_nothing(), ()),
                _ => fail_with(
                    show_nothing(),
                    make_error_with(
                        "Git commit failed.".to_owned(),
                        "Check that the squash produced staged changes.",
                    ),
                ),
            },
        }
    }
}

} // verus!
