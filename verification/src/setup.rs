//! Setting up a session, or going on with one.

use vstd::prelude::*;
use vstd::string::*;

use crate::files::{completed, create_statefile, is_there};
use crate::git::{
    branch, current_branch, current_branch_command, is_savepoint_branch, BranchState, BranchView,
};
use crate::protocol::{CommandView, Marker, Reply, ReplyKind, ReplyView, Request, RequestView};
use crate::turn::{
    ask, fail_with, finish, make_error_with, show_nothing, Error, ErrorView, Next, NextView, Turn,
    TurnView,
};

verus! {

/// Setting up a session.
#[derive(Debug, PartialEq, Eq)]
pub enum SetupState {
    /// Asking for the branch that is checked out.
    AskingBranch { dryrun: bool },
    /// Looking for the statefile.
    LookingForStatefile { starting_branch: String, dryrun: bool },
    /// Writing the statefile.
    Recording { dryrun: bool },
    /// Switching to a new savepoint branch.
    Branching { branch: BranchState },
}

/// The view of a [`SetupState`].
pub enum SetupView {
    AskingBranch { dryrun: bool },
    LookingForStatefile { starting_branch: Seq<char>, dryrun: bool },
    Recording { dryrun: bool },
    Branching { branch: BranchView },
}

impl View for SetupState {
    type V = SetupView;

    open spec fn view(&self) -> SetupView {
        match self {
            SetupState::AskingBranch { dryrun } => SetupView::AskingBranch { dryrun: *dryrun },
            SetupState::LookingForStatefile {
                starting_branch,
                dryrun,
            } => SetupView::LookingForStatefile {
                starting_branch: starting_branch@,
                dryrun: *dryrun,
            },
            SetupState::Recording { dryrun } => SetupView::Recording { dryrun: *dryrun },
            SetupState::Branching { branch } => SetupView::Branching { branch: branch@ },
        }
    }
}

/// The refusal to go on from a savepoint branch whose base is not known.
pub open spec fn no_base_error(branch: Seq<char>) -> ErrorView {
    ErrorView::with(
        "Cannot determine base branch for savepoint session on `"@ + branch
            + "`: no statefile found."@,
        "Switch to your work branch before running `savepoint start` or `savepoint finalize` to wrap up any existing session."@,
    )
}

impl SetupView {
    /// Starting to set up.
    pub open spec fn begin(dryrun: bool) -> TurnView<SetupView, ()> {
        TurnView::asking(
            seq![],
            RequestView::Run(CommandView::git_current_branch()),
            SetupView::AskingBranch { dryrun },
        )
    }

    /// After switching to the new branch, or on the way to it.
    pub open spec fn branching(turn: TurnView<BranchView, Seq<char>>) -> TurnView<SetupView, ()> {
        match turn.next {
            NextView::Do(request, branch) => TurnView::asking(
                turn.output,
                request,
                SetupView::Branching { branch },
            ),
            NextView::Return(Ok(_)) => TurnView::returning(turn.output, Ok(())),
            NextView::Return(Err(error)) => TurnView::returning(turn.output, Err(error)),
        }
    }

    /// The kind of reply that is waited for.
    pub open spec fn awaits(self) -> ReplyKind {
        match self {
            SetupView::AskingBranch { .. } => ReplyKind::Ran,
            SetupView::LookingForStatefile { .. } => ReplyKind::Exists,
            SetupView::Recording { .. } => ReplyKind::Done,
            SetupView::Branching { .. } => ReplyKind::Ran,
        }
    }

    /// The turn that a reply leads to. Where a savepoint branch is created, `id`
    /// is what it is named by.
    pub open spec fn after(self, reply: ReplyView, id: Seq<char>) -> TurnView<SetupView, ()> {
        match self {
            SetupView::AskingBranch { dryrun } => match crate::git::checked_out_branch(reply) {
                Ok(starting_branch) => TurnView::asking(
                    seq![],
                    RequestView::Exists(Marker::Statefile),
                    SetupView::LookingForStatefile { starting_branch, dryrun },
                ),
                Err(error) => TurnView::returning(seq![], Err(error)),
            },
            SetupView::LookingForStatefile {
                starting_branch,
                dryrun,
            } => match crate::files::presence(reply) {
                Ok(there) => if crate::git::names_savepoint(starting_branch) {
                    TurnView::returning(
                        seq![],
                        if there {
                            Ok(())
                        } else {
                            Err(no_base_error(starting_branch))
                        },
                    )
                } else {
                    TurnView::asking(
                        seq![],
                        RequestView::Write(Marker::Statefile, starting_branch),
                        SetupView::Recording { dryrun },
                    )
                },
                Err(error) => TurnView::returning(seq![], Err(error)),
            },
            SetupView::Recording { dryrun } => match crate::files::completion(reply) {
                Ok(()) => Self::branching(BranchView::begin(None, dryrun, id)),
                Err(error) => TurnView::returning(seq![], Err(error)),
            },
            SetupView::Branching { branch } => Self::branching(branch.after(reply)),
        }
    }
}

fn make_no_base_error(branch: &str) -> (error: Error)
    ensures
        error@ == no_base_error(branch@),
{
    make_error_with(
        "Cannot determine base branch for savepoint session on `".to_owned().concat(branch).concat(
            "`: no statefile found.",
        ),
        "Switch to your work branch before running `savepoint start` or `savepoint finalize` to wrap up any existing session.",
    )
}

/// Check if savepoint statefile exists and current branch is a savepoint
/// branch. If not, set up a new savepoint session by creating the statefile and
/// branching.
pub fn setup_or_resume(dryrun: bool) -> (turn: Turn<SetupState, ()>)
    ensures
        turn@ == SetupView::begin(dryrun),
{
    ask(
        show_nothing(),
        Request::Run(current_branch_command()),
        SetupState::AskingBranch { dryrun },
    )
}

fn after_branch(turn: Turn<BranchState, String>) -> (r: Turn<SetupState, ()>)
    ensures
        r@ == SetupView::branching(turn@),
{
    match turn.next {
        Next::Do(request, branch) => ask(turn.output, request, SetupState::Branching { branch }),
        Next::Return(Ok(_)) => finish(turn.output, ()),
        Next::Return(Err(error)) => fail_with(turn.output, error),
    }
}

impl SetupState {
    /// Goes on with the reply that is waited for.
    pub fn resume(self, reply: Reply) -> (turn: Turn<SetupState, ()>)
        requires
            reply@.kind() == self@.awaits(),
        ensures
            exists|id: Seq<char>|
                crate::git::is_v4_text(id) && turn@ == #[trigger] self@.after(reply@, id),
    {
        let ghost this = self@;
        let ghost answer = reply@;
        let ghost mut id = choose|id: Seq<char>| crate::git::is_v4_text(id);
        proof {
            crate::git::v4_text_exists();
        }
        let turn = match self {
            SetupState::AskingBranch { dryrun } => match current_branch(reply) {
                Ok(starting_branch) => ask(
                    show_nothing(),
                    Request::Exists(Marker::Statefile),
                    SetupState::LookingForStatefile { starting_branch, dryrun },
                ),
                Err(error) => fail_with(show_nothing(), error),
            },
            SetupState::LookingForStatefile { starting_branch, dryrun } => match is_there(reply) {
                Ok(there) => {
                    let on_savepoint_branch = is_savepoint_branch(starting_branch.as_str());
                    if there && on_savepoint_branch {
                        finish(show_nothing(), ())
                    } else if on_savepoint_branch {
                        // On a savepoint branch without a statefile, refuse to proceed: the
                        // base branch to merge squashed autosave commits into is not known.
                        fail_with(show_nothing(), make_no_base_error(starting_branch.as_str()))
                    } else {
                        ask(
                            show_nothing(),
                            create_statefile(starting_branch.as_str()),
                            SetupState::Recording { dryrun },
                        )
                    }
                },
                Err(error) => fail_with(show_nothing(), error),
            },
            SetupState::Recording { dryrun } => match completed(reply) {
                Ok(()) => {
                    let switching = branch(None, dryrun);
                    proof {
                        id =
                        choose|id: Seq<char>|
                            crate::git::is_v4_text(id) && switching@
                                == #[trigger] BranchView::begin(None, dryrun, id);
                    }
                    after_branch(switching)
                },
                Err(error) => fail_with(show_nothing(), error),
            },
            SetupState::Branching { branch } => after_branch(branch.resume(reply)),
        };
        assert(turn@ == this.after(answer, id));
        turn
    }
}

} // verus!
