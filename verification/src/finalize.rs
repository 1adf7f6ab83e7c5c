//! Ending a session.

use vstd::prelude::*;
use vstd::string::*;

use crate::console::Tint;
use crate::files::{completed, read_statefile, rm_errfile, rm_statefile};
use crate::git::{inside_repo_command, is_git_available, is_git_repo, version_command};
use crate::merge::{merge_squashed, MergeState, MergeView};
use crate::protocol::{CommandView, Marker, Reply, ReplyKind, ReplyView, Request, RequestView};
use crate::turn::{
    ask, fail_with, finish, make_log, show, show_also, show_nothing, Next, NextView, Output,
    OutputView, Turn, TurnView,
};

verus! {

/// Ending a session.
#[derive(Debug, PartialEq, Eq)]
pub enum FinalizeState {
    /// Finding out whether git can be run.
    CheckingGit { message: Option<String>, dryrun: bool },
    /// Finding out whether this is a repository.
    CheckingRepo { message: Option<String>, dryrun: bool },
    /// Reading the statefile.
    Reading { message: Option<String>, dryrun: bool },
    /// Merging the savepoints.
    Merging { starting_branch: String, dryrun: bool, merge: MergeState },
    /// Removing the error file, if there is one.
    RemovingErrfile { starting_branch: String },
    /// Removing the statefile.
    RemovingStatefile { starting_branch: String },
}

/// The view of a [`FinalizeState`].
pub enum FinalizeView {
    CheckingGit { message: Option<Seq<char>>, dryrun: bool },
    CheckingRepo { message: Option<Seq<char>>, dryrun: bool },
    Reading { message: Option<Seq<char>>, dryrun: bool },
    Merging { starting_branch: Seq<char>, dryrun: bool, merge: MergeView },
    RemovingErrfile { starting_branch: Seq<char> },
    RemovingStatefile { starting_branch: Seq<char> },
}

impl View for FinalizeState {
    type V = FinalizeView;

    open spec fn view(&self) -> FinalizeView {
        match self {
            FinalizeState::CheckingGit { message, dryrun } => FinalizeView::CheckingGit {
                message: crate::merge::text_view(*message),
                dryrun: *dryrun,
            },
            FinalizeState::CheckingRepo { message, dryrun } => FinalizeView::CheckingRepo {
                message: crate::merge::text_view(*message),
                dryrun: *dryrun,
            },
            FinalizeState::Reading { message, dryrun } => FinalizeView::Reading {
                message: crate::merge::text_view(*message),
                dryrun: *dryrun,
            },
            FinalizeState::Merging { starting_branch, dryrun, merge } => FinalizeView::Merging {
                starting_branch: starting_branch@,
                dryrun: *dryrun,
                merge: merge@,
            },
            FinalizeState::RemovingErrfile { starting_branch } => FinalizeView::RemovingErrfile {
                starting_branch: starting_branch@,
            },
            FinalizeState::RemovingStatefile {
                starting_branch,
            } => FinalizeView::RemovingStatefile { starting_branch: starting_branch@ },
        }
    }
}

impl OutputView {
    /// The last line of a finalized session.
    pub open spec fn finalized(starting_branch: Seq<char>) -> OutputView {
        OutputView::log(
            Tint::Green,
            "Finalized! Savepoints squashed into "@ + starting_branch + "."@,
        )
    }
}

impl FinalizeView {
    /// Reading the statefile.
    pub open spec fn reading(message: Option<Seq<char>>, dryrun: bool) -> TurnView<
        FinalizeView,
        (),
    > {
        TurnView::asking(
            seq![],
            RequestView::Read(Marker::Statefile),
            FinalizeView::Reading { message, dryrun },
        )
    }

    /// Starting to finalize. In a dry run git is not looked for.
    pub open spec fn begin(message: Option<Seq<char>>, dryrun: bool) -> TurnView<FinalizeView, ()> {
        if dryrun {
            Self::reading(message, dryrun)
        } else {
            TurnView::asking(
                seq![],
                RequestView::Run(CommandView::git_version()),
                FinalizeView::CheckingGit { message, dryrun },
            )
        }
    }

    /// After the merge, or on the way through it.
    pub open spec fn merging(
        turn: TurnView<MergeView, ()>,
        starting_branch: Seq<char>,
        dryrun: bool,
    ) -> TurnView<FinalizeView, ()> {
        match turn.next {
            NextView::Do(request, merge) => TurnView::asking(
                turn.output,
                request,
                FinalizeView::Merging { starting_branch, dryrun, merge },
            ),
            NextView::Return(Ok(())) => if dryrun {
                TurnView::returning(
                    turn.output.push(OutputView::finalized(starting_branch)),
                    Ok(()),
                )
            } else {
                TurnView::asking(
                    turn.output,
                    RequestView::Remove(Marker::Errfile),
                    FinalizeView::RemovingErrfile { starting_branch },
                )
            },
            NextView::Return(Err(error)) => TurnView::returning(turn.output, Err(error)),
        }
    }

    /// The kind of reply that is waited for.
    pub open spec fn awaits(self) -> ReplyKind {
        match self {
            FinalizeView::CheckingGit { .. } => ReplyKind::Ran,
            FinalizeView::CheckingRepo { .. } => ReplyKind::Ran,
            FinalizeView::Reading { .. } => ReplyKind::Text,
            FinalizeView::Merging { merge, .. } => merge.awaits(),
            FinalizeView::RemovingErrfile { .. } => ReplyKind::Done,
            FinalizeView::RemovingStatefile { .. } => ReplyKind::Done,
        }
    }

    /// The turn that a reply leads to.
    pub open spec fn after(self, reply: ReplyView) -> TurnView<FinalizeView, ()> {
        match self {
            FinalizeView::CheckingGit { message, dryrun } => match crate::git::availability(reply) {
                Ok(()) => TurnView::asking(
                    seq![],
                    RequestView::Run(CommandView::git_inside_repo()),
                    FinalizeView::CheckingRepo { message, dryrun },
                ),
                Err(error) => TurnView::returning(seq![], Err(error)),
            },
            FinalizeView::CheckingRepo {
                message,
                dryrun,
            } => match crate::git::repo_presence(reply) {
                Ok(()) => Self::reading(message, dryrun),
                Err(error) => TurnView::returning(seq![], Err(error)),
            },
            FinalizeView::Reading { message, dryrun } => match crate::files::recorded_branch(
                reply,
            ) {
                Ok(starting_branch) => Self::merging(
                    MergeView::begin(starting_branch, message, dryrun),
                    starting_branch,
                    dryrun,
                ),
                Err(error) => TurnView::returning(seq![], Err(error)),
            },
            FinalizeView::Merging { starting_branch, dryrun, merge } => Self::merging(
                merge.after(reply),
                starting_branch,
                dryrun,
            ),
            // Whether there was an error file makes no difference.
            FinalizeView::RemovingErrfile { starting_branch } => TurnView::asking(
                seq![],
                RequestView::Remove(Marker::Statefile),
                FinalizeView::RemovingStatefile { starting_branch },
            ),
            FinalizeView::RemovingStatefile {
                starting_branch,
            } => match crate::files::completion(reply) {
                Ok(()) => TurnView::returning(
                    seq![OutputView::finalized(starting_branch)],
                    Ok(()),
                ),
                Err(error) => TurnView::returning(seq![], Err(error)),
            },
        }
    }
}

fn read(message: Option<String>, dryrun: bool) -> (turn: Turn<FinalizeState, ()>)
    ensures
        turn@ == FinalizeView::reading(crate::merge::text_view(message), dryrun),
{
    ask(
        show_nothing(),
        Request::Read(Marker::Statefile),
        FinalizeState::Reading { message, dryrun },
    )
}

/// Merges the savepoints of the session into the branch it was started from,
/// and forgets the session.
pub fn finalize(message: Option<String>, dryrun: bool) -> (turn: Turn<FinalizeState, ()>)
    ensures
        turn@ == FinalizeView::begin(crate::merge::text_view(message), dryrun),
{
    if dryrun {
        return read(message, dryrun);
    }
    ask(
        show_nothing(),
        Request::Run(version_command()),
        FinalizeState::CheckingGit { message, dryrun },
    )
}

fn make_finalized(starting_branch: &str) -> (output: Output)
    ensures
        output@ == OutputView::finalized(starting_branch@),
{
    make_log(
        Tint::Green,
        "Finalized! Savepoints squashed into ".to_owned().concat(starting_branch).concat("."),
    )
}

fn after_merge(turn: Turn<MergeState, ()>, starting_branch: String, dryrun: bool) -> (r: Turn<
    FinalizeState,
    (),
>)
    ensures
        r@ == FinalizeView::merging(turn@, starting_branch@, dryrun),
{
    match turn.next {
        Next::Do(request, merge) => ask(
            turn.output,
            request,
            FinalizeState::Merging { starting_branch, dryrun, merge },
        ),
        Next::Return(Ok(())) => {
            if dryrun {
                finish(show_also(turn.output, make_finalized(starting_branch.as_str())), ())
            } else {
                ask(
                    turn.output,
                    rm_errfile(),
                    FinalizeState::RemovingErrfile { starting_branch },
                )
            }
        },
        Next::Return(Err(error)) => fail_with(turn.output, error),
    }
}

impl FinalizeState {
    /// Goes on with the reply that is waited for.
    pub fn resume(self, reply: Reply) -> (turn: Turn<FinalizeState, ()>)
        requires
            reply@.kind() == self@.awaits(),
        ensures
            turn@ == self@.after(reply@),
    {
        match self {
            FinalizeState::CheckingGit { message, dryrun } => match is_git_available(reply) {
                Ok(()) => ask(
                    show_nothing(),
                    Request::Run(inside_repo_command()),
                    FinalizeState::CheckingRepo { message, dryrun },
                ),
                Err(error) => fail_with(show_nothing(), error),
            },
            FinalizeState::CheckingRepo { message, dryrun } => match is_git_repo(reply) {
                Ok(()) => read(message, dryrun),
                Err(error) => fail_with(show_nothing(), error),
            },
            FinalizeState::Reading { message, dryrun } => match read_statefile(reply) {
                Ok(starting_branch) => {
                    let merging = merge_squashed(starting_branch.clone(), message, dryrun);
                    after_merge(merging, starting_branch, dryrun)
                },
                Err(error) => fail_with(show_nothing(), error),
            },
            FinalizeState::Merging { starting_branch, dryrun, merge } => after_merge(
                merge.resume(reply),
                starting_branch,
                dryrun,
            ),
            FinalizeState::RemovingErrfile { starting_branch } => ask(
                show_nothing(),
                rm_statefile(),
                FinalizeState::RemovingStatefile { starting_branch },
            ),
            FinalizeState::RemovingStatefile { starting_branch } => match completed(reply) {
                Ok(()) => finish(show(make_finalized(starting_branch.as_str())), ()),
                Err(error) => fail_with(show_nothing(), error),
            },
        }
    }
}

} // verus!
