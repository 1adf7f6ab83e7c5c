//! The commands of the program.

use vstd::prelude::*;

use crate::finalize::{finalize, FinalizeState, FinalizeView};
use crate::protocol::{Reply, ReplyKind, ReplyView};
use crate::start::{start, StartArgs, StartArgsView, StartState, StartView};
use crate::turn::{ask, fail_with, finish, Next, NextView, Turn, TurnView};

verus! {

/// What the user asks for.
#[derive(Debug, PartialEq, Eq)]
pub enum Commands {
    /// Start autosave watch loop on a savepoint subbranch
    Start(StartArgs),
    /// Stop autosave watch loop and merge
    Finalize {
        message: Option<String>,
        /// Don't run git merge or commit when tests pass
        dryrun: bool,
    },
}

/// The view of a [`Commands`].
pub enum CommandsView {
    Start(StartArgsView),
    Finalize { message: Option<Seq<char>>, dryrun: bool },
}

impl View for Commands {
    type V = CommandsView;

    open spec fn view(&self) -> CommandsView {
        match self {
            Commands::Start(args) => CommandsView::Start(args@),
            Commands::Finalize { message, dryrun } => CommandsView::Finalize {
                message: crate::merge::text_view(*message),
                dryrun: *dryrun,
            },
        }
    }
}

/// A command under way.
#[derive(Debug, PartialEq, Eq)]
pub enum Session {
    Starting(StartState),
    Finalizing(FinalizeState),
}

/// The view of a [`Session`].
pub enum SessionView {
    Starting(StartView),
    Finalizing(FinalizeView),
}

impl View for Session {
    type V = SessionView;

    open spec fn view(&self) -> SessionView {
        match self {
            Session::Starting(state) => SessionView::Starting(state@),
            Session::Finalizing(state) => SessionView::Finalizing(state@),
        }
    }
}

impl SessionView {
    /// A turn of the watch loop.
    pub open spec fn starting(turn: TurnView<StartView, ()>) -> TurnView<SessionView, ()> {
        match turn.next {
            NextView::Do(request, state) => TurnView::asking(
                turn.output,
                request,
                SessionView::Starting(state),
            ),
            NextView::Return(result) => TurnView::returning(turn.output, result),
        }
    }

    /// A turn of the end of a session.
    pub open spec fn finalizing(turn: TurnView<FinalizeView, ()>) -> TurnView<SessionView, ()> {
        match turn.next {
            NextView::Do(request, state) => TurnView::asking(
                turn.output,
                request,
                SessionView::Finalizing(state),
            ),
            NextView::Return(result) => TurnView::returning(turn.output, result),
        }
    }

    /// The first turn of a command.
    pub open spec fn begin(command: CommandsView) -> TurnView<SessionView, ()> {
        match command {
            CommandsView::Start(args) => Self::starting(StartView::begin(args)),
            CommandsView::Finalize { message, dryrun } => Self::finalizing(
                FinalizeView::begin(message, dryrun),
            ),
        }
    }

    /// The kind of reply that is waited for.
    pub open spec fn awaits(self) -> ReplyKind {
        match self {
            SessionView::Starting(state) => state.awaits(),
            SessionView::Finalizing(state) => state.awaits(),
        }
    }

    /// The turn that a reply leads to. Where a savepoint branch is created, `id`
    /// is what it is named by.
    pub open spec fn after(self, reply: ReplyView, id: Seq<char>) -> TurnView<SessionView, ()> {
        match self {
            SessionView::Starting(state) => Self::starting(state.after(reply, id)),
            SessionView::Finalizing(state) => Self::finalizing(state.after(reply)),
        }
    }
}

fn in_start(turn: Turn<StartState, ()>) -> (r: Turn<Session, ()>)
    ensures
        r@ == SessionView::starting(turn@),
{
    match turn.next {
        Next::Do(request, state) => ask(turn.output, request, Session::Starting(state)),
        Next::Return(Ok(())) => finish(turn.output, ()),
        Next::Return(Err(error)) => fail_with(turn.output, error),
    }
}

fn in_finalize(turn: Turn<FinalizeState, ()>) -> (r: Turn<Session, ()>)
    ensures
        r@ == SessionView::finalizing(turn@),
{
    match turn.next {
        Next::Do(request, state) => ask(turn.output, request, Session::Finalizing(state)),
        Next::Return(Ok(())) => finish(turn.output, ()),
        Next::Return(Err(error)) => fail_with(turn.output, error),
    }
}

/// Starts to carry out a command.
pub fn run(command: Commands) -> (turn: Turn<Session, ()>)
    ensures
        turn@ == SessionView::begin(command@),
        turn@.next matches NextView::Do(request, state) ==> request.wants() == state.awaits(),
{
    match command {
        Commands::Start(args) => in_start(start(args)),
        Commands::Finalize { message, dryrun } => in_finalize(finalize(message, dryrun)),
    }
}

impl Session {
    /// Goes on with the reply that is waited for.
    pub fn resume(self, reply: Reply) -> (turn: Turn<Session, ()>)
        requires
            reply@.kind() == self@.awaits(),
        ensures
            exists|id: Seq<char>|
                crate::git::is_v4_text(id) && turn@ == #[trigger] self@.after(reply@, id),
            turn@.next matches NextView::Do(request, state) ==> request.wants() == state.awaits(),
    {
        let ghost this = self@;
        let ghost answer = reply@;
        let ghost mut id = choose|id: Seq<char>| crate::git::is_v4_text(id);
        proof {
            crate::git::v4_text_exists();
        }
        let turn = match self {
            Session::Starting(state) => {
                let ghost before = state@;
                let inner = state.resume(reply);
                proof {
                    id =
                    choose|id: Seq<char>|
                        crate::git::is_v4_text(id) && inner@ == #[trigger] before.after(answer, id);
                }
                in_start(inner)
            },
            Session::Finalizing(state) => in_finalize(state.resume(reply)),
        };
        assert(turn@ == this.after(answer, id));
        turn
    }
}

} // verus!
