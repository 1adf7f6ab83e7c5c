//! Conversations: a first turn, and the replies that follow.

use vstd::prelude::*;

use crate::finalize::FinalizeView;
use crate::git::{BranchView, CommitState};
use crate::merge::MergeView;
use crate::protocol::{ReplyKind, ReplyView, RequestView};
use crate::savepoint::{SavePointView, TestView};
use crate::session::{CommandsView, SessionView};
use crate::setup::SetupView;
use crate::start::StartView;
use crate::turn::{ErrorView, NextView, OutputView, TurnView};
use crate::watch::BlockView;

verus! {

/// A reply, together with the id that a branch gets if it is created then.
pub struct Input {
    pub reply: ReplyView,
    pub id: Seq<char>,
}

/// States that wait for a reply and go on from it.
pub trait Machine: Sized {
    /// What is returned in the end.
    type Out;

    /// The kind of reply that is waited for.
    spec fn pending(self) -> ReplyKind;

    /// The turn that a reply leads to.
    spec fn step(self, input: Input) -> TurnView<Self, Self::Out>;

    /// What is asked for next is what is waited for then.
    proof fn step_is_answerable(self, input: Input)
        requires
            input.reply.kind() == self.pending(),
        ensures
            match self.step(input).next {
                NextView::Do(request, state) => request.wants() == state.pending(),
                NextView::Return(_) => true,
            },
    ;
}

/// If the turn asks for something, the state waits for the kind of reply that
/// the request gets.
pub open spec fn answerable<M: Machine>(turn: TurnView<M, M::Out>) -> bool {
    match turn.next {
        NextView::Do(request, state) => request.wants() == state.pending(),
        NextView::Return(_) => true,
    }
}

impl Machine for BranchView {
    type Out = Seq<char>;

    open spec fn pending(self) -> ReplyKind {
        self.awaits()
    }

    open spec fn step(self, input: Input) -> TurnView<Self, Seq<char>> {
        self.after(input.reply)
    }

    proof fn step_is_answerable(self, input: Input) {
    }
}

impl Machine for CommitState {
    type Out = ();

    open spec fn pending(self) -> ReplyKind {
        self.awaits()
    }

    open spec fn step(self, input: Input) -> TurnView<Self, ()> {
        self.after(input.reply)
    }

    proof fn step_is_answerable(self, input: Input) {
    }
}

impl Machine for SetupView {
    type Out = ();

    open spec fn pending(self) -> ReplyKind {
        self.awaits()
    }

    open spec fn step(self, input: Input) -> TurnView<Self, ()> {
        self.after(input.reply, input.id)
    }

    proof fn step_is_answerable(self, input: Input) {
    }
}

impl Machine for MergeView {
    type Out = ();

    open spec fn pending(self) -> ReplyKind {
        self.awaits()
    }

    open spec fn step(self, input: Input) -> TurnView<Self, ()> {
        self.after(input.reply)
    }

    proof fn step_is_answerable(self, input: Input) {
    }
}

impl Machine for FinalizeView {
    type Out = ();

    open spec fn pending(self) -> ReplyKind {
        self.awaits()
    }

    open spec fn step(self, input: Input) -> TurnView<Self, ()> {
        self.after(input.reply)
    }

    proof fn step_is_answerable(self, input: Input) {
    }
}

impl Machine for TestView {
    type Out = SavePointView;

    open spec fn pending(self) -> ReplyKind {
        self.awaits()
    }

    open spec fn step(self, input: Input) -> TurnView<Self, SavePointView> {
        self.after(input.reply)
    }

    proof fn step_is_answerable(self, input: Input) {
    }
}

impl Machine for BlockView {
    type Out = ();

    open spec fn pending(self) -> ReplyKind {
        self.awaits()
    }

    open spec fn step(self, input: Input) -> TurnView<Self, ()> {
        self.after(input.reply)
    }

    proof fn step_is_answerable(self, input: Input) {
    }
}

impl Machine for StartView {
    type Out = ();

    open spec fn pending(self) -> ReplyKind {
        self.awaits()
    }

    open spec fn step(self, input: Input) -> TurnView<Self, ()> {
        self.after(input.reply, input.id)
    }

    proof fn step_is_answerable(self, input: Input) {
    }
}

impl Machine for SessionView {
    type Out = ();

    open spec fn pending(self) -> ReplyKind {
        self.awaits()
    }

    open spec fn step(self, input: Input) -> TurnView<Self, ()> {
        self.after(input.reply, input.id)
    }

    proof fn step_is_answerable(self, input: Input) {
    }
}

/// The turn after the first `n` inputs.
pub open spec fn turn_at<M: Machine>(
    first: TurnView<M, M::Out>,
    inputs: Seq<Input>,
    n: nat,
) -> TurnView<M, M::Out>
    decreases n,
{
    if n == 0 {
        first
    } else {
        match turn_at(first, inputs, (n - 1) as nat).next {
            NextView::Do(_, state) => state.step(inputs[n - 1]),
            NextView::Return(_) => turn_at(first, inputs, (n - 1) as nat),
        }
    }
}

/// `inputs` can follow the first turn: each one answers what was asked for just
/// before, with an id of the usual form, and none comes after the end.
pub open spec fn is_history<M: Machine>(first: TurnView<M, M::Out>, inputs: Seq<Input>) -> bool {
    forall|n: nat|
        n < inputs.len() ==> {
            &&& #[trigger] turn_at(first, inputs, n).next is Do
            &&& inputs[n as int].reply.kind() == turn_at(first, inputs, n).next->Do_1.pending()
            &&& crate::git::is_v4_text(inputs[n as int].id)
        }
}

/// What was asked for after the first `n` inputs, if anything.
pub open spec fn request_at<M: Machine>(
    first: TurnView<M, M::Out>,
    inputs: Seq<Input>,
    n: nat,
) -> Option<RequestView> {
    match turn_at(first, inputs, n).next {
        NextView::Do(request, _) => Some(request),
        NextView::Return(_) => None,
    }
}

/// The turn shows exactly this and then asks for exactly that.
pub open spec fn shows_and_asks<S, R>(
    turn: TurnView<S, R>,
    output: Seq<OutputView>,
    request: RequestView,
) -> bool {
    &&& turn.output =~= output
    &&& match turn.next {
        NextView::Do(asked, _) => asked == request,
        NextView::Return(_) => false,
    }
}

/// The turn shows exactly this and then returns exactly that.
pub open spec fn shows_and_returns<S, R>(
    turn: TurnView<S, R>,
    output: Seq<OutputView>,
    value: R,
) -> bool {
    &&& turn.output =~= output
    &&& match turn.next {
        NextView::Return(Ok(returned)) => returned == value,
        _ => false,
    }
}

/// The turn shows exactly this and then fails with exactly this message and
/// suggestion.
pub open spec fn shows_and_fails<S, R>(
    turn: TurnView<S, R>,
    output: Seq<OutputView>,
    message: Seq<char>,
    suggestion: Option<Seq<char>>,
) -> bool {
    &&& turn.output =~= output
    &&& match turn.next {
        NextView::Return(Err(error)) => error.message == message && error.suggestion == suggestion,
        _ => false,
    }
}

/// The conversation ends with success.
pub open spec fn succeeds<M: Machine>(first: TurnView<M, M::Out>, inputs: Seq<Input>) -> bool {
    turn_at(first, inputs, inputs.len()).next matches NextView::Return(Ok(_))
}

/// The conversation ends with an error.
pub open spec fn fails_with<M: Machine>(
    first: TurnView<M, M::Out>,
    inputs: Seq<Input>,
    error: ErrorView,
) -> bool {
    turn_at(first, inputs, inputs.len()).next == NextView::<M, M::Out>::Return(Err(error))
}

/// The surroundings can always answer: whatever was replied so far, the next
/// request gets the kind of reply that is waited for.
pub proof fn conversation_is_answerable<M: Machine>(
    first: TurnView<M, M::Out>,
    inputs: Seq<Input>,
    n: nat,
)
    requires
        answerable(first),
        is_history(first, inputs),
        n <= inputs.len(),
    ensures
        answerable(turn_at(first, inputs, n)),
    decreases n,
{
    if n > 0 {
        let m = (n - 1) as nat;
        conversation_is_answerable(first, inputs, m);
        assert(turn_at(first, inputs, m).next is Do);
        let state = turn_at(first, inputs, m).next->Do_1;
        state.step_is_answerable(inputs[m as int]);
    }
}

/// Every command starts with a request that can be answered.
pub proof fn first_turn_is_answerable(command: CommandsView)
    ensures
        answerable(SessionView::begin(command)),
{
}

} // verus!
