//! Laws of how conversations are made of smaller ones, so that what holds of the
//! parts holds of the whole.

use vstd::prelude::*;

use crate::finalize::FinalizeView;
use crate::laws::history;
use crate::laws::history::{Input, Machine};
use crate::laws::looping;
use crate::protocol::ReplyView;
use crate::savepoint::{SavePointView, TestView};
use crate::session::{CommandsView, SessionView};
use crate::setup::SetupView;
use crate::start::{LoopView, StartArgsView, StartView};
use crate::turn::{NextView, TurnView};
use crate::watch::BlockView;

verus! {

proof fn lemma_session_of_start(args: StartArgsView, inputs: Seq<Input>, n: nat)
    ensures
        history::turn_at(SessionView::begin(CommandsView::Start(args)), inputs, n)
            == SessionView::starting(history::turn_at(StartView::begin(args), inputs, n)),
    decreases n,
{
    if n > 0 {
        lemma_session_of_start(args, inputs, (n - 1) as nat);
    }
}

proof fn lemma_session_of_finalize(
    message: Option<Seq<char>>,
    dryrun: bool,
    inputs: Seq<Input>,
    n: nat,
)
    ensures
        history::turn_at(
            SessionView::begin((CommandsView::Finalize { message, dryrun })),
            inputs,
            n,
        ) == SessionView::finalizing(
            history::turn_at(FinalizeView::begin(message, dryrun), inputs, n),
        ),
    decreases n,
{
    if n > 0 {
        lemma_session_of_finalize(message, dryrun, inputs, (n - 1) as nat);
    }
}

/// Two conversations that ask for the same, turn by turn, have the same replies.
proof fn lemma_same_history<M: Machine, O: Machine>(
    whole: TurnView<O, O::Out>,
    part: TurnView<M, M::Out>,
    inputs: Seq<Input>,
    wrap: spec_fn(M) -> O,
)
    requires
        forall|state: M| #[trigger] wrap(state).pending() == state.pending(),
        forall|n: nat|
            #![trigger history::turn_at(whole, inputs, n)]
            #![trigger history::turn_at(part, inputs, n)]
            match history::turn_at(part, inputs, n).next {
                NextView::Do(request, state) => history::turn_at(whole, inputs, n).next
                    == NextView::<O, O::Out>::Do(request, wrap(state)),
                NextView::Return(_) => history::turn_at(whole, inputs, n).next is Return,
            },
    ensures
        history::is_history(whole, inputs) == history::is_history(part, inputs),
{
    if history::is_history(whole, inputs) {
        assert forall|n: nat| n < inputs.len() implies {
            &&& #[trigger] history::turn_at(part, inputs, n).next is Do
            &&& inputs[n as int].reply.kind() == history::turn_at(
                part,
                inputs,
                n,
            ).next->Do_1.pending()
            &&& crate::git::is_v4_text(inputs[n as int].id)
        } by {
            assert(history::turn_at(whole, inputs, n).next is Do);
        }
    }
    if history::is_history(part, inputs) {
        assert forall|n: nat| n < inputs.len() implies {
            &&& #[trigger] history::turn_at(whole, inputs, n).next is Do
            &&& inputs[n as int].reply.kind() == history::turn_at(
                whole,
                inputs,
                n,
            ).next->Do_1.pending()
            &&& crate::git::is_v4_text(inputs[n as int].id)
        } by {
            assert(history::turn_at(part, inputs, n).next is Do);
        }
    }
}

/// The command that starts a session is the watch loop, turn by turn.
pub proof fn start_command_is_the_loop(args: StartArgsView, inputs: Seq<Input>)
    ensures
        history::is_history(SessionView::begin(CommandsView::Start(args)), inputs)
            == history::is_history(StartView::begin(args), inputs),
        forall|n: nat|
            #![trigger history::turn_at(
                SessionView::begin(CommandsView::Start(args)),
                inputs,
                n,
            )]
            history::turn_at(SessionView::begin(CommandsView::Start(args)), inputs, n)
                == SessionView::starting(history::turn_at(StartView::begin(args), inputs, n)),
{
    let whole = SessionView::begin(CommandsView::Start(args));
    let part = StartView::begin(args);
    assert forall|n: nat| #[trigger]
        history::turn_at(whole, inputs, n) == SessionView::starting(
            history::turn_at(part, inputs, n),
        ) by {
        lemma_session_of_start(args, inputs, n);
    }
    lemma_same_history(whole, part, inputs, |state: StartView| SessionView::Starting(state));
}

/// The command that finalizes a session is the end of it, turn by turn.
pub proof fn finalize_command_is_the_end(
    message: Option<Seq<char>>,
    dryrun: bool,
    inputs: Seq<Input>,
)
    ensures
        history::is_history(
            SessionView::begin((CommandsView::Finalize { message, dryrun })),
            inputs,
        ) == history::is_history(FinalizeView::begin(message, dryrun), inputs),
        forall|n: nat|
            #![trigger history::turn_at(
                SessionView::begin((CommandsView::Finalize { message, dryrun })),
                inputs,
                n,
            )]
            history::turn_at(
                SessionView::begin((CommandsView::Finalize { message, dryrun })),
                inputs,
                n,
            ) == SessionView::finalizing(
                history::turn_at(FinalizeView::begin(message, dryrun), inputs, n),
            ),
{
    let whole = SessionView::begin(CommandsView::Finalize { message, dryrun });
    let part = FinalizeView::begin(message, dryrun);
    assert forall|n: nat| #[trigger]
        history::turn_at(whole, inputs, n) == SessionView::finalizing(
            history::turn_at(part, inputs, n),
        ) by {
        lemma_session_of_finalize(message, dryrun, inputs, n);
    }
    lemma_same_history(whole, part, inputs, |state: FinalizeView| SessionView::Finalizing(state));
}

/// `part` is what comes after the first `k` of `inputs`, as far as it goes.
pub open spec fn is_part(part: Seq<Input>, inputs: Seq<Input>, k: nat) -> bool {
    &&& k + part.len() <= inputs.len()
    &&& forall|i: int| 0 <= i < part.len() ==> #[trigger] part[i] == inputs[k + i]
}

/// The conversation that starts with `first` is still under way before each of
/// the inputs.
pub open spec fn goes_on<M: Machine>(first: TurnView<M, M::Out>, part: Seq<Input>) -> bool {
    forall|i: nat| i < part.len() ==> #[trigger] history::turn_at(first, part, i).next is Do
}

/// The states of one conversation are, inside another one, what `wrap` makes of
/// them, and its turns lead to what `lift` makes of them.
pub open spec fn is_embedding<M: Machine, O: Machine>(
    wrap: spec_fn(M) -> O,
    lift: spec_fn(TurnView<M, M::Out>) -> NextView<O, O::Out>,
) -> bool {
    &&& forall|state: M| #[trigger] wrap(state).pending() == state.pending()
    &&& forall|state: M, input: Input|
        #![trigger state.step(input)]
        wrap(state).step(input).next == lift(state.step(input))
    &&& forall|turn: TurnView<M, M::Out>| #[trigger]
        lift(turn) == match turn.next {
            NextView::Do(request, state) => NextView::Do(request, wrap(state)),
            NextView::Return(_) => lift(turn),
        }
}

proof fn lemma_embedded<M: Machine, O: Machine>(
    whole: TurnView<O, O::Out>,
    inputs: Seq<Input>,
    k: nat,
    first: TurnView<M, M::Out>,
    part: Seq<Input>,
    wrap: spec_fn(M) -> O,
    lift: spec_fn(TurnView<M, M::Out>) -> NextView<O, O::Out>,
    j: nat,
)
    requires
        history::is_history(whole, inputs),
        is_part(part, inputs, k),
        goes_on(first, part),
        is_embedding(wrap, lift),
        history::turn_at(whole, inputs, k).next == lift(first),
        j <= part.len(),
    ensures
        history::turn_at(whole, inputs, k + j).next == lift(history::turn_at(first, part, j)),
        j < part.len() ==> part[j as int].reply.kind() == history::turn_at(
            first,
            part,
            j,
        ).next->Do_1.pending(),
    decreases j,
{
    if j > 0 {
        let i = (j - 1) as nat;
        lemma_embedded(whole, inputs, k, first, part, wrap, lift, i);
        assert(history::turn_at(first, part, i).next is Do);
        let state = history::turn_at(first, part, i).next->Do_1;
        assert(part[i as int] == inputs[(k + i) as int]);
        assert(history::turn_at(whole, inputs, k + i).next->Do_1 == wrap(state));
        assert(history::turn_at(first, part, j) == state.step(part[i as int]));
        assert(history::turn_at(whole, inputs, k + j) == wrap(state).step(inputs[(k + i) as int]));
    }
    if j < part.len() {
        assert(history::turn_at(first, part, j).next is Do);
        assert(history::turn_at(whole, inputs, k + j).next is Do);
        let state = history::turn_at(first, part, j).next->Do_1;
        assert(history::turn_at(whole, inputs, k + j).next->Do_1 == wrap(state));
        assert(part[j as int] == inputs[(k + j) as int]);
    }
}

/// Where a conversation reaches the first turn of another one that is embedded
/// in it, it goes on as that one until that one is over.
pub proof fn embedded_conversation<M: Machine, O: Machine>(
    whole: TurnView<O, O::Out>,
    inputs: Seq<Input>,
    k: nat,
    first: TurnView<M, M::Out>,
    part: Seq<Input>,
    wrap: spec_fn(M) -> O,
    lift: spec_fn(TurnView<M, M::Out>) -> NextView<O, O::Out>,
)
    requires
        history::is_history(whole, inputs),
        is_part(part, inputs, k),
        goes_on(first, part),
        is_embedding(wrap, lift),
        history::turn_at(whole, inputs, k).next == lift(first),
    ensures
        history::is_history(first, part),
        forall|j: nat|
            j <= part.len() ==> history::turn_at(whole, inputs, k + j).next == lift(
                #[trigger] history::turn_at(first, part, j),
            ),
{
    assert forall|j: nat| j <= part.len() implies history::turn_at(whole, inputs, k + j).next
        == lift(#[trigger] history::turn_at(first, part, j)) by {
        lemma_embedded(whole, inputs, k, first, part, wrap, lift, j);
    }
    assert forall|j: nat| j < part.len() implies {
        &&& #[trigger] history::turn_at(first, part, j).next is Do
        &&& part[j as int].reply.kind() == history::turn_at(first, part, j).next->Do_1.pending()
        &&& crate::git::is_v4_text(part[j as int].id)
    } by {
        lemma_embedded(whole, inputs, k, first, part, wrap, lift, j);
        assert(part[j as int] == inputs[(k + j) as int]);
        assert(history::turn_at(whole, inputs, k + j).next is Do);
    }
}

/// After it has made sure of git, or at once in a dry run, the loop sets up its
/// session: until that is over, its conversation is that of setting up.
pub proof fn start_sets_up(args: StartArgsView, inputs: Seq<Input>, part: Seq<Input>)
    requires
        history::is_history(StartView::begin(args), inputs),
        !args.dryrun ==> !inputs[0].reply.is_failure() && !inputs[1].reply.is_failure(),
        is_part(part, inputs, looping::replies_before_setup(args.dryrun)),
        goes_on(SetupView::begin(args.dryrun), part),
    ensures
        history::is_history(SetupView::begin(args.dryrun), part),
        forall|j: nat|
            j <= part.len() ==> history::turn_at(
                StartView::begin(args),
                inputs,
                looping::replies_before_setup(args.dryrun) + j,
            ).next == StartView::setting_up(
                args,
                #[trigger] history::turn_at(SetupView::begin(args.dryrun), part, j),
            ).next,
{
    let whole = StartView::begin(args);
    let wrap = |setup: SetupView| StartView::SettingUp { args, setup };
    let lift = |turn: TurnView<SetupView, ()>| StartView::setting_up(args, turn).next;
    if !args.dryrun {
        assert(history::turn_at(whole, inputs, 0).next is Do);
        assert(history::turn_at(whole, inputs, 1).next is Do);
        assert(history::turn_at(whole, inputs, 1).next->Do_1 == StartView::CheckingRepo { args });
    }
    embedded_conversation(
        whole,
        inputs,
        looping::replies_before_setup(args.dryrun),
        SetupView::begin(args.dryrun),
        part,
        wrap,
        lift,
    );
}

/// At its head, as long as it is not to stop, the loop runs the tests: until that
/// is over, its conversation is that of a test run.
pub proof fn loop_runs_the_tests(
    args: StartArgsView,
    inputs: Seq<Input>,
    n: nat,
    fixed: LoopView,
    point: SavePointView,
    part: Seq<Input>,
)
    requires
        history::is_history(StartView::begin(args), inputs),
        n < inputs.len(),
        history::turn_at(StartView::begin(args), inputs, n).next matches NextView::Do(_, state)
            && state == (StartView::AtHead { fixed, point }),
        inputs[n as int].reply == ReplyView::Running(true),
        is_part(part, inputs, n + 1),
        goes_on(point.testing(fixed.program, fixed.dryrun, fixed.quiet), part),
    ensures
        history::is_history(point.testing(fixed.program, fixed.dryrun, fixed.quiet), part),
        forall|j: nat|
            j <= part.len() ==> history::turn_at(StartView::begin(args), inputs, n + 1 + j).next
                == StartView::testing(
                fixed,
                #[trigger] history::turn_at(
                    point.testing(fixed.program, fixed.dryrun, fixed.quiet),
                    part,
                    j,
                ),
            ).next,
{
    let whole = StartView::begin(args);
    let wrap = |test: TestView| StartView::Testing { fixed, test };
    let lift = |turn: TurnView<TestView, SavePointView>| StartView::testing(fixed, turn).next;
    assert(history::turn_at(whole, inputs, n + 1) == (StartView::AtHead { fixed, point }).step(
        inputs[n as int],
    ));
    embedded_conversation(
        whole,
        inputs,
        n + 1,
        point.testing(fixed.program, fixed.dryrun, fixed.quiet),
        part,
        wrap,
        lift,
    );
}

/// After the tests, as long as it is not to stop, the loop waits for a file of
/// its type to change: until that is over, its conversation is that of waiting.
pub proof fn loop_waits_for_its_file_type(
    args: StartArgsView,
    inputs: Seq<Input>,
    n: nat,
    fixed: LoopView,
    point: SavePointView,
    part: Seq<Input>,
)
    requires
        history::is_history(StartView::begin(args), inputs),
        n < inputs.len(),
        history::turn_at(StartView::begin(args), inputs, n).next matches NextView::Do(_, state)
            && state == (StartView::Tested { fixed, point }),
        inputs[n as int].reply == ReplyView::Running(true),
        is_part(part, inputs, n + 1),
        goes_on(BlockView::begin(args.filetype), part),
    ensures
        history::is_history(BlockView::begin(args.filetype), part),
        forall|j: nat|
            j <= part.len() ==> history::turn_at(StartView::begin(args), inputs, n + 1 + j).next
                == StartView::blocking(
                fixed,
                point,
                #[trigger] history::turn_at(BlockView::begin(args.filetype), part, j),
            ).next,
{
    let whole = StartView::begin(args);
    let wrap = |block: BlockView| StartView::Blocking { fixed, point, block };
    let lift = |turn: TurnView<BlockView, ()>| StartView::blocking(fixed, point, turn).next;
    looping::lemma_start_turn(args, inputs, n);
    assert(history::turn_at(whole, inputs, n + 1) == (StartView::Tested { fixed, point }).step(
        inputs[n as int],
    ));
    embedded_conversation(
        whole,
        inputs,
        n + 1,
        BlockView::begin(args.filetype),
        part,
        wrap,
        lift,
    );
}

} // verus!
