//! Laws of how often the watch loop runs the tests.

use vstd::prelude::*;

use crate::laws::history;
use crate::laws::history::{Input, Machine};
use crate::laws::looping;
use crate::laws::waiting;
use crate::protocol::{ReplyView, RequestView};
use crate::savepoint::TestView;
use crate::start::{StartArgsView, StartView};
use crate::turn::{NextView, OutputView, TurnView};
use crate::watch::BlockView;

verus! {

/// The turn starts a run of the tests.
pub open spec fn starts_a_run(turn: TurnView<StartView, ()>) -> bool {
    turn.next matches NextView::Do(
        _,
        StartView::Testing { test: TestView::Running { .. }, .. },
    )
}

/// How many runs of the tests are started by the turn after the first `n`
/// replies, that turn among them.
pub open spec fn test_runs(args: StartArgsView, inputs: Seq<Input>, n: nat) -> nat
    decreases n,
{
    let before = if n == 0 {
        0
    } else {
        test_runs(args, inputs, (n - 1) as nat)
    };
    if starts_a_run(history::turn_at(StartView::begin(args), inputs, n)) {
        before + 1
    } else {
        before
    }
}

/// Reply `k` is the change that the loop waits for then.
pub open spec fn is_awaited_change(args: StartArgsView, inputs: Seq<Input>, k: int) -> bool {
    &&& history::turn_at(StartView::begin(args), inputs, k as nat).next matches NextView::Do(
        _,
        StartView::Blocking { block: BlockView::Waiting { .. }, .. },
    )
    &&& waiting::is_wanted_reply(inputs[k].reply, args.filetype)
}

/// How many of the first `n` replies are changes that the loop waited for.
pub open spec fn awaited_changes(args: StartArgsView, inputs: Seq<Input>, n: nat) -> nat
    decreases n,
{
    if n == 0 {
        0
    } else {
        let before = awaited_changes(args, inputs, (n - 1) as nat);
        if is_awaited_change(args, inputs, n - 1) {
            before + 1
        } else {
            before
        }
    }
}

/// Once the running flag is cleared it stays so.
pub open spec fn interrupt_lasts(inputs: Seq<Input>) -> bool {
    forall|i: int, j: int|
        0 <= i < j < inputs.len() && (#[trigger] inputs[i]).reply == ReplyView::Running(false)
            && (#[trigger] inputs[j]).reply is Running ==> inputs[j].reply == ReplyView::Running(
            false,
        )
}

/// What is shown between two runs.
pub open spec fn between_runs(clear: bool) -> Seq<OutputView> {
    if clear {
        seq![OutputView::Raw("\x1B[2J\x1B[1;1H"@)]
    } else {
        seq![]
    }
}

/// What a state tells of the runs so far, and of what was just shown.
spec fn runs_fit(
    args: StartArgsView,
    state: StartView,
    runs: nat,
    output: Seq<OutputView>,
) -> bool {
    match state {
        StartView::AtHead { .. } => output == if runs == 0 {
            seq![]
        } else {
            between_runs(args.clear)
        },
        StartView::Testing { .. } => runs > 0,
        StartView::Tested { .. } => runs > 0,
        StartView::Blocking { .. } => runs > 0,
        _ => runs == 0,
    }
}

proof fn lemma_runs(args: StartArgsView, inputs: Seq<Input>, n: nat)
    requires
        history::is_history(StartView::begin(args), inputs),
        n <= inputs.len(),
    ensures
        match history::turn_at(StartView::begin(args), inputs, n).next {
            NextView::Do(_, state) => runs_fit(
                args,
                state,
                test_runs(args, inputs, n),
                history::turn_at(StartView::begin(args), inputs, n).output,
            ),
            NextView::Return(_) => true,
        },
    decreases n,
{
    let first = StartView::begin(args);
    if n > 0 {
        let m = (n - 1) as nat;
        lemma_runs(args, inputs, m);
        looping::lemma_start_turn(args, inputs, m);
        assert(history::turn_at(first, inputs, m).next is Do);
        let state = history::turn_at(first, inputs, m).next->Do_1;
        let turn = history::turn_at(first, inputs, n);
        assert(turn == state.step(inputs[m as int]));
        if state is Blocking && turn.next matches NextView::Do(_, StartView::AtHead { .. }) {
            assert(turn.output =~= between_runs(args.clear));
        }
    }
}

/// What a state tells of the runs so far and of the changes that were waited for.
spec fn counts_fit(
    args: StartArgsView,
    state: StartView,
    runs: nat,
    changes: nat,
    told_to_stop: bool,
) -> bool {
    match state {
        StartView::AtHead { .. } => runs == changes || (told_to_stop && runs == changes + 1),
        StartView::Testing { .. } => runs == changes + 1,
        StartView::Tested { .. } => runs == changes + 1,
        StartView::Blocking { block, .. } => match block {
            BlockView::Checking { extension } => runs == changes + 1 && extension
                == args.filetype,
            BlockView::Waiting { extension } => runs == changes + 1 && extension == args.filetype,
            BlockView::Draining => runs == changes,
        },
        _ => runs == 0 && changes == 0,
    }
}

proof fn lemma_counts(args: StartArgsView, inputs: Seq<Input>, n: nat)
    requires
        history::is_history(StartView::begin(args), inputs),
        interrupt_lasts(inputs),
        n <= inputs.len(),
    ensures
        match history::turn_at(StartView::begin(args), inputs, n).next {
            NextView::Do(_, state) => counts_fit(
                args,
                state,
                test_runs(args, inputs, n),
                awaited_changes(args, inputs, n),
                n > 0 && inputs[n - 1].reply == ReplyView::Running(false),
            ),
            NextView::Return(_) => awaited_changes(args, inputs, n) <= test_runs(args, inputs, n)
                <= awaited_changes(args, inputs, n) + 1,
        },
    decreases n,
{
    let first = StartView::begin(args);
    if n > 0 {
        let m = (n - 1) as nat;
        lemma_counts(args, inputs, m);
        looping::lemma_start_turn(args, inputs, m);
        assert(history::turn_at(first, inputs, m).next is Do);
        let state = history::turn_at(first, inputs, m).next->Do_1;
        assert(history::turn_at(first, inputs, n) == state.step(inputs[m as int]));
        if state is AtHead && m > 0 && inputs[m - 1].reply == ReplyView::Running(false) {
            assert(inputs[m as int].reply == ReplyView::Running(false));
        }
    }
}

/// The tests run once at the start, and again only after a change that was waited
/// for: at each run there were as many runs before it as such changes. This is so
/// as long as a cleared running flag stays cleared.
pub proof fn tests_run_again_after_a_change(args: StartArgsView, inputs: Seq<Input>, n: nat)
    requires
        history::is_history(StartView::begin(args), inputs),
        interrupt_lasts(inputs),
        n <= inputs.len(),
    ensures
        test_runs(args, inputs, n) <= 1 + awaited_changes(args, inputs, n),
        awaited_changes(args, inputs, n) <= test_runs(args, inputs, n),
        starts_a_run(history::turn_at(StartView::begin(args), inputs, n)) ==> test_runs(
            args,
            inputs,
            n,
        ) == 1 + awaited_changes(args, inputs, n),
{
    lemma_counts(args, inputs, n);
}

/// The loop waits for no change before it has run the tests.
pub proof fn tests_run_before_the_wait(args: StartArgsView, inputs: Seq<Input>, n: nat)
    requires
        history::is_history(StartView::begin(args), inputs),
        n <= inputs.len(),
        history::request_at(StartView::begin(args), inputs, n) matches Some(
            RequestView::NextEvent(_),
        ),
    ensures
        test_runs(args, inputs, n) >= 1,
{
    lemma_runs(args, inputs, n);
    looping::lemma_start_turn(args, inputs, n);
}

/// The turn before a run shows nothing, but for the sequence that clears the
/// screen, if that is wanted and it is not the first run.
pub proof fn screen_is_cleared_between_runs(args: StartArgsView, inputs: Seq<Input>, n: nat)
    requires
        history::is_history(StartView::begin(args), inputs),
        n <= inputs.len(),
        starts_a_run(history::turn_at(StartView::begin(args), inputs, n)),
    ensures
        n > 0,
        history::turn_at(StartView::begin(args), inputs, (n - 1) as nat).output == if test_runs(
            args,
            inputs,
            n,
        ) == 1 {
            seq![]
        } else {
            between_runs(args.clear)
        },
{
    let first = StartView::begin(args);
    let m = (n - 1) as nat;
    lemma_runs(args, inputs, m);
    looping::lemma_start_turn(args, inputs, m);
    assert(history::turn_at(first, inputs, m).next is Do);
    let state = history::turn_at(first, inputs, m).next->Do_1;
    assert(history::turn_at(first, inputs, n) == state.step(inputs[m as int]));
}

} // verus!
