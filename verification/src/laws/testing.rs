//! Laws of the machine that follows the outcomes of test runs.

use vstd::prelude::*;

use crate::console::{MessageView, Tint};
use crate::git::CommitState;
use crate::laws::history;
use crate::laws::history::{Input, Machine};
use crate::protocol::{CommandView, Marker, ReplyView, RequestView};
use crate::savepoint::{SavePointView, State, TestView};
use crate::turn::{ErrorView, NextView, OutputView};

verus! {

/// All that a test run asks for, in order, by whether the tests passed.
pub open spec fn test_plan(point: SavePointView, dryrun: bool, quiet: bool, passed: bool) -> Seq<
    RequestView,
> {
    let tests = RequestView::Run(CommandView::tests(point.program, point.args, quiet));
    if !passed {
        seq![tests, RequestView::Write(Marker::Errfile, ""@)]
    } else if point.state == State::Passing {
        seq![tests]
    } else if dryrun {
        seq![tests, RequestView::Remove(Marker::Errfile)]
    } else {
        seq![
            tests,
            RequestView::Run(CommandView::git_commit_all("SAVEPOINT REACHED!"@)),
            RequestView::Remove(Marker::Errfile),
        ]
    }
}

/// The plan for the outcome that the first reply tells of.
pub open spec fn test_plan_of(
    point: SavePointView,
    dryrun: bool,
    quiet: bool,
    inputs: Seq<Input>,
) -> Seq<RequestView> {
    test_plan(point, dryrun, quiet, !inputs[0].reply.is_failure())
}

/// The machine after a test run.
pub open spec fn after_run(point: SavePointView, passed: bool) -> SavePointView {
    point.in_state(
        if passed {
            State::Passing
        } else {
            State::Failing
        },
    )
}

/// The state in which the reply to each request of the plan is waited for.
spec fn state_in_test(
    point: SavePointView,
    dryrun: bool,
    quiet: bool,
    inputs: Seq<Input>,
    n: nat,
) -> TestView {
    if n == 0 {
        TestView::Running { point, dryrun, quiet }
    } else if inputs[0].reply.is_failure() {
        TestView::Marking { point }
    } else if n == 1 && !dryrun {
        TestView::Committing { point, commit: CommitState {  } }
    } else {
        TestView::Unmarking { point }
    }
}

proof fn lemma_test_turn(
    point: SavePointView,
    program: Seq<char>,
    dryrun: bool,
    quiet: bool,
    inputs: Seq<Input>,
    n: nat,
)
    requires
        history::is_history(point.testing(program, dryrun, quiet), inputs),
        n <= inputs.len(),
    ensures
        match history::turn_at(point.testing(program, dryrun, quiet), inputs, n).next {
            NextView::Do(request, state) => {
                &&& n < test_plan_of(point, dryrun, quiet, inputs).len()
                &&& request == test_plan_of(point, dryrun, quiet, inputs)[n as int]
                &&& state == state_in_test(point, dryrun, quiet, inputs, n)
                &&& forall|k: int| 0 < k < n ==> !(#[trigger] inputs[k]).reply.is_failure()
            },
            NextView::Return(Ok(result)) => {
                &&& n == test_plan_of(point, dryrun, quiet, inputs).len()
                &&& result == after_run(point, !inputs[0].reply.is_failure())
                &&& !inputs[0].reply.is_failure() ==> forall|k: int|
                    0 < k < n ==> !(#[trigger] inputs[k]).reply.is_failure()
            },
            NextView::Return(Err(_)) => {
                &&& 1 < n
                &&& !inputs[0].reply.is_failure()
                &&& inputs[n - 1].reply.is_failure()
            },
        },
    decreases n,
{
    let first = point.testing(program, dryrun, quiet);
    if n > 0 {
        let m = (n - 1) as nat;
        lemma_test_turn(point, program, dryrun, quiet, inputs, m);
        assert(history::turn_at(first, inputs, m).next is Do);
        assert(history::turn_at(first, inputs, n) == state_in_test(
            point,
            dryrun,
            quiet,
            inputs,
            m,
        ).step(inputs[m as int]));
    }
}

/// A test run asks for one thing after the other, in an order that the outcome
/// of the tests fixes. The machine ends up in the state that the outcome tells
/// of, for the same tests. There is an error only if, after the tests passed
/// again, the commit or the removal of the error file fails.
pub proof fn test_follows_its_plan(
    point: SavePointView,
    program: Seq<char>,
    dryrun: bool,
    quiet: bool,
    inputs: Seq<Input>,
)
    requires
        history::is_history(point.testing(program, dryrun, quiet), inputs),
    ensures
        inputs.len() <= test_plan_of(point, dryrun, quiet, inputs).len(),
        forall|n: nat|
            n <= inputs.len() ==> match #[trigger] history::request_at(
                point.testing(program, dryrun, quiet),
                inputs,
                n,
            ) {
                Some(request) => {
                    &&& n < test_plan_of(point, dryrun, quiet, inputs).len()
                    &&& request == test_plan_of(point, dryrun, quiet, inputs)[n as int]
                },
                None => n == inputs.len(),
            },
        match history::turn_at(
            point.testing(program, dryrun, quiet),
            inputs,
            inputs.len(),
        ).next {
            NextView::Do(..) => true,
            NextView::Return(Ok(result)) => {
                &&& inputs.len() == test_plan_of(point, dryrun, quiet, inputs).len()
                &&& result == after_run(point, !inputs[0].reply.is_failure())
            },
            NextView::Return(Err(_)) => {
                &&& !inputs[0].reply.is_failure() && point.state == State::Failing
                &&& inputs.len() > 1 && inputs.last().reply.is_failure()
            },
        },
        inputs.len() > 1 && !inputs[0].reply.is_failure() && inputs.last().reply.is_failure()
            ==> !history::succeeds(point.testing(program, dryrun, quiet), inputs),
{
    let first = point.testing(program, dryrun, quiet);
    lemma_test_turn(point, program, dryrun, quiet, inputs, inputs.len());
    assert forall|n: nat| n <= inputs.len() implies match #[trigger] history::request_at(
        first,
        inputs,
        n,
    ) {
        Some(request) => {
            &&& n < test_plan_of(point, dryrun, quiet, inputs).len()
            &&& request == test_plan_of(point, dryrun, quiet, inputs)[n as int]
        },
        None => n == inputs.len(),
    } by {
        lemma_test_turn(point, program, dryrun, quiet, inputs, n);
        if n < inputs.len() {
            assert(history::turn_at(first, inputs, n).next is Do);
        }
    }
    if inputs.len() > 0 {
        let m = (inputs.len() - 1) as nat;
        lemma_test_turn(point, program, dryrun, quiet, inputs, m);
        assert(history::turn_at(first, inputs, m).next is Do);
    }
}

/// Tests that pass while the machine is passing change nothing: the run is over,
/// and the machine is what it was.
pub proof fn passing_again_is_a_no_op(
    point: SavePointView,
    dryrun: bool,
    quiet: bool,
    stdout: Seq<u8>,
)
    requires
        point.state == State::Passing,
    ensures
        (TestView::Running { point, dryrun, quiet }).after(ReplyView::Ran(Ok(stdout))).next
            == NextView::<TestView, SavePointView>::Return(Ok(point)),
{
}

/// A test run that fails leaves the machine failing, whatever state it was in and
/// whether the error file could be written or not, and runs nothing more.
pub proof fn failing_run_is_only_marked(
    point: SavePointView,
    program: Seq<char>,
    dryrun: bool,
    quiet: bool,
    inputs: Seq<Input>,
)
    requires
        history::is_history(point.testing(program, dryrun, quiet), inputs),
        inputs.len() == 2,
        inputs[0].reply.is_failure(),
    ensures
        history::request_at(point.testing(program, dryrun, quiet), inputs, 1) == Some(
            RequestView::Write(Marker::Errfile, ""@),
        ),
        history::turn_at(point.testing(program, dryrun, quiet), inputs, 2).next
            == NextView::<TestView, SavePointView>::Return(Ok(point.in_state(State::Failing))),
{
    let first = point.testing(program, dryrun, quiet);
    assert(history::turn_at(first, inputs, 1).next is Do);
    lemma_test_turn(point, program, dryrun, quiet, inputs, 1);
    assert(history::turn_at(first, inputs, 2) == state_in_test(
        point,
        dryrun,
        quiet,
        inputs,
        1,
    ).step(inputs[1]));
}

/// The changes are committed exactly where the tests pass after they failed, and
/// not in a dry run. Nothing else than the tests and that commit is ever run.
pub proof fn commits_where_tests_pass_again(
    point: SavePointView,
    program: Seq<char>,
    dryrun: bool,
    quiet: bool,
    inputs: Seq<Input>,
    n: nat,
    command: CommandView,
)
    requires
        history::is_history(point.testing(program, dryrun, quiet), inputs),
        n <= inputs.len(),
    ensures
        (0 < n && history::request_at(point.testing(program, dryrun, quiet), inputs, n) == Some(
            RequestView::Run(command),
        )) == (n == 1 && point.state == State::Failing && !inputs[0].reply.is_failure() && !dryrun
            && command == CommandView::git_commit_all("SAVEPOINT REACHED!"@)),
{
    let first = point.testing(program, dryrun, quiet);
    lemma_test_turn(point, program, dryrun, quiet, inputs, n);
    if n == 1 {
        assert(history::turn_at(first, inputs, 0).next is Do);
        assert(history::turn_at(first, inputs, 1) == state_in_test(
            point,
            dryrun,
            quiet,
            inputs,
            0,
        ).step(inputs[0]));
    }
}

/// The error file is removed only once the changes are committed, so that a
/// commit that failed is made up for by the next session.
pub proof fn errfile_outlives_a_failed_commit(
    point: SavePointView,
    program: Seq<char>,
    quiet: bool,
    inputs: Seq<Input>,
)
    requires
        history::is_history(point.testing(program, false, quiet), inputs),
        inputs.len() == 2,
        point.state == State::Failing,
        !inputs[0].reply.is_failure(),
        inputs[1].reply.is_failure(),
    ensures
        history::fails_with(
            point.testing(program, false, quiet),
            inputs,
            ErrorView::with(
                "Git command error."@,
                "Consider manually removing the `.checkpoint.error` file"@,
            ),
        ),
        forall|n: nat|
            n <= 2 ==> #[trigger] history::request_at(
                point.testing(program, false, quiet),
                inputs,
                n,
            ) != Some(RequestView::Remove(Marker::Errfile)),
{
    let first = point.testing(program, false, quiet);
    test_follows_its_plan(point, program, false, quiet, inputs);
    assert(history::turn_at(first, inputs, 1).next is Do);
    lemma_test_turn(point, program, false, quiet, inputs, 1);
    assert(history::turn_at(first, inputs, 2) == state_in_test(
        point,
        false,
        quiet,
        inputs,
        1,
    ).step(inputs[1]));
}


/// A test run, word for word. The program and the arguments are those of the
/// machine, all of them and in order; a quiet run collects what they print, and
/// shows a spinner. Tests that fail are marked, and tests that pass again are
/// committed, except in a dry run, and no longer marked.
pub proof fn test_run_word_for_word(
    point: SavePointView,
    program: Seq<char>,
    dryrun: bool,
    quiet: bool,
    inputs: Seq<Input>,
)
    requires
        history::is_history(point.testing(program, dryrun, quiet), inputs),
    ensures
        history::shows_and_asks(
            history::turn_at(point.testing(program, dryrun, quiet), inputs, 0),
            if quiet {
                seq![OutputView::SpinnerStart("Running "@ + program + "..."@)]
            } else {
                seq![]
            },
            RequestView::Run(
                (CommandView {
                    program: point.program,
                    args: point.args,
                    capture: quiet,
                    combine_output: quiet,
                    log_command: false,
                }),
            ),
        ),
        inputs.len() >= 1 ==> match inputs[0].reply {
            ReplyView::Ran(Err(_)) => history::shows_and_asks(
                history::turn_at(point.testing(program, dryrun, quiet), inputs, 1),
                (
                    if quiet {
                        seq![OutputView::SpinnerStop, OutputView::Line("done!"@)]
                    } else {
                        seq![OutputView::Line("done!"@)]
                    }
                ).push(
                    OutputView::Log(
                        (MessageView {
                            text: "Error!"@,
                            tint: Tint::Red,
                        }),
                    ),
                ),
                RequestView::Write(Marker::Errfile, ""@),
            ),
            ReplyView::Ran(Ok(_)) => match point.state {
                State::Passing => history::shows_and_returns(
                    history::turn_at(point.testing(program, dryrun, quiet), inputs, 1),
                    if quiet {
                        seq![OutputView::SpinnerStop, OutputView::Line("done!"@)]
                    } else {
                        seq![OutputView::Line("done!"@)]
                    },
                    point,
                ),
                State::Failing => if dryrun {
                    history::shows_and_asks(
                        history::turn_at(point.testing(program, dryrun, quiet), inputs, 1),
                        (
                            if quiet {
                                seq![OutputView::SpinnerStop, OutputView::Line("done!"@)]
                            } else {
                                seq![OutputView::Line("done!"@)]
                            }
                        ).push(
                            OutputView::Log(
                                (MessageView {
                                    text: "(dry run) Autosaving!"@,
                                    tint: Tint::Green,
                                }),
                            ),
                        ),
                        RequestView::Remove(Marker::Errfile),
                    )
                } else {
                    history::shows_and_asks(
                        history::turn_at(point.testing(program, dryrun, quiet), inputs, 1),
                        (
                            if quiet {
                                seq![OutputView::SpinnerStop, OutputView::Line("done!"@)]
                            } else {
                                seq![OutputView::Line("done!"@)]
                            }
                        ).push(
                            OutputView::Log(
                                (MessageView {
                                    text: "Autosaving!"@,
                                    tint: Tint::Green,
                                }),
                            ),
                        ),
                        RequestView::Run(
                            (CommandView {
                                program: "git"@,
                                args: seq!["commit"@, "-am"@, "SAVEPOINT REACHED!"@],
                                capture: false,
                                combine_output: false,
                                log_command: false,
                            }),
                        ),
                    )
                },
            },
            _ => false,
        },
        inputs.len() >= 2 ==> if inputs[0].reply.is_failure() {
            inputs[1].reply is Done && history::shows_and_returns(
                history::turn_at(point.testing(program, dryrun, quiet), inputs, 2),
                seq![],
                (SavePointView {
                    program: point.program,
                    args: point.args,
                    state: State::Failing,
                }),
            )
        } else {
            &&& point.state == State::Failing
            &&& if dryrun {
                match inputs[1].reply {
                    ReplyView::Done(Ok(())) => history::shows_and_returns(
                        history::turn_at(point.testing(program, dryrun, quiet), inputs, 2),
                        seq![],
                        (SavePointView {
                            program: point.program,
                            args: point.args,
                            state: State::Passing,
                        }),
                    ),
                    ReplyView::Done(Err(failure)) => history::shows_and_fails(
                        history::turn_at(point.testing(program, dryrun, quiet), inputs, 2),
                        seq![],
                        failure.text,
                        None,
                    ),
                    _ => false,
                }
            } else {
                match inputs[1].reply {
                    ReplyView::Ran(Ok(_)) => history::shows_and_asks(
                        history::turn_at(point.testing(program, dryrun, quiet), inputs, 2),
                        seq![],
                        RequestView::Remove(Marker::Errfile),
                    ),
                    ReplyView::Ran(Err(_)) => history::shows_and_fails(
                        history::turn_at(point.testing(program, dryrun, quiet), inputs, 2),
                        seq![
                            OutputView::Log(
                                (MessageView {
                                    text: "Fatal error!"@,
                                    tint: Tint::Red,
                                }),
                            ),
                        ],
                        "Git command error."@,
                        Some("Consider manually removing the `.checkpoint.error` file"@),
                    ),
                    _ => false,
                }
            }
        },
        inputs.len() >= 3 ==> {
            &&& !inputs[0].reply.is_failure() && !inputs[1].reply.is_failure()
            &&& point.state == State::Failing && !dryrun
            &&& match inputs[2].reply {
                ReplyView::Done(Ok(())) => history::shows_and_returns(
                    history::turn_at(point.testing(program, dryrun, quiet), inputs, 3),
                    seq![],
                    (SavePointView {
                        program: point.program,
                        args: point.args,
                        state: State::Passing,
                    }),
                ),
                ReplyView::Done(Err(failure)) => history::shows_and_fails(
                    history::turn_at(point.testing(program, dryrun, quiet), inputs, 3),
                    seq![],
                    failure.text,
                    None,
                ),
                _ => false,
            }
        },
{
    lemma_test_step(point, program, dryrun, quiet, inputs, 0);
    lemma_test_step(point, program, dryrun, quiet, inputs, 1);
    lemma_test_step(point, program, dryrun, quiet, inputs, 2);
}

proof fn lemma_test_step(
    point: SavePointView,
    program: Seq<char>,
    dryrun: bool,
    quiet: bool,
    inputs: Seq<Input>,
    n: nat,
)
    requires
        history::is_history(point.testing(program, dryrun, quiet), inputs),
    ensures
        n < inputs.len() ==> {
            &&& n < test_plan_of(point, dryrun, quiet, inputs).len()
            &&& forall|k: int| 0 < k < n ==> !(#[trigger] inputs[k]).reply.is_failure()
            &&& history::turn_at(
                point.testing(program, dryrun, quiet),
                inputs,
                n + 1,
            ) == state_in_test(point, dryrun, quiet, inputs, n).step(inputs[n as int])
            &&& inputs[n as int].reply.kind() == state_in_test(
                point,
                dryrun,
                quiet,
                inputs,
                n,
            ).awaits()
        },
{
    if n < inputs.len() {
        lemma_test_turn(point, program, dryrun, quiet, inputs, n);
        assert(history::turn_at(point.testing(program, dryrun, quiet), inputs, n).next is Do);
    }
}

} // verus!
