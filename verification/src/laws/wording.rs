//! The watch loop and the commands, word for word.

use vstd::prelude::*;

use crate::console::{MessageView, Tint};
use crate::finalize::FinalizeView;
use crate::laws::history;
use crate::laws::history::Input;
use crate::laws::looping;
use crate::laws::repeating;
use crate::protocol::{
    CommandView, FailureKind, IoKind, Marker, ReplyKind, ReplyView, RequestView,
};
use crate::savepoint::{SavePointView, State, TestView};
use crate::session::{CommandsView, SessionView};
use crate::setup::SetupView;
use crate::start::{LoopView, StartArgsView, StartView};
use crate::turn::{NextView, OutputView};
use crate::watch::BlockView;

verus! {

/// The loop starts by asking git for its version, and in a dry run for the branch
/// that is checked out. Either answer is collected, not shown.
pub proof fn start_word_for_word(args: StartArgsView)
    ensures
        !args.dryrun ==> history::shows_and_asks(
            StartView::begin(args),
            seq![],
            RequestView::Run(
                (CommandView {
                    program: "git"@,
                    args: seq!["--version"@],
                    capture: true,
                    combine_output: false,
                    log_command: false,
                }),
            ),
        ),
        !args.dryrun ==> match StartView::begin(args).next {
            NextView::Do(_, state) => state == (StartView::CheckingGit { args }),
            NextView::Return(_) => false,
        },
        args.dryrun ==> history::shows_and_asks(
            StartView::begin(args),
            seq![],
            RequestView::Run(
                (CommandView {
                    program: "git"@,
                    args: seq!["rev-parse"@, "--abbrev-ref"@, "HEAD"@],
                    capture: true,
                    combine_output: false,
                    log_command: false,
                }),
            ),
        ),
        args.dryrun ==> match StartView::begin(args).next {
            NextView::Do(_, StartView::SettingUp { args: a, setup }) => a == args && setup == (
            SetupView::AskingBranch { dryrun: true }),
            _ => false,
        },
{
}

/// Git is looked for first, then the repository, and then the branch is asked for.
/// Each failure is told in words of its own.
pub proof fn checks_word_for_word(args: StartArgsView, reply: ReplyView, id: Seq<char>)
    requires
        reply.kind() == ReplyKind::Ran,
    ensures
        match reply {
            ReplyView::Ran(Ok(_)) => {
                &&& history::shows_and_asks(
                    (StartView::CheckingGit { args }).after(reply, id),
                    seq![],
                    RequestView::Run(
                        (CommandView {
                            program: "git"@,
                            args: seq!["rev-parse"@, "--is-inside-work-tree"@],
                            capture: true,
                            combine_output: false,
                            log_command: false,
                        }),
                    ),
                )
                &&& match (StartView::CheckingGit { args }).after(reply, id).next {
                    NextView::Do(_, state) => state == (StartView::CheckingRepo { args }),
                    NextView::Return(_) => false,
                }
                &&& history::shows_and_asks(
                    (StartView::CheckingRepo { args }).after(reply, id),
                    seq![],
                    RequestView::Run(
                        (CommandView {
                            program: "git"@,
                            args: seq!["rev-parse"@, "--abbrev-ref"@, "HEAD"@],
                            capture: true,
                            combine_output: false,
                            log_command: false,
                        }),
                    ),
                )
                &&& match (StartView::CheckingRepo { args }).after(reply, id).next {
                    NextView::Do(_, StartView::SettingUp { args: a, setup }) => a == args && setup
                        == (SetupView::AskingBranch { dryrun: args.dryrun }),
                    _ => false,
                }
            },
            ReplyView::Ran(Err(failure)) => {
                &&& history::shows_and_fails(
                    (StartView::CheckingGit { args }).after(reply, id),
                    seq![],
                    if failure.kind == FailureKind::Run(IoKind::NotFound) {
                        "could not find `git` command"@
                    } else {
                        "checking for `git` command failed with unexpected error "@ + failure.text
                    },
                    None,
                )
                &&& history::shows_and_fails(
                    (StartView::CheckingRepo { args }).after(reply, id),
                    seq![],
                    "Current directory is not a git repository, consider running 'git init'"@,
                    None,
                )
            },
            _ => false,
        },
{
}

/// While it sets up, the loop shows and asks for what setting up does. Once that
/// is done, a command is needed, and the interrupt is handled. What the loop was
/// started with is kept: the first word of the command is the program, and the
/// other words are its arguments, all of them and in order.
pub proof fn setting_up_word_for_word(
    args: StartArgsView,
    setup: SetupView,
    reply: ReplyView,
    id: Seq<char>,
)
    ensures
        (StartView::SettingUp { args, setup }).after(reply, id).output == setup.after(
            reply,
            id,
        ).output,
        match setup.after(reply, id).next {
            NextView::Do(request, next) => match (StartView::SettingUp { args, setup }).after(
                reply,
                id,
            ).next {
                NextView::Do(asked, state) => asked == request && state == (StartView::SettingUp {
                    args,
                    setup: next,
                }),
                NextView::Return(_) => false,
            },
            NextView::Return(Err(error)) => match (StartView::SettingUp { args, setup }).after(
                reply,
                id,
            ).next {
                NextView::Return(Err(returned)) => returned == error,
                _ => false,
            },
            NextView::Return(Ok(())) => if args.command.len() == 0 {
                match (StartView::SettingUp { args, setup }).after(reply, id).next {
                    NextView::Return(Err(error)) => error.message == "Missing argument: COMMAND"@
                        && error.suggestion is None,
                    _ => false,
                }
            } else {
                match (StartView::SettingUp { args, setup }).after(reply, id).next {
                    NextView::Do(
                        RequestView::HandleInterrupt,
                        StartView::Handling { fixed, rest },
                    ) => {
                        &&& fixed.filetype == args.filetype
                        &&& fixed.program == args.command[0]
                        &&& fixed.dryrun == args.dryrun
                        &&& fixed.clear == args.clear
                        &&& fixed.quiet == args.quiet
                        &&& rest.len() == args.command.len() - 1
                        &&& forall|i: int|
                            0 <= i < rest.len() ==> #[trigger] rest[i] == args.command[i + 1]
                    },
                    _ => false,
                }
            },
        },
{
}

/// Before the loop, the changes under the current directory are collected, and
/// the error file is looked for: the machine starts passing only if it is known
/// not to be there. A failure ends the command, as the system describes it.
pub proof fn preparing_word_for_word(
    fixed: LoopView,
    rest: Seq<Seq<char>>,
    reply: ReplyView,
    id: Seq<char>,
)
    ensures
        match reply {
            ReplyView::Done(Ok(())) => {
                &&& history::shows_and_asks(
                    (StartView::Handling { fixed, rest }).after(reply, id),
                    seq![],
                    RequestView::Watch("."@),
                )
                &&& match (StartView::Handling { fixed, rest }).after(reply, id).next {
                    NextView::Do(_, state) => state == (StartView::Watching { fixed, rest }),
                    NextView::Return(_) => false,
                }
                &&& history::shows_and_asks(
                    (StartView::Watching { fixed, rest }).after(reply, id),
                    seq![],
                    RequestView::Exists(Marker::Errfile),
                )
                &&& match (StartView::Watching { fixed, rest }).after(reply, id).next {
                    NextView::Do(_, state) => state == (StartView::Looking { fixed, rest }),
                    NextView::Return(_) => false,
                }
            },
            ReplyView::Done(Err(failure)) => {
                &&& history::shows_and_fails(
                    (StartView::Handling { fixed, rest }).after(reply, id),
                    seq![],
                    failure.text,
                    None,
                )
                &&& history::shows_and_fails(
                    (StartView::Watching { fixed, rest }).after(reply, id),
                    seq![],
                    failure.text,
                    None,
                )
            },
            ReplyView::Exists(result) => {
                &&& history::shows_and_asks(
                    (StartView::Looking { fixed, rest }).after(reply, id),
                    seq![],
                    RequestView::Running,
                )
                &&& match (StartView::Looking { fixed, rest }).after(reply, id).next {
                    NextView::Do(_, StartView::AtHead { fixed: f, point }) => {
                        &&& f == fixed
                        &&& point.program == fixed.program
                        &&& point.args == rest
                        &&& (point.state == State::Passing) == (result is Ok && !result->Ok_0)
                        &&& (point.state == State::Failing) == (result is Err || result->Ok_0)
                    },
                    _ => false,
                }
            },
            _ => true,
        },
{
}

/// At its head the loop stops with a last word, or runs the tests of the machine.
/// After the tests it stops likewise, or waits for a file of its type.
pub proof fn loop_word_for_word(
    fixed: LoopView,
    point: SavePointView,
    reply: ReplyView,
    id: Seq<char>,
)
    requires
        reply.kind() == ReplyKind::Running,
    ensures
        match reply {
            ReplyView::Running(true) => {
                &&& history::shows_and_asks(
                    (StartView::AtHead { fixed, point }).after(reply, id),
                    seq![
                        OutputView::Log(
                            (MessageView {
                                text: "Monitoring..."@,
                                tint: Tint::White,
                            }),
                        ),
                    ] + if fixed.quiet {
                        seq![OutputView::SpinnerStart("Running "@ + fixed.program + "..."@)]
                    } else {
                        seq![]
                    },
                    RequestView::Run(
                        (CommandView {
                            program: point.program,
                            args: point.args,
                            capture: fixed.quiet,
                            combine_output: fixed.quiet,
                            log_command: false,
                        }),
                    ),
                )
                &&& match (StartView::AtHead { fixed, point }).after(reply, id).next {
                    NextView::Do(_, StartView::Testing { fixed: f, test }) => f == fixed && test
                        == (TestView::Running {
                        point,
                        dryrun: fixed.dryrun,
                        quiet: fixed.quiet,
                    }),
                    _ => false,
                }
                &&& history::shows_and_asks(
                    (StartView::Tested { fixed, point }).after(reply, id),
                    seq![],
                    RequestView::Running,
                )
                &&& match (StartView::Tested { fixed, point }).after(reply, id).next {
                    NextView::Do(_, StartView::Blocking { fixed: f, point: p, block }) => f == fixed
                        && p == point && block == (BlockView::Checking {
                        extension: fixed.filetype,
                    }),
                    _ => false,
                }
            },
            ReplyView::Running(false) => {
                &&& history::shows_and_returns(
                    (StartView::AtHead { fixed, point }).after(reply, id),
                    seq![
                        OutputView::Log(
                            (MessageView {
                                text: "Savepoint stopped. Consider running `savepoint finalize` to merge auto-commits."@,
                                tint: Tint::Yellow,
                            }),
                        ),
                    ],
                    (),
                )
                &&& history::shows_and_returns(
                    (StartView::Tested { fixed, point }).after(reply, id),
                    seq![
                        OutputView::Log(
                            (MessageView {
                                text: "Savepoint stopped. Consider running `savepoint finalize` to merge auto-commits."@,
                                tint: Tint::Yellow,
                            }),
                        ),
                    ],
                    (),
                )
            },
            _ => false,
        },
{
}

/// During a test run the loop shows and asks for what the test run does. Once that
/// is over, it looks at the running flag with the machine that came out of it.
pub proof fn testing_word_for_word(
    fixed: LoopView,
    test: TestView,
    reply: ReplyView,
    id: Seq<char>,
)
    ensures
        (StartView::Testing { fixed, test }).after(reply, id).output == test.after(reply).output,
        match test.after(reply).next {
            NextView::Do(request, next) => match (StartView::Testing { fixed, test }).after(
                reply,
                id,
            ).next {
                NextView::Do(asked, state) => asked == request && state == (StartView::Testing {
                    fixed,
                    test: next,
                }),
                NextView::Return(_) => false,
            },
            NextView::Return(Ok(point)) => match (StartView::Testing { fixed, test }).after(
                reply,
                id,
            ).next {
                NextView::Do(asked, state) => asked == RequestView::Running && state == (
                StartView::Tested { fixed, point }),
                NextView::Return(_) => false,
            },
            NextView::Return(Err(error)) => match (StartView::Testing { fixed, test }).after(
                reply,
                id,
            ).next {
                NextView::Return(Err(returned)) => returned == error,
                _ => false,
            },
        },
{
}

/// While it waits, the loop shows and asks for what waiting does. Once that is
/// over, it clears the screen if that is wanted, and is at its head again with the
/// same machine.
pub proof fn waiting_word_for_word(
    fixed: LoopView,
    point: SavePointView,
    block: BlockView,
    reply: ReplyView,
    id: Seq<char>,
)
    ensures
        match block.after(reply).next {
            NextView::Do(request, next) => {
                &&& (StartView::Blocking { fixed, point, block }).after(reply, id).output
                    == block.after(reply).output
                &&& match (StartView::Blocking { fixed, point, block }).after(reply, id).next {
                    NextView::Do(asked, state) => asked == request && state == (
                    StartView::Blocking { fixed, point, block: next }),
                    NextView::Return(_) => false,
                }
            },
            NextView::Return(Ok(())) => {
                &&& history::shows_and_asks(
                    (StartView::Blocking { fixed, point, block }).after(reply, id),
                    if fixed.clear {
                        seq![OutputView::Raw("\x1B[2J\x1B[1;1H"@)]
                    } else {
                        seq![]
                    },
                    RequestView::Running,
                )
                &&& match (StartView::Blocking { fixed, point, block }).after(reply, id).next {
                    NextView::Do(_, state) => state == (StartView::AtHead { fixed, point }),
                    NextView::Return(_) => false,
                }
            },
            NextView::Return(Err(_)) => false,
        },
{
}

/// Whenever the loop runs the tests, it runs the command of the user: the first
/// word is the program, and the other words are its arguments, all of them and in
/// order. What they print is shown, or collected together with their errors in a
/// quiet run.
pub proof fn loop_runs_the_command_of_the_user(args: StartArgsView, inputs: Seq<Input>, n: nat)
    requires
        history::is_history(StartView::begin(args), inputs),
        n <= inputs.len(),
        repeating::starts_a_run(history::turn_at(StartView::begin(args), inputs, n)),
    ensures
        match history::request_at(StartView::begin(args), inputs, n) {
            Some(RequestView::Run(command)) => {
                &&& args.command.len() > 0
                &&& command.program == args.command[0]
                &&& command.args.len() == args.command.len() - 1
                &&& forall|i: int|
                    0 <= i < command.args.len() ==> #[trigger] command.args[i] == args.command[i
                        + 1]
                &&& command.capture == args.quiet
                &&& command.combine_output == args.quiet
                &&& !command.log_command
            },
            _ => false,
        },
{
    looping::lemma_start_turn(args, inputs, n);
}

/// Once git is found and this is a repository, or at once in a dry run, the loop
/// asks git for the branch, and the answer is collected, not shown.
pub proof fn loop_collects_the_name_of_the_branch(args: StartArgsView, inputs: Seq<Input>)
    requires
        history::is_history(StartView::begin(args), inputs),
        !args.dryrun ==> inputs.len() >= 2 && !inputs[0].reply.is_failure()
            && !inputs[1].reply.is_failure(),
    ensures
        history::request_at(
            StartView::begin(args),
            inputs,
            if args.dryrun {
                0
            } else {
                2
            },
        ) == Some(
            RequestView::Run(
                (CommandView {
                    program: "git"@,
                    args: seq!["rev-parse"@, "--abbrev-ref"@, "HEAD"@],
                    capture: true,
                    combine_output: false,
                    log_command: false,
                }),
            ),
        ),
{
    let first = StartView::begin(args);
    if !args.dryrun {
        reveal_with_fuel(history::turn_at, 3);
        assert(history::turn_at(first, inputs, 0).next is Do);
        assert(history::turn_at(first, inputs, 1).next is Do);
    }
}

/// A command starts as what it is for does: it shows, asks for and returns the
/// same.
pub proof fn command_starts_word_for_word(command: CommandsView)
    ensures
        match command {
            CommandsView::Start(args) => {
                &&& SessionView::begin(command).output == StartView::begin(args).output
                &&& match (StartView::begin(args).next, SessionView::begin(command).next) {
                    (NextView::Do(request, state), NextView::Do(asked, session)) => asked == request
                        && session == SessionView::Starting(state),
                    (NextView::Return(result), NextView::Return(returned)) => returned == result,
                    _ => false,
                }
            },
            CommandsView::Finalize { message, dryrun } => {
                &&& SessionView::begin(command).output == FinalizeView::begin(
                    message,
                    dryrun,
                ).output
                &&& match (
                    FinalizeView::begin(message, dryrun).next,
                    SessionView::begin(command).next,
                ) {
                    (NextView::Do(request, state), NextView::Do(asked, session)) => asked == request
                        && session == SessionView::Finalizing(state),
                    (NextView::Return(result), NextView::Return(returned)) => returned == result,
                    _ => false,
                }
            },
        },
{
}

/// A command goes on as what it is for does: it shows, asks for and returns the
/// same.
pub proof fn command_goes_on_word_for_word(session: SessionView, reply: ReplyView, id: Seq<char>)
    ensures
        match session {
            SessionView::Starting(inner) => {
                &&& session.after(reply, id).output == inner.after(reply, id).output
                &&& match (inner.after(reply, id).next, session.after(reply, id).next) {
                    (NextView::Do(request, state), NextView::Do(asked, next)) => asked == request
                        && next == SessionView::Starting(state),
                    (NextView::Return(result), NextView::Return(returned)) => returned == result,
                    _ => false,
                }
            },
            SessionView::Finalizing(inner) => {
                &&& session.after(reply, id).output == inner.after(reply).output
                &&& match (inner.after(reply).next, session.after(reply, id).next) {
                    (NextView::Do(request, state), NextView::Do(asked, next)) => asked == request
                        && next == SessionView::Finalizing(state),
                    (NextView::Return(result), NextView::Return(returned)) => returned == result,
                    _ => false,
                }
            },
        },
{
}

} // verus!
