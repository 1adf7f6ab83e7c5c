//! The autosave watch loop.

use vstd::prelude::*;
use vstd::string::*;

use crate::console::{clear, Tint};
use crate::files::completed;
use crate::git::{inside_repo_command, is_git_available, is_git_repo, version_command};
use crate::protocol::{CommandView, Marker, Reply, ReplyKind, ReplyView, Request, RequestView};
use crate::savepoint::{SavePoint, SavePointView, TestState, TestView};
use crate::setup::{setup_or_resume, SetupState, SetupView};
use crate::turn::{
    ask, fail_with, finish, make_log, make_plain_error, show, show_also, show_before, show_nothing,
    ErrorView, Next, NextView, Output, OutputView, Turn, TurnView,
};
use crate::watch::{blockforfile, BlockState, BlockView};

verus! {

/// What the watch loop is started with.
#[derive(Debug, PartialEq, Eq)]
pub struct StartArgs {
    /// Filename extension to watch (eg rs, js, py, java)
    pub filetype: String,
    /// Command to run
    pub command: Vec<String>,
    /// Don't run git commit when tests pass
    pub dryrun: bool,
    /// Clear screen between runs
    pub clear: bool,
    /// Don't display test output
    pub quiet: bool,
}

/// The view of [`StartArgs`].
pub struct StartArgsView {
    pub filetype: Seq<char>,
    pub command: Seq<Seq<char>>,
    pub dryrun: bool,
    pub clear: bool,
    pub quiet: bool,
}

impl View for StartArgs {
    type V = StartArgsView;

    open spec fn view(&self) -> StartArgsView {
        StartArgsView {
            filetype: self.filetype@,
            command: crate::protocol::strings(self.command@),
            dryrun: self.dryrun,
            clear: self.clear,
            quiet: self.quiet,
        }
    }
}

/// What stays the same while the loop runs.
#[derive(Debug, PartialEq, Eq)]
pub struct Loop {
    pub filetype: String,
    pub program: String,
    pub dryrun: bool,
    pub clear: bool,
    pub quiet: bool,
}

/// The view of a [`Loop`].
pub struct LoopView {
    pub filetype: Seq<char>,
    pub program: Seq<char>,
    pub dryrun: bool,
    pub clear: bool,
    pub quiet: bool,
}

impl View for Loop {
    type V = LoopView;

    open spec fn view(&self) -> LoopView {
        LoopView {
            filetype: self.filetype@,
            program: self.program@,
            dryrun: self.dryrun,
            clear: self.clear,
            quiet: self.quiet,
        }
    }
}

/// The watch loop, on the way or in it.
#[derive(Debug, PartialEq, Eq)]
pub enum StartState {
    /// Finding out whether git can be run.
    CheckingGit { args: StartArgs },
    /// Finding out whether this is a repository.
    CheckingRepo { args: StartArgs },
    /// Setting up the session, or going on with it.
    SettingUp { args: StartArgs, setup: SetupState },
    /// Installing the handler of interrupts.
    Handling { fixed: Loop, rest: Vec<String> },
    /// Starting to collect changes.
    Watching { fixed: Loop, rest: Vec<String> },
    /// Looking for the error file.
    Looking { fixed: Loop, rest: Vec<String> },
    /// At the head of the loop, looking at the running flag.
    AtHead { fixed: Loop, point: SavePoint },
    /// Running the tests.
    Testing { fixed: Loop, test: TestState },
    /// After the tests, looking at the running flag.
    Tested { fixed: Loop, point: SavePoint },
    /// Waiting for a file to change.
    Blocking { fixed: Loop, point: SavePoint, block: BlockState },
}

/// The view of a [`StartState`].
pub enum StartView {
    CheckingGit { args: StartArgsView },
    CheckingRepo { args: StartArgsView },
    SettingUp { args: StartArgsView, setup: SetupView },
    Handling { fixed: LoopView, rest: Seq<Seq<char>> },
    Watching { fixed: LoopView, rest: Seq<Seq<char>> },
    Looking { fixed: LoopView, rest: Seq<Seq<char>> },
    AtHead { fixed: LoopView, point: SavePointView },
    Testing { fixed: LoopView, test: TestView },
    Tested { fixed: LoopView, point: SavePointView },
    Blocking { fixed: LoopView, point: SavePointView, block: BlockView },
}

impl View for StartState {
    type V = StartView;

    open spec fn view(&self) -> StartView {
        match self {
            StartState::CheckingGit { args } => StartView::CheckingGit { args: args@ },
            StartState::CheckingRepo { args } => StartView::CheckingRepo { args: args@ },
            StartState::SettingUp { args, setup } => StartView::SettingUp {
                args: args@,
                setup: setup@,
            },
            StartState::Handling { fixed, rest } => StartView::Handling {
                fixed: fixed@,
                rest: crate::protocol::strings(rest@),
            },
            StartState::Watching { fixed, rest } => StartView::Watching {
                fixed: fixed@,
                rest: crate::protocol::strings(rest@),
            },
            StartState::Looking { fixed, rest } => StartView::Looking {
                fixed: fixed@,
                rest: crate::protocol::strings(rest@),
            },
            StartState::AtHead { fixed, point } => StartView::AtHead {
                fixed: fixed@,
                point: point@,
            },
            StartState::Testing { fixed, test } => StartView::Testing {
                fixed: fixed@,
                test: test@,
            },
            StartState::Tested { fixed, point } => StartView::Tested {
                fixed: fixed@,
                point: point@,
            },
            StartState::Blocking { fixed, point, block } => StartView::Blocking {
                fixed: fixed@,
                point: point@,
                block: block@,
            },
        }
    }
}

impl OutputView {
    /// The last line of a loop that was stopped.
    pub open spec fn stopped() -> OutputView {
        OutputView::log(
            Tint::Yellow,
            "Savepoint stopped. Consider running `savepoint finalize` to merge auto-commits."@,
        )
    }
}

impl StartView {
    /// Setting up the session.
    pub open spec fn setting_up(args: StartArgsView, turn: TurnView<SetupView, ()>) -> TurnView<
        StartView,
        (),
    > {
        match turn.next {
            NextView::Do(request, setup) => TurnView::asking(
                turn.output,
                request,
                StartView::SettingUp { args, setup },
            ),
            NextView::Return(Ok(())) => if args.command.len() == 0 {
                TurnView::returning(
                    turn.output,
                    Err(ErrorView::plain("Missing argument: COMMAND"@)),
                )
            } else {
                TurnView::asking(
                    turn.output,
                    RequestView::HandleInterrupt,
                    StartView::Handling {
                        fixed: LoopView {
                            filetype: args.filetype,
                            program: args.command[0],
                            dryrun: args.dryrun,
                            clear: args.clear,
                            quiet: args.quiet,
                        },
                        rest: args.command.drop_first(),
                    },
                )
            },
            NextView::Return(Err(error)) => TurnView::returning(turn.output, Err(error)),
        }
    }

    /// Starting. In a dry run git is not looked for.
    pub open spec fn begin(args: StartArgsView) -> TurnView<StartView, ()> {
        if args.dryrun {
            Self::setting_up(args, SetupView::begin(args.dryrun))
        } else {
            TurnView::asking(
                seq![],
                RequestView::Run(CommandView::git_version()),
                StartView::CheckingGit { args },
            )
        }
    }

    /// After a test run, or on the way through it.
    pub open spec fn testing(fixed: LoopView, turn: TurnView<TestView, SavePointView>) -> TurnView<
        StartView,
        (),
    > {
        match turn.next {
            NextView::Do(request, test) => TurnView::asking(
                turn.output,
                request,
                StartView::Testing { fixed, test },
            ),
            NextView::Return(Ok(point)) => TurnView::asking(
                turn.output,
                RequestView::Running,
                StartView::Tested { fixed, point },
            ),
            NextView::Return(Err(error)) => TurnView::returning(turn.output, Err(error)),
        }
    }

    /// After waiting for a change, or on the way through it.
    pub open spec fn blocking(
        fixed: LoopView,
        point: SavePointView,
        turn: TurnView<BlockView, ()>,
    ) -> TurnView<StartView, ()> {
        match turn.next {
            NextView::Do(request, block) => TurnView::asking(
                turn.output,
                request,
                StartView::Blocking { fixed, point, block },
            ),
            NextView::Return(Ok(())) => TurnView::asking(
                if fixed.clear {
                    turn.output.push(OutputView::Raw("\x1B[2J\x1B[1;1H"@))
                } else {
                    turn.output
                },
                RequestView::Running,
                StartView::AtHead { fixed, point },
            ),
            NextView::Return(Err(error)) => TurnView::returning(turn.output, Err(error)),
        }
    }

    /// The end of the loop.
    pub open spec fn stopping() -> TurnView<StartView, ()> {
        TurnView::returning(seq![OutputView::stopped()], Ok(()))
    }

    /// The kind of reply that is waited for.
    pub open spec fn awaits(self) -> ReplyKind {
        match self {
            StartView::CheckingGit { .. } => ReplyKind::Ran,
            StartView::CheckingRepo { .. } => ReplyKind::Ran,
            StartView::SettingUp { setup, .. } => setup.awaits(),
            StartView::Handling { .. } => ReplyKind::Done,
            StartView::Watching { .. } => ReplyKind::Done,
            StartView::Looking { .. } => ReplyKind::Exists,
            StartView::AtHead { .. } => ReplyKind::Running,
            StartView::Testing { test, .. } => test.awaits(),
            StartView::Tested { .. } => ReplyKind::Running,
            StartView::Blocking { block, .. } => block.awaits(),
        }
    }

    /// The turn that a reply leads to. Where a savepoint branch is created, `id`
    /// is what it is named by.
    pub open spec fn after(self, reply: ReplyView, id: Seq<char>) -> TurnView<StartView, ()> {
        match self {
            StartView::CheckingGit { args } => match crate::git::availability(reply) {
                Ok(()) => TurnView::asking(
                    seq![],
                    RequestView::Run(CommandView::git_inside_repo()),
                    StartView::CheckingRepo { args },
                ),
                Err(error) => TurnView::returning(seq![], Err(error)),
            },
            StartView::CheckingRepo { args } => match crate::git::repo_presence(reply) {
                Ok(()) => Self::setting_up(args, SetupView::begin(args.dryrun)),
                Err(error) => TurnView::returning(seq![], Err(error)),
            },
            StartView::SettingUp { args, setup } => Self::setting_up(args, setup.after(reply, id)),
            StartView::Handling { fixed, rest } => match crate::files::completion(reply) {
                Ok(()) => TurnView::asking(
                    seq![],
                    RequestView::Watch("."@),
                    StartView::Watching { fixed, rest },
                ),
                Err(error) => TurnView::returning(seq![], Err(error)),
            },
            StartView::Watching { fixed, rest } => match crate::files::completion(reply) {
                Ok(()) => TurnView::asking(
                    seq![],
                    RequestView::Exists(Marker::Errfile),
                    StartView::Looking { fixed, rest },
                ),
                Err(error) => TurnView::returning(seq![], Err(error)),
            },
            StartView::Looking { fixed, rest } => TurnView::asking(
                seq![],
                RequestView::Running,
                StartView::AtHead {
                    fixed,
                    point: SavePointView::initial(fixed.program, rest, reply),
                },
            ),
            StartView::AtHead { fixed, point } => if reply == ReplyView::Running(false) {
                Self::stopping()
            } else {
                Self::testing(
                    fixed,
                    point.testing(fixed.program, fixed.dryrun, fixed.quiet),
                ).after_showing(seq![OutputView::log(Tint::White, "Monitoring..."@)])
            },
            StartView::Testing { fixed, test } => Self::testing(fixed, test.after(reply)),
            StartView::Tested { fixed, point } => if reply == ReplyView::Running(false) {
                Self::stopping()
            } else {
                Self::blocking(fixed, point, BlockView::begin(fixed.filetype))
            },
            StartView::Blocking { fixed, point, block } => Self::blocking(
                fixed,
                point,
                block.after(reply),
            ),
        }
    }
}

/// Runs the tests whenever a file changes, and commits when they pass again, on
/// a savepoint branch.
pub fn start(args: StartArgs) -> (turn: Turn<StartState, ()>)
    ensures
        turn@ == StartView::begin(args@),
{
    if args.dryrun {
        let setting_up = setup_or_resume(args.dryrun);
        return after_setup(args, setting_up);
    }
    ask(show_nothing(), Request::Run(version_command()), StartState::CheckingGit { args })
}

fn after_setup(args: StartArgs, turn: Turn<SetupState, ()>) -> (r: Turn<StartState, ()>)
    ensures
        r@ == StartView::setting_up(args@, turn@),
{
    match turn.next {
        Next::Do(request, setup) => ask(
            turn.output,
            request,
            StartState::SettingUp { args, setup },
        ),
        Next::Return(Ok(())) => {
            if args.command.len() == 0 {
                return fail_with(
                    turn.output,
                    make_plain_error("Missing argument: COMMAND".to_owned()),
                );
            }
            let ghost words = crate::protocol::strings(args.command@);
            let mut rest = args.command;
            let program = rest.remove(0);
            assert(crate::protocol::strings(rest@) =~= words.drop_first());
            ask(
                turn.output,
                Request::HandleInterrupt,
                StartState::Handling {
                    fixed: Loop {
                        filetype: args.filetype,
                        program,
                        dryrun: args.dryrun,
                        clear: args.clear,
                        quiet: args.quiet,
                    },
                    rest,
                },
            )
        },
        Next::Return(Err(error)) => fail_with(turn.output, error),
    }
}

fn after_test(fixed: Loop, turn: Turn<TestState, SavePoint>) -> (r: Turn<StartState, ()>)
    ensures
        r@ == StartView::testing(fixed@, turn@),
{
    match turn.next {
        Next::Do(request, test) => ask(turn.output, request, StartState::Testing { fixed, test }),
        Next::Return(Ok(point)) => ask(
            turn.output,
            Request::Running,
            StartState::Tested { fixed, point },
        ),
        Next::Return(Err(error)) => fail_with(turn.output, error),
    }
}

fn after_block(fixed: Loop, point: SavePoint, turn: Turn<BlockState, ()>) -> (r: Turn<
    StartState,
    (),
>)
    ensures
        r@ == StartView::blocking(fixed@, point@, turn@),
{
    match turn.next {
        Next::Do(request, block) => ask(
            turn.output,
            request,
            StartState::Blocking { fixed, point, block },
        ),
        Next::Return(Ok(())) => {
            let output = if fixed.clear {
                show_also(turn.output, Output::Raw(clear()))
            } else {
                turn.output
            };
            ask(output, Request::Running, StartState::AtHead { fixed, point })
        },
        Next::Return(Err(error)) => fail_with(turn.output, error),
    }
}

fn stop() -> (turn: Turn<StartState, ()>)
    ensures
        turn@ == StartView::stopping(),
{
    finish(
        show(
            make_log(
                Tint::Yellow,
                "Savepoint stopped. Consider running `savepoint finalize` to merge auto-commits.".to_owned(),
            ),
        ),
        (),
    )
}

impl StartState {
    /// Goes on with the reply that is waited for.
    pub fn resume(self, reply: Reply) -> (turn: Turn<StartState, ()>)
        requires
            reply@.kind() == self@.awaits(),
        ensures
            exists|id: Seq<char>|
                crate::git::is_v4_text(id) && turn@ == #[trigger] self@.after(reply@, id),
    {
        let ghost this = self@;
        let ghost answer = reply@;
        let ghost mut id = choose|id: Seq<char>| crate::git::is_v4_text(id);
        proof {
            crate::git::v4_text_exists();
        }
        let turn = match self {
            StartState::CheckingGit { args } => match is_git_available(reply) {
                Ok(()) => ask(
                    show_nothing(),
                    Request::Run(inside_repo_command()),
                    StartState::CheckingRepo { args },
                ),
                Err(error) => fail_with(show_nothing(), error),
            },
            StartState::CheckingRepo { args } => match is_git_repo(reply) {
                Ok(()) => {
                    let setting_up = setup_or_resume(args.dryrun);
                    after_setup(args, setting_up)
                },
                Err(error) => fail_with(show_nothing(), error),
            },
            StartState::SettingUp { args, setup } => {
                let ghost before = setup@;
                let setting_up = setup.resume(reply);
                proof {
                    id =
                    choose|id: Seq<char>|
                        crate::git::is_v4_text(id) && setting_up@ == #[trigger] before.after(
                            answer,
                            id,
                        );
                }
                after_setup(args, setting_up)
            },
            StartState::Handling { fixed, rest } => match completed(reply) {
                Ok(()) => ask(
                    show_nothing(),
                    Request::Watch(".".to_owned()),
                    StartState::Watching { fixed, rest },
                ),
                Err(error) => fail_with(show_nothing(), error),
            },
            StartState::Watching { fixed, rest } => match completed(reply) {
                Ok(()) => ask(
                    show_nothing(),
                    Request::Exists(Marker::Errfile),
                    StartState::Looking { fixed, rest },
                ),
                Err(error) => fail_with(show_nothing(), error),
            },
            StartState::Looking { fixed, rest } => {
                let point = SavePoint::new(fixed.program.as_str(), &rest, &reply);
                ask(show_nothing(), Request::Running, StartState::AtHead { fixed, point })
            },
            StartState::AtHead { fixed, point } => match reply {
                Reply::Running(false) => stop(),
                _ => {
                    let testing = point.test(fixed.program.as_str(), fixed.dryrun, fixed.quiet);
                    show_before(
                        show(make_log(Tint::White, "Monitoring...".to_owned())),
                        after_test(fixed, testing),
                    )
                },
            },
            StartState::Testing { fixed, test } => after_test(fixed, test.resume(reply)),
            StartState::Tested { fixed, point } => match reply {
                Reply::Running(false) => stop(),
                _ => {
                    let blocking = blockforfile(fixed.filetype.clone());
                    after_block(fixed, point, blocking)
                },
            },
            StartState::Blocking { fixed, point, block } => after_block(
                fixed,
                point,
                block.resume(reply),
            ),
        };
        assert(turn@ == this.after(answer, id));
        turn
    }
}

} // verus!
