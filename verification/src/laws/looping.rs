//! Laws of the watch loop.

use vstd::prelude::*;

use crate::finalize::FinalizeView;
use crate::laws::ending;
use crate::laws::history;
use crate::laws::history::{Input, Machine};
use crate::protocol::{CommandView, Marker, ReplyView, RequestView};
use crate::savepoint::{SavePointView, State, TestView};
use crate::setup::SetupView;
use crate::start::{LoopView, StartArgsView, StartView};
use crate::turn::{NextView, OutputView};
use crate::watch::{BlockView, EVENT_TIMEOUT};

verus! {

/// The command that runs the tests that the loop was started with.
pub open spec fn tests_of(args: StartArgsView) -> CommandView {
    CommandView::tests(args.command[0], args.command.drop_first(), args.quiet)
}

/// The commit of an autosave.
pub open spec fn autosave() -> CommandView {
    CommandView::git_commit_all("SAVEPOINT REACHED!"@)
}

/// `fixed` and `rest` are what the arguments say.
pub(crate) open spec fn loop_fits(args: StartArgsView, fixed: LoopView, rest: Seq<Seq<char>>) -> bool {
    &&& args.command.len() > 0
    &&& fixed.filetype == args.filetype
    &&& fixed.program == args.command[0]
    &&& fixed.dryrun == args.dryrun
    &&& fixed.clear == args.clear
    &&& fixed.quiet == args.quiet
    &&& rest == args.command.drop_first()
}

/// A state of setting up that the loop can be in.
pub(crate) open spec fn setup_fits(dryrun: bool, setup: SetupView) -> bool {
    match setup {
        SetupView::AskingBranch { dryrun: d } => d == dryrun,
        SetupView::LookingForStatefile { dryrun: d, .. } => d == dryrun,
        SetupView::Recording { dryrun: d } => d == dryrun,
        SetupView::Branching { .. } => !dryrun,
    }
}

/// The machine that a test run is for.
pub open spec fn point_of(test: TestView) -> SavePointView {
    match test {
        TestView::Running { point, .. } => point,
        TestView::Marking { point } => point,
        TestView::Committing { point, .. } => point,
        TestView::Unmarking { point } => point,
    }
}

/// A state of a test run that the loop can be in.
pub(crate) open spec fn test_fits(args: StartArgsView, test: TestView) -> bool {
    match test {
        TestView::Running { dryrun, quiet, .. } => dryrun == args.dryrun && quiet == args.quiet,
        TestView::Marking { .. } => true,
        TestView::Committing { point, .. } => !args.dryrun && point.state == State::Failing,
        TestView::Unmarking { point } => point.state == State::Failing,
    }
}

/// A state that the loop can be in.
pub(crate) open spec fn state_fits(args: StartArgsView, state: StartView) -> bool {
    match state {
        StartView::CheckingGit { args: a } => a == args && !args.dryrun,
        StartView::CheckingRepo { args: a } => a == args && !args.dryrun,
        StartView::SettingUp { args: a, setup } => a == args && setup_fits(args.dryrun, setup),
        StartView::Handling { fixed, rest } => loop_fits(args, fixed, rest),
        StartView::Watching { fixed, rest } => loop_fits(args, fixed, rest),
        StartView::Looking { fixed, rest } => loop_fits(args, fixed, rest),
        StartView::AtHead { fixed, point } => loop_fits(args, fixed, point.args) && point.program
            == fixed.program,
        StartView::Testing { fixed, test } => loop_fits(args, fixed, point_of(test).args)
            && point_of(test).program == fixed.program && test_fits(args, test),
        StartView::Tested { fixed, point } => loop_fits(args, fixed, point.args) && point.program
            == fixed.program,
        StartView::Blocking { fixed, point, .. } => loop_fits(args, fixed, point.args)
            && point.program == fixed.program,
    }
}

/// What is asked for in each state.
pub(crate) open spec fn asks(state: StartView, request: RequestView) -> bool {
    match state {
        StartView::CheckingGit { .. } => request == RequestView::Run(CommandView::git_version()),
        StartView::CheckingRepo { .. } => request == RequestView::Run(
            CommandView::git_inside_repo(),
        ),
        StartView::SettingUp { setup, .. } => match setup {
            SetupView::AskingBranch { .. } => request == RequestView::Run(
                CommandView::git_current_branch(),
            ),
            SetupView::LookingForStatefile { .. } => request == RequestView::Exists(
                Marker::Statefile,
            ),
            SetupView::Recording { .. } => request matches RequestView::Write(
                Marker::Statefile,
                branch,
            ) && !crate::git::names_savepoint(branch),
            SetupView::Branching { branch } => request == RequestView::Run(
                CommandView::git_checkout_new(branch.name),
            ),
        },
        StartView::Handling { .. } => request == RequestView::HandleInterrupt,
        StartView::Watching { .. } => request == RequestView::Watch("."@),
        StartView::Looking { .. } => request == RequestView::Exists(Marker::Errfile),
        StartView::AtHead { .. } => request == RequestView::Running,
        StartView::Testing { fixed, test } => match test {
            TestView::Running { point, quiet, .. } => request == RequestView::Run(
                CommandView::tests(point.program, point.args, quiet),
            ),
            TestView::Marking { .. } => request == RequestView::Write(Marker::Errfile, ""@),
            TestView::Committing { .. } => request == RequestView::Run(autosave()),
            TestView::Unmarking { .. } => request == RequestView::Remove(Marker::Errfile),
        },
        StartView::Tested { .. } => request == RequestView::Running,
        StartView::Blocking { block, .. } => match block {
            BlockView::Checking { .. } => request == RequestView::Running,
            BlockView::Waiting { .. } => request == RequestView::NextEvent(EVENT_TIMEOUT),
            BlockView::Draining => request == RequestView::NextEvent(EVENT_TIMEOUT),
        },
    }
}

pub(crate) proof fn lemma_start_turn(args: StartArgsView, inputs: Seq<Input>, n: nat)
    requires
        history::is_history(StartView::begin(args), inputs),
        n <= inputs.len(),
    ensures
        match history::turn_at(StartView::begin(args), inputs, n).next {
            NextView::Do(request, state) => state_fits(args, state) && asks(state, request),
            NextView::Return(Ok(())) => {
                &&& 0 < n
                &&& inputs[n - 1].reply == ReplyView::Running(false)
                &&& args.command.len() > 0
                &&& history::turn_at(StartView::begin(args), inputs, n).output == seq![
                    OutputView::stopped(),
                ]
            },
            NextView::Return(Err(_)) => 0 < n,
        },
    decreases n,
{
    let first = StartView::begin(args);
    if n > 0 {
        let m = (n - 1) as nat;
        lemma_start_turn(args, inputs, m);
        assert(history::turn_at(first, inputs, m).next is Do);
        let state = history::turn_at(first, inputs, m).next->Do_1;
        assert(history::turn_at(first, inputs, n) == state.step(inputs[m as int]));
    }
}

/// How many replies come before the loop sets up its session.
pub open spec fn replies_before_setup(dryrun: bool) -> nat {
    if dryrun {
        0
    } else {
        2
    }
}

/// After how many replies a state comes, where that is fixed.
spec fn place_of(dryrun: bool, state: StartView) -> Option<nat> {
    match state {
        StartView::CheckingGit { .. } => Some(0),
        StartView::CheckingRepo { .. } => Some(1),
        StartView::SettingUp { setup, .. } => Some(
            replies_before_setup(dryrun) + match setup {
                SetupView::AskingBranch { .. } => 0,
                SetupView::LookingForStatefile { .. } => 1,
                SetupView::Recording { .. } => 2,
                SetupView::Branching { .. } => 3nat,
            },
        ),
        _ => None,
    }
}

proof fn lemma_start_place(args: StartArgsView, inputs: Seq<Input>, n: nat)
    requires
        history::is_history(StartView::begin(args), inputs),
        n <= inputs.len(),
    ensures
        match history::turn_at(StartView::begin(args), inputs, n).next {
            NextView::Do(_, state) => match place_of(args.dryrun, state) {
                Some(place) => n == place,
                None => true,
            },
            NextView::Return(_) => true,
        },
    decreases n,
{
    let first = StartView::begin(args);
    if n > 0 {
        let m = (n - 1) as nat;
        lemma_start_place(args, inputs, m);
        lemma_start_turn(args, inputs, m);
        assert(history::turn_at(first, inputs, m).next is Do);
        let state = history::turn_at(first, inputs, m).next->Do_1;
        assert(history::turn_at(first, inputs, n) == state.step(inputs[m as int]));
    }
}

/// What the loop may run after `n` replies: the tests and autosaves at any time,
/// and each of the commands that set up its session once, at its place. In a dry
/// run that is the tests, and first of all the question which branch is checked
/// out.
pub open spec fn may_run(
    args: StartArgsView,
    inputs: Seq<Input>,
    n: nat,
    command: CommandView,
) -> bool {
    ||| args.command.len() > 0 && command == tests_of(args)
    ||| n == replies_before_setup(args.dryrun) && command == CommandView::git_current_branch()
    ||| !args.dryrun && {
        ||| n == 0 && command == CommandView::git_version()
        ||| n == 1 && command == CommandView::git_inside_repo()
        ||| n == 5 && command == CommandView::git_checkout_new(
            crate::git::savepoint_prefix() + inputs[4].id,
        )
        ||| command == autosave()
    }
}

/// The loop runs nothing but the tests it was given and the git commands of a
/// session. A dry run neither switches branches nor commits. The statefile is
/// never removed, so that the session can be finalized.
pub proof fn start_runs_only_its_commands(args: StartArgsView, inputs: Seq<Input>, n: nat)
    requires
        history::is_history(StartView::begin(args), inputs),
        n <= inputs.len(),
    ensures
        match history::request_at(StartView::begin(args), inputs, n) {
            Some(RequestView::Run(command)) => may_run(args, inputs, n, command),
            Some(RequestView::Remove(file)) => file == Marker::Errfile,
            Some(RequestView::Write(Marker::Errfile, text)) => text == ""@,
            _ => true,
        },
{
    let first = StartView::begin(args);
    lemma_start_turn(args, inputs, n);
    lemma_start_place(args, inputs, n);
    match history::turn_at(first, inputs, n).next {
        NextView::Do(_, StartView::SettingUp { setup: SetupView::Branching { .. }, .. }) => {
            let m = (n - 1) as nat;
            lemma_start_turn(args, inputs, m);
            assert(history::turn_at(first, inputs, m).next is Do);
            let state = history::turn_at(first, inputs, m).next->Do_1;
            assert(history::turn_at(first, inputs, n) == state.step(inputs[m as int]));
        },
        _ => {},
    }
}

/// A dry run asks git one thing, which branch is checked out, and does so before
/// all else. From then on it runs the tests alone.
pub proof fn dry_start_runs_only_the_tests(
    args: StartArgsView,
    inputs: Seq<Input>,
    n: nat,
    command: CommandView,
)
    requires
        history::is_history(StartView::begin(args), inputs),
        args.dryrun,
        n <= inputs.len(),
        history::request_at(StartView::begin(args), inputs, n) == Some(RequestView::Run(command)),
    ensures
        n == 0 ==> command == CommandView::git_current_branch(),
        n > 0 ==> args.command.len() > 0 && command == tests_of(args),
{
    lemma_start_turn(args, inputs, n);
    lemma_start_place(args, inputs, n);
}

/// Reply `k` shows that there is a statefile: it was found, or written.
pub open spec fn is_statefile_there(args: StartArgsView, inputs: Seq<Input>, k: int) -> bool {
    &&& 0 <= k < inputs.len()
    &&& match history::request_at(StartView::begin(args), inputs, k as nat) {
        Some(RequestView::Exists(Marker::Statefile)) => inputs[k].reply == ReplyView::Exists(
            Ok(true),
        ),
        Some(RequestView::Write(Marker::Statefile, _)) => !inputs[k].reply.is_failure(),
        _ => false,
    }
}

/// One of the first `n` replies shows that there is a statefile.
pub open spec fn statefile_shown(args: StartArgsView, inputs: Seq<Input>, n: nat) -> bool {
    exists|k: int| 0 <= k < n && #[trigger] is_statefile_there(args, inputs, k)
}

proof fn lemma_statefile_shown(args: StartArgsView, inputs: Seq<Input>, n: nat)
    requires
        history::is_history(StartView::begin(args), inputs),
        n <= inputs.len(),
    ensures
        match history::turn_at(StartView::begin(args), inputs, n).next {
            NextView::Do(_, StartView::CheckingGit { .. }) => true,
            NextView::Do(_, StartView::CheckingRepo { .. }) => true,
            NextView::Do(_, StartView::SettingUp { setup, .. }) => setup is Branching
                ==> statefile_shown(args, inputs, n),
            NextView::Do(..) => statefile_shown(args, inputs, n),
            NextView::Return(Ok(())) => statefile_shown(args, inputs, n),
            NextView::Return(Err(_)) => true,
        },
    decreases n,
{
    let first = StartView::begin(args);
    if n > 0 {
        let m = (n - 1) as nat;
        lemma_statefile_shown(args, inputs, m);
        lemma_start_turn(args, inputs, m);
        assert(history::turn_at(first, inputs, m).next is Do);
        let state = history::turn_at(first, inputs, m).next->Do_1;
        assert(history::turn_at(first, inputs, n) == state.step(inputs[m as int]));
        assert(history::request_at(first, inputs, m) is Some);
        if statefile_shown(args, inputs, m) {
            let k = choose|k: int| 0 <= k < m && #[trigger] is_statefile_there(args, inputs, k);
            assert(statefile_shown(args, inputs, n));
        }
        if is_statefile_there(args, inputs, m as int) {
            assert(statefile_shown(args, inputs, n));
        }
    }
}

/// The tests run, and the loop ends with success, only where there is a
/// statefile: one was found, or was written, so that the session can be
/// finalized.
pub proof fn started_session_has_a_statefile(args: StartArgsView, inputs: Seq<Input>, n: nat)
    requires
        history::is_history(StartView::begin(args), inputs),
        n <= inputs.len(),
        match history::turn_at(StartView::begin(args), inputs, n).next {
            NextView::Do(_, state) => state is Testing,
            NextView::Return(result) => result is Ok,
        },
    ensures
        statefile_shown(args, inputs, n),
{
    lemma_statefile_shown(args, inputs, n);
}

/// The loop ends with success only when it is told to stop, and says so.
pub proof fn start_stops_when_told(args: StartArgsView, inputs: Seq<Input>)
    requires
        history::is_history(StartView::begin(args), inputs),
        history::succeeds(StartView::begin(args), inputs),
    ensures
        inputs.len() > 0,
        inputs.last().reply == ReplyView::Running(false),
        history::turn_at(StartView::begin(args), inputs, inputs.len()).output == seq![
            OutputView::stopped(),
        ],
{
    lemma_start_turn(args, inputs, inputs.len());
}

/// Once the running flag is cleared, and stays so, the loop ends with success:
/// it looks at the flag once more at most, and runs nothing.
pub proof fn interrupt_ends_the_loop(args: StartArgsView, inputs: Seq<Input>, n: nat)
    requires
        history::is_history(StartView::begin(args), inputs),
        n < inputs.len(),
        inputs[n as int].reply == ReplyView::Running(false),
        n + 1 < inputs.len() && history::request_at(StartView::begin(args), inputs, n + 1) == Some(
            RequestView::Running,
        ) ==> inputs[(n + 1) as int].reply == ReplyView::Running(false),
    ensures
        inputs.len() <= n + 2,
        history::succeeds(StartView::begin(args), inputs) || (inputs.len() == n + 1
            && history::request_at(StartView::begin(args), inputs, n + 1) == Some(
            RequestView::Running,
        )),
{
    let first = StartView::begin(args);
    lemma_start_turn(args, inputs, n);
    assert(history::turn_at(first, inputs, n).next is Do);
    let state = history::turn_at(first, inputs, n).next->Do_1;
    assert(history::turn_at(first, inputs, n + 1) == state.step(inputs[n as int]));
    if n + 1 < inputs.len() {
        assert(history::turn_at(first, inputs, n + 1).next is Do);
        let next = history::turn_at(first, inputs, n + 1).next->Do_1;
        assert(history::turn_at(first, inputs, n + 2) == next.step(inputs[(n + 1) as int]));
        if n + 2 < inputs.len() {
            assert(history::turn_at(first, inputs, n + 2).next is Do);
        }
    }
}

/// Except in a dry run, the loop starts by making sure that git can be run and
/// that this is a repository. If either is not so it ends there, with the error
/// that tells of it.
pub proof fn start_looks_for_git_first(args: StartArgsView, inputs: Seq<Input>)
    requires
        history::is_history(StartView::begin(args), inputs),
        !args.dryrun,
    ensures
        history::request_at(StartView::begin(args), inputs, 0) == Some(
            RequestView::Run(CommandView::git_version()),
        ),
        inputs.len() > 0 ==> match crate::git::availability(inputs[0].reply) {
            Ok(()) => history::request_at(StartView::begin(args), inputs, 1) == Some(
                RequestView::Run(CommandView::git_inside_repo()),
            ),
            Err(error) => inputs.len() == 1 && history::fails_with(
                StartView::begin(args),
                inputs,
                error,
            ),
        },
        inputs.len() > 1 ==> match crate::git::repo_presence(inputs[1].reply) {
            Ok(()) => true,
            Err(error) => inputs.len() == 2 && history::fails_with(
                StartView::begin(args),
                inputs,
                error,
            ),
        },
{
    let first = StartView::begin(args);
    reveal_with_fuel(history::turn_at, 3);
    if inputs.len() > 0 {
        assert(history::turn_at(first, inputs, 0).next is Do);
    }
    if inputs.len() > 1 {
        assert(history::turn_at(first, inputs, 1).next is Do);
    }
    if inputs.len() > 2 {
        assert(history::turn_at(first, inputs, 2).next is Do);
    }
}

/// Without a command to run there is no loop: the running flag is never looked
/// at, no changes are collected, and the end is never a success.
pub proof fn start_needs_a_command(args: StartArgsView, inputs: Seq<Input>, n: nat)
    requires
        history::is_history(StartView::begin(args), inputs),
        args.command.len() == 0,
        n <= inputs.len(),
    ensures
        !history::succeeds(StartView::begin(args), inputs),
        match history::request_at(StartView::begin(args), inputs, n) {
            Some(RequestView::Running) => false,
            Some(RequestView::HandleInterrupt) => false,
            Some(RequestView::Watch(_)) => false,
            Some(RequestView::NextEvent(_)) => false,
            _ => true,
        },
{
    lemma_start_turn(args, inputs, n);
    lemma_start_turn(args, inputs, inputs.len());
}

/// The changes are committed only after the tests failed, in this session or as
/// the error file told at its start, and then passed.
pub proof fn autosaves_where_tests_pass_again(args: StartArgsView, inputs: Seq<Input>, n: nat)
    requires
        history::is_history(StartView::begin(args), inputs),
        n <= inputs.len(),
        history::turn_at(StartView::begin(args), inputs, n).next matches NextView::Do(
            _,
            StartView::Testing { test: TestView::Committing { .. }, .. },
        ),
    ensures
        history::request_at(StartView::begin(args), inputs, n) == Some(
            RequestView::Run(autosave()),
        ),
        0 < n,
        history::request_at(StartView::begin(args), inputs, (n - 1) as nat) == Some(
            RequestView::Run(tests_of(args)),
        ),
        !inputs[n - 1].reply.is_failure(),
        match history::turn_at(StartView::begin(args), inputs, (n - 1) as nat).next {
            NextView::Do(_, StartView::Testing { test, .. }) => point_of(test).state
                == State::Failing,
            _ => false,
        },
        !args.dryrun,
{
    let first = StartView::begin(args);
    lemma_start_turn(args, inputs, n);
    let m = (n - 1) as nat;
    lemma_start_turn(args, inputs, m);
    assert(history::turn_at(first, inputs, m).next is Do);
    let state = history::turn_at(first, inputs, m).next->Do_1;
    assert(history::turn_at(first, inputs, n) == state.step(inputs[m as int]));
}

/// What is recorded in the statefile is the branch that was checked out just
/// before, and it is no savepoint branch.
pub proof fn start_records_where_it_was(
    args: StartArgsView,
    inputs: Seq<Input>,
    n: nat,
    recorded: Seq<char>,
)
    requires
        history::is_history(StartView::begin(args), inputs),
        n <= inputs.len(),
        history::request_at(StartView::begin(args), inputs, n) == Some(
            RequestView::Write(Marker::Statefile, recorded),
        ),
    ensures
        n >= 2,
        history::request_at(StartView::begin(args), inputs, (n - 2) as nat) == Some(
            RequestView::Run(CommandView::git_current_branch()),
        ),
        !inputs[n - 2].reply.is_failure(),
        recorded == ending::branch_told(inputs[n - 2].reply),
        !crate::git::names_savepoint(recorded),
{
    let first = StartView::begin(args);
    lemma_start_turn(args, inputs, n);
    let m = (n - 1) as nat;
    lemma_start_turn(args, inputs, m);
    assert(history::turn_at(first, inputs, m).next is Do);
    let before = history::turn_at(first, inputs, m).next->Do_1;
    assert(history::turn_at(first, inputs, n) == before.step(inputs[m as int]));
    let k = (n - 2) as nat;
    lemma_start_turn(args, inputs, k);
    assert(history::turn_at(first, inputs, k).next is Do);
    let earlier = history::turn_at(first, inputs, k).next->Do_1;
    assert(history::turn_at(first, inputs, m) == earlier.step(inputs[k as int]));
}

/// A savepoint branch is created only once the statefile names the branch that
/// it starts from.
pub proof fn start_branches_once_it_is_recorded(args: StartArgsView, inputs: Seq<Input>, n: nat)
    requires
        history::is_history(StartView::begin(args), inputs),
        n <= inputs.len(),
        history::turn_at(StartView::begin(args), inputs, n).next matches NextView::Do(
            _,
            StartView::SettingUp { setup: SetupView::Branching { .. }, .. },
        ),
    ensures
        n >= 1,
        history::request_at(StartView::begin(args), inputs, n) == Some(
            RequestView::Run(
                CommandView::git_checkout_new(
                    crate::git::savepoint_prefix() + inputs[n - 1].id,
                ),
            ),
        ),
        match history::request_at(StartView::begin(args), inputs, (n - 1) as nat) {
            Some(RequestView::Write(Marker::Statefile, _)) => !inputs[n - 1].reply.is_failure(),
            _ => false,
        },
{
    let first = StartView::begin(args);
    lemma_start_turn(args, inputs, n);
    let m = (n - 1) as nat;
    lemma_start_turn(args, inputs, m);
    assert(history::turn_at(first, inputs, m).next is Do);
    let before = history::turn_at(first, inputs, m).next->Do_1;
    assert(history::turn_at(first, inputs, n) == before.step(inputs[m as int]));
}

/// Reply `k` shows that a savepoint branch is checked out: git told so, or was
/// made to create one.
pub open spec fn is_on_savepoint_branch(args: StartArgsView, inputs: Seq<Input>, k: int) -> bool {
    &&& 0 <= k < inputs.len()
    &&& !inputs[k].reply.is_failure()
    &&& match history::request_at(StartView::begin(args), inputs, k as nat) {
        Some(RequestView::Run(command)) => {
            ||| command == CommandView::git_current_branch() && crate::git::names_savepoint(
                ending::branch_told(inputs[k].reply),
            )
            ||| exists|name: Seq<char>|
                crate::git::names_savepoint(name) && command
                    == #[trigger] CommandView::git_checkout_new(name)
        },
        _ => false,
    }
}

/// One of the first `n` replies shows that a savepoint branch is checked out.
pub open spec fn reached_savepoint_branch(args: StartArgsView, inputs: Seq<Input>, n: nat) -> bool {
    exists|k: int| 0 <= k < n && #[trigger] is_on_savepoint_branch(args, inputs, k)
}

/// What a state tells of the branch that is checked out.
spec fn branch_is_right(
    args: StartArgsView,
    inputs: Seq<Input>,
    n: nat,
    state: StartView,
) -> bool {
    match state {
        StartView::CheckingGit { .. } => true,
        StartView::CheckingRepo { .. } => true,
        StartView::SettingUp { setup, .. } => match setup {
            SetupView::AskingBranch { .. } => true,
            SetupView::LookingForStatefile { starting_branch, .. } => {
                &&& n > 0
                &&& !inputs[n - 1].reply.is_failure()
                &&& starting_branch == ending::branch_told(inputs[n - 1].reply)
                &&& history::request_at(StartView::begin(args), inputs, (n - 1) as nat) == Some(
                    RequestView::Run(CommandView::git_current_branch()),
                )
            },
            SetupView::Recording { .. } => true,
            SetupView::Branching { branch } => crate::git::names_savepoint(branch.name),
        },
        _ => args.dryrun || reached_savepoint_branch(args, inputs, n),
    }
}

proof fn lemma_branch_is_right(args: StartArgsView, inputs: Seq<Input>, n: nat)
    requires
        history::is_history(StartView::begin(args), inputs),
        n <= inputs.len(),
    ensures
        match history::turn_at(StartView::begin(args), inputs, n).next {
            NextView::Do(_, state) => branch_is_right(args, inputs, n, state),
            NextView::Return(_) => true,
        },
    decreases n,
{
    let first = StartView::begin(args);
    if n > 0 {
        let m = (n - 1) as nat;
        lemma_branch_is_right(args, inputs, m);
        lemma_start_turn(args, inputs, m);
        assert(history::turn_at(first, inputs, m).next is Do);
        let state = history::turn_at(first, inputs, m).next->Do_1;
        let input = inputs[m as int];
        assert(history::turn_at(first, inputs, n) == state.step(input));
        if reached_savepoint_branch(args, inputs, m) {
            let k = choose|k: int|
                0 <= k < m && #[trigger] is_on_savepoint_branch(args, inputs, k);
            assert(reached_savepoint_branch(args, inputs, n));
        }
        match state {
            StartView::SettingUp { setup: SetupView::LookingForStatefile { .. }, .. } => {
                if input.reply == ReplyView::Exists(Ok(true)) && crate::git::names_savepoint(
                    ending::branch_told(inputs[m - 1].reply),
                ) {
                    assert(is_on_savepoint_branch(args, inputs, m - 1));
                }
            },
            StartView::SettingUp { setup: SetupView::Recording { .. }, .. } => {
                crate::laws::beginning::new_branch_is_a_savepoint_branch(input.id);
            },
            StartView::SettingUp { setup: SetupView::Branching { branch }, .. } => {
                if !input.reply.is_failure() {
                    assert(history::request_at(first, inputs, m) == Some(
                        RequestView::Run(CommandView::git_checkout_new(branch.name)),
                    ));
                    assert(is_on_savepoint_branch(args, inputs, m as int));
                }
            },
            _ => {},
        }
    }
}

/// Except in a dry run, the tests run and the changes are committed only once a
/// savepoint branch is checked out: the work branch gets no autosaves.
pub proof fn autosaves_are_on_a_savepoint_branch(
    args: StartArgsView,
    inputs: Seq<Input>,
    n: nat,
)
    requires
        history::is_history(StartView::begin(args), inputs),
        n <= inputs.len(),
        history::turn_at(StartView::begin(args), inputs, n).next matches NextView::Do(
            _,
            StartView::Testing { .. },
        ),
        !args.dryrun,
    ensures
        reached_savepoint_branch(args, inputs, n),
{
    lemma_branch_is_right(args, inputs, n);
}

/// Finalizing merges into the branch that the session was started from: if it
/// reads what was recorded then, it switches to the branch that was checked out
/// then, and merges there the one that is checked out now.
pub proof fn finalize_returns_to_the_starting_branch(
    args: StartArgsView,
    start_inputs: Seq<Input>,
    n: nat,
    recorded: Seq<char>,
    message: Option<Seq<char>>,
    inputs: Seq<Input>,
)
    requires
        history::is_history(StartView::begin(args), start_inputs),
        n <= start_inputs.len(),
        history::request_at(StartView::begin(args), start_inputs, n) == Some(
            RequestView::Write(Marker::Statefile, recorded),
        ),
        history::is_history(FinalizeView::begin(message, false), inputs),
        inputs.len() >= 4,
        inputs[2].reply == ReplyView::Text(Ok(recorded)),
    ensures
        match history::request_at(FinalizeView::begin(message, false), inputs, 4) {
            Some(request) => request == RequestView::Run(
                CommandView::git_checkout(ending::branch_told(start_inputs[n - 2].reply)),
            ),
            None => inputs.len() == 4 && inputs[3].reply.is_failure(),
        },
        inputs.len() >= 5 ==> match history::request_at(
            FinalizeView::begin(message, false),
            inputs,
            5,
        ) {
            Some(request) => request == RequestView::Run(
                CommandView::git_merge_squash(ending::branch_told(inputs[3].reply)),
            ),
            None => inputs.len() == 5 && inputs[4].reply.is_failure(),
        },
{
    start_records_where_it_was(args, start_inputs, n, recorded);
    match start_inputs[n - 2].reply {
        ReplyView::Ran(Ok(stdout)) => {
            crate::laws::beginning::statefile_round_trip(stdout);
        },
        _ => {},
    }
    let first = FinalizeView::begin(message, false);
    ending::finalize_follows_its_plan(message, inputs);
    match history::turn_at(first, inputs, inputs.len()).next {
        NextView::Return(Err(error)) => {
            assert(history::fails_with(first, inputs, error));
        },
        _ => {},
    }
    assert(history::request_at(first, inputs, 4) is None ==> inputs.len() == 4);
    assert(inputs.len() >= 5 && history::request_at(first, inputs, 5) is None ==> inputs.len()
        == 5);
}

} // verus!
