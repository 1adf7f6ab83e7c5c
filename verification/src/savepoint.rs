//! The machine that follows the outcomes of test runs.

use vstd::prelude::*;
use vstd::string::*;

use crate::console::Tint;
use crate::files::{completed, create_errfile, rm_errfile};
use crate::git::{commit, CommitState};
use crate::protocol::{
    CommandLine, CommandView, Marker, Reply, ReplyKind, ReplyView, Request, RequestView,
};
use crate::turn::{
    ask, fail_with, finish, make_log, show, show_also, show_before, show_nothing, Next, NextView,
    Output, OutputView, Turn, TurnView,
};

verus! {

/// Whether the last test run passed.
#[derive(Clone, Copy, Debug, PartialEq, Eq, Structural)]
pub enum State {
    Passing,
    Failing,
}

/// State diagram:
/// ```mermaid
/// flowchart LR
/// PASSING-->|fail|FAILING
/// FAILING-->|pass; git commit|PASSING
/// ```
/// Other transitions are no-ops (such as tests passing while in passing state):
/// they change neither the state nor the repository. A failure is told and
/// marked each time.
#[derive(Debug, PartialEq, Eq)]
pub struct SavePoint {
    pub program: String,
    pub args: Vec<String>,
    pub state: State,
}

/// The view of a [`SavePoint`].
pub struct SavePointView {
    pub program: Seq<char>,
    pub args: Seq<Seq<char>>,
    pub state: State,
}

impl View for SavePoint {
    type V = SavePointView;

    open spec fn view(&self) -> SavePointView {
        SavePointView {
            program: self.program@,
            args: crate::protocol::strings(self.args@),
            state: self.state,
        }
    }
}

/// A test run that is under way, with the machine it is for.
#[derive(Debug, PartialEq, Eq)]
pub enum TestState {
    /// The tests run.
    Running { point: SavePoint, dryrun: bool, quiet: bool },
    /// They failed, and the error file is written.
    Marking { point: SavePoint },
    /// They passed again, and the changes are committed.
    Committing { point: SavePoint, commit: CommitState },
    /// The changes are committed, and the error file is removed.
    Unmarking { point: SavePoint },
}

/// The view of a [`TestState`].
pub enum TestView {
    Running { point: SavePointView, dryrun: bool, quiet: bool },
    Marking { point: SavePointView },
    Committing { point: SavePointView, commit: CommitState },
    Unmarking { point: SavePointView },
}

impl View for TestState {
    type V = TestView;

    open spec fn view(&self) -> TestView {
        match self {
            TestState::Running { point, dryrun, quiet } => TestView::Running {
                point: point@,
                dryrun: *dryrun,
                quiet: *quiet,
            },
            TestState::Marking { point } => TestView::Marking { point: point@ },
            TestState::Committing { point, commit } => TestView::Committing {
                point: point@,
                commit: commit@,
            },
            TestState::Unmarking { point } => TestView::Unmarking { point: point@ },
        }
    }
}

impl CommandView {
    /// The command that runs the tests. In a quiet run its output is collected
    /// in place of being shown.
    pub open spec fn tests(program: Seq<char>, args: Seq<Seq<char>>, quiet: bool) -> Self {
        CommandView { program, args, capture: quiet, combine_output: quiet, log_command: false }
    }
}

/// What is shown once a test run is over.
pub open spec fn run_is_over(quiet: bool) -> Seq<OutputView> {
    if quiet {
        seq![OutputView::SpinnerStop, OutputView::Line("done!"@)]
    } else {
        seq![OutputView::Line("done!"@)]
    }
}

impl SavePointView {
    /// The machine at the start, from the reply to looking for the error file:
    /// failing if the file is there or nothing can be said of it.
    pub open spec fn initial(
        program: Seq<char>,
        args: Seq<Seq<char>>,
        errfile: ReplyView,
    ) -> SavePointView {
        SavePointView {
            program,
            args,
            state: if errfile == ReplyView::Exists(Ok(false)) {
                State::Passing
            } else {
                State::Failing
            },
        }
    }

    /// The same machine in another state.
    pub open spec fn in_state(self, state: State) -> SavePointView {
        SavePointView { state, ..self }
    }

    /// Starting a test run.
    pub open spec fn testing(self, program: Seq<char>, dryrun: bool, quiet: bool) -> TurnView<
        TestView,
        SavePointView,
    > {
        TurnView::asking(
            if quiet {
                seq![OutputView::SpinnerStart("Running "@ + program + "..."@)]
            } else {
                seq![]
            },
            RequestView::Run(CommandView::tests(self.program, self.args, quiet)),
            TestView::Running { point: self, dryrun, quiet },
        )
    }

    /// After a commit, or on the way through it.
    pub open spec fn committing(self, turn: TurnView<CommitState, ()>) -> TurnView<
        TestView,
        SavePointView,
    > {
        match turn.next {
            NextView::Do(request, commit) => TurnView::asking(
                turn.output,
                request,
                TestView::Committing { point: self, commit },
            ),
            NextView::Return(Ok(())) => TurnView::asking(
                turn.output,
                RequestView::Remove(Marker::Errfile),
                TestView::Unmarking { point: self },
            ),
            NextView::Return(Err(error)) => TurnView::returning(turn.output, Err(error)),
        }
    }

    /// All errors are fixed.
    pub open spec fn passing(self, dryrun: bool) -> TurnView<TestView, SavePointView> {
        self.committing(CommitState::begin("SAVEPOINT REACHED!"@, dryrun))
    }

    /// A test run failed.
    pub open spec fn failing(self) -> TurnView<TestView, SavePointView> {
        TurnView::asking(
            seq![OutputView::log(Tint::Red, "Error!"@)],
            RequestView::Write(Marker::Errfile, ""@),
            TestView::Marking { point: self },
        )
    }
}

impl TestView {
    /// The kind of reply that is waited for.
    pub open spec fn awaits(self) -> ReplyKind {
        match self {
            TestView::Running { .. } => ReplyKind::Ran,
            TestView::Marking { .. } => ReplyKind::Done,
            TestView::Committing { .. } => ReplyKind::Ran,
            TestView::Unmarking { .. } => ReplyKind::Done,
        }
    }

    /// The turn that a reply leads to.
    pub open spec fn after(self, reply: ReplyView) -> TurnView<TestView, SavePointView> {
        match self {
            TestView::Running { point, dryrun, quiet } => if reply.is_failure() {
                point.failing().after_showing(run_is_over(quiet))
            } else if point.state == State::Passing {
                TurnView::returning(run_is_over(quiet), Ok(point))
            } else {
                point.passing(dryrun).after_showing(run_is_over(quiet))
            },
            TestView::Marking { point } => TurnView::returning(
                seq![],
                Ok(point.in_state(State::Failing)),
            ),
            TestView::Committing { point, commit } => point.committing(commit.after(reply)),
            TestView::Unmarking { point } => TurnView::returning(
                seq![],
                match crate::files::completion(reply) {
                    Ok(()) => Ok(point.in_state(State::Passing)),
                    Err(error) => Err(error),
                },
            ),
        }
    }
}

/// Owned copies of some strings.
fn copies(list: &Vec<String>) -> (v: Vec<String>)
    ensures
        crate::protocol::strings(v@) == crate::protocol::strings(list@),
        v@.len() == list@.len(),
        forall|i: int| 0 <= i < v@.len() ==> #[trigger] v@[i]@ == list@[i]@,
{
    let mut v: Vec<String> = Vec::new();
    for i in 0..list.len()
        invariant
            v@.len() == i,
            forall|j: int| 0 <= j < i ==> #[trigger] v@[j]@ == list@[j]@,
    {
        v.push(list[i].clone());
    }
    assert(crate::protocol::strings(v@) =~= crate::protocol::strings(list@));
    v
}

/// The command that runs the tests.
pub fn cmdr(program: &str, args: &Vec<String>, quiet: bool) -> (command: CommandLine)
    ensures
        command@ == CommandView::tests(program@, crate::protocol::strings(args@), quiet),
        command.program@ == program@,
        command.args@.len() == args@.len(),
        forall|i: int| 0 <= i < args@.len() ==> #[trigger] command.args@[i]@ == args@[i]@,
        command.capture == quiet,
        command.combine_output == quiet,
        !command.log_command,
{
    CommandLine {
        program: program.to_owned(),
        args: copies(args),
        capture: quiet,
        combine_output: quiet,
        log_command: false,
    }
}

impl SavePoint {
    /// If error file exists, failing, if not, passing
    pub fn new(program: &str, args: &Vec<String>, errfile: &Reply) -> (point: SavePoint)
        requires
            errfile@.kind() == ReplyKind::Exists,
        ensures
            point@ == SavePointView::initial(
                program@,
                crate::protocol::strings(args@),
                errfile@,
            ),
            point.program@ == program@,
            point.args@.len() == args@.len(),
            forall|i: int| 0 <= i < args@.len() ==> #[trigger] point.args@[i]@ == args@[i]@,
            match *errfile {
                Reply::Exists(Ok(false)) => point.state == State::Passing,
                _ => point.state == State::Failing,
            },
    {
        let state = match errfile {
            Reply::Exists(Ok(false)) => State::Passing,
            _ => State::Failing,
        };
        SavePoint { program: program.to_owned(), args: copies(args), state }
    }

    /// main state dispatcher
    pub fn test(self, program: &str, dryrun: bool, quiet: bool) -> (turn: Turn<
        TestState,
        SavePoint,
    >)
        ensures
            turn@ == self@.testing(program@, dryrun, quiet),
    {
        let output = if quiet {
            show(Output::SpinnerStart("Running ".to_owned().concat(program).concat("...")))
        } else {
            show_nothing()
        };
        let command = cmdr(self.program.as_str(), &self.args, quiet);
        ask(output, Request::Run(command), TestState::Running { point: self, dryrun, quiet })
    }

    fn after_commit(self, turn: Turn<CommitState, ()>) -> (r: Turn<TestState, SavePoint>)
        ensures
            r@ == self@.committing(turn@),
    {
        match turn.next {
            Next::Do(request, commit) => ask(
                turn.output,
                request,
                TestState::Committing { point: self, commit },
            ),
            Next::Return(Ok(())) => ask(
                turn.output,
                rm_errfile(),
                TestState::Unmarking { point: self },
            ),
            Next::Return(Err(error)) => fail_with(turn.output, error),
        }
    }

    /// fixed all errors, git commit
    pub fn pass(self, dryrun: bool) -> (turn: Turn<TestState, SavePoint>)
        ensures
            turn@ == self@.passing(dryrun),
    {
        self.after_commit(commit("SAVEPOINT REACHED!", dryrun))
    }

    /// test just failed
    pub fn fail(self) -> (turn: Turn<TestState, SavePoint>)
        ensures
            turn@ == self@.failing(),
    {
        ask(
            show(make_log(Tint::Red, "Error!".to_owned())),
            create_errfile(),
            TestState::Marking { point: self },
        )
    }
}

impl TestState {
    /// Goes on with the reply that is waited for.
    pub fn resume(self, reply: Reply) -> (turn: Turn<TestState, SavePoint>)
        requires
            reply@.kind() == self@.awaits(),
        ensures
            turn@ == self@.after(reply@),
    {
        match self {
            TestState::Running { point, dryrun, quiet } => {
                let over = if quiet {
                    show_also(show(Output::SpinnerStop), Output::Line("done!".to_owned()))
                } else {
                    show(Output::Line("done!".to_owned()))
                };
                assert(crate::turn::outputs(over@) =~= run_is_over(quiet));
                match (point.state, reply) {
                    // noop
                    (State::Passing, Reply::Ran(Ok(_))) => finish(over, point),
                    // notify, git commit
                    (State::Failing, Reply::Ran(Ok(_))) => show_before(over, point.pass(dryrun)),
                    _ => show_before(over, point.fail()),
                }
            },
            TestState::Marking { point } => finish(
                show_nothing(),
                SavePoint { state: State::Failing, ..point },
            ),
            TestState::Committing { point, commit } => point.after_commit(commit.resume(reply)),
            TestState::Unmarking { point } => match completed(reply) {
                Ok(()) => finish(show_nothing(), SavePoint { state: State::Passing, ..point }),
                Err(error) => fail_with(show_nothing(), error),
            },
        }
    }
}

} // verus!
