//! Laws of what the error file keeps from one session to the next.

use vstd::prelude::*;

use crate::laws::history;
use crate::laws::history::{Input, Machine};
use crate::laws::looping;
use crate::protocol::{Marker, ReplyKind, ReplyView, RequestView};
use crate::savepoint::{SavePointView, State, TestView};
use crate::start::{StartArgsView, StartView};
use crate::turn::{NextView, TurnView};

verus! {

/// Whether the error file is there after a request was answered, where `there`
/// says whether it was there before.
pub open spec fn errfile_after(there: bool, request: RequestView, reply: ReplyView) -> bool {
    if reply.is_failure() {
        there
    } else {
        match request {
            RequestView::Write(Marker::Errfile, _) => true,
            RequestView::Remove(Marker::Errfile) => false,
            _ => there,
        }
    }
}

/// The reply is true of the error file, and says that it could be written if
/// that was asked for. A file that is not there cannot be removed.
pub open spec fn is_reliable(there: bool, request: RequestView, reply: ReplyView) -> bool {
    match request {
        RequestView::Exists(Marker::Errfile) => reply == ReplyView::Exists(Ok(there)),
        RequestView::Write(Marker::Errfile, _) => !reply.is_failure(),
        RequestView::Remove(Marker::Errfile) => !there ==> reply.is_failure(),
        _ => true,
    }
}

/// What the statefile holds after a request was answered, if it is there, where
/// `text` is what it held before.
pub open spec fn statefile_after(
    text: Option<Seq<char>>,
    request: RequestView,
    reply: ReplyView,
) -> Option<Seq<char>> {
    if reply.is_failure() {
        text
    } else {
        match request {
            RequestView::Write(Marker::Statefile, written) => Some(written),
            RequestView::Remove(Marker::Statefile) => None,
            _ => text,
        }
    }
}

/// Whether the error file is there after the first `n` replies, if nobody else
/// makes or removes it, and `there` says whether it was there at first.
pub open spec fn errfile_at<M: Machine>(
    there: bool,
    first: TurnView<M, M::Out>,
    inputs: Seq<Input>,
    n: nat,
) -> bool
    decreases n,
{
    if n == 0 {
        there
    } else {
        let before = errfile_at(there, first, inputs, (n - 1) as nat);
        match history::request_at(first, inputs, (n - 1) as nat) {
            Some(request) => errfile_after(before, request, inputs[n - 1].reply),
            None => before,
        }
    }
}

/// All replies about the error file can be relied on.
pub open spec fn errfile_is_reliable<M: Machine>(
    there: bool,
    first: TurnView<M, M::Out>,
    inputs: Seq<Input>,
) -> bool {
    forall|n: nat|
        n < inputs.len() ==> match #[trigger] history::request_at(first, inputs, n) {
            Some(request) => is_reliable(
                errfile_at(there, first, inputs, n),
                request,
                inputs[n as int].reply,
            ),
            None => true,
        }
}

/// The machine of the loop, where it is between two test runs or the tests run.
pub open spec fn settled_point(state: StartView) -> Option<SavePointView> {
    match state {
        StartView::AtHead { point, .. } => Some(point),
        StartView::Testing { test: TestView::Running { point, .. }, .. } => Some(point),
        StartView::Tested { point, .. } => Some(point),
        StartView::Blocking { point, .. } => Some(point),
        _ => None,
    }
}

/// The error file is there exactly while the last test run failed, and also
/// until the changes of a run that passed are committed.
pub open spec fn errfile_tells(there: bool, state: StartView) -> bool {
    match state {
        StartView::Testing { test: TestView::Committing { .. }, .. } => there,
        StartView::Testing { test: TestView::Unmarking { .. }, .. } => there,
        _ => match settled_point(state) {
            Some(point) => there == (point.state == State::Failing),
            None => true,
        },
    }
}

proof fn lemma_step_keeps_errfile(
    args: StartArgsView,
    there: bool,
    state: StartView,
    request: RequestView,
    input: Input,
)
    requires
        looping::state_fits(args, state),
        looping::asks(state, request),
        input.reply.kind() == state.awaits(),
        is_reliable(there, request, input.reply),
        errfile_tells(there, state),
    ensures
        match state.step(input).next {
            NextView::Do(_, next) => errfile_tells(
                errfile_after(there, request, input.reply),
                next,
            ),
            NextView::Return(_) => true,
        },
{
}

/// While the loop runs, the error file tells the state that it is in.
pub proof fn errfile_tells_the_state(
    args: StartArgsView,
    there: bool,
    inputs: Seq<Input>,
    n: nat,
)
    requires
        history::is_history(StartView::begin(args), inputs),
        errfile_is_reliable(there, StartView::begin(args), inputs),
        n <= inputs.len(),
    ensures
        match history::turn_at(StartView::begin(args), inputs, n).next {
            NextView::Do(_, state) => errfile_tells(
                errfile_at(there, StartView::begin(args), inputs, n),
                state,
            ),
            NextView::Return(_) => true,
        },
    decreases n,
{
    let first = StartView::begin(args);
    if n > 0 {
        let m = (n - 1) as nat;
        errfile_tells_the_state(args, there, inputs, m);
        looping::lemma_start_turn(args, inputs, m);
        match history::turn_at(first, inputs, m).next {
            NextView::Do(request, state) => {
                assert(history::request_at(first, inputs, m) == Some(request));
                lemma_step_keeps_errfile(
                    args,
                    errfile_at(there, first, inputs, m),
                    state,
                    request,
                    inputs[m as int],
                );
            },
            NextView::Return(_) => {},
        }
    }
}

/// A session that is started again goes on in the state that the last one was
/// in: the machine that it starts with is the one that was left.
pub proof fn next_session_finds_the_state(
    args: StartArgsView,
    there: bool,
    inputs: Seq<Input>,
    n: nat,
    state: StartView,
    point: SavePointView,
)
    requires
        history::is_history(StartView::begin(args), inputs),
        errfile_is_reliable(there, StartView::begin(args), inputs),
        n <= inputs.len(),
        history::turn_at(StartView::begin(args), inputs, n).next matches NextView::Do(_, s) && s
            == state,
        settled_point(state) == Some(point),
    ensures
        SavePointView::initial(
            args.command[0],
            args.command.drop_first(),
            ReplyView::Exists(Ok(errfile_at(there, StartView::begin(args), inputs, n))),
        ) == point,
{
    errfile_tells_the_state(args, there, inputs, n);
    looping::lemma_start_turn(args, inputs, n);
}

/// Where the tests pass again and the error file is gone, the run ends with an
/// error: removing a file that is not there is no success.
pub proof fn removing_a_missing_errfile_is_an_error(point: SavePointView, reply: ReplyView)
    requires
        reply.kind() == ReplyKind::Done,
        is_reliable(false, RequestView::Remove(Marker::Errfile), reply),
    ensures
        crate::files::completion(reply) is Err,
        (TestView::Unmarking { point }).after(reply).next == NextView::<
            TestView,
            SavePointView,
        >::Return(Err(crate::files::completion(reply)->Err_0)),
{
}

/// The error file can be removed once for each time that it was made: the second
/// removal is an error. The statefile stays as it is throughout.
pub proof fn errfile_is_removed_once(
    there: bool,
    text: Option<Seq<char>>,
    created: ReplyView,
    removed: ReplyView,
    again: ReplyView,
)
    requires
        created == ReplyView::Done(Ok(())),
        removed == ReplyView::Done(Ok(())),
        again.kind() == ReplyKind::Done,
        is_reliable(
            errfile_after(
                errfile_after(there, RequestView::Write(Marker::Errfile, ""@), created),
                RequestView::Remove(Marker::Errfile),
                removed,
            ),
            RequestView::Remove(Marker::Errfile),
            again,
        ),
    ensures
        crate::files::completion(created) is Ok,
        errfile_after(there, RequestView::Write(Marker::Errfile, ""@), created),
        crate::files::completion(removed) is Ok,
        !errfile_after(true, RequestView::Remove(Marker::Errfile), removed),
        crate::files::completion(again) is Err,
        !errfile_after(false, RequestView::Remove(Marker::Errfile), again),
        statefile_after(
            statefile_after(
                statefile_after(text, RequestView::Write(Marker::Errfile, ""@), created),
                RequestView::Remove(Marker::Errfile),
                removed,
            ),
            RequestView::Remove(Marker::Errfile),
            again,
        ) == text,
{
}

/// Failing twice is failing once, for the machine and for the error file. The
/// file differs only where it was missing and the second attempt to write it is
/// the first that works.
pub proof fn failing_twice_is_failing_once(
    point: SavePointView,
    there: bool,
    one: ReplyView,
    other: ReplyView,
)
    requires
        there || !one.is_failure() || other.is_failure(),
    ensures
        (TestView::Marking { point: point.in_state(State::Failing) }).after(other) == (
        TestView::Marking { point }).after(one),
        errfile_after(
            errfile_after(there, RequestView::Write(Marker::Errfile, ""@), one),
            RequestView::Write(Marker::Errfile, ""@),
            other,
        ) == errfile_after(there, RequestView::Write(Marker::Errfile, ""@), one),
{
}

} // verus!
