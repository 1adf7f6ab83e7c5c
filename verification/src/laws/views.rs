//! Laws of what the views keep: all that is shown, asked for, answered and
//! returned, field by field.

use vstd::prelude::*;

use crate::console::Message;
use crate::protocol::{
    CommandLine, Failure, Marker, Received, ReceivedView, Reply, ReplyView, Request,
    RequestView, WatchedPath,
};
use crate::savepoint::SavePoint;
use crate::session::{Commands, CommandsView};
use crate::start::StartArgs;
use crate::turn::{Error, ErrorView, Next, NextView, Output, OutputView, Turn};

verus! {

/// The view of a list of strings holds the characters of each, in order.
pub proof fn strings_are_kept(list: Seq<String>)
    ensures
        crate::protocol::strings(list).len() == list.len(),
        forall|i: int|
            0 <= i < list.len() ==> #[trigger] crate::protocol::strings(list)[i] == list[i]@,
{
}

/// The view of a command holds all of it.
pub proof fn commands_are_kept(command: CommandLine)
    ensures
        command@.program == command.program@,
        command@.args.len() == command.args@.len(),
        forall|i: int|
            0 <= i < command.args@.len() ==> #[trigger] command@.args[i] == command.args@[i]@,
        command@.capture == command.capture,
        command@.combine_output == command.combine_output,
        command@.log_command == command.log_command,
{
}

/// The view of a request is of the same kind and holds all of it.
pub proof fn requests_are_kept(request: Request)
    ensures
        match request {
            Request::Run(command) => request@ == RequestView::Run(command@),
            Request::Exists(file) => request@ == RequestView::Exists(file),
            Request::Read(file) => request@ == RequestView::Read(file),
            Request::Write(file, text) => request@ == RequestView::Write(file, text@),
            Request::Remove(file) => request@ == RequestView::Remove(file),
            Request::HandleInterrupt => request@ == RequestView::HandleInterrupt,
            Request::Watch(path) => request@ == RequestView::Watch(path@),
            Request::Running => request@ == RequestView::Running,
            Request::NextEvent(millis) => request@ == RequestView::NextEvent(millis),
        },
{
}

/// The view of a failure holds its kind and its text.
pub proof fn failures_are_kept(failure: Failure)
    ensures
        failure@.kind == failure.kind,
        failure@.text == failure.text@,
{
}

/// The view of a path holds all bytes of its file name, if it has one.
pub proof fn paths_are_kept(path: WatchedPath)
    ensures
        path.file_name matches Some(name) ==> path@.file_name == Some(name@),
        path.file_name is None ==> path@.file_name is None,
{
}

/// The view of a change holds its kind and all its paths, in order.
pub proof fn changes_are_kept(received: Received)
    ensures
        match received {
            Received::Nothing => received@ == ReceivedView::Nothing,
            Received::Fault => received@ == ReceivedView::Fault,
            Received::Event(kind, paths) => match received@ {
                ReceivedView::Event(k, seen) => k == kind && seen.len() == paths@.len() && forall|
                    i: int,
                |
                    0 <= i < paths@.len() ==> #[trigger] seen[i] == paths@[i]@,
                _ => false,
            },
        },
{
}

/// The view of a reply is of the same kind and holds all of it.
pub proof fn replies_are_kept(reply: Reply)
    ensures
        match reply {
            Reply::Ran(Ok(stdout)) => reply@ == ReplyView::Ran(Ok(stdout@)),
            Reply::Ran(Err(failure)) => reply@ == ReplyView::Ran(Err(failure@)),
            Reply::Exists(Ok(there)) => reply@ == ReplyView::Exists(Ok(there)),
            Reply::Exists(Err(failure)) => reply@ == ReplyView::Exists(Err(failure@)),
            Reply::Text(Ok(text)) => reply@ == ReplyView::Text(Ok(text@)),
            Reply::Text(Err(failure)) => reply@ == ReplyView::Text(Err(failure@)),
            Reply::Done(Ok(())) => reply@ == ReplyView::Done(Ok(())),
            Reply::Done(Err(failure)) => reply@ == ReplyView::Done(Err(failure@)),
            Reply::Running(running) => reply@ == ReplyView::Running(running),
            Reply::Received(received) => reply@ == ReplyView::Received(received@),
        },
{
}

/// Each request gets the kind of reply that tells its outcome, and a reply is a
/// failure where it holds one.
pub proof fn replies_fit_requests(request: RequestView, reply: ReplyView)
    ensures
        (request.wants() == reply.kind()) == match request {
            RequestView::Run(_) => reply is Ran,
            RequestView::Exists(_) => reply is Exists,
            RequestView::Read(_) => reply is Text,
            RequestView::Write(..) => reply is Done,
            RequestView::Remove(_) => reply is Done,
            RequestView::HandleInterrupt => reply is Done,
            RequestView::Watch(_) => reply is Done,
            RequestView::Running => reply is Running,
            RequestView::NextEvent(_) => reply is Received,
        },
        reply.is_failure() == ((reply matches ReplyView::Ran(Err(_))) || (
        reply matches ReplyView::Exists(Err(_))) || (reply matches ReplyView::Text(Err(_))) || (
        reply matches ReplyView::Done(Err(_)))),
{
}

/// The two files have the names that a user knows them by.
pub proof fn files_have_their_names(file: Marker)
    ensures
        file.file_name() == match file {
            Marker::Errfile => ".checkpoint.error"@,
            Marker::Statefile => ".checkpoint.start"@,
        },
{
}

/// The view of an error holds its message and its suggestion.
pub proof fn errors_are_kept(error: Error)
    ensures
        error@.message == error.message@,
        error.suggestion matches Some(suggestion) ==> error@.suggestion == Some(suggestion@),
        error.suggestion is None ==> error@.suggestion is None,
{
}

/// The view of something to show is of the same kind and holds all of it.
pub proof fn outputs_are_kept(output: Output)
    ensures
        match output {
            Output::Log(message) => match output@ {
                OutputView::Log(seen) => seen.text == message.text@ && seen.tint == message.tint,
                _ => false,
            },
            Output::Line(text) => output@ == OutputView::Line(text@),
            Output::Raw(text) => output@ == OutputView::Raw(text@),
            Output::SpinnerStart(text) => output@ == OutputView::SpinnerStart(text@),
            Output::SpinnerStop => output@ == OutputView::SpinnerStop,
        },
{
}

/// The view of a log text holds the text and its color.
pub proof fn messages_are_kept(message: Message)
    ensures
        message@.text == message.text@,
        message@.tint == message.tint,
{
}

/// The view of a turn holds all that is shown, in order, and what is asked for or
/// returned.
pub proof fn turns_are_kept<S: View, R: View>(turn: Turn<S, R>)
    ensures
        turn@.output.len() == turn.output@.len(),
        forall|i: int|
            0 <= i < turn.output@.len() ==> #[trigger] turn@.output[i] == turn.output@[i]@,
        match turn.next {
            Next::Do(request, state) => turn@.next == NextView::<S::V, R::V>::Do(
                request@,
                state@,
            ),
            Next::Return(Ok(value)) => turn@.next == NextView::<S::V, R::V>::Return(Ok(value@)),
            Next::Return(Err(error)) => turn@.next == NextView::<S::V, R::V>::Return(Err(error@)),
        },
{
}

/// The view of a result holds the value or the error.
pub proof fn results_are_kept<T: View>(result: Result<T, Error>)
    ensures
        match result {
            Ok(value) => crate::turn::result_view(result) == Ok::<T::V, ErrorView>(value@),
            Err(error) => crate::turn::result_view(result) == Err::<T::V, ErrorView>(error@),
        },
{
}

/// The view of a message that the user may give holds it if it is given.
pub proof fn given_texts_are_kept(text: Option<String>)
    ensures
        text matches Some(given) ==> crate::merge::text_view(text) == Some(given@),
        text is None ==> crate::merge::text_view(text) is None,
{
}

/// The view of the machine holds its program, all its arguments and its state.
pub proof fn machines_are_kept(point: SavePoint)
    ensures
        point@.program == point.program@,
        point@.args.len() == point.args@.len(),
        forall|i: int|
            0 <= i < point.args@.len() ==> #[trigger] point@.args[i] == point.args@[i]@,
        point@.state == point.state,
{
}

/// The view of what the loop is started with holds all of it.
pub proof fn arguments_are_kept(args: StartArgs)
    ensures
        args@.filetype == args.filetype@,
        args@.command.len() == args.command@.len(),
        forall|i: int|
            0 <= i < args.command@.len() ==> #[trigger] args@.command[i] == args.command@[i]@,
        args@.dryrun == args.dryrun,
        args@.clear == args.clear,
        args@.quiet == args.quiet,
{
}

/// The view of a command of the program holds all of it.
pub proof fn commands_of_the_user_are_kept(command: Commands)
    ensures
        match command {
            Commands::Start(args) => command@ == CommandsView::Start(args@),
            Commands::Finalize { message, dryrun } => match command@ {
                CommandsView::Finalize { message: m, dryrun: d } => d == dryrun && m
                    == crate::merge::text_view(message),
                _ => false,
            },
        },
{
}

} // verus!
