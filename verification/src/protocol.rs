//! The conversation between the session logic and its surroundings.
//!
//! The logic never touches the outside world. It takes a turn: it says what to
//! show, and then either asks for one thing to be done, together with the state
//! in which it waits for the answer, or returns. Whoever runs it shows the
//! output, does what is asked and resumes the state with the reply.

use vstd::prelude::*;

verus! {

/// The name of the file that is there while the last test run failed.
pub const ERRFILE: &'static str = ".checkpoint.error";

/// The name of the file that holds the branch a session was started from.
pub const STATEFILE: &'static str = ".checkpoint.start";

/// One of the two files that outlive a run, in the current directory.
#[derive(Clone, Copy, Debug, PartialEq, Eq, Structural)]
pub enum Marker {
    Errfile,
    Statefile,
}

impl Marker {
    /// The file's name.
    pub open spec fn file_name(self) -> Seq<char> {
        match self {
            Marker::Errfile => ERRFILE@,
            Marker::Statefile => STATEFILE@,
        }
    }

    /// The file's name.
    pub fn path(self) -> (name: &'static str)
        ensures
            name@ == self.file_name(),
            self is Errfile ==> name@ == ".checkpoint.error"@,
            self is Statefile ==> name@ == ".checkpoint.start"@,
    {
        match self {
            Marker::Errfile => ERRFILE,
            Marker::Statefile => STATEFILE,
        }
    }
}

/// The views of a sequence of strings.
pub open spec fn strings(s: Seq<String>) -> Seq<Seq<char>> {
    s.map_values(|t: String| t@)
}

/// A program to run, with its arguments.
#[derive(Debug, PartialEq, Eq)]
pub struct CommandLine {
    pub program: String,
    pub args: Vec<String>,
    /// Collect what the program prints in place of showing it.
    pub capture: bool,
    /// Collect the error output together with the ordinary output.
    pub combine_output: bool,
    /// Show the command line before running it.
    pub log_command: bool,
}

/// The view of a [`CommandLine`].
pub struct CommandView {
    pub program: Seq<char>,
    pub args: Seq<Seq<char>>,
    pub capture: bool,
    pub combine_output: bool,
    pub log_command: bool,
}

impl View for CommandLine {
    type V = CommandView;

    open spec fn view(&self) -> CommandView {
        CommandView {
            program: self.program@,
            args: strings(self.args@),
            capture: self.capture,
            combine_output: self.combine_output,
            log_command: self.log_command,
        }
    }
}

/// What kept an operation of the system from being carried out.
#[derive(Clone, Copy, Debug, PartialEq, Eq, Structural)]
pub enum IoKind {
    NotFound,
    Other,
}

/// How a request failed.
#[derive(Clone, Copy, Debug, PartialEq, Eq, Structural)]
pub enum FailureKind {
    /// A program could not be run.
    Run(IoKind),
    /// A program ran and did not report success.
    Exit,
    /// Something else than a program failed.
    Other,
}

/// A request that failed, with the text that describes the failure.
#[derive(Debug, PartialEq, Eq)]
pub struct Failure {
    pub kind: FailureKind,
    pub text: String,
}

/// The view of a [`Failure`].
pub struct FailureView {
    pub kind: FailureKind,
    pub text: Seq<char>,
}

impl View for Failure {
    type V = FailureView;

    open spec fn view(&self) -> FailureView {
        FailureView { kind: self.kind, text: self.text@ }
    }
}

/// What the logic asks for.
#[derive(Debug, PartialEq, Eq)]
pub enum Request {
    /// Run a program to its end; success is an exit status of success.
    Run(CommandLine),
    /// Find out whether a file is there.
    Exists(Marker),
    /// Read a file as text.
    Read(Marker),
    /// Write a file, in place of what it held.
    Write(Marker, String),
    /// Remove a file.
    Remove(Marker),
    /// From now on, let an interrupt of the user clear the running flag.
    HandleInterrupt,
    /// From now on, collect the changes under a directory, recursively.
    Watch(String),
    /// Read the running flag.
    Running,
    /// Take the next collected change, waiting at most this many milliseconds.
    NextEvent(u64),
}

/// The view of a [`Request`].
pub enum RequestView {
    Run(CommandView),
    Exists(Marker),
    Read(Marker),
    Write(Marker, Seq<char>),
    Remove(Marker),
    HandleInterrupt,
    Watch(Seq<char>),
    Running,
    NextEvent(u64),
}

impl View for Request {
    type V = RequestView;

    open spec fn view(&self) -> RequestView {
        match self {
            Request::Run(command) => RequestView::Run(command@),
            Request::Exists(file) => RequestView::Exists(*file),
            Request::Read(file) => RequestView::Read(*file),
            Request::Write(file, text) => RequestView::Write(*file, text@),
            Request::Remove(file) => RequestView::Remove(*file),
            Request::HandleInterrupt => RequestView::HandleInterrupt,
            Request::Watch(path) => RequestView::Watch(path@),
            Request::Running => RequestView::Running,
            Request::NextEvent(millis) => RequestView::NextEvent(*millis),
        }
    }
}

/// What kind of change a watcher saw.
#[derive(Clone, Copy, Debug, PartialEq, Eq, Structural)]
pub enum EventKind {
    Any,
    Access,
    Create,
    Modify,
    Remove,
    Other,
}

/// A path that changed, as far as the logic reads it: the bytes of its final
/// component, if it has one.
#[derive(Debug, PartialEq, Eq)]
pub struct WatchedPath {
    pub file_name: Option<Vec<u8>>,
}

/// The view of a [`WatchedPath`].
pub struct WatchedPathView {
    pub file_name: Option<Seq<u8>>,
}

impl View for WatchedPath {
    type V = WatchedPathView;

    open spec fn view(&self) -> WatchedPathView {
        WatchedPathView {
            file_name: match self.file_name {
                Some(name) => Some(name@),
                None => None,
            },
        }
    }
}

/// What waiting for a change came to.
#[derive(Debug, PartialEq, Eq)]
pub enum Received {
    /// No change came in time.
    Nothing,
    /// The watcher reported a fault.
    Fault,
    /// A change, with the paths it concerns.
    Event(EventKind, Vec<WatchedPath>),
}

/// The view of a [`Received`].
pub enum ReceivedView {
    Nothing,
    Fault,
    Event(EventKind, Seq<WatchedPathView>),
}

impl View for Received {
    type V = ReceivedView;

    open spec fn view(&self) -> ReceivedView {
        match self {
            Received::Nothing => ReceivedView::Nothing,
            Received::Fault => ReceivedView::Fault,
            Received::Event(kind, paths) => ReceivedView::Event(
                *kind,
                paths@.map_values(|p: WatchedPath| p@),
            ),
        }
    }
}

/// The answer to a [`Request`].
#[derive(Debug, PartialEq, Eq)]
pub enum Reply {
    /// To `Run`: the collected output.
    Ran(Result<Vec<u8>, Failure>),
    /// To `Exists`.
    Exists(Result<bool, Failure>),
    /// To `Read`.
    Text(Result<String, Failure>),
    /// To `Write`, `Remove`, `HandleInterrupt` and `Watch`.
    Done(Result<(), Failure>),
    /// To `Running`.
    Running(bool),
    /// To `NextEvent`.
    Received(Received),
}

/// The view of a [`Reply`].
pub enum ReplyView {
    Ran(Result<Seq<u8>, FailureView>),
    Exists(Result<bool, FailureView>),
    Text(Result<Seq<char>, FailureView>),
    Done(Result<(), FailureView>),
    Running(bool),
    Received(ReceivedView),
}

impl View for Reply {
    type V = ReplyView;

    open spec fn view(&self) -> ReplyView {
        match self {
            Reply::Ran(Ok(stdout)) => ReplyView::Ran(Ok(stdout@)),
            Reply::Ran(Err(failure)) => ReplyView::Ran(Err(failure@)),
            Reply::Exists(Ok(there)) => ReplyView::Exists(Ok(*there)),
            Reply::Exists(Err(failure)) => ReplyView::Exists(Err(failure@)),
            Reply::Text(Ok(text)) => ReplyView::Text(Ok(text@)),
            Reply::Text(Err(failure)) => ReplyView::Text(Err(failure@)),
            Reply::Done(Ok(())) => ReplyView::Done(Ok(())),
            Reply::Done(Err(failure)) => ReplyView::Done(Err(failure@)),
            Reply::Running(running) => ReplyView::Running(*running),
            Reply::Received(received) => ReplyView::Received(received@),
        }
    }
}

/// The kinds of answers.
pub enum ReplyKind {
    Ran,
    Exists,
    Text,
    Done,
    Running,
    Received,
}

impl RequestView {
    /// The kind of answer that this request gets.
    pub open spec fn wants(self) -> ReplyKind {
        match self {
            RequestView::Run(_) => ReplyKind::Ran,
            RequestView::Exists(_) => ReplyKind::Exists,
            RequestView::Read(_) => ReplyKind::Text,
            RequestView::Write(..) => ReplyKind::Done,
            RequestView::Remove(_) => ReplyKind::Done,
            RequestView::HandleInterrupt => ReplyKind::Done,
            RequestView::Watch(_) => ReplyKind::Done,
            RequestView::Running => ReplyKind::Running,
            RequestView::NextEvent(_) => ReplyKind::Received,
        }
    }

    /// This request changes neither a file nor, through git, the repository.
    pub open spec fn is_read_only(self) -> bool {
        match self {
            RequestView::Run(command) => command.is_git_query(),
            RequestView::Write(..) => false,
            RequestView::Remove(_) => false,
            _ => true,
        }
    }
}

impl CommandView {
    /// This command asks git for its version or for something about the
    /// repository.
    pub open spec fn is_git_query(self) -> bool {
        &&& self.program == "git"@
        &&& self.args.len() > 0
        &&& self.args[0] == "--version"@ || self.args[0] == "rev-parse"@
    }
}

impl ReplyView {
    /// The kind of this answer.
    pub open spec fn kind(self) -> ReplyKind {
        match self {
            ReplyView::Ran(_) => ReplyKind::Ran,
            ReplyView::Exists(_) => ReplyKind::Exists,
            ReplyView::Text(_) => ReplyKind::Text,
            ReplyView::Done(_) => ReplyKind::Done,
            ReplyView::Running(_) => ReplyKind::Running,
            ReplyView::Received(_) => ReplyKind::Received,
        }
    }

    /// The request was not carried out.
    pub open spec fn is_failure(self) -> bool {
        match self {
            ReplyView::Ran(result) => result is Err,
            ReplyView::Exists(result) => result is Err,
            ReplyView::Text(result) => result is Err,
            ReplyView::Done(result) => result is Err,
            _ => false,
        }
    }
}

} // verus!
