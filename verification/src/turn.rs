//! Turns: what the logic shows, and what it asks for or returns.

use vstd::prelude::*;

use crate::console::{Message, MessageView, Tint};
use crate::protocol::{Request, RequestView};

verus! {

/// An error as the user is told about it.
#[derive(Debug, PartialEq, Eq)]
pub struct Error {
    pub message: String,
    /// What the user may do about it.
    pub suggestion: Option<String>,
}

/// The view of an [`Error`].
pub struct ErrorView {
    pub message: Seq<char>,
    pub suggestion: Option<Seq<char>>,
}

impl View for Error {
    type V = ErrorView;

    open spec fn view(&self) -> ErrorView {
        ErrorView {
            message: self.message@,
            suggestion: match self.suggestion {
                Some(suggestion) => Some(suggestion@),
                None => None,
            },
        }
    }
}

/// Something to show.
#[derive(Debug, PartialEq, Eq)]
pub enum Output {
    /// A line of the log.
    Log(Message),
    /// A line of text.
    Line(String),
    /// Text as it is, with no line break added.
    Raw(String),
    /// Start a spinner next to a text.
    SpinnerStart(String),
    /// Stop the spinner.
    SpinnerStop,
}

/// The view of an [`Output`].
pub enum OutputView {
    Log(MessageView),
    Line(Seq<char>),
    Raw(Seq<char>),
    SpinnerStart(Seq<char>),
    SpinnerStop,
}

impl View for Output {
    type V = OutputView;

    open spec fn view(&self) -> OutputView {
        match self {
            Output::Log(message) => OutputView::Log(message@),
            Output::Line(text) => OutputView::Line(text@),
            Output::Raw(text) => OutputView::Raw(text@),
            Output::SpinnerStart(text) => OutputView::SpinnerStart(text@),
            Output::SpinnerStop => OutputView::SpinnerStop,
        }
    }
}

/// The views of what is shown, in order.
pub open spec fn outputs(s: Seq<Output>) -> Seq<OutputView> {
    s.map_values(|o: Output| o@)
}

/// How a turn ends.
#[derive(Debug, PartialEq, Eq)]
pub enum Next<S, R> {
    /// Do what is requested, and resume the state with the reply.
    Do(Request, S),
    /// The work is over, with this result.
    Return(Result<R, Error>),
}

/// The view of a [`Next`].
pub enum NextView<S, R> {
    Do(RequestView, S),
    Return(Result<R, ErrorView>),
}

impl<S: View, R: View> View for Next<S, R> {
    type V = NextView<S::V, R::V>;

    open spec fn view(&self) -> NextView<S::V, R::V> {
        match self {
            Next::Do(request, state) => NextView::Do(request@, state@),
            Next::Return(Ok(value)) => NextView::Return(Ok(value@)),
            Next::Return(Err(error)) => NextView::Return(Err(error@)),
        }
    }
}

/// One turn of the logic.
#[derive(Debug, PartialEq, Eq)]
pub struct Turn<S, R> {
    /// What to show first.
    pub output: Vec<Output>,
    pub next: Next<S, R>,
}

/// The view of a [`Turn`].
pub struct TurnView<S, R> {
    pub output: Seq<OutputView>,
    pub next: NextView<S, R>,
}

impl<S: View, R: View> View for Turn<S, R> {
    type V = TurnView<S::V, R::V>;

    open spec fn view(&self) -> TurnView<S::V, R::V> {
        TurnView { output: outputs(self.output@), next: self.next@ }
    }
}

impl<S, R> TurnView<S, R> {
    /// The turn that shows something and then asks for something.
    pub open spec fn asking(output: Seq<OutputView>, request: RequestView, state: S) -> Self {
        TurnView { output, next: NextView::Do(request, state) }
    }

    /// The turn that shows something and then returns.
    pub open spec fn returning(output: Seq<OutputView>, result: Result<R, ErrorView>) -> Self {
        TurnView { output, next: NextView::Return(result) }
    }

    /// The turn that shows something before all else.
    pub open spec fn after_showing(self, output: Seq<OutputView>) -> Self {
        TurnView { output: output + self.output, next: self.next }
    }
}

impl ErrorView {
    /// An error that says no more than what went wrong.
    pub open spec fn plain(message: Seq<char>) -> Self {
        ErrorView { message, suggestion: None }
    }

    /// An error with a suggestion.
    pub open spec fn with(message: Seq<char>, suggestion: Seq<char>) -> Self {
        ErrorView { message, suggestion: Some(suggestion) }
    }
}

/// The view of a result.
pub open spec fn result_view<T: View>(result: Result<T, Error>) -> Result<T::V, ErrorView> {
    match result {
        Ok(value) => Ok(value@),
        Err(error) => Err(error@),
    }
}

impl OutputView {
    /// A line of the log.
    pub open spec fn log(tint: Tint, text: Seq<char>) -> Self {
        OutputView::Log(MessageView { text, tint })
    }
}

/// An error that says no more than what went wrong.
pub(crate) fn make_plain_error(message: String) -> (error: Error)
    ensures
        error@ == ErrorView::plain(message@),
{
    Error { message, suggestion: None }
}

/// An error with a suggestion.
pub(crate) fn make_error_with(message: String, suggestion: &str) -> (error: Error)
    ensures
        error@ == ErrorView::with(message@, suggestion@),
{
    Error { message, suggestion: Some(suggestion.to_owned()) }
}

/// A line of the log.
pub(crate) fn make_log(tint: Tint, text: String) -> (output: Output)
    ensures
        output@ == OutputView::log(tint, text@),
{
    Output::Log(Message { text, tint })
}

/// Nothing to show.
pub(crate) fn show_nothing() -> (v: Vec<Output>)
    ensures
        outputs(v@) == Seq::<OutputView>::empty(),
{
    let v = Vec::new();
    assert(outputs(v@) =~= Seq::<OutputView>::empty());
    v
}

/// One thing to show.
pub(crate) fn show(output: Output) -> (v: Vec<Output>)
    ensures
        outputs(v@) == seq![output@],
{
    show_also(show_nothing(), output)
}

/// One more thing to show.
pub(crate) fn show_also(shown: Vec<Output>, output: Output) -> (v: Vec<Output>)
    ensures
        outputs(v@) == outputs(shown@).push(output@),
{
    let mut v = shown;
    v.push(output);
    assert(outputs(v@) =~= outputs(shown@).push(output@));
    v
}

/// More to show.
pub(crate) fn show_then(first: Vec<Output>, second: Vec<Output>) -> (v: Vec<Output>)
    ensures
        outputs(v@) == outputs(first@) + outputs(second@),
{
    let mut v = first;
    let mut rest = second;
    v.append(&mut rest);
    assert(outputs(v@) =~= outputs(first@) + outputs(second@));
    v
}

/// The turn that shows something before all else.
pub(crate) fn show_before<S: View, R: View>(output: Vec<Output>, turn: Turn<S, R>) -> (r: Turn<
    S,
    R,
>)
    ensures
        r@ == turn@.after_showing(outputs(output@)),
{
    Turn { output: show_then(output, turn.output), next: turn.next }
}

/// The turn that shows something and then asks for something.
pub(crate) fn ask<S: View, R: View>(output: Vec<Output>, request: Request, state: S) -> (turn: Turn<
    S,
    R,
>)
    ensures
        turn@ == TurnView::<S::V, R::V>::asking(outputs(output@), request@, state@),
{
    Turn { output, next: Next::Do(request, state) }
}

/// The turn that shows something and then returns a value.
pub(crate) fn finish<S: View, R: View>(output: Vec<Output>, value: R) -> (turn: Turn<S, R>)
    ensures
        turn@ == TurnView::<S::V, R::V>::returning(outputs(output@), Ok(value@)),
{
    Turn { output, next: Next::Return(Ok(value)) }
}

/// The turn that shows something and then returns an error.
pub(crate) fn fail_with<S: View, R: View>(output: Vec<Output>, error: Error) -> (turn: Turn<S, R>)
    ensures
        turn@ == TurnView::<S::V, R::V>::returning(outputs(output@), Err(error@)),
{
    Turn { output, next: Next::Return(Err(error)) }
}

} // verus!
