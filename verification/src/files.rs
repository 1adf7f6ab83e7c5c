//! The two files that outlive a run.

use vstd::pervasive::unreached;
use vstd::prelude::*;

use crate::protocol::{Marker, Reply, ReplyKind, ReplyView, Request, RequestView};
use crate::text;
use crate::turn::{make_error_with, make_plain_error, Error, ErrorView};

verus! {

/// Persists the starting branch so that a later finalize merges into the
/// correct base branch.
pub fn create_statefile(starting_branch: &str) -> (request: Request)
    ensures
        request@ == RequestView::Write(Marker::Statefile, starting_branch@),
        request matches Request::Write(Marker::Statefile, text) && text@ == starting_branch@,
{
    Request::Write(Marker::Statefile, starting_branch.to_owned())
}

/// Removes the statefile.
pub fn rm_statefile() -> (request: Request)
    ensures
        request@ == RequestView::Remove(Marker::Statefile),
        request matches Request::Remove(Marker::Statefile),
{
    Request::Remove(Marker::Statefile)
}

/// Marks that the last test run failed.
pub fn create_errfile() -> (request: Request)
    ensures
        request@ == RequestView::Write(Marker::Errfile, ""@),
        request matches Request::Write(Marker::Errfile, text) && text@ == ""@,
{
    Request::Write(Marker::Errfile, "".to_owned())
}

/// Takes away the mark of a failed test run.
pub fn rm_errfile() -> (request: Request)
    ensures
        request@ == RequestView::Remove(Marker::Errfile),
        request matches Request::Remove(Marker::Errfile),
{
    Request::Remove(Marker::Errfile)
}

/// The branch in a statefile that was read.
pub open spec fn recorded_branch(reply: ReplyView) -> Result<Seq<char>, ErrorView> {
    match reply {
        ReplyView::Text(Ok(text)) => Ok(text::trimmed(text)),
        _ => Err(
            ErrorView::with(
                "Could not read statefile"@,
                "Consider running 'savepoint start' first"@,
            ),
        ),
    }
}

/// The target branch, from the reply to reading the statefile.
pub fn read_statefile(reply: Reply) -> (result: Result<String, Error>)
    requires
        reply@.kind() == ReplyKind::Text,
    ensures
        crate::turn::result_view(result) == recorded_branch(reply@),
{
    match reply {
        Reply::Text(Ok(text)) => Ok(text.as_str().trim().to_owned()),
        Reply::Text(Err(_)) => Err(
            make_error_with(
                "Could not read statefile".to_owned(),
                "Consider running 'savepoint start' first",
            ),
        ),
        _ => unreached(),
    }
}

/// Whether a file is there, or the failure of the system as it is described.
pub open spec fn presence(reply: ReplyView) -> Result<bool, ErrorView> {
    match reply {
        ReplyView::Exists(Ok(there)) => Ok(there),
        ReplyView::Exists(Err(failure)) => Err(ErrorView::plain(failure.text)),
        _ => Ok(false),
    }
}

/// Whether a file is there, or the failure of the system as it is described.
pub fn is_there(reply: Reply) -> (result: Result<bool, Error>)
    requires
        reply@.kind() == ReplyKind::Exists,
    ensures
        crate::turn::result_view(result) == presence(reply@),
{
    match reply {
        Reply::Exists(Ok(there)) => Ok(there),
        Reply::Exists(Err(failure)) => Err(make_plain_error(failure.text)),
        _ => unreached(),
    }
}

/// Success, or the failure of the system as it is described.
pub open spec fn completion(reply: ReplyView) -> Result<(), ErrorView> {
    match reply {
        ReplyView::Done(Err(failure)) => Err(ErrorView::plain(failure.text)),
        _ => Ok(()),
    }
}

/// Success, or the failure of the system as it is described.
pub fn completed(reply: Reply) -> (result: Result<(), Error>)
    requires
        reply@.kind() == ReplyKind::Done,
    ensures
        crate::turn::result_view(result) == completion(reply@),
{
    match reply {
        Reply::Done(Ok(())) => Ok(()),
        Reply::Done(Err(failure)) => Err(make_plain_error(failure.text)),
        _ => unreached(),
    }
}

} // verus!
