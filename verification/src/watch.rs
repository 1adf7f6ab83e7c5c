//! Waiting until a file of interest changes.

use vstd::pervasive::unreached;
use vstd::prelude::*;
use vstd::slice::*;
use vstd::string::*;

use crate::protocol::{
    EventKind, Received, ReceivedView, Reply, ReplyKind, ReplyView, Request, RequestView,
    WatchedPath,
};
use crate::turn::{ask, finish, show_nothing, Turn, TurnView};

verus! {

/// How long to wait for a change before looking at the running flag again, in
/// milliseconds.
pub const EVENT_TIMEOUT: u64 = 100;

/// The byte of a dot.
pub const DOT: u8 = 46;

/// Where the last dot of a name stands, or -1.
pub open spec fn last_dot(name: Seq<u8>) -> int
    decreases name.len(),
{
    if name.len() == 0 {
        -1
    } else if name.last() == DOT {
        name.len() - 1
    } else {
        last_dot(name.drop_last())
    }
}

/// The extension of a file name: what follows its last dot, unless that is the
/// only dot and the name starts with it. A name of two dots is no file's.
pub open spec fn extension_of(name: Seq<u8>) -> Option<Seq<u8>> {
    if last_dot(name) <= 0 || name == seq![DOT, DOT] {
        None
    } else {
        Some(name.skip(last_dot(name) + 1))
    }
}

/// The change that is waited for: a modification whose first path has the
/// extension.
pub open spec fn is_wanted(received: ReceivedView, extension: Seq<char>) -> bool {
    match received {
        ReceivedView::Event(EventKind::Modify, paths) => paths.len() > 0 && (
        match paths[0].file_name {
            Some(name) => extension_of(name) == Some(vstd::utf8::encode_utf8(extension)),
            None => false,
        }),
        _ => false,
    }
}

/// Waiting for a file to change.
#[derive(Debug, PartialEq, Eq)]
pub enum BlockState {
    /// Looking at the running flag.
    Checking { extension: String },
    /// Waiting for a change.
    Waiting { extension: String },
    /// Taking the changes that came along with the one that was waited for.
    Draining,
}

/// The view of a [`BlockState`].
pub enum BlockView {
    Checking { extension: Seq<char> },
    Waiting { extension: Seq<char> },
    Draining,
}

impl View for BlockState {
    type V = BlockView;

    open spec fn view(&self) -> BlockView {
        match self {
            BlockState::Checking { extension } => BlockView::Checking { extension: extension@ },
            BlockState::Waiting { extension } => BlockView::Waiting { extension: extension@ },
            BlockState::Draining => BlockView::Draining,
        }
    }
}

impl BlockView {
    /// Starting to wait, or starting over.
    pub open spec fn begin(extension: Seq<char>) -> TurnView<BlockView, ()> {
        TurnView::asking(seq![], RequestView::Running, BlockView::Checking { extension })
    }

    /// Taking the next change that came along.
    pub open spec fn draining() -> TurnView<BlockView, ()> {
        TurnView::asking(seq![], RequestView::NextEvent(EVENT_TIMEOUT), BlockView::Draining)
    }

    /// The kind of reply that is waited for.
    pub open spec fn awaits(self) -> ReplyKind {
        match self {
            BlockView::Checking { .. } => ReplyKind::Running,
            BlockView::Waiting { .. } => ReplyKind::Received,
            BlockView::Draining => ReplyKind::Received,
        }
    }

    /// The turn that a reply leads to.
    pub open spec fn after(self, reply: ReplyView) -> TurnView<BlockView, ()> {
        match self {
            BlockView::Checking { extension } => if reply == ReplyView::Running(false) {
                TurnView::returning(seq![], Ok(()))
            } else {
                TurnView::asking(
                    seq![],
                    RequestView::NextEvent(EVENT_TIMEOUT),
                    BlockView::Waiting { extension },
                )
            },
            BlockView::Waiting { extension } => if reply matches ReplyView::Received(received)
                && is_wanted(received, extension) {
                Self::draining()
            } else {
                Self::begin(extension)
            },
            BlockView::Draining => if reply == ReplyView::Received(ReceivedView::Nothing) {
                TurnView::returning(seq![], Ok(()))
            } else {
                Self::draining()
            },
        }
    }
}

proof fn lemma_last_dot(name: Seq<u8>, k: int)
    requires
        -1 <= k < name.len(),
        k >= 0 ==> name[k] == DOT,
        forall|j: int| k < j < name.len() ==> name[j] != DOT,
    ensures
        last_dot(name) == k,
    decreases name.len(),
{
    if name.len() > 0 && k < name.len() - 1 {
        lemma_last_dot(name.drop_last(), k);
    }
}

/// The two sequences hold the same bytes.
fn same_bytes(a: &[u8], b: &[u8]) -> (r: bool)
    ensures
        r == (a@ == b@),
{
    if a.len() != b.len() {
        return false;
    }
    for i in 0..a.len()
        invariant
            a@.len() == b@.len(),
            forall|j: int| 0 <= j < i ==> a@[j] == b@[j],
    {
        if a[i] != b[i] {
            return false;
        }
    }
    assert(a@ =~= b@);
    true
}

/// The extension of a file name.
pub fn extension(name: &[u8]) -> (r: Option<Vec<u8>>)
    ensures
        match r {
            Some(v) => extension_of(name@) == Some(v@),
            None => extension_of(name@) is None,
        },
{
    if name.len() == 2 && name[0] == DOT && name[1] == DOT {
        assert(name@ =~= seq![DOT, DOT]);
        return None;
    }
    let mut i: usize = name.len();
    while i > 0
        invariant
            i <= name@.len(),
            forall|j: int| i <= j < name@.len() ==> name@[j] != DOT,
            name@ != seq![DOT, DOT],
        decreases i,
    {
        if name[i - 1] == DOT {
            proof {
                lemma_last_dot(name@, i - 1);
            }
            if i == 1 {
                return None;
            }
            let rest = slice_subrange(name, i, name.len());
            assert(rest@ =~= name@.skip(i as int));
            return Some(slice_to_vec(rest));
        }
        i = i - 1;
    }
    proof {
        lemma_last_dot(name@, -1);
    }
    None
}

/// Whether a change is the one that is waited for.
pub fn is_wanted_event(received: &Received, wanted: &str) -> (r: bool)
    ensures
        r == is_wanted(received@, wanted@),
{
    match received {
        Received::Event(EventKind::Modify, paths) => {
            if paths.len() == 0 {
                return false;
            }
            let first: &WatchedPath = &paths[0];
            match &first.file_name {
                Some(name) => match extension(name.as_slice()) {
                    Some(found) => same_bytes(found.as_slice(), wanted.as_bytes()),
                    None => false,
                },
                None => false,
            }
        },
        _ => false,
    }
}

/// Waits until a file with the extension is modified, or until the session is to
/// stop. The changes that come along with that one are taken too.
pub fn blockforfile(extension: String) -> (turn: Turn<BlockState, ()>)
    ensures
        turn@ == BlockView::begin(extension@),
{
    ask(show_nothing(), Request::Running, BlockState::Checking { extension })
}

fn drain() -> (turn: Turn<BlockState, ()>)
    ensures
        turn@ == BlockView::draining(),
{
    ask(show_nothing(), Request::NextEvent(EVENT_TIMEOUT), BlockState::Draining)
}

impl BlockState {
    /// Goes on with the reply that is waited for.
    pub fn resume(self, reply: Reply) -> (turn: Turn<BlockState, ()>)
        requires
            reply@.kind() == self@.awaits(),
        ensures
            turn@ == self@.after(reply@),
    {
        match self {
            BlockState::Checking { extension } => match reply {
                // the session is to stop
                Reply::Running(false) => finish(show_nothing(), ()),
                _ => ask(
                    show_nothing(),
                    Request::NextEvent(EVENT_TIMEOUT),
                    BlockState::Waiting { extension },
                ),
            },
            BlockState::Waiting { extension } => match reply {
                Reply::Received(received) => {
                    if is_wanted_event(&received, extension.as_str()) {
                        drain()
                    } else {
                        // ignoring
                        blockforfile(extension)
                    }
                },
                _ => unreached(),
            },
            BlockState::Draining => match reply {
                Reply::Received(Received::Nothing) => finish(show_nothing(), ()),
                _ => drain(),
            },
        }
    }
}

/// The extension of a name that is made of a stem, a dot and an ending without
/// dots is that ending.
pub proof fn extension_follows_the_last_dot(stem: Seq<u8>, ending: Seq<u8>)
    requires
        stem.len() > 0,
        !ending.contains(DOT),
        stem + seq![DOT] + ending != seq![DOT, DOT],
    ensures
        extension_of(stem + seq![DOT] + ending) == Some(ending),
{
    let name = stem + seq![DOT] + ending;
    assert forall|j: int| stem.len() < j < name.len() implies name[j] != DOT by {
        assert(name[j] == ending[j - stem.len() - 1]);
    }
    lemma_last_dot(name, stem.len() as int);
    assert(name.skip((stem.len() + 1) as int) =~= ending);
}

} // verus!
