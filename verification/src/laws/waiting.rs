//! Laws of waiting for a file to change.

use vstd::prelude::*;

use crate::laws::history;
use crate::laws::history::{Input, Machine};
use crate::protocol::{EventKind, ReceivedView, ReplyView, RequestView, WatchedPathView};
use crate::turn::NextView;
use crate::watch::{BlockView, EVENT_TIMEOUT};

verus! {

/// The reply is the change that is waited for.
pub open spec fn is_wanted_reply(reply: ReplyView, extension: Seq<char>) -> bool {
    reply matches ReplyView::Received(received) && crate::watch::is_wanted(received, extension)
}

/// Reply `k` is the change that is waited for, and up to reply `n` there is
/// always another change right behind.
pub open spec fn wanted_since(
    extension: Seq<char>,
    inputs: Seq<Input>,
    k: int,
    n: nat,
) -> bool {
    &&& 0 <= k < n
    &&& is_wanted_reply(inputs[k].reply, extension)
    &&& forall|j: int|
        k < j < n ==> (#[trigger] inputs[j]).reply != ReplyView::Received(ReceivedView::Nothing)
}

/// The change that is waited for is among the first `n` replies, with always
/// another change right behind.
pub open spec fn wanted_came(extension: Seq<char>, inputs: Seq<Input>, n: nat) -> bool {
    exists|k: int| wanted_since(extension, inputs, k, n)
}

proof fn lemma_block_turn(extension: Seq<char>, inputs: Seq<Input>, n: nat)
    requires
        history::is_history(BlockView::begin(extension), inputs),
        n <= inputs.len(),
    ensures
        match history::turn_at(BlockView::begin(extension), inputs, n).next {
            NextView::Do(request, BlockView::Checking { extension: e }) => {
                e == extension && request == RequestView::Running
            },
            NextView::Do(request, BlockView::Waiting { extension: e }) => {
                e == extension && request == RequestView::NextEvent(EVENT_TIMEOUT)
            },
            NextView::Do(request, BlockView::Draining) => {
                &&& request == RequestView::NextEvent(EVENT_TIMEOUT)
                &&& wanted_came(extension, inputs, n)
            },
            NextView::Return(Ok(())) => {
                &&& 0 < n
                &&& {
                    ||| inputs[n - 1].reply == ReplyView::Running(false)
                    ||| inputs[n - 1].reply == ReplyView::Received(ReceivedView::Nothing)
                        && wanted_came(extension, inputs, (n - 1) as nat)
                }
            },
            NextView::Return(Err(_)) => false,
        },
    decreases n,
{
    let first = BlockView::begin(extension);
    if n > 0 {
        let m = (n - 1) as nat;
        lemma_block_turn(extension, inputs, m);
        assert(history::turn_at(first, inputs, m).next is Do);
        let state = history::turn_at(first, inputs, m).next->Do_1;
        assert(history::turn_at(first, inputs, n) == state.step(inputs[m as int]));
        match state {
            BlockView::Checking { .. } => {},
            BlockView::Waiting { .. } => {
                if is_wanted_reply(inputs[m as int].reply, extension) {
                    assert(wanted_since(extension, inputs, m as int, n));
                }
            },
            BlockView::Draining => {
                let k = choose|k: int| wanted_since(extension, inputs, k, m);
                if inputs[m as int].reply != ReplyView::Received(ReceivedView::Nothing) {
                    assert(wanted_since(extension, inputs, k, n));
                }
            },
        }
    }
}

/// The wait is over only when the session is to stop, or when a file with the
/// extension was modified and no further change came within the timeout. Until
/// then nothing but the running flag and the next change is asked for, and the
/// wait never ends with an error.
pub proof fn waits_for_a_wanted_change(extension: Seq<char>, inputs: Seq<Input>)
    requires
        history::is_history(BlockView::begin(extension), inputs),
    ensures
        history::succeeds(BlockView::begin(extension), inputs) ==> 0 < inputs.len() && (
        inputs.last().reply == ReplyView::Running(false) || (inputs.last().reply
            == ReplyView::Received(ReceivedView::Nothing) && wanted_came(
            extension,
            inputs,
            (inputs.len() - 1) as nat,
        ))),
        !(history::turn_at(BlockView::begin(extension), inputs, inputs.len()).next
            matches NextView::Return(Err(_))),
        forall|n: nat|
            n <= inputs.len() ==> match #[trigger] history::request_at(
                BlockView::begin(extension),
                inputs,
                n,
            ) {
                Some(request) => request == RequestView::Running || request
                    == RequestView::NextEvent(EVENT_TIMEOUT),
                None => n == inputs.len(),
            },
{
    let first = BlockView::begin(extension);
    lemma_block_turn(extension, inputs, inputs.len());
    assert forall|n: nat| n <= inputs.len() implies match #[trigger] history::request_at(
        first,
        inputs,
        n,
    ) {
        Some(request) => request == RequestView::Running || request == RequestView::NextEvent(
            EVENT_TIMEOUT,
        ),
        None => n == inputs.len(),
    } by {
        lemma_block_turn(extension, inputs, n);
        if n < inputs.len() {
            assert(history::turn_at(first, inputs, n).next is Do);
        }
    }
}

/// A change that is not the one that is waited for leads back to where the wait
/// began. The one that is waited for never does.
pub proof fn other_changes_are_ignored(state: BlockView, extension: Seq<char>, reply: ReplyView)
    requires
        state matches BlockView::Waiting { extension: e } && e == extension,
    ensures
        (state.after(reply) == BlockView::begin(extension)) == !is_wanted_reply(reply, extension),
        is_wanted_reply(reply, extension) ==> state.after(reply) == BlockView::draining(),
{
}

/// The wait is over as soon as the running flag is seen cleared.
pub proof fn interrupt_ends_the_wait(state: BlockView)
    requires
        state is Checking,
    ensures
        state.after(ReplyView::Running(false)).next == NextView::<BlockView, ()>::Return(Ok(())),
{
}


/// The wait for an extension ends with a modification whose first path has a file
/// name made of at least one byte, a dot and that extension, which has no dot of
/// its own, and with no other reply. A name of two dots is no file's.
pub proof fn wanted_changes_by_their_names(
    state: BlockView,
    extension: Seq<char>,
    reply: ReplyView,
    drained: bool,
)
    requires
        state matches BlockView::Waiting { extension: e } && e == extension,
        reply is Received,
        drained == (state.after(reply).next matches NextView::Do(_, BlockView::Draining)),
    ensures
        drained == match reply {
            ReplyView::Received(ReceivedView::Event(EventKind::Modify, paths)) => paths.len() > 0
                && match paths[0].file_name {
                Some(name) => {
                    &&& name != seq![46u8, 46u8]
                    &&& !vstd::utf8::encode_utf8(extension).contains(46u8)
                    &&& exists|stem: Seq<u8>|
                        stem.len() > 0 && name == #[trigger] (stem + seq![46u8])
                            + vstd::utf8::encode_utf8(extension)
                },
                None => false,
            },
            _ => false,
        },
        history::shows_and_asks(
            state.after(reply),
            seq![],
            if drained {
                RequestView::NextEvent(100)
            } else {
                RequestView::Running
            },
        ),
        !drained ==> (state.after(reply).next matches NextView::Do(
            _,
            BlockView::Checking { extension: e },
        ) && e == extension),
{
    let ending = vstd::utf8::encode_utf8(extension);
    match reply {
        ReplyView::Received(ReceivedView::Event(EventKind::Modify, paths)) => {
            if paths.len() > 0 {
                match paths[0].file_name {
                    Some(name) => {
                        extension_by_the_stem(name, ending);
                    },
                    None => {},
                }
            }
        },
        _ => {},
    }
}

proof fn lemma_last_dot_place(name: Seq<u8>)
    ensures
        -1 <= crate::watch::last_dot(name) < name.len(),
        crate::watch::last_dot(name) >= 0 ==> name[crate::watch::last_dot(name)] == 46,
        forall|j: int| crate::watch::last_dot(name) < j < name.len() ==> name[j] != 46,
    decreases name.len(),
{
    if name.len() > 0 && name.last() != 46 {
        lemma_last_dot_place(name.drop_last());
        assert forall|j: int|
            crate::watch::last_dot(name) < j < name.len() implies name[j] != 46 by {
            if j < name.len() - 1 {
                assert(name[j] == name.drop_last()[j]);
            }
        }
    }
}

/// A file name has an extension if and only if it is made of at least one byte, a
/// dot and that extension, which has no dot of its own. A name of two dots is no
/// file's.
pub proof fn extension_by_the_stem(name: Seq<u8>, ending: Seq<u8>)
    ensures
        (crate::watch::extension_of(name) == Some(ending)) == (name != seq![46u8, 46u8]
            && !ending.contains(46u8) && exists|stem: Seq<u8>|
            stem.len() > 0 && name == #[trigger] (stem + seq![46u8]) + ending),
{
    lemma_last_dot_place(name);
    if crate::watch::extension_of(name) == Some(ending) {
        let dot = crate::watch::last_dot(name);
        let stem = name.take(dot);
        assert(name =~= (stem + seq![46u8]) + ending);
        if ending.contains(46u8) {
            let j = choose|j: int| 0 <= j < ending.len() && ending[j] == 46u8;
            assert(name[dot + 1 + j] == 46u8);
        }
    }
    if name != seq![46u8, 46u8] && !ending.contains(46u8) && exists|stem: Seq<u8>|
        stem.len() > 0 && name == #[trigger] (stem + seq![46u8]) + ending {
        let stem = choose|stem: Seq<u8>|
            stem.len() > 0 && name == #[trigger] (stem + seq![46u8]) + ending;
        crate::watch::extension_follows_the_last_dot(stem, ending);
    }
}

/// A modified file whose name is a stem of at least one byte, a dot and an ending
/// that is not empty and has no dot ends the wait for that ending, however long it
/// is, and the wait for no other one.
pub proof fn saved_file_ends_the_wait_for_its_type(
    state: BlockView,
    extension: Seq<char>,
    stem: Seq<u8>,
    ending: Seq<char>,
    paths: Seq<WatchedPathView>,
)
    requires
        state matches BlockView::Waiting { extension: e } && e == extension,
        stem.len() > 0,
        ending.len() > 0,
        !vstd::utf8::encode_utf8(ending).contains(46u8),
        paths.len() > 0,
        paths[0].file_name == Some(stem + seq![46u8] + vstd::utf8::encode_utf8(ending)),
    ensures
        (state.after(ReplyView::Received(ReceivedView::Event(EventKind::Modify, paths))).next
            matches NextView::Do(_, BlockView::Draining)) == (extension == ending),
{
    let bytes = vstd::utf8::encode_utf8(ending);
    let other = vstd::utf8::encode_utf8(extension);
    let name = stem + seq![46u8] + bytes;
    vstd::utf8::encode_utf8_decode_utf8(ending);
    vstd::utf8::encode_utf8_decode_utf8(extension);
    assert(bytes.len() > 0) by {
        if bytes.len() == 0 {
            assert(bytes =~= Seq::<u8>::empty());
            assert(vstd::utf8::decode_utf8(bytes).len() == 0);
        }
    }
    assert(name != seq![46u8, 46u8]) by {
        if name == seq![46u8, 46u8] {
            assert(name[name.len() - 1] == bytes[bytes.len() - 1]);
            assert(bytes.contains(bytes[bytes.len() - 1]));
        }
    }
    crate::watch::extension_follows_the_last_dot(stem, bytes);
    if bytes == other {
        assert(ending == extension);
    }
}

/// Each reply leads to one request, word for word: the flag is looked at before
/// each wait of a tenth of a second, and the changes that come along are taken
/// until none comes for as long.
pub proof fn wait_word_for_word(state: BlockView, reply: ReplyView)
    requires
        reply.kind() == state.awaits(),
    ensures
        state is Checking ==> match reply {
            ReplyView::Running(true) => history::shows_and_asks(
                state.after(reply),
                seq![],
                RequestView::NextEvent(100),
            ) && match state.after(reply).next {
                NextView::Do(_, BlockView::Waiting { extension }) => state->Checking_extension
                    == extension,
                _ => false,
            },
            ReplyView::Running(false) => history::shows_and_returns(
                state.after(reply),
                seq![],
                (),
            ),
            _ => false,
        },
        state is Draining ==> match reply {
            ReplyView::Received(ReceivedView::Nothing) => history::shows_and_returns(
                state.after(reply),
                seq![],
                (),
            ),
            ReplyView::Received(_) => history::shows_and_asks(
                state.after(reply),
                seq![],
                RequestView::NextEvent(100),
            ) && (state.after(reply).next matches NextView::Do(_, BlockView::Draining)),
            _ => false,
        },
        state is Waiting ==> reply is Received,
{
}

/// The wait starts with a look at the running flag, for the extension that is
/// given.
pub proof fn wait_starts_with_the_flag(extension: Seq<char>)
    ensures
        history::shows_and_asks(BlockView::begin(extension), seq![], RequestView::Running),
        BlockView::begin(extension).next matches NextView::Do(
            _,
            BlockView::Checking { extension: e },
        ) && e == extension,
{
}

} // verus!
