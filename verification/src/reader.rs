//! The decisions of a connection reader: what one read from a socket
//! becomes before it reaches the authority.
//!
//! A frame is whatever one read returns, without its control bytes. There
//! is no other framing: a message that spans two reads is two frames. The
//! reader only frames and forwards: whether a frame is text is for the
//! authority to decide.

use vstd::prelude::*;
use crate::address::Address;
use crate::authority::Event;
use crate::model::Input;

verus! {

/// The size of the buffer that a reader hands to each read.
pub const READ_SIZE: usize = 64;

/// The least byte that is kept: the bytes below it are control bytes.
pub const FIRST_PRINTABLE: u8 = 32;

/// The byte that a command frame begins with.
pub const MARKER: u8 = 0x2F;

/// What a frame is taken for.
#[derive(Clone, Copy, Debug, PartialEq, Eq, Structural)]
pub enum FrameKind {
    /// The frame begins with the marker `/`.
    Command,
    /// Any other frame.
    Text,
}

/// What a reader does after one read.
#[derive(Clone, Debug, PartialEq, Eq)]
pub enum Reading {
    /// The frame goes to the authority, and the reader reads on.
    Forward { kind: FrameKind, event: Event },
    /// The stream has ended: the authority is told, and the reader stops.
    Hangup { event: Event },
}

/// `raw` without its control bytes.
pub open spec fn printable(raw: Seq<u8>) -> Seq<u8> {
    raw.filter(|b: u8| b >= FIRST_PRINTABLE)
}

/// What the frame `bytes` is taken for: a command where its first byte is
/// the marker, text otherwise. A frame without bytes is text.
pub open spec fn kind_of(bytes: Seq<u8>) -> FrameKind {
    if bytes.len() > 0 && bytes[0] == MARKER {
        FrameKind::Command
    } else {
        FrameKind::Text
    }
}

/// A reading as a mathematical value.
pub enum ReadingView {
    Forward { kind: FrameKind, input: Input },
    Hangup { input: Input },
}

impl View for Reading {
    type V = ReadingView;

    open spec fn view(&self) -> ReadingView {
        match self {
            Reading::Forward { kind, event } => ReadingView::Forward { kind: *kind, input: event@ },
            Reading::Hangup { event } => ReadingView::Hangup { input: event@ },
        }
    }
}

/// What a reader of `address` does with the bytes `raw` of one read. An
/// empty read is the end of the stream. Any other read is one frame, made
/// of its bytes that are no control bytes, in their order, whatever they
/// are and even if none is left.
pub open spec fn reading(address: Address, raw: Seq<u8>) -> ReadingView {
    if raw.len() == 0 {
        ReadingView::Hangup { input: Input::Disconnected { address } }
    } else {
        ReadingView::Forward {
            kind: kind_of(printable(raw)),
            input: Input::Inbound { address, bytes: printable(raw) },
        }
    }
}

/// A frame holds the bytes of its read that are no control bytes, and
/// nothing else: no control byte is kept, no byte is added, no other byte
/// is dropped, and a read without control bytes is its own frame.
pub proof fn lemma_printable(raw: Seq<u8>)
    ensures
        printable(raw).len() <= raw.len(),
        forall|i: int|
            0 <= i < printable(raw).len() ==> (#[trigger] printable(raw)[i]) >= FIRST_PRINTABLE
                && raw.contains(printable(raw)[i]),
        forall|i: int|
            0 <= i < raw.len() && (#[trigger] raw[i]) >= FIRST_PRINTABLE ==> printable(raw).contains(
                raw[i],
            ),
        (forall|i: int| 0 <= i < raw.len() ==> (#[trigger] raw[i]) >= FIRST_PRINTABLE) ==> printable(
            raw,
        ) == raw,
    decreases raw.len(),
{
    let keep = |b: u8| b >= FIRST_PRINTABLE;
    if raw.len() == 0 {
        assert(raw.filter(keep).len() == 0) by {
            reveal(Seq::filter);
        }
    } else {
        let front = raw.drop_last();
        let kept = printable(front);
        lemma_printable(front);
        front.lemma_filter_push(raw.last(), keep);
        assert(front.push(raw.last()) =~= raw);
        assert forall|i: int| 0 <= i < printable(raw).len() implies (#[trigger] printable(raw)[i])
            >= FIRST_PRINTABLE && raw.contains(printable(raw)[i]) by {
            if i < kept.len() {
                assert(raw[front.index_of(kept[i])] == kept[i]);
            } else {
                assert(raw[raw.len() - 1] == printable(raw)[i]);
            }
        }
        assert forall|i: int| 0 <= i < raw.len() && (#[trigger] raw[i])
            >= FIRST_PRINTABLE implies printable(raw).contains(raw[i]) by {
            if i < front.len() {
                assert(printable(raw)[kept.index_of(front[i])] == raw[i]);
            } else {
                assert(printable(raw)[kept.len() as int] == raw[i]);
            }
        }
    }
}

/// `raw` without its control bytes.
pub fn strip_control(raw: &[u8]) -> (bytes: Vec<u8>)
    ensures
        bytes@ == printable(raw@),
{
    let mut bytes: Vec<u8> = Vec::new();
    let mut i: usize = 0;
    while i < raw.len()
        invariant
            i <= raw@.len(),
            bytes@ == printable(raw@.take(i as int)),
        decreases raw@.len() - i,
    {
        let b = raw[i];
        proof {
            let keep = |b: u8| b >= FIRST_PRINTABLE;
            assert(raw@.take(i + 1) =~= raw@.take(i as int).push(b));
            raw@.take(i as int).lemma_filter_push(b, keep);
        }
        if b >= FIRST_PRINTABLE {
            bytes.push(b);
        }
        i += 1;
    }
    proof {
        assert(raw@.take(i as int) =~= raw@);
    }
    bytes
}

/// What the frame `bytes` is taken for.
pub fn classify(bytes: &[u8]) -> (kind: FrameKind)
    ensures
        kind == kind_of(bytes@),
{
    if bytes.len() > 0 && bytes[0] == MARKER {
        FrameKind::Command
    } else {
        FrameKind::Text
    }
}

/// What a reader of `address` does with the bytes `raw` of one read.
pub fn on_read(address: Address, raw: &[u8]) -> (reading: Reading)
    ensures
        reading@ == self::reading(address, raw@),
{
    if raw.len() == 0 {
        return Reading::Hangup { event: Event::Disconnected { address } };
    }
    let bytes = strip_control(raw);
    let kind = classify(bytes.as_slice());
    Reading::Forward { kind, event: Event::Inbound { address, bytes } }
}

} // verus!
