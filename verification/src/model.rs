//! A model of the keyboard's side of the protocol, as far as it stores what
//! it is sent and returns what it stores, and of a session that is run
//! against it.  The laws of the library are stated over this model, and
//! [`crate::simulator`] runs it.

use vstd::prelude::*;
use crate::codec::ValueView;
use crate::error::{Error, Outcome};
use crate::ids::CommandId;
use crate::operation::Operation;
use crate::report::CHUNK_SIZE;
use crate::session::{after_reply, begin, ActionView, SessionView};
use crate::word::{high_byte, low_byte, word_of};

verus! {

/// The first byte of the reply to a command that the keyboard does not
/// know.
pub const UNHANDLED: u8 = 0xff;

/// What the keyboard holds.
pub struct Memory {
    /// The protocol version it speaks.
    pub version: u16,
    /// The number of layers it has.
    pub layers: u8,
    /// The bytes of its keymap: the keycodes of all layers, high byte
    /// first.
    pub keymap: Seq<u8>,
    /// The bytes of its macro buffer.
    pub macros: Seq<u8>,
}

/// `buffer` with `data` stored from `offset` on; what would lie beyond the
/// end of the buffer is dropped.
pub open spec fn stored(buffer: Seq<u8>, offset: int, data: Seq<u8>) -> Seq<u8> {
    Seq::new(
        buffer.len(),
        |j: int|
            if offset <= j < offset + data.len() {
                data[j - offset]
            } else {
                buffer[j]
            },
    )
}

/// The `size` bytes of `buffer` from `offset` on; beyond the end of the
/// buffer they are zero.
pub open spec fn fetched(buffer: Seq<u8>, offset: int, size: int) -> Seq<u8> {
    Seq::new(
        size as nat,
        |i: int|
            if offset + i < buffer.len() {
                buffer[offset + i]
            } else {
                0u8
            },
    )
}

/// The `len` bytes of `buffer` from `from` on, all of which it has.
pub open spec fn held(buffer: Seq<u8>, from: nat, len: nat) -> Seq<u8> {
    buffer.subrange(from as int, (from + len) as int)
}

/// A buffer of `len` zero bytes.
pub open spec fn cleared(len: nat) -> Seq<u8> {
    Seq::new(len, |i: int| 0u8)
}

/// The offset that a buffer request names.
pub open spec fn named_offset(request: Seq<u8>) -> int {
    word_of(request[1], request[2]) as int
}

/// The number of bytes that a buffer request names, at most what one
/// report carries.
pub open spec fn named_size(request: Seq<u8>) -> int {
    if request[3] <= CHUNK_SIZE {
        request[3] as int
    } else {
        CHUNK_SIZE as int
    }
}

/// `request` with `data` in place of the bytes from position `at` on.
pub open spec fn carrying(request: Seq<u8>, at: int, data: Seq<u8>) -> Seq<u8> {
    Seq::new(
        request.len(),
        |i: int|
            if at <= i < at + data.len() {
                data[i - at]
            } else {
                request[i]
            },
    )
}

/// Whether the byte stands for a command of the protocol.
pub open spec fn known(id: u8) -> bool {
    0x01 <= id <= 0x15
}

/// What the keyboard holds after a request, and its reply.
///
/// The reply echoes the request and carries what was asked for in the
/// place the protocol gives it.  A command that stores or asks for nothing
/// modelled here is echoed unchanged; an unknown one is answered with
/// [`UNHANDLED`] in the first byte.
pub open spec fn serve(mem: Memory, request: Seq<u8>) -> (Memory, Seq<u8>) {
    let id = request[0];
    let offset = named_offset(request);
    let size = named_size(request);
    if id == CommandId::GetProtocolVersion.wire() {
        (mem, carrying(request, 1, seq![high_byte(mem.version), low_byte(mem.version)]))
    } else if id == CommandId::DynamicKeymapGetLayerCount.wire() {
        (mem, carrying(request, 1, seq![mem.layers]))
    } else if id == CommandId::DynamicKeymapMacroGetBufferSize.wire() {
        let len = mem.macros.len() as u16;
        (mem, carrying(request, 1, seq![high_byte(len), low_byte(len)]))
    } else if id == CommandId::DynamicKeymapMacroGetBuffer.wire() {
        (mem, carrying(request, 4, fetched(mem.macros, offset, size)))
    } else if id == CommandId::DynamicKeymapMacroSetBuffer.wire() {
        (Memory { macros: stored(mem.macros, offset, request.subrange(4, 4 + size)), ..mem }, request)
    } else if id == CommandId::DynamicKeymapMacroReset.wire() {
        (Memory { macros: cleared(mem.macros.len()), ..mem }, request)
    } else if id == CommandId::DynamicKeymapGetBuffer.wire() {
        (mem, carrying(request, 4, fetched(mem.keymap, offset, size)))
    } else if id == CommandId::DynamicKeymapSetBuffer.wire() {
        (Memory { keymap: stored(mem.keymap, offset, request.subrange(4, 4 + size)), ..mem }, request)
    } else if known(id) {
        (mem, request)
    } else {
        (mem, request.update(0, UNHANDLED))
    }
}

/// More round trips than any operation takes.
pub const ROUND_LIMIT: usize = 4096;

/// More round trips than any operation takes.
pub open spec fn round_limit() -> nat {
    ROUND_LIMIT as nat
}

/// The outcome of a session that is run against the model from a given
/// state on, and what the keyboard holds afterwards.  Every request is
/// sent, served, and the reply handed back, at most `fuel` times.  A
/// session that only sends or only receives has no reply to wait for and
/// ends as out of sequence.
pub open spec fn run(s: SessionView, action: ActionView, mem: Memory, fuel: nat) -> (
    Outcome<ValueView>,
    Memory,
)
    decreases fuel,
{
    match action {
        ActionView::Finish(outcome) => (outcome, mem),
        ActionView::Send(request) => if !(s.stage is Requesting) {
            (Outcome::Failed(Error::OutOfSequence), mem)
        } else if fuel == 0 {
            (Outcome::Failed(Error::Timeout), mem)
        } else {
            let served = serve(mem, request);
            let next = after_reply(s, served.1);
            run(next.0, next.1, served.0, (fuel - 1) as nat)
        },
        ActionView::Receive => (Outcome::Failed(Error::OutOfSequence), mem),
    }
}

/// The outcome of an operation that is run against the model, and what
/// the keyboard holds afterwards.
pub open spec fn perform(operation: Operation, version: u16, mem: Memory) -> (
    Outcome<ValueView>,
    Memory,
) {
    let started = begin(operation, version);
    run(started.0, started.1, mem, round_limit())
}

} // verus!
