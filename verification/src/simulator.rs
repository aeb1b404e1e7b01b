//! A keyboard that exists only in memory.  It answers requests as the
//! model says, so that an operation can be run from start to end without a
//! device.

use vstd::prelude::*;
use crate::codec::Value;
use crate::error::{Error, Outcome};
use crate::ids::CommandId;
use crate::model::{
    carrying, cleared, fetched, perform, run, serve, stored, Memory, ROUND_LIMIT, UNHANDLED,
};
use crate::operation::Operation;
use crate::report::{Report, CHUNK_SIZE, REPORT_SIZE};
use crate::session::{after, after_reply, Action, Event, Session, Stage};
use crate::word::{join_word, split_word};

verus! {

/// A keyboard in memory.
#[derive(Clone, Debug, PartialEq, Eq)]
pub struct Simulator {
    /// The protocol version it speaks.
    pub version: u16,
    /// The number of layers it reports.
    pub layers: u8,
    /// The bytes of its keymap.
    pub keymap: Vec<u8>,
    /// The bytes of its macro buffer.
    pub macros: Vec<u8>,
}

impl View for Simulator {
    type V = Memory;

    open spec fn view(&self) -> Memory {
        Memory {
            version: self.version,
            layers: self.layers,
            keymap: self.keymap@,
            macros: self.macros@,
        }
    }
}

/// `len` zero bytes.
fn zeros(len: usize) -> (bytes: Vec<u8>)
    ensures
        bytes@ == cleared(len as nat),
{
    let mut bytes: Vec<u8> = Vec::new();
    let mut i: usize = 0;
    while i < len
        invariant
            i <= len,
            bytes@ == cleared(i as nat),
        decreases len - i,
    {
        bytes.push(0u8);
        assert(bytes@ =~= cleared((i + 1) as nat));
        i += 1;
    }
    bytes
}

/// `request` with the `size` bytes of `buffer` from `offset` on in place
/// of its bytes from the fifth on.
fn fetch(buffer: &Vec<u8>, request: &Report, offset: usize, size: usize) -> (reply: Report)
    requires
        offset < 65536,
        size <= CHUNK_SIZE,
    ensures
        reply@ == carrying(request@, 4, fetched(buffer@, offset as int, size as int)),
{
    let mut bytes: [u8; 32] = request.bytes;
    let mut i: usize = 0;
    while i < size
        invariant
            i <= size <= CHUNK_SIZE,
            offset < 65536,
            forall|j: int| 0 <= j < 4 + i ==> bytes@[j] == carrying(
                request@,
                4,
                fetched(buffer@, offset as int, size as int),
            )[j],
            forall|j: int| 4 + i <= j < REPORT_SIZE ==> bytes@[j] == request@[j],
        decreases size - i,
    {
        let b: u8 = if offset + i < buffer.len() {
            buffer[offset + i]
        } else {
            0u8
        };
        bytes[4 + i] = b;
        i += 1;
    }
    let reply = Report { bytes };
    assert(reply@ =~= carrying(request@, 4, fetched(buffer@, offset as int, size as int)));
    reply
}

/// Stores the `size` bytes of `request` from the fifth on in `buffer` from
/// `offset` on, as far as the buffer reaches.
fn store(buffer: &mut Vec<u8>, request: &Report, offset: usize, size: usize)
    requires
        offset < 65536,
        size <= CHUNK_SIZE,
    ensures
        final(buffer)@ == stored(old(buffer)@, offset as int, request@.subrange(4, 4 + size)),
{
    let ghost data = request@.subrange(4, 4 + size);
    let mut i: usize = 0;
    while i < size
        invariant
            i <= size <= CHUNK_SIZE,
            offset < 65536,
            data == request@.subrange(4, 4 + size),
            buffer@ == stored(old(buffer)@, offset as int, data.subrange(0, i as int)),
        decreases size - i,
    {
        if offset + i < buffer.len() {
            buffer.set(offset + i, request.byte(4 + i));
        }
        assert(buffer@ =~= stored(old(buffer)@, offset as int, data.subrange(0, i + 1)));
        i += 1;
    }
    assert(data.subrange(0, size as int) =~= data);
}

impl Simulator {
    /// A keyboard whose keymap and macro buffer hold zero bytes.
    pub fn new(version: u16, layers: u8, keymap_size: usize, macro_size: usize) -> (keyboard:
        Simulator)
        ensures
            keyboard@ == (Memory {
                version,
                layers,
                keymap: cleared(keymap_size as nat),
                macros: cleared(macro_size as nat),
            }),
    {
        Simulator { version, layers, keymap: zeros(keymap_size), macros: zeros(macro_size) }
    }

    /// Answers one request.
    pub fn respond(&mut self, request: &Report) -> (reply: Report)
        ensures
            (final(self)@, reply@) == serve(old(self)@, request@),
    {
        let id: u8 = request.byte(0);
        let offset: usize = join_word(request.byte(1), request.byte(2)) as usize;
        let size: usize = if request.byte(3) as usize <= CHUNK_SIZE {
            request.byte(3) as usize
        } else {
            CHUNK_SIZE
        };
        let mut bytes: [u8; 32] = request.bytes;
        if id == CommandId::GetProtocolVersion.code() {
            let (hi, lo) = split_word(self.version);
            bytes[1] = hi;
            bytes[2] = lo;
            let reply = Report { bytes };
            assert(reply@ =~= carrying(request@, 1, seq![hi, lo]));
            reply
        } else if id == CommandId::DynamicKeymapGetLayerCount.code() {
            bytes[1] = self.layers;
            let reply = Report { bytes };
            assert(reply@ =~= carrying(request@, 1, seq![self.layers]));
            reply
        } else if id == CommandId::DynamicKeymapMacroGetBufferSize.code() {
            let (hi, lo) = split_word(self.macros.len() as u16);
            bytes[1] = hi;
            bytes[2] = lo;
            let reply = Report { bytes };
            assert(reply@ =~= carrying(request@, 1, seq![hi, lo]));
            reply
        } else if id == CommandId::DynamicKeymapMacroGetBuffer.code() {
            fetch(&self.macros, request, offset, size)
        } else if id == CommandId::DynamicKeymapMacroSetBuffer.code() {
            store(&mut self.macros, request, offset, size);
            *request
        } else if id == CommandId::DynamicKeymapMacroReset.code() {
            self.macros = zeros(self.macros.len());
            *request
        } else if id == CommandId::DynamicKeymapGetBuffer.code() {
            fetch(&self.keymap, request, offset, size)
        } else if id == CommandId::DynamicKeymapSetBuffer.code() {
            store(&mut self.keymap, request, offset, size);
            *request
        } else if 0x01 <= id && id <= 0x15 {
            *request
        } else {
            bytes[0] = UNHANDLED;
            let reply = Report { bytes };
            assert(reply@ =~= request@.update(0, UNHANDLED));
            reply
        }
    }

    /// Runs a whole operation: every request of the session is sent,
    /// answered, and the reply handed back, until the session ends.  An
    /// operation that only sends or only receives has no reply to wait for
    /// and ends as out of sequence.
    pub fn perform(&mut self, operation: Operation, version: u16) -> (outcome: Outcome<Value>)
        ensures
            (outcome@, final(self)@) == perform(operation, version, old(self)@),
    {
        let (session, action) = Session::start(operation, version);
        let mut session = session;
        let mut action = action;
        let mut fuel: usize = ROUND_LIMIT;
        loop
            invariant
                fuel <= ROUND_LIMIT,
                run(session@, action@, self@, fuel as nat) == perform(
                    operation,
                    version,
                    old(self)@,
                ),
            decreases fuel,
        {
            match action {
                Action::Finish(outcome) => {
                    return outcome;
                },
                Action::Send(request) => {
                    if !matches!(session.stage(), Stage::Requesting) {
                        return Outcome::Failed(Error::OutOfSequence);
                    }
                    if fuel == 0 {
                        return Outcome::Failed(Error::Timeout);
                    }
                    let ghost before = session@;
                    let (waiting, _) = session.step(Event::Sent);
                    let reply = self.respond(&request);
                    let (next, then_do) = waiting.step(Event::Reply(reply));
                    assert(after(waiting@, Event::Reply(reply)) == after_reply(before, reply@));
                    session = next;
                    action = then_do;
                    fuel = fuel - 1;
                },
                Action::Receive => {
                    return Outcome::Failed(Error::OutOfSequence);
                },
            }
        }
    }
}

} // verus!
