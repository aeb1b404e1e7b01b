//! One round trip on the wire: how a request is laid out in a report and
//! how the reply to it is read.

use vstd::prelude::*;
use crate::error::{Error, Outcome};
use crate::ids::CommandId;
use crate::report::{framed, Report, REPORT_SIZE};
use crate::word::{join_word, word_of};

verus! {

/// A decoded result.
#[derive(Clone, Debug, PartialEq, Eq)]
pub enum Value {
    /// The command has no result beyond having been accepted.
    Unit,
    /// One byte, such as a brightness.
    Byte(u8),
    /// One sixteen-bit value, such as a keycode.
    Word(u16),
    /// Two bytes, such as a hue and a saturation.
    Pair(u8, u8),
    /// A run of bytes.
    Bytes(Vec<u8>),
    /// A run of sixteen-bit values.
    Words(Vec<u16>),
}

/// What a [`Value`] holds, with sequences in place of vectors.
pub enum ValueView {
    Unit,
    Byte(u8),
    Word(u16),
    Pair(u8, u8),
    Bytes(Seq<u8>),
    Words(Seq<u16>),
}

impl View for Value {
    type V = ValueView;

    open spec fn view(&self) -> ValueView {
        match *self {
            Value::Unit => ValueView::Unit,
            Value::Byte(b) => ValueView::Byte(b),
            Value::Word(w) => ValueView::Word(w),
            Value::Pair(a, b) => ValueView::Pair(a, b),
            Value::Bytes(bytes) => ValueView::Bytes(bytes@),
            Value::Words(words) => ValueView::Words(words@),
        }
    }
}

/// Which bytes of a reply hold the result of a command, and what they
/// mean.
#[derive(Clone, Copy, Debug, PartialEq, Eq)]
pub enum Shape {
    /// The reply holds no result.
    Unit,
    /// The byte at `at`.
    Byte { at: u8 },
    /// The high byte at `at` and the low byte after it.
    Word { at: u8 },
    /// The byte at `at` and the byte after it.
    Pair { at: u8 },
    /// The `len` bytes from `start` on.
    Bytes { start: u8, len: u8 },
}

impl Shape {
    /// The position after the last byte of the reply that the shape reads.
    pub open spec fn end(self) -> int {
        match self {
            Shape::Unit => 0,
            Shape::Byte { at } => at + 1,
            Shape::Word { at } => at + 2,
            Shape::Pair { at } => at + 2,
            Shape::Bytes { start, len } => start + len,
        }
    }

    /// Whether every byte the shape reads lies within a report.
    pub open spec fn fits(self) -> bool {
        self.end() <= REPORT_SIZE
    }

    /// The result that a reply holds.
    pub open spec fn extract(self, reply: Seq<u8>) -> ValueView {
        match self {
            Shape::Unit => ValueView::Unit,
            Shape::Byte { at } => ValueView::Byte(reply[at as int]),
            Shape::Word { at } => ValueView::Word(word_of(reply[at as int], reply[at + 1])),
            Shape::Pair { at } => ValueView::Pair(reply[at as int], reply[at + 1]),
            Shape::Bytes { start, len } => ValueView::Bytes(
                reply.subrange(start as int, start + len),
            ),
        }
    }

    /// Whether every byte the shape reads lies within a report.
    pub fn is_within_report(self) -> (yes: bool)
        ensures
            yes == self.fits(),
    {
        match self {
            Shape::Unit => true,
            Shape::Byte { at } => (at as usize) < REPORT_SIZE,
            Shape::Word { at } => (at as usize) < REPORT_SIZE - 1,
            Shape::Pair { at } => (at as usize) < REPORT_SIZE - 1,
            Shape::Bytes { start, len } => start as usize + len as usize <= REPORT_SIZE,
        }
    }

    /// Reads the result out of a reply.
    pub fn read(self, reply: &Report) -> (value: Value)
        requires
            self.fits(),
        ensures
            value@ == self.extract(reply@),
    {
        match self {
            Shape::Unit => Value::Unit,
            Shape::Byte { at } => Value::Byte(reply.byte(at as usize)),
            Shape::Word { at } => Value::Word(
                join_word(reply.byte(at as usize), reply.byte(at as usize + 1)),
            ),
            Shape::Pair { at } => Value::Pair(reply.byte(at as usize), reply.byte(at as usize + 1)),
            Shape::Bytes { start, len } => Value::Bytes(reply.window(start as usize, len as usize)),
        }
    }
}

/// One request and the reading of its reply: the command id, the parameter
/// bytes that follow it, and where the result sits in the reply.
#[derive(Clone, Debug, PartialEq, Eq)]
pub struct Exchange {
    pub id: CommandId,
    pub params: Vec<u8>,
    pub shape: Shape,
}

/// What an [`Exchange`] holds, with a sequence in place of the vector.
pub struct ExchangeView {
    pub id: CommandId,
    pub params: Seq<u8>,
    pub shape: Shape,
}

impl View for Exchange {
    type V = ExchangeView;

    open spec fn view(&self) -> ExchangeView {
        ExchangeView { id: self.id, params: self.params@, shape: self.shape }
    }
}

impl ExchangeView {
    /// The bytes of the request before padding: the command id, then the
    /// parameters.
    pub open spec fn payload(self) -> Seq<u8> {
        seq![self.id.wire()] + self.params
    }

    /// Whether the request fits in a report and the result lies within
    /// one.
    pub open spec fn well_formed(self) -> bool {
        self.payload().len() <= REPORT_SIZE && self.shape.fits()
    }

    /// The report that carries the request: the payload, then zero bytes.
    pub open spec fn request(self) -> Seq<u8> {
        framed(self.payload())
    }

    /// Whether a reply echoes the command id of the request.
    pub open spec fn accepts(self, reply: Seq<u8>) -> bool {
        reply[0] == self.id.wire()
    }

    /// What a reply to the request means.  A reply that echoes another
    /// command id is a rejection whatever else it holds.
    pub open spec fn outcome(self, reply: Seq<u8>) -> Outcome<ValueView> {
        if !self.accepts(reply) {
            Outcome::Rejected
        } else if !self.shape.fits() {
            Outcome::Failed(Error::InvalidReportSize)
        } else {
            Outcome::Success(self.shape.extract(reply))
        }
    }
}

impl Exchange {
    /// Lays the request out in a report: the command id in the first byte,
    /// the parameters after it, zero bytes in the rest.  A request whose
    /// parameters leave no room is refused.
    pub fn encode(&self) -> (report: Result<Report, Error>)
        ensures
            self@.payload().len() <= REPORT_SIZE ==> report is Ok && report->Ok_0@
                == self@.request(),
            self@.payload().len() > REPORT_SIZE ==> report == Err::<Report, Error>(
                Error::InvalidReportSize,
            ),
    {
        let mut payload: Vec<u8> = Vec::new();
        payload.push(self.id.code());
        let mut i: usize = 0;
        while i < self.params.len()
            invariant
                i <= self.params@.len(),
                payload@ == seq![self.id.wire()] + self.params@.subrange(0, i as int),
            decreases self.params@.len() - i,
        {
            payload.push(self.params[i]);
            assert(payload@ =~= seq![self.id.wire()] + self.params@.subrange(0, i + 1));
            i += 1;
        }
        assert(payload@ =~= self@.payload());
        Report::frame(&payload)
    }

    /// Reads the reply to the request.  The first byte of the reply decides:
    /// if it is not the command id that was sent, the keyboard rejected the
    /// command and nothing else of the reply is read.
    pub fn decode(&self, reply: &Report) -> (outcome: Outcome<Value>)
        ensures
            outcome@ == self@.outcome(reply@),
    {
        if reply.byte(0) != self.id.code() {
            Outcome::Rejected
        } else if !self.shape.is_within_report() {
            Outcome::Failed(Error::InvalidReportSize)
        } else {
            Outcome::Success(self.shape.read(reply))
        }
    }
}

} // verus!
