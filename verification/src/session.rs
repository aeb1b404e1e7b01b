//! The run of one operation, free of input and output.
//!
//! A session says what to do next on the channel: send a report, or read
//! one.  The caller does it and reports what happened; the session says
//! what to do after that, until it hands out the outcome.  Requests go out
//! one at a time and in order, each reply is read before the next request
//! is made, and the first round trip that fails or is rejected ends the
//! session: what was applied before stays applied.

use vstd::prelude::*;
use vstd::pervasive::unreached;
use crate::chunk::{copy_chunk, count_chunks, length_of_chunk, lemma_chunk_bounds};
use crate::codec::{Exchange, Value, ValueView};
use crate::command::Command;
use crate::error::{Error, Outcome};
use crate::ids::{LEGACY_LAYER_COUNT, PROTOCOL_BUFFERED};
use crate::operation::{
    flattened, reported_capacity, Operation, ADDRESS_SPACE, MACRO_WRITE_DONE, MACRO_WRITE_PENDING,
};
use crate::report::{framed, Report, CHUNK_SIZE, REPORT_SIZE};
use crate::word::{join_word, join_words, split_words};

verus! {

/// What a session waits for.
#[derive(Clone, Copy, Debug, PartialEq, Eq)]
pub enum Stage {
    /// Word that the request it handed out was sent.
    Requesting,
    /// The reply to the request that was sent.
    Replying,
    /// Word that the report it handed out was sent, where no reply is
    /// read.
    Sending,
    /// A report from the keyboard, where nothing was sent.
    Receiving,
    /// Nothing: the outcome has been handed out.
    Finished,
}

/// What happened on the channel.
#[derive(Clone, Copy, Debug, PartialEq, Eq)]
pub enum Event {
    /// The report was sent.
    Sent,
    /// The keyboard sent this report.
    Reply(Report),
    /// Sending or receiving failed.
    Failed(Error),
}

/// What the caller is to do next.
#[derive(Clone, Debug, PartialEq, Eq)]
pub enum Action {
    /// Send the report and report that it was sent.
    Send(Report),
    /// Read one report and report it as the reply.
    Receive,
    /// Nothing more: the operation ended this way.
    Finish(Outcome<Value>),
}

/// What an [`Action`] holds, with sequences in place of arrays and vectors.
pub enum ActionView {
    Send(Seq<u8>),
    Receive,
    Finish(Outcome<ValueView>),
}

impl View for Action {
    type V = ActionView;

    open spec fn view(&self) -> ActionView {
        match *self {
            Action::Send(report) => ActionView::Send(report@),
            Action::Receive => ActionView::Receive,
            Action::Finish(outcome) => ActionView::Finish(outcome@),
        }
    }
}

/// The state of a session.
pub struct SessionView {
    /// What was asked for.
    pub operation: Operation,
    /// The protocol version of the keyboard.
    pub version: u16,
    /// What the session waits for.
    pub stage: Stage,
    /// Number of round trips that were accepted.
    pub round: nat,
    /// The size of the macro buffer; zero until the keyboard has told it.
    pub capacity: u16,
    /// The bytes read so far.
    pub incoming: Seq<u8>,
}

impl SessionView {
    /// The state after the outcome has been handed out.
    pub open spec fn finished(self) -> SessionView {
        SessionView { stage: Stage::Finished, incoming: Seq::empty(), ..self }
    }

    /// The report of the pending round trip.
    pub open spec fn request(self) -> Seq<u8> {
        self.operation.exchange_at(self.version, self.capacity, self.round).request()
    }
}

/// The state in which a session starts and what it asks for first.
///
/// An operation that cannot be started ends at once with the reason, one
/// whose answer is known ends at once with the answer, and so does a
/// transfer of nothing.
pub open spec fn begin(operation: Operation, version: u16) -> (SessionView, ActionView) {
    let fresh = SessionView {
        operation,
        version,
        stage: Stage::Requesting,
        round: 0,
        capacity: 0,
        incoming: Seq::empty(),
    };
    match operation.admission(version) {
        Some(e) => (fresh.finished(), ActionView::Finish(Outcome::Failed(e))),
        None => match operation.canned(version) {
            Some(value) => (fresh.finished(), ActionView::Finish(Outcome::Success(value))),
            None => match operation {
                Operation::SendRaw(data) => (
                    SessionView { stage: Stage::Sending, ..fresh },
                    ActionView::Send(framed(data@)),
                ),
                Operation::ReceiveRaw => (
                    SessionView { stage: Stage::Receiving, ..fresh },
                    ActionView::Receive,
                ),
                _ => if operation.rounds(0) == 0 {
                    (
                        fresh.finished(),
                        ActionView::Finish(Outcome::Success(operation.empty_result())),
                    )
                } else {
                    (fresh, ActionView::Send(fresh.request()))
                },
            },
        },
    }
}

/// The state after the reply to the pending request and what to do next.
///
/// A reply that echoes another command id ends the session: as a
/// rejection if it was the first round trip, as a partial transfer if
/// round trips had been applied before.  An accepted reply adds what it
/// carries to what was read; the last one ends the session with the
/// result, any other is followed by the next request.  Macro bytes that
/// the buffer cannot hold end the session as soon as its size is known.
pub open spec fn after_reply(s: SessionView, reply: Seq<u8>) -> (SessionView, ActionView) {
    let op = s.operation;
    if !op.exchange_at(s.version, s.capacity, s.round).accepts(reply) {
        (
            s.finished(),
            ActionView::Finish(
                if s.round == 0 {
                    Outcome::Rejected
                } else {
                    Outcome::Failed(Error::PartialTransfer { completed: s.round as usize })
                },
            ),
        )
    } else {
        let capacity = if s.round == 0 && op.learns_capacity() {
            reported_capacity(reply)
        } else {
            s.capacity
        };
        let incoming = s.incoming + op.gathered(capacity, s.round, reply);
        if s.round == 0 && op is SetMacroBytes && op.wire_data().len() > capacity {
            (
                s.finished(),
                ActionView::Finish(
                    Outcome::Failed(
                        Error::BufferOverflow {
                            capacity,
                            actual: op.wire_data().len() as usize,
                        },
                    ),
                ),
            )
        } else if s.round + 1 == op.rounds(capacity) {
            (
                s.finished(),
                ActionView::Finish(Outcome::Success(op.result(s.version, incoming, reply))),
            )
        } else {
            let next = SessionView {
                stage: Stage::Requesting,
                round: s.round + 1,
                capacity,
                incoming,
                ..s
            };
            (next, ActionView::Send(next.request()))
        }
    }
}

/// The state after an event and what to do next.
///
/// A request that was sent is followed by reading the reply.  A failure
/// of the channel ends the session with that failure.  An event that the
/// session was not waiting for ends it as out of sequence.
pub open spec fn after(s: SessionView, event: Event) -> (SessionView, ActionView) {
    match (s.stage, event) {
        (Stage::Finished, _) => (s, ActionView::Finish(Outcome::Failed(Error::OutOfSequence))),
        (_, Event::Failed(e)) => (s.finished(), ActionView::Finish(Outcome::Failed(e))),
        (Stage::Sending, Event::Sent) => (
            s.finished(),
            ActionView::Finish(Outcome::Success(ValueView::Unit)),
        ),
        (Stage::Receiving, Event::Reply(report)) => (
            s.finished(),
            ActionView::Finish(Outcome::Success(ValueView::Bytes(report@))),
        ),
        (Stage::Requesting, Event::Sent) => (
            SessionView { stage: Stage::Replying, ..s },
            ActionView::Receive,
        ),
        (Stage::Replying, Event::Reply(report)) => after_reply(s, report@),
        _ => (s.finished(), ActionView::Finish(Outcome::Failed(Error::OutOfSequence))),
    }
}

/// The run of one operation.
pub struct Session {
    operation: Operation,
    version: u16,
    stage: Stage,
    round: usize,
    capacity: u16,
    incoming: Vec<u8>,
    outgoing: Vec<u8>,
    base: usize,
    span: usize,
}

impl View for Session {
    type V = SessionView;

    closed spec fn view(&self) -> SessionView {
        SessionView {
            operation: self.operation,
            version: self.version,
            stage: self.stage,
            round: self.round as nat,
            capacity: self.capacity,
            incoming: self.incoming@,
        }
    }
}

impl Session {
    #[verifier::type_invariant]
    spec fn sound(self) -> bool {
        self.stage != Stage::Finished ==> {
            &&& self.operation.admission(self.version) is None
            &&& self.operation.canned(self.version) is None
            &&& self.outgoing@ == self.operation.wire_data()
            &&& self.base == self.operation.base()
            &&& self.span == self.operation.span()
            &&& self.stage is Sending ==> self.operation is SendRaw
            &&& self.stage is Receiving ==> self.operation is ReceiveRaw
            &&& self.stage is Requesting || self.stage is Replying ==> {
                &&& !(self.operation is SendRaw)
                &&& !(self.operation is ReceiveRaw)
                &&& self.round < self.operation.rounds(self.capacity)
                &&& self.operation is SetMacroBytes && self.round >= 1 ==> self.outgoing@.len()
                    <= self.capacity
            }
        }
    }

    /// What the session waits for.
    pub fn stage(&self) -> (stage: Stage)
        ensures
            stage == self@.stage,
    {
        self.stage
    }

    /// Number of round trips that were accepted.
    pub fn completed(&self) -> (rounds: usize)
        ensures
            rounds == self@.round,
    {
        self.round
    }

    /// Starts an operation on a keyboard that speaks `version`.
    pub fn start(operation: Operation, version: u16) -> (started: (Session, Action))
        ensures
            (started.0@, started.1@) == begin(operation, version),
    {
        let mut outgoing: Vec<u8> = Vec::new();
        let mut base: usize = 0;
        let mut span: usize = 0;
        let mut refused: Option<Error> = None;
        let mut canned: Option<Value> = None;
        match &operation {
            Operation::Single(command) => {
                if matches!(command, Command::GetLayerCount) && version < PROTOCOL_BUFFERED {
                    canned = Some(Value::Byte(LEGACY_LAYER_COUNT));
                } else if !command.is_supported(version) {
                    refused = Some(Error::UnsupportedProtocol { version });
                } else if command.is_oversized() {
                    refused = Some(Error::InvalidReportSize);
                }
            },
            Operation::SendRaw(data) => {
                if data.len() > REPORT_SIZE {
                    refused = Some(Error::InvalidReportSize);
                }
            },
            Operation::ReceiveRaw => {},
            Operation::ReadRawMatrix { info, layer } => {
                let layer_size: usize = info.layer_size();
                assert((*layer as nat) * (layer_size as nat) <= 255 * (2 * 255 * 255))
                    by (nonlinear_arith)
                    requires
                        *layer <= 255,
                        layer_size <= 2 * 255 * 255,
                ;
                span = layer_size;
                base = *layer as usize * layer_size;
                if version < PROTOCOL_BUFFERED {
                    refused = Some(Error::UnsupportedProtocol { version });
                } else if base + span > ADDRESS_SPACE {
                    refused = Some(Error::AddressOutOfRange);
                }
            },
            Operation::WriteRawMatrix { keymap, .. } => {
                if version < PROTOCOL_BUFFERED {
                    refused = Some(Error::UnsupportedProtocol { version });
                } else {
                    let words = flatten(keymap);
                    outgoing = split_words(&words);
                    if outgoing.len() > ADDRESS_SPACE {
                        refused = Some(Error::AddressOutOfRange);
                    }
                }
            },
            Operation::GetMacroBytes => {},
            Operation::SetMacroBytes(data) => {
                outgoing = copy_of(data);
            },
        }
        assert(refused == operation.admission(version));
        assert(canned is Some <==> operation.canned(version) is Some);
        let ghost fresh = begin(operation, version).0;
        if let Some(e) = refused {
            let session = Session {
                operation,
                version,
                stage: Stage::Finished,
                round: 0,
                capacity: 0,
                incoming: Vec::new(),
                outgoing,
                base,
                span,
            };
            assert(session@ == fresh);
            return (session, Action::Finish(Outcome::Failed(e)));
        }
        if let Some(value) = canned {
            let session = Session {
                operation,
                version,
                stage: Stage::Finished,
                round: 0,
                capacity: 0,
                incoming: Vec::new(),
                outgoing,
                base,
                span,
            };
            assert(session@ == fresh);
            return (session, Action::Finish(Outcome::Success(value)));
        }
        let nothing_to_do: Option<Value> = match &operation {
            Operation::ReadRawMatrix { .. } => if count_chunks(span) == 0 {
                Some(Value::Words(Vec::new()))
            } else {
                None
            },
            Operation::WriteRawMatrix { .. } => if count_chunks(outgoing.len()) == 0 {
                Some(Value::Unit)
            } else {
                None
            },
            _ => None,
        };
        let to_send: Option<Report> = match &operation {
            Operation::SendRaw(data) => match Report::frame(data) {
                Ok(report) => Some(report),
                Err(_) => unreached(),
            },
            _ => None,
        };
        let stage: Stage = if nothing_to_do.is_some() {
            Stage::Finished
        } else if to_send.is_some() {
            Stage::Sending
        } else if matches!(operation, Operation::ReceiveRaw) {
            Stage::Receiving
        } else {
            Stage::Requesting
        };
        let session = Session {
            operation,
            version,
            stage,
            round: 0,
            capacity: 0,
            incoming: Vec::new(),
            outgoing,
            base,
            span,
        };
        assert(session@ == fresh);
        if let Some(value) = nothing_to_do {
            (session, Action::Finish(Outcome::Success(value)))
        } else if let Some(report) = to_send {
            (session, Action::Send(report))
        } else if let Stage::Receiving = stage {
            (session, Action::Receive)
        } else {
            let report = session.pending_report();
            (session, Action::Send(report))
        }
    }

    /// The request of the pending round trip.
    fn pending(&self) -> (exchange: Exchange)
        requires
            self.stage is Requesting || self.stage is Replying,
        ensures
            exchange@ == self@.operation.exchange_at(self@.version, self@.capacity, self@.round),
            exchange@.well_formed(),
    {
        proof {
            use_type_invariant(self);
            lemma_chunk_bounds(self.span as nat, self.round as nat);
            lemma_chunk_bounds(self.outgoing@.len(), self.round as nat);
            if self.round >= 3 {
                lemma_chunk_bounds(self.outgoing@.len(), (self.round - 3) as nat);
            }
            if self.round >= 1 {
                lemma_chunk_bounds(self.capacity as nat, (self.round - 1) as nat);
            }
        }
        let command: Command = match &self.operation {
            Operation::Single(command) => {
                return match command.exchange(self.version) {
                    Ok(exchange) => exchange,
                    Err(_) => unreached(),
                };
            },
            Operation::ReadRawMatrix { .. } => Command::GetKeymapBuffer {
                offset: (self.base + self.round * CHUNK_SIZE) as u16,
                size: length_of_chunk(self.span, self.round) as u8,
            },
            Operation::WriteRawMatrix { .. } => Command::SetKeymapBuffer {
                offset: (self.round * CHUNK_SIZE) as u16,
                data: copy_chunk(&self.outgoing, self.round),
            },
            Operation::GetMacroBytes => if self.round == 0 {
                Command::GetMacroBufferSize
            } else {
                Command::GetMacroBuffer {
                    offset: ((self.round - 1) * CHUNK_SIZE) as u16,
                    size: CHUNK_SIZE as u8,
                }
            },
            Operation::SetMacroBytes(_) => if self.round == 0 {
                Command::GetMacroBufferSize
            } else if self.round == 1 {
                Command::ResetMacros
            } else if self.round == 2 {
                Command::SetMacroBuffer {
                    offset: self.capacity - 1,
                    data: vec![MACRO_WRITE_PENDING],
                }
            } else if self.round < 3 + count_chunks(self.outgoing.len()) {
                Command::SetMacroBuffer {
                    offset: ((self.round - 3) * CHUNK_SIZE) as u16,
                    data: copy_chunk(&self.outgoing, self.round - 3),
                }
            } else {
                Command::SetMacroBuffer { offset: self.capacity - 1, data: vec![MACRO_WRITE_DONE] }
            },
            _ => unreached(),
        };
        match command.exchange(self.version) {
            Ok(exchange) => {
                assert(exchange@.params =~= self@.operation.exchange_at(
                    self@.version,
                    self@.capacity,
                    self@.round,
                ).params);
                exchange
            },
            Err(_) => unreached(),
        }
    }

    /// The report of the pending round trip.
    fn pending_report(&self) -> (report: Report)
        requires
            self.stage is Requesting,
        ensures
            report@ == self@.request(),
    {
        match self.pending().encode() {
            Ok(report) => report,
            Err(_) => unreached(),
        }
    }

    /// Takes an event and says what to do next.
    pub fn step(self, event: Event) -> (next: (Session, Action))
        ensures
            (next.0@, next.1@) == after(self@, event),
    {
        proof {
            use_type_invariant(&self);
        }
        let ghost before = self@;
        if let Stage::Finished = self.stage {
            return (self, Action::Finish(Outcome::Failed(Error::OutOfSequence)));
        }
        let reply: Report = match (self.stage, event) {
            (_, Event::Failed(e)) => {
                return (self.finish(), Action::Finish(Outcome::Failed(e)));
            },
            (Stage::Sending, Event::Sent) => {
                return (self.finish(), Action::Finish(Outcome::Success(Value::Unit)));
            },
            (Stage::Receiving, Event::Reply(report)) => {
                let bytes = report.to_vec();
                return (self.finish(), Action::Finish(Outcome::Success(Value::Bytes(bytes))));
            },
            (Stage::Requesting, Event::Sent) => {
                let waiting = Session {
                    operation: self.operation,
                    version: self.version,
                    stage: Stage::Replying,
                    round: self.round,
                    capacity: self.capacity,
                    incoming: self.incoming,
                    outgoing: self.outgoing,
                    base: self.base,
                    span: self.span,
                };
                return (waiting, Action::Receive);
            },
            (Stage::Replying, Event::Reply(report)) => report,
            _ => {
                return (self.finish(), Action::Finish(Outcome::Failed(Error::OutOfSequence)));
            },
        };
        let exchange = self.pending();
        if reply.byte(0) != exchange.id.code() {
            let completed: usize = self.round;
            let outcome = if completed == 0 {
                Outcome::Rejected
            } else {
                Outcome::Failed(Error::PartialTransfer { completed })
            };
            return (self.finish(), Action::Finish(outcome));
        }
        let Session { operation, version, stage, round, capacity, incoming, outgoing, base, span } =
            self;
        let known_capacity: u16 = capacity;
        let learns: bool = matches!(operation, Operation::GetMacroBytes)
            || matches!(operation, Operation::SetMacroBytes(_));
        let capacity: u16 = if round == 0 && learns {
            join_word(reply.byte(1), reply.byte(2))
        } else {
            capacity
        };
        let mut incoming = incoming;
        let ghost gathered = operation.gathered(capacity, round as nat, reply@);
        match &operation {
            Operation::ReadRawMatrix { .. } => {
                let piece = reply.window(4, length_of_chunk(span, round));
                append(&mut incoming, &piece);
            },
            Operation::GetMacroBytes => {
                if round > 0 {
                    let piece = reply.window(4, length_of_chunk(capacity as usize, round - 1));
                    append(&mut incoming, &piece);
                }
            },
            _ => {},
        }
        assert(incoming@ =~= before.incoming + gathered);
        if round == 0 && matches!(operation, Operation::SetMacroBytes(_)) && outgoing.len()
            > capacity as usize {
            let actual: usize = outgoing.len();
            let done = Session {
                operation,
                version,
                stage: Stage::Finished,
                round,
                capacity: known_capacity,
                incoming: Vec::new(),
                outgoing,
                base,
                span,
            };
            return (
                done,
                Action::Finish(Outcome::Failed(Error::BufferOverflow { capacity, actual })),
            );
        }
        let total: usize = match &operation {
            Operation::Single(_) => 1,
            Operation::ReadRawMatrix { .. } => count_chunks(span),
            Operation::WriteRawMatrix { .. } => count_chunks(outgoing.len()),
            Operation::GetMacroBytes => 1 + count_chunks(capacity as usize),
            Operation::SetMacroBytes(_) => if capacity == 0 {
                2
            } else {
                4 + count_chunks(outgoing.len())
            },
            _ => 0,
        };
        assert(total == operation.rounds(capacity));
        if round + 1 == total {
            let value: Value = match &operation {
                Operation::Single(_) => exchange.shape.read(&reply),
                Operation::ReadRawMatrix { .. } => Value::Words(join_words(&incoming)),
                Operation::GetMacroBytes => Value::Bytes(incoming),
                _ => Value::Unit,
            };
            let done = Session {
                operation,
                version,
                stage: Stage::Finished,
                round,
                capacity: known_capacity,
                incoming: Vec::new(),
                outgoing,
                base,
                span,
            };
            return (done, Action::Finish(Outcome::Success(value)));
        }
        let next = Session {
            operation,
            version,
            stage: Stage::Requesting,
            round: round + 1,
            capacity,
            incoming,
            outgoing,
            base,
            span,
        };
        let report = next.pending_report();
        (next, Action::Send(report))
    }

    /// The session after the outcome has been handed out.
    fn finish(self) -> (done: Session)
        ensures
            done@ == self@.finished(),
    {
        Session {
            operation: self.operation,
            version: self.version,
            stage: Stage::Finished,
            round: self.round,
            capacity: self.capacity,
            incoming: Vec::new(),
            outgoing: self.outgoing,
            base: self.base,
            span: self.span,
        }
    }
}

/// The keycodes of all layers, layer after layer.
fn flatten(layers: &Vec<Vec<u16>>) -> (words: Vec<u16>)
    ensures
        words@ == flattened(layers@),
{
    let mut words: Vec<u16> = Vec::new();
    let mut i: usize = 0;
    while i < layers.len()
        invariant
            i <= layers@.len(),
            words@ == flattened(layers@.subrange(0, i as int)),
        decreases layers@.len() - i,
    {
        let layer = &layers[i];
        let ghost before = words@;
        let mut j: usize = 0;
        while j < layer.len()
            invariant
                j <= layer@.len(),
                words@ == before + layer@.subrange(0, j as int),
            decreases layer@.len() - j,
        {
            words.push(layer[j]);
            assert(words@ =~= before + layer@.subrange(0, j + 1));
            j += 1;
        }
        assert(layer@.subrange(0, layer@.len() as int) =~= layer@);
        assert(layers@.subrange(0, i + 1).drop_last() =~= layers@.subrange(0, i as int));
        assert(layers@.subrange(0, i + 1).last() == layers@[i as int]);
        i += 1;
    }
    assert(layers@.subrange(0, layers@.len() as int) =~= layers@);
    words
}

/// A copy of `bytes`.
fn copy_of(bytes: &Vec<u8>) -> (copy: Vec<u8>)
    ensures
        copy@ == bytes@,
{
    let mut copy: Vec<u8> = Vec::new();
    append(&mut copy, bytes);
    copy
}

/// Puts a copy of `tail` after what `head` holds.
fn append(head: &mut Vec<u8>, tail: &Vec<u8>)
    ensures
        final(head)@ == old(head)@ + tail@,
{
    let mut i: usize = 0;
    while i < tail.len()
        invariant
            i <= tail@.len(),
            head@ == old(head)@ + tail@.subrange(0, i as int),
        decreases tail@.len() - i,
    {
        head.push(tail[i]);
        assert(head@ =~= old(head)@ + tail@.subrange(0, i + 1));
        i += 1;
    }
    assert(head@ =~= old(head)@ + tail@);
}

} // verus!
