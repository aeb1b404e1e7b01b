//! The operations a caller can ask for, and for each the round trips it
//! takes: one for a plain command, a run of them for a keymap or a macro
//! buffer, which do not fit in one report.

use vstd::prelude::*;
use crate::chunk::{chunk_count, chunk_len, chunk_of, chunk_start};
use crate::codec::{ExchangeView, Shape, ValueView};
use crate::command::{buffer_header, Command};
use crate::error::Error;
use crate::ids::{CommandId, LEGACY_LAYER_COUNT, PROTOCOL_BUFFERED};
use crate::report::{CHUNK_SIZE, REPORT_SIZE};
use crate::word::{bytes_of_words, word_of, words_of_bytes};

verus! {

/// Number of byte offsets that the two offset bytes of a report can tell
/// apart.
pub const ADDRESS_SPACE: usize = 65536;

/// The dimensions of a keymap.
#[derive(Clone, Copy, Debug, PartialEq, Eq)]
pub struct MatrixInfo {
    pub rows: u8,
    pub cols: u8,
}

impl MatrixInfo {
    /// Number of keys on one layer.
    pub open spec fn keys(self) -> nat {
        (self.rows as nat) * (self.cols as nat)
    }

    /// Number of bytes that the keycodes of one layer take.
    pub open spec fn layer_bytes(self) -> nat {
        2 * self.keys()
    }

    /// Number of bytes that the keycodes of one layer take.
    pub fn layer_size(&self) -> (bytes: usize)
        ensures
            bytes == self.layer_bytes(),
            bytes <= 2 * 255 * 255,
    {
        assert((self.rows as nat) * (self.cols as nat) <= 255 * 255) by (nonlinear_arith)
            requires
                self.rows <= 255,
                self.cols <= 255,
        ;
        2 * (self.rows as usize * self.cols as usize)
    }
}

/// An operation of the keyboard interface.
#[derive(Clone, Debug, PartialEq, Eq)]
pub enum Operation {
    /// One command, answered in one round trip.
    Single(Command),
    /// Send bytes as they are, padded to a report, and read nothing.
    SendRaw(Vec<u8>),
    /// Read one report as it is, having sent nothing.
    ReceiveRaw,
    /// Read the keycodes of one layer.
    ReadRawMatrix { info: MatrixInfo, layer: u8 },
    /// Write keycodes, layer after layer, from the start of the keymap.
    WriteRawMatrix { info: MatrixInfo, keymap: Vec<Vec<u16>> },
    /// Read the whole macro buffer.
    GetMacroBytes,
    /// Replace the contents of the macro buffer.
    SetMacroBytes(Vec<u8>),
}

/// The keycodes of all layers, layer after layer.
pub open spec fn flattened(layers: Seq<Vec<u16>>) -> Seq<u16>
    decreases layers.len(),
{
    if layers.len() == 0 {
        Seq::empty()
    } else {
        flattened(layers.drop_last()) + layers.last()@
    }
}

/// The request that asks for `size` bytes of a buffer from `offset` on.
pub open spec fn read_layout(id: CommandId, offset: u16, size: u8) -> ExchangeView {
    ExchangeView {
        id,
        params: buffer_header(offset, size),
        shape: Shape::Bytes { start: 4, len: size },
    }
}

/// The request that stores `data` in a buffer from `offset` on.
pub open spec fn write_layout(id: CommandId, offset: u16, data: Seq<u8>) -> ExchangeView {
    ExchangeView {
        id,
        params: buffer_header(offset, data.len() as u8) + data,
        shape: Shape::Unit,
    }
}

/// The byte stored in the last place of the macro buffer while its
/// contents are being replaced.
pub const MACRO_WRITE_PENDING: u8 = 0xff;

/// The byte stored in the last place of the macro buffer when its contents
/// are complete.
pub const MACRO_WRITE_DONE: u8 = 0x00;

impl Operation {
    /// The bytes that the operation stores on the keyboard: the keycodes
    /// of a keymap, high byte first, or the macro bytes.
    pub open spec fn wire_data(self) -> Seq<u8> {
        match self {
            Operation::WriteRawMatrix { keymap, .. } => bytes_of_words(flattened(keymap@)),
            Operation::SetMacroBytes(data) => data@,
            _ => Seq::empty(),
        }
    }

    /// The byte offset of the first keycode that the operation reads.
    pub open spec fn base(self) -> nat {
        match self {
            Operation::ReadRawMatrix { info, layer } => (layer as nat) * info.layer_bytes(),
            _ => 0,
        }
    }

    /// Number of bytes that the operation reads, as far as that is known
    /// before the keyboard has said anything.
    pub open spec fn span(self) -> nat {
        match self {
            Operation::ReadRawMatrix { info, .. } => info.layer_bytes(),
            _ => 0,
        }
    }

    /// Why the operation cannot even be started on a keyboard that speaks
    /// `version`, if it cannot.
    pub open spec fn admission(self, version: u16) -> Option<Error> {
        match self {
            Operation::Single(command) => if self.canned(version) is Some {
                None
            } else {
                command.refusal(version)
            },
            Operation::SendRaw(data) => if data@.len() > REPORT_SIZE {
                Some(Error::InvalidReportSize)
            } else {
                None
            },
            Operation::ReceiveRaw => None,
            Operation::ReadRawMatrix { .. } => if version < PROTOCOL_BUFFERED {
                Some(Error::UnsupportedProtocol { version })
            } else if self.base() + self.span() > ADDRESS_SPACE {
                Some(Error::AddressOutOfRange)
            } else {
                None
            },
            Operation::WriteRawMatrix { .. } => if version < PROTOCOL_BUFFERED {
                Some(Error::UnsupportedProtocol { version })
            } else if self.wire_data().len() > ADDRESS_SPACE {
                Some(Error::AddressOutOfRange)
            } else {
                None
            },
            Operation::GetMacroBytes => None,
            Operation::SetMacroBytes(_) => None,
        }
    }

    /// The answer that is known without asking the keyboard, if there is
    /// one: a keyboard too old to report its layer count has four layers.
    pub open spec fn canned(self, version: u16) -> Option<ValueView> {
        match self {
            Operation::Single(Command::GetLayerCount) => if version < PROTOCOL_BUFFERED {
                Some(ValueView::Byte(LEGACY_LAYER_COUNT))
            } else {
                None
            },
            _ => None,
        }
    }

    /// Whether the first reply tells the size of the macro buffer.
    pub open spec fn learns_capacity(self) -> bool {
        self is GetMacroBytes || self is SetMacroBytes
    }

    /// Number of round trips the operation takes when every one is
    /// accepted.  `capacity` is the size of the macro buffer, which the
    /// macro operations learn in their first round trip.
    pub open spec fn rounds(self, capacity: u16) -> nat {
        match self {
            Operation::Single(_) => 1,
            Operation::SendRaw(_) => 0,
            Operation::ReceiveRaw => 0,
            Operation::ReadRawMatrix { .. } => chunk_count(self.span()),
            Operation::WriteRawMatrix { .. } => chunk_count(self.wire_data().len()),
            Operation::GetMacroBytes => 1 + chunk_count(capacity as nat),
            Operation::SetMacroBytes(_) => if capacity == 0 {
                2
            } else {
                4 + chunk_count(self.wire_data().len())
            },
        }
    }

    /// The request of round trip `k`.
    ///
    /// A keymap is read and written in pieces of [`CHUNK_SIZE`] bytes at
    /// rising offsets.  The macro buffer is read in such pieces after its
    /// size has been asked for.  It is written by asking for its size,
    /// clearing it, marking its last byte as pending, storing the pieces,
    /// and marking the last byte as done; a buffer of size zero has no
    /// last byte and gets no marks.  An operation that only sends or only
    /// receives takes no round trip, and what is given for it here is
    /// never asked for.
    pub open spec fn exchange_at(self, version: u16, capacity: u16, k: nat) -> ExchangeView {
        match self {
            Operation::Single(command) => command.layout(version),
            Operation::ReadRawMatrix { .. } => read_layout(
                CommandId::DynamicKeymapGetBuffer,
                (self.base() + chunk_start(k)) as u16,
                chunk_len(self.span(), k) as u8,
            ),
            Operation::WriteRawMatrix { .. } => write_layout(
                CommandId::DynamicKeymapSetBuffer,
                chunk_start(k) as u16,
                chunk_of(self.wire_data(), k),
            ),
            Operation::GetMacroBytes => if k == 0 {
                Command::GetMacroBufferSize.layout(version)
            } else {
                read_layout(
                    CommandId::DynamicKeymapMacroGetBuffer,
                    chunk_start((k - 1) as nat) as u16,
                    CHUNK_SIZE as u8,
                )
            },
            Operation::SetMacroBytes(_) => if k == 0 {
                Command::GetMacroBufferSize.layout(version)
            } else if k == 1 {
                Command::ResetMacros.layout(version)
            } else if k == 2 {
                write_layout(
                    CommandId::DynamicKeymapMacroSetBuffer,
                    (capacity - 1) as u16,
                    seq![MACRO_WRITE_PENDING],
                )
            } else if k < 3 + chunk_count(self.wire_data().len()) {
                write_layout(
                    CommandId::DynamicKeymapMacroSetBuffer,
                    chunk_start((k - 3) as nat) as u16,
                    chunk_of(self.wire_data(), (k - 3) as nat),
                )
            } else {
                write_layout(
                    CommandId::DynamicKeymapMacroSetBuffer,
                    (capacity - 1) as u16,
                    seq![MACRO_WRITE_DONE],
                )
            },
            _ => Command::GetProtocolVersion.layout(version),
        }
    }

    /// The bytes that the reply of round trip `k` adds to what has been
    /// read: the piece it carries, without what pads the last piece.
    pub open spec fn gathered(self, capacity: u16, k: nat, reply: Seq<u8>) -> Seq<u8> {
        match self {
            Operation::ReadRawMatrix { .. } => reply.subrange(
                4,
                4 + chunk_len(self.span(), k) as int,
            ),
            Operation::GetMacroBytes => if k == 0 {
                Seq::empty()
            } else {
                reply.subrange(4, 4 + chunk_len(capacity as nat, (k - 1) as nat) as int)
            },
            _ => Seq::empty(),
        }
    }

    /// The result of the operation once its last round trip is accepted:
    /// `incoming` is all that was read, `reply` the last reply.
    pub open spec fn result(self, version: u16, incoming: Seq<u8>, reply: Seq<u8>) -> ValueView {
        match self {
            Operation::Single(command) => command.layout(version).shape.extract(reply),
            Operation::ReadRawMatrix { .. } => ValueView::Words(words_of_bytes(incoming)),
            Operation::GetMacroBytes => ValueView::Bytes(incoming),
            _ => ValueView::Unit,
        }
    }

    /// The result of the operation when it takes no round trip at all.
    pub open spec fn empty_result(self) -> ValueView {
        match self {
            Operation::ReadRawMatrix { .. } => ValueView::Words(Seq::empty()),
            _ => ValueView::Unit,
        }
    }
}

/// The size of the macro buffer that a reply to the question for it
/// reports.
pub open spec fn reported_capacity(reply: Seq<u8>) -> u16 {
    word_of(reply[1], reply[2])
}

} // verus!
