//! The commands of the protocol and the table that lays each one out.

use vstd::prelude::*;
use crate::codec::{Exchange, ExchangeView, Shape};
use crate::error::Error;
use crate::ids::{
    CommandId, KeyboardValue, Light, LightColor, Slot, PROTOCOL_BUFFERED, PROTOCOL_CHANNELS,
};
use crate::report::{CHUNK_SIZE, REPORT_SIZE};
use crate::word::{high_byte, low_byte, split_word};

verus! {

/// One command: what is asked of the keyboard in a single round trip.
#[derive(Clone, Debug, PartialEq, Eq)]
pub enum Command {
    /// Ask for the protocol version.
    GetProtocolVersion,
    /// Ask for the number of layers.
    GetLayerCount,
    /// Ask for the keycode at a position.
    GetKey { layer: u8, row: u8, col: u8 },
    /// Store a keycode at a position.
    SetKey { layer: u8, row: u8, col: u8, keycode: u16 },
    /// Ask for `result_length` bytes of a keyboard value.
    GetKeyboardValue { slot: KeyboardValue, params: Vec<u8>, result_length: u8 },
    /// Store a keyboard value.
    SetKeyboardValue { slot: KeyboardValue, params: Vec<u8> },
    /// Ask for the keycode an encoder sends in one direction.
    GetEncoder { layer: u8, id: u8, clockwise: bool },
    /// Store the keycode an encoder sends in one direction.
    SetEncoder { layer: u8, id: u8, clockwise: bool, keycode: u16 },
    /// Ask for a custom menu value.
    GetCustomMenuValue(Vec<u8>),
    /// Store a custom menu value.
    SetCustomMenuValue(Vec<u8>),
    /// Make the custom menu values of a channel permanent.
    SaveCustomMenu(u8),
    /// Ask for a one-byte lighting setting.
    GetLight(Light),
    /// Store a one-byte lighting setting.
    SetLight(Light, u8),
    /// Ask for the hue and saturation of a lighting colour.
    GetColor(LightColor),
    /// Store the hue and saturation of a lighting colour.
    SetColor(LightColor, u8, u8),
    /// Make the lighting settings permanent.
    SaveLighting,
    /// Clear the stored settings, keymaps and macros.
    ResetEeprom,
    /// Restart the keyboard in its bootloader.
    JumpToBootloader,
    /// Ask for the number of macros.
    GetMacroCount,
    /// Ask for the size of the macro buffer in bytes.
    GetMacroBufferSize,
    /// Clear the macro buffer.
    ResetMacros,
    /// Ask for `size` bytes of the keymap from a byte offset.
    GetKeymapBuffer { offset: u16, size: u8 },
    /// Store bytes in the keymap at a byte offset.
    SetKeymapBuffer { offset: u16, data: Vec<u8> },
    /// Ask for `size` bytes of the macro buffer from a byte offset.
    GetMacroBuffer { offset: u16, size: u8 },
    /// Store bytes in the macro buffer at a byte offset.
    SetMacroBuffer { offset: u16, data: Vec<u8> },
}

/// The two bytes of an offset, high byte first, then a length byte.
pub open spec fn buffer_header(offset: u16, len: u8) -> Seq<u8> {
    seq![high_byte(offset), low_byte(offset), len]
}

impl Command {
    /// Whether a keyboard that speaks `version` has the command.
    pub open spec fn supported(self, version: u16) -> bool {
        match self {
            Command::GetKeyboardValue { slot, .. } => slot.available(version),
            Command::SetKeyboardValue { slot, .. } => slot.available(version),
            Command::GetCustomMenuValue(_) => version >= PROTOCOL_CHANNELS,
            Command::SetCustomMenuValue(_) => version >= PROTOCOL_CHANNELS,
            Command::SaveCustomMenu(_) => version >= PROTOCOL_CHANNELS,
            Command::GetLight(light) => light.slot().available(version),
            Command::SetLight(light, _) => light.slot().available(version),
            Command::GetColor(color) => color.slot().available(version),
            Command::SetColor(color, _, _) => color.slot().available(version),
            Command::GetKeymapBuffer { .. } => version >= PROTOCOL_BUFFERED,
            Command::SetKeymapBuffer { .. } => version >= PROTOCOL_BUFFERED,
            _ => true,
        }
    }

    /// Whether the request or the result of the command needs more room
    /// than a report has.
    pub open spec fn oversized(self) -> bool {
        match self {
            Command::GetKeyboardValue { params, result_length, .. } => 2 + params@.len()
                + result_length > REPORT_SIZE,
            Command::SetKeyboardValue { params, .. } => 2 + params@.len() > REPORT_SIZE,
            Command::GetCustomMenuValue(bytes) => 1 + bytes@.len() > REPORT_SIZE,
            Command::SetCustomMenuValue(bytes) => 1 + bytes@.len() > REPORT_SIZE,
            Command::GetKeymapBuffer { size, .. } => size > CHUNK_SIZE,
            Command::SetKeymapBuffer { data, .. } => data@.len() > CHUNK_SIZE,
            Command::GetMacroBuffer { size, .. } => size > CHUNK_SIZE,
            Command::SetMacroBuffer { data, .. } => data@.len() > CHUNK_SIZE,
            _ => false,
        }
    }

    /// Why the command cannot be sent to a keyboard that speaks `version`,
    /// if it cannot.
    pub open spec fn refusal(self, version: u16) -> Option<Error> {
        if !self.supported(version) {
            Some(Error::UnsupportedProtocol { version })
        } else if self.oversized() {
            Some(Error::InvalidReportSize)
        } else {
            None
        }
    }

    /// The table of the protocol: for each command the id it is sent
    /// under, the parameter bytes in their order, and the place of the
    /// result in the reply.  Sixteen-bit parameters and results have their
    /// high byte first.
    pub open spec fn layout(self, version: u16) -> ExchangeView {
        match self {
            Command::GetProtocolVersion => ExchangeView {
                id: CommandId::GetProtocolVersion,
                params: seq![],
                shape: Shape::Word { at: 1 },
            },
            Command::GetLayerCount => ExchangeView {
                id: CommandId::DynamicKeymapGetLayerCount,
                params: seq![],
                shape: Shape::Byte { at: 1 },
            },
            Command::GetKey { layer, row, col } => ExchangeView {
                id: CommandId::DynamicKeymapGetKeycode,
                params: seq![layer, row, col],
                shape: Shape::Word { at: 4 },
            },
            Command::SetKey { layer, row, col, keycode } => ExchangeView {
                id: CommandId::DynamicKeymapSetKeycode,
                params: seq![layer, row, col, high_byte(keycode), low_byte(keycode)],
                shape: Shape::Word { at: 4 },
            },
            Command::GetKeyboardValue { slot, params, result_length } => ExchangeView {
                id: CommandId::GetKeyboardValue,
                params: seq![slot.wire()] + params@,
                shape: Shape::Bytes { start: (2 + params@.len()) as u8, len: result_length },
            },
            Command::SetKeyboardValue { slot, params } => ExchangeView {
                id: CommandId::SetKeyboardValue,
                params: seq![slot.wire()] + params@,
                shape: Shape::Unit,
            },
            Command::GetEncoder { layer, id, clockwise } => ExchangeView {
                id: CommandId::DynamicKeymapGetEncoder,
                params: seq![layer, id, flag(clockwise)],
                shape: Shape::Word { at: 4 },
            },
            Command::SetEncoder { layer, id, clockwise, keycode } => ExchangeView {
                id: CommandId::DynamicKeymapSetEncoder,
                params: seq![layer, id, flag(clockwise), high_byte(keycode), low_byte(keycode)],
                shape: Shape::Unit,
            },
            Command::GetCustomMenuValue(bytes) => ExchangeView {
                id: CommandId::CustomMenuGetValue,
                params: bytes@,
                shape: Shape::Bytes { start: 0, len: bytes@.len() as u8 },
            },
            Command::SetCustomMenuValue(bytes) => ExchangeView {
                id: CommandId::CustomMenuSetValue,
                params: bytes@,
                shape: Shape::Unit,
            },
            Command::SaveCustomMenu(channel) => ExchangeView {
                id: CommandId::CustomMenuSave,
                params: seq![channel],
                shape: Shape::Unit,
            },
            Command::GetLight(light) => ExchangeView {
                id: CommandId::CustomMenuGetValue,
                params: light.slot().address(version),
                shape: Shape::Byte { at: value_position(version) },
            },
            Command::SetLight(light, value) => ExchangeView {
                id: CommandId::CustomMenuSetValue,
                params: light.slot().address(version) + seq![value],
                shape: Shape::Unit,
            },
            Command::GetColor(color) => ExchangeView {
                id: CommandId::CustomMenuGetValue,
                params: color.slot().address(version),
                shape: Shape::Pair { at: value_position(version) },
            },
            Command::SetColor(color, hue, saturation) => ExchangeView {
                id: CommandId::CustomMenuSetValue,
                params: color.slot().address(version) + seq![hue, saturation],
                shape: Shape::Unit,
            },
            Command::SaveLighting => ExchangeView {
                id: CommandId::CustomMenuSave,
                params: seq![],
                shape: Shape::Unit,
            },
            Command::ResetEeprom => ExchangeView {
                id: CommandId::EepromReset,
                params: seq![],
                shape: Shape::Unit,
            },
            Command::JumpToBootloader => ExchangeView {
                id: CommandId::BootloaderJump,
                params: seq![],
                shape: Shape::Unit,
            },
            Command::GetMacroCount => ExchangeView {
                id: CommandId::DynamicKeymapMacroGetCount,
                params: seq![],
                shape: Shape::Byte { at: 1 },
            },
            Command::GetMacroBufferSize => ExchangeView {
                id: CommandId::DynamicKeymapMacroGetBufferSize,
                params: seq![],
                shape: Shape::Word { at: 1 },
            },
            Command::ResetMacros => ExchangeView {
                id: CommandId::DynamicKeymapMacroReset,
                params: seq![],
                shape: Shape::Unit,
            },
            Command::GetKeymapBuffer { offset, size } => ExchangeView {
                id: CommandId::DynamicKeymapGetBuffer,
                params: buffer_header(offset, size),
                shape: Shape::Bytes { start: 4, len: size },
            },
            Command::SetKeymapBuffer { offset, data } => ExchangeView {
                id: CommandId::DynamicKeymapSetBuffer,
                params: buffer_header(offset, data@.len() as u8) + data@,
                shape: Shape::Unit,
            },
            Command::GetMacroBuffer { offset, size } => ExchangeView {
                id: CommandId::DynamicKeymapMacroGetBuffer,
                params: buffer_header(offset, size),
                shape: Shape::Bytes { start: 4, len: size },
            },
            Command::SetMacroBuffer { offset, data } => ExchangeView {
                id: CommandId::DynamicKeymapMacroSetBuffer,
                params: buffer_header(offset, data@.len() as u8) + data@,
                shape: Shape::Unit,
            },
        }
    }

    /// Whether a keyboard that speaks `version` has the command.
    pub fn is_supported(&self, version: u16) -> (yes: bool)
        ensures
            yes == self.supported(version),
    {
        match self {
            Command::GetKeyboardValue { slot, .. } => slot.is_available(version),
            Command::SetKeyboardValue { slot, .. } => slot.is_available(version),
            Command::GetCustomMenuValue(_) => version >= PROTOCOL_CHANNELS,
            Command::SetCustomMenuValue(_) => version >= PROTOCOL_CHANNELS,
            Command::SaveCustomMenu(_) => version >= PROTOCOL_CHANNELS,
            Command::GetLight(light) => has_slot(light.locate(), version),
            Command::SetLight(light, _) => has_slot(light.locate(), version),
            Command::GetColor(color) => has_slot(color.locate(), version),
            Command::SetColor(color, _, _) => has_slot(color.locate(), version),
            Command::GetKeymapBuffer { .. } => version >= PROTOCOL_BUFFERED,
            Command::SetKeymapBuffer { .. } => version >= PROTOCOL_BUFFERED,
            _ => true,
        }
    }

    /// Whether the request or the result of the command needs more room
    /// than a report has.
    pub fn is_oversized(&self) -> (yes: bool)
        ensures
            yes == self.oversized(),
    {
        match self {
            Command::GetKeyboardValue { params, result_length, .. } => params.len() > REPORT_SIZE
                - 2 || *result_length as usize > REPORT_SIZE - 2 - params.len(),
            Command::SetKeyboardValue { params, .. } => params.len() > REPORT_SIZE - 2,
            Command::GetCustomMenuValue(bytes) => bytes.len() > REPORT_SIZE - 1,
            Command::SetCustomMenuValue(bytes) => bytes.len() > REPORT_SIZE - 1,
            Command::GetKeymapBuffer { size, .. } => *size as usize > CHUNK_SIZE,
            Command::SetKeymapBuffer { data, .. } => data.len() > CHUNK_SIZE,
            Command::GetMacroBuffer { size, .. } => *size as usize > CHUNK_SIZE,
            Command::SetMacroBuffer { data, .. } => data.len() > CHUNK_SIZE,
            _ => false,
        }
    }

    /// Looks the command up in the table.  A command that the protocol
    /// version lacks is refused as unsupported; one that is supported but
    /// needs more room than a report has is refused for its size.
    pub fn exchange(&self, version: u16) -> (looked_up: Result<Exchange, Error>)
        ensures
            match looked_up {
                Ok(exchange) => self.refusal(version) is None && exchange@ == self.layout(
                    version,
                ) && exchange@.well_formed(),
                Err(e) => self.refusal(version) == Some(e),
            },
    {
        if !self.is_supported(version) {
            return Err(Error::UnsupportedProtocol { version });
        }
        if self.is_oversized() {
            return Err(Error::InvalidReportSize);
        }
        let exchange = match self {
            Command::GetProtocolVersion => Exchange {
                id: CommandId::GetProtocolVersion,
                params: Vec::new(),
                shape: Shape::Word { at: 1 },
            },
            Command::GetLayerCount => Exchange {
                id: CommandId::DynamicKeymapGetLayerCount,
                params: Vec::new(),
                shape: Shape::Byte { at: 1 },
            },
            Command::GetKey { layer, row, col } => Exchange {
                id: CommandId::DynamicKeymapGetKeycode,
                params: vec![*layer, *row, *col],
                shape: Shape::Word { at: 4 },
            },
            Command::SetKey { layer, row, col, keycode } => {
                let (hi, lo) = split_word(*keycode);
                Exchange {
                    id: CommandId::DynamicKeymapSetKeycode,
                    params: vec![*layer, *row, *col, hi, lo],
                    shape: Shape::Word { at: 4 },
                }
            },
            Command::GetKeyboardValue { slot, params, result_length } => Exchange {
                id: CommandId::GetKeyboardValue,
                params: joined(vec![slot.code()], params),
                shape: Shape::Bytes { start: (2 + params.len()) as u8, len: *result_length },
            },
            Command::SetKeyboardValue { slot, params } => Exchange {
                id: CommandId::SetKeyboardValue,
                params: joined(vec![slot.code()], params),
                shape: Shape::Unit,
            },
            Command::GetEncoder { layer, id, clockwise } => Exchange {
                id: CommandId::DynamicKeymapGetEncoder,
                params: vec![*layer, *id, flag_byte(*clockwise)],
                shape: Shape::Word { at: 4 },
            },
            Command::SetEncoder { layer, id, clockwise, keycode } => {
                let (hi, lo) = split_word(*keycode);
                Exchange {
                    id: CommandId::DynamicKeymapSetEncoder,
                    params: vec![*layer, *id, flag_byte(*clockwise), hi, lo],
                    shape: Shape::Unit,
                }
            },
            Command::GetCustomMenuValue(bytes) => Exchange {
                id: CommandId::CustomMenuGetValue,
                params: joined(Vec::new(), bytes),
                shape: Shape::Bytes { start: 0, len: bytes.len() as u8 },
            },
            Command::SetCustomMenuValue(bytes) => Exchange {
                id: CommandId::CustomMenuSetValue,
                params: joined(Vec::new(), bytes),
                shape: Shape::Unit,
            },
            Command::SaveCustomMenu(channel) => Exchange {
                id: CommandId::CustomMenuSave,
                params: vec![*channel],
                shape: Shape::Unit,
            },
            Command::GetLight(light) => Exchange {
                id: CommandId::CustomMenuGetValue,
                params: slot_address(light.locate(), version),
                shape: Shape::Byte { at: position_of_value(version) },
            },
            Command::SetLight(light, value) => Exchange {
                id: CommandId::CustomMenuSetValue,
                params: joined(slot_address(light.locate(), version), &vec![*value]),
                shape: Shape::Unit,
            },
            Command::GetColor(color) => Exchange {
                id: CommandId::CustomMenuGetValue,
                params: slot_address(color.locate(), version),
                shape: Shape::Pair { at: position_of_value(version) },
            },
            Command::SetColor(color, hue, saturation) => Exchange {
                id: CommandId::CustomMenuSetValue,
                params: joined(slot_address(color.locate(), version), &vec![*hue, *saturation]),
                shape: Shape::Unit,
            },
            Command::SaveLighting => Exchange {
                id: CommandId::CustomMenuSave,
                params: Vec::new(),
                shape: Shape::Unit,
            },
            Command::ResetEeprom => Exchange {
                id: CommandId::EepromReset,
                params: Vec::new(),
                shape: Shape::Unit,
            },
            Command::JumpToBootloader => Exchange {
                id: CommandId::BootloaderJump,
                params: Vec::new(),
                shape: Shape::Unit,
            },
            Command::GetMacroCount => Exchange {
                id: CommandId::DynamicKeymapMacroGetCount,
                params: Vec::new(),
                shape: Shape::Byte { at: 1 },
            },
            Command::GetMacroBufferSize => Exchange {
                id: CommandId::DynamicKeymapMacroGetBufferSize,
                params: Vec::new(),
                shape: Shape::Word { at: 1 },
            },
            Command::ResetMacros => Exchange {
                id: CommandId::DynamicKeymapMacroReset,
                params: Vec::new(),
                shape: Shape::Unit,
            },
            Command::GetKeymapBuffer { offset, size } => Exchange {
                id: CommandId::DynamicKeymapGetBuffer,
                params: header_bytes(*offset, *size),
                shape: Shape::Bytes { start: 4, len: *size },
            },
            Command::SetKeymapBuffer { offset, data } => Exchange {
                id: CommandId::DynamicKeymapSetBuffer,
                params: joined(header_bytes(*offset, data.len() as u8), data),
                shape: Shape::Unit,
            },
            Command::GetMacroBuffer { offset, size } => Exchange {
                id: CommandId::DynamicKeymapMacroGetBuffer,
                params: header_bytes(*offset, *size),
                shape: Shape::Bytes { start: 4, len: *size },
            },
            Command::SetMacroBuffer { offset, data } => Exchange {
                id: CommandId::DynamicKeymapMacroSetBuffer,
                params: joined(header_bytes(*offset, data.len() as u8), data),
                shape: Shape::Unit,
            },
        };
        assert(exchange@.params =~= self.layout(version).params);
        Ok(exchange)
    }
}

/// The byte that stands for a direction or a switch: one for yes, zero for
/// no.
pub open spec fn flag(on: bool) -> u8 {
    if on {
        1
    } else {
        0
    }
}

/// The position in a reply of the value of a lighting setting: after the
/// command id and the bytes that address the setting.
pub open spec fn value_position(version: u16) -> u8 {
    if version >= PROTOCOL_CHANNELS {
        3
    } else {
        2
    }
}

fn flag_byte(on: bool) -> (b: u8)
    ensures
        b == flag(on),
{
    if on {
        1
    } else {
        0
    }
}

fn position_of_value(version: u16) -> (at: u8)
    ensures
        at == value_position(version),
{
    if version >= PROTOCOL_CHANNELS {
        3
    } else {
        2
    }
}

fn has_slot(slot: Slot, version: u16) -> (yes: bool)
    ensures
        yes == slot.available(version),
{
    version >= PROTOCOL_CHANNELS || slot.legacy.is_some()
}

fn slot_address(slot: Slot, version: u16) -> (address: Vec<u8>)
    requires
        slot.available(version),
    ensures
        address@ == slot.address(version),
{
    if version >= PROTOCOL_CHANNELS {
        vec![slot.channel, slot.value]
    } else {
        match slot.legacy {
            Some(id) => vec![id],
            None => Vec::new(),
        }
    }
}

fn header_bytes(offset: u16, len: u8) -> (header: Vec<u8>)
    ensures
        header@ == buffer_header(offset, len),
{
    let (hi, lo) = split_word(offset);
    vec![hi, lo, len]
}

/// `head` with a copy of `tail` after it.
fn joined(head: Vec<u8>, tail: &Vec<u8>) -> (all: Vec<u8>)
    ensures
        all@ == head@ + tail@,
{
    let mut all = head;
    let mut i: usize = 0;
    while i < tail.len()
        invariant
            i <= tail@.len(),
            all@ == head@ + tail@.subrange(0, i as int),
        decreases tail@.len() - i,
    {
        all.push(tail[i]);
        assert(all@ =~= head@ + tail@.subrange(0, i + 1));
        i += 1;
    }
    assert(all@ =~= head@ + tail@);
    all
}

} // verus!
