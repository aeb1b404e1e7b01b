//! The numbers the protocol assigns: command ids, lighting channels, the
//! value slots within a channel, and the keyboard value slots.

use vstd::prelude::*;

verus! {

/// First protocol version with the layer-count and keymap-buffer commands.
pub const PROTOCOL_BUFFERED: u16 = 8;

/// First protocol version that addresses lighting by channel and value, and
/// that has the custom menu, RGB matrix and LED matrix commands.
pub const PROTOCOL_CHANNELS: u16 = 11;

/// Layer count of a keyboard too old to report one.
pub const LEGACY_LAYER_COUNT: u8 = 4;

/// The command a report carries in its first byte.
#[derive(Clone, Copy, Debug, PartialEq, Eq)]
pub enum CommandId {
    GetProtocolVersion,
    GetKeyboardValue,
    SetKeyboardValue,
    DynamicKeymapGetKeycode,
    DynamicKeymapSetKeycode,
    DynamicKeymapClearAll,
    CustomMenuSetValue,
    CustomMenuGetValue,
    CustomMenuSave,
    EepromReset,
    BootloaderJump,
    DynamicKeymapMacroGetCount,
    DynamicKeymapMacroGetBufferSize,
    DynamicKeymapMacroGetBuffer,
    DynamicKeymapMacroSetBuffer,
    DynamicKeymapMacroReset,
    DynamicKeymapGetLayerCount,
    DynamicKeymapGetBuffer,
    DynamicKeymapSetBuffer,
    DynamicKeymapGetEncoder,
    DynamicKeymapSetEncoder,
}

impl CommandId {
    /// The byte that stands for the command on the wire.
    pub open spec fn wire(self) -> u8 {
        match self {
            CommandId::GetProtocolVersion => 0x01,
            CommandId::GetKeyboardValue => 0x02,
            CommandId::SetKeyboardValue => 0x03,
            CommandId::DynamicKeymapGetKeycode => 0x04,
            CommandId::DynamicKeymapSetKeycode => 0x05,
            CommandId::DynamicKeymapClearAll => 0x06,
            CommandId::CustomMenuSetValue => 0x07,
            CommandId::CustomMenuGetValue => 0x08,
            CommandId::CustomMenuSave => 0x09,
            CommandId::EepromReset => 0x0a,
            CommandId::BootloaderJump => 0x0b,
            CommandId::DynamicKeymapMacroGetCount => 0x0c,
            CommandId::DynamicKeymapMacroGetBufferSize => 0x0d,
            CommandId::DynamicKeymapMacroGetBuffer => 0x0e,
            CommandId::DynamicKeymapMacroSetBuffer => 0x0f,
            CommandId::DynamicKeymapMacroReset => 0x10,
            CommandId::DynamicKeymapGetLayerCount => 0x11,
            CommandId::DynamicKeymapGetBuffer => 0x12,
            CommandId::DynamicKeymapSetBuffer => 0x13,
            CommandId::DynamicKeymapGetEncoder => 0x14,
            CommandId::DynamicKeymapSetEncoder => 0x15,
        }
    }

    /// The byte that stands for the command on the wire.
    pub fn code(self) -> (c: u8)
        ensures
            c == self.wire(),
    {
        match self {
            CommandId::GetProtocolVersion => 0x01,
            CommandId::GetKeyboardValue => 0x02,
            CommandId::SetKeyboardValue => 0x03,
            CommandId::DynamicKeymapGetKeycode => 0x04,
            CommandId::DynamicKeymapSetKeycode => 0x05,
            CommandId::DynamicKeymapClearAll => 0x06,
            CommandId::CustomMenuSetValue => 0x07,
            CommandId::CustomMenuGetValue => 0x08,
            CommandId::CustomMenuSave => 0x09,
            CommandId::EepromReset => 0x0a,
            CommandId::BootloaderJump => 0x0b,
            CommandId::DynamicKeymapMacroGetCount => 0x0c,
            CommandId::DynamicKeymapMacroGetBufferSize => 0x0d,
            CommandId::DynamicKeymapMacroGetBuffer => 0x0e,
            CommandId::DynamicKeymapMacroSetBuffer => 0x0f,
            CommandId::DynamicKeymapMacroReset => 0x10,
            CommandId::DynamicKeymapGetLayerCount => 0x11,
            CommandId::DynamicKeymapGetBuffer => 0x12,
            CommandId::DynamicKeymapSetBuffer => 0x13,
            CommandId::DynamicKeymapGetEncoder => 0x14,
            CommandId::DynamicKeymapSetEncoder => 0x15,
        }
    }

    /// The command that a byte stands for, if any.
    pub fn from_code(c: u8) -> (id: Option<CommandId>)
        ensures
            match id {
                Some(found) => found.wire() == c,
                None => forall|other: CommandId| other.wire() != c,
            },
    {
        match c {
            0x01 => Some(CommandId::GetProtocolVersion),
            0x02 => Some(CommandId::GetKeyboardValue),
            0x03 => Some(CommandId::SetKeyboardValue),
            0x04 => Some(CommandId::DynamicKeymapGetKeycode),
            0x05 => Some(CommandId::DynamicKeymapSetKeycode),
            0x06 => Some(CommandId::DynamicKeymapClearAll),
            0x07 => Some(CommandId::CustomMenuSetValue),
            0x08 => Some(CommandId::CustomMenuGetValue),
            0x09 => Some(CommandId::CustomMenuSave),
            0x0a => Some(CommandId::EepromReset),
            0x0b => Some(CommandId::BootloaderJump),
            0x0c => Some(CommandId::DynamicKeymapMacroGetCount),
            0x0d => Some(CommandId::DynamicKeymapMacroGetBufferSize),
            0x0e => Some(CommandId::DynamicKeymapMacroGetBuffer),
            0x0f => Some(CommandId::DynamicKeymapMacroSetBuffer),
            0x10 => Some(CommandId::DynamicKeymapMacroReset),
            0x11 => Some(CommandId::DynamicKeymapGetLayerCount),
            0x12 => Some(CommandId::DynamicKeymapGetBuffer),
            0x13 => Some(CommandId::DynamicKeymapSetBuffer),
            0x14 => Some(CommandId::DynamicKeymapGetEncoder),
            0x15 => Some(CommandId::DynamicKeymapSetEncoder),
            _ => None,
        }
    }
}

/// A slot of the generic keyboard-value commands.
#[derive(Clone, Copy, Debug, PartialEq, Eq)]
pub enum KeyboardValue {
    Uptime,
    LayoutOptions,
    SwitchMatrixState,
    FirmwareVersion,
    DeviceIndication,
}

impl KeyboardValue {
    /// The byte that stands for the slot on the wire.
    pub open spec fn wire(self) -> u8 {
        match self {
            KeyboardValue::Uptime => 0x01,
            KeyboardValue::LayoutOptions => 0x02,
            KeyboardValue::SwitchMatrixState => 0x03,
            KeyboardValue::FirmwareVersion => 0x04,
            KeyboardValue::DeviceIndication => 0x05,
        }
    }

    /// Whether a keyboard that speaks `version` has the slot.
    pub open spec fn available(self, version: u16) -> bool {
        match self {
            KeyboardValue::FirmwareVersion | KeyboardValue::DeviceIndication => version
                >= PROTOCOL_CHANNELS,
            _ => true,
        }
    }

    /// The byte that stands for the slot on the wire.
    pub fn code(self) -> (c: u8)
        ensures
            c == self.wire(),
    {
        match self {
            KeyboardValue::Uptime => 0x01,
            KeyboardValue::LayoutOptions => 0x02,
            KeyboardValue::SwitchMatrixState => 0x03,
            KeyboardValue::FirmwareVersion => 0x04,
            KeyboardValue::DeviceIndication => 0x05,
        }
    }

    /// Whether a keyboard that speaks `version` has the slot.
    pub fn is_available(self, version: u16) -> (yes: bool)
        ensures
            yes == self.available(version),
    {
        match self {
            KeyboardValue::FirmwareVersion | KeyboardValue::DeviceIndication => version
                >= PROTOCOL_CHANNELS,
            _ => true,
        }
    }
}

/// A lighting setting that holds one byte.
#[derive(Clone, Copy, Debug, PartialEq, Eq)]
pub enum Light {
    BacklightBrightness,
    BacklightEffect,
    RgblightBrightness,
    RgblightEffect,
    RgblightEffectSpeed,
    RgbMatrixBrightness,
    RgbMatrixEffect,
    RgbMatrixEffectSpeed,
    LedMatrixBrightness,
    LedMatrixEffect,
    LedMatrixEffectSpeed,
}

/// A lighting setting that holds a hue and a saturation.
#[derive(Clone, Copy, Debug, PartialEq, Eq)]
pub enum LightColor {
    Rgblight,
    RgbMatrix,
}

/// Where a lighting setting lives: the channel and the value within it that
/// newer keyboards use, and the single id that older keyboards use, if they
/// have the setting at all.
#[derive(Clone, Copy, Debug, PartialEq, Eq)]
pub struct Slot {
    pub channel: u8,
    pub value: u8,
    pub legacy: Option<u8>,
}

impl Slot {
    /// The bytes that address the slot in a report for `version`.
    pub open spec fn address(self, version: u16) -> Seq<u8> {
        if version >= PROTOCOL_CHANNELS {
            seq![self.channel, self.value]
        } else {
            seq![self.legacy.unwrap()]
        }
    }

    /// Whether a keyboard that speaks `version` has the slot.
    pub open spec fn available(self, version: u16) -> bool {
        version >= PROTOCOL_CHANNELS || self.legacy is Some
    }
}

impl Light {
    /// Where the setting lives.
    pub open spec fn slot(self) -> Slot {
        match self {
            Light::BacklightBrightness => Slot { channel: 1, value: 1, legacy: Some(0x09u8) },
            Light::BacklightEffect => Slot { channel: 1, value: 2, legacy: Some(0x0au8) },
            Light::RgblightBrightness => Slot { channel: 2, value: 1, legacy: Some(0x80u8) },
            Light::RgblightEffect => Slot { channel: 2, value: 2, legacy: Some(0x81u8) },
            Light::RgblightEffectSpeed => Slot { channel: 2, value: 3, legacy: Some(0x82u8) },
            Light::RgbMatrixBrightness => Slot { channel: 3, value: 1, legacy: None },
            Light::RgbMatrixEffect => Slot { channel: 3, value: 2, legacy: None },
            Light::RgbMatrixEffectSpeed => Slot { channel: 3, value: 3, legacy: None },
            Light::LedMatrixBrightness => Slot { channel: 5, value: 1, legacy: None },
            Light::LedMatrixEffect => Slot { channel: 5, value: 2, legacy: None },
            Light::LedMatrixEffectSpeed => Slot { channel: 5, value: 3, legacy: None },
        }
    }

    /// Where the setting lives.
    pub fn locate(self) -> (s: Slot)
        ensures
            s == self.slot(),
    {
        match self {
            Light::BacklightBrightness => Slot { channel: 1, value: 1, legacy: Some(0x09u8) },
            Light::BacklightEffect => Slot { channel: 1, value: 2, legacy: Some(0x0au8) },
            Light::RgblightBrightness => Slot { channel: 2, value: 1, legacy: Some(0x80u8) },
            Light::RgblightEffect => Slot { channel: 2, value: 2, legacy: Some(0x81u8) },
            Light::RgblightEffectSpeed => Slot { channel: 2, value: 3, legacy: Some(0x82u8) },
            Light::RgbMatrixBrightness => Slot { channel: 3, value: 1, legacy: None },
            Light::RgbMatrixEffect => Slot { channel: 3, value: 2, legacy: None },
            Light::RgbMatrixEffectSpeed => Slot { channel: 3, value: 3, legacy: None },
            Light::LedMatrixBrightness => Slot { channel: 5, value: 1, legacy: None },
            Light::LedMatrixEffect => Slot { channel: 5, value: 2, legacy: None },
            Light::LedMatrixEffectSpeed => Slot { channel: 5, value: 3, legacy: None },
        }
    }
}

impl LightColor {
    /// Where the setting lives.
    pub open spec fn slot(self) -> Slot {
        match self {
            LightColor::Rgblight => Slot { channel: 2, value: 4, legacy: Some(0x83u8) },
            LightColor::RgbMatrix => Slot { channel: 3, value: 4, legacy: None },
        }
    }

    /// Where the setting lives.
    pub fn locate(self) -> (s: Slot)
        ensures
            s == self.slot(),
    {
        match self {
            LightColor::Rgblight => Slot { channel: 2, value: 4, legacy: Some(0x83u8) },
            LightColor::RgbMatrix => Slot { channel: 3, value: 4, legacy: None },
        }
    }
}

} // verus!
