//! The keyboard interface: one operation for each thing that can be asked
//! of a keyboard.  Each one starts a session; the caller drives the
//! session over its channel.

use vstd::prelude::*;
use crate::codec::{Value, ValueView};
use crate::command::Command;
use crate::error::{Error, Outcome};
use crate::ids::{KeyboardValue, Light, LightColor};
use crate::operation::{MatrixInfo, Operation};
use crate::session::{begin, Action, Session};

verus! {

/// The interface to one keyboard, which speaks one protocol version.
#[derive(Clone, Copy, Debug, PartialEq, Eq)]
pub struct KeyboardApi {
    pub protocol_version: u16,
}

/// The interface that the outcome of the first question gives: the
/// keyboard's answer to the question for its protocol version makes the
/// interface; a rejection or a failure is handed on; any other result was
/// not an answer to that question.
pub open spec fn connected(answer: Outcome<ValueView>) -> Outcome<KeyboardApi> {
    match answer {
        Outcome::Success(ValueView::Word(version)) => Outcome::Success(
            KeyboardApi { protocol_version: version },
        ),
        Outcome::Success(_) => Outcome::Failed(Error::OutOfSequence),
        Outcome::Rejected => Outcome::Rejected,
        Outcome::Failed(e) => Outcome::Failed(e),
    }
}

impl KeyboardApi {
    /// The first question to a keyboard whose protocol version is not yet
    /// known: which version it speaks.
    pub fn handshake() -> (started: (Session, Action))
        ensures
            (started.0@, started.1@) == begin(
                Operation::Single(Command::GetProtocolVersion),
                0,
            ),
    {
        Session::start(Operation::Single(Command::GetProtocolVersion), 0)
    }

    /// The interface to the keyboard that gave `answer` to the first
    /// question.
    pub fn connect(answer: Outcome<Value>) -> (api: Outcome<KeyboardApi>)
        ensures
            api == connected(answer@),
    {
        match answer {
            Outcome::Success(Value::Word(version)) => Outcome::Success(
                KeyboardApi { protocol_version: version },
            ),
            Outcome::Success(_) => Outcome::Failed(Error::OutOfSequence),
            Outcome::Rejected => Outcome::Rejected,
            Outcome::Failed(e) => Outcome::Failed(e),
        }
    }

    /// The interface to a keyboard that is known to speak
    /// `protocol_version`.
    pub fn new(protocol_version: u16) -> (api: KeyboardApi)
        ensures
            api.protocol_version == protocol_version,
    {
        KeyboardApi { protocol_version }
    }

    /// Sends bytes as they are, padded to a report.
    pub fn hid_send(&self, bytes: Vec<u8>) -> (started: (Session, Action))
        ensures
            (started.0@, started.1@) == begin(
                Operation::SendRaw(bytes),
                self.protocol_version,
            ),
    {
        Session::start(Operation::SendRaw(bytes), self.protocol_version)
    }

    /// Reads one report as it is.
    pub fn hid_read(&self) -> (started: (Session, Action))
        ensures
            (started.0@, started.1@) == begin(
                Operation::ReceiveRaw,
                self.protocol_version,
            ),
    {
        Session::start(Operation::ReceiveRaw, self.protocol_version)
    }

    /// Asks for the protocol version.
    pub fn get_protocol_version(&self) -> (started: (Session, Action))
        ensures
            (started.0@, started.1@) == begin(
                Operation::Single(Command::GetProtocolVersion),
                self.protocol_version,
            ),
    {
        Session::start(Operation::Single(Command::GetProtocolVersion), self.protocol_version)
    }

    /// Asks for the number of layers.
    pub fn get_layer_count(&self) -> (started: (Session, Action))
        ensures
            (started.0@, started.1@) == begin(
                Operation::Single(Command::GetLayerCount),
                self.protocol_version,
            ),
    {
        Session::start(Operation::Single(Command::GetLayerCount), self.protocol_version)
    }

    /// Asks for the keycode at a position.
    pub fn get_key(&self, layer: u8, row: u8, col: u8) -> (started: (Session, Action))
        ensures
            (started.0@, started.1@) == begin(
                Operation::Single(Command::GetKey { layer, row, col }),
                self.protocol_version,
            ),
    {
        Session::start(Operation::Single(Command::GetKey { layer, row, col }), self.protocol_version)
    }

    /// Stores a keycode at a position.
    pub fn set_key(&self, layer: u8, row: u8, col: u8, keycode: u16) -> (started: (Session, Action))
        ensures
            (started.0@, started.1@) == begin(
                Operation::Single(Command::SetKey { layer, row, col, keycode }),
                self.protocol_version,
            ),
    {
        Session::start(Operation::Single(Command::SetKey { layer, row, col, keycode }), self.protocol_version)
    }

    /// Reads the keycodes of one layer.
    pub fn read_raw_matrix(&self, info: MatrixInfo, layer: u8) -> (started: (Session, Action))
        ensures
            (started.0@, started.1@) == begin(
                Operation::ReadRawMatrix { info, layer },
                self.protocol_version,
            ),
    {
        Session::start(Operation::ReadRawMatrix { info, layer }, self.protocol_version)
    }

    /// Writes keycodes, layer after layer, from the start of the keymap.
    pub fn write_raw_matrix(&self, info: MatrixInfo, keymap: Vec<Vec<u16>>) -> (started: (Session, Action))
        ensures
            (started.0@, started.1@) == begin(
                Operation::WriteRawMatrix { info, keymap },
                self.protocol_version,
            ),
    {
        Session::start(Operation::WriteRawMatrix { info, keymap }, self.protocol_version)
    }

    /// Asks for `result_length` bytes of a keyboard value.
    pub fn get_keyboard_value(&self, slot: KeyboardValue, params: Vec<u8>, result_length: u8) -> (started: (Session, Action))
        ensures
            (started.0@, started.1@) == begin(
                Operation::Single(Command::GetKeyboardValue { slot, params, result_length }),
                self.protocol_version,
            ),
    {
        Session::start(Operation::Single(Command::GetKeyboardValue { slot, params, result_length }), self.protocol_version)
    }

    /// Stores a keyboard value.
    pub fn set_keyboard_value(&self, slot: KeyboardValue, params: Vec<u8>) -> (started: (Session, Action))
        ensures
            (started.0@, started.1@) == begin(
                Operation::Single(Command::SetKeyboardValue { slot, params }),
                self.protocol_version,
            ),
    {
        Session::start(Operation::Single(Command::SetKeyboardValue { slot, params }), self.protocol_version)
    }

    /// Asks for the keycode an encoder sends in one direction.
    pub fn get_encoder_value(&self, layer: u8, id: u8, clockwise: bool) -> (started: (Session, Action))
        ensures
            (started.0@, started.1@) == begin(
                Operation::Single(Command::GetEncoder { layer, id, clockwise }),
                self.protocol_version,
            ),
    {
        Session::start(Operation::Single(Command::GetEncoder { layer, id, clockwise }), self.protocol_version)
    }

    /// Stores the keycode an encoder sends in one direction.
    pub fn set_encoder_value(&self, layer: u8, id: u8, clockwise: bool, keycode: u16) -> (started: (Session, Action))
        ensures
            (started.0@, started.1@) == begin(
                Operation::Single(Command::SetEncoder { layer, id, clockwise, keycode }),
                self.protocol_version,
            ),
    {
        Session::start(Operation::Single(Command::SetEncoder { layer, id, clockwise, keycode }), self.protocol_version)
    }

    /// Asks for a custom menu value.
    pub fn get_custom_menu_value(&self, bytes: Vec<u8>) -> (started: (Session, Action))
        ensures
            (started.0@, started.1@) == begin(
                Operation::Single(Command::GetCustomMenuValue(bytes)),
                self.protocol_version,
            ),
    {
        Session::start(Operation::Single(Command::GetCustomMenuValue(bytes)), self.protocol_version)
    }

    /// Stores a custom menu value.
    pub fn set_custom_menu_value(&self, bytes: Vec<u8>) -> (started: (Session, Action))
        ensures
            (started.0@, started.1@) == begin(
                Operation::Single(Command::SetCustomMenuValue(bytes)),
                self.protocol_version,
            ),
    {
        Session::start(Operation::Single(Command::SetCustomMenuValue(bytes)), self.protocol_version)
    }

    /// Makes the custom menu values of a channel permanent.
    pub fn save_custom_menu(&self, channel: u8) -> (started: (Session, Action))
        ensures
            (started.0@, started.1@) == begin(
                Operation::Single(Command::SaveCustomMenu(channel)),
                self.protocol_version,
            ),
    {
        Session::start(Operation::Single(Command::SaveCustomMenu(channel)), self.protocol_version)
    }

    /// Asks for the backlight brightness.
    pub fn get_backlight_brightness(&self) -> (started: (Session, Action))
        ensures
            (started.0@, started.1@) == begin(
                Operation::Single(Command::GetLight(Light::BacklightBrightness)),
                self.protocol_version,
            ),
    {
        Session::start(Operation::Single(Command::GetLight(Light::BacklightBrightness)), self.protocol_version)
    }

    /// Stores the backlight brightness.
    pub fn set_backlight_brightness(&self, value: u8) -> (started: (Session, Action))
        ensures
            (started.0@, started.1@) == begin(
                Operation::Single(Command::SetLight(Light::BacklightBrightness, value)),
                self.protocol_version,
            ),
    {
        Session::start(Operation::Single(Command::SetLight(Light::BacklightBrightness, value)), self.protocol_version)
    }

    /// Asks for the backlight effect.
    pub fn get_backlight_effect(&self) -> (started: (Session, Action))
        ensures
            (started.0@, started.1@) == begin(
                Operation::Single(Command::GetLight(Light::BacklightEffect)),
                self.protocol_version,
            ),
    {
        Session::start(Operation::Single(Command::GetLight(Light::BacklightEffect)), self.protocol_version)
    }

    /// Stores the backlight effect.
    pub fn set_backlight_effect(&self, value: u8) -> (started: (Session, Action))
        ensures
            (started.0@, started.1@) == begin(
                Operation::Single(Command::SetLight(Light::BacklightEffect, value)),
                self.protocol_version,
            ),
    {
        Session::start(Operation::Single(Command::SetLight(Light::BacklightEffect, value)), self.protocol_version)
    }

    /// Asks for the RGB light brightness.
    pub fn get_rgblight_brightness(&self) -> (started: (Session, Action))
        ensures
            (started.0@, started.1@) == begin(
                Operation::Single(Command::GetLight(Light::RgblightBrightness)),
                self.protocol_version,
            ),
    {
        Session::start(Operation::Single(Command::GetLight(Light::RgblightBrightness)), self.protocol_version)
    }

    /// Stores the RGB light brightness.
    pub fn set_rgblight_brightness(&self, value: u8) -> (started: (Session, Action))
        ensures
            (started.0@, started.1@) == begin(
                Operation::Single(Command::SetLight(Light::RgblightBrightness, value)),
                self.protocol_version,
            ),
    {
        Session::start(Operation::Single(Command::SetLight(Light::RgblightBrightness, value)), self.protocol_version)
    }

    /// Asks for the RGB light effect.
    pub fn get_rgblight_effect(&self) -> (started: (Session, Action))
        ensures
            (started.0@, started.1@) == begin(
                Operation::Single(Command::GetLight(Light::RgblightEffect)),
                self.protocol_version,
            ),
    {
        Session::start(Operation::Single(Command::GetLight(Light::RgblightEffect)), self.protocol_version)
    }

    /// Stores the RGB light effect.
    pub fn set_rgblight_effect(&self, value: u8) -> (started: (Session, Action))
        ensures
            (started.0@, started.1@) == begin(
                Operation::Single(Command::SetLight(Light::RgblightEffect, value)),
                self.protocol_version,
            ),
    {
        Session::start(Operation::Single(Command::SetLight(Light::RgblightEffect, value)), self.protocol_version)
    }

    /// Asks for the RGB light effect speed.
    pub fn get_rgblight_effect_speed(&self) -> (started: (Session, Action))
        ensures
            (started.0@, started.1@) == begin(
                Operation::Single(Command::GetLight(Light::RgblightEffectSpeed)),
                self.protocol_version,
            ),
    {
        Session::start(Operation::Single(Command::GetLight(Light::RgblightEffectSpeed)), self.protocol_version)
    }

    /// Stores the RGB light effect speed.
    pub fn set_rgblight_effect_speed(&self, value: u8) -> (started: (Session, Action))
        ensures
            (started.0@, started.1@) == begin(
                Operation::Single(Command::SetLight(Light::RgblightEffectSpeed, value)),
                self.protocol_version,
            ),
    {
        Session::start(Operation::Single(Command::SetLight(Light::RgblightEffectSpeed, value)), self.protocol_version)
    }

    /// Asks for the RGB matrix brightness.
    pub fn get_rgb_matrix_brightness(&self) -> (started: (Session, Action))
        ensures
            (started.0@, started.1@) == begin(
                Operation::Single(Command::GetLight(Light::RgbMatrixBrightness)),
                self.protocol_version,
            ),
    {
        Session::start(Operation::Single(Command::GetLight(Light::RgbMatrixBrightness)), self.protocol_version)
    }

    /// Stores the RGB matrix brightness.
    pub fn set_rgb_matrix_brightness(&self, value: u8) -> (started: (Session, Action))
        ensures
            (started.0@, started.1@) == begin(
                Operation::Single(Command::SetLight(Light::RgbMatrixBrightness, value)),
                self.protocol_version,
            ),
    {
        Session::start(Operation::Single(Command::SetLight(Light::RgbMatrixBrightness, value)), self.protocol_version)
    }

    /// Asks for the RGB matrix effect.
    pub fn get_rgb_matrix_effect(&self) -> (started: (Session, Action))
        ensures
            (started.0@, started.1@) == begin(
                Operation::Single(Command::GetLight(Light::RgbMatrixEffect)),
                self.protocol_version,
            ),
    {
        Session::start(Operation::Single(Command::GetLight(Light::RgbMatrixEffect)), self.protocol_version)
    }

    /// Stores the RGB matrix effect.
    pub fn set_rgb_matrix_effect(&self, value: u8) -> (started: (Session, Action))
        ensures
            (started.0@, started.1@) == begin(
                Operation::Single(Command::SetLight(Light::RgbMatrixEffect, value)),
                self.protocol_version,
            ),
    {
        Session::start(Operation::Single(Command::SetLight(Light::RgbMatrixEffect, value)), self.protocol_version)
    }

    /// Asks for the RGB matrix effect speed.
    pub fn get_rgb_matrix_effect_speed(&self) -> (started: (Session, Action))
        ensures
            (started.0@, started.1@) == begin(
                Operation::Single(Command::GetLight(Light::RgbMatrixEffectSpeed)),
                self.protocol_version,
            ),
    {
        Session::start(Operation::Single(Command::GetLight(Light::RgbMatrixEffectSpeed)), self.protocol_version)
    }

    /// Stores the RGB matrix effect speed.
    pub fn set_rgb_matrix_effect_speed(&self, value: u8) -> (started: (Session, Action))
        ensures
            (started.0@, started.1@) == begin(
                Operation::Single(Command::SetLight(Light::RgbMatrixEffectSpeed, value)),
                self.protocol_version,
            ),
    {
        Session::start(Operation::Single(Command::SetLight(Light::RgbMatrixEffectSpeed, value)), self.protocol_version)
    }

    /// Asks for the LED matrix brightness.
    pub fn get_led_matrix_brightness(&self) -> (started: (Session, Action))
        ensures
            (started.0@, started.1@) == begin(
                Operation::Single(Command::GetLight(Light::LedMatrixBrightness)),
                self.protocol_version,
            ),
    {
        Session::start(Operation::Single(Command::GetLight(Light::LedMatrixBrightness)), self.protocol_version)
    }

    /// Stores the LED matrix brightness.
    pub fn set_led_matrix_brightness(&self, value: u8) -> (started: (Session, Action))
        ensures
            (started.0@, started.1@) == begin(
                Operation::Single(Command::SetLight(Light::LedMatrixBrightness, value)),
                self.protocol_version,
            ),
    {
        Session::start(Operation::Single(Command::SetLight(Light::LedMatrixBrightness, value)), self.protocol_version)
    }

    /// Asks for the LED matrix effect.
    pub fn get_led_matrix_effect(&self) -> (started: (Session, Action))
        ensures
            (started.0@, started.1@) == begin(
                Operation::Single(Command::GetLight(Light::LedMatrixEffect)),
                self.protocol_version,
            ),
    {
        Session::start(Operation::Single(Command::GetLight(Light::LedMatrixEffect)), self.protocol_version)
    }

    /// Stores the LED matrix effect.
    pub fn set_led_matrix_effect(&self, value: u8) -> (started: (Session, Action))
        ensures
            (started.0@, started.1@) == begin(
                Operation::Single(Command::SetLight(Light::LedMatrixEffect, value)),
                self.protocol_version,
            ),
    {
        Session::start(Operation::Single(Command::SetLight(Light::LedMatrixEffect, value)), self.protocol_version)
    }

    /// Asks for the LED matrix effect speed.
    pub fn get_led_matrix_effect_speed(&self) -> (started: (Session, Action))
        ensures
            (started.0@, started.1@) == begin(
                Operation::Single(Command::GetLight(Light::LedMatrixEffectSpeed)),
                self.protocol_version,
            ),
    {
        Session::start(Operation::Single(Command::GetLight(Light::LedMatrixEffectSpeed)), self.protocol_version)
    }

    /// Stores the LED matrix effect speed.
    pub fn set_led_matrix_effect_speed(&self, value: u8) -> (started: (Session, Action))
        ensures
            (started.0@, started.1@) == begin(
                Operation::Single(Command::SetLight(Light::LedMatrixEffectSpeed, value)),
                self.protocol_version,
            ),
    {
        Session::start(Operation::Single(Command::SetLight(Light::LedMatrixEffectSpeed, value)), self.protocol_version)
    }

    /// Asks for the hue and saturation of the RGB light colour.
    pub fn get_rgblight_color(&self) -> (started: (Session, Action))
        ensures
            (started.0@, started.1@) == begin(
                Operation::Single(Command::GetColor(LightColor::Rgblight)),
                self.protocol_version,
            ),
    {
        Session::start(Operation::Single(Command::GetColor(LightColor::Rgblight)), self.protocol_version)
    }

    /// Stores the hue and saturation of the RGB light colour.
    pub fn set_rgblight_color(&self, hue: u8, saturation: u8) -> (started: (Session, Action))
        ensures
            (started.0@, started.1@) == begin(
                Operation::Single(Command::SetColor(LightColor::Rgblight, hue, saturation)),
                self.protocol_version,
            ),
    {
        Session::start(Operation::Single(Command::SetColor(LightColor::Rgblight, hue, saturation)), self.protocol_version)
    }

    /// Asks for the hue and saturation of the RGB matrix colour.
    pub fn get_rgb_matrix_color(&self) -> (started: (Session, Action))
        ensures
            (started.0@, started.1@) == begin(
                Operation::Single(Command::GetColor(LightColor::RgbMatrix)),
                self.protocol_version,
            ),
    {
        Session::start(Operation::Single(Command::GetColor(LightColor::RgbMatrix)), self.protocol_version)
    }

    /// Stores the hue and saturation of the RGB matrix colour.
    pub fn set_rgb_matrix_color(&self, hue: u8, saturation: u8) -> (started: (Session, Action))
        ensures
            (started.0@, started.1@) == begin(
                Operation::Single(Command::SetColor(LightColor::RgbMatrix, hue, saturation)),
                self.protocol_version,
            ),
    {
        Session::start(Operation::Single(Command::SetColor(LightColor::RgbMatrix, hue, saturation)), self.protocol_version)
    }

    /// Makes the lighting settings permanent.
    pub fn save_lighting(&self) -> (started: (Session, Action))
        ensures
            (started.0@, started.1@) == begin(
                Operation::Single(Command::SaveLighting),
                self.protocol_version,
            ),
    {
        Session::start(Operation::Single(Command::SaveLighting), self.protocol_version)
    }

    /// Clears the stored settings, keymaps and macros.
    pub fn reset_eeprom(&self) -> (started: (Session, Action))
        ensures
            (started.0@, started.1@) == begin(
                Operation::Single(Command::ResetEeprom),
                self.protocol_version,
            ),
    {
        Session::start(Operation::Single(Command::ResetEeprom), self.protocol_version)
    }

    /// Restarts the keyboard in its bootloader.
    pub fn jump_to_bootloader(&self) -> (started: (Session, Action))
        ensures
            (started.0@, started.1@) == begin(
                Operation::Single(Command::JumpToBootloader),
                self.protocol_version,
            ),
    {
        Session::start(Operation::Single(Command::JumpToBootloader), self.protocol_version)
    }

    /// Asks for the number of macros.
    pub fn get_macro_count(&self) -> (started: (Session, Action))
        ensures
            (started.0@, started.1@) == begin(
                Operation::Single(Command::GetMacroCount),
                self.protocol_version,
            ),
    {
        Session::start(Operation::Single(Command::GetMacroCount), self.protocol_version)
    }

    /// Asks for the size of the macro buffer in bytes.
    pub fn get_macro_buffer_size(&self) -> (started: (Session, Action))
        ensures
            (started.0@, started.1@) == begin(
                Operation::Single(Command::GetMacroBufferSize),
                self.protocol_version,
            ),
    {
        Session::start(Operation::Single(Command::GetMacroBufferSize), self.protocol_version)
    }

    /// Reads the whole macro buffer.
    pub fn get_macro_bytes(&self) -> (started: (Session, Action))
        ensures
            (started.0@, started.1@) == begin(
                Operation::GetMacroBytes,
                self.protocol_version,
            ),
    {
        Session::start(Operation::GetMacroBytes, self.protocol_version)
    }

    /// Replaces the contents of the macro buffer.
    pub fn set_macro_bytes(&self, data: Vec<u8>) -> (started: (Session, Action))
        ensures
            (started.0@, started.1@) == begin(
                Operation::SetMacroBytes(data),
                self.protocol_version,
            ),
    {
        Session::start(Operation::SetMacroBytes(data), self.protocol_version)
    }

    /// Clears the macro buffer.
    pub fn reset_macros(&self) -> (started: (Session, Action))
        ensures
            (started.0@, started.1@) == begin(
                Operation::Single(Command::ResetMacros),
                self.protocol_version,
            ),
    {
        Session::start(Operation::Single(Command::ResetMacros), self.protocol_version)
    }
}

} // verus!
