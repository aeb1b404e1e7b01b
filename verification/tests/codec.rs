use qmk_via_api::api_commands::{
    ViaChannelId, ViaCommandId, ViaLightingValue, ViaQmkBacklightValue, ViaQmkLedMatrixValue,
    ViaQmkRgbMatrixValue, ViaQmkRgblightValue,
};
use via_cli::codec::{Exchange, Shape, Value};
use via_cli::command::Command;
use via_cli::error::{Error, Outcome};
use via_cli::ids::{CommandId, KeyboardValue, Light, LightColor};
use via_cli::report::Report;

fn report(prefix: &[u8]) -> Report {
    let mut bytes = [0u8; 32];
    bytes[..prefix.len()].copy_from_slice(prefix);
    Report { bytes }
}

fn request(command: Command, version: u16) -> Report {
    command.exchange(version).unwrap().encode().unwrap()
}

fn reply(command: Command, version: u16, bytes: &[u8]) -> Outcome<Value> {
    command.exchange(version).unwrap().decode(&report(bytes))
}

#[test]
fn command_ids_are_those_of_the_protocol() {
    let expected: [(CommandId, u8); 21] = [
        (CommandId::GetProtocolVersion, 0x01),
        (CommandId::GetKeyboardValue, 0x02),
        (CommandId::SetKeyboardValue, 0x03),
        (CommandId::DynamicKeymapGetKeycode, 0x04),
        (CommandId::DynamicKeymapSetKeycode, 0x05),
        (CommandId::DynamicKeymapClearAll, 0x06),
        (CommandId::CustomMenuSetValue, 0x07),
        (CommandId::CustomMenuGetValue, 0x08),
        (CommandId::CustomMenuSave, 0x09),
        (CommandId::EepromReset, 0x0a),
        (CommandId::BootloaderJump, 0x0b),
        (CommandId::DynamicKeymapMacroGetCount, 0x0c),
        (CommandId::DynamicKeymapMacroGetBufferSize, 0x0d),
        (CommandId::DynamicKeymapMacroGetBuffer, 0x0e),
        (CommandId::DynamicKeymapMacroSetBuffer, 0x0f),
        (CommandId::DynamicKeymapMacroReset, 0x10),
        (CommandId::DynamicKeymapGetLayerCount, 0x11),
        (CommandId::DynamicKeymapGetBuffer, 0x12),
        (CommandId::DynamicKeymapSetBuffer, 0x13),
        (CommandId::DynamicKeymapGetEncoder, 0x14),
        (CommandId::DynamicKeymapSetEncoder, 0x15),
    ];
    for (id, code) in expected {
        assert_eq!(id.code(), code);
        assert_eq!(CommandId::from_code(code), Some(id));
    }
    assert_eq!(CommandId::from_code(0x00), None);
    assert_eq!(CommandId::from_code(0x16), None);
    assert_eq!(CommandId::from_code(0xff), None);
}

#[test]
fn command_ids_agree_with_qmk_via_api() {
    assert_eq!(CommandId::GetProtocolVersion.code(), ViaCommandId::GetProtocolVersion as u8);
    assert_eq!(CommandId::GetKeyboardValue.code(), ViaCommandId::GetKeyboardValue as u8);
    assert_eq!(CommandId::SetKeyboardValue.code(), ViaCommandId::SetKeyboardValue as u8);
    assert_eq!(
        CommandId::DynamicKeymapGetKeycode.code(),
        ViaCommandId::DynamicKeymapGetKeycode as u8
    );
    assert_eq!(
        CommandId::DynamicKeymapSetKeycode.code(),
        ViaCommandId::DynamicKeymapSetKeycode as u8
    );
    assert_eq!(CommandId::DynamicKeymapClearAll.code(), ViaCommandId::DynamicKeymapClearAll as u8);
    assert_eq!(CommandId::CustomMenuSetValue.code(), ViaCommandId::CustomMenuSetValue as u8);
    assert_eq!(CommandId::CustomMenuGetValue.code(), ViaCommandId::CustomMenuGetValue as u8);
    assert_eq!(CommandId::CustomMenuSave.code(), ViaCommandId::CustomMenuSave as u8);
    assert_eq!(CommandId::EepromReset.code(), ViaCommandId::EepromReset as u8);
    assert_eq!(CommandId::BootloaderJump.code(), ViaCommandId::BootloaderJump as u8);
    assert_eq!(
        CommandId::DynamicKeymapMacroGetCount.code(),
        ViaCommandId::DynamicKeymapMacroGetCount as u8
    );
    assert_eq!(
        CommandId::DynamicKeymapMacroGetBufferSize.code(),
        ViaCommandId::DynamicKeymapMacroGetBufferSize as u8
    );
    assert_eq!(
        CommandId::DynamicKeymapMacroGetBuffer.code(),
        ViaCommandId::DynamicKeymapMacroGetBuffer as u8
    );
    assert_eq!(
        CommandId::DynamicKeymapMacroSetBuffer.code(),
        ViaCommandId::DynamicKeymapMacroSetBuffer as u8
    );
    assert_eq!(
        CommandId::DynamicKeymapMacroReset.code(),
        ViaCommandId::DynamicKeymapMacroReset as u8
    );
    assert_eq!(
        CommandId::DynamicKeymapGetLayerCount.code(),
        ViaCommandId::DynamicKeymapGetLayerCount as u8
    );
    assert_eq!(CommandId::DynamicKeymapGetBuffer.code(), ViaCommandId::DynamicKeymapGetBuffer as u8);
    assert_eq!(CommandId::DynamicKeymapSetBuffer.code(), ViaCommandId::DynamicKeymapSetBuffer as u8);
    assert_eq!(
        CommandId::DynamicKeymapGetEncoder.code(),
        ViaCommandId::DynamicKeymapGetEncoder as u8
    );
    assert_eq!(
        CommandId::DynamicKeymapSetEncoder.code(),
        ViaCommandId::DynamicKeymapSetEncoder as u8
    );
}

#[test]
fn lighting_slots_agree_with_qmk_via_api() {
    let slot = Light::BacklightBrightness.locate();
    assert_eq!(slot.channel, ViaChannelId::IdQmkBacklightChannel as u8);
    assert_eq!(slot.value, ViaQmkBacklightValue::IdQmkBacklightBrightness as u8);
    assert_eq!(slot.legacy, Some(ViaLightingValue::IdBacklightBrightness as u8));
    let slot = Light::BacklightEffect.locate();
    assert_eq!(slot.value, ViaQmkBacklightValue::IdQmkBacklightEffect as u8);
    assert_eq!(slot.legacy, Some(ViaLightingValue::IdBacklightEffect as u8));
    let slot = Light::RgblightBrightness.locate();
    assert_eq!(slot.channel, ViaChannelId::IdQmkRgblightChannel as u8);
    assert_eq!(slot.value, ViaQmkRgblightValue::IdQmkRgblightBrightness as u8);
    assert_eq!(slot.legacy, Some(ViaLightingValue::IdQmkRgblightBrightness as u8));
    let slot = Light::RgblightEffect.locate();
    assert_eq!(slot.value, ViaQmkRgblightValue::IdQmkRgblightEffect as u8);
    assert_eq!(slot.legacy, Some(ViaLightingValue::IdQmkRgblightEffect as u8));
    let slot = Light::RgblightEffectSpeed.locate();
    assert_eq!(slot.value, ViaQmkRgblightValue::IdQmkRgblightEffectSpeed as u8);
    assert_eq!(slot.legacy, Some(ViaLightingValue::IdQmkRgblightEffectSpeed as u8));
    let slot = LightColor::Rgblight.locate();
    assert_eq!(slot.channel, ViaChannelId::IdQmkRgblightChannel as u8);
    assert_eq!(slot.value, ViaQmkRgblightValue::IdQmkRgblightColor as u8);
    assert_eq!(slot.legacy, Some(ViaLightingValue::IdQmkRgblightColor as u8));
    let slot = Light::RgbMatrixBrightness.locate();
    assert_eq!(slot.channel, ViaChannelId::IdQmkRgbMatrixChannel as u8);
    assert_eq!(slot.value, ViaQmkRgbMatrixValue::IdQmkRgbMatrixBrightness as u8);
    assert_eq!(slot.legacy, None);
    assert_eq!(
        Light::RgbMatrixEffect.locate().value,
        ViaQmkRgbMatrixValue::IdQmkRgbMatrixEffect as u8
    );
    assert_eq!(
        Light::RgbMatrixEffectSpeed.locate().value,
        ViaQmkRgbMatrixValue::IdQmkRgbMatrixEffectSpeed as u8
    );
    let slot = LightColor::RgbMatrix.locate();
    assert_eq!(slot.channel, ViaChannelId::IdQmkRgbMatrixChannel as u8);
    assert_eq!(slot.value, ViaQmkRgbMatrixValue::IdQmkRgbMatrixColor as u8);
    assert_eq!(slot.legacy, None);
    let slot = Light::LedMatrixBrightness.locate();
    assert_eq!(slot.channel, ViaChannelId::IdQmkLedMatrixChannel as u8);
    assert_eq!(slot.value, ViaQmkLedMatrixValue::IdQmkLedMatrixBrightness as u8);
    assert_eq!(
        Light::LedMatrixEffect.locate().value,
        ViaQmkLedMatrixValue::IdQmkLedMatrixEffect as u8
    );
    assert_eq!(
        Light::LedMatrixEffectSpeed.locate().value,
        ViaQmkLedMatrixValue::IdQmkLedMatrixEffectSpeed as u8
    );
}

#[test]
fn keyboard_value_slots() {
    assert_eq!(KeyboardValue::Uptime.code(), qmk_via_api::api::KeyboardValue::Uptime as u8);
    assert_eq!(KeyboardValue::LayoutOptions.code(), qmk_via_api::api::KeyboardValue::LayoutOptions as u8);
    assert_eq!(KeyboardValue::SwitchMatrixState.code(), qmk_via_api::api::KeyboardValue::SwitchMatrixState as u8);
    assert_eq!(KeyboardValue::FirmwareVersion.code(), qmk_via_api::api::KeyboardValue::FirmwareVersion as u8);
    assert_eq!(KeyboardValue::DeviceIndication.code(), qmk_via_api::api::KeyboardValue::DeviceIndication as u8);
    assert!(KeyboardValue::Uptime.is_available(7));
    assert!(!KeyboardValue::FirmwareVersion.is_available(10));
    assert!(KeyboardValue::FirmwareVersion.is_available(11));
    assert!(!KeyboardValue::DeviceIndication.is_available(9));
    assert!(KeyboardValue::DeviceIndication.is_available(12));
}

#[test]
fn requests_without_parameters_hold_only_the_id() {
    let cases: [(Command, u8); 7] = [
        (Command::GetProtocolVersion, 0x01),
        (Command::GetLayerCount, 0x11),
        (Command::SaveLighting, 0x09),
        (Command::ResetEeprom, 0x0a),
        (Command::JumpToBootloader, 0x0b),
        (Command::GetMacroCount, 0x0c),
        (Command::ResetMacros, 0x10),
    ];
    for (command, id) in cases {
        assert_eq!(request(command, 11), report(&[id]));
    }
    assert_eq!(request(Command::GetMacroBufferSize, 9), report(&[0x0d]));
}

#[test]
fn key_requests_put_the_keycode_high_byte_first() {
    assert_eq!(
        request(Command::GetKey { layer: 1, row: 2, col: 3 }, 11),
        report(&[0x04, 1, 2, 3])
    );
    assert_eq!(
        request(Command::SetKey { layer: 1, row: 2, col: 3, keycode: 0x1234 }, 11),
        report(&[0x05, 1, 2, 3, 0x12, 0x34])
    );
    assert_eq!(
        request(Command::SetKey { layer: 0, row: 0, col: 0, keycode: 0x00ff }, 11),
        report(&[0x05, 0, 0, 0, 0x00, 0xff])
    );
}

#[test]
fn key_replies_are_read_high_byte_first() {
    assert_eq!(
        reply(Command::GetKey { layer: 1, row: 2, col: 3 }, 11, &[0x04, 1, 2, 3, 0x12, 0x34]),
        Outcome::Success(Value::Word(0x1234))
    );
    assert_eq!(
        reply(
            Command::SetKey { layer: 1, row: 2, col: 3, keycode: 0x1234 },
            11,
            &[0x05, 1, 2, 3, 0xab, 0xcd]
        ),
        Outcome::Success(Value::Word(0xabcd))
    );
    assert_eq!(
        reply(Command::GetKey { layer: 0, row: 0, col: 0 }, 11, &[0x04, 0, 0, 0, 0x01, 0x00]),
        Outcome::Success(Value::Word(256))
    );
}

#[test]
fn encoder_requests_and_replies() {
    assert_eq!(
        request(Command::GetEncoder { layer: 2, id: 1, clockwise: true }, 11),
        report(&[0x14, 2, 1, 1])
    );
    assert_eq!(
        request(Command::GetEncoder { layer: 2, id: 1, clockwise: false }, 11),
        report(&[0x14, 2, 1, 0])
    );
    assert_eq!(
        request(Command::SetEncoder { layer: 2, id: 1, clockwise: true, keycode: 0x5029 }, 11),
        report(&[0x15, 2, 1, 1, 0x50, 0x29])
    );
    assert_eq!(
        reply(
            Command::GetEncoder { layer: 2, id: 1, clockwise: true },
            11,
            &[0x14, 2, 1, 1, 0x50, 0x29]
        ),
        Outcome::Success(Value::Word(0x5029))
    );
    assert_eq!(
        reply(
            Command::SetEncoder { layer: 2, id: 1, clockwise: true, keycode: 7 },
            11,
            &[0x15, 2, 1, 1, 0, 7]
        ),
        Outcome::Success(Value::Unit)
    );
}

#[test]
fn version_and_counts_are_read_from_the_bytes_after_the_id() {
    assert_eq!(
        reply(Command::GetProtocolVersion, 0, &[0x01, 0x00, 0x0c]),
        Outcome::Success(Value::Word(12))
    );
    assert_eq!(
        reply(Command::GetLayerCount, 11, &[0x11, 4]),
        Outcome::Success(Value::Byte(4))
    );
    assert_eq!(
        reply(Command::GetMacroCount, 11, &[0x0c, 16]),
        Outcome::Success(Value::Byte(16))
    );
    assert_eq!(
        reply(Command::GetMacroBufferSize, 11, &[0x0d, 0x02, 0x00]),
        Outcome::Success(Value::Word(512))
    );
}

#[test]
fn keyboard_value_requests_and_replies() {
    let get = Command::GetKeyboardValue {
        slot: KeyboardValue::LayoutOptions,
        params: vec![],
        result_length: 4,
    };
    assert_eq!(request(get.clone(), 11), report(&[0x02, 0x02]));
    assert_eq!(
        reply(get, 11, &[0x02, 0x02, 1, 2, 3, 4, 5]),
        Outcome::Success(Value::Bytes(vec![1, 2, 3, 4]))
    );
    let with_params = Command::GetKeyboardValue {
        slot: KeyboardValue::SwitchMatrixState,
        params: vec![9, 8],
        result_length: 3,
    };
    assert_eq!(request(with_params.clone(), 11), report(&[0x02, 0x03, 9, 8]));
    assert_eq!(
        reply(with_params, 11, &[0x02, 0x03, 9, 8, 0xa, 0xb, 0xc, 0xd]),
        Outcome::Success(Value::Bytes(vec![0xa, 0xb, 0xc]))
    );
    let set = Command::SetKeyboardValue { slot: KeyboardValue::LayoutOptions, params: vec![1, 2] };
    assert_eq!(request(set.clone(), 11), report(&[0x03, 0x02, 1, 2]));
    assert_eq!(reply(set, 11, &[0x03, 0x02, 1, 2]), Outcome::Success(Value::Unit));
}

#[test]
fn keyboard_values_of_the_newer_protocol_are_refused_on_an_older_one() {
    let get = Command::GetKeyboardValue {
        slot: KeyboardValue::FirmwareVersion,
        params: vec![],
        result_length: 4,
    };
    assert_eq!(get.exchange(10), Err(Error::UnsupportedProtocol { version: 10 }));
    assert!(get.exchange(11).is_ok());
    let set = Command::SetKeyboardValue { slot: KeyboardValue::DeviceIndication, params: vec![] };
    assert_eq!(set.exchange(9), Err(Error::UnsupportedProtocol { version: 9 }));
    assert!(set.exchange(11).is_ok());
}

#[test]
fn oversized_commands_are_refused() {
    let fits = Command::SetKeyboardValue { slot: KeyboardValue::Uptime, params: vec![0; 30] };
    assert!(fits.exchange(11).is_ok());
    assert_eq!(fits.exchange(11).unwrap().encode().unwrap().bytes[31], 0);
    let too_long = Command::SetKeyboardValue { slot: KeyboardValue::Uptime, params: vec![0; 31] };
    assert_eq!(too_long.exchange(11), Err(Error::InvalidReportSize));
    let window =
        Command::GetKeyboardValue { slot: KeyboardValue::Uptime, params: vec![1], result_length: 29 };
    assert!(window.exchange(11).is_ok());
    let beyond =
        Command::GetKeyboardValue { slot: KeyboardValue::Uptime, params: vec![1], result_length: 30 };
    assert_eq!(beyond.exchange(11), Err(Error::InvalidReportSize));
    assert!(Command::SetCustomMenuValue(vec![0; 31]).exchange(11).is_ok());
    assert_eq!(
        Command::SetCustomMenuValue(vec![0; 32]).exchange(11),
        Err(Error::InvalidReportSize)
    );
    assert_eq!(
        Command::GetCustomMenuValue(vec![0; 32]).exchange(11),
        Err(Error::InvalidReportSize)
    );
    assert!(Command::GetKeymapBuffer { offset: 0, size: 28 }.exchange(11).is_ok());
    assert_eq!(
        Command::GetKeymapBuffer { offset: 0, size: 29 }.exchange(11),
        Err(Error::InvalidReportSize)
    );
    assert_eq!(
        Command::GetMacroBuffer { offset: 0, size: 29 }.exchange(11),
        Err(Error::InvalidReportSize)
    );
    assert!(Command::SetKeymapBuffer { offset: 0, data: vec![1; 28] }.exchange(11).is_ok());
    assert_eq!(
        Command::SetKeymapBuffer { offset: 0, data: vec![1; 29] }.exchange(11),
        Err(Error::InvalidReportSize)
    );
    assert_eq!(
        Command::SetMacroBuffer { offset: 0, data: vec![1; 29] }.exchange(11),
        Err(Error::InvalidReportSize)
    );
}

#[test]
fn an_unsupported_command_is_refused_as_unsupported_even_if_oversized() {
    assert_eq!(
        Command::SetCustomMenuValue(vec![0; 40]).exchange(10),
        Err(Error::UnsupportedProtocol { version: 10 })
    );
}

#[test]
fn custom_menu_requests_and_replies() {
    assert_eq!(
        request(Command::GetCustomMenuValue(vec![3, 2]), 11),
        report(&[0x08, 3, 2])
    );
    assert_eq!(
        reply(Command::GetCustomMenuValue(vec![3, 2]), 11, &[0x08, 3, 2, 77]),
        Outcome::Success(Value::Bytes(vec![0x08, 3]))
    );
    assert_eq!(
        request(Command::SetCustomMenuValue(vec![3, 2, 77]), 11),
        report(&[0x07, 3, 2, 77])
    );
    assert_eq!(request(Command::SaveCustomMenu(3), 11), report(&[0x09, 3]));
    assert_eq!(
        Command::GetCustomMenuValue(vec![3, 2]).exchange(10),
        Err(Error::UnsupportedProtocol { version: 10 })
    );
    assert_eq!(
        Command::SaveCustomMenu(3).exchange(10),
        Err(Error::UnsupportedProtocol { version: 10 })
    );
}

#[test]
fn lighting_by_channel_on_the_newer_protocol() {
    let singles: [(Light, u8, u8); 11] = [
        (Light::BacklightBrightness, 1, 1),
        (Light::BacklightEffect, 1, 2),
        (Light::RgblightBrightness, 2, 1),
        (Light::RgblightEffect, 2, 2),
        (Light::RgblightEffectSpeed, 2, 3),
        (Light::RgbMatrixBrightness, 3, 1),
        (Light::RgbMatrixEffect, 3, 2),
        (Light::RgbMatrixEffectSpeed, 3, 3),
        (Light::LedMatrixBrightness, 5, 1),
        (Light::LedMatrixEffect, 5, 2),
        (Light::LedMatrixEffectSpeed, 5, 3),
    ];
    for (light, channel, value) in singles {
        assert_eq!(request(Command::GetLight(light), 11), report(&[0x08, channel, value]));
        assert_eq!(
            request(Command::SetLight(light, 99), 11),
            report(&[0x07, channel, value, 99])
        );
        assert_eq!(
            reply(Command::GetLight(light), 11, &[0x08, channel, value, 99]),
            Outcome::Success(Value::Byte(99))
        );
        assert_eq!(
            reply(Command::SetLight(light, 99), 11, &[0x07, channel, value, 99]),
            Outcome::Success(Value::Unit)
        );
    }
    assert_eq!(request(Command::GetColor(LightColor::Rgblight), 11), report(&[0x08, 2, 4]));
    assert_eq!(request(Command::GetColor(LightColor::RgbMatrix), 11), report(&[0x08, 3, 4]));
    assert_eq!(
        reply(Command::GetColor(LightColor::RgbMatrix), 11, &[0x08, 3, 4, 10, 20]),
        Outcome::Success(Value::Pair(10, 20))
    );
    assert_eq!(
        request(Command::SetColor(LightColor::RgbMatrix, 10, 20), 11),
        report(&[0x07, 3, 4, 10, 20])
    );
}

#[test]
fn lighting_by_single_id_on_the_older_protocol() {
    let singles: [(Light, u8); 5] = [
        (Light::BacklightBrightness, 0x09),
        (Light::BacklightEffect, 0x0a),
        (Light::RgblightBrightness, 0x80),
        (Light::RgblightEffect, 0x81),
        (Light::RgblightEffectSpeed, 0x82),
    ];
    for (light, id) in singles {
        assert_eq!(request(Command::GetLight(light), 10), report(&[0x08, id]));
        assert_eq!(request(Command::SetLight(light, 99), 10), report(&[0x07, id, 99]));
        assert_eq!(
            reply(Command::GetLight(light), 10, &[0x08, id, 99, 55]),
            Outcome::Success(Value::Byte(99))
        );
    }
    assert_eq!(request(Command::GetColor(LightColor::Rgblight), 10), report(&[0x08, 0x83]));
    assert_eq!(
        reply(Command::GetColor(LightColor::Rgblight), 10, &[0x08, 0x83, 10, 20]),
        Outcome::Success(Value::Pair(10, 20))
    );
    assert_eq!(
        request(Command::SetColor(LightColor::Rgblight, 10, 20), 10),
        report(&[0x07, 0x83, 10, 20])
    );
}

#[test]
fn matrix_lighting_does_not_exist_on_the_older_protocol() {
    let lights = [
        Light::RgbMatrixBrightness,
        Light::RgbMatrixEffect,
        Light::RgbMatrixEffectSpeed,
        Light::LedMatrixBrightness,
        Light::LedMatrixEffect,
        Light::LedMatrixEffectSpeed,
    ];
    for light in lights {
        assert_eq!(
            Command::GetLight(light).exchange(10),
            Err(Error::UnsupportedProtocol { version: 10 })
        );
        assert_eq!(
            Command::SetLight(light, 1).exchange(10),
            Err(Error::UnsupportedProtocol { version: 10 })
        );
        assert!(!Command::GetLight(light).is_supported(10));
        assert!(Command::GetLight(light).is_supported(11));
    }
    assert_eq!(
        Command::GetColor(LightColor::RgbMatrix).exchange(10),
        Err(Error::UnsupportedProtocol { version: 10 })
    );
    assert_eq!(
        Command::SetColor(LightColor::RgbMatrix, 1, 2).exchange(10),
        Err(Error::UnsupportedProtocol { version: 10 })
    );
}

#[test]
fn buffer_requests_put_the_offset_high_byte_first() {
    assert_eq!(
        request(Command::GetKeymapBuffer { offset: 0x0138, size: 28 }, 11),
        report(&[0x12, 0x01, 0x38, 28])
    );
    assert_eq!(
        request(Command::GetMacroBuffer { offset: 0x0138, size: 28 }, 11),
        report(&[0x0e, 0x01, 0x38, 28])
    );
    assert_eq!(
        request(Command::SetKeymapBuffer { offset: 0x0138, data: vec![1, 2, 3] }, 11),
        report(&[0x13, 0x01, 0x38, 3, 1, 2, 3])
    );
    assert_eq!(
        request(Command::SetMacroBuffer { offset: 0xfffe, data: vec![0xff] }, 11),
        report(&[0x0f, 0xff, 0xfe, 1, 0xff])
    );
    assert_eq!(
        reply(
            Command::GetKeymapBuffer { offset: 0, size: 3 },
            11,
            &[0x12, 0, 0, 3, 7, 8, 9, 10]
        ),
        Outcome::Success(Value::Bytes(vec![7, 8, 9]))
    );
    assert_eq!(
        Command::GetKeymapBuffer { offset: 0, size: 3 }.exchange(7),
        Err(Error::UnsupportedProtocol { version: 7 })
    );
}

#[test]
fn a_mismatched_echo_is_a_rejection_for_every_command() {
    let commands = vec![
        Command::GetProtocolVersion,
        Command::GetLayerCount,
        Command::GetKey { layer: 1, row: 2, col: 3 },
        Command::SetKey { layer: 1, row: 2, col: 3, keycode: 4 },
        Command::GetKeyboardValue { slot: KeyboardValue::Uptime, params: vec![], result_length: 4 },
        Command::SetKeyboardValue { slot: KeyboardValue::Uptime, params: vec![1] },
        Command::GetEncoder { layer: 0, id: 0, clockwise: true },
        Command::SetEncoder { layer: 0, id: 0, clockwise: true, keycode: 4 },
        Command::GetCustomMenuValue(vec![1, 2]),
        Command::SetCustomMenuValue(vec![1, 2, 3]),
        Command::SaveCustomMenu(1),
        Command::GetLight(Light::RgbMatrixEffect),
        Command::SetLight(Light::RgbMatrixEffect, 3),
        Command::GetColor(LightColor::Rgblight),
        Command::SetColor(LightColor::Rgblight, 1, 2),
        Command::SaveLighting,
        Command::ResetEeprom,
        Command::JumpToBootloader,
        Command::GetMacroCount,
        Command::GetMacroBufferSize,
        Command::ResetMacros,
        Command::GetKeymapBuffer { offset: 0, size: 28 },
        Command::SetKeymapBuffer { offset: 0, data: vec![1, 2] },
        Command::GetMacroBuffer { offset: 0, size: 28 },
        Command::SetMacroBuffer { offset: 0, data: vec![1, 2] },
    ];
    for command in commands {
        let exchange = command.exchange(11).unwrap();
        let sent = exchange.encode().unwrap();
        assert_eq!(sent.bytes[0], exchange.id.code());
        let mut unhandled = sent;
        unhandled.bytes[0] = 0xff;
        assert_eq!(exchange.decode(&unhandled), Outcome::Rejected);
        let mut other = sent;
        other.bytes[0] = sent.bytes[0].wrapping_add(1);
        assert_eq!(exchange.decode(&other), Outcome::Rejected);
        assert!(matches!(exchange.decode(&sent), Outcome::Success(_)));
    }
}

#[test]
fn a_get_reads_what_the_matching_set_wrote() {
    let set = Command::SetKey { layer: 1, row: 2, col: 3, keycode: 0xbeef };
    let mut echoed = request(set, 11);
    echoed.bytes[0] = 0x04;
    assert_eq!(
        Command::GetKey { layer: 1, row: 2, col: 3 }.exchange(11).unwrap().decode(&echoed),
        Outcome::Success(Value::Word(0xbeef))
    );
    for version in [9u16, 11] {
        let mut echoed = request(Command::SetLight(Light::RgblightEffect, 42), version);
        echoed.bytes[0] = 0x08;
        assert_eq!(
            Command::GetLight(Light::RgblightEffect).exchange(version).unwrap().decode(&echoed),
            Outcome::Success(Value::Byte(42))
        );
        let mut echoed = request(Command::SetColor(LightColor::Rgblight, 120, 200), version);
        echoed.bytes[0] = 0x08;
        assert_eq!(
            Command::GetColor(LightColor::Rgblight).exchange(version).unwrap().decode(&echoed),
            Outcome::Success(Value::Pair(120, 200))
        );
    }
    let mut echoed = request(Command::SetMacroBuffer { offset: 56, data: vec![9, 8, 7] }, 11);
    echoed.bytes[0] = 0x0e;
    assert_eq!(
        Command::GetMacroBuffer { offset: 56, size: 3 }.exchange(11).unwrap().decode(&echoed),
        Outcome::Success(Value::Bytes(vec![9, 8, 7]))
    );
}

#[test]
fn a_shape_beyond_the_report_is_not_read() {
    let exchange = Exchange {
        id: CommandId::GetKeyboardValue,
        params: vec![],
        shape: Shape::Bytes { start: 30, len: 3 },
    };
    assert_eq!(exchange.decode(&report(&[0x02])), Outcome::Failed(Error::InvalidReportSize));
    assert_eq!(exchange.decode(&report(&[0x03])), Outcome::Rejected);
    assert!(!Shape::Word { at: 31 }.is_within_report());
    assert!(Shape::Word { at: 30 }.is_within_report());
    assert!(Shape::Byte { at: 31 }.is_within_report());
    assert!(!Shape::Byte { at: 32 }.is_within_report());
    assert!(Shape::Bytes { start: 4, len: 28 }.is_within_report());
    assert!(!Shape::Bytes { start: 4, len: 29 }.is_within_report());
    assert!(Shape::Unit.is_within_report());
}

#[test]
fn an_exchange_with_too_many_parameters_is_not_encoded() {
    let fits = Exchange { id: CommandId::CustomMenuSetValue, params: vec![5; 31], shape: Shape::Unit };
    let sent = fits.encode().unwrap();
    assert_eq!(sent.bytes[0], 0x07);
    assert_eq!(sent.bytes[31], 5);
    let too_long =
        Exchange { id: CommandId::CustomMenuSetValue, params: vec![5; 32], shape: Shape::Unit };
    assert_eq!(too_long.encode(), Err(Error::InvalidReportSize));
}

#[test]
fn reports_are_framed_with_zero_bytes() {
    assert_eq!(Report::zeroed().bytes, [0u8; 32]);
    assert_eq!(Report::frame(&vec![]).unwrap(), Report::zeroed());
    assert_eq!(Report::frame(&vec![1, 2, 3]).unwrap(), report(&[1, 2, 3]));
    assert_eq!(Report::frame(&vec![7; 32]).unwrap().bytes, [7u8; 32]);
    assert_eq!(Report::frame(&vec![7; 33]), Err(Error::InvalidReportSize));
}

#[test]
fn only_a_buffer_of_the_report_size_is_a_report() {
    assert_eq!(Report::from_bytes(&vec![3; 32]).unwrap().bytes, [3u8; 32]);
    assert_eq!(Report::from_bytes(&vec![3; 31]), Err(Error::InvalidReportSize));
    assert_eq!(Report::from_bytes(&vec![3; 33]), Err(Error::InvalidReportSize));
    assert_eq!(Report::from_bytes(&vec![]), Err(Error::InvalidReportSize));
}

#[test]
fn report_bytes_and_windows() {
    let mut bytes = [0u8; 32];
    for (i, b) in bytes.iter_mut().enumerate() {
        *b = i as u8;
    }
    let r = Report { bytes };
    assert_eq!(r.byte(0), 0);
    assert_eq!(r.byte(31), 31);
    assert_eq!(r.window(4, 3), vec![4, 5, 6]);
    assert_eq!(r.window(30, 2), vec![30, 31]);
    assert_eq!(r.window(32, 0), Vec::<u8>::new());
    assert_eq!(r.to_vec(), bytes.to_vec());
}
