use qmk_via_api::api::{KeyboardApi as QmkApi, KeyboardValue as QmkValue, ViaTransport};
use std::sync::{Arc, Mutex};
use via_cli::api::KeyboardApi;
use via_cli::codec::Value;
use via_cli::error::{Error, Outcome};
use via_cli::ids::KeyboardValue;
use via_cli::operation::MatrixInfo;
use via_cli::report::Report;
use via_cli::session::{Action, Event, Session};
use via_cli::simulator::Simulator;

/// One round trip as qmk_via_api made it.
#[derive(Clone, Debug, PartialEq)]
struct Trip {
    request: Report,
    reply: Report,
}

/// How the keyboard at the other end of the wire answers.
enum Keyboard {
    /// Echoes the request and fills what follows it with a pattern.
    Pattern { version: u16 },
    /// Echoes the first `rounds` requests and answers the next as unhandled.
    Unwilling { version: u16, rounds: usize },
    /// Stores and returns bytes.
    Memory(Simulator),
}

struct Wire {
    keyboard: Keyboard,
    trips: Arc<Mutex<Vec<Trip>>>,
    pending: Option<Report>,
}

fn pad(bytes: &[u8]) -> Report {
    let mut report = [0u8; 32];
    report[..bytes.len()].copy_from_slice(bytes);
    Report { bytes: report }
}

impl ViaTransport for Wire {
    fn write_report(&mut self, report: &[u8]) -> qmk_via_api::Result<()> {
        if report.len() > 32 {
            return Err(qmk_via_api::Error::size_mismatch("send buffer overflow", 32, report.len()));
        }
        let request = pad(report);
        let served = self.trips.lock().unwrap().len();
        let reply = match &mut self.keyboard {
            Keyboard::Memory(simulator) => simulator.respond(&request),
            Keyboard::Pattern { version } | Keyboard::Unwilling { version, .. }
                if report[0] == 0x01 =>
            {
                pad(&[0x01, (*version >> 8) as u8, *version as u8])
            }
            Keyboard::Unwilling { rounds, .. } if served > *rounds => {
                let mut reply = request;
                reply.bytes[0] = 0xff;
                reply
            }
            _ => {
                let mut reply = request;
                for i in report.len()..32 {
                    reply.bytes[i] = 0x40 + i as u8;
                }
                reply
            }
        };
        self.trips.lock().unwrap().push(Trip { request, reply });
        self.pending = Some(reply);
        Ok(())
    }

    fn read_report(&mut self, _timeout_ms: Option<i32>) -> qmk_via_api::Result<Vec<u8>> {
        Ok(self.pending.take().expect("a read without a write").to_vec())
    }
}

fn qmk_api(keyboard: Keyboard) -> (QmkApi, Arc<Mutex<Vec<Trip>>>) {
    let trips = Arc::new(Mutex::new(Vec::new()));
    let wire = Wire { keyboard, trips: trips.clone(), pending: None };
    let api = QmkApi::from_transport(Box::new(wire), None).expect("the handshake");
    (api, trips)
}

/// Runs a session of the library over the round trips that qmk_via_api
/// made: every request must be the one that qmk_via_api sent, and gets the
/// reply that qmk_via_api got.
fn replay(started: (Session, Action), trips: &[Trip]) -> Outcome<Value> {
    let (mut session, mut action) = started;
    let mut used = 0;
    loop {
        match action {
            Action::Finish(outcome) => {
                assert_eq!(used, trips.len(), "qmk_via_api made more round trips");
                return outcome;
            }
            Action::Send(request) => {
                assert!(used < trips.len(), "qmk_via_api made fewer round trips");
                assert_eq!(request, trips[used].request, "request {}", used);
                let (waiting, wait) = session.step(Event::Sent);
                assert_eq!(wait, Action::Receive);
                let next = waiting.step(Event::Reply(trips[used].reply));
                used += 1;
                session = next.0;
                action = next.1;
            }
            other => panic!("unexpected action {:?}", other),
        }
    }
}

fn outcome_of<T>(result: qmk_via_api::Result<T>, value: fn(T) -> Value) -> Outcome<Value> {
    match result {
        Ok(v) => Outcome::Success(value(v)),
        Err(qmk_via_api::Error::BadCommandResponse(_)) => Outcome::Rejected,
        Err(qmk_via_api::Error::UnsupportedProtocol(version)) => {
            Outcome::Failed(Error::UnsupportedProtocol { version })
        }
        Err(other) => panic!("unexpected error of qmk_via_api: {}", other),
    }
}

fn unit(_: ()) -> Value {
    Value::Unit
}

fn pair(p: (u8, u8)) -> Value {
    Value::Pair(p.0, p.1)
}

/// Compares one operation on a keyboard that answers with a pattern.
fn same_on_pattern(
    version: u16,
    ask: fn(&QmkApi) -> Outcome<Value>,
    start: fn(&KeyboardApi) -> (Session, Action),
) {
    let (api, trips) = qmk_api(Keyboard::Pattern { version });
    let expected = ask(&api);
    let trips = trips.lock().unwrap().clone();
    assert_eq!(trips[0].request, pad(&[0x01]));
    let got = replay(start(&KeyboardApi::new(version)), &trips[1..]);
    assert_eq!(got, expected);

    let (api, trips) = qmk_api(Keyboard::Unwilling { version, rounds: 0 });
    let expected = ask(&api);
    let trips = trips.lock().unwrap().clone();
    let got = replay(start(&KeyboardApi::new(version)), &trips[1..]);
    assert_eq!(got, expected);
}

#[test]
fn the_handshake_is_that_of_qmk_via_api() {
    let (api, trips) = qmk_api(Keyboard::Pattern { version: 0x0b0c });
    let trips = trips.lock().unwrap().clone();
    let got = replay(KeyboardApi::handshake(), &trips);
    assert_eq!(got, Outcome::Success(Value::Word(0x0b0c)));
    assert_eq!(api.get_protocol_version().unwrap(), 0x0b0c);
    assert_eq!(KeyboardApi::connect(got), Outcome::Success(KeyboardApi::new(0x0b0c)));
}

#[test]
fn keys_and_encoders_as_qmk_via_api() {
    for version in [9u16, 11] {
        same_on_pattern(
            version,
            |api| outcome_of(api.get_layer_count(), Value::Byte),
            |api| api.get_layer_count(),
        );
        same_on_pattern(
            version,
            |api| outcome_of(api.get_key(3, 4, 5), Value::Word),
            |api| api.get_key(3, 4, 5),
        );
        same_on_pattern(
            version,
            |api| outcome_of(api.set_key(3, 4, 5, 0xabcd), Value::Word),
            |api| api.set_key(3, 4, 5, 0xabcd),
        );
        same_on_pattern(
            version,
            |api| outcome_of(api.get_encoder_value(1, 2, true), Value::Word),
            |api| api.get_encoder_value(1, 2, true),
        );
        same_on_pattern(
            version,
            |api| outcome_of(api.set_encoder_value(1, 2, false, 0x1234), unit),
            |api| api.set_encoder_value(1, 2, false, 0x1234),
        );
        same_on_pattern(
            version,
            |api| outcome_of(api.get_macro_count(), Value::Byte),
            |api| api.get_macro_count(),
        );
        same_on_pattern(version, |api| outcome_of(api.reset_macros(), unit), |api| api.reset_macros());
        same_on_pattern(version, |api| outcome_of(api.reset_eeprom(), unit), |api| api.reset_eeprom());
        same_on_pattern(
            version,
            |api| outcome_of(api.jump_to_bootloader(), unit),
            |api| api.jump_to_bootloader(),
        );
        same_on_pattern(
            version,
            |api| outcome_of(api.save_lighting(), unit),
            |api| api.save_lighting(),
        );
    }
}

#[test]
fn an_old_keyboard_is_not_asked_for_its_layer_count() {
    same_on_pattern(
        7,
        |api| outcome_of(api.get_layer_count(), Value::Byte),
        |api| api.get_layer_count(),
    );
}

#[test]
fn keyboard_values_as_qmk_via_api() {
    for version in [9u16, 11] {
        same_on_pattern(
            version,
            |api| outcome_of(api.get_keyboard_value(QmkValue::Uptime, vec![], 4), Value::Bytes),
            |api| api.get_keyboard_value(KeyboardValue::Uptime, vec![], 4),
        );
        same_on_pattern(
            version,
            |api| {
                outcome_of(
                    api.get_keyboard_value(QmkValue::SwitchMatrixState, vec![1, 2], 28),
                    Value::Bytes,
                )
            },
            |api| api.get_keyboard_value(KeyboardValue::SwitchMatrixState, vec![1, 2], 28),
        );
        same_on_pattern(
            version,
            |api| {
                outcome_of(
                    api.get_keyboard_value(QmkValue::FirmwareVersion, vec![], 4),
                    Value::Bytes,
                )
            },
            |api| api.get_keyboard_value(KeyboardValue::FirmwareVersion, vec![], 4),
        );
        same_on_pattern(
            version,
            |api| {
                outcome_of(api.set_keyboard_value(QmkValue::LayoutOptions, vec![1, 2, 3]), unit)
            },
            |api| api.set_keyboard_value(KeyboardValue::LayoutOptions, vec![1, 2, 3]),
        );
        same_on_pattern(
            version,
            |api| outcome_of(api.set_keyboard_value(QmkValue::DeviceIndication, vec![]), unit),
            |api| api.set_keyboard_value(KeyboardValue::DeviceIndication, vec![]),
        );
    }
}

#[test]
fn custom_menu_as_qmk_via_api() {
    for version in [10u16, 11, 12] {
        same_on_pattern(
            version,
            |api| outcome_of(api.get_custom_menu_value(vec![3, 1]), Value::Bytes),
            |api| api.get_custom_menu_value(vec![3, 1]),
        );
        same_on_pattern(
            version,
            |api| outcome_of(api.set_custom_menu_value(vec![3, 1, 200]), unit),
            |api| api.set_custom_menu_value(vec![3, 1, 200]),
        );
        same_on_pattern(
            version,
            |api| outcome_of(api.save_custom_menu(3), unit),
            |api| api.save_custom_menu(3),
        );
    }
}

#[test]
fn backlight_and_rgblight_as_qmk_via_api() {
    for version in [8u16, 10, 11, 12] {
        same_on_pattern(
            version,
            |api| outcome_of(api.get_backlight_brightness(), Value::Byte),
            |api| api.get_backlight_brightness(),
        );
        same_on_pattern(
            version,
            |api| outcome_of(api.set_backlight_brightness(7), unit),
            |api| api.set_backlight_brightness(7),
        );
        same_on_pattern(
            version,
            |api| outcome_of(api.get_backlight_effect(), Value::Byte),
            |api| api.get_backlight_effect(),
        );
        same_on_pattern(
            version,
            |api| outcome_of(api.set_backlight_effect(7), unit),
            |api| api.set_backlight_effect(7),
        );
        same_on_pattern(
            version,
            |api| outcome_of(api.get_rgblight_brightness(), Value::Byte),
            |api| api.get_rgblight_brightness(),
        );
        same_on_pattern(
            version,
            |api| outcome_of(api.set_rgblight_brightness(7), unit),
            |api| api.set_rgblight_brightness(7),
        );
        same_on_pattern(
            version,
            |api| outcome_of(api.get_rgblight_effect(), Value::Byte),
            |api| api.get_rgblight_effect(),
        );
        same_on_pattern(
            version,
            |api| outcome_of(api.set_rgblight_effect(7), unit),
            |api| api.set_rgblight_effect(7),
        );
        same_on_pattern(
            version,
            |api| outcome_of(api.get_rgblight_effect_speed(), Value::Byte),
            |api| api.get_rgblight_effect_speed(),
        );
        same_on_pattern(
            version,
            |api| outcome_of(api.set_rgblight_effect_speed(7), unit),
            |api| api.set_rgblight_effect_speed(7),
        );
        same_on_pattern(
            version,
            |api| outcome_of(api.get_rgblight_color(), pair),
            |api| api.get_rgblight_color(),
        );
        same_on_pattern(
            version,
            |api| outcome_of(api.set_rgblight_color(120, 200), unit),
            |api| api.set_rgblight_color(120, 200),
        );
    }
}

/// qmk_via_api reports a lighting matrix that the protocol lacks as an
/// unsupported feature; here it is the protocol that is unsupported.
fn matrix_outcome<T>(
    version: u16,
    result: qmk_via_api::Result<T>,
    value: fn(T) -> Value,
) -> Outcome<Value> {
    match result {
        Err(qmk_via_api::Error::UnsupportedFeature(_)) => {
            Outcome::Failed(Error::UnsupportedProtocol { version })
        }
        other => outcome_of(other, value),
    }
}

#[test]
fn rgb_matrix_as_qmk_via_api() {
    for version in [10u16, 11] {
        let (api, trips) = qmk_api(Keyboard::Pattern { version });
        let ours = KeyboardApi::new(version);
        let mut used = 1;
        let mut same = |expected: Outcome<Value>, started: (Session, Action)| {
            let all = trips.lock().unwrap().clone();
            assert_eq!(replay(started, &all[used..]), expected);
            used = all.len();
        };
        same(
            matrix_outcome(version, api.get_rgb_matrix_brightness(), Value::Byte),
            ours.get_rgb_matrix_brightness(),
        );
        same(
            matrix_outcome(version, api.set_rgb_matrix_brightness(5), unit),
            ours.set_rgb_matrix_brightness(5),
        );
        same(
            matrix_outcome(version, api.get_rgb_matrix_effect(), Value::Byte),
            ours.get_rgb_matrix_effect(),
        );
        same(
            matrix_outcome(version, api.set_rgb_matrix_effect(5), unit),
            ours.set_rgb_matrix_effect(5),
        );
        same(
            matrix_outcome(version, api.get_rgb_matrix_effect_speed(), Value::Byte),
            ours.get_rgb_matrix_effect_speed(),
        );
        same(
            matrix_outcome(version, api.set_rgb_matrix_effect_speed(5), unit),
            ours.set_rgb_matrix_effect_speed(5),
        );
        same(
            matrix_outcome(version, api.get_rgb_matrix_color(), pair),
            ours.get_rgb_matrix_color(),
        );
        same(
            matrix_outcome(version, api.set_rgb_matrix_color(5, 6), unit),
            ours.set_rgb_matrix_color(5, 6),
        );
    }
}

#[test]
fn led_matrix_as_qmk_via_api() {
    for version in [10u16, 11] {
        let (api, trips) = qmk_api(Keyboard::Pattern { version });
        let ours = KeyboardApi::new(version);
        let mut used = 1;
        let mut same = |expected: Outcome<Value>, started: (Session, Action)| {
            let all = trips.lock().unwrap().clone();
            assert_eq!(replay(started, &all[used..]), expected);
            used = all.len();
        };
        same(
            matrix_outcome(version, api.get_led_matrix_brightness(), Value::Byte),
            ours.get_led_matrix_brightness(),
        );
        same(
            matrix_outcome(version, api.set_led_matrix_brightness(5), unit),
            ours.set_led_matrix_brightness(5),
        );
        same(
            matrix_outcome(version, api.get_led_matrix_effect(), Value::Byte),
            ours.get_led_matrix_effect(),
        );
        same(
            matrix_outcome(version, api.set_led_matrix_effect(5), unit),
            ours.set_led_matrix_effect(5),
        );
        same(
            matrix_outcome(version, api.get_led_matrix_effect_speed(), Value::Byte),
            ours.get_led_matrix_effect_speed(),
        );
        same(
            matrix_outcome(version, api.set_led_matrix_effect_speed(5), unit),
            ours.set_led_matrix_effect_speed(5),
        );
    }
}

fn filled(version: u16, keymap: usize, macros: usize) -> Simulator {
    let mut keyboard = Simulator::new(version, 4, keymap, macros);
    for (i, b) in keyboard.keymap.iter_mut().enumerate() {
        *b = (i * 7 % 256) as u8;
    }
    for (i, b) in keyboard.macros.iter_mut().enumerate() {
        *b = (i * 5 % 256) as u8;
    }
    keyboard
}

#[test]
fn a_matrix_is_read_as_by_qmk_via_api() {
    for (rows, cols, layer) in
        [(0u8, 0u8, 0u8), (1, 1, 0), (1, 13, 1), (2, 7, 0), (2, 7, 3), (3, 5, 2), (6, 17, 1)]
    {
        let (api, trips) = qmk_api(Keyboard::Memory(filled(11, 2048, 0)));
        let info = qmk_via_api::api::MatrixInfo { rows, cols };
        let expected = outcome_of(api.read_raw_matrix(info, layer), Value::Words);
        let trips = trips.lock().unwrap().clone();
        let got = replay(
            KeyboardApi::new(11).read_raw_matrix(MatrixInfo { rows, cols }, layer),
            &trips[1..],
        );
        assert_eq!(got, expected);
        assert_eq!(trips.len() - 1, (2 * rows as usize * cols as usize + 27) / 28);
    }
}

#[test]
fn a_matrix_is_written_as_by_qmk_via_api() {
    for sizes in [vec![], vec![0], vec![1], vec![14], vec![15], vec![16, 16, 5], vec![40, 3]] {
        let layers: Vec<Vec<u16>> = sizes
            .iter()
            .enumerate()
            .map(|(l, n)| (0..*n as u16).map(|k| 0x0101 * (l as u16 + 1) + 3 * k).collect())
            .collect();
        let (api, trips) = qmk_api(Keyboard::Memory(filled(11, 2048, 0)));
        let info = qmk_via_api::api::MatrixInfo { rows: 4, cols: 4 };
        let expected = outcome_of(api.write_raw_matrix(info, layers.clone()), unit);
        let trips = trips.lock().unwrap().clone();
        let got = replay(
            KeyboardApi::new(11).write_raw_matrix(MatrixInfo { rows: 4, cols: 4 }, layers),
            &trips[1..],
        );
        assert_eq!(got, expected);
    }
}

#[test]
fn macros_are_read_as_by_qmk_via_api() {
    for size in [0usize, 1, 28, 29, 300] {
        let (api, trips) = qmk_api(Keyboard::Memory(filled(11, 0, size)));
        let expected = outcome_of(api.get_macro_bytes(), Value::Bytes);
        let trips = trips.lock().unwrap().clone();
        let got = replay(KeyboardApi::new(11).get_macro_bytes(), &trips[1..]);
        assert_eq!(got, expected);
    }
}

#[test]
fn macros_are_written_as_by_qmk_via_api() {
    for (size, len) in [(1usize, 0usize), (1, 1), (64, 0), (64, 28), (64, 29), (64, 64), (300, 120)] {
        let data: Vec<u8> = (0..len).map(|i| (i % 255 + 1) as u8).collect();
        let (api, trips) = qmk_api(Keyboard::Memory(filled(11, 0, size)));
        let expected = outcome_of(api.set_macro_bytes(data.clone()), unit);
        let trips = trips.lock().unwrap().clone();
        let got = replay(KeyboardApi::new(11).set_macro_bytes(data), &trips[1..]);
        assert_eq!(got, expected);
        assert_eq!(trips.len() - 1, 4 + (len + 27) / 28);
    }
}

#[test]
fn macros_that_do_not_fit_are_refused_as_by_qmk_via_api() {
    let (api, trips) = qmk_api(Keyboard::Memory(filled(11, 0, 8)));
    let refused = api.set_macro_bytes(vec![1; 9]);
    assert!(matches!(
        refused,
        Err(qmk_via_api::Error::SizeMismatch { expected: 8, actual: 9, .. })
    ));
    let trips = trips.lock().unwrap().clone();
    let got = replay(KeyboardApi::new(11).set_macro_bytes(vec![1; 9]), &trips[1..]);
    assert_eq!(got, Outcome::Failed(Error::BufferOverflow { capacity: 8, actual: 9 }));
}

#[test]
fn a_transfer_that_is_rejected_midway_stops_where_qmk_via_api_stops() {
    let (api, trips) = qmk_api(Keyboard::Unwilling { version: 11, rounds: 2 });
    let info = qmk_via_api::api::MatrixInfo { rows: 10, cols: 10 };
    assert!(matches!(
        api.read_raw_matrix(info, 0),
        Err(qmk_via_api::Error::BadCommandResponse(_))
    ));
    let trips = trips.lock().unwrap().clone();
    assert_eq!(trips.len(), 4);
    let got =
        replay(KeyboardApi::new(11).read_raw_matrix(MatrixInfo { rows: 10, cols: 10 }, 0), &trips[1..]);
    assert_eq!(got, Outcome::Failed(Error::PartialTransfer { completed: 2 }));
}

#[test]
fn raw_bytes_are_sent_as_by_qmk_via_api() {
    let (api, trips) = qmk_api(Keyboard::Pattern { version: 11 });
    api.hid_send(vec![0x0c, 9, 8]).unwrap();
    let sent = trips.lock().unwrap()[1].request;
    let (_, action) = KeyboardApi::new(11).hid_send(vec![0x0c, 9, 8]);
    assert_eq!(action, Action::Send(sent));
    assert!(api.hid_send(vec![0; 33]).is_err());
}
