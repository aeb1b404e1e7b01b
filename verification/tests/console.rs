use via_cli::codec::Value;
use via_cli::console::{
    device_row, exit_status, group_keymap, hex, notice, target, Notice, EXIT_FAILURE, EXIT_OK,
    EXIT_USAGE, KEYMAP_GROUP,
};
use via_cli::error::{Error, Outcome};
use via_cli::scanner::DeviceIdentity;

#[test]
fn a_result_is_printed_unless_it_is_empty() {
    assert_eq!(notice(&Outcome::Success(Value::Byte(4))), Notice::Result);
    assert_eq!(notice(&Outcome::Success(Value::Word(4))), Notice::Result);
    assert_eq!(notice(&Outcome::Success(Value::Pair(1, 2))), Notice::Result);
    assert_eq!(notice(&Outcome::Success(Value::Bytes(vec![]))), Notice::Result);
    assert_eq!(notice(&Outcome::Success(Value::Words(vec![1]))), Notice::Result);
    assert_eq!(notice(&Outcome::Success(Value::Unit)), Notice::Silence);
    assert_eq!(notice(&Outcome::Rejected), Notice::Rejection);
    assert_eq!(notice(&Outcome::Failed(Error::Timeout)), Notice::Failure);
}

#[test]
fn only_a_failure_is_an_error_status() {
    assert_eq!(exit_status(&Outcome::Success(Value::Unit)), 0);
    assert_eq!(exit_status(&Outcome::Success(Value::Byte(1))), 0);
    assert_eq!(exit_status(&Outcome::Rejected), 0);
    assert_eq!(exit_status(&Outcome::Failed(Error::Io)), 1);
    assert_eq!(exit_status(&Outcome::Failed(Error::DeviceNotFound)), 1);
    assert_eq!((EXIT_OK, EXIT_FAILURE, EXIT_USAGE), (0, 1, 2));
}

#[test]
fn a_target_needs_both_ids() {
    assert_eq!(target(Some(1), Some(2)), Some((1, 2)));
    assert_eq!(target(Some(1), None), None);
    assert_eq!(target(None, Some(2)), None);
    assert_eq!(target(None, None), None);
}

#[test]
fn a_keymap_is_grouped_by_sixteen() {
    assert_eq!(KEYMAP_GROUP, 16);
    assert_eq!(group_keymap(&vec![], 16), Vec::<Vec<u16>>::new());
    assert_eq!(group_keymap(&vec![7], 16), vec![vec![7]]);
    let sixteen: Vec<u16> = (0..16).collect();
    assert_eq!(group_keymap(&sixteen, 16), vec![sixteen.clone()]);
    let seventeen: Vec<u16> = (0..17).collect();
    assert_eq!(group_keymap(&seventeen, 16), vec![sixteen, vec![16]]);
    let many: Vec<u16> = (0..40).collect();
    let groups = group_keymap(&many, 16);
    assert_eq!(groups.len(), 3);
    assert_eq!(groups[2], (32..40).collect::<Vec<u16>>());
    assert_eq!(groups.concat(), many);
    let expected: Vec<Vec<u16>> = many.chunks(16).map(|c| c.to_vec()).collect();
    assert_eq!(groups, expected);
    assert_eq!(group_keymap(&many, 1).len(), 40);
    assert_eq!(group_keymap(&many, 100), vec![many.clone()]);
}

#[test]
fn ids_are_shown_as_four_hexadecimal_digits() {
    assert_eq!(hex(0), "0000");
    assert_eq!(hex(0xff60), "ff60");
    assert_eq!(hex(0x0a0b), "0a0b");
    assert_eq!(hex(0x1234), "1234");
    assert_eq!(hex(0xffff), "ffff");
    assert_eq!(hex(9), "0009");
    for id in [0u16, 1, 15, 16, 255, 256, 4095, 4096, 0xabcd, 0xfeed, 65535] {
        assert_eq!(hex(id), format!("{:04x}", id));
    }
}

#[test]
fn a_row_of_the_device_table() {
    let full = DeviceIdentity {
        vendor_id: 0xfeed,
        product_id: 0x0060,
        usage_page: 0xff60,
        manufacturer: Some("Maker".to_string()),
        product: Some("Board".to_string()),
        serial_number: Some("S1".to_string()),
    };
    assert_eq!(device_row(&full), vec!["feed", "0060", "ff60", "Maker", "Board", "S1"]);
    let bare = DeviceIdentity {
        vendor_id: 1,
        product_id: 2,
        usage_page: 3,
        manufacturer: None,
        product: None,
        serial_number: None,
    };
    assert_eq!(device_row(&bare), vec!["0001", "0002", "0003", "", "", ""]);
}
