//! What a command-line front end decides before it prints: which device
//! is meant, how an outcome is reported and with which exit status, how a
//! keymap given as one list is grouped, and what a row of the device table
//! holds.

use vstd::prelude::*;
use vstd::string::*;
use crate::codec::Value;
use crate::error::Outcome;
use crate::operation::flattened;
use crate::scanner::DeviceIdentity;

verus! {

/// Exit status when an operation ended with a result or a rejection.
pub const EXIT_OK: u8 = 0;

/// Exit status when an operation failed.
pub const EXIT_FAILURE: u8 = 1;

/// Exit status when the vendor id or the product id is missing.
pub const EXIT_USAGE: u8 = 2;

/// Number of keycodes in one group of a keymap given as one list.
pub const KEYMAP_GROUP: usize = 16;

/// How an outcome is reported.
#[derive(Clone, Copy, Debug, PartialEq, Eq)]
pub enum Notice {
    /// Print the result.
    Result,
    /// Print nothing: the command was accepted and has no result.
    Silence,
    /// Say that the keyboard rejected the command.
    Rejection,
    /// Print the failure as a diagnostic.
    Failure,
}

/// How an outcome is reported: a result is printed unless it is empty, a
/// rejection is said to be one, a failure is printed as a diagnostic.
pub fn notice(outcome: &Outcome<Value>) -> (how: Notice)
    ensures
        how == match outcome@ {
            Outcome::Success(value) => if value is Unit {
                Notice::Silence
            } else {
                Notice::Result
            },
            Outcome::Rejected => Notice::Rejection,
            Outcome::Failed(_) => Notice::Failure,
        },
{
    match outcome {
        Outcome::Success(Value::Unit) => Notice::Silence,
        Outcome::Success(_) => Notice::Result,
        Outcome::Rejected => Notice::Rejection,
        Outcome::Failed(_) => Notice::Failure,
    }
}

/// The exit status for an outcome: only a failure is an error.
pub fn exit_status(outcome: &Outcome<Value>) -> (status: u8)
    ensures
        status == if outcome@ is Failed {
            EXIT_FAILURE
        } else {
            EXIT_OK
        },
{
    match outcome {
        Outcome::Failed(_) => EXIT_FAILURE,
        _ => EXIT_OK,
    }
}

/// The device that is meant: a command for a keyboard needs both the
/// vendor id and the product id.
pub fn target(vendor_id: Option<u16>, product_id: Option<u16>) -> (ids: Option<(u16, u16)>)
    ensures
        ids == if vendor_id is Some && product_id is Some {
            Some((vendor_id->Some_0, product_id->Some_0))
        } else {
            None
        },
{
    match (vendor_id, product_id) {
        (Some(v), Some(p)) => Some((v, p)),
        _ => None,
    }
}

/// Number of groups of `size` into which `len` items fall, the last one
/// holding what is left.
pub open spec fn group_count(len: nat, size: nat) -> nat {
    ((len + size - 1) / (size as int)) as nat
}

/// Groups a keymap given as one list: groups of `size` keycodes in the
/// order given, the last group holding what is left.  No group is empty.
pub fn group_keymap(keymap: &Vec<u16>, size: usize) -> (groups: Vec<Vec<u16>>)
    requires
        size > 0,
    ensures
        flattened(groups@) == keymap@,
        groups@.len() == group_count(keymap@.len(), size as nat),
        forall|i: int| 0 <= i < groups@.len() - 1 ==> (#[trigger] groups@[i])@.len() == size,
        groups@.len() > 0 ==> 0 < groups@.last()@.len() <= size,
{
    let mut groups: Vec<Vec<u16>> = Vec::new();
    let mut start: usize = 0;
    proof {
        assert(0 == 0 * size) by (nonlinear_arith);
        assert(group_count(0, size as nat) == 0) by (nonlinear_arith)
            requires
                size > 0,
        ;
        assert(flattened(groups@) =~= keymap@.subrange(0, 0));
    }
    while start < keymap.len()
        invariant
            size > 0,
            start <= keymap@.len(),
            start == groups@.len() * size || start == keymap@.len(),
            flattened(groups@) == keymap@.subrange(0, start as int),
            groups@.len() == group_count(start as nat, size as nat),
            forall|i: int| 0 <= i < groups@.len() - 1 ==> (#[trigger] groups@[i])@.len() == size,
            groups@.len() > 0 ==> 0 < groups@.last()@.len() <= size,
            start < keymap@.len() ==> forall|i: int|
                0 <= i < groups@.len() ==> (#[trigger] groups@[i])@.len() == size,
        decreases keymap@.len() - start,
    {
        let end: usize = if keymap.len() - start < size {
            keymap.len()
        } else {
            start + size
        };
        let mut group: Vec<u16> = Vec::new();
        let mut i: usize = start;
        while i < end
            invariant
                start <= i <= end <= keymap@.len(),
                group@ == keymap@.subrange(start as int, i as int),
            decreases end - i,
        {
            group.push(keymap[i]);
            assert(group@ =~= keymap@.subrange(start as int, i + 1));
            i += 1;
        }
        let ghost before = groups@;
        groups.push(group);
        proof {
            assert(groups@.drop_last() =~= before);
            assert(flattened(groups@) =~= keymap@.subrange(0, end as int));
            assert(group_count(end as nat, size as nat) == before.len() + 1) by (nonlinear_arith)
                requires
                    start == before.len() * size,
                    start < end <= start + size,
                    size > 0,
            ;
            if end == start + size {
                assert(end == groups@.len() * size) by (nonlinear_arith)
                    requires
                        start == before.len() * size,
                        end == start + size,
                        groups@.len() == before.len() + 1,
                ;
            }
        }
        start = end;
    }
    assert(keymap@.subrange(0, keymap@.len() as int) =~= keymap@);
    groups
}

/// The character that stands for a value from zero to fifteen in
/// hexadecimal, in lower case.
pub open spec fn hex_digit(nibble: int) -> char {
    if nibble == 0 {
        '0'
    } else if nibble == 1 {
        '1'
    } else if nibble == 2 {
        '2'
    } else if nibble == 3 {
        '3'
    } else if nibble == 4 {
        '4'
    } else if nibble == 5 {
        '5'
    } else if nibble == 6 {
        '6'
    } else if nibble == 7 {
        '7'
    } else if nibble == 8 {
        '8'
    } else if nibble == 9 {
        '9'
    } else if nibble == 10 {
        'a'
    } else if nibble == 11 {
        'b'
    } else if nibble == 12 {
        'c'
    } else if nibble == 13 {
        'd'
    } else if nibble == 14 {
        'e'
    } else {
        'f'
    }
}

/// An id as four hexadecimal digits in lower case, with leading zeros.
pub open spec fn hex_of(id: u16) -> Seq<char> {
    seq![
        hex_digit(id as int / 4096),
        hex_digit(id as int / 256 % 16),
        hex_digit(id as int / 16 % 16),
        hex_digit(id as int % 16),
    ]
}

/// The digit for a value from zero to fifteen.
fn digit(nibble: u16) -> (text: &'static str)
    requires
        nibble < 16,
    ensures
        text@ == seq![hex_digit(nibble as int)],
{
    proof {
        reveal_strlit("0");
        reveal_strlit("1");
        reveal_strlit("2");
        reveal_strlit("3");
        reveal_strlit("4");
        reveal_strlit("5");
        reveal_strlit("6");
        reveal_strlit("7");
        reveal_strlit("8");
        reveal_strlit("9");
        reveal_strlit("a");
        reveal_strlit("b");
        reveal_strlit("c");
        reveal_strlit("d");
        reveal_strlit("e");
        reveal_strlit("f");
    }
    let text = match nibble {
        0 => "0",
        1 => "1",
        2 => "2",
        3 => "3",
        4 => "4",
        5 => "5",
        6 => "6",
        7 => "7",
        8 => "8",
        9 => "9",
        10 => "a",
        11 => "b",
        12 => "c",
        13 => "d",
        14 => "e",
        _ => "f",
    };
    assert(text@ =~= seq![hex_digit(nibble as int)]);
    text
}

/// An id as four hexadecimal digits in lower case, with leading zeros.
pub fn hex(id: u16) -> (text: String)
    ensures
        text@ == hex_of(id),
{
    let mut text = String::from_str(digit(id / 4096));
    text.append(digit(id / 256 % 16));
    text.append(digit(id / 16 % 16));
    text.append(digit(id % 16));
    assert(text@ =~= hex_of(id));
    text
}

/// The text of a cell: the text if there is one, else nothing.
pub open spec fn cell_of(text: Option<String>) -> Seq<char> {
    match text {
        Some(s) => s@,
        None => Seq::empty(),
    }
}

fn cell(text: &Option<String>) -> (shown: String)
    ensures
        shown@ == cell_of(*text),
{
    match text {
        Some(s) => s.clone(),
        None => String::new(),
    }
}

/// The row of the device table for one device: vendor id, product id and
/// usage page in hexadecimal, then manufacturer, product and serial
/// number, each empty where the device gives none.
pub fn device_row(device: &DeviceIdentity) -> (row: Vec<String>)
    ensures
        row@.len() == 6,
        row@[0]@ == hex_of(device.vendor_id),
        row@[1]@ == hex_of(device.product_id),
        row@[2]@ == hex_of(device.usage_page),
        row@[3]@ == cell_of(device.manufacturer),
        row@[4]@ == cell_of(device.product),
        row@[5]@ == cell_of(device.serial_number),
{
    let mut row: Vec<String> = Vec::new();
    row.push(hex(device.vendor_id));
    row.push(hex(device.product_id));
    row.push(hex(device.usage_page));
    row.push(cell(&device.manufacturer));
    row.push(cell(&device.product));
    row.push(cell(&device.serial_number));
    row
}

} // verus!
