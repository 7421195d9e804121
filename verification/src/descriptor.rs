//! The HID report descriptor of the controller, and the width of the input
//! report that a descriptor declares.

use vstd::prelude::*;
use crate::report::REPORT_LEN;
use crate::report::report_bytes;
use crate::state::ControllerView;

verus! {

/// The report descriptor: a game pad with sixteen one-bit buttons, a
/// four-bit hat switch with four bits of padding, and four eight-bit axes.
pub open spec fn descriptor_bytes() -> Seq<u8> {
    seq![
        0x05u8, 0x01, 0x09, 0x05, 0xA1, 0x01, 0x15, 0x00, 0x25, 0x01, 0x35, 0x00, 0x45, 0x01,
        0x75, 0x01, 0x95, 0x10, 0x05, 0x09, 0x19, 0x01, 0x29, 0x10, 0x81, 0x02, 0x05, 0x01,
        0x25, 0x07, 0x46, 0x3B, 0x01, 0x75, 0x04, 0x95, 0x01, 0x65, 0x14, 0x09, 0x39, 0x81,
        0x42, 0x65, 0x00, 0x95, 0x01, 0x81, 0x01, 0x26, 0xFF, 0x00, 0x46, 0xFF, 0x00, 0x09,
        0x30, 0x09, 0x31, 0x09, 0x32, 0x09, 0x35, 0x75, 0x08, 0x95, 0x04, 0x81, 0x02, 0xC0,
    ]
}

/// The report descriptor of the controller.
pub fn report_descriptor() -> (r: Vec<u8>)
    ensures
        r@ == descriptor_bytes(),
{
    let r: Vec<u8> = vec![
        0x05, 0x01,  // Usage Page (Generic Desktop)
        0x09, 0x05,  // Usage (Game Pad)
        0xA1, 0x01,  // Collection (Application)
        0x15, 0x00,  // Logical Minimum (0)
        0x25, 0x01,  // Logical Maximum (1)
        0x35, 0x00,  // Physical Minimum (0)
        0x45, 0x01,  // Physical Maximum (1)
        0x75, 0x01,  // Report Size (1)
        0x95, 0x10,  // Report Count (16)
        0x05, 0x09,  // Usage Page (Button)
        0x19, 0x01,  // Usage Minimum (1)
        0x29, 0x10,  // Usage Maximum (16)
        0x81, 0x02,  // Input (Data, Variable, Absolute)
        0x05, 0x01,  // Usage Page (Generic Desktop)
        0x25, 0x07,  // Logical Maximum (7)
        0x46, 0x3B, 0x01,  // Physical Maximum (315)
        0x75, 0x04,  // Report Size (4)
        0x95, 0x01,  // Report Count (1)
        0x65, 0x14,  // Unit (English Rotation, Degrees)
        0x09, 0x39,  // Usage (Hat Switch)
        0x81, 0x42,  // Input (Data, Variable, Absolute, Null State)
        0x65, 0x00,  // Unit (None)
        0x95, 0x01,  // Report Count (1)
        0x81, 0x01,  // Input (Constant)
        0x26, 0xFF, 0x00,  // Logical Maximum (255)
        0x46, 0xFF, 0x00,  // Physical Maximum (255)
        0x09, 0x30,  // Usage (X)
        0x09, 0x31,  // Usage (Y)
        0x09, 0x32,  // Usage (Z)
        0x09, 0x35,  // Usage (Rz)
        0x75, 0x08,  // Report Size (8)
        0x95, 0x04,  // Report Count (4)
        0x81, 0x02,  // Input (Data, Variable, Absolute)
        0xC0,  // End Collection
    ];
    assert(r@ =~= descriptor_bytes());
    r
}

/// The prefix byte that opens a long item. Long items are not accepted.
pub const LONG_ITEM: u8 = 0xFE;

/// The prefix of a Report Size item, without its two size bits.
pub const REPORT_SIZE: u8 = 0x74;

/// The prefix of a Report Count item, without its two size bits.
pub const REPORT_COUNT: u8 = 0x94;

/// The prefix of an Input item, without its two size bits.
pub const INPUT: u8 = 0x80;

/// The widest input report that is accepted, in bits.
pub const MAX_REPORT_BITS: u64 = 0xFFFF_FFFF;

/// The number of data bytes that follow a short item's prefix: the low two
/// bits of the prefix say 0, 1, 2 or, written as 3, 4.
pub open spec fn data_len(prefix: u8) -> int {
    if prefix % 4 == 3 {
        4
    } else {
        prefix as int % 4
    }
}

/// The `n` bytes from `at` on, read as a little-endian number.
pub open spec fn item_value(d: Seq<u8>, at: int, n: int) -> nat
    decreases n,
{
    if n <= 0 {
        0
    } else {
        d[at] as nat + 256 * item_value(d, at + 1, n - 1)
    }
}

/// The width of the input report that the items from `pos` on declare,
/// added to `bits`, where `size` and `count` are the Report Size and Report
/// Count in force at `pos`. Every Input item adds a field of `count` times
/// `size` bits. `None` where an item runs past the end, is a long item, or
/// the width passes `MAX_REPORT_BITS`.
pub open spec fn input_bits_from(d: Seq<u8>, pos: int, size: nat, count: nat, bits: nat) -> Option<nat>
    decreases d.len() - pos,
{
    if pos < 0 || pos >= d.len() {
        Some(bits)
    } else if d[pos] == LONG_ITEM || pos + 1 + data_len(d[pos]) > d.len() {
        None
    } else {
        let n = data_len(d[pos]);
        let value = item_value(d, pos + 1, n);
        let key = d[pos] - d[pos] % 4;
        if key == REPORT_SIZE {
            input_bits_from(d, pos + 1 + n, value, count, bits)
        } else if key == REPORT_COUNT {
            input_bits_from(d, pos + 1 + n, size, value, bits)
        } else if key == INPUT {
            if bits + size * count > MAX_REPORT_BITS {
                None
            } else {
                input_bits_from(d, pos + 1 + n, size, count, bits + size * count)
            }
        } else {
            input_bits_from(d, pos + 1 + n, size, count, bits)
        }
    }
}

/// The width in bits of the input report that a descriptor declares.
pub open spec fn input_bits(d: Seq<u8>) -> Option<nat> {
    input_bits_from(d, 0, 0, 0, 0)
}

proof fn lemma_item_value_bound(d: Seq<u8>, at: int, n: int)
    requires
        0 <= n <= 4,
    ensures
        item_value(d, at, n) < pow256(n),
    decreases n,
{
    if n > 0 {
        lemma_item_value_bound(d, at + 1, n - 1);
    }
}

/// 256 to the power `n`, for the lengths that an item's data can have.
pub open spec fn pow256(n: int) -> nat {
    if n <= 0 {
        1
    } else if n == 1 {
        0x100
    } else if n == 2 {
        0x1_0000
    } else if n == 3 {
        0x100_0000
    } else {
        0x1_0000_0000
    }
}

fn read_value(d: &Vec<u8>, at: usize, n: usize) -> (r: u64)
    requires
        n <= 4,
        at + n <= d@.len(),
    ensures
        r == item_value(d@, at as int, n as int),
        r <= 0xFFFF_FFFF,
    decreases n,
{
    proof {
        lemma_item_value_bound(d@, at as int, n as int);
    }
    if n == 0 {
        0
    } else {
        proof {
            lemma_item_value_bound(d@, at + 1, n - 1);
        }
        let len: usize = d.len();
        assert(at < len);
        let rest: u64 = read_value(d, at + 1, n - 1);
        d[at] as u64 + 256 * rest
    }
}

/// Walks the items of a report descriptor and gives the width in bits of
/// the input report that it declares.
pub fn input_report_bits(d: &Vec<u8>) -> (r: Option<u64>)
    ensures
        match r {
            Some(bits) => input_bits(d@) == Some(bits as nat),
            None => input_bits(d@) is None,
        },
{
    let mut pos: usize = 0;
    let mut size: u64 = 0;
    let mut count: u64 = 0;
    let mut bits: u64 = 0;
    while pos < d.len()
        invariant
            pos <= d@.len(),
            size <= 0xFFFF_FFFF,
            count <= 0xFFFF_FFFF,
            bits <= MAX_REPORT_BITS,
            input_bits(d@) == input_bits_from(d@, pos as int, size as nat, count as nat, bits as nat),
        decreases d@.len() - pos,
    {
        let prefix: u8 = d[pos];
        let code: u8 = prefix % 4;
        let n: usize = if code == 3 {
            4
        } else {
            code as usize
        };
        if prefix == LONG_ITEM || n > d.len() - pos - 1 {
            return None;
        }
        let value: u64 = read_value(d, pos + 1, n);
        let key: u8 = prefix - code;
        if key == REPORT_SIZE {
            size = value;
        } else if key == REPORT_COUNT {
            count = value;
        } else if key == INPUT {
            assert(size * count <= 0xFFFF_FFFF * 0xFFFF_FFFF) by (nonlinear_arith)
                requires
                    size <= 0xFFFF_FFFF,
                    count <= 0xFFFF_FFFF,
            ;
            let field: u64 = size * count;
            if field > MAX_REPORT_BITS - bits {
                return None;
            }
            bits = bits + field;
        }
        pos = pos + 1 + n;
    }
    Some(bits)
}

/// The controller's descriptor declares an input report of 56 bits.
pub proof fn lemma_descriptor_declares_report_bits()
    ensures
        input_bits(descriptor_bytes()) == Some(56nat),
{
    let d = descriptor_bytes();
    assert(d.len() == 70);
    reveal_with_fuel(item_value, 3);
    reveal_with_fuel(input_bits_from, 36);
}

/// The report of every state has exactly the width that the controller's
/// descriptor declares for its input report.
pub proof fn lemma_report_fills_declared_width(s: ControllerView)
    ensures
        input_bits(descriptor_bytes()) == Some(8 * report_bytes(s).len()),
        report_bytes(s).len() == REPORT_LEN,
{
    lemma_descriptor_declares_report_bits();
}

} // verus!
