//! The input report: the bytes that carry a controller state to the host.

use vstd::prelude::*;
use crate::button::Button;
use crate::state::ControllerState;
use crate::state::ControllerView;

verus! {

/// The length of an input report in bytes.
pub const REPORT_LEN: usize = 7;

/// The report ID that opens every input report.
pub const REPORT_ID: u8 = 0x00;

/// The bytes of the input report for a state: the report ID, the low sixteen
/// button bits in two bytes, then left x, left y, right x, right y.
pub open spec fn report_bytes(s: ControllerView) -> Seq<u8> {
    seq![
        0x00u8,
        (s.buttons & 0xFF) as u8,
        ((s.buttons >> 8) & 0xFF) as u8,
        s.left_stick.x,
        s.left_stick.y,
        s.right_stick.x,
        s.right_stick.y,
    ]
}

/// One input report: a buffer of exactly `REPORT_LEN` bytes.
#[derive(Debug, Clone, Copy, PartialEq, Eq)]
pub struct HidReport {
    pub bytes: [u8; 7],
}

impl View for HidReport {
    type V = Seq<u8>;

    open spec fn view(&self) -> Seq<u8> {
        self.bytes@
    }
}

impl HidReport {
    /// The report as a vector, for a transfer.
    pub fn to_vec(&self) -> (v: Vec<u8>)
        ensures
            v@ == self@,
            v@.len() == REPORT_LEN,
    {
        let mut v: Vec<u8> = Vec::new();
        let mut i: usize = 0;
        while i < 7
            invariant
                i <= 7,
                v@ == self.bytes@.subrange(0, i as int),
            decreases 7 - i,
        {
            v.push(self.bytes[i]);
            i = i + 1;
        }
        v
    }
}

/// Encodes a state as its input report. Every state has one; the same state
/// always gives the same bytes.
pub fn encode(state: &ControllerState) -> (r: HidReport)
    ensures
        r@ == report_bytes(state@),
        r@.len() == REPORT_LEN,
{
    let buttons: u32 = state.buttons();
    let low: u32 = buttons & 0xFF;
    let high: u32 = (buttons >> 8) & 0xFF;
    assert(low < 256 && high < 256) by (bit_vector)
        requires
            low == buttons & 0xFF,
            high == (buttons >> 8) & 0xFF,
    ;
    let left = state.left_stick();
    let right = state.right_stick();
    let bytes: [u8; 7] = [REPORT_ID, low as u8, high as u8, left.x, left.y, right.x, right.y];
    HidReport { bytes }
}

/// A report has `REPORT_LEN` bytes, whatever the state.
pub proof fn lemma_report_has_fixed_length(s: ControllerView)
    ensures
        report_bytes(s).len() == REPORT_LEN,
        report_bytes(s)[0] == REPORT_ID,
{
}

/// The report is a function of the state: equal states give equal reports.
pub proof fn lemma_report_is_determined(a: ControllerView, b: ControllerView)
    requires
        a == b,
    ensures
        report_bytes(a) == report_bytes(b),
{
}

/// A button at a position below 16 shows in the report as the bit at that
/// position of the two button bytes, read as one little-endian word. The
/// buttons from position 16 up are not carried.
pub proof fn lemma_report_carries_low_buttons(s: ControllerView, button: Button)
    requires
        button.spec_bit() < 16,
    ensures
        s.pressed(button) == (if button.spec_bit() < 8 {
            report_bytes(s)[1] & (1u8 << (button.spec_bit() as u8)) != 0
        } else {
            report_bytes(s)[2] & (1u8 << ((button.spec_bit() - 8) as u8)) != 0
        }),
{
    let x = s.buttons;
    let i = button.spec_bit();
    if i < 8 {
        let k = i as u8;
        assert((x & (1u32 << i) != 0) == (((x & 0xFF) as u8) & (1u8 << k) != 0)) by (bit_vector)
            requires
                i < 8,
                k == i as u8,
        ;
    } else {
        let k = (i - 8) as u8;
        assert((x & (1u32 << i) != 0) == ((((x >> 8) & 0xFF) as u8) & (1u8 << k) != 0))
            by (bit_vector)
            requires
                8 <= i < 16,
                k == (i - 8) as u8,
        ;
    }
}

/// In the report of a well-formed state the two placeholder bits, the top
/// two of the second button byte, are clear.
pub proof fn lemma_report_keeps_placeholders_clear(s: ControllerView)
    requires
        s.wf(),
    ensures
        report_bytes(s)[2] & 0xC0 == 0,
{
    let x = s.buttons;
    assert((((x >> 8) & 0xFF) as u8) & 0xC0u8 == 0) by (bit_vector)
        requires
            x & 0xFF00_C000u32 == 0,
    ;
}

} // verus!
