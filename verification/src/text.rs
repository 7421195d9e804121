//! The text forms of the numbers that configfs attributes hold.

use vstd::prelude::*;

verus! {

/// The lower-case hexadecimal digit for a value below 16, as an ASCII byte.
pub open spec fn hex_digit(d: int) -> u8 {
    if d < 10 {
        (48 + d) as u8
    } else {
        (87 + d) as u8
    }
}

/// A 16-bit value as `0x` and four lower-case hexadecimal digits.
pub open spec fn hex_text(v: u16) -> Seq<u8> {
    seq![
        48u8,
        120u8,
        hex_digit(v as int / 4096),
        hex_digit((v as int / 256) % 16),
        hex_digit((v as int / 16) % 16),
        hex_digit(v as int % 16),
    ]
}

/// A number in decimal, without sign or leading zeros.
pub open spec fn decimal_text(n: nat) -> Seq<u8>
    decreases n,
{
    if n < 10 {
        seq![(48 + n) as u8]
    } else {
        decimal_text(n / 10).push((48 + n % 10) as u8)
    }
}

fn hex_digit_of(d: u16) -> (r: u8)
    requires
        d < 16,
    ensures
        r == hex_digit(d as int),
{
    if d < 10 {
        (48 + d) as u8
    } else {
        (87 + d) as u8
    }
}

/// Formats a 16-bit value as `0x` and four lower-case hexadecimal digits.
pub fn format_hex(v: u16) -> (r: Vec<u8>)
    ensures
        r@ == hex_text(v),
        r@.len() == 6,
{
    let mut r: Vec<u8> = Vec::new();
    r.push(48);
    r.push(120);
    r.push(hex_digit_of(v / 4096));
    r.push(hex_digit_of((v / 256) % 16));
    r.push(hex_digit_of((v / 16) % 16));
    r.push(hex_digit_of(v % 16));
    assert(r@ =~= hex_text(v));
    r
}

/// Formats a number in decimal, without sign or leading zeros.
pub fn format_decimal(n: u32) -> (r: Vec<u8>)
    ensures
        r@ == decimal_text(n as nat),
    decreases n,
{
    if n < 10 {
        let mut r: Vec<u8> = Vec::new();
        r.push((48 + n) as u8);
        assert(r@ =~= decimal_text(n as nat));
        r
    } else {
        let mut r = format_decimal(n / 10);
        r.push((48 + n % 10) as u8);
        r
    }
}

/// Every byte of a hexadecimal text is `0`-`9`, `a`-`f` or the `x` of the
/// prefix.
pub proof fn lemma_hex_text_is_hex(v: u16, i: int)
    requires
        0 <= i < 6,
    ensures
        hex_text(v).len() == 6,
        hex_text(v)[0] == 48,
        hex_text(v)[1] == 120,
        i >= 2 ==> (48 <= hex_text(v)[i] <= 57 || 97 <= hex_text(v)[i] <= 102),
{
}

/// Every byte of a decimal text is a digit, and the text is never empty.
pub proof fn lemma_decimal_text_is_digits(n: nat)
    ensures
        decimal_text(n).len() >= 1,
        forall|i: int| 0 <= i < decimal_text(n).len() ==> 48 <= #[trigger] decimal_text(n)[i] <= 57,
    decreases n,
{
    if n >= 10 {
        lemma_decimal_text_is_digits(n / 10);
    }
}

} // verus!
