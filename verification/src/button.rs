//! The logical buttons of the controller and their bit positions.

use vstd::prelude::*;

verus! {

/// A logical button. Each one owns a bit position in `0..24`; positions 14
/// and 15 are placeholders of the wire protocol and belong to no button.
#[derive(Debug, Clone, Copy, PartialEq, Eq, Structural)]
pub enum Button {
    Y,
    X,
    B,
    A,
    SrR,
    SlR,
    R,
    ZR,
    MINUS,
    PLUS,
    RSTICK,
    LSTICK,
    HOME,
    CAPTURE,
    DOWN,
    UP,
    RIGHT,
    LEFT,
    SrL,
    SlL,
    L,
    ZL,
}

impl Button {
    /// The bit position of the button.
    pub open spec fn spec_bit(self) -> u32 {
        match self {
            Button::Y => 0,
            Button::X => 1,
            Button::B => 2,
            Button::A => 3,
            Button::SrR => 4,
            Button::SlR => 5,
            Button::R => 6,
            Button::ZR => 7,
            Button::MINUS => 8,
            Button::PLUS => 9,
            Button::RSTICK => 10,
            Button::LSTICK => 11,
            Button::HOME => 12,
            Button::CAPTURE => 13,
            Button::DOWN => 16,
            Button::UP => 17,
            Button::RIGHT => 18,
            Button::LEFT => 19,
            Button::SrL => 20,
            Button::SlL => 21,
            Button::L => 22,
            Button::ZL => 23,
        }
    }

    /// The bit position of the button.
    #[verifier::when_used_as_spec(spec_bit)]
    pub fn bit(self) -> (r: u32)
        ensures
            r == self.spec_bit(),
            r < 24,
            r != 14,
            r != 15,
    {
        match self {
            Button::Y => 0,
            Button::X => 1,
            Button::B => 2,
            Button::A => 3,
            Button::SrR => 4,
            Button::SlR => 5,
            Button::R => 6,
            Button::ZR => 7,
            Button::MINUS => 8,
            Button::PLUS => 9,
            Button::RSTICK => 10,
            Button::LSTICK => 11,
            Button::HOME => 12,
            Button::CAPTURE => 13,
            Button::DOWN => 16,
            Button::UP => 17,
            Button::RIGHT => 18,
            Button::LEFT => 19,
            Button::SrL => 20,
            Button::SlL => 21,
            Button::L => 22,
            Button::ZL => 23,
        }
    }

    /// The word with only the button's bit set.
    pub open spec fn spec_mask(self) -> u32 {
        1u32 << self.spec_bit()
    }

    /// The word with only the button's bit set.
    #[verifier::when_used_as_spec(spec_mask)]
    pub fn mask(self) -> (r: u32)
        ensures
            r == self.spec_mask(),
            r != 0,
            r & RESERVED_BITS == 0,
    {
        let i: u32 = self.bit();
        assert((1u32 << i) != 0 && (1u32 << i) & 0xFF00_C000u32 == 0) by (bit_vector)
            requires
                i < 24,
                i != 14,
                i != 15,
        ;
        1u32 << i
    }
}

/// The bits of a button word that no button owns: the two placeholder
/// positions 14 and 15, and everything from position 24 up.
pub const RESERVED_BITS: u32 = 0xFF00_C000;

/// Two buttons with the same bit position are the same button.
pub proof fn lemma_bit_is_injective(a: Button, b: Button)
    requires
        a.spec_bit() == b.spec_bit(),
    ensures
        a == b,
{
}

/// Every button's position is below 24 and is neither 14 nor 15.
pub proof fn lemma_bit_in_range(b: Button)
    ensures
        b.spec_bit() < 24,
        b.spec_bit() != 14,
        b.spec_bit() != 15,
{
}

} // verus!
