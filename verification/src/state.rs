//! The in-memory model of the controller: which buttons are held and where
//! the two sticks stand.

use vstd::prelude::*;
use crate::button::Button;
use crate::button::RESERVED_BITS;

verus! {

/// The position of one stick. Each axis covers the full byte range; the rest
/// position is 128 on both.
#[derive(Debug, Clone, Copy, PartialEq, Eq, Structural)]
pub struct StickState {
    pub x: u8,
    pub y: u8,
}

/// The rest position of a stick axis.
pub const STICK_CENTER: u8 = 128;

impl StickState {
    /// The stick at rest.
    pub open spec fn spec_centered() -> StickState {
        StickState { x: 128, y: 128 }
    }

    /// The stick at rest.
    #[verifier::when_used_as_spec(spec_centered)]
    pub fn centered() -> (r: StickState)
        ensures
            r == StickState::spec_centered(),
    {
        StickState { x: STICK_CENTER, y: STICK_CENTER }
    }
}

/// The axis value that lies `offset` away from rest, held to the byte range:
/// what would fall below 0 is 0, what would pass 255 is 255.
pub open spec fn axis_at(offset: int) -> u8 {
    if 128 + offset < 0 {
        0
    } else if 128 + offset > 255 {
        255
    } else {
        (128 + offset) as u8
    }
}

/// The axis value that lies `offset` away from rest, held to the byte range
/// before it is narrowed to a byte.
pub fn axis_from_offset(offset: i64) -> (r: u8)
    ensures
        r == axis_at(offset as int),
{
    if offset < -128 {
        0
    } else if offset > 127 {
        255
    } else {
        (128 + offset) as u8
    }
}

/// What a `ControllerState` stands for: the button word and both sticks.
pub struct ControllerView {
    pub buttons: u32,
    pub left_stick: StickState,
    pub right_stick: StickState,
}

impl ControllerView {
    /// All buttons released, both sticks at rest.
    pub open spec fn neutral() -> ControllerView {
        ControllerView {
            buttons: 0,
            left_stick: StickState::spec_centered(),
            right_stick: StickState::spec_centered(),
        }
    }

    /// No bit is set that no button owns.
    pub open spec fn wf(self) -> bool {
        self.buttons & RESERVED_BITS == 0
    }

    /// Whether `button` is held.
    pub open spec fn pressed(self, button: Button) -> bool {
        self.buttons & button.spec_mask() != 0
    }

    /// The state with `button` held.
    pub open spec fn press(self, button: Button) -> ControllerView {
        ControllerView { buttons: self.buttons | button.spec_mask(), ..self }
    }

    /// The state with `button` released.
    pub open spec fn release(self, button: Button) -> ControllerView {
        ControllerView { buttons: self.buttons & !button.spec_mask(), ..self }
    }

    /// The state with the left stick at `(x, y)`.
    pub open spec fn with_left_stick(self, x: u8, y: u8) -> ControllerView {
        ControllerView { left_stick: StickState { x, y }, ..self }
    }

    /// The state with the right stick at `(x, y)`.
    pub open spec fn with_right_stick(self, x: u8, y: u8) -> ControllerView {
        ControllerView { right_stick: StickState { x, y }, ..self }
    }
}

/// Pressing a button twice is the same as pressing it once.
pub proof fn lemma_press_is_idempotent(s: ControllerView, button: Button)
    ensures
        s.press(button).press(button) == s.press(button),
{
    let x = s.buttons;
    let m = button.spec_mask();
    assert((x | m) | m == x | m) by (bit_vector);
}

/// Releasing a button twice is the same as releasing it once.
pub proof fn lemma_release_is_idempotent(s: ControllerView, button: Button)
    ensures
        s.release(button).release(button) == s.release(button),
{
    let x = s.buttons;
    let m = button.spec_mask();
    assert((x & !m) & !m == x & !m) by (bit_vector);
}

/// Pressing a button that was not held and releasing it again gives back
/// the state as it was, bit for bit.
pub proof fn lemma_press_then_release_restores(s: ControllerView, button: Button)
    requires
        !s.pressed(button),
    ensures
        s.press(button).release(button) == s,
{
    let x = s.buttons;
    let m = button.spec_mask();
    assert((x | m) & !m == x) by (bit_vector)
        requires
            x & m == 0,
    ;
}

/// Whatever was held before, pressing and then releasing a button leaves the
/// state that releasing it alone would leave.
pub proof fn lemma_press_then_release_is_release(s: ControllerView, button: Button)
    ensures
        s.press(button).release(button) == s.release(button),
{
    let x = s.buttons;
    let m = button.spec_mask();
    assert((x | m) & !m == x & !m) by (bit_vector);
}

/// After a press, exactly the pressed button and those held before are held.
pub proof fn lemma_press_holds(s: ControllerView, button: Button, other: Button)
    ensures
        s.press(button).pressed(other) == (other == button || s.pressed(other)),
{
    let x = s.buttons;
    let i = button.spec_bit();
    let j = other.spec_bit();
    assert(((x | (1u32 << i)) & (1u32 << j) != 0) == (i == j || x & (1u32 << j) != 0))
        by (bit_vector)
        requires
            i < 24,
            j < 24,
    ;
    if i == j {
        crate::button::lemma_bit_is_injective(button, other);
    }
}

/// After a release, exactly those held before other than the released
/// button are held.
pub proof fn lemma_release_frees(s: ControllerView, button: Button, other: Button)
    ensures
        s.release(button).pressed(other) == (other != button && s.pressed(other)),
{
    let x = s.buttons;
    let i = button.spec_bit();
    let j = other.spec_bit();
    assert(((x & !(1u32 << i)) & (1u32 << j) != 0) == (i != j && x & (1u32 << j) != 0))
        by (bit_vector)
        requires
            i < 24,
            j < 24,
    ;
    if i == j {
        crate::button::lemma_bit_is_injective(button, other);
    }
}

/// Pressing and releasing keep a well-formed state well formed, and the
/// neutral state is well formed.
pub proof fn lemma_wf_is_kept(s: ControllerView, button: Button)
    requires
        s.wf(),
    ensures
        s.press(button).wf(),
        s.release(button).wf(),
        ControllerView::neutral().wf(),
        forall|other: Button| !ControllerView::neutral().pressed(other),
{
    let x = s.buttons;
    let i = button.spec_bit();
    assert((x | (1u32 << i)) & 0xFF00_C000u32 == 0 && (x & !(1u32 << i)) & 0xFF00_C000u32 == 0)
        by (bit_vector)
        requires
            x & 0xFF00_C000u32 == 0,
            i < 24,
            i != 14,
            i != 15,
    ;
    assert(0u32 & 0xFF00_C000u32 == 0) by (bit_vector);
    assert forall|other: Button| !ControllerView::neutral().pressed(other) by {
        let m = other.spec_mask();
        assert(0u32 & m == 0) by (bit_vector);
    }
}

/// The buttons and sticks of the controller at one instant. A value type:
/// made fresh for a report, changed by commands, encoded and sent.
#[derive(Debug, Clone, Copy, PartialEq, Eq)]
pub struct ControllerState {
    buttons: u32,
    left_stick: StickState,
    right_stick: StickState,
}

impl View for ControllerState {
    type V = ControllerView;

    closed spec fn view(&self) -> ControllerView {
        ControllerView {
            buttons: self.buttons,
            left_stick: self.left_stick,
            right_stick: self.right_stick,
        }
    }
}

impl Default for ControllerState {
    /// All buttons released, both sticks at rest.
    fn default() -> (r: Self)
        ensures
            r@ == ControllerView::neutral(),
    {
        assert(0u32 & 0xFF00_C000u32 == 0) by (bit_vector);
        ControllerState {
            buttons: 0,
            left_stick: StickState::centered(),
            right_stick: StickState::centered(),
        }
    }
}

impl ControllerState {
    #[verifier::type_invariant]
    closed spec fn inv(self) -> bool {
        self@.wf()
    }

    /// Every state that exists at run time is well formed.
    pub fn prove_wf(&self)
        ensures
            self@.wf(),
    {
        proof {
            use_type_invariant(self);
        }
    }

    /// Holds `button`. Holding a button that is already held changes nothing.
    pub fn press_button(&mut self, button: Button)
        ensures
            final(self)@ == old(self)@.press(button),
            final(self)@.wf(),
    {
        proof {
            use_type_invariant(&*self);
        }
        let m: u32 = button.mask();
        let ghost before: u32 = self.buttons;
        assert((before | m) & 0xFF00_C000u32 == 0) by (bit_vector)
            requires
                before & 0xFF00_C000u32 == 0,
                m & 0xFF00_C000u32 == 0,
        ;
        self.buttons = self.buttons | m;
    }

    /// Releases `button`. Releasing a button that is not held changes nothing.
    pub fn release_button(&mut self, button: Button)
        ensures
            final(self)@ == old(self)@.release(button),
            final(self)@.wf(),
    {
        proof {
            use_type_invariant(&*self);
        }
        let m: u32 = button.mask();
        let ghost before: u32 = self.buttons;
        assert((before & !m) & 0xFF00_C000u32 == 0) by (bit_vector)
            requires
                before & 0xFF00_C000u32 == 0,
        ;
        self.buttons = self.buttons & !m;
    }

    /// Puts the left stick at `(x, y)`.
    pub fn set_left_stick(&mut self, x: u8, y: u8)
        ensures
            final(self)@ == old(self)@.with_left_stick(x, y),
    {
        proof {
            use_type_invariant(&*self);
        }
        self.left_stick = StickState { x, y };
    }

    /// Puts the right stick at `(x, y)`.
    pub fn set_right_stick(&mut self, x: u8, y: u8)
        ensures
            final(self)@ == old(self)@.with_right_stick(x, y),
    {
        proof {
            use_type_invariant(&*self);
        }
        self.right_stick = StickState { x, y };
    }

    /// Puts the left stick at the given offsets from rest, each axis held to
    /// the byte range.
    pub fn set_left_stick_offset(&mut self, dx: i64, dy: i64)
        ensures
            final(self)@ == old(self)@.with_left_stick(axis_at(dx as int), axis_at(dy as int)),
    {
        self.set_left_stick(axis_from_offset(dx), axis_from_offset(dy));
    }

    /// Whether `button` is held.
    pub fn is_pressed(&self, button: Button) -> (r: bool)
        ensures
            r == self@.pressed(button),
    {
        (self.buttons & button.mask()) != 0
    }

    /// The button word: bit `i` is set when the button at position `i` is held.
    pub fn buttons(&self) -> (r: u32)
        ensures
            r == self@.buttons,
    {
        self.buttons
    }

    /// Where the left stick stands.
    pub fn left_stick(&self) -> (r: StickState)
        ensures
            r == self@.left_stick,
    {
        self.left_stick
    }

    /// Where the right stick stands.
    pub fn right_stick(&self) -> (r: StickState)
        ensures
            r == self@.right_stick,
    {
        self.right_stick
    }
}

} // verus!
