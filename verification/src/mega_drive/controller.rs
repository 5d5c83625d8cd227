//! The buttons of a controller, and the state that a read gives.

use vstd::prelude::*;

verus! {

/// A button of a Mega Drive controller.
#[derive(Clone, Copy, Debug, PartialEq, Eq, Structural)]
pub enum MegaDriveButton {
    Up,
    Down,
    Left,
    Right,
    A,
    B,
    C,
    Start,
    X,
    Y,
    Z,
    Mode,
}

impl MegaDriveButton {
    /// The bit that stands for this button in a bitmask of pressed buttons.
    ///
    /// The order follows the wiring: the six lines of the first cycle come
    /// first, then the lines of the second cycle, then those of the extra
    /// cycle of a six-button controller.
    pub open spec fn flag(self) -> u16 {
        match self {
            MegaDriveButton::Up => 0x001,
            MegaDriveButton::Down => 0x002,
            MegaDriveButton::Left => 0x004,
            MegaDriveButton::Right => 0x008,
            MegaDriveButton::B => 0x010,
            MegaDriveButton::C => 0x020,
            MegaDriveButton::A => 0x040,
            MegaDriveButton::Start => 0x080,
            MegaDriveButton::Z => 0x100,
            MegaDriveButton::Y => 0x200,
            MegaDriveButton::X => 0x400,
            MegaDriveButton::Mode => 0x800,
        }
    }

    /// The position of this button's bit, counted from the lowest.
    pub open spec fn bit_position(self) -> nat {
        match self {
            MegaDriveButton::Up => 0,
            MegaDriveButton::Down => 1,
            MegaDriveButton::Left => 2,
            MegaDriveButton::Right => 3,
            MegaDriveButton::B => 4,
            MegaDriveButton::C => 5,
            MegaDriveButton::A => 6,
            MegaDriveButton::Start => 7,
            MegaDriveButton::Z => 8,
            MegaDriveButton::Y => 9,
            MegaDriveButton::X => 10,
            MegaDriveButton::Mode => 11,
        }
    }

    /// Returns the button's flag.
    pub fn as_flag(&self) -> (flag: u16)
        ensures
            flag == self.flag(),
    {
        match self {
            MegaDriveButton::Up => 0x1,
            MegaDriveButton::Down => 0x2,
            MegaDriveButton::Left => 0x4,
            MegaDriveButton::Right => 0x8,
            MegaDriveButton::B => 0x10,
            MegaDriveButton::C => 0x20,
            MegaDriveButton::A => 0x40,
            MegaDriveButton::Start => 0x80,
            MegaDriveButton::Z => 0x100,
            MegaDriveButton::Y => 0x200,
            MegaDriveButton::X => 0x400,
            MegaDriveButton::Mode => 0x800,
        }
    }

    /// Every flag is the single bit at the button's position, and the
    /// twelve positions fill the low twelve bits.
    pub proof fn lemma_flag_is_one_bit(self)
        ensures
            self.bit_position() < 12,
            self.flag() == 1u16 << (self.bit_position() as u16),
    {
        assert(0x001u16 == 1u16 << 0u16) by (bit_vector);
        assert(0x002u16 == 1u16 << 1u16) by (bit_vector);
        assert(0x004u16 == 1u16 << 2u16) by (bit_vector);
        assert(0x008u16 == 1u16 << 3u16) by (bit_vector);
        assert(0x010u16 == 1u16 << 4u16) by (bit_vector);
        assert(0x020u16 == 1u16 << 5u16) by (bit_vector);
        assert(0x040u16 == 1u16 << 6u16) by (bit_vector);
        assert(0x080u16 == 1u16 << 7u16) by (bit_vector);
        assert(0x100u16 == 1u16 << 8u16) by (bit_vector);
        assert(0x200u16 == 1u16 << 9u16) by (bit_vector);
        assert(0x400u16 == 1u16 << 10u16) by (bit_vector);
        assert(0x800u16 == 1u16 << 11u16) by (bit_vector);
    }

    /// No two buttons share a flag: a flag names its button.
    pub proof fn lemma_flag_names_button(self, other: MegaDriveButton)
        ensures
            self.flag() == other.flag() <==> self == other,
            self.bit_position() == other.bit_position() <==> self == other,
    {
    }

    /// The flags of two different buttons have no bit in common, and a
    /// flag is never empty.
    pub proof fn lemma_flags_disjoint(self, other: MegaDriveButton)
        ensures
            self.flag() & other.flag() != 0 <==> self == other,
    {
        let a = self.flag();
        let b = other.flag();
        self.lemma_flag_is_one_bit();
        other.lemma_flag_is_one_bit();
        let i = self.bit_position() as u16;
        let j = other.bit_position() as u16;
        assert(((1u16 << i) & (1u16 << j) != 0) <==> i == j) by (bit_vector)
            requires
                i < 12,
                j < 12,
        ;
    }
}

/// What one read found: the buttons held down, and the kind of controller.
#[derive(Clone, Copy, Debug, PartialEq, Eq)]
pub struct MegaDriveControllerState {
    /// Whether the controller answered as a six-button controller.
    pub is_six_button: bool,
    bits: u16,
}

impl MegaDriveControllerState {
    /// The bitmask of the pressed buttons, one flag per button.
    pub closed spec fn bitmask(&self) -> u16 {
        self.bits
    }

    /// Whether the controller answered as a six-button controller: what
    /// the field `is_six_button` holds.
    pub closed spec fn six_button(&self) -> bool {
        self.is_six_button
    }

    /// Whether the state shows the button as pressed.
    pub open spec fn pressed(&self, button: MegaDriveButton) -> bool {
        self.bitmask() & button.flag() != 0
    }

    /// The buttons that the state shows as pressed.
    pub open spec fn view(&self) -> Set<MegaDriveButton> {
        Set::new(|button: MegaDriveButton| self.pressed(button))
    }

    pub(crate) fn from_bits(bits: u16, is_six_button: bool) -> (state: Self)
        ensures
            state.bitmask() == bits,
            state.six_button() == is_six_button,
    {
        MegaDriveControllerState { is_six_button, bits }
    }

    /// Tells whether the controller answered as a six-button controller.
    ///
    /// The field of the same name holds the same; verified code outside
    /// this module reads it here.
    pub fn is_six_button(&self) -> (six: bool)
        ensures
            six == self.six_button(),
    {
        self.is_six_button
    }

    /// Tells whether the button was held down when the state was read.
    pub fn is_pressed(&self, button: MegaDriveButton) -> (held: bool)
        ensures
            held == self.pressed(button),
            held == self@.contains(button),
    {
        let flag = button.as_flag();
        proof {
            button.lemma_flag_is_one_bit();
            let bits = self.bits;
            let position = button.bit_position() as u16;
            assert((bits & (1u16 << position) == (1u16 << position)) <==> (bits & (1u16 << position)
                != 0)) by (bit_vector)
                requires
                    position < 12,
            ;
        }
        self.bits & flag == flag
    }
}

} // verus!
