//! State of the emulated keyboard and keys.

use vstd::prelude::*;

verus! {

/// Whether a key of the emulated keyboard went down or up.
#[derive(Debug, Clone, Copy, PartialEq, Eq, Structural)]
pub enum PressType {
    Released,
    Pressed,
}

impl PressType {
    /// The number which stands for the state in the virtual keyboard protocol.
    pub open spec fn spec_wire_value(self) -> u32 {
        match self {
            PressType::Released => 0,
            PressType::Pressed => 1,
        }
    }

    #[verifier::when_used_as_spec(spec_wire_value)]
    pub fn wire_value(self) -> (value: u32)
        ensures
            value == self.spec_wire_value(),
    {
        match self {
            PressType::Released => 0,
            PressType::Pressed => 1,
        }
    }
}

/// The extended, unambiguous layout-keycode:
/// the code is only meaningful under the keymap of the given index.
#[derive(Debug, Clone, Copy, PartialEq, Eq, Structural)]
pub struct KeyCode {
    pub code: u32,
    pub keymap_idx: usize,
}

/// Tells one key of the layout apart from every other, whatever the key submits.
#[derive(Debug, Clone, Copy, PartialEq, Eq, Hash, Structural)]
pub struct KeyStateId(pub usize);

/// The bit for Control in the modifier state of the virtual keyboard protocol.
pub const CONTROL_BIT: u8 = 0x4;

/// The bit for Alt in the modifier state of the virtual keyboard protocol.
pub const MOD1_BIT: u8 = 0x8;

/// The bit for Meta in the modifier state of the virtual keyboard protocol.
pub const MOD4_BIT: u8 = 0x40;

/// The depressed modifiers as the virtual keyboard protocol takes them:
/// one bit for each, numbered as the X keyboard extension does.
#[derive(Debug, Clone, Copy, PartialEq, Eq, Structural)]
pub struct Modifiers {
    pub bits: u8,
}

impl Modifiers {
    /// The state with the given modifiers depressed and no other.
    pub open spec fn of(control: bool, alt: bool, mod4: bool) -> Modifiers {
        Modifiers {
            bits: ((if control { 0x4int } else { 0 }) + (if alt { 0x8int } else { 0 }) + (if mod4 {
                0x40int
            } else {
                0
            })) as u8,
        }
    }

    pub open spec fn spec_empty() -> Modifiers {
        Modifiers { bits: 0 }
    }

    /// No modifier is depressed.
    #[verifier::when_used_as_spec(spec_empty)]
    pub fn empty() -> (none: Modifiers)
        ensures
            none == Modifiers::spec_empty(),
            none == Modifiers::of(false, false, false),
    {
        Modifiers { bits: 0 }
    }

    /// Puts the state together from the modifiers which are depressed.
    /// The three bits are distinct, so each stays readable in the result.
    pub fn from_flags(control: bool, alt: bool, mod4: bool) -> (modifiers: Modifiers)
        ensures
            modifiers == Modifiers::of(control, alt, mod4),
            (modifiers.bits & CONTROL_BIT != 0) == control,
            (modifiers.bits & MOD1_BIT != 0) == alt,
            (modifiers.bits & MOD4_BIT != 0) == mod4,
    {
        let mut bits: u8 = 0;
        if control {
            bits = bits + CONTROL_BIT;
        }
        if alt {
            bits = bits + MOD1_BIT;
        }
        if mod4 {
            bits = bits + MOD4_BIT;
        }
        assert(bits == 0 || bits == 0x4 || bits == 0x8 || bits == 0xc || bits == 0x40 || bits
            == 0x44 || bits == 0x48 || bits == 0x4c);
        assert((bits == 0 || bits == 0x4 || bits == 0x8 || bits == 0xc || bits == 0x40 || bits
            == 0x44 || bits == 0x48 || bits == 0x4c) ==> ((bits & 0x4 != 0) == (bits == 0x4 || bits
            == 0xc || bits == 0x44 || bits == 0x4c) && (bits & 0x8 != 0) == (bits == 0x8 || bits
            == 0xc || bits == 0x48 || bits == 0x4c) && (bits & 0x40 != 0) == (bits >= 0x40)))
            by (bit_vector);
        Modifiers { bits }
    }
}

} // verus!
