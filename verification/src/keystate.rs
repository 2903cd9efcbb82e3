use vstd::prelude::*;

verus! {

/// Bitset describing the state of one input key.
#[derive(Copy, Clone, Debug, PartialEq, Eq, Structural)]
pub struct KeyState {
    pub bits: i32,
}

impl KeyState {
    /// A key is not pressed.
    pub const NONE: i32 = 0;
    /// A key is pressed.
    pub const DOWN: i32 = 0x1;
    /// A key has been pressed.
    pub const IMPULSE_DOWN: i32 = 0x2;
    /// A key has been released.
    pub const IMPULSE_UP: i32 = 0x4;
    /// A key is pressed or has been pressed.
    pub const ANY_DOWN: i32 = 0x3;

    pub fn from_bits_retain(bits: i32) -> (r: Self)
        ensures
            r.bits == bits,
    {
        KeyState { bits }
    }

    pub fn bits(self) -> (r: i32)
        ensures
            r == self.bits,
    {
        self.bits
    }

    pub fn intersects(self, other: KeyState) -> (r: bool)
        ensures
            r == (self.bits & other.bits != 0),
    {
        self.bits & other.bits != 0
    }
}

impl Default for KeyState {
    /// The default state is `NONE`.
    fn default() -> (r: Self)
        ensures
            r.bits == 0,
    {
        KeyState { bits: 0 }
    }
}

} // verus!
