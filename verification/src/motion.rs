use vstd::prelude::*;

verus! {

/// Bitset of motion channels for a bone controller: linear axes (`X`, `Y`,
/// `Z`), rotation axes (`XR`, `YR`, `ZR`), the derived channels `LX..AZR`,
/// and the range-loop marker `RLOOP`.
#[derive(Copy, Clone, Debug, PartialEq, Eq, Structural)]
pub struct Motion {
    pub bits: u32,
}

impl Motion {
    pub const X: u32 = 0x0001;
    pub const Y: u32 = 0x0002;
    pub const Z: u32 = 0x0004;
    pub const XR: u32 = 0x0008;
    pub const YR: u32 = 0x0010;
    pub const ZR: u32 = 0x0020;
    pub const LX: u32 = 0x0040;
    pub const LY: u32 = 0x0080;
    pub const LZ: u32 = 0x0100;
    pub const AX: u32 = 0x0200;
    pub const AY: u32 = 0x0400;
    pub const AZ: u32 = 0x0800;
    pub const AXR: u32 = 0x1000;
    pub const AYR: u32 = 0x2000;
    pub const AZR: u32 = 0x4000;
    /// Mask over every motion channel bit.
    pub const TYPES: u32 = 0x7fff;
    pub const RLOOP: u32 = 0x8000;

    pub fn from_bits_retain(bits: u32) -> (r: Self)
        ensures
            r.bits == bits,
    {
        Motion { bits }
    }

    pub fn bits(self) -> (r: u32)
        ensures
            r == self.bits,
    {
        self.bits
    }

    pub fn intersects(self, other: Motion) -> (r: bool)
        ensures
            r == (self.bits & other.bits != 0),
    {
        self.bits & other.bits != 0
    }

    /// Whether any of the three rotation-axis channels is set; such a
    /// controller's value is an angle and is wrapped before remapping.
    pub fn is_rotational(self) -> (r: bool)
        ensures
            r == motion_is_rotational(self.bits),
    {
        self.bits & 0x38 != 0
    }
}

impl Default for Motion {
    /// The default motion set is empty.
    fn default() -> (r: Self)
        ensures
            r.bits == 0,
    {
        Motion { bits: 0 }
    }
}

/// A controller is rotational when its motion bits intersect `XR | YR | ZR`.
pub open spec fn motion_is_rotational(bits: u32) -> bool {
    bits & 0x38 != 0
}

} // verus!
