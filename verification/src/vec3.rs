use vstd::prelude::*;

verus! {

/// A 3-component vector of 32-bit scalar words.
///
/// Each component is the IEEE-754 single-precision bit pattern of the scalar
/// the renderer works with. The library never does arithmetic on them: it
/// carries them as opaque words, which makes pose comparison, record layout
/// and encode/decode round trips exact, word for word. The caller converts
/// to and from its floating-point values at the boundary.
#[derive(Clone, Copy, Debug, PartialEq, Eq, Structural)]
pub struct Vec3Bits {
    pub x: u32,
    pub y: u32,
    pub z: u32,
}

impl Vec3Bits {
    /// The all-zero vector; also the bit pattern of a zero-filled scalar triple.
    pub open spec fn spec_zero() -> Vec3Bits {
        Vec3Bits { x: 0, y: 0, z: 0 }
    }

    pub fn new(x: u32, y: u32, z: u32) -> (v: Vec3Bits)
        ensures
            v == (Vec3Bits { x, y, z }),
    {
        Vec3Bits { x, y, z }
    }

    pub fn zero() -> (v: Vec3Bits)
        ensures
            v == Vec3Bits::spec_zero(),
    {
        Vec3Bits { x: 0, y: 0, z: 0 }
    }
}

} // verus!
