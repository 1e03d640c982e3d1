//! Positions with orientation, and the check that gates every store and
//! teleport on them.
//!
//! Coordinates are kept as IEEE-754 bit patterns: `x`, `y` and `z` as the
//! bits of a binary64 value, `yaw` and `pitch` as the bits of a binary32
//! value. A host converts with `to_bits` and `from_bits`.
use vstd::prelude::*;

verus! {

/// Mask of the exponent field of a binary64 value.
pub const F64_EXPONENT_MASK: u64 = 0x7ff0_0000_0000_0000;

/// Mask of the exponent field of a binary32 value.
pub const F32_EXPONENT_MASK: u32 = 0x7f80_0000;

/// A binary64 value is finite (neither infinite nor NaN) exactly when its
/// exponent field is not all ones.
pub open spec fn f64_bits_finite(bits: u64) -> bool {
    bits & F64_EXPONENT_MASK != F64_EXPONENT_MASK
}

/// A binary32 value is finite exactly when its exponent field is not all ones.
pub open spec fn f32_bits_finite(bits: u32) -> bool {
    bits & F32_EXPONENT_MASK != F32_EXPONENT_MASK
}

/// Whether the binary64 value with these bits is finite.
pub fn is_finite_f64_bits(bits: u64) -> (r: bool)
    ensures
        r == f64_bits_finite(bits),
{
    bits & F64_EXPONENT_MASK != F64_EXPONENT_MASK
}

/// Whether the binary32 value with these bits is finite.
pub fn is_finite_f32_bits(bits: u32) -> (r: bool)
    ensures
        r == f32_bits_finite(bits),
{
    bits & F32_EXPONENT_MASK != F32_EXPONENT_MASK
}

/// A position in a world, with the direction the player faces.
#[derive(Clone, Debug, PartialEq)]
pub struct Location {
    /// Bits of the binary64 x coordinate.
    pub x: u64,
    /// Bits of the binary64 y coordinate.
    pub y: u64,
    /// Bits of the binary64 z coordinate.
    pub z: u64,
    /// Bits of the binary32 yaw angle.
    pub yaw: u32,
    /// Bits of the binary32 pitch angle.
    pub pitch: u32,
    /// Name of the world the position lies in.
    pub world: String,
}

/// The location that the teleport notification saves as a player's way back.
pub type BackLocation = Location;

impl Location {
    /// All five numeric fields are finite.
    pub open spec fn valid(&self) -> bool {
        &&& f64_bits_finite(self.x)
        &&& f64_bits_finite(self.y)
        &&& f64_bits_finite(self.z)
        &&& f32_bits_finite(self.yaw)
        &&& f32_bits_finite(self.pitch)
    }

    /// The coordinate check applied before every store and every teleport.
    pub fn is_valid(&self) -> (r: bool)
        ensures
            r == self.valid(),
    {
        is_finite_f64_bits(self.x) && is_finite_f64_bits(self.y) && is_finite_f64_bits(self.z)
            && is_finite_f32_bits(self.yaw) && is_finite_f32_bits(self.pitch)
    }

    /// An equal copy of this location.
    pub fn duplicate(&self) -> (r: Location)
        ensures
            r == *self,
    {
        Location {
            x: self.x,
            y: self.y,
            z: self.z,
            yaw: self.yaw,
            pitch: self.pitch,
            world: self.world.clone(),
        }
    }
}

} // verus!
