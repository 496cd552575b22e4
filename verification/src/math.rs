//! Single-precision numbers and small vectors of them, held by bit pattern.
//!
//! The library never does arithmetic on coordinates: it stores them and hands
//! them on unchanged. Holding each number as its IEEE 754 binary32 bit pattern
//! makes "unchanged" exact, and keeps equality an equivalence relation.

use vstd::prelude::*;

verus! {

/// Bit pattern of positive zero.
pub const ZERO_BITS: u32 = 0;

/// Bit pattern of one.
pub const ONE_BITS: u32 = 0x3f80_0000;

/// An IEEE 754 binary32 number, held by its bit pattern.
#[derive(Clone, Copy, Debug, PartialEq, Eq, Structural)]
pub struct Scalar {
    pub bits: u32,
}

impl Scalar {
    /// The number with the given bit pattern.
    pub fn from_bits(bits: u32) -> (s: Scalar)
        ensures
            s == (Scalar { bits }),
    {
        Scalar { bits }
    }

    /// The bit pattern of this number.
    pub fn to_bits(self) -> (bits: u32)
        ensures
            bits == self.bits,
    {
        self.bits
    }
}

/// A point or extent in the plane.
#[derive(Clone, Copy, Debug, PartialEq, Eq, Structural)]
pub struct Vec2 {
    pub x: Scalar,
    pub y: Scalar,
}

impl Vec2 {
    /// The vector with these components.
    pub fn new(x: Scalar, y: Scalar) -> (v: Vec2)
        ensures
            v == (Vec2 { x, y }),
    {
        Vec2 { x, y }
    }
}

/// A point or extent in space.
#[derive(Clone, Copy, Debug, PartialEq, Eq, Structural)]
pub struct Vec3 {
    pub x: Scalar,
    pub y: Scalar,
    pub z: Scalar,
}

impl Vec3 {
    /// The vector whose three components all have the bit pattern `bits`.
    pub open spec fn spec_splat(bits: u32) -> Vec3 {
        Vec3 { x: Scalar { bits }, y: Scalar { bits }, z: Scalar { bits } }
    }

    /// The first two components.
    pub open spec fn spec_xy(self) -> Vec2 {
        Vec2 { x: self.x, y: self.y }
    }

    /// The vector with these components.
    pub fn new(x: Scalar, y: Scalar, z: Scalar) -> (v: Vec3)
        ensures
            v == (Vec3 { x, y, z }),
    {
        Vec3 { x, y, z }
    }

    /// The vector whose three components all have the bit pattern `bits`.
    #[verifier::when_used_as_spec(spec_splat)]
    pub fn splat(bits: u32) -> (v: Vec3)
        ensures
            v == Vec3::spec_splat(bits),
    {
        let s = Scalar::from_bits(bits);
        Vec3 { x: s, y: s, z: s }
    }

    /// The first two components, `z` dropped.
    #[verifier::when_used_as_spec(spec_xy)]
    pub fn xy(self) -> (v: Vec2)
        ensures
            v == self.spec_xy(),
    {
        Vec2 { x: self.x, y: self.y }
    }
}

} // verus!
