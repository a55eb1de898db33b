use vstd::prelude::*;

verus! {

/// The bit pattern of the single-precision number `0.0`.
pub const ZERO_BITS: u32 = 0;

/// The bit pattern of the single-precision number `1.0`.
pub const ONE_BITS: u32 = 0x3F80_0000;

/// A single-precision number, held by its IEEE 754 bit pattern.
///
/// Numbers of this kind are only ever chosen or handed on here, never
/// computed with, so the bit pattern is all that is needed of them.
#[derive(Clone, Copy, Debug, PartialEq, Eq, Structural)]
pub struct Float32 {
    pub bits: u32,
}

impl Float32 {
    /// The number `0.0`.
    pub fn zero() -> (value: Self)
        ensures
            value.bits == ZERO_BITS,
    {
        Float32 { bits: ZERO_BITS }
    }

    /// The number `1.0`.
    pub fn one() -> (value: Self)
        ensures
            value.bits == ONE_BITS,
    {
        Float32 { bits: ONE_BITS }
    }
}

/// Two single-precision numbers, one for each screen axis.
#[derive(Clone, Copy, Debug, PartialEq, Eq, Structural)]
pub struct Float2 {
    pub x: Float32,
    pub y: Float32,
}

impl Float2 {
    /// `1.0` on both axes.
    pub open spec fn spec_one() -> Float2 {
        Float2 { x: Float32 { bits: ONE_BITS }, y: Float32 { bits: ONE_BITS } }
    }

    /// `1.0` on both axes.
    pub fn one() -> (value: Self)
        ensures
            value == Self::spec_one(),
    {
        Float2 { x: Float32::one(), y: Float32::one() }
    }
}

/// The sixteen elements of a four-by-four matrix, in the order in which the
/// runtime reads them: row after row.
#[derive(Clone, Copy, Debug, PartialEq, Eq)]
pub struct Matrix4 {
    pub elements: [Float32; 16],
}

} // verus!
