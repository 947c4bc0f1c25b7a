//! Real-valued fields of the schema, carried by their IEEE 754 bit patterns.
//!
//! No arithmetic is done on them here: a value is stored when a document is
//! read and handed back unchanged.

use vstd::prelude::*;

verus! {

/// An IEEE 754 binary32 number, held by its bit pattern.
#[derive(Debug, Clone, Copy, PartialEq, Eq, Structural, Default)]
pub struct Float32 {
    pub bits: u32,
}

/// An IEEE 754 binary64 number, held by its bit pattern.
#[derive(Debug, Clone, Copy, PartialEq, Eq, Structural, Default)]
pub struct Float64 {
    pub bits: u64,
}

/// The bit pattern of binary32 `1.0`.
pub const ONE_32: u32 = 0x3F80_0000;

/// The bit pattern of binary32 `0.25`.
pub const QUARTER_32: u32 = 0x3E80_0000;

/// The bit pattern of binary64 `1.0`.
pub const ONE_64: u64 = 0x3FF0_0000_0000_0000;

/// The bit pattern of binary64 `-1.0`.
pub const MINUS_ONE_64: u64 = 0xBFF0_0000_0000_0000;

impl Float32 {
    /// The number with the given bit pattern.
    pub fn from_bits(bits: u32) -> (r: Self)
        ensures
            r.bits == bits,
    {
        Float32 { bits }
    }

    /// Positive zero.
    pub fn zero() -> (r: Self)
        ensures
            r.bits == 0,
    {
        Float32 { bits: 0 }
    }

    /// The number `1.0`.
    pub fn one() -> (r: Self)
        ensures
            r.bits == ONE_32,
    {
        Float32 { bits: ONE_32 }
    }
}

impl Float64 {
    /// The number with the given bit pattern.
    pub fn from_bits(bits: u64) -> (r: Self)
        ensures
            r.bits == bits,
    {
        Float64 { bits }
    }

    /// Positive zero.
    pub fn zero() -> (r: Self)
        ensures
            r.bits == 0,
    {
        Float64 { bits: 0 }
    }
}

} // verus!
