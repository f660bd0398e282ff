//! Predicates on IEEE-754 binary32 values, read from their bit patterns.

use vstd::prelude::*;

verus! {

/// Bit pattern of `0.0f32`.
pub const F32_ZERO: u32 = 0x0000_0000;

/// Bit pattern of `1.0f32`.
pub const F32_ONE: u32 = 0x3f80_0000;

/// Bit pattern of `10.0f32`.
pub const F32_TEN: u32 = 0x4120_0000;

const EXPONENT_MASK: u32 = 0x7f80_0000;

/// A binary32 value is finite unless all of its exponent bits are set
/// (infinities and NaNs).
pub open spec fn is_finite_spec(bits: u32) -> bool {
    bits & 0x7f80_0000u32 != 0x7f80_0000u32
}

/// `x > 0.0` under IEEE-754 comparison: the sign bit is clear, the value is
/// not a zero, and it is not a NaN. Positive infinity compares greater.
pub open spec fn is_positive_spec(bits: u32) -> bool {
    0 < bits && bits <= 0x7f80_0000u32
}

/// Whether the binary32 value with these bits is finite (`f32::is_finite`).
pub fn f32_is_finite(bits: u32) -> (r: bool)
    ensures
        r == is_finite_spec(bits),
{
    bits & EXPONENT_MASK != EXPONENT_MASK
}

/// Whether the binary32 value with these bits compares `> 0.0`.
pub fn f32_is_positive(bits: u32) -> (r: bool)
    ensures
        r == is_positive_spec(bits),
{
    0 < bits && bits <= EXPONENT_MASK
}

} // verus!
