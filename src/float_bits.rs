//! Facts about 32-bit floats read from their bit patterns (`f32::to_bits`).

use vstd::prelude::*;

verus! {

/// Smallest bit pattern of a negative float (the sign bit alone).
pub const SIGN_BIT: u32 = 0x8000_0000;

/// Bit pattern of positive infinity; larger magnitudes are NaN.
pub const POSITIVE_INFINITY_BITS: u32 = 0x7f80_0000;

/// Rank of a float, given by its bit pattern, in the order of `f32::total_cmp`:
/// negative floats come first, larger magnitudes before smaller ones, then
/// the non-negative floats by growing magnitude.
pub open spec fn order_key(bits: u32) -> int {
    if bits < SIGN_BIT {
        bits as int
    } else {
        -1 - (bits - SIGN_BIT)
    }
}

/// The bit pattern is a NaN: every exponent bit set and a nonzero mantissa.
pub open spec fn is_nan_bits(bits: u32) -> bool {
    bits % SIGN_BIT > POSITIVE_INFINITY_BITS
}

/// The float is greater than zero: the sign bit is clear, some bit is set,
/// and it is no NaN (positive infinity counts).
pub open spec fn is_positive_bits(bits: u32) -> bool {
    0 < bits <= POSITIVE_INFINITY_BITS
}

/// Whether `bits` is the bit pattern of a NaN.
pub fn is_nan(bits: u32) -> (r: bool)
    ensures
        r == is_nan_bits(bits),
{
    bits % SIGN_BIT > POSITIVE_INFINITY_BITS
}

/// Rank of a float, given by its bit pattern, in the order of `f32::total_cmp`.
pub fn total_order_key(bits: u32) -> (r: i64)
    ensures
        r == order_key(bits),
{
    if bits < SIGN_BIT {
        bits as i64
    } else {
        -1 - ((bits - SIGN_BIT) as i64)
    }
}

/// Whether the float with bit pattern `bits` is greater than zero.
pub fn is_positive(bits: u32) -> (r: bool)
    ensures
        r == is_positive_bits(bits),
{
    0 < bits && bits <= POSITIVE_INFINITY_BITS
}

/// Distinct bit patterns have distinct ranks.
pub proof fn lemma_order_key_injective(a: u32, b: u32)
    ensures
        order_key(a) == order_key(b) ==> a == b,
{
}

} // verus!
