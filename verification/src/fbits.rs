//! Bit-level view of IEEE-754 double-precision values.
//!
//! Every weight, fitness score, ratio and probability in this crate travels
//! as the 64-bit pattern of the double value that it encodes. Classification
//! (NaN, finite, zero) and ordering of such patterns are pure integer logic
//! on the bits, so they are defined and verified here without ever touching
//! a floating-point type.

use vstd::prelude::*;

verus! {

/// Mask of the sign bit.
pub const SIGN_MASK: u64 = 0x8000_0000_0000_0000;

/// Mask of everything but the sign bit.
pub const MAGNITUDE_MASK: u64 = 0x7FFF_FFFF_FFFF_FFFF;

/// Mask of the eleven exponent bits.
pub const EXPONENT_MASK: u64 = 0x7FF0_0000_0000_0000;

/// Mask of the fifty-two fraction bits.
pub const FRACTION_MASK: u64 = 0x000F_FFFF_FFFF_FFFF;

/// The pattern of positive zero.
pub const POS_ZERO_BITS: u64 = 0;

/// The pattern of the double value one.
pub const ONE_BITS: u64 = 0x3FF0_0000_0000_0000;

/// The pattern of the double value minus one.
pub const NEG_ONE_BITS: u64 = 0xBFF0_0000_0000_0000;

/// The pattern encodes a NaN: maximal exponent and a non-zero fraction.
pub open spec fn is_nan_bits(b: u64) -> bool {
    b & EXPONENT_MASK == EXPONENT_MASK && b & FRACTION_MASK != 0
}

/// The pattern encodes a finite value: the exponent is not maximal.
pub open spec fn is_finite_bits(b: u64) -> bool {
    b & EXPONENT_MASK != EXPONENT_MASK
}

/// The pattern encodes a zero of either sign.
pub open spec fn is_zero_bits(b: u64) -> bool {
    b & MAGNITUDE_MASK == 0
}

/// A key that orders non-NaN patterns exactly as the encoded doubles are
/// ordered: both zeros share one key, negative values are flipped so that
/// larger magnitudes get smaller keys, and positive values are lifted above
/// every negative key.
pub open spec fn order_key(b: u64) -> u64 {
    if b & MAGNITUDE_MASK == 0 {
        SIGN_MASK
    } else if b & SIGN_MASK != 0 {
        !b
    } else {
        b | SIGN_MASK
    }
}

/// Strictly less, as the encoded doubles compare; false when either side is NaN.
pub open spec fn lt_bits(a: u64, b: u64) -> bool {
    !is_nan_bits(a) && !is_nan_bits(b) && order_key(a) < order_key(b)
}

/// Less or equal, as the encoded doubles compare; false when either side is NaN.
pub open spec fn le_bits(a: u64, b: u64) -> bool {
    !is_nan_bits(a) && !is_nan_bits(b) && order_key(a) <= order_key(b)
}

/// Strictly greater, as the encoded doubles compare; false when either side is NaN.
pub open spec fn gt_bits(a: u64, b: u64) -> bool {
    lt_bits(b, a)
}

/// Greater or equal, as the encoded doubles compare; false when either side is NaN.
pub open spec fn ge_bits(a: u64, b: u64) -> bool {
    le_bits(b, a)
}

/// The pattern encodes a value in the closed unit interval.
pub open spec fn valid_ratio_bits(b: u64) -> bool {
    ge_bits(b, POS_ZERO_BITS) && le_bits(b, ONE_BITS)
}

/// Evaluates the classification and ordering of the two unit-interval
/// endpoints, so that callers can reason about comparisons against them.
pub proof fn lemma_unit_constants()
    ensures
        !is_nan_bits(POS_ZERO_BITS),
        !is_nan_bits(ONE_BITS),
        is_finite_bits(POS_ZERO_BITS),
        is_finite_bits(ONE_BITS),
        is_zero_bits(POS_ZERO_BITS),
        order_key(POS_ZERO_BITS) == SIGN_MASK,
        order_key(ONE_BITS) == 0xBFF0_0000_0000_0000u64,
        lt_bits(POS_ZERO_BITS, ONE_BITS),
{
    assert((0u64 & 0x7FF0_0000_0000_0000u64) == 0u64) by (bit_vector);
    assert((0u64 & 0x7FFF_FFFF_FFFF_FFFFu64) == 0u64) by (bit_vector);
    assert((0x3FF0_0000_0000_0000u64 & 0x7FF0_0000_0000_0000u64) == 0x3FF0_0000_0000_0000u64)
        by (bit_vector);
    assert((0x3FF0_0000_0000_0000u64 & 0x7FFF_FFFF_FFFF_FFFFu64) == 0x3FF0_0000_0000_0000u64)
        by (bit_vector);
    assert((0x3FF0_0000_0000_0000u64 & 0x8000_0000_0000_0000u64) == 0u64) by (bit_vector);
    assert((0x3FF0_0000_0000_0000u64 | 0x8000_0000_0000_0000u64) == 0xBFF0_0000_0000_0000u64)
        by (bit_vector);
}

/// A total key for ranking fitness values: NaN sorts below everything else,
/// and all other patterns keep the order of the doubles they encode.
pub open spec fn rank_key(b: u64) -> u64 {
    if is_nan_bits(b) {
        0
    } else {
        order_key(b)
    }
}

pub fn exec_is_nan(b: u64) -> (r: bool)
    ensures
        r == is_nan_bits(b),
{
    b & EXPONENT_MASK == EXPONENT_MASK && b & FRACTION_MASK != 0
}

pub fn exec_is_finite(b: u64) -> (r: bool)
    ensures
        r == is_finite_bits(b),
{
    b & EXPONENT_MASK != EXPONENT_MASK
}

pub fn exec_is_zero(b: u64) -> (r: bool)
    ensures
        r == is_zero_bits(b),
{
    b & MAGNITUDE_MASK == 0
}

pub fn exec_order_key(b: u64) -> (r: u64)
    ensures
        r == order_key(b),
{
    if b & MAGNITUDE_MASK == 0 {
        SIGN_MASK
    } else if b & SIGN_MASK != 0 {
        !b
    } else {
        b | SIGN_MASK
    }
}

pub fn exec_lt(a: u64, b: u64) -> (r: bool)
    ensures
        r == lt_bits(a, b),
{
    !exec_is_nan(a) && !exec_is_nan(b) && exec_order_key(a) < exec_order_key(b)
}

pub fn exec_le(a: u64, b: u64) -> (r: bool)
    ensures
        r == le_bits(a, b),
{
    !exec_is_nan(a) && !exec_is_nan(b) && exec_order_key(a) <= exec_order_key(b)
}

pub fn exec_gt(a: u64, b: u64) -> (r: bool)
    ensures
        r == gt_bits(a, b),
{
    exec_lt(b, a)
}

pub fn exec_ge(a: u64, b: u64) -> (r: bool)
    ensures
        r == ge_bits(a, b),
{
    exec_le(b, a)
}

pub fn exec_valid_ratio(b: u64) -> (r: bool)
    ensures
        r == valid_ratio_bits(b),
{
    exec_ge(b, POS_ZERO_BITS) && exec_le(b, ONE_BITS)
}

pub fn exec_rank_key(b: u64) -> (r: u64)
    ensures
        r == rank_key(b),
{
    if exec_is_nan(b) {
        0
    } else {
        exec_order_key(b)
    }
}

} // verus!
