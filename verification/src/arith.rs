//! Trusted double-precision primitives.
//!
//! The verified code never holds a floating-point value: it works on the
//! 64-bit patterns defined in [`crate::fbits`]. The handful of places where
//! a genuine double operation is needed call through the trusted functions
//! below. `bytemuck::cast` reinterprets a pattern as the double it encodes
//! (and the surrounding call to a `libm` function gives the cast its type);
//! `to_bits` turns the result back into a pattern.

use vstd::prelude::*;

use crate::fbits::{ge_bits, is_nan_bits, le_bits, valid_ratio_bits, NEG_ONE_BITS, ONE_BITS};

verus! {

/// Names the result of IEEE-754 double addition on bit patterns.
pub uninterp spec fn add_of(a: u64, b: u64) -> u64;

/// Names the result of IEEE-754 double multiplication on bit patterns.
pub uninterp spec fn mul_of(a: u64, b: u64) -> u64;

/// Names the result of the double hyperbolic tangent on bit patterns.
pub uninterp spec fn tanh_of(a: u64) -> u64;

/// Names the count `trunc(ratio * total) as usize` for a ratio given as a
/// bit pattern and an integer total.
pub uninterp spec fn ratio_scaled(ratio: u64, total: u32) -> usize;

/// Relies on libm::fma: fma(a, 1.0, b) multiplies exactly and rounds the
/// sum once, which is the IEEE-754 double addition a + b, bit for bit.
#[verifier::external_body]
pub(crate) fn add_bits(a: u64, b: u64) -> (r: u64)
    ensures
        r == add_of(a, b),
{
    let one: u64 = 0x3FF0_0000_0000_0000;
    libm::fma(bytemuck::cast(a), bytemuck::cast(one), bytemuck::cast(b)).to_bits()
}

/// Relies on libm::fma: fma(a, b, -0.0) forms the exact product and rounds
/// it once while adding -0.0 keeps the sign of a zero product, which is the
/// IEEE-754 double multiplication a * b, bit for bit.
#[verifier::external_body]
pub(crate) fn mul_bits(a: u64, b: u64) -> (r: u64)
    ensures
        r == mul_of(a, b),
{
    let neg_zero: u64 = 0x8000_0000_0000_0000;
    libm::fma(bytemuck::cast(a), bytemuck::cast(b), bytemuck::cast(neg_zero)).to_bits()
}

/// Relies on libm::tanh: the result depends on the argument alone, and
/// for every non-NaN argument it saturates into the closed interval
/// [-1, 1] (large magnitudes and infinities map to exactly minus one or
/// one) without ever producing a NaN.
#[verifier::external_body]
pub(crate) fn tanh_bits(a: u64) -> (r: u64)
    ensures
        r == tanh_of(a),
        !is_nan_bits(a) ==> !is_nan_bits(r) && ge_bits(r, NEG_ONE_BITS) && le_bits(r, ONE_BITS),
{
    libm::tanh(bytemuck::cast(a)).to_bits()
}

/// Relies on libm::fma and libm::trunc, and on the exact `as` cast for
/// counts in [0, total]: the body computes `trunc(ratio * total) as
/// usize` exactly as written. A ratio in the unit interval keeps the
/// product at or below the exactly-representable `total`, so the
/// truncated count is too; and the count is monotone in the ratio, since
/// multiplying by the fixed non-negative `total` and truncating both
/// preserve order.
#[verifier::external_body]
pub(crate) fn scale_count(ratio: u64, total: u32) -> (r: usize)
    ensures
        r == ratio_scaled(ratio, total),
        valid_ratio_bits(ratio) ==> r <= total as usize,
        valid_ratio_bits(ratio) ==> forall|hi: u64|
            valid_ratio_bits(hi) && le_bits(ratio, hi) ==> r <= #[trigger] ratio_scaled(hi, total),
{
    let neg_zero: u64 = 0x8000_0000_0000_0000;
    let product = libm::fma(bytemuck::cast(ratio), total.into(), bytemuck::cast(neg_zero));
    libm::trunc(product) as usize
}

} // verus!
