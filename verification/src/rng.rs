//! Trusted wrappers around the caller-supplied random generator.
//!
//! The whole pipeline draws randomness from one `rand::rngs::ThreadRng`
//! passed by reference. Nothing exact can be promised of a random result,
//! so each wrapper states only what holds of every outcome: the documented
//! range of the draw.

use vstd::prelude::*;

use crate::fbits::{is_finite_bits, le_bits, lt_bits};

verus! {

#[verifier::external_type_specification]
#[verifier::external_body]
pub struct ExThreadRng(rand::rngs::ThreadRng);

/// Relies on rand's Rng::gen_range over usize: for low < high it asserts
/// exactly that and returns a value in [low, high).
#[verifier::external_body]
pub(crate) fn rand_range_usize(
    rng: &mut rand::rngs::ThreadRng,
    lo: usize,
    hi: usize,
) -> (r: usize)
    requires
        lo < hi,
    ensures
        lo <= r < hi,
{
    rand::Rng::gen_range(rng, lo, hi)
}

/// Relies on rand's Rng::gen_range over doubles: for finite low < high it
/// retries until the result is below high, and never returns less than
/// low, so the result encodes a value in [low, high).
#[verifier::external_body]
pub(crate) fn draw_between(rng: &mut rand::rngs::ThreadRng, lo: u64, hi: u64) -> (r: u64)
    requires
        is_finite_bits(lo),
        is_finite_bits(hi),
        lt_bits(lo, hi),
    ensures
        le_bits(lo, r),
        lt_bits(r, hi),
{
    let l = libm::copysign(bytemuck::cast(lo), bytemuck::cast(lo));
    let h = libm::copysign(bytemuck::cast(hi), bytemuck::cast(hi));
    rand::Rng::gen_range(rng, l, h).to_bits()
}

/// Relies on rand's IteratorRandom::choose_multiple_fill over the range
/// 0..n: it fills the buffer slice with pairwise distinct indices below n
/// whenever the slice is no longer than n, and touches nothing else.
#[verifier::external_body]
pub(crate) fn choose_distinct(
    rng: &mut rand::rngs::ThreadRng,
    n: usize,
    count: usize,
    buf: &mut Vec<usize>,
)
    requires
        count <= n,
        count <= old(buf).len(),
    ensures
        final(buf).len() == old(buf).len(),
        forall|i: int| 0 <= i < count ==> final(buf)[i] < n,
        forall|i: int, j: int| 0 <= i < j < count ==> final(buf)[i] != final(buf)[j],
        forall|i: int| count <= i < final(buf).len() ==> final(buf)[i] == old(buf)[i],
{
    rand::seq::IteratorRandom::choose_multiple_fill(0..n, rng, &mut buf[..count]);
}

} // verus!
