//! Fixed-point fractions.
//!
//! A value between zero and one is held as a whole number of millionths.
//! Ratios are rounded down, and the intermediate product is formed in 128
//! bits so that it cannot overflow.

use vstd::arithmetic::div_mod::{lemma_div_is_ordered, lemma_div_multiples_vanish, lemma_div_pos_is_pos};
use vstd::arithmetic::mul::{lemma_mul_inequality, lemma_mul_is_commutative, lemma_mul_nonnegative};
use vstd::prelude::*;

verus! {

/// The fixed-point representation of one.
pub const UNIT: u64 = 1_000_000;

/// `num / den` of `scale`, rounded down.
pub open spec fn scaled_ratio(num: int, den: int, scale: int) -> int {
    (num * scale) / den
}

/// A part of a whole, both non-negative, scales to at most `scale`.
pub proof fn lemma_scaled_ratio_bounds(num: int, den: int, scale: int)
    requires
        0 <= num <= den,
        0 < den,
        0 <= scale,
    ensures
        0 <= scaled_ratio(num, den, scale) <= scale,
{
    lemma_mul_nonnegative(num, scale);
    lemma_mul_inequality(num, den, scale);
    lemma_div_pos_is_pos(num * scale, den);
    lemma_div_is_ordered(num * scale, den * scale, den);
    lemma_mul_is_commutative(den, scale);
    lemma_div_multiples_vanish(scale, den);
}

/// The whole itself scales to exactly `scale`.
pub proof fn lemma_scaled_ratio_of_whole(den: int, scale: int)
    requires
        0 < den,
    ensures
        scaled_ratio(den, den, scale) == scale,
{
    lemma_mul_is_commutative(den, scale);
    lemma_div_multiples_vanish(scale, den);
}

/// A larger part scales to a value that is at least as large.
pub proof fn lemma_scaled_ratio_monotone(a: int, b: int, den: int, scale: int)
    requires
        a <= b,
        0 < den,
        0 <= scale,
    ensures
        scaled_ratio(a, den, scale) <= scaled_ratio(b, den, scale),
{
    lemma_mul_inequality(a, b, scale);
    lemma_div_is_ordered(a * scale, b * scale, den);
}

/// Computes `num / den` of `scale`, rounded down.
pub(crate) fn scale_ratio(num: u128, den: u128, scale: u64) -> (r: u64)
    requires
        num <= den,
        0 < den,
        den * scale <= u128::MAX,
    ensures
        r == scaled_ratio(num as int, den as int, scale as int),
        r <= scale,
{
    proof {
        lemma_scaled_ratio_bounds(num as int, den as int, scale as int);
        lemma_mul_inequality(num as int, den as int, scale as int);
        lemma_mul_nonnegative(num as int, scale as int);
    }
    let product: u128 = num * (scale as u128);
    (product / den) as u64
}

} // verus!
