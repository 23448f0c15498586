//! From complex transform coefficients to amplitudes.
//!
//! A coefficient is held as a pair of integers. Its amplitude is the
//! Euclidean norm rounded down to a whole number.

use vstd::prelude::*;

verus! {

/// One output slot of the transform: a complex number with integer parts.
#[derive(Clone, Copy, Debug, PartialEq, Eq)]
pub struct SpectralCoefficient {
    /// Real part.
    pub re: i64,
    /// Imaginary part.
    pub im: i64,
}

/// `root` is the square root of `value`, rounded down.
pub open spec fn is_floor_sqrt(root: int, value: int) -> bool {
    &&& 0 <= root
    &&& root * root <= value
    &&& value < (root + 1) * (root + 1)
}

/// At most one number is the rounded-down square root of a value.
pub proof fn lemma_floor_sqrt_unique(a: int, b: int, value: int)
    requires
        is_floor_sqrt(a, value),
        is_floor_sqrt(b, value),
    ensures
        a == b,
{
    if a < b {
        assert((a + 1) * (a + 1) <= b * b) by (nonlinear_arith)
            requires
                0 <= a,
                a + 1 <= b,
        ;
    } else if b < a {
        assert((b + 1) * (b + 1) <= a * a) by (nonlinear_arith)
            requires
                0 <= b,
                b + 1 <= a,
        ;
    }
}

/// The square root of `value`, rounded down.
pub fn integer_sqrt(value: u128) -> (root: u64)
    ensures
        is_floor_sqrt(root as int, value as int),
{
    let mut low: u128 = 0;
    let mut high: u128 = 0x1_0000_0000_0000_0000;
    while high - low > 1
        invariant
            low < high <= 0x1_0000_0000_0000_0000,
            low * low <= value,
            value < high * high,
        decreases high - low,
    {
        let mid: u128 = low + (high - low) / 2;
        assert(mid * mid <= 0xffff_ffff_ffff_ffff * 0xffff_ffff_ffff_ffff) by (nonlinear_arith)
            requires
                0 <= mid <= 0xffff_ffff_ffff_ffff,
        ;
        if mid * mid <= value {
            low = mid;
        } else {
            high = mid;
        }
    }
    low as u64
}

/// The absolute value of `x`, which always fits the unsigned type.
pub(crate) fn magnitude_of_signed(x: i64) -> (m: u64)
    ensures
        m == if x >= 0 { x as int } else { -(x as int) },
{
    if x >= 0 {
        x as u64
    } else {
        (-(x as i128)) as u64
    }
}

impl SpectralCoefficient {
    /// The squared Euclidean norm.
    pub open spec fn norm_squared(self) -> int {
        self.re * self.re + self.im * self.im
    }

    /// The Euclidean norm, rounded down.
    pub fn magnitude(&self) -> (amplitude: u64)
        ensures
            is_floor_sqrt(amplitude as int, self.norm_squared()),
    {
        let re: u128 = magnitude_of_signed(self.re) as u128;
        let im: u128 = magnitude_of_signed(self.im) as u128;
        assert(re * re == self.re * self.re && re * re <= 0x8000_0000_0000_0000 * 0x8000_0000_0000_0000)
            by (nonlinear_arith)
            requires
                re == if self.re >= 0 { self.re as int } else { -(self.re as int) },
                re <= 0x8000_0000_0000_0000,
        ;
        assert(im * im == self.im * self.im && im * im <= 0x8000_0000_0000_0000 * 0x8000_0000_0000_0000)
            by (nonlinear_arith)
            requires
                im == if self.im >= 0 { self.im as int } else { -(self.im as int) },
                im <= 0x8000_0000_0000_0000,
        ;
        integer_sqrt(re * re + im * im)
    }
}

/// The amplitudes that belong to a sequence of coefficients, bin by bin.
pub open spec fn are_magnitudes(amplitudes: Seq<u64>, coefficients: Seq<SpectralCoefficient>) -> bool {
    &&& amplitudes.len() == coefficients.len()
    &&& forall|i: int|
        0 <= i < coefficients.len() ==> is_floor_sqrt(
            #[trigger] amplitudes[i] as int,
            coefficients[i].norm_squared(),
        )
}

/// The amplitude of every coefficient, in bin order.
pub fn magnitudes(coefficients: &Vec<SpectralCoefficient>) -> (amplitudes: Vec<u64>)
    ensures
        are_magnitudes(amplitudes@, coefficients@),
{
    let mut amplitudes: Vec<u64> = Vec::new();
    let mut i: usize = 0;
    while i < coefficients.len()
        invariant
            i <= coefficients.len(),
            are_magnitudes(amplitudes@, coefficients@.take(i as int)),
        decreases coefficients.len() - i,
    {
        let amplitude: u64 = coefficients[i].magnitude();
        amplitudes.push(amplitude);
        i += 1;
    }
    amplitudes
}

} // verus!
