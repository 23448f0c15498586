//! Tapering of the samples before the transform.
//!
//! The window is triangular: its weight is zero at both ends of the buffer,
//! rises linearly to the centre and falls linearly after it. The weight of
//! index `i` in a window of `n` samples is `taper_weight(i, n) / (n - 1)`.

use crate::error::SpectrumError;
use crate::fixed::{lemma_scaled_ratio_bounds, scale_ratio, scaled_ratio};
use crate::magnitude::magnitude_of_signed;
use vstd::prelude::*;

verus! {

/// Numerator of the weight of index `i` in a window of `n` samples: twice
/// the distance to the nearer end.
pub open spec fn taper_weight(i: int, n: int) -> int {
    if i <= n - 1 - i {
        2 * i
    } else {
        2 * (n - 1 - i)
    }
}

/// The sample at index `i` of `n` after tapering. The product of sample and
/// weight is rounded towards zero; a window of a single sample, where both
/// ends coincide, leaves nothing.
pub open spec fn tapered_sample(sample: int, i: int, n: int) -> int {
    if n <= 1 {
        0
    } else if sample >= 0 {
        scaled_ratio(taper_weight(i, n), n - 1, sample)
    } else {
        -scaled_ratio(taper_weight(i, n), n - 1, -sample)
    }
}

/// The whole buffer after tapering.
pub open spec fn tapered(samples: Seq<i64>) -> Seq<i64> {
    Seq::new(
        samples.len(),
        |i: int| tapered_sample(samples[i] as int, i, samples.len() as int) as i64,
    )
}

/// Tapering never makes a sample larger in absolute value, keeps its sign,
/// and silences both ends of the buffer.
pub proof fn lemma_tapered_sample_bounds(sample: int, i: int, n: int)
    requires
        0 <= i < n,
    ensures
        sample >= 0 ==> 0 <= tapered_sample(sample, i, n) <= sample,
        sample <= 0 ==> sample <= tapered_sample(sample, i, n) <= 0,
        i == 0 || i == n - 1 ==> tapered_sample(sample, i, n) == 0,
{
    if n > 1 {
        let magnitude: int = if sample >= 0 { sample } else { -sample };
        lemma_scaled_ratio_bounds(taper_weight(i, n), n - 1, magnitude);
        if i == 0 || i == n - 1 {
            assert(taper_weight(i, n) * magnitude == 0) by (nonlinear_arith)
                requires
                    taper_weight(i, n) == 0,
            ;
        }
    }
}

/// Applies a triangular window of `window_len` samples to the buffer.
///
/// The buffer must hold at least one sample and exactly as many as the
/// window is long; otherwise the input is refused.
pub fn taper(samples: &Vec<i64>, window_len: usize) -> (result: Result<Vec<i64>, SpectrumError>)
    ensures
        samples.len() == 0 || window_len != samples.len() ==> result == Err::<
            Vec<i64>,
            SpectrumError,
        >(SpectrumError::InvalidInput),
        samples.len() > 0 && window_len == samples.len() ==> (result matches Ok(out) && out@
            == tapered(samples@)),
{
    let n: usize = samples.len();
    if n == 0 || window_len != n {
        return Err(SpectrumError::InvalidInput);
    }
    let mut out: Vec<i64> = Vec::new();
    let mut i: usize = 0;
    while i < n
        invariant
            n == samples.len(),
            0 < n,
            i <= n,
            out@ == tapered(samples@).take(i as int),
        decreases n - i,
    {
        let sample: i64 = samples[i];
        proof {
            lemma_tapered_sample_bounds(sample as int, i as int, n as int);
        }
        let shaped: i64 = if n == 1 {
            0
        } else {
            let mirror: usize = n - 1 - i;
            let weight: usize = if i <= mirror { 2 * i } else { 2 * mirror };
            let magnitude: u64 = magnitude_of_signed(sample);
            assert((n - 1) * magnitude <= u128::MAX) by (nonlinear_arith)
                requires
                    0 <= n - 1 <= 0xffff_ffff_ffff_ffff,
                    0 <= magnitude <= 0xffff_ffff_ffff_ffff,
            ;
            let part: u64 = scale_ratio(weight as u128, (n - 1) as u128, magnitude);
            if sample >= 0 {
                part as i64
            } else {
                (-(part as i128)) as i64
            }
        };
        out.push(shaped);
        i += 1;
    }
    Ok(out)
}

} // verus!
