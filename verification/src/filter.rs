//! Selection of the bins that lie in the configured frequency window.
//!
//! Bin `i` of `n` stands for the frequency `i * sample_rate / n` hertz. The
//! window test is made on the cross-multiplied form, so it is exact.

use crate::config::Config;
use crate::error::SpectrumError;
use crate::fixed::lemma_scaled_ratio_bounds;
use vstd::prelude::*;

verus! {

/// One bin of the transform with its amplitude. The index stands for the
/// frequency.
#[derive(Clone, Copy, Debug, PartialEq, Eq)]
pub struct SpectralBin {
    /// Position of the bin in the transform output.
    pub index: usize,
    /// Amplitude of the bin.
    pub amplitude: u64,
}

/// There is something to analyse: at least one bin, and a positive rate.
pub open spec fn input_is_valid(bin_count: int, sample_rate: int) -> bool {
    bin_count > 0 && sample_rate > 0
}

/// The frequency of bin `index` lies between `min_freq` and `max_freq`,
/// both inclusive.
pub open spec fn in_window(
    index: int,
    bin_count: int,
    sample_rate: int,
    min_freq: int,
    max_freq: int,
) -> bool {
    min_freq * bin_count <= index * sample_rate <= max_freq * bin_count
}

/// The frequency that bin `index` of `bin_count` stands for, in whole
/// hertz, rounded down.
pub open spec fn frequency_hz(index: int, bin_count: int, sample_rate: int) -> int {
    (index * sample_rate) / bin_count
}

/// Bin `index` is kept: it is on the stride and its frequency is in the
/// window.
pub open spec fn is_retained(index: int, bin_count: int, sample_rate: int, config: Config) -> bool {
    &&& index % (config.stride as int) == 0
    &&& in_window(
        index,
        bin_count,
        sample_rate,
        config.min_freq as int,
        config.max_freq as int,
    )
}

/// The retention test as a predicate on bins.
pub open spec fn retention(bin_count: int, sample_rate: int, config: Config) -> spec_fn(
    SpectralBin,
) -> bool {
    |bin: SpectralBin| is_retained(bin.index as int, bin_count, sample_rate, config)
}

/// Every bin of the transform with its amplitude, in index order.
pub open spec fn all_bins(amplitudes: Seq<u64>) -> Seq<SpectralBin> {
    Seq::new(
        amplitudes.len(),
        |i: int| SpectralBin { index: i as usize, amplitude: amplitudes[i] },
    )
}

/// The bins that are kept, in index order.
pub open spec fn retained_bins(amplitudes: Seq<u64>, sample_rate: u32, config: Config) -> Seq<
    SpectralBin,
> {
    all_bins(amplitudes).filter(retention(amplitudes.len() as int, sample_rate as int, config))
}

/// The frequency of bin `index` of a transform of `bin_count` bins, in whole
/// hertz, rounded down; nothing for an index outside the transform.
pub fn bin_frequency(index: usize, bin_count: usize, sample_rate: u32) -> (hertz: Option<u32>)
    ensures
        index >= bin_count ==> hertz is None,
        index < bin_count ==> hertz == Some(
            frequency_hz(index as int, bin_count as int, sample_rate as int) as u32,
        ) && frequency_hz(index as int, bin_count as int, sample_rate as int) <= sample_rate,
{
    if index >= bin_count {
        return None;
    }
    proof {
        lemma_scaled_ratio_bounds(index as int, bin_count as int, sample_rate as int);
    }
    assert(index * sample_rate <= 0xffff_ffff_ffff_ffff * 0xffff_ffff) by (nonlinear_arith)
        requires
            0 <= index <= 0xffff_ffff_ffff_ffff,
            0 <= sample_rate <= 0xffff_ffff,
    ;
    let position: u128 = (index as u128) * (sample_rate as u128);
    Some((position / (bin_count as u128)) as u32)
}

/// Tells whether the frequency of bin `index` of `bin_count` lies in the
/// window.
pub(crate) fn bin_in_window(
    index: usize,
    bin_count: usize,
    sample_rate: u32,
    min_freq: u32,
    max_freq: u32,
) -> (inside: bool)
    ensures
        inside == in_window(
            index as int,
            bin_count as int,
            sample_rate as int,
            min_freq as int,
            max_freq as int,
        ),
{
    assert(index * sample_rate <= 0xffff_ffff_ffff_ffff * 0xffff_ffff) by (nonlinear_arith)
        requires
            0 <= index <= 0xffff_ffff_ffff_ffff,
            0 <= sample_rate <= 0xffff_ffff,
    ;
    assert(min_freq * bin_count <= 0xffff_ffff * 0xffff_ffff_ffff_ffff) by (nonlinear_arith)
        requires
            0 <= bin_count <= 0xffff_ffff_ffff_ffff,
            0 <= min_freq <= 0xffff_ffff,
    ;
    assert(max_freq * bin_count <= 0xffff_ffff * 0xffff_ffff_ffff_ffff) by (nonlinear_arith)
        requires
            0 <= bin_count <= 0xffff_ffff_ffff_ffff,
            0 <= max_freq <= 0xffff_ffff,
    ;
    let position: u128 = (index as u128) * (sample_rate as u128);
    let floor: u128 = (min_freq as u128) * (bin_count as u128);
    let ceiling: u128 = (max_freq as u128) * (bin_count as u128);
    floor <= position && position <= ceiling
}

/// Tells whether bin `index` of `bin_count` is kept.
pub(crate) fn bin_is_retained(index: usize, bin_count: usize, sample_rate: u32, config: &Config) -> (kept:
    bool)
    requires
        config.stride >= 1,
    ensures
        kept == is_retained(index as int, bin_count as int, sample_rate as int, *config),
{
    index % config.stride == 0 && bin_in_window(
        index,
        bin_count,
        sample_rate,
        config.min_freq,
        config.max_freq,
    )
}

/// Keeps the bins that are on the stride and inside the frequency window,
/// in their order.
///
/// An empty buffer or a sample rate of zero is refused as input, then a
/// configuration outside its domain as configuration. The result may be
/// empty.
pub fn range_filter(amplitudes: &Vec<u64>, sample_rate: u32, config: &Config) -> (result: Result<
    Vec<SpectralBin>,
    SpectrumError,
>)
    ensures
        !input_is_valid(amplitudes.len() as int, sample_rate as int) ==> result == Err::<
            Vec<SpectralBin>,
            SpectrumError,
        >(SpectrumError::InvalidInput),
        input_is_valid(amplitudes.len() as int, sample_rate as int) && !config.is_valid()
            ==> result == Err::<Vec<SpectralBin>, SpectrumError>(
            SpectrumError::InvalidConfiguration,
        ),
        input_is_valid(amplitudes.len() as int, sample_rate as int) && config.is_valid() ==> (
        result matches Ok(bins) && bins@ == retained_bins(amplitudes@, sample_rate, *config)),
{
    let n: usize = amplitudes.len();
    if n == 0 || sample_rate == 0 {
        return Err(SpectrumError::InvalidInput);
    }
    if config.validate().is_err() {
        return Err(SpectrumError::InvalidConfiguration);
    }
    let ghost keep = retention(n as int, sample_rate as int, *config);
    let mut bins: Vec<SpectralBin> = Vec::new();
    let mut i: usize = 0;
    proof {
        reveal(Seq::filter);
    }
    while i < n
        invariant
            n == amplitudes.len(),
            i <= n,
            config.stride >= 1,
            keep == retention(n as int, sample_rate as int, *config),
            bins@ == all_bins(amplitudes@).take(i as int).filter(keep),
        decreases n - i,
    {
        let bin = SpectralBin { index: i, amplitude: amplitudes[i] };
        proof {
            let before = all_bins(amplitudes@).take(i as int);
            assert(all_bins(amplitudes@).take(i + 1) =~= before.push(bin));
            before.lemma_filter_push(bin, keep);
        }
        if bin_is_retained(i, n, sample_rate, config) {
            bins.push(bin);
        }
        i += 1;
    }
    assert(all_bins(amplitudes@).take(n as int) =~= all_bins(amplitudes@));
    Ok(bins)
}

} // verus!
