//! Rescaling of the retained bins to the unit interval.
//!
//! Frequencies are placed within the configured window, amplitudes are
//! taken relative to the strongest retained bin, boosted and, where the
//! configuration asks for it, cut off at a ceiling.

use crate::config::Config;
use crate::error::SpectrumError;
use crate::filter::{bin_in_window, in_window, input_is_valid, SpectralBin};
use crate::fixed::{
    lemma_scaled_ratio_bounds,
    lemma_scaled_ratio_of_whole,
    scale_ratio,
    scaled_ratio,
    UNIT,
};
use vstd::prelude::*;

verus! {

/// A normalised frequency with the normalised amplitude found there, both
/// in millionths.
#[derive(Clone, Copy, Debug, PartialEq, Eq)]
pub struct FrequencyAmplitudePair {
    /// Position of the bin within the frequency window.
    pub frequency: u64,
    /// Amplitude relative to the strongest retained bin, after boost and
    /// ceiling.
    pub amplitude: u64,
}

/// The largest amplitude among the bins; zero where there are none.
pub open spec fn peak(bins: Seq<SpectralBin>) -> int
    decreases bins.len(),
{
    if bins.len() == 0 {
        0
    } else {
        let rest = peak(bins.drop_last());
        if bins.last().amplitude > rest {
            bins.last().amplitude as int
        } else {
            rest
        }
    }
}

/// The peak bounds every amplitude, and where there is a bin, some bin
/// attains it.
pub proof fn lemma_peak_is_maximum(bins: Seq<SpectralBin>)
    ensures
        0 <= peak(bins) <= u64::MAX,
        forall|k: int| 0 <= k < bins.len() ==> (#[trigger] bins[k]).amplitude <= peak(bins),
        bins.len() > 0 ==> exists|k: int| 0 <= k < bins.len() && (#[trigger] bins[k]).amplitude == peak(bins),
    decreases bins.len(),
{
    if bins.len() > 0 {
        let rest = bins.drop_last();
        lemma_peak_is_maximum(rest);
        assert forall|k: int| 0 <= k < bins.len() implies (#[trigger] bins[k]).amplitude <= peak(
            bins,
        ) by {
            if k < rest.len() {
                assert(bins[k] == rest[k]);
            }
        }
    }
}

/// Every bin lies in the buffer and in the frequency window.
pub open spec fn bins_belong(
    bins: Seq<SpectralBin>,
    bin_count: int,
    sample_rate: int,
    config: Config,
) -> bool {
    forall|k: int|
        0 <= k < bins.len() ==> {
            &&& (#[trigger] bins[k]).index < bin_count
            &&& in_window(
                bins[k].index as int,
                bin_count,
                sample_rate,
                config.min_freq as int,
                config.max_freq as int,
            )
        }
}

/// Position of bin `index` within the frequency window, in millionths,
/// rounded down. A window of a single frequency places its bins at zero.
pub open spec fn normalized_frequency(
    index: int,
    bin_count: int,
    sample_rate: int,
    min_freq: int,
    max_freq: int,
) -> int {
    if max_freq == min_freq {
        0
    } else {
        scaled_ratio(
            index * sample_rate - min_freq * bin_count,
            (max_freq - min_freq) * bin_count,
            UNIT as int,
        )
    }
}

/// A value cut off at the ceiling, where there is one.
pub open spec fn clamped(value: int, clamp_max: Option<u64>) -> int {
    match clamp_max {
        Some(ceiling) => if value <= ceiling { value } else { ceiling as int },
        None => value,
    }
}

/// Amplitude relative to the peak, times the boost, rounded down, then
/// cut off at the ceiling.
pub open spec fn normalized_amplitude(amplitude: int, peak: int, config: Config) -> int {
    clamped(scaled_ratio(amplitude, peak, config.amplitude_boost as int), config.clamp_max)
}

/// The normalised pair that stands for one retained bin.
pub open spec fn normalized_pair(
    bin: SpectralBin,
    bin_count: int,
    sample_rate: int,
    peak: int,
    config: Config,
) -> FrequencyAmplitudePair {
    FrequencyAmplitudePair {
        frequency: normalized_frequency(
            bin.index as int,
            bin_count,
            sample_rate,
            config.min_freq as int,
            config.max_freq as int,
        ) as u64,
        amplitude: normalized_amplitude(bin.amplitude as int, peak, config) as u64,
    }
}

/// The normalised pairs of all the bins, in their order.
pub open spec fn normalized(
    bins: Seq<SpectralBin>,
    bin_count: int,
    sample_rate: int,
    config: Config,
) -> Seq<FrequencyAmplitudePair> {
    Seq::new(
        bins.len(),
        |k: int| normalized_pair(bins[k], bin_count, sample_rate, peak(bins), config),
    )
}

/// Why the bins cannot be normalised, if they cannot: in this order, an
/// empty buffer or a sample rate of zero, a configuration outside its
/// domain, a bin outside the buffer or the window, and a set of bins that is
/// empty or silent.
pub open spec fn normalize_error(
    bins: Seq<SpectralBin>,
    bin_count: int,
    sample_rate: int,
    config: Config,
) -> Option<SpectrumError> {
    if !input_is_valid(bin_count, sample_rate) {
        Some(SpectrumError::InvalidInput)
    } else if !config.is_valid() {
        Some(SpectrumError::InvalidConfiguration)
    } else if !bins_belong(bins, bin_count, sample_rate, config) {
        Some(SpectrumError::InvalidInput)
    } else if bins.len() == 0 || peak(bins) == 0 {
        Some(SpectrumError::EmptyResultSet)
    } else {
        None
    }
}

/// A bin inside the window has a normalised frequency between zero and one.
pub proof fn lemma_normalized_frequency_bounds(
    index: int,
    bin_count: int,
    sample_rate: int,
    min_freq: int,
    max_freq: int,
)
    requires
        0 < bin_count,
        min_freq <= max_freq,
        in_window(index, bin_count, sample_rate, min_freq, max_freq),
    ensures
        0 <= normalized_frequency(index, bin_count, sample_rate, min_freq, max_freq) <= UNIT,
        min_freq < max_freq ==> {
            &&& 0 <= index * sample_rate - min_freq * bin_count <= (max_freq - min_freq)
                * bin_count
            &&& 0 < (max_freq - min_freq) * bin_count
        },
{
    if min_freq < max_freq {
        assert((max_freq - min_freq) * bin_count == max_freq * bin_count - min_freq * bin_count)
            by (nonlinear_arith);
        assert(0 < (max_freq - min_freq) * bin_count) by (nonlinear_arith)
            requires
                0 < max_freq - min_freq,
                0 < bin_count,
        ;
        lemma_scaled_ratio_bounds(
            index * sample_rate - min_freq * bin_count,
            (max_freq - min_freq) * bin_count,
            UNIT as int,
        );
    }
}

/// A normalised amplitude never exceeds the configuration's peak value, and
/// the peak itself attains it.
pub proof fn lemma_normalized_amplitude_bounds(amplitude: int, peak: int, config: Config)
    requires
        0 <= amplitude <= peak,
        0 < peak,
    ensures
        0 <= normalized_amplitude(amplitude, peak, config) <= config.peak_value(),
        normalized_amplitude(peak, peak, config) == config.peak_value(),
{
    lemma_scaled_ratio_bounds(amplitude, peak, config.amplitude_boost as int);
    lemma_scaled_ratio_of_whole(peak, config.amplitude_boost as int);
}

/// The largest amplitude among the bins; zero where there are none.
pub fn peak_amplitude(bins: &Vec<SpectralBin>) -> (top: u64)
    ensures
        top == peak(bins@),
{
    let mut top: u64 = 0;
    let mut i: usize = 0;
    while i < bins.len()
        invariant
            i <= bins.len(),
            top == peak(bins@.take(i as int)),
        decreases bins.len() - i,
    {
        assert(bins@.take(i + 1).drop_last() =~= bins@.take(i as int));
        if bins[i].amplitude > top {
            top = bins[i].amplitude;
        }
        i += 1;
    }
    assert(bins@.take(i as int) =~= bins@);
    top
}

/// Tells whether every bin lies in the buffer and in the frequency window.
fn check_bins_belong(bins: &Vec<SpectralBin>, bin_count: usize, sample_rate: u32, config: &Config) -> (ok:
    bool)
    ensures
        ok == bins_belong(bins@, bin_count as int, sample_rate as int, *config),
{
    let mut i: usize = 0;
    while i < bins.len()
        invariant
            i <= bins.len(),
            bins_belong(bins@.take(i as int), bin_count as int, sample_rate as int, *config),
        decreases bins.len() - i,
    {
        let inside: bool = bins[i].index < bin_count && bin_in_window(
            bins[i].index,
            bin_count,
            sample_rate,
            config.min_freq,
            config.max_freq,
        );
        if !inside {
            return false;
        }
        i += 1;
    }
    assert(bins@.take(i as int) =~= bins@);
    true
}

/// Computes the position of a bin within the frequency window.
fn frequency_position(
    index: usize,
    bin_count: usize,
    sample_rate: u32,
    min_freq: u32,
    max_freq: u32,
) -> (position: u64)
    requires
        0 < bin_count,
        min_freq <= max_freq,
        in_window(
            index as int,
            bin_count as int,
            sample_rate as int,
            min_freq as int,
            max_freq as int,
        ),
    ensures
        position == normalized_frequency(
            index as int,
            bin_count as int,
            sample_rate as int,
            min_freq as int,
            max_freq as int,
        ),
        position <= UNIT,
{
    if max_freq == min_freq {
        return 0;
    }
    proof {
        lemma_normalized_frequency_bounds(
            index as int,
            bin_count as int,
            sample_rate as int,
            min_freq as int,
            max_freq as int,
        );
    }
    assert(index * sample_rate <= 0xffff_ffff_ffff_ffff * 0xffff_ffff) by (nonlinear_arith)
        requires
            0 <= index <= 0xffff_ffff_ffff_ffff,
            0 <= sample_rate <= 0xffff_ffff,
    ;
    assert(min_freq * bin_count <= 0xffff_ffff * 0xffff_ffff_ffff_ffff) by (nonlinear_arith)
        requires
            0 <= bin_count <= 0xffff_ffff_ffff_ffff,
            0 <= min_freq <= 0xffff_ffff,
    ;
    assert((max_freq - min_freq) * bin_count <= 0xffff_ffff * 0xffff_ffff_ffff_ffff)
        by (nonlinear_arith)
        requires
            0 <= bin_count <= 0xffff_ffff_ffff_ffff,
            0 <= max_freq - min_freq <= 0xffff_ffff,
    ;
    let offset: u128 = (index as u128) * (sample_rate as u128) - (min_freq as u128) * (
    bin_count as u128);
    let span: u128 = ((max_freq - min_freq) as u128) * (bin_count as u128);
    scale_ratio(offset, span, UNIT)
}

/// Computes the normalised amplitude of a bin.
fn amplitude_level(amplitude: u64, top: u64, config: &Config) -> (level: u64)
    requires
        amplitude <= top,
        0 < top,
    ensures
        level == normalized_amplitude(amplitude as int, top as int, *config),
        level <= config.peak_value(),
{
    proof {
        lemma_normalized_amplitude_bounds(amplitude as int, top as int, *config);
    }
    assert(top * config.amplitude_boost <= u128::MAX) by (nonlinear_arith)
        requires
            0 <= top <= 0xffff_ffff_ffff_ffff,
            0 <= config.amplitude_boost <= 0xffff_ffff_ffff_ffff,
    ;
    let boosted: u64 = scale_ratio(amplitude as u128, top as u128, config.amplitude_boost);
    match config.clamp_max {
        Some(ceiling) => if boosted <= ceiling { boosted } else { ceiling },
        None => boosted,
    }
}

/// Rescales retained bins to normalised pairs, in their order.
///
/// `bin_count` is the length of the transform the bins come from. The
/// result is exactly `normalized(..)` unless `normalize_error(..)` names a
/// reason to refuse, and then it is that reason.
pub fn normalize(bins: &Vec<SpectralBin>, bin_count: usize, sample_rate: u32, config: &Config) -> (result:
    Result<Vec<FrequencyAmplitudePair>, SpectrumError>)
    ensures
        normalize_error(bins@, bin_count as int, sample_rate as int, *config) matches Some(e)
            ==> result == Err::<Vec<FrequencyAmplitudePair>, SpectrumError>(e),
        normalize_error(bins@, bin_count as int, sample_rate as int, *config) is None ==> (
        result matches Ok(pairs) && pairs@ == normalized(
            bins@,
            bin_count as int,
            sample_rate as int,
            *config,
        )),
{
    if bin_count == 0 || sample_rate == 0 {
        return Err(SpectrumError::InvalidInput);
    }
    if config.validate().is_err() {
        return Err(SpectrumError::InvalidConfiguration);
    }
    if !check_bins_belong(bins, bin_count, sample_rate, config) {
        return Err(SpectrumError::InvalidInput);
    }
    let top: u64 = peak_amplitude(bins);
    if bins.len() == 0 || top == 0 {
        return Err(SpectrumError::EmptyResultSet);
    }
    proof {
        lemma_peak_is_maximum(bins@);
    }
    let ghost goal = normalized(bins@, bin_count as int, sample_rate as int, *config);
    let mut pairs: Vec<FrequencyAmplitudePair> = Vec::new();
    let mut i: usize = 0;
    while i < bins.len()
        invariant
            i <= bins.len(),
            0 < bin_count,
            0 < top,
            top == peak(bins@),
            config.is_valid(),
            bins_belong(bins@, bin_count as int, sample_rate as int, *config),
            forall|k: int| 0 <= k < bins.len() ==> (#[trigger] bins[k]).amplitude <= top,
            goal == normalized(bins@, bin_count as int, sample_rate as int, *config),
            pairs@ == goal.take(i as int),
        decreases bins.len() - i,
    {
        let bin: SpectralBin = bins[i];
        let frequency: u64 = frequency_position(
            bin.index,
            bin_count,
            sample_rate,
            config.min_freq,
            config.max_freq,
        );
        let amplitude: u64 = amplitude_level(bin.amplitude, top, config);
        pairs.push(FrequencyAmplitudePair { frequency, amplitude });
        i += 1;
    }
    Ok(pairs)
}

} // verus!
