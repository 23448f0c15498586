//! What holds of every analysis run, proved from the contracts of the stages.

use crate::bands::{band, group_of, in_group, FrequencyGroup};
use crate::config::{BandThresholds, Config};
use crate::error::SpectrumError;
use crate::filter::{all_bins, frequency_hz, input_is_valid, retained_bins, retention, SpectralBin};
use crate::fixed::{lemma_scaled_ratio_monotone, lemma_scaled_ratio_of_whole, UNIT};
use crate::magnitude::{are_magnitudes, lemma_floor_sqrt_unique, SpectralCoefficient};
use crate::model::{SpectrumModel, SpectrumShape};
use crate::normalize::{
    lemma_normalized_amplitude_bounds,
    lemma_normalized_frequency_bounds,
    lemma_peak_is_maximum,
    peak,
    FrequencyAmplitudePair,
};
use crate::pipeline::{
    analysis_error,
    is_analysis_outcome,
    lemma_retained_bins_are_retained,
    spectrum,
    spectrum_pairs,
};
use crate::window::{lemma_tapered_sample_bounds, taper_weight, tapered_sample};
use vstd::arithmetic::div_mod::{lemma_div_is_ordered, lemma_div_multiples_vanish};
use vstd::arithmetic::mul::lemma_mul_is_commutative;
use vstd::prelude::*;

verus! {

/// Every element stands in the given relation to every later element.
pub open spec fn pairwise<A>(s: Seq<A>, related: spec_fn(A, A) -> bool) -> bool {
    forall|i: int, j: int| 0 <= i < j < s.len() ==> related(#[trigger] s[i], #[trigger] s[j])
}

/// Filtering keeps the elements in their order: a relation that holds from
/// every element to every later one still does so after filtering.
pub proof fn lemma_filter_preserves_pairwise<A>(
    s: Seq<A>,
    keep: spec_fn(A) -> bool,
    related: spec_fn(A, A) -> bool,
)
    requires
        pairwise(s, related),
    ensures
        pairwise(s.filter(keep), related),
    decreases s.len(),
{
    reveal(Seq::filter);
    if s.len() > 0 {
        let rest = s.drop_last();
        let kept = rest.filter(keep);
        lemma_filter_preserves_pairwise(rest, keep, related);
        if keep(s.last()) {
            let out = s.filter(keep);
            assert forall|i: int, j: int| 0 <= i < j < out.len() implies related(
                #[trigger] out[i],
                #[trigger] out[j],
            ) by {
                if j == kept.len() {
                    // `out[i]` stands somewhere in `rest`, before the last
                    // element of `s`, which is `out[j]`.
                    rest.lemma_filter_contains_rev(keep, kept[i]);
                }
            }
        }
    }
}

/// The weights of the window vanish at both ends, mirror each other about
/// the centre, are largest at the centre, and never exceed one; in a window
/// of odd length the centre has weight one. A tapered sample keeps its sign,
/// is no larger than the sample, and is silent at both ends.
pub proof fn law_window_shape(sample: int, i: int, n: int)
    requires
        0 <= i < n,
    ensures
        taper_weight(0, n) == 0,
        taper_weight(n - 1, n) == 0,
        taper_weight(i, n) == taper_weight(n - 1 - i, n),
        0 <= taper_weight(i, n) <= taper_weight((n - 1) / 2, n) <= n - 1,
        n % 2 == 1 ==> taper_weight((n - 1) / 2, n) == n - 1,
        n % 2 == 1 && n > 1 ==> tapered_sample(sample, (n - 1) / 2, n) == sample,
        tapered_sample(sample, 0, n) == 0,
        tapered_sample(sample, n - 1, n) == 0,
        sample >= 0 ==> 0 <= tapered_sample(sample, i, n) <= sample,
        sample <= 0 ==> sample <= tapered_sample(sample, i, n) <= 0,
{
    lemma_tapered_sample_bounds(sample, 0, n);
    lemma_tapered_sample_bounds(sample, n - 1, n);
    lemma_tapered_sample_bounds(sample, i, n);
    if n % 2 == 1 && n > 1 {
        lemma_scaled_ratio_of_whole(n - 1, sample);
        lemma_scaled_ratio_of_whole(n - 1, -sample);
    }
}

/// The coefficients determine their amplitudes: two sequences that both hold
/// the amplitudes of the same coefficients are equal.
pub proof fn law_magnitudes_are_determined(
    coefficients: Seq<SpectralCoefficient>,
    first: Seq<u64>,
    second: Seq<u64>,
)
    requires
        are_magnitudes(first, coefficients),
        are_magnitudes(second, coefficients),
    ensures
        first == second,
{
    assert forall|i: int| 0 <= i < first.len() implies first[i] == second[i] by {
        lemma_floor_sqrt_unique(first[i] as int, second[i] as int, coefficients[i].norm_squared());
    }
}

/// The result of a run, with the spectrum taken as mathematical sequences.
pub open spec fn outcome_shape(result: Result<SpectrumModel, SpectrumError>) -> Result<
    SpectrumShape,
    SpectrumError,
> {
    match result {
        Ok(model) => Ok(model@),
        Err(e) => Err(e),
    }
}

/// Two runs on the same amplitudes, sample rate and configuration end
/// alike: with the same error, or with spectra that hold the same pairs in
/// the same order.
pub proof fn law_analysis_is_deterministic(
    amplitudes: Seq<u64>,
    sample_rate: u32,
    config: Config,
    first: Result<SpectrumModel, SpectrumError>,
    second: Result<SpectrumModel, SpectrumError>,
)
    requires
        is_analysis_outcome(amplitudes, sample_rate, config, first),
        is_analysis_outcome(amplitudes, sample_rate, config, second),
    ensures
        outcome_shape(first) == outcome_shape(second),
{
}

/// Every retained bin lies in the buffer, has a frequency between the
/// configured bounds, both inclusive, and is on the stride.
pub proof fn law_retained_frequencies_in_window(
    amplitudes: Seq<u64>,
    sample_rate: u32,
    config: Config,
    k: int,
)
    requires
        amplitudes.len() <= usize::MAX,
        0 <= k < retained_bins(amplitudes, sample_rate, config).len(),
    ensures
        ({
            let bin = retained_bins(amplitudes, sample_rate, config)[k];
            &&& bin.index < amplitudes.len()
            &&& config.min_freq * amplitudes.len() <= bin.index * sample_rate
                <= config.max_freq * amplitudes.len()
            &&& bin.index as int % config.stride as int == 0
            &&& config.min_freq <= frequency_hz(
                bin.index as int,
                amplitudes.len() as int,
                sample_rate as int,
            ) <= config.max_freq
        }),
{
    lemma_retained_bins_are_retained(amplitudes, sample_rate, config, k);
    let bin = retained_bins(amplitudes, sample_rate, config)[k];
    let n = amplitudes.len() as int;
    let position = bin.index * sample_rate;
    lemma_div_is_ordered(config.min_freq * n, position, n);
    lemma_div_is_ordered(position, config.max_freq * n, n);
    lemma_div_multiples_vanish(config.min_freq as int, n);
    lemma_div_multiples_vanish(config.max_freq as int, n);
    lemma_mul_is_commutative(config.min_freq as int, n);
    lemma_mul_is_commutative(config.max_freq as int, n);
}

/// Every pair of the spectrum has a normalised frequency between zero and
/// one.
pub proof fn law_normalized_frequencies_in_unit(
    amplitudes: Seq<u64>,
    sample_rate: u32,
    config: Config,
    k: int,
)
    requires
        amplitudes.len() <= usize::MAX,
        input_is_valid(amplitudes.len() as int, sample_rate as int),
        config.is_valid(),
        0 <= k < spectrum_pairs(amplitudes, sample_rate, config).len(),
    ensures
        0 <= spectrum_pairs(amplitudes, sample_rate, config)[k].frequency <= UNIT,
{
    let bin = retained_bins(amplitudes, sample_rate, config)[k];
    lemma_retained_bins_are_retained(amplitudes, sample_rate, config, k);
    lemma_normalized_frequency_bounds(
        bin.index as int,
        amplitudes.len() as int,
        sample_rate as int,
        config.min_freq as int,
        config.max_freq as int,
    );
}

/// In a run that succeeds no pair exceeds the configuration's peak value,
/// and some pair attains it. Without boost and ceiling that value is one;
/// with a ceiling no pair exceeds the ceiling.
pub proof fn law_peak_amplitude(amplitudes: Seq<u64>, sample_rate: u32, config: Config)
    requires
        amplitudes.len() <= usize::MAX,
        analysis_error(amplitudes, sample_rate, config) is None,
    ensures
        forall|k: int|
            0 <= k < spectrum_pairs(amplitudes, sample_rate, config).len() ==> (
            #[trigger] spectrum_pairs(amplitudes, sample_rate, config)[k]).amplitude
                <= config.peak_value(),
        exists|k: int|
            0 <= k < spectrum_pairs(amplitudes, sample_rate, config).len() && (
            #[trigger] spectrum_pairs(amplitudes, sample_rate, config)[k]).amplitude
                == config.peak_value(),
        config.amplitude_boost == UNIT && config.clamp_max is None ==> config.peak_value() == UNIT,
        config.clamp_max matches Some(ceiling) ==> config.peak_value() <= ceiling,
{
    let bins = retained_bins(amplitudes, sample_rate, config);
    let pairs = spectrum_pairs(amplitudes, sample_rate, config);
    let top = peak(bins);
    lemma_peak_is_maximum(bins);
    assert forall|k: int| 0 <= k < pairs.len() implies (#[trigger] pairs[k]).amplitude
        <= config.peak_value() by {
        lemma_normalized_amplitude_bounds(bins[k].amplitude as int, top, config);
    }
    let strongest = choose|k: int| 0 <= k < bins.len() && (#[trigger] bins[k]).amplitude == top;
    lemma_normalized_amplitude_bounds(top, top, config);
    assert(pairs[strongest].amplitude == config.peak_value());
}

/// The three bands together hold as many pairs as the spectrum, and every
/// pair of the spectrum stands in the band of its frequency.
pub proof fn law_bands_are_complete(pairs: Seq<FrequencyAmplitudePair>, thresholds: BandThresholds)
    ensures
        band(pairs, FrequencyGroup::Low, thresholds).len() + band(
            pairs,
            FrequencyGroup::Mid,
            thresholds,
        ).len() + band(pairs, FrequencyGroup::High, thresholds).len() == pairs.len(),
        forall|k: int|
            0 <= k < pairs.len() ==> band(
                pairs,
                group_of(pairs[k].frequency, thresholds),
                thresholds,
            ).contains(#[trigger] pairs[k]),
    decreases pairs.len(),
{
    let is_low = in_group(FrequencyGroup::Low, thresholds);
    let is_mid = in_group(FrequencyGroup::Mid, thresholds);
    let is_high = in_group(FrequencyGroup::High, thresholds);
    if pairs.len() == 0 {
        reveal(Seq::filter);
    } else {
        let rest = pairs.drop_last();
        let last = pairs.last();
        law_bands_are_complete(rest, thresholds);
        assert(rest.push(last) =~= pairs);
        rest.lemma_filter_len_push(is_low, last);
        rest.lemma_filter_len_push(is_mid, last);
        rest.lemma_filter_len_push(is_high, last);
    }
    assert forall|k: int| 0 <= k < pairs.len() implies band(
        pairs,
        group_of(pairs[k].frequency, thresholds),
        thresholds,
    ).contains(#[trigger] pairs[k]) by {
        pairs.lemma_filter_contains(in_group(group_of(pairs[k].frequency, thresholds), thresholds), k);
    }
}

/// A pair that stands in one band stands in no other, and it stands in the
/// spectrum.
pub proof fn law_bands_are_disjoint(
    pairs: Seq<FrequencyAmplitudePair>,
    thresholds: BandThresholds,
    group: FrequencyGroup,
    pair: FrequencyAmplitudePair,
)
    requires
        band(pairs, group, thresholds).contains(pair),
    ensures
        group_of(pair.frequency, thresholds) == group,
        pairs.contains(pair),
        forall|other: FrequencyGroup|
            other != group ==> !(#[trigger] band(pairs, other, thresholds)).contains(pair),
{
    let here = band(pairs, group, thresholds);
    let k = choose|k: int| 0 <= k < here.len() && here[k] == pair;
    pairs.lemma_filter_pred(in_group(group, thresholds), k);
    pairs.lemma_filter_contains_rev(in_group(group, thresholds), pair);
    assert forall|other: FrequencyGroup| other != group implies !(#[trigger] band(
        pairs,
        other,
        thresholds,
    )).contains(pair) by {
        let there = band(pairs, other, thresholds);
        if there.contains(pair) {
            let j = choose|j: int| 0 <= j < there.len() && there[j] == pair;
            pairs.lemma_filter_pred(in_group(other, thresholds), j);
        }
    }
}

/// The frequencies of the pairs never descend.
pub open spec fn is_ascending(pairs: Seq<FrequencyAmplitudePair>) -> bool {
    forall|i: int, j: int|
        0 <= i <= j < pairs.len() ==> (#[trigger] pairs[i]).frequency <= (
        #[trigger] pairs[j]).frequency
}

/// Each band of a frequency-ascending spectrum is itself
/// frequency-ascending.
pub proof fn law_bands_keep_order(
    pairs: Seq<FrequencyAmplitudePair>,
    group: FrequencyGroup,
    thresholds: BandThresholds,
)
    requires
        is_ascending(pairs),
    ensures
        is_ascending(band(pairs, group, thresholds)),
{
    let not_above = |a: FrequencyAmplitudePair, b: FrequencyAmplitudePair|
        a.frequency <= b.frequency;
    lemma_filter_preserves_pairwise(pairs, in_group(group, thresholds), not_above);
}

/// The retained bins stand in strictly ascending index order.
pub proof fn law_retained_bins_ascend(amplitudes: Seq<u64>, sample_rate: u32, config: Config)
    requires
        amplitudes.len() <= usize::MAX,
    ensures
        forall|i: int, j: int|
            0 <= i < j < retained_bins(amplitudes, sample_rate, config).len() ==> (
            #[trigger] retained_bins(amplitudes, sample_rate, config)[i]).index < (
            #[trigger] retained_bins(amplitudes, sample_rate, config)[j]).index,
{
    let before = |a: SpectralBin, b: SpectralBin| a.index < b.index;
    let all = all_bins(amplitudes);
    lemma_filter_preserves_pairwise(
        all,
        retention(amplitudes.len() as int, sample_rate as int, config),
        before,
    );
}

/// The spectrum of a run is frequency-ascending.
pub proof fn law_spectrum_is_ascending(amplitudes: Seq<u64>, sample_rate: u32, config: Config)
    requires
        amplitudes.len() <= usize::MAX,
        input_is_valid(amplitudes.len() as int, sample_rate as int),
        config.is_valid(),
    ensures
        is_ascending(spectrum_pairs(amplitudes, sample_rate, config)),
{
    let bins = retained_bins(amplitudes, sample_rate, config);
    let pairs = spectrum_pairs(amplitudes, sample_rate, config);
    let n = amplitudes.len() as int;
    let low = config.min_freq as int;
    let high = config.max_freq as int;
    law_retained_bins_ascend(amplitudes, sample_rate, config);
    assert forall|i: int, j: int| 0 <= i <= j < pairs.len() implies (#[trigger] pairs[i]).frequency
        <= (#[trigger] pairs[j]).frequency by {
        lemma_retained_bins_are_retained(amplitudes, sample_rate, config, i);
        lemma_retained_bins_are_retained(amplitudes, sample_rate, config, j);
        lemma_normalized_frequency_bounds(bins[i].index as int, n, sample_rate as int, low, high);
        lemma_normalized_frequency_bounds(bins[j].index as int, n, sample_rate as int, low, high);
        if i < j && low < high {
            assert(bins[i].index * sample_rate <= bins[j].index * sample_rate) by (nonlinear_arith)
                requires
                    bins[i].index <= bins[j].index,
                    0 <= sample_rate,
            ;
            lemma_scaled_ratio_monotone(
                bins[i].index * sample_rate - low * n,
                bins[j].index * sample_rate - low * n,
                (high - low) * n,
                UNIT as int,
            );
        }
    }
}

/// Every band of the spectrum of a run is frequency-ascending.
pub proof fn law_bands_of_a_run_ascend(
    amplitudes: Seq<u64>,
    sample_rate: u32,
    config: Config,
    group: FrequencyGroup,
)
    requires
        amplitudes.len() <= usize::MAX,
        input_is_valid(amplitudes.len() as int, sample_rate as int),
        config.is_valid(),
        config.band_thresholds is Some,
    ensures
        is_ascending(
            band(
                spectrum_pairs(amplitudes, sample_rate, config),
                group,
                config.band_thresholds->Some_0,
            ),
        ),
{
    law_spectrum_is_ascending(amplitudes, sample_rate, config);
    law_bands_keep_order(
        spectrum_pairs(amplitudes, sample_rate, config),
        group,
        config.band_thresholds->Some_0,
    );
}

/// A spectrum, flat or banded, holds exactly one pair for every retained
/// bin, and no bin is retained twice.
pub proof fn law_one_pair_per_retained_bin(amplitudes: Seq<u64>, sample_rate: u32, config: Config)
    requires
        amplitudes.len() <= usize::MAX,
    ensures
        spectrum(amplitudes, sample_rate, config).count() == retained_bins(
            amplitudes,
            sample_rate,
            config,
        ).len(),
        retained_bins(amplitudes, sample_rate, config).len() <= amplitudes.len(),
        forall|i: int, j: int|
            0 <= i < j < retained_bins(amplitudes, sample_rate, config).len() ==> (
            #[trigger] retained_bins(amplitudes, sample_rate, config)[i]).index != (
            #[trigger] retained_bins(amplitudes, sample_rate, config)[j]).index,
{
    law_retained_bins_ascend(amplitudes, sample_rate, config);
    all_bins(amplitudes).lemma_filter_len(
        retention(amplitudes.len() as int, sample_rate as int, config),
    );
    if let Some(thresholds) = config.band_thresholds {
        law_bands_are_complete(spectrum_pairs(amplitudes, sample_rate, config), thresholds);
    }
}

} // verus!
