//! The two verified halves of an analysis run.
//!
//! A run is: check the input and the options and taper the samples
//! ([`prepare`]); transform them; take the amplitude of every coefficient
//! ([`crate::magnitude::magnitudes`]); compress the amplitudes where the
//! options ask for it; then filter, normalise and band them ([`analyze`]).
//! The transform and the compression work on real numbers and are the
//! caller's part.

use crate::bands::{band, partition, FrequencyGroup};
use crate::config::Config;
use crate::error::SpectrumError;
use crate::filter::{
    all_bins,
    in_window,
    input_is_valid,
    range_filter,
    retained_bins,
    retention,
    SpectralBin,
};
use crate::model::{SpectrumModel, SpectrumShape};
use crate::normalize::{
    bins_belong,
    normalize,
    normalized,
    peak,
    FrequencyAmplitudePair,
};
use crate::window::{taper, tapered};
use vstd::prelude::*;

verus! {

/// Why the samples cannot be prepared, if they cannot: an empty buffer or a
/// sample rate of zero comes before a configuration outside its domain.
pub open spec fn preparation_error(sample_count: int, sample_rate: int, config: Config) -> Option<
    SpectrumError,
> {
    if !input_is_valid(sample_count, sample_rate) {
        Some(SpectrumError::InvalidInput)
    } else if !config.is_valid() {
        Some(SpectrumError::InvalidConfiguration)
    } else {
        None
    }
}

/// The samples as they go into the transform.
pub open spec fn prepared(samples: Seq<i64>, config: Config) -> Seq<i64> {
    if config.window_enabled {
        tapered(samples)
    } else {
        samples
    }
}

/// Checks input and options, and tapers the samples where the options ask
/// for it.
pub fn prepare(samples: Vec<i64>, sample_rate: u32, config: &Config) -> (result: Result<
    Vec<i64>,
    SpectrumError,
>)
    ensures
        preparation_error(samples.len() as int, sample_rate as int, *config) matches Some(e)
            ==> result == Err::<Vec<i64>, SpectrumError>(e),
        preparation_error(samples.len() as int, sample_rate as int, *config) is None ==> (
        result matches Ok(ready) && ready@ == prepared(samples@, *config)),
{
    if samples.len() == 0 || sample_rate == 0 {
        return Err(SpectrumError::InvalidInput);
    }
    if config.validate().is_err() {
        return Err(SpectrumError::InvalidConfiguration);
    }
    if config.window_enabled {
        taper(&samples, samples.len())
    } else {
        Ok(samples)
    }
}

/// The normalised pairs of the retained bins, in ascending bin order.
pub open spec fn spectrum_pairs(amplitudes: Seq<u64>, sample_rate: u32, config: Config) -> Seq<
    FrequencyAmplitudePair,
> {
    normalized(
        retained_bins(amplitudes, sample_rate, config),
        amplitudes.len() as int,
        sample_rate as int,
        config,
    )
}

/// The spectrum of a run that succeeds: flat without band thresholds,
/// banded with them.
pub open spec fn spectrum(amplitudes: Seq<u64>, sample_rate: u32, config: Config) -> SpectrumShape {
    let pairs = spectrum_pairs(amplitudes, sample_rate, config);
    match config.band_thresholds {
        None => SpectrumShape::Flat(pairs),
        Some(thresholds) => SpectrumShape::Banded(
            band(pairs, FrequencyGroup::Low, thresholds),
            band(pairs, FrequencyGroup::Mid, thresholds),
            band(pairs, FrequencyGroup::High, thresholds),
        ),
    }
}

/// Why a run fails, if it fails: in this order, an empty buffer or a sample
/// rate of zero, a configuration outside its domain, and a retained set that
/// is empty or silent.
pub open spec fn analysis_error(amplitudes: Seq<u64>, sample_rate: u32, config: Config) -> Option<
    SpectrumError,
> {
    let bins = retained_bins(amplitudes, sample_rate, config);
    if !input_is_valid(amplitudes.len() as int, sample_rate as int) {
        Some(SpectrumError::InvalidInput)
    } else if !config.is_valid() {
        Some(SpectrumError::InvalidConfiguration)
    } else if bins.len() == 0 || peak(bins) == 0 {
        Some(SpectrumError::EmptyResultSet)
    } else {
        None
    }
}

/// What `analyze` promises of its result: the error that `analysis_error`
/// names, or else exactly the spectrum that `spectrum` describes.
pub open spec fn is_analysis_outcome(
    amplitudes: Seq<u64>,
    sample_rate: u32,
    config: Config,
    result: Result<SpectrumModel, SpectrumError>,
) -> bool {
    match analysis_error(amplitudes, sample_rate, config) {
        Some(e) => result == Err::<SpectrumModel, SpectrumError>(e),
        None => result matches Ok(model) && model@ == spectrum(amplitudes, sample_rate, config),
    }
}

/// A retained bin lies in the buffer, on the stride and in the frequency
/// window, and carries the amplitude found at its index.
pub proof fn lemma_retained_bins_are_retained(
    amplitudes: Seq<u64>,
    sample_rate: u32,
    config: Config,
    k: int,
)
    requires
        amplitudes.len() <= usize::MAX,
        0 <= k < retained_bins(amplitudes, sample_rate, config).len(),
    ensures
        ({
            let bin = retained_bins(amplitudes, sample_rate, config)[k];
            &&& bin.index < amplitudes.len()
            &&& bin.amplitude == amplitudes[bin.index as int]
            &&& retention(amplitudes.len() as int, sample_rate as int, config)(bin)
        }),
{
    let keep = retention(amplitudes.len() as int, sample_rate as int, config);
    let all = all_bins(amplitudes);
    let bin = all.filter(keep)[k];
    all.lemma_filter_pred(keep, k);
    all.lemma_filter_contains_rev(keep, bin);
}

/// Filters, normalises and bands the amplitudes of a transform.
///
/// `amplitudes` holds one amplitude per bin of the transform, in bin order,
/// as they stand after any compression. The result is flat when the
/// configuration has no band thresholds and banded when it has.
pub fn analyze(amplitudes: &Vec<u64>, sample_rate: u32, config: &Config) -> (result: Result<
    SpectrumModel,
    SpectrumError,
>)
    ensures
        is_analysis_outcome(amplitudes@, sample_rate, *config, result),
{
    let bins: Vec<SpectralBin> = match range_filter(amplitudes, sample_rate, config) {
        Ok(bins) => bins,
        Err(e) => {
            return Err(e);
        },
    };
    proof {
        assert forall|k: int| 0 <= k < bins@.len() implies {
            &&& (#[trigger] bins@[k]).index < amplitudes.len()
            &&& in_window(
                bins@[k].index as int,
                amplitudes.len() as int,
                sample_rate as int,
                config.min_freq as int,
                config.max_freq as int,
            )
        } by {
            lemma_retained_bins_are_retained(amplitudes@, sample_rate, *config, k);
        }
    }
    let pairs: Vec<FrequencyAmplitudePair> = match normalize(
        &bins,
        amplitudes.len(),
        sample_rate,
        config,
    ) {
        Ok(pairs) => pairs,
        Err(e) => {
            return Err(e);
        },
    };
    match &config.band_thresholds {
        None => Ok(SpectrumModel::Flat(pairs)),
        Some(thresholds) => match partition(&pairs, thresholds) {
            Ok(groups) => Ok(SpectrumModel::Banded(groups)),
            Err(e) => Err(e),
        },
    }
}

} // verus!
