//! The options of an analysis run and their domain.

use crate::error::SpectrumError;
use crate::fixed::UNIT;
use vstd::prelude::*;

verus! {

/// The two cut points that part the normalised frequency axis into a low, a
/// middle and a high band, in millionths.
#[derive(Clone, Copy, Debug, PartialEq, Eq)]
pub struct BandThresholds {
    /// Upper end of the low band (inclusive).
    pub low: u64,
    /// Upper end of the middle band (inclusive).
    pub high: u64,
}

impl BandThresholds {
    /// The cut points ascend strictly and do not exceed one.
    pub open spec fn is_valid(self) -> bool {
        self.low < self.high <= UNIT
    }

    /// Tells whether the cut points ascend strictly and do not exceed one.
    pub fn check(&self) -> (ok: bool)
        ensures
            ok == self.is_valid(),
    {
        self.low < self.high && self.high <= UNIT
    }
}

/// Everything a caller can choose about a run.
#[derive(Clone, Copy, Debug, PartialEq, Eq)]
pub struct Config {
    /// Lower end of the retained frequency window, in hertz (inclusive).
    pub min_freq: u32,
    /// Upper end of the retained frequency window, in hertz (inclusive).
    /// The transform of real samples mirrors itself above half the sample
    /// rate; a window that reaches beyond it retains the mirrored bins too.
    pub max_freq: u32,
    /// Only bins whose index is a multiple of the stride are retained.
    pub stride: usize,
    /// Exponent of the power-law compression of amplitudes, in millionths.
    /// One (`UNIT`) leaves amplitudes as they are.
    pub compression_gamma: u64,
    /// Whether the samples are tapered before the transform.
    pub window_enabled: bool,
    /// Cut points of the three bands; without them the spectrum stays flat.
    pub band_thresholds: Option<BandThresholds>,
    /// Factor applied to every normalised amplitude, in millionths.
    /// One (`UNIT`) leaves them as they are.
    pub amplitude_boost: u64,
    /// Ceiling for the boosted amplitudes, in millionths, if any.
    pub clamp_max: Option<u64>,
}

impl Config {
    /// The domain of the options: an ordered frequency window, a stride of
    /// at least one, an exponent above zero and at most one, a boost of at
    /// least one, and valid band thresholds where there are any.
    pub open spec fn is_valid(self) -> bool {
        &&& self.min_freq <= self.max_freq
        &&& self.stride >= 1
        &&& 0 < self.compression_gamma <= UNIT
        &&& self.amplitude_boost >= UNIT
        &&& (self.band_thresholds matches Some(t) ==> t.is_valid())
    }

    /// A configuration that retains every bin between `min_freq` and
    /// `max_freq` and leaves amplitudes uncompressed, unboosted, unclamped
    /// and unbanded.
    pub fn new(min_freq: u32, max_freq: u32) -> (config: Config)
        ensures
            config == (Config {
                min_freq,
                max_freq,
                stride: 1,
                compression_gamma: UNIT,
                window_enabled: false,
                band_thresholds: None,
                amplitude_boost: UNIT,
                clamp_max: None,
            }),
            min_freq <= max_freq ==> config.is_valid(),
    {
        Config {
            min_freq,
            max_freq,
            stride: 1,
            compression_gamma: UNIT,
            window_enabled: false,
            band_thresholds: None,
            amplitude_boost: UNIT,
            clamp_max: None,
        }
    }

    /// Accepts the configuration exactly when it lies in its domain.
    pub fn validate(&self) -> (result: Result<(), SpectrumError>)
        ensures
            self.is_valid() ==> result == Ok::<(), SpectrumError>(()),
            !self.is_valid() ==> result == Err::<(), SpectrumError>(
                SpectrumError::InvalidConfiguration,
            ),
    {
        let bands_ok: bool = match &self.band_thresholds {
            Some(t) => t.check(),
            None => true,
        };
        if self.min_freq <= self.max_freq && self.stride >= 1 && 0 < self.compression_gamma
            && self.compression_gamma <= UNIT && self.amplitude_boost >= UNIT && bands_ok {
            Ok(())
        } else {
            Err(SpectrumError::InvalidConfiguration)
        }
    }

    /// Whether amplitudes are to be compressed at all.
    pub fn compresses(&self) -> (yes: bool)
        ensures
            yes == (self.compression_gamma != UNIT),
    {
        self.compression_gamma != UNIT
    }

    /// The value that the strongest retained bin ends up with: the boost,
    /// cut off at the ceiling where there is one.
    pub open spec fn peak_value(self) -> int {
        match self.clamp_max {
            Some(c) => if self.amplitude_boost <= c { self.amplitude_boost as int } else { c as int },
            None => self.amplitude_boost as int,
        }
    }
}

} // verus!
