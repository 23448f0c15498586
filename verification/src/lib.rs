//! Exact, integer-only shaping of an audio spectrum.
//!
//! The crate takes the coefficients of a discrete Fourier transform and turns
//! them into a range-filtered, normalised and optionally banded spectrum.
//! Every quantity is an integer: frequencies are bin indices or whole hertz,
//! and every value on the closed interval from zero to one is a count of
//! millionths (see [`fixed::UNIT`]).
//!
//! A run goes through these stages, in this order:
//!
//! 1. [`pipeline::prepare`] checks the samples and the options and applies
//!    the window ([`window`]).
//! 2. The caller transforms the samples.
//! 3. [`magnitude::magnitudes`] takes the amplitude of every coefficient.
//! 4. The caller compresses the amplitudes where the options ask for it.
//! 5. [`pipeline::analyze`] retains the bins of the frequency window
//!    ([`filter`]), rescales them ([`normalize`]) and parts them into bands
//!    ([`bands`]).
//!
//! What holds of every run is proved in [`laws`].

pub mod bands;
pub mod config;
pub mod error;
pub mod filter;
pub mod fixed;
pub mod laws;
pub mod magnitude;
pub mod model;
pub mod normalize;
pub mod pipeline;
pub mod window;

pub use bands::{classify, partition, FrequencyGroup, FrequencyGroups};
pub use config::{BandThresholds, Config};
pub use error::SpectrumError;
pub use filter::{bin_frequency, range_filter, SpectralBin};
pub use fixed::UNIT;
pub use magnitude::{integer_sqrt, magnitudes, SpectralCoefficient};
pub use model::SpectrumModel;
pub use normalize::{normalize, peak_amplitude, FrequencyAmplitudePair};
pub use pipeline::{analyze, prepare};
pub use window::taper;
