//! The ways in which an analysis run can fail.

use vstd::prelude::*;

verus! {

/// Why a run produced no spectrum.
#[derive(Clone, Copy, Debug, PartialEq, Eq, Structural)]
pub enum SpectrumError {
    /// The sample buffer is empty, the sample rate is zero, a window does not
    /// have the length of the buffer, or a bin does not belong to the buffer
    /// and frequency window it is said to come from.
    InvalidInput,
    /// The configuration is outside its documented domain.
    InvalidConfiguration,
    /// No bin was retained, or no retained bin carries any energy, so there is
    /// no peak to normalise against.
    EmptyResultSet,
}

} // verus!
