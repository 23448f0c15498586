//! The finished spectrum that an analysis run hands out.

use crate::bands::{FrequencyGroup, FrequencyGroups};
use crate::normalize::FrequencyAmplitudePair;
use vstd::prelude::*;

verus! {

/// The result of a run: the normalised pairs in ascending frequency order,
/// either as one sequence or parted into three bands.
#[derive(Debug, PartialEq, Eq)]
pub enum SpectrumModel {
    /// All pairs in one sequence.
    Flat(Vec<FrequencyAmplitudePair>),
    /// The pairs parted into a low, a middle and a high band.
    Banded(FrequencyGroups),
}

/// What a `SpectrumModel` holds, as mathematical sequences.
pub enum SpectrumShape {
    /// All pairs in one sequence.
    Flat(Seq<FrequencyAmplitudePair>),
    /// The pairs of the low, the middle and the high band.
    Banded(Seq<FrequencyAmplitudePair>, Seq<FrequencyAmplitudePair>, Seq<FrequencyAmplitudePair>),
}

impl View for SpectrumModel {
    type V = SpectrumShape;

    open spec fn view(&self) -> SpectrumShape {
        match self {
            SpectrumModel::Flat(pairs) => SpectrumShape::Flat(pairs@),
            SpectrumModel::Banded(groups) => SpectrumShape::Banded(
                groups.low@,
                groups.mid@,
                groups.high@,
            ),
        }
    }
}

impl SpectrumShape {
    /// The number of pairs in the spectrum.
    pub open spec fn count(self) -> nat {
        match self {
            SpectrumShape::Flat(pairs) => pairs.len(),
            SpectrumShape::Banded(low, mid, high) => low.len() + mid.len() + high.len(),
        }
    }
}

impl SpectrumModel {
    /// Whether the spectrum is parted into bands.
    pub fn is_banded(&self) -> (banded: bool)
        ensures
            banded == (self@ is Banded),
    {
        match self {
            SpectrumModel::Flat(_) => false,
            SpectrumModel::Banded(_) => true,
        }
    }

    /// The pairs of one band of a banded spectrum; a flat spectrum has no
    /// bands.
    pub fn band(&self, group: FrequencyGroup) -> (pairs: Option<&Vec<FrequencyAmplitudePair>>)
        ensures
            match (self@, group) {
                (SpectrumShape::Flat(_), _) => pairs is None,
                (SpectrumShape::Banded(low, _, _), FrequencyGroup::Low) => pairs matches Some(v)
                    && v@ == low,
                (SpectrumShape::Banded(_, mid, _), FrequencyGroup::Mid) => pairs matches Some(v)
                    && v@ == mid,
                (SpectrumShape::Banded(_, _, high), FrequencyGroup::High) => pairs matches Some(v)
                    && v@ == high,
            },
    {
        match self {
            SpectrumModel::Flat(_) => None,
            SpectrumModel::Banded(groups) => Some(groups.group(group)),
        }
    }
}

} // verus!
