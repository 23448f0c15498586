//! Partition of the normalised spectrum into a low, a middle and a high band.

use crate::config::BandThresholds;
use crate::error::SpectrumError;
use crate::normalize::FrequencyAmplitudePair;
use vstd::prelude::*;

verus! {

/// The band a normalised frequency falls into.
#[derive(Clone, Copy, Debug, PartialEq, Eq, Structural)]
pub enum FrequencyGroup {
    /// At or below the lower cut point.
    Low,
    /// Above the lower cut point, at or below the upper one.
    Mid,
    /// Above the upper cut point.
    High,
}

/// The band of a normalised frequency.
pub open spec fn group_of(frequency: u64, thresholds: BandThresholds) -> FrequencyGroup {
    if frequency <= thresholds.low {
        FrequencyGroup::Low
    } else if frequency <= thresholds.high {
        FrequencyGroup::Mid
    } else {
        FrequencyGroup::High
    }
}

/// Membership of a pair in a band, as a predicate on pairs.
pub open spec fn in_group(group: FrequencyGroup, thresholds: BandThresholds) -> spec_fn(
    FrequencyAmplitudePair,
) -> bool {
    |pair: FrequencyAmplitudePair| group_of(pair.frequency, thresholds) == group
}

/// The pairs of one band, in the order in which they stand in `pairs`.
pub open spec fn band(
    pairs: Seq<FrequencyAmplitudePair>,
    group: FrequencyGroup,
    thresholds: BandThresholds,
) -> Seq<FrequencyAmplitudePair> {
    pairs.filter(in_group(group, thresholds))
}

/// Finds the band of a normalised frequency.
pub fn classify(frequency: u64, thresholds: &BandThresholds) -> (group: FrequencyGroup)
    ensures
        group == group_of(frequency, *thresholds),
{
    if frequency <= thresholds.low {
        FrequencyGroup::Low
    } else if frequency <= thresholds.high {
        FrequencyGroup::Mid
    } else {
        FrequencyGroup::High
    }
}

/// A spectrum parted into its three bands.
#[derive(Debug, PartialEq, Eq)]
pub struct FrequencyGroups {
    /// The pairs at or below the lower cut point.
    pub low: Vec<FrequencyAmplitudePair>,
    /// The pairs between the cut points.
    pub mid: Vec<FrequencyAmplitudePair>,
    /// The pairs above the upper cut point.
    pub high: Vec<FrequencyAmplitudePair>,
}

impl FrequencyGroups {
    /// The three bands hold exactly the pairs of `pairs` that belong to
    /// them, in the order of `pairs`.
    pub open spec fn is_partition_of(
        self,
        pairs: Seq<FrequencyAmplitudePair>,
        thresholds: BandThresholds,
    ) -> bool {
        &&& self.low@ == band(pairs, FrequencyGroup::Low, thresholds)
        &&& self.mid@ == band(pairs, FrequencyGroup::Mid, thresholds)
        &&& self.high@ == band(pairs, FrequencyGroup::High, thresholds)
    }

    /// The pairs of one band.
    pub open spec fn spec_group(self, group: FrequencyGroup) -> Seq<FrequencyAmplitudePair> {
        match group {
            FrequencyGroup::Low => self.low@,
            FrequencyGroup::Mid => self.mid@,
            FrequencyGroup::High => self.high@,
        }
    }

    /// The pairs of one band.
    pub fn group(&self, group: FrequencyGroup) -> (pairs: &Vec<FrequencyAmplitudePair>)
        ensures
            pairs@ == self.spec_group(group),
    {
        match group {
            FrequencyGroup::Low => &self.low,
            FrequencyGroup::Mid => &self.mid,
            FrequencyGroup::High => &self.high,
        }
    }
}

/// Parts normalised pairs into the three bands, keeping their order.
///
/// Cut points that do not ascend strictly, or that exceed one, are refused.
pub fn partition(pairs: &Vec<FrequencyAmplitudePair>, thresholds: &BandThresholds) -> (result:
    Result<FrequencyGroups, SpectrumError>)
    ensures
        !thresholds.is_valid() ==> result == Err::<FrequencyGroups, SpectrumError>(
            SpectrumError::InvalidConfiguration,
        ),
        thresholds.is_valid() ==> (result matches Ok(groups) && groups.is_partition_of(
            pairs@,
            *thresholds,
        )),
{
    if !thresholds.check() {
        return Err(SpectrumError::InvalidConfiguration);
    }
    let ghost is_low = in_group(FrequencyGroup::Low, *thresholds);
    let ghost is_mid = in_group(FrequencyGroup::Mid, *thresholds);
    let ghost is_high = in_group(FrequencyGroup::High, *thresholds);
    let mut low: Vec<FrequencyAmplitudePair> = Vec::new();
    let mut mid: Vec<FrequencyAmplitudePair> = Vec::new();
    let mut high: Vec<FrequencyAmplitudePair> = Vec::new();
    let mut i: usize = 0;
    proof {
        reveal(Seq::filter);
    }
    while i < pairs.len()
        invariant
            i <= pairs.len(),
            is_low == in_group(FrequencyGroup::Low, *thresholds),
            is_mid == in_group(FrequencyGroup::Mid, *thresholds),
            is_high == in_group(FrequencyGroup::High, *thresholds),
            low@ == pairs@.take(i as int).filter(is_low),
            mid@ == pairs@.take(i as int).filter(is_mid),
            high@ == pairs@.take(i as int).filter(is_high),
        decreases pairs.len() - i,
    {
        let pair: FrequencyAmplitudePair = pairs[i];
        proof {
            let before = pairs@.take(i as int);
            assert(pairs@.take(i + 1) =~= before.push(pair));
            before.lemma_filter_push(pair, is_low);
            before.lemma_filter_push(pair, is_mid);
            before.lemma_filter_push(pair, is_high);
        }
        match classify(pair.frequency, thresholds) {
            FrequencyGroup::Low => low.push(pair),
            FrequencyGroup::Mid => mid.push(pair),
            FrequencyGroup::High => high.push(pair),
        }
        i += 1;
    }
    assert(pairs@.take(i as int) =~= pairs@);
    Ok(FrequencyGroups { low, mid, high })
}

} // verus!
