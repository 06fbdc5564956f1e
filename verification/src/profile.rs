//! The mission profile resolver: from a stored duty-cycle description to
//! the ordered (temperature, weight) pairs and the sum of their weights.

use crate::errors::FmedaError;
use crate::models::{
    collect_complete_pairs, column_pairs, complete_pairs, MissionProfile, TempTauProfile,
};
use vstd::prelude::*;

verus! {

/// The smaller of two lengths.
pub open spec fn shorter(a: nat, b: nat) -> nat {
    if a <= b {
        a
    } else {
        b
    }
}

/// The pairs that a description holds. A list under `segments` is read
/// first; without one, the two columns are read side by side as far as
/// the shorter reaches; without both, there are none.
pub open spec fn profile_pairs(profile: TempTauProfile) -> Seq<(i64, u64)> {
    match profile.segments {
        Some(entries) => complete_pairs(entries@),
        None => match (profile.temperature, profile.tau) {
            (Some(temperature), Some(tau)) => column_pairs(
                temperature@,
                tau@,
                shorter(temperature@.len(), tau@.len()),
            ),
            _ => Seq::empty(),
        },
    }
}

/// Sum of the weights of the pairs.
pub open spec fn weight_sum(pairs: Seq<(i64, u64)>) -> int
    decreases pairs.len(),
{
    if pairs.len() == 0 {
        0
    } else {
        weight_sum(pairs.drop_last()) + pairs.last().1
    }
}

/// A profile is degenerate where it has no pair or its weights sum to
/// zero.
pub open spec fn is_degenerate(pairs: Seq<(i64, u64)>) -> bool {
    pairs.len() == 0 || weight_sum(pairs) == 0
}

/// Reads the (temperature, weight) pairs out of a duty-cycle description.
pub fn extract_temp_tau_pairs(profile: &TempTauProfile) -> (pairs: Vec<(i64, u64)>)
    ensures
        pairs@ == profile_pairs(*profile),
{
    match &profile.segments {
        Some(entries) => collect_complete_pairs(entries),
        None => match (&profile.temperature, &profile.tau) {
            (Some(temperature), Some(tau)) => {
                let n: usize = if temperature.len() <= tau.len() {
                    temperature.len()
                } else {
                    tau.len()
                };
                let mut pairs: Vec<(i64, u64)> = Vec::new();
                let mut i: usize = 0;
                while i < n
                    invariant
                        i <= n,
                        n <= temperature@.len(),
                        n <= tau@.len(),
                        pairs@ == column_pairs(temperature@, tau@, i as nat),
                    decreases n - i,
                {
                    match (temperature[i], tau[i]) {
                        (Some(t), Some(w)) => {
                            pairs.push((t, w));
                        },
                        _ => {},
                    }
                    i = i + 1;
                }
                pairs
            },
            _ => Vec::new(),
        },
    }
}

/// Sums the weights of the pairs.
pub fn total_weight(pairs: &Vec<(i64, u64)>) -> (total: u128)
    ensures
        total == weight_sum(pairs@),
{
    let mut total: u128 = 0;
    let mut i: usize = 0;
    while i < pairs.len()
        invariant
            i <= pairs.len(),
            total == weight_sum(pairs@.take(i as int)),
            total <= i * u64::MAX,
        decreases pairs.len() - i,
    {
        proof {
            assert(pairs@.take(i + 1).drop_last() == pairs@.take(i as int));
        }
        total = total + pairs[i].1 as u128;
        i = i + 1;
    }
    proof {
        assert(pairs@.take(i as int) == pairs@);
    }
    total
}

/// The pairs of a usable profile and the sum of their weights.
#[derive(Debug, Clone, PartialEq, Eq)]
pub struct ResolvedProfile {
    /// (temperature, weight) pairs in the order of the description.
    pub segments: Vec<(i64, u64)>,
    /// Sum of the weights: more than zero.
    pub total_weight: u128,
}

impl ResolvedProfile {
    /// There is a pair, and `total_weight` is the positive sum of the
    /// weights.
    pub open spec fn well_formed(&self) -> bool {
        &&& self.segments@.len() > 0
        &&& self.total_weight == weight_sum(self.segments@)
        &&& self.total_weight > 0
    }

    /// Tests [`ResolvedProfile::well_formed`].
    pub fn is_well_formed(&self) -> (r: bool)
        ensures
            r == self.well_formed(),
    {
        self.segments.len() > 0 && self.total_weight > 0 && self.total_weight == total_weight(
            &self.segments,
        )
    }
}

/// Resolves a mission profile into its pairs and their weight sum. The
/// weights are left as they are: what uses them divides by the sum.
///
/// Fails with `DegenerateProfile` exactly where the profile has no pair
/// or its weights sum to zero.
pub fn resolve_profile(profile: &MissionProfile) -> (r: Result<ResolvedProfile, FmedaError>)
    ensures
        match r {
            Ok(resolved) => {
                &&& !is_degenerate(profile_pairs(profile.temp_tau_profile))
                &&& resolved.segments@ == profile_pairs(profile.temp_tau_profile)
                &&& resolved.well_formed()
            },
            Err(e) => e == FmedaError::DegenerateProfile && is_degenerate(
                profile_pairs(profile.temp_tau_profile),
            ),
        },
{
    let segments = extract_temp_tau_pairs(&profile.temp_tau_profile);
    if segments.len() == 0 {
        return Err(FmedaError::DegenerateProfile);
    }
    let total = total_weight(&segments);
    if total == 0 {
        return Err(FmedaError::DegenerateProfile);
    }
    Ok(ResolvedProfile { segments, total_weight: total })
}

} // verus!
