//! The records that a calculation reads and the results that it builds.
//!
//! Identifiers are 128-bit values. Rates, weights and temperatures are
//! fixed-point integers in the units of [`crate::units`].

use vstd::prelude::*;

verus! {

/// One line of a bill of materials.
#[derive(Debug, Clone)]
pub struct Component {
    pub id: u128,
    pub project_id: u128,
    pub manufacturer_part_number: String,
    pub manufacturer: Option<String>,
    pub reference_designator: Option<String>,
    /// How many are installed: at least one.
    pub quantity: i32,
    /// The type tag, such as `Resistor`, `Capacitor` or `IC`.
    pub component_type: String,
    /// The manufacturer's base failure rate, in nano-FIT.
    pub base_fit: Option<u64>,
    /// The quality factor, in billionths.
    pub quality_factor: Option<u64>,
    pub resistor_type: Option<String>,
    pub mission_profile_id: Option<u128>,
    pub variant_id: Option<u128>,
}

impl Component {
    /// A component is installed at least once.
    pub open spec fn well_formed(&self) -> bool {
        self.quantity >= 1
    }

    /// Tests [`Component::well_formed`].
    pub fn is_well_formed(&self) -> (r: bool)
        ensures
            r == self.well_formed(),
    {
        self.quantity >= 1
    }
}

/// A manufacturer-qualified baseline of a component subtype.
#[derive(Debug, Clone)]
pub struct ComponentVariant {
    pub id: u128,
    pub subtype_id: u128,
    pub name: String,
    /// The reference failure rate, in nano-FIT.
    pub ref_fit: u64,
    /// The temperature at which `ref_fit` was qualified, in milli-degrees
    /// Celsius.
    pub ref_temp: Option<i64>,
    pub notes: Option<String>,
}

/// One entry of a duty-cycle description. A field is `None` where the
/// entry lacks it or holds no usable number there.
#[derive(Debug, Clone, Copy, PartialEq, Eq)]
pub struct SegmentEntry {
    /// Operating temperature, in milli-degrees Celsius.
    pub temperature: Option<i64>,
    /// Duration weight, relative to the other entries.
    pub tau: Option<u64>,
}

/// The duty-cycle description of a mission profile, in each of the shapes
/// in which one is stored.
#[derive(Debug, Clone)]
pub struct TempTauProfile {
    /// The list of entries under `segments`, where there is one.
    pub segments: Option<Vec<SegmentEntry>>,
    /// The column of temperatures, where there is one.
    pub temperature: Option<Vec<Option<i64>>>,
    /// The column of duration weights, where there is one.
    pub tau: Option<Vec<Option<u64>>>,
    /// The entries of a description that is itself a list.
    pub points: Option<Vec<SegmentEntry>>,
}

/// A named duty-cycle description.
#[derive(Debug, Clone)]
pub struct MissionProfile {
    pub id: u128,
    pub name: String,
    pub description: Option<String>,
    pub temp_tau_profile: TempTauProfile,
    pub reference_temp: Option<i64>,
    pub operating_temp: Option<i64>,
}

/// The entries of `entries` that hold both a temperature and a weight, in
/// order, as (temperature, weight) pairs.
pub open spec fn complete_pairs(entries: Seq<SegmentEntry>) -> Seq<(i64, u64)>
    decreases entries.len(),
{
    if entries.len() == 0 {
        Seq::empty()
    } else {
        let rest = complete_pairs(entries.drop_last());
        let e = entries.last();
        match (e.temperature, e.tau) {
            (Some(t), Some(w)) => rest.push((t, w)),
            _ => rest,
        }
    }
}

/// The pairs that the first `n` rows of two columns give: row `i` counts
/// where both columns hold a number there.
pub open spec fn column_pairs(
    temperature: Seq<Option<i64>>,
    tau: Seq<Option<u64>>,
    n: nat,
) -> Seq<(i64, u64)>
    recommends
        n <= temperature.len(),
        n <= tau.len(),
    decreases n,
{
    if n == 0 {
        Seq::empty()
    } else {
        let rest = column_pairs(temperature, tau, (n - 1) as nat);
        match (temperature[n - 1], tau[n - 1]) {
            (Some(t), Some(w)) => rest.push((t, w)),
            _ => rest,
        }
    }
}

/// Collects [`complete_pairs`] of a list of entries.
pub fn collect_complete_pairs(entries: &Vec<SegmentEntry>) -> (pairs: Vec<(i64, u64)>)
    ensures
        pairs@ == complete_pairs(entries@),
{
    let mut pairs: Vec<(i64, u64)> = Vec::new();
    let mut i: usize = 0;
    while i < entries.len()
        invariant
            i <= entries.len(),
            pairs@ == complete_pairs(entries@.take(i as int)),
        decreases entries.len() - i,
    {
        let e = entries[i];
        proof {
            assert(entries@.take(i + 1).drop_last() == entries@.take(i as int));
        }
        match (e.temperature, e.tau) {
            (Some(t), Some(w)) => {
                pairs.push((t, w));
            },
            _ => {},
        }
        i = i + 1;
    }
    proof {
        assert(entries@.take(i as int) == entries@);
    }
    pairs
}

impl MissionProfile {
    /// The pairs of a description that is a list of points: none where it
    /// is no list.
    pub open spec fn point_pairs(&self) -> Seq<(i64, u64)> {
        match self.temp_tau_profile.points {
            Some(points) => complete_pairs(points@),
            None => Seq::empty(),
        }
    }

    /// The (temperature, weight) pairs of a description stored as a list
    /// of points: each point that holds both numbers, in order. Empty
    /// where the description is no list.
    pub fn parse_temp_tau_profile(&self) -> (pairs: Vec<(i64, u64)>)
        ensures
            pairs@ == self.point_pairs(),
    {
        match &self.temp_tau_profile.points {
            Some(points) => collect_complete_pairs(points),
            None => Vec::new(),
        }
    }
}

/// One way in which a component of a given part or family fails.
#[derive(Debug, Clone)]
pub struct FailureMode {
    pub id: u128,
    pub mpn: Option<String>,
    pub family: Option<String>,
    pub mode: String,
    /// The base failure rate of the mode, in nano-FIT.
    pub lambda: u64,
    /// The share of occurrences that diagnostics catch, in billionths;
    /// `None` counts as none caught.
    pub detection_coverage: Option<u32>,
}

impl FailureMode {
    /// The coverage as a number: zero where none is stated.
    pub open spec fn coverage(&self) -> int {
        match self.detection_coverage {
            Some(c) => c as int,
            None => 0,
        }
    }

    /// A stated coverage is at most the whole.
    pub open spec fn well_formed(&self) -> bool {
        self.coverage() <= 1_000_000_000
    }

    /// Tests [`FailureMode::well_formed`].
    pub fn is_well_formed(&self) -> (r: bool)
        ensures
            r == self.well_formed(),
    {
        match self.detection_coverage {
            Some(c) => c <= 1_000_000_000u32,
            None => true,
        }
    }
}

/// Every mode of the list is well formed.
pub open spec fn modes_well_formed(modes: Seq<FailureMode>) -> bool {
    forall|i: int| 0 <= i < modes.len() ==> (#[trigger] modes[i]).well_formed()
}

/// Tests [`modes_well_formed`].
pub fn are_modes_well_formed(modes: &[FailureMode]) -> (r: bool)
    ensures
        r == modes_well_formed(modes@),
{
    let mut i: usize = 0;
    while i < modes.len()
        invariant
            i <= modes.len(),
            forall|j: int| 0 <= j < i ==> (#[trigger] modes@[j]).well_formed(),
        decreases modes.len() - i,
    {
        if !modes[i].is_well_formed() {
            return false;
        }
        i = i + 1;
    }
    true
}

/// The FMEDA figures of one component.
#[derive(Debug, Clone, PartialEq, Eq)]
pub struct ComponentFMEDAResult {
    pub component_id: u128,
    pub mpn: String,
    pub quantity: i32,
    /// Sum of the modes' rates, in nano-FIT.
    pub total_fit: u128,
    /// The same rate per hour.
    pub total_failure_per_hour: u128,
    /// Rate-weighted mean of the modes' coverage, in billionths, rounded
    /// down.
    pub detection_coverage: u128,
    /// The detected share of the rate, per hour.
    pub safe_per_hour: u128,
    /// The undetected share of the rate, per hour.
    pub dangerous_per_hour: u128,
}

/// The totals of a project.
#[derive(Debug, Clone, Copy, PartialEq, Eq)]
pub struct ProjectAggregate {
    pub total_dangerous_per_hour: u128,
    pub total_safe_per_hour: u128,
    /// Whole nano-FIT in `total_dangerous_per_hour`.
    pub total_dangerous_fit: u128,
    /// Whole nano-FIT in `total_safe_per_hour`.
    pub total_safe_fit: u128,
    pub dangerous_per_million_hours: u128,
}

/// The FMEDA figures of a project: one result per component, in the order
/// of the bill of materials, and the totals.
#[derive(Debug, Clone, PartialEq, Eq)]
pub struct ProjectFMEDAResult {
    pub components: Vec<ComponentFMEDAResult>,
    pub aggregate: ProjectAggregate,
}

} // verus!
