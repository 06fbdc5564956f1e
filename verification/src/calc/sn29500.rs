//! SN29500: failure rates that depend on temperature and duty cycle.
//!
//! A resistor's rate is its variant's reference rate times the mean of the
//! temperature acceleration factors over the mission profile, each
//! weighted by its segment's share of the total duration. The other types
//! have fixed rates until a qualified model of their own is added.

use crate::calc::{AccelerationPlan, Degradation, FitStep};
use crate::errors::FmedaError;
use crate::models::{Component, ComponentVariant, MissionProfile};
use crate::profile::{is_degenerate, profile_pairs, resolve_profile, weight_sum};
use crate::thermal::{temperature_valid, to_kelvin};
use crate::units::same_text;
use vstd::arithmetic::div_mod::{
    lemma_div_is_ordered, lemma_div_multiples_vanish, lemma_div_multiples_vanish_quotient,
};
use vstd::prelude::*;

verus! {

/// The reference temperature of the standard, in milli-degrees Celsius.
pub const REFERENCE_TEMPERATURE: i64 = 40_000;

/// The qualification temperature of a variant that states none.
pub const DEFAULT_QUALIFICATION_TEMPERATURE: i64 = 40_000;

/// Weight `A` of the first failure mechanism, in billionths.
pub const MECHANISM_WEIGHT: u64 = 873_000_000;

/// Activation energy `Ea1`, in nano-electron-volts.
pub const ACTIVATION_ENERGY_1: u64 = 160_000_000;

/// Activation energy `Ea2`, in nano-electron-volts.
pub const ACTIVATION_ENERGY_2: u64 = 440_000_000;

/// Conservative base rate of a resistor, in nano-FIT.
pub const RESISTOR_BASE_FIT: u64 = 300_000_000;

/// Fixed rate of a capacitor, in nano-FIT.
pub const CAPACITOR_FIT: u64 = 800_000_000;

/// Fixed rate of an integrated circuit, in nano-FIT.
pub const IC_FIT: u64 = 5_000_000_000;

/// Base rate of a type that the table does not list, in nano-FIT.
pub const DEFAULT_BASE_FIT: u64 = 1_000_000_000;

/// The lower-case form of a text, as `str::to_lowercase` gives it.
pub uninterp spec fn lowercase_of(text: Seq<char>) -> Seq<char>;

/// Calls `str::to_lowercase`. The contract names the result: the standard
/// library maps each character by the Unicode lower-case tables, which
/// depend on the text alone.
#[verifier::external_body]
fn to_lowercase(text: &str) -> (lowered: String)
    ensures
        lowered@ == lowercase_of(text@),
{
    text.to_lowercase()
}

/// The base rate that the fallback table gives a lower-case type name.
pub open spec fn base_lambda_spec(lowered: Seq<char>) -> u64 {
    if lowered == "resistor"@ {
        300_000_000
    } else if lowered == "capacitor"@ {
        800_000_000
    } else if lowered == "ic"@ {
        5_000_000_000
    } else {
        1_000_000_000
    }
}

/// Looks a lower-case type name up in the fallback table.
pub fn base_lambda_for(lowered: &str) -> (fit: u64)
    ensures
        fit == base_lambda_spec(lowered@),
{
    if same_text(lowered, "resistor") {
        RESISTOR_BASE_FIT
    } else if same_text(lowered, "capacitor") {
        CAPACITOR_FIT
    } else if same_text(lowered, "ic") {
        IC_FIT
    } else {
        DEFAULT_BASE_FIT
    }
}

/// The conservative base rate of a component type, whatever the case of
/// its name: the last resort where no type-specific model applies.
pub fn get_base_lambda(comp_type: &str) -> (fit: u64)
    ensures
        fit == base_lambda_spec(lowercase_of(comp_type@)),
{
    let lowered = to_lowercase(comp_type);
    base_lambda_for(lowered.as_str())
}

/// The first temperature at or after index `i` that is at or below
/// absolute zero.
pub open spec fn first_invalid_from(pairs: Seq<(i64, u64)>, i: int) -> Option<i64>
    decreases pairs.len() - i,
{
    if i < 0 || i >= pairs.len() {
        None
    } else if !temperature_valid(pairs[i].0) {
        Some(pairs[i].0)
    } else {
        first_invalid_from(pairs, i + 1)
    }
}

/// The qualification temperature of a variant.
pub open spec fn qualification_temperature(variant: &ComponentVariant) -> i64 {
    match variant.ref_temp {
        Some(t) => t,
        None => 40_000,
    }
}

/// `r` is the step that the resistor model takes for the profile and the
/// variant.
///
/// Without a variant: the fallback table's rate of a resistor, marked as
/// degraded.
/// With a degenerate profile: the variant's reference rate, marked as
/// degraded. With a temperature at or below absolute zero (the
/// qualification temperature first, then the segments in order): that
/// temperature as an error. Otherwise: a plan that holds the reference
/// rate, the two fixed temperatures and the resolved profile.
pub open spec fn is_resistor_step(
    r: Result<FitStep, FmedaError>,
    profile: &MissionProfile,
    variant_opt: Option<&ComponentVariant>,
) -> bool {
    match variant_opt {
        None => r == Ok::<FitStep, FmedaError>(
            FitStep::Settled {
                fit: base_lambda_spec("resistor"@),
                degradation: Some(Degradation::MissingVariant),
            },
        ),
        Some(variant) => {
            let pairs = profile_pairs(profile.temp_tau_profile);
            let theta_1 = qualification_temperature(variant);
            if is_degenerate(pairs) {
                r == Ok::<FitStep, FmedaError>(
                    FitStep::Settled {
                        fit: variant.ref_fit,
                        degradation: Some(Degradation::DegenerateProfile),
                    },
                )
            } else if !temperature_valid(theta_1) {
                r == Err::<FitStep, FmedaError>(
                    FmedaError::InvalidTemperature { milli_celsius: theta_1 },
                )
            } else {
                match first_invalid_from(pairs, 0) {
                    Some(t) => r == Err::<FitStep, FmedaError>(
                        FmedaError::InvalidTemperature { milli_celsius: t },
                    ),
                    None => match r {
                        Ok(FitStep::Accelerated(plan)) => {
                            &&& plan.ref_fit == variant.ref_fit
                            &&& plan.theta_ref == 40_000
                            &&& plan.theta_1 == theta_1
                            &&& plan.profile.segments@ == pairs
                            &&& plan.well_formed()
                        },
                        _ => false,
                    },
                }
            }
        },
    }
}

/// `r` is the step that the standard takes for a component whose
/// lower-case type name is `lowered`.
pub open spec fn is_step_for_type(
    r: Result<FitStep, FmedaError>,
    lowered: Seq<char>,
    profile: &MissionProfile,
    variant_opt: Option<&ComponentVariant>,
) -> bool {
    if lowered == "resistor"@ {
        is_resistor_step(r, profile, variant_opt)
    } else if lowered == "capacitor"@ {
        r == Ok::<FitStep, FmedaError>(FitStep::Settled { fit: 800_000_000, degradation: None })
    } else if lowered == "ic"@ {
        r == Ok::<FitStep, FmedaError>(FitStep::Settled { fit: 5_000_000_000, degradation: None })
    } else {
        r == Ok::<FitStep, FmedaError>(
            FitStep::Settled {
                fit: base_lambda_spec(lowered),
                degradation: Some(Degradation::UnknownComponentType),
            },
        )
    }
}

/// Finds the first segment temperature at or below absolute zero.
pub fn first_invalid_temperature(pairs: &Vec<(i64, u64)>) -> (found: Option<i64>)
    ensures
        found == first_invalid_from(pairs@, 0),
{
    let mut i: usize = 0;
    while i < pairs.len()
        invariant
            i <= pairs.len(),
            first_invalid_from(pairs@, 0) == first_invalid_from(pairs@, i as int),
        decreases pairs.len() - i,
    {
        let theta = pairs[i].0;
        if to_kelvin(theta).is_err() {
            return Some(theta);
        }
        i = i + 1;
    }
    None
}

/// The resistor model: see [`is_resistor_step`].
pub fn calc_resistor_sn29500(
    profile: &MissionProfile,
    variant_opt: Option<&ComponentVariant>,
) -> (r: Result<FitStep, FmedaError>)
    ensures
        is_resistor_step(r, profile, variant_opt),
{
    let variant = match variant_opt {
        Some(v) => v,
        None => {
            return Ok(
                FitStep::Settled {
                    fit: base_lambda_for("resistor"),
                    degradation: Some(Degradation::MissingVariant),
                },
            );
        },
    };
    let theta_1 = match variant.ref_temp {
        Some(t) => t,
        None => DEFAULT_QUALIFICATION_TEMPERATURE,
    };
    let resolved = match resolve_profile(profile) {
        Ok(resolved) => resolved,
        Err(_) => {
            return Ok(
                FitStep::Settled {
                    fit: variant.ref_fit,
                    degradation: Some(Degradation::DegenerateProfile),
                },
            );
        },
    };
    if to_kelvin(theta_1).is_err() {
        return Err(FmedaError::InvalidTemperature { milli_celsius: theta_1 });
    }
    match first_invalid_temperature(&resolved.segments) {
        Some(t) => Err(FmedaError::InvalidTemperature { milli_celsius: t }),
        None => Ok(
            FitStep::Accelerated(
                AccelerationPlan {
                    ref_fit: variant.ref_fit,
                    theta_ref: REFERENCE_TEMPERATURE,
                    theta_1,
                    profile: resolved,
                },
            ),
        ),
    }
}

/// The fixed rate of a capacitor.
pub fn calc_capacitor_sn29500(_profile: &MissionProfile) -> (fit: u64)
    ensures
        fit == 800_000_000,
{
    CAPACITOR_FIT
}

/// The fixed rate of an integrated circuit.
pub fn calc_ic_sn29500(_profile: &MissionProfile) -> (fit: u64)
    ensures
        fit == 5_000_000_000,
{
    IC_FIT
}

/// Takes the step of the standard for a component whose lower-case type
/// name is `lowered`: the resistor model, a fixed rate, or, for a type
/// without a model, the fallback table's rate marked as degraded.
pub fn calc_fit_for_type(
    lowered: &str,
    profile: &MissionProfile,
    variant_opt: Option<&ComponentVariant>,
) -> (r: Result<FitStep, FmedaError>)
    ensures
        is_step_for_type(r, lowered@, profile, variant_opt),
{
    if same_text(lowered, "resistor") {
        calc_resistor_sn29500(profile, variant_opt)
    } else if same_text(lowered, "capacitor") {
        Ok(FitStep::Settled { fit: calc_capacitor_sn29500(profile), degradation: None })
    } else if same_text(lowered, "ic") {
        Ok(FitStep::Settled { fit: calc_ic_sn29500(profile), degradation: None })
    } else {
        Ok(
            FitStep::Settled {
                fit: base_lambda_for(lowered),
                degradation: Some(Degradation::UnknownComponentType),
            },
        )
    }
}

/// Takes the step of the standard for a component: lowers the case of its
/// type name and goes by [`calc_fit_for_type`].
pub fn calc_fit(
    comp: &Component,
    profile: &MissionProfile,
    variant_opt: Option<&ComponentVariant>,
) -> (r: Result<FitStep, FmedaError>)
    ensures
        is_step_for_type(r, lowercase_of(comp.component_type@), profile, variant_opt),
{
    let lowered = to_lowercase(comp.component_type.as_str());
    calc_fit_for_type(lowered.as_str(), profile, variant_opt)
}

/// Sum over the first `n` segments of acceleration factor times weight.
pub open spec fn pit_weight_sum(segments: Seq<(i64, u64)>, pits: Seq<u64>, n: nat) -> int
    recommends
        n <= segments.len(),
        n <= pits.len(),
    decreases n,
{
    if n == 0 {
        0
    } else {
        pit_weight_sum(segments, pits, (n - 1) as nat) + pits[n - 1] * segments[n - 1].1
    }
}

/// The mean of the acceleration factors, each weighted by its segment's
/// share of the total weight, in billionths and rounded down.
pub open spec fn weighted_pit(segments: Seq<(i64, u64)>, pits: Seq<u64>) -> int {
    pit_weight_sum(segments, pits, segments.len()) / weight_sum(segments)
}

/// The reference rate times the weighted mean factor, in nano-FIT and
/// rounded down.
pub open spec fn weighted_fit_spec(ref_fit: u64, segments: Seq<(i64, u64)>, pits: Seq<u64>) -> int {
    ref_fit * weighted_pit(segments, pits) / 1_000_000_000
}

/// The weighted sum fits in 128 bits and the rate in 64.
pub open spec fn weighted_fit_fits(
    ref_fit: u64,
    segments: Seq<(i64, u64)>,
    pits: Seq<u64>,
) -> bool {
    &&& pit_weight_sum(segments, pits, segments.len()) <= u128::MAX
    &&& weighted_fit_spec(ref_fit, segments, pits) <= u64::MAX
}

/// The weighted sum over a prefix is non-negative and at most the largest
/// factor times the prefix's weight.
pub proof fn lemma_pit_weight_sum_bounded(segments: Seq<(i64, u64)>, pits: Seq<u64>, n: nat)
    requires
        n <= segments.len(),
        segments.len() == pits.len(),
    ensures
        0 <= pit_weight_sum(segments, pits, n) <= u64::MAX * weight_sum(
            segments.take(n as int),
        ),
        0 <= weight_sum(segments.take(n as int)),
    decreases n,
{
    if n == 0 {
        assert(segments.take(0).len() == 0);
    } else {
        lemma_pit_weight_sum_bounded(segments, pits, (n - 1) as nat);
        assert(segments.take(n as int).drop_last() == segments.take(n - 1));
        let p = pits[n - 1] as int;
        let w = segments[n - 1].1 as int;
        assert(0 <= p * w <= u64::MAX * w) by (nonlinear_arith)
            requires
                0 <= p <= u64::MAX,
                0 <= w,
        ;
        let rest = weight_sum(segments.take(n - 1));
        assert(u64::MAX * (rest + w) == u64::MAX * rest + u64::MAX * w) by (nonlinear_arith);
    }
}

/// The weighted sum over a prefix is at most the sum over a longer one.
pub proof fn lemma_pit_weight_sum_grows(
    segments: Seq<(i64, u64)>,
    pits: Seq<u64>,
    n: nat,
    m: nat,
)
    requires
        n <= m <= segments.len(),
        segments.len() == pits.len(),
    ensures
        pit_weight_sum(segments, pits, n) <= pit_weight_sum(segments, pits, m),
    decreases m,
{
    if n < m {
        lemma_pit_weight_sum_grows(segments, pits, n, (m - 1) as nat);
        let p = pits[m - 1] as int;
        let w = segments[m - 1].1 as int;
        assert(0 <= p * w) by (nonlinear_arith)
            requires
                0 <= p,
                0 <= w,
        ;
    }
}

/// Completes a plan with the acceleration factor of each of its segments,
/// in billionths: the failure rate is the reference rate times the mean of
/// the factors, each weighted by its segment's share of the total weight.
///
/// Fails with `Overflow` exactly where the weighted sum does not fit in
/// 128 bits or the rate does not fit in 64.
pub fn weighted_fit(plan: &AccelerationPlan, pits: &Vec<u64>) -> (r: Result<u64, FmedaError>)
    requires
        plan.well_formed(),
        pits@.len() == plan.profile.segments@.len(),
    ensures
        match r {
            Ok(fit) => {
                &&& weighted_fit_fits(plan.ref_fit, plan.profile.segments@, pits@)
                &&& fit == weighted_fit_spec(plan.ref_fit, plan.profile.segments@, pits@)
            },
            Err(e) => e == FmedaError::Overflow && !weighted_fit_fits(
                plan.ref_fit,
                plan.profile.segments@,
                pits@,
            ),
        },
{
    let segments = &plan.profile.segments;
    let mut sum: u128 = 0;
    let mut i: usize = 0;
    while i < segments.len()
        invariant
            i <= segments.len(),
            segments@ == plan.profile.segments@,
            pits@.len() == segments@.len(),
            sum == pit_weight_sum(segments@, pits@, i as nat),
        decreases segments.len() - i,
    {
        let pit: u128 = pits[i] as u128;
        let weight: u128 = segments[i].1 as u128;
        proof {
            assert(pit * weight <= 0xffff_ffff_ffff_ffff * 0xffff_ffff_ffff_ffff)
                by (nonlinear_arith)
                requires
                    0 <= pit <= 0xffff_ffff_ffff_ffff,
                    0 <= weight <= 0xffff_ffff_ffff_ffff,
            ;
            lemma_pit_weight_sum_grows(segments@, pits@, (i + 1) as nat, segments@.len());
            assert(pit_weight_sum(segments@, pits@, (i + 1) as nat) == sum + pit * weight);
        }
        sum = match sum.checked_add(pit * weight) {
            Some(v) => v,
            None => {
                return Err(FmedaError::Overflow);
            },
        };
        i = i + 1;
    }
    let total = plan.profile.total_weight;
    let mean: u128 = sum / total;
    proof {
        let n = segments@.len();
        lemma_pit_weight_sum_bounded(segments@, pits@, n);
        assert(segments@.take(n as int) == segments@);
        lemma_div_is_ordered(sum as int, u64::MAX * (total as int), total as int);
        assert(u64::MAX * (total as int) == (total as int) * u64::MAX) by (nonlinear_arith);
        lemma_div_multiples_vanish(u64::MAX as int, total as int);
        assert(mean <= u64::MAX);
        assert(plan.ref_fit * mean <= 0xffff_ffff_ffff_ffff * 0xffff_ffff_ffff_ffff)
            by (nonlinear_arith)
            requires
                0 <= plan.ref_fit <= 0xffff_ffff_ffff_ffff,
                0 <= mean <= 0xffff_ffff_ffff_ffff,
        ;
    }
    let fit: u128 = plan.ref_fit as u128 * mean / 1_000_000_000u128;
    if fit > u64::MAX as u128 {
        Err(FmedaError::Overflow)
    } else {
        Ok(fit as u64)
    }
}

/// With a single segment the weighting is the identity: the weighted mean
/// is that segment's acceleration factor, whatever its weight.
pub proof fn lemma_single_segment(segments: Seq<(i64, u64)>, pits: Seq<u64>)
    requires
        segments.len() == 1,
        pits.len() == 1,
        segments[0].1 > 0,
    ensures
        weighted_pit(segments, pits) == pits[0],
{
    assert(segments.drop_last().len() == 0);
    assert(weight_sum(segments) == segments[0].1) by {
        assert(weight_sum(segments.drop_last()) == 0);
    }
    assert(pit_weight_sum(segments, pits, 1) == pits[0] * segments[0].1) by {
        assert(pit_weight_sum(segments, pits, 0) == 0);
    }
    let w = segments[0].1 as int;
    let p = pits[0] as int;
    lemma_div_multiples_vanish(p, w);
    assert(p * w == w * p) by (nonlinear_arith);
}

/// A resistor with a variant and a profile without segments has exactly
/// its variant's reference rate.
pub proof fn lemma_degenerate_profile(
    r: Result<FitStep, FmedaError>,
    profile: &MissionProfile,
    variant: &ComponentVariant,
)
    requires
        is_step_for_type(r, "resistor"@, profile, Some(variant)),
        profile_pairs(profile.temp_tau_profile).len() == 0,
    ensures
        r == Ok::<FitStep, FmedaError>(
            FitStep::Settled {
                fit: variant.ref_fit,
                degradation: Some(Degradation::DegenerateProfile),
            },
        ),
{
}

/// `scaled` is `segments` with every weight multiplied by `k`.
pub open spec fn is_scaled(scaled: Seq<(i64, u64)>, segments: Seq<(i64, u64)>, k: int) -> bool {
    &&& scaled.len() == segments.len()
    &&& forall|i: int|
        0 <= i < segments.len() ==> (#[trigger] scaled[i]).0 == segments[i].0 && scaled[i].1 == k
            * segments[i].1
}

/// Multiplying every weight by `k` multiplies both sums by `k`.
pub proof fn lemma_scaled_sums(
    scaled: Seq<(i64, u64)>,
    segments: Seq<(i64, u64)>,
    pits: Seq<u64>,
    k: int,
    n: nat,
)
    requires
        is_scaled(scaled, segments, k),
        n <= segments.len(),
        segments.len() == pits.len(),
    ensures
        pit_weight_sum(scaled, pits, n) == k * pit_weight_sum(segments, pits, n),
        weight_sum(scaled.take(n as int)) == k * weight_sum(segments.take(n as int)),
    decreases n,
{
    if n == 0 {
        assert(scaled.take(0).len() == 0);
        assert(segments.take(0).len() == 0);
    } else {
        lemma_scaled_sums(scaled, segments, pits, k, (n - 1) as nat);
        assert(scaled.take(n as int).drop_last() == scaled.take(n - 1));
        assert(segments.take(n as int).drop_last() == segments.take(n - 1));
        let p = pits[n - 1] as int;
        let w = segments[n - 1].1 as int;
        assert(scaled[n - 1].1 == k * w);
        let a = pit_weight_sum(segments, pits, (n - 1) as nat);
        let b = weight_sum(segments.take(n - 1));
        assert(k * a + p * (k * w) == k * (a + p * w)) by (nonlinear_arith);
        assert(k * b + k * w == k * (b + w)) by (nonlinear_arith);
    }
}

/// Only the ratios of the weights matter: multiplying every weight by the
/// same positive number leaves the weighted mean factor as it is.
pub proof fn lemma_weights_are_relative(
    scaled: Seq<(i64, u64)>,
    segments: Seq<(i64, u64)>,
    pits: Seq<u64>,
    k: int,
)
    requires
        k > 0,
        is_scaled(scaled, segments, k),
        segments.len() == pits.len(),
        weight_sum(segments) > 0,
    ensures
        weighted_pit(scaled, pits) == weighted_pit(segments, pits),
{
    let n = segments.len();
    lemma_scaled_sums(scaled, segments, pits, k, n);
    assert(scaled.take(n as int) == scaled);
    assert(segments.take(n as int) == segments);
    lemma_pit_weight_sum_bounded(segments, pits, n);
    lemma_div_multiples_vanish_quotient(
        k,
        pit_weight_sum(segments, pits, n),
        weight_sum(segments),
    );
}

} // verus!
