//! A first estimate of a component's failure rate from its catalogue
//! figures, shared out over its failure modes.
//!
//! The estimate is the base rate times the quality factor, times the
//! temperature moment of the mission profile (the sum of weight times
//! temperature in degrees Celsius over its points; one where it has no
//! points), times the installed quantity. Here the weights are taken as
//! billionths. Each failure mode then receives the share of the estimate
//! that its rate has in the sum of the rates.

use crate::errors::FmedaError;
use crate::fmeda::{lambda_sum, lemma_lambda_le_sum, sum_lambda};
use crate::models::{Component, FailureMode, MissionProfile};
use vstd::prelude::*;

verus! {

/// The estimate of one component.
#[derive(Debug, Clone, PartialEq, Eq)]
pub struct FMEDAPredictionResult {
    pub component_id: u128,
    /// The estimated rate, in nano-FIT. It is negative where the
    /// temperature moment is.
    pub total_fit: i128,
    /// For each failure mode, in order, its name and its share of
    /// `total_fit`.
    pub failure_modes: Vec<(String, i128)>,
}

/// Sum of weight times temperature over the points at or above zero
/// degrees.
pub open spec fn positive_moment(pairs: Seq<(i64, u64)>) -> int
    decreases pairs.len(),
{
    if pairs.len() == 0 {
        0
    } else if pairs.last().0 >= 0 {
        positive_moment(pairs.drop_last()) + pairs.last().1 * pairs.last().0
    } else {
        positive_moment(pairs.drop_last())
    }
}

/// Sum of weight times degrees below zero over the points below zero
/// degrees.
pub open spec fn negative_moment(pairs: Seq<(i64, u64)>) -> int
    decreases pairs.len(),
{
    if pairs.len() == 0 {
        0
    } else if pairs.last().0 < 0 {
        negative_moment(pairs.drop_last()) + pairs.last().1 * (-pairs.last().0)
    } else {
        negative_moment(pairs.drop_last())
    }
}

/// Sum of weight times temperature over all points.
pub open spec fn temperature_moment(pairs: Seq<(i64, u64)>) -> int {
    positive_moment(pairs) - negative_moment(pairs)
}

/// The quotient rounded towards zero.
pub open spec fn truncated_quotient(n: int, d: int) -> int {
    if n >= 0 {
        n / d
    } else {
        -((-n) / d)
    }
}

/// The base rate of a component: one FIT where it states none.
pub open spec fn base_fit_of(component: Component) -> int {
    match component.base_fit {
        Some(b) => b as int,
        None => 1_000_000_000,
    }
}

/// The quality factor of a component: one where it states none.
pub open spec fn quality_of(component: Component) -> int {
    match component.quality_factor {
        Some(q) => q as int,
        None => 1_000_000_000,
    }
}

/// The product of which the estimate is the quotient, and its divisor.
pub open spec fn estimate_product(component: Component, pairs: Seq<(i64, u64)>) -> int {
    if pairs.len() == 0 {
        base_fit_of(component) * quality_of(component) * component.quantity
    } else {
        base_fit_of(component) * quality_of(component) * temperature_moment(pairs)
            * component.quantity
    }
}

/// The divisor that brings [`estimate_product`] to nano-FIT.
pub open spec fn estimate_divisor(pairs: Seq<(i64, u64)>) -> int {
    if pairs.len() == 0 {
        1_000_000_000
    } else {
        1_000_000_000_000_000_000_000
    }
}

/// The estimated rate of a component, in nano-FIT, rounded towards zero.
pub open spec fn predicted_total(component: Component, pairs: Seq<(i64, u64)>) -> int {
    truncated_quotient(estimate_product(component, pairs), estimate_divisor(pairs))
}

/// The share of `total` that falls to a mode of rate `lambda` among modes
/// whose rates sum to `sum`, rounded towards zero: zero where the sum is.
pub open spec fn mode_share(total: int, lambda: int, sum: int) -> int {
    if sum > 0 {
        truncated_quotient(total * lambda, sum)
    } else {
        0
    }
}

/// The two halves of the temperature moment and the magnitude of the
/// product fit in 128 bits.
pub open spec fn prediction_fits(component: Component, pairs: Seq<(i64, u64)>) -> bool {
    &&& positive_moment(pairs) <= u128::MAX
    &&& negative_moment(pairs) <= u128::MAX
    &&& -(u128::MAX as int) <= estimate_product(component, pairs) <= u128::MAX
}

/// The halves of the moment are non-negative.
pub proof fn lemma_moment_nonnegative(pairs: Seq<(i64, u64)>)
    ensures
        0 <= positive_moment(pairs),
        0 <= negative_moment(pairs),
    decreases pairs.len(),
{
    if pairs.len() > 0 {
        lemma_moment_nonnegative(pairs.drop_last());
        lemma_term(pairs.last());
    }
}

/// The halves of the moment over the first `i` points are non-negative
/// and at most the halves over all.
pub proof fn lemma_moment_prefix(pairs: Seq<(i64, u64)>, i: int)
    requires
        0 <= i <= pairs.len(),
    ensures
        0 <= positive_moment(pairs.take(i)) <= positive_moment(pairs),
        0 <= negative_moment(pairs.take(i)) <= negative_moment(pairs),
    decreases pairs.len() - i,
{
    lemma_moment_nonnegative(pairs.take(i));
    if i == pairs.len() {
        assert(pairs.take(i) == pairs);
    } else {
        lemma_moment_prefix(pairs, i + 1);
        assert(pairs.take(i + 1).drop_last() == pairs.take(i));
        lemma_term(pairs[i]);
    }
}

/// One point's term of the moment is non-negative and below 2^127.
pub proof fn lemma_term(pair: (i64, u64))
    ensures
        pair.0 >= 0 ==> 0 <= pair.1 * pair.0 <= 0xffff_ffff_ffff_ffff * 0x8000_0000_0000_0000,
        pair.0 < 0 ==> 0 <= pair.1 * (-pair.0) <= 0xffff_ffff_ffff_ffff * 0x8000_0000_0000_0000,
{
    let w = pair.1 as int;
    let t = if pair.0 >= 0 {
        pair.0 as int
    } else {
        -pair.0
    };
    assert(0 <= w * t <= 0xffff_ffff_ffff_ffff * 0x8000_0000_0000_0000) by (nonlinear_arith)
        requires
            0 <= w <= 0xffff_ffff_ffff_ffff,
            0 <= t <= 0x8000_0000_0000_0000,
    ;
}

/// The two halves of the temperature moment, or `None` where one of them
/// does not fit in 128 bits.
pub fn moment_halves(pairs: &Vec<(i64, u64)>) -> (r: Option<(u128, u128)>)
    ensures
        match r {
            Some((p, n)) => p == positive_moment(pairs@) && n == negative_moment(pairs@),
            None => positive_moment(pairs@) > u128::MAX || negative_moment(pairs@) > u128::MAX,
        },
{
    let mut positive: u128 = 0;
    let mut negative: u128 = 0;
    let mut i: usize = 0;
    while i < pairs.len()
        invariant
            i <= pairs.len(),
            positive == positive_moment(pairs@.take(i as int)),
            negative == negative_moment(pairs@.take(i as int)),
        decreases pairs.len() - i,
    {
        let theta = pairs[i].0;
        let weight: u128 = pairs[i].1 as u128;
        proof {
            assert(pairs@.take(i + 1).drop_last() == pairs@.take(i as int));
            lemma_moment_prefix(pairs@, i + 1);
            lemma_term(pairs@[i as int]);
        }
        if theta >= 0 {
            positive = match positive.checked_add(weight * (theta as u128)) {
                Some(v) => v,
                None => {
                    return None;
                },
            };
        } else {
            let below: u128 = (-(theta as i128)) as u128;
            negative = match negative.checked_add(weight * below) {
                Some(v) => v,
                None => {
                    return None;
                },
            };
        }
        i = i + 1;
    }
    proof {
        assert(pairs@.take(i as int) == pairs@);
    }
    Some((positive, negative))
}

/// The magnitude of a number.
pub open spec fn magnitude_of(n: int) -> int {
    if n >= 0 {
        n
    } else {
        -n
    }
}

/// Every mode's share can be computed in 128 bits: the magnitude of the
/// estimate times the mode's rate fits, where the rates do not sum to
/// zero.
pub open spec fn shares_fit(total: int, modes: Seq<FailureMode>) -> bool {
    lambda_sum(modes) > 0 ==> forall|i: int|
        0 <= i < modes.len() ==> magnitude_of(total) * (#[trigger] modes[i]).lambda <= u128::MAX
}

/// `p` is the estimate of `component` over the points `pairs`, shared out
/// over `modes`.
pub open spec fn is_prediction(
    p: FMEDAPredictionResult,
    component: Component,
    pairs: Seq<(i64, u64)>,
    modes: Seq<FailureMode>,
) -> bool {
    &&& p.component_id == component.id
    &&& p.total_fit == predicted_total(component, pairs)
    &&& p.failure_modes@.len() == modes.len()
    &&& forall|i: int|
        0 <= i < modes.len() ==> {
            &&& (#[trigger] p.failure_modes@[i]).0@ == modes[i].mode@
            &&& p.failure_modes@[i].1 == mode_share(
                predicted_total(component, pairs),
                modes[i].lambda as int,
                lambda_sum(modes),
            )
        }
}

/// The magnitude of the estimate and whether it is negative, or `None`
/// where [`prediction_fits`] fails.
pub fn estimate(component: &Component, pairs: &Vec<(i64, u64)>) -> (r: Option<(u128, bool)>)
    requires
        component.well_formed(),
    ensures
        match r {
            Some((magnitude, negative)) => {
                &&& prediction_fits(*component, pairs@)
                &&& magnitude == magnitude_of(predicted_total(*component, pairs@))
                &&& negative == (predicted_total(*component, pairs@) < 0)
                &&& magnitude <= u128::MAX / 1_000_000_000
            },
            None => !prediction_fits(*component, pairs@),
        },
{
    let base: u128 = match component.base_fit {
        Some(b) => b as u128,
        None => 1_000_000_000,
    };
    let quality: u128 = match component.quality_factor {
        Some(q) => q as u128,
        None => 1_000_000_000,
    };
    assert(base * quality <= 0xffff_ffff_ffff_ffff * 0xffff_ffff_ffff_ffff) by (nonlinear_arith)
        requires
            0 <= base <= 0xffff_ffff_ffff_ffff,
            0 <= quality <= 0xffff_ffff_ffff_ffff,
    ;
    let rated: u128 = base * quality;
    let quantity: u128 = component.quantity as u128;
    if pairs.len() == 0 {
        proof {
            lemma_moment_nonnegative(pairs@);
            assert(0 <= rated * quantity) by (nonlinear_arith)
                requires
                    0 <= rated,
                    0 <= quantity,
            ;
        }
        match rated.checked_mul(quantity) {
            Some(product) => Some((product / 1_000_000_000u128, false)),
            None => None,
        }
    } else {
        let (positive, negative) = match moment_halves(pairs) {
            Some(halves) => halves,
            None => {
                return None;
            },
        };
        let below = positive < negative;
        let moment: u128 = if below {
            negative - positive
        } else {
            positive - negative
        };
        proof {
            let m = temperature_moment(pairs@);
            let r = rated as int;
            let q = quantity as int;
            let a = moment as int;
            assert(magnitude_of(m) == a);
            assert(0 <= r * a <= (r * a) * q) by (nonlinear_arith)
                requires
                    0 <= r,
                    0 <= a,
                    1 <= q,
            ;
            assert((r * (-a)) * q == -((r * a) * q)) by (nonlinear_arith);
            assert(estimate_product(*component, pairs@) == (r * m) * q);
            assert((r * a) * q == 0 ==> (r * m) * q == 0);
        }
        let scaled = match rated.checked_mul(moment) {
            Some(v) => v,
            None => {
                return None;
            },
        };
        let product = match scaled.checked_mul(quantity) {
            Some(v) => v,
            None => {
                return None;
            },
        };
        let magnitude = product / 1_000_000_000_000_000_000_000u128;
        Some((magnitude, below && magnitude > 0))
    }
}

/// Estimates the failure rate of a component from its base rate, its
/// quality factor, the temperature moment of the profile's points and its
/// quantity, and shares the estimate out over the failure modes in
/// proportion to their rates.
///
/// Fails with `Overflow` exactly where a sum or a product of the estimate
/// does not fit in 128 bits.
pub fn predict_fmeda(
    component: &Component,
    profile: &MissionProfile,
    failure_modes: &[FailureMode],
) -> (r: Result<FMEDAPredictionResult, FmedaError>)
    requires
        component.well_formed(),
    ensures
        match r {
            Ok(p) => {
                &&& prediction_fits(*component, profile.point_pairs())
                &&& shares_fit(
                    predicted_total(*component, profile.point_pairs()),
                    failure_modes@,
                )
                &&& is_prediction(p, *component, profile.point_pairs(), failure_modes@)
            },
            Err(e) => e == FmedaError::Overflow && !(prediction_fits(
                *component,
                profile.point_pairs(),
            ) && shares_fit(predicted_total(*component, profile.point_pairs()), failure_modes@)),
        },
{
    let pairs = profile.parse_temp_tau_profile();
    let (magnitude, negative) = match estimate(component, &pairs) {
        Some(e) => e,
        None => {
            return Err(FmedaError::Overflow);
        },
    };
    let total_fit: i128 = if negative {
        -(magnitude as i128)
    } else {
        magnitude as i128
    };
    let sum = sum_lambda(failure_modes);
    let mut shares: Vec<(String, i128)> = Vec::new();
    let mut i: usize = 0;
    while i < failure_modes.len()
        invariant
            i <= failure_modes.len(),
            shares@.len() == i,
            sum == lambda_sum(failure_modes@),
            magnitude == magnitude_of(total_fit as int),
            negative == (total_fit < 0),
            magnitude <= u128::MAX / 1_000_000_000,
            total_fit == predicted_total(*component, profile.point_pairs()),
            forall|k: int|
                0 <= k < i ==> {
                    &&& (#[trigger] shares@[k]).0@ == failure_modes@[k].mode@
                    &&& shares@[k].1 == mode_share(
                        total_fit as int,
                        failure_modes@[k].lambda as int,
                        sum as int,
                    )
                },
            sum > 0 ==> forall|k: int|
                0 <= k < i ==> magnitude * (#[trigger] failure_modes@[k]).lambda <= u128::MAX,
        decreases failure_modes.len() - i,
    {
        let lambda: u128 = failure_modes[i].lambda as u128;
        let share: i128 = if sum > 0 {
            let scaled = match magnitude.checked_mul(lambda) {
                Some(v) => v,
                None => {
                    return Err(FmedaError::Overflow);
                },
            };
            let part: u128 = scaled / sum;
            proof {
                let t = total_fit as int;
                let m = magnitude as int;
                let l = lambda as int;
                assert(0 <= m * l) by (nonlinear_arith)
                    requires
                        0 <= m,
                        0 <= l,
                ;
                assert(t < 0 ==> t * l == -(m * l)) by (nonlinear_arith)
                    requires
                        t < 0 ==> t == -m,
                ;
                assert(t >= 0 ==> t * l == m * l);
                assert(m * l == 0 ==> part == 0);
                lemma_lambda_le_sum(failure_modes@, i as int);
                lemma_share_bounded(m, l, sum as int);
            }
            if negative {
                -(part as i128)
            } else {
                part as i128
            }
        } else {
            0
        };
        shares.push((failure_modes[i].mode.clone(), share));
        i = i + 1;
    }
    Ok(FMEDAPredictionResult { component_id: component.id, total_fit, failure_modes: shares })
}

/// A share is at most the whole: with a rate that is at most the sum, the
/// quotient of magnitude times rate by the sum is at most the magnitude.
pub proof fn lemma_share_bounded(m: int, l: int, sum: int)
    requires
        0 <= m,
        0 <= l <= sum,
        0 < sum,
    ensures
        (m * l) / sum <= m,
{
    assert(m * l <= m * sum) by (nonlinear_arith)
        requires
            0 <= m,
            0 <= l <= sum,
    ;
    vstd::arithmetic::div_mod::lemma_div_is_ordered(m * l, m * sum, sum);
    assert(m * sum == sum * m) by (nonlinear_arith);
    vstd::arithmetic::div_mod::lemma_div_multiples_vanish(m, sum);
}

} // verus!
