//! Fixed-point units shared by every calculation.
//!
//! Every quantity is an integer count of a small unit, so that sums and
//! products are exact and every rounding is a visible floor division:
//!
//! | quantity                         | unit                               |
//! |----------------------------------|------------------------------------|
//! | failure rate in FIT              | nano-FIT (10^-9 FIT)               |
//! | detection coverage               | billionths (0 ..= 10^9)            |
//! | acceleration factor, multipliers | billionths (10^9 is 1.0)           |
//! | duration weight                  | any one unit: only ratios are used |
//! | temperature                      | milli-degrees Celsius              |
//! | failures per hour                | 10^-27 per hour                    |
//! | failures per million hours       | 10^-24 per million hours           |
//!
//! One FIT is one failure in 10^9 hours, so a nano-FIT is 10^-18 per hour.
//! The per-hour unit is a nano-FIT times a billionth of coverage: the
//! product of a rate and a coverage is then a whole number of it.
//!
//! The standards divide each duration weight by the sum of the weights, so
//! any unit serves there. The catalogue estimate of [`crate::predict`]
//! multiplies by the weights themselves and takes them as billionths.

use vstd::prelude::*;

verus! {

/// One whole unit expressed in billionths.
pub const NANO: u64 = 1_000_000_000;

/// Whether two strings hold the same characters.
pub fn same_text(a: &str, b: &str) -> (r: bool)
    ensures
        r == (a@ == b@),
{
    a.to_owned() == b.to_owned()
}

/// A rate in nano-FIT as failures per hour. The division by 10^9 that
/// separates a FIT from a failure per hour lies in the units; the factor
/// here is the billionth by which the per-hour unit is finer.
pub open spec fn fit_to_per_hour_spec(fit: int) -> int {
    fit * 1_000_000_000
}

/// The whole nano-FIT in a per-hour rate.
pub open spec fn per_hour_to_fit_spec(per_hour: int) -> int {
    per_hour / 1_000_000_000
}

/// A per-hour rate as failures per million hours.
pub open spec fn per_hour_to_per_million_hours_spec(per_hour: int) -> int {
    per_hour * 1_000
}

/// Converts a rate in nano-FIT to failures per hour, or `None` where the
/// result does not fit.
pub fn fit_to_per_hour(fit: u128) -> (r: Option<u128>)
    ensures
        match r {
            Some(v) => v == fit_to_per_hour_spec(fit as int),
            None => fit_to_per_hour_spec(fit as int) > u128::MAX,
        },
{
    fit.checked_mul(NANO as u128)
}

/// Converts a per-hour rate back to whole nano-FIT, rounding down.
pub fn per_hour_to_fit(per_hour: u128) -> (r: u128)
    ensures
        r == per_hour_to_fit_spec(per_hour as int),
{
    per_hour / (NANO as u128)
}

/// Converts a per-hour rate to failures per million hours, or `None` where
/// the result does not fit.
pub fn per_hour_to_per_million_hours(per_hour: u128) -> (r: Option<u128>)
    ensures
        match r {
            Some(v) => v == per_hour_to_per_million_hours_spec(per_hour as int),
            None => per_hour_to_per_million_hours_spec(per_hour as int) > u128::MAX,
        },
{
    per_hour.checked_mul(1_000u128)
}

/// A rate in nano-FIT comes back unchanged from the per-hour unit.
pub proof fn lemma_fit_round_trip(fit: int)
    ensures
        per_hour_to_fit_spec(fit_to_per_hour_spec(fit)) == fit,
{
}

} // verus!
