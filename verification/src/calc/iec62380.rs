//! IEC 62380: failure rates from a base rate and two stress factors, with
//! no dependence on the duty cycle.
//!
//! The rate of a type is `C1 * piT * piU`: a base rate times the
//! multipliers of its temperature class and its usage class. The values
//! below are working figures per component type, to be replaced by
//! qualified ones.

use crate::models::Component;
use crate::units::same_text;
use vstd::prelude::*;

verus! {

/// Base rate `C1` of a resistor, in nano-FIT.
pub const RESISTOR_BASE_FIT: u64 = 4_000_000_000;

/// Temperature multiplier of a resistor, in billionths.
pub const RESISTOR_TEMPERATURE_FACTOR: u32 = 1_200_000_000;

/// Usage multiplier of a resistor, in billionths.
pub const RESISTOR_USAGE_FACTOR: u32 = 1_100_000_000;

/// Base rate `C1` of a capacitor, in nano-FIT.
pub const CAPACITOR_BASE_FIT: u64 = 3_000_000_000;

/// Temperature multiplier of a capacitor, in billionths.
pub const CAPACITOR_TEMPERATURE_FACTOR: u32 = 1_100_000_000;

/// Usage multiplier of a capacitor, in billionths.
pub const CAPACITOR_USAGE_FACTOR: u32 = 1_050_000_000;

/// Base rate `C1` of an integrated circuit, in nano-FIT.
pub const IC_BASE_FIT: u64 = 6_000_000_000;

/// Temperature multiplier of an integrated circuit, in billionths.
pub const IC_TEMPERATURE_FACTOR: u32 = 1_300_000_000;

/// Usage multiplier of an integrated circuit, in billionths.
pub const IC_USAGE_FACTOR: u32 = 1_200_000_000;

/// A base rate times two multipliers in billionths, rounded down.
pub open spec fn stressed_rate_spec(c1: int, pi_t: int, pi_u: int) -> int {
    c1 * pi_t * pi_u / 1_000_000_000_000_000_000
}

/// Multiplies a base rate by its temperature and usage multipliers.
pub fn stressed_rate(c1: u64, pi_t: u32, pi_u: u32) -> (rate: u128)
    ensures
        rate == stressed_rate_spec(c1 as int, pi_t as int, pi_u as int),
{
    assert(c1 * pi_t <= 0xffff_ffff_ffff_ffff * 0xffff_ffff) by (nonlinear_arith)
        requires
            0 <= c1 <= 0xffff_ffff_ffff_ffff,
            0 <= pi_t <= 0xffff_ffff,
    ;
    let partial: u128 = c1 as u128 * pi_t as u128;
    assert(partial * pi_u <= 0xffff_ffff_ffff_ffff * 0xffff_ffff * 0xffff_ffff)
        by (nonlinear_arith)
        requires
            0 <= partial <= 0xffff_ffff_ffff_ffff * 0xffff_ffff,
            0 <= pi_u <= 0xffff_ffff,
    ;
    partial * pi_u as u128 / 1_000_000_000_000_000_000u128
}

/// The rate that the standard gives a component type, in nano-FIT: zero
/// for a type that it does not list.
pub open spec fn rate_spec(component_type: Seq<char>) -> int {
    if component_type == "Resistor"@ {
        stressed_rate_spec(4_000_000_000, 1_200_000_000, 1_100_000_000)
    } else if component_type == "Capacitor"@ {
        stressed_rate_spec(3_000_000_000, 1_100_000_000, 1_050_000_000)
    } else if component_type == "IC"@ {
        stressed_rate_spec(6_000_000_000, 1_300_000_000, 1_200_000_000)
    } else {
        0
    }
}

/// The rate of a resistor: 5.28 FIT.
pub fn calc_resistor(_comp: &Component) -> (fit: u64)
    ensures
        fit == stressed_rate_spec(4_000_000_000, 1_200_000_000, 1_100_000_000),
        fit == 5_280_000_000,
{
    let rate = stressed_rate(
        RESISTOR_BASE_FIT,
        RESISTOR_TEMPERATURE_FACTOR,
        RESISTOR_USAGE_FACTOR,
    );
    rate as u64
}

/// The rate of a capacitor: 3.465 FIT.
pub fn calc_capacitor(_comp: &Component) -> (fit: u64)
    ensures
        fit == stressed_rate_spec(3_000_000_000, 1_100_000_000, 1_050_000_000),
        fit == 3_465_000_000,
{
    let rate = stressed_rate(
        CAPACITOR_BASE_FIT,
        CAPACITOR_TEMPERATURE_FACTOR,
        CAPACITOR_USAGE_FACTOR,
    );
    rate as u64
}

/// The rate of an integrated circuit: 9.36 FIT.
pub fn calc_ic(_comp: &Component) -> (fit: u64)
    ensures
        fit == stressed_rate_spec(6_000_000_000, 1_300_000_000, 1_200_000_000),
        fit == 9_360_000_000,
{
    let rate = stressed_rate(IC_BASE_FIT, IC_TEMPERATURE_FACTOR, IC_USAGE_FACTOR);
    rate as u64
}

/// The failure rate of a component by its type, which is matched as it is
/// written. A type that the standard does not list has the rate zero.
pub fn calc_fit(component: &Component) -> (fit: u64)
    ensures
        fit == rate_spec(component.component_type@),
{
    let component_type = component.component_type.as_str();
    if same_text(component_type, "Resistor") {
        calc_resistor(component)
    } else if same_text(component_type, "Capacitor") {
        calc_capacitor(component)
    } else if same_text(component_type, "IC") {
        calc_ic(component)
    } else {
        0
    }
}

} // verus!
