//! The temperature acceleration model, as far as it is rational.
//!
//! The acceleration factor between a qualification temperature and an
//! operating temperature is `f(z) / f(z_ref)` with
//! `f(x) = A * exp(Ea1 * x) + (1 - A) * exp(Ea2 * x)`, where
//! `z = 11605 * (1 / T_ref - 1 / T_2)` and
//! `z_ref = 11605 * (1 / T_ref - 1 / T_1)` over absolute temperatures.
//! This module checks the temperatures and computes the two exponents `z`
//! and `z_ref` as exact fractions. The exponential itself is left to the
//! caller.

use crate::errors::FmedaError;
use vstd::prelude::*;

verus! {

/// The offset of the Kelvin scale, in thousandths of a degree.
pub const KELVIN_OFFSET: i64 = 273_150;

/// The reciprocal of Boltzmann's constant in kelvin per electron-volt,
/// times the thousand that turns milli-kelvin into kelvin.
pub const INVERSE_BOLTZMANN_MILLI: i128 = 11_605_000;

/// A temperature in milli-degrees Celsius is valid above absolute zero.
pub open spec fn temperature_valid(theta: i64) -> bool {
    theta > -273_150
}

/// The absolute temperature in milli-kelvin.
pub open spec fn kelvin_spec(theta: i64) -> int {
    theta + 273_150
}

/// Numerator of the exponent between `theta_ref` and `theta`.
pub open spec fn exponent_numerator(theta_ref: i64, theta: i64) -> int {
    11_605_000 * (kelvin_spec(theta) - kelvin_spec(theta_ref))
}

/// Denominator of the exponent between `theta_ref` and `theta`.
pub open spec fn exponent_denominator(theta_ref: i64, theta: i64) -> int {
    kelvin_spec(theta_ref) * kelvin_spec(theta)
}

/// The fraction `numerator / denominator`, with a positive denominator.
#[derive(Debug, Clone, Copy, PartialEq, Eq)]
pub struct Exponent {
    pub numerator: i128,
    pub denominator: u128,
}

/// The two exponents of one acceleration factor.
#[derive(Debug, Clone, Copy, PartialEq, Eq)]
pub struct PitExponents {
    /// Between the reference and the operating temperature.
    pub z: Exponent,
    /// Between the reference and the qualification temperature.
    pub z_ref: Exponent,
}

/// Converts a temperature to milli-kelvin. Fails with
/// `InvalidTemperature` exactly at or below absolute zero.
pub fn to_kelvin(theta: i64) -> (r: Result<u64, FmedaError>)
    ensures
        match r {
            Ok(k) => temperature_valid(theta) && k == kelvin_spec(theta) && k > 0,
            Err(e) => !temperature_valid(theta) && e == (FmedaError::InvalidTemperature {
                milli_celsius: theta,
            }),
        },
{
    if theta <= -KELVIN_OFFSET {
        Err(FmedaError::InvalidTemperature { milli_celsius: theta })
    } else {
        Ok((theta as i128 + KELVIN_OFFSET as i128) as u64)
    }
}

/// The exponent `11605 * (1 / T_ref - 1 / T)` between two valid
/// temperatures, as an exact fraction.
pub fn exponent_between(k_ref: u64, k: u64) -> (z: Exponent)
    requires
        k_ref > 0,
        k > 0,
    ensures
        z.numerator == 11_605_000 * (k - k_ref),
        z.denominator == k_ref * k,
        z.denominator > 0,
{
    let difference: i128 = k as i128 - k_ref as i128;
    assert(-0x1_0000_0000_0000_0000 < difference < 0x1_0000_0000_0000_0000);
    assert(0 < k_ref * k <= 0xffff_ffff_ffff_ffff * 0xffff_ffff_ffff_ffff) by (nonlinear_arith)
        requires
            0 < k_ref <= 0xffff_ffff_ffff_ffff,
            0 < k <= 0xffff_ffff_ffff_ffff,
    ;
    Exponent {
        numerator: INVERSE_BOLTZMANN_MILLI * difference,
        denominator: k_ref as u128 * k as u128,
    }
}

/// Checks the three temperatures of an acceleration factor and computes
/// its two exponents.
///
/// Fails with `InvalidTemperature`, naming the first of `theta_ref`,
/// `theta_1`, `theta_2` that is at or below absolute zero, exactly where
/// one of them is.
pub fn pit_exponents(theta_ref: i64, theta_1: i64, theta_2: i64) -> (r: Result<
    PitExponents,
    FmedaError,
>)
    ensures
        match r {
            Ok(e) => {
                &&& temperature_valid(theta_ref)
                &&& temperature_valid(theta_1)
                &&& temperature_valid(theta_2)
                &&& e.z.numerator == exponent_numerator(theta_ref, theta_2)
                &&& e.z.denominator == exponent_denominator(theta_ref, theta_2)
                &&& e.z_ref.numerator == exponent_numerator(theta_ref, theta_1)
                &&& e.z_ref.denominator == exponent_denominator(theta_ref, theta_1)
                &&& e.z.denominator > 0
                &&& e.z_ref.denominator > 0
            },
            Err(e) => {
                &&& !temperature_valid(theta_ref) ==> e == (FmedaError::InvalidTemperature {
                    milli_celsius: theta_ref,
                })
                &&& temperature_valid(theta_ref) && !temperature_valid(theta_1) ==> e == (
                FmedaError::InvalidTemperature { milli_celsius: theta_1 })
                &&& temperature_valid(theta_ref) && temperature_valid(theta_1) ==> e == (
                FmedaError::InvalidTemperature { milli_celsius: theta_2 })
                    && !temperature_valid(theta_2)
            },
        },
{
    let k_ref = match to_kelvin(theta_ref) {
        Ok(k) => k,
        Err(e) => {
            return Err(e);
        },
    };
    let k_1 = match to_kelvin(theta_1) {
        Ok(k) => k,
        Err(e) => {
            return Err(e);
        },
    };
    let k_2 = match to_kelvin(theta_2) {
        Ok(k) => k,
        Err(e) => {
            return Err(e);
        },
    };
    Ok(PitExponents { z: exponent_between(k_ref, k_2), z_ref: exponent_between(k_ref, k_1) })
}

/// At the reference condition both exponents are zero, so the
/// acceleration factor is a number divided by itself.
pub proof fn lemma_reference_condition(theta_ref: i64)
    requires
        temperature_valid(theta_ref),
    ensures
        exponent_numerator(theta_ref, theta_ref) == 0,
        exponent_denominator(theta_ref, theta_ref) > 0,
{
    let k = kelvin_spec(theta_ref);
    assert(k * k > 0) by (nonlinear_arith)
        requires
            k > 0,
    ;
}

/// The exponent grows strictly with the operating temperature: for
/// `theta_a < theta_b` the fraction at `theta_a` is less than the one at
/// `theta_b`, compared by cross-multiplication.
pub proof fn lemma_exponent_increasing(theta_ref: i64, theta_a: i64, theta_b: i64)
    requires
        temperature_valid(theta_ref),
        temperature_valid(theta_a),
        theta_a < theta_b,
    ensures
        exponent_denominator(theta_ref, theta_a) > 0,
        exponent_denominator(theta_ref, theta_b) > 0,
        exponent_numerator(theta_ref, theta_a) * exponent_denominator(theta_ref, theta_b)
            < exponent_numerator(theta_ref, theta_b) * exponent_denominator(theta_ref, theta_a),
{
    let r = kelvin_spec(theta_ref);
    let x = kelvin_spec(theta_a);
    let y = kelvin_spec(theta_b);
    assert(r * x > 0 && r * y > 0) by (nonlinear_arith)
        requires
            r > 0,
            x > 0,
            y > 0,
    ;
    assert((11_605_000 * (x - r)) * (r * y) < (11_605_000 * (y - r)) * (r * x))
        by (nonlinear_arith)
        requires
            r > 0,
            x > 0,
            y > x,
    ;
}

} // verus!
