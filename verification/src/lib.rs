//! Failure-rate prediction and FMEDA aggregation for a bill of materials.
//!
//! The engine predicts the failure rate of electronic components under the
//! reliability standards SN29500 and IEC 62380, and rolls the failure
//! modes of a bill of materials up into safe and dangerous failure rates.
//!
//! All arithmetic is exact integer arithmetic on fixed-point quantities,
//! whose units [`units`] lists. Every function states what it returns over
//! mathematical integers and sequences, and every rounding is a division
//! that its contract shows.
//!
//! * [`models`] holds the records that a calculation reads and the results
//!   that it builds.
//! * [`profile`] resolves a mission profile into (temperature, weight)
//!   pairs and their weight sum.
//! * [`thermal`] checks temperatures and computes the exponents of the
//!   temperature acceleration factor as exact fractions.
//! * [`calc`] dispatches on the standard; [`calc::sn29500`] and
//!   [`calc::iec62380`] hold the standards.
//! * [`fmeda`] computes the FMEDA of a component and of a project.
//! * [`predict`] estimates a rate from catalogue figures.
//!
//! A rate that depends on temperature is computed in two steps, since the
//! acceleration factor needs an exponential, which integers do not have.
//! [`calc::calculate_fit`] decides what applies and, for the full model,
//! returns a [`calc::AccelerationPlan`]: the reference rate, the
//! temperatures and the weights. The caller evaluates the factor of each
//! segment from the exponents of [`thermal::pit_exponents`], and
//! [`calc::sn29500::weighted_fit`] combines the factors into the rate.

pub mod calc;
pub mod errors;
pub mod fmeda;
pub mod models;
pub mod predict;
pub mod profile;
pub mod thermal;
pub mod units;
