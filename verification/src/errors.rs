//! The failures that a calculation can report.

use vstd::prelude::*;
use vstd::string::StringExecFns;

verus! {

/// Why a calculation produced no value.
#[derive(Debug, Clone, PartialEq, Eq)]
pub enum FmedaError {
    /// The requested reliability standard is not one the engine knows.
    UnknownStandard { standard: String },
    /// The standard needs a component variant and none was given.
    MissingVariant { component_id: u128 },
    /// The mission profile has no segment, or its weights sum to zero.
    DegenerateProfile,
    /// A temperature at or below absolute zero, in milli-degrees Celsius.
    InvalidTemperature { milli_celsius: i64 },
    /// An exact result is larger than its integer type can hold.
    Overflow,
}

impl FmedaError {
    /// A sentence for the person who reads the failure.
    pub fn message(&self) -> (text: String)
        ensures
            match *self {
                FmedaError::UnknownStandard { standard } => text@ == "Unknown standard: "@
                    + standard@,
                FmedaError::MissingVariant { .. } => text@
                    == "Component variant not set; cannot calculate SN29500 FIT"@,
                FmedaError::DegenerateProfile => text@
                    == "Mission profile has no usable duty-cycle weight"@,
                FmedaError::InvalidTemperature { .. } => text@
                    == "Temperature at or below absolute zero"@,
                FmedaError::Overflow => text@ == "Result exceeds the representable range"@,
            },
    {
        match self {
            FmedaError::UnknownStandard { standard } => String::from_str(
                "Unknown standard: ",
            ).concat(standard.as_str()),
            FmedaError::MissingVariant { .. } => String::from_str(
                "Component variant not set; cannot calculate SN29500 FIT",
            ),
            FmedaError::DegenerateProfile => String::from_str(
                "Mission profile has no usable duty-cycle weight",
            ),
            FmedaError::InvalidTemperature { .. } => String::from_str(
                "Temperature at or below absolute zero",
            ),
            FmedaError::Overflow => String::from_str("Result exceeds the representable range"),
        }
    }
}

} // verus!
