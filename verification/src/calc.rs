//! The standard dispatcher and the steps that a standard can take.

use crate::errors::FmedaError;
use crate::models::{Component, ComponentVariant, MissionProfile};
use crate::profile::ResolvedProfile;
use crate::units::same_text;
use vstd::prelude::*;
use vstd::string::StringExecFns;

pub mod iec62380;
pub mod sn29500;

verus! {

/// Why a settled rate is a fallback and not the result of the full model.
#[derive(Debug, Clone, Copy, PartialEq, Eq)]
pub enum Degradation {
    /// The standard has no model for the component's type.
    UnknownComponentType,
    /// The model needs a variant and the component has none.
    MissingVariant,
    /// The mission profile has no usable duty-cycle weight.
    DegenerateProfile,
}

/// What remains to be done for a rate that depends on temperature: one
/// acceleration factor per segment of the profile, between `theta_1` and
/// the segment's temperature, with `theta_ref` as the reference.
#[derive(Debug, Clone, PartialEq, Eq)]
pub struct AccelerationPlan {
    /// The variant's reference rate, in nano-FIT.
    pub ref_fit: u64,
    /// The standard's reference temperature.
    pub theta_ref: i64,
    /// The variant's qualification temperature.
    pub theta_1: i64,
    /// The segments and their total weight.
    pub profile: ResolvedProfile,
}

impl AccelerationPlan {
    /// The profile is well formed.
    pub open spec fn well_formed(&self) -> bool {
        self.profile.well_formed()
    }

    /// Tests [`AccelerationPlan::well_formed`].
    pub fn is_well_formed(&self) -> (r: bool)
        ensures
            r == self.well_formed(),
    {
        self.profile.is_well_formed()
    }
}

/// The outcome of a standard's calculation for one component.
#[derive(Debug, Clone, PartialEq, Eq)]
pub enum FitStep {
    /// The failure rate, in nano-FIT, and why it is a fallback if it is.
    Settled { fit: u64, degradation: Option<Degradation> },
    /// The rate follows from the acceleration factors that the plan asks
    /// for.
    Accelerated(AccelerationPlan),
}

/// `r` is what the dispatcher returns for the standard named `standard`.
///
/// `SN29500` needs a variant: without one the calculation is refused with
/// `MissingVariant`; with one, the step is that of
/// [`sn29500::is_step_for_type`] for the lower-case type name.
/// `IEC62380` gives the settled rate of [`iec62380::rate_spec`]. Any other
/// name is refused with `UnknownStandard`, which carries the name.
pub open spec fn is_calculated_fit(
    r: Result<FitStep, FmedaError>,
    standard: Seq<char>,
    component: &Component,
    profile: &MissionProfile,
    variant_opt: Option<&ComponentVariant>,
) -> bool {
    if standard == "SN29500"@ {
        match variant_opt {
            None => r == Err::<FitStep, FmedaError>(
                FmedaError::MissingVariant { component_id: component.id },
            ),
            Some(_) => sn29500::is_step_for_type(
                r,
                sn29500::lowercase_of(component.component_type@),
                profile,
                variant_opt,
            ),
        }
    } else if standard == "IEC62380"@ {
        match r {
            Ok(FitStep::Settled { fit, degradation }) => fit == iec62380::rate_spec(
                component.component_type@,
            ) && degradation.is_none(),
            _ => false,
        }
    } else {
        match r {
            Err(FmedaError::UnknownStandard { standard: name }) => name@ == standard,
            _ => false,
        }
    }
}

/// Calculates the failure rate of a component under the reliability
/// standard that `standard` names: see [`is_calculated_fit`].
pub fn calculate_fit(
    standard: &str,
    component: &Component,
    profile: &MissionProfile,
    variant_opt: Option<&ComponentVariant>,
) -> (r: Result<FitStep, FmedaError>)
    ensures
        is_calculated_fit(r, standard@, component, profile, variant_opt),
{
    if same_text(standard, "SN29500") {
        if variant_opt.is_none() {
            return Err(FmedaError::MissingVariant { component_id: component.id });
        }
        sn29500::calc_fit(component, profile, variant_opt)
    } else if same_text(standard, "IEC62380") {
        Ok(FitStep::Settled { fit: iec62380::calc_fit(component), degradation: None })
    } else {
        Err(FmedaError::UnknownStandard { standard: String::from_str(standard) })
    }
}

/// A standard other than the two that the engine knows yields
/// `UnknownStandard` with the name asked for, and no rate.
pub proof fn lemma_unknown_standard(
    r: Result<FitStep, FmedaError>,
    standard: Seq<char>,
    component: &Component,
    profile: &MissionProfile,
    variant_opt: Option<&ComponentVariant>,
)
    requires
        is_calculated_fit(r, standard, component, profile, variant_opt),
        standard != "SN29500"@,
        standard != "IEC62380"@,
    ensures
        r is Err,
        r->Err_0 is UnknownStandard,
        r->Err_0->standard@ == standard,
{
}

} // verus!
