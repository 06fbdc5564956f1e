//! The FMEDA of one component (its total failure rate, the rate-weighted
//! detection coverage, and the split into safe and dangerous failures) and
//! the roll-up of a bill of materials into project totals.

use crate::errors::FmedaError;
use crate::models::{
    modes_well_formed, Component, ComponentFMEDAResult, FailureMode, ProjectAggregate,
    ProjectFMEDAResult,
};
use crate::units::{
    fit_to_per_hour, fit_to_per_hour_spec, per_hour_to_fit, per_hour_to_fit_spec,
    per_hour_to_per_million_hours, per_hour_to_per_million_hours_spec,
};
use std::collections::HashMap;
use vstd::prelude::*;

verus! {

/// Sum of the modes' failure rates, in nano-FIT.
pub open spec fn lambda_sum(modes: Seq<FailureMode>) -> int
    decreases modes.len(),
{
    if modes.len() == 0 {
        0
    } else {
        lambda_sum(modes.drop_last()) + modes.last().lambda
    }
}

/// Sum over the modes of rate times coverage: the detected rate, per hour.
pub open spec fn detected_sum(modes: Seq<FailureMode>) -> int
    decreases modes.len(),
{
    if modes.len() == 0 {
        0
    } else {
        detected_sum(modes.drop_last()) + modes.last().lambda * modes.last().coverage()
    }
}

/// Rate-weighted mean coverage in billionths, rounded down; zero where the
/// rates sum to zero.
pub open spec fn weighted_coverage(modes: Seq<FailureMode>) -> int {
    if lambda_sum(modes) > 0 {
        detected_sum(modes) / lambda_sum(modes)
    } else {
        0
    }
}

/// The undetected rate, per hour: the total less the detected rate.
pub open spec fn dangerous_rate(modes: Seq<FailureMode>) -> int {
    fit_to_per_hour_spec(lambda_sum(modes)) - detected_sum(modes)
}

/// The total rate per hour fits in 128 bits.
pub open spec fn component_rate_fits(modes: Seq<FailureMode>) -> bool {
    fit_to_per_hour_spec(lambda_sum(modes)) <= u128::MAX
}

/// `r` holds the FMEDA figures of `component` with the failure modes
/// `modes`.
pub open spec fn is_component_result(
    r: ComponentFMEDAResult,
    component: Component,
    modes: Seq<FailureMode>,
) -> bool {
    &&& r.component_id == component.id
    &&& r.mpn@ == component.manufacturer_part_number@
    &&& r.quantity == component.quantity
    &&& r.total_fit == lambda_sum(modes)
    &&& r.total_failure_per_hour == fit_to_per_hour_spec(lambda_sum(modes))
    &&& r.detection_coverage == weighted_coverage(modes)
    &&& r.safe_per_hour == detected_sum(modes)
    &&& r.dangerous_per_hour == dangerous_rate(modes)
}

/// The sum of the rates is non-negative.
pub proof fn lemma_lambda_sum_nonnegative(modes: Seq<FailureMode>)
    ensures
        0 <= lambda_sum(modes),
    decreases modes.len(),
{
    if modes.len() > 0 {
        lemma_lambda_sum_nonnegative(modes.drop_last());
    }
}

/// The rate of one mode is at most the sum of the rates.
pub proof fn lemma_lambda_le_sum(modes: Seq<FailureMode>, i: int)
    requires
        0 <= i < modes.len(),
    ensures
        0 <= modes[i].lambda <= lambda_sum(modes),
    decreases modes.len(),
{
    lemma_lambda_sum_nonnegative(modes.drop_last());
    if i < modes.len() - 1 {
        lemma_lambda_le_sum(modes.drop_last(), i);
        assert(modes.drop_last()[i] == modes[i]);
    }
}

/// Both sums are non-negative, and the detected rate is at most the total
/// rate per hour.
pub proof fn lemma_sums_bounded(modes: Seq<FailureMode>)
    requires
        modes_well_formed(modes),
    ensures
        0 <= lambda_sum(modes),
        0 <= detected_sum(modes) <= fit_to_per_hour_spec(lambda_sum(modes)),
    decreases modes.len(),
{
    if modes.len() > 0 {
        let m = modes.last();
        assert(m.well_formed());
        lemma_sums_bounded(modes.drop_last());
        assert(0 <= m.lambda * m.coverage() <= m.lambda * 1_000_000_000) by (nonlinear_arith)
            requires
                0 <= m.lambda,
                0 <= m.coverage() <= 1_000_000_000,
        ;
    }
}

/// The sums over the first `i` modes are at most the sums over all.
pub proof fn lemma_prefix_sums(modes: Seq<FailureMode>, i: int)
    requires
        modes_well_formed(modes),
        0 <= i <= modes.len(),
    ensures
        lambda_sum(modes.take(i)) <= lambda_sum(modes),
        detected_sum(modes.take(i)) <= detected_sum(modes),
    decreases modes.len() - i,
{
    if i == modes.len() {
        assert(modes.take(i) == modes);
    } else {
        lemma_prefix_sums(modes, i + 1);
        assert(modes.take(i + 1).drop_last() == modes.take(i));
        let m = modes[i];
        assert(m.well_formed());
        assert(0 <= m.lambda * m.coverage()) by (nonlinear_arith)
            requires
                0 <= m.lambda,
                0 <= m.coverage(),
        ;
    }
}

/// Sums the failure rates of the modes.
pub fn sum_lambda(modes: &[FailureMode]) -> (total: u128)
    ensures
        total == lambda_sum(modes@),
{
    let mut total: u128 = 0;
    let mut i: usize = 0;
    while i < modes.len()
        invariant
            i <= modes.len(),
            total == lambda_sum(modes@.take(i as int)),
            total <= i * u64::MAX,
        decreases modes.len() - i,
    {
        proof {
            assert(modes@.take(i + 1).drop_last() == modes@.take(i as int));
        }
        total = total + modes[i].lambda as u128;
        i = i + 1;
    }
    proof {
        assert(modes@.take(i as int) == modes@);
    }
    total
}

/// Combines the failure modes that apply to a component into its FMEDA
/// figures.
///
/// The total rate is the sum of the modes' rates. The safe rate is the
/// total rate times the rate-weighted coverage, taken exactly: the sum of
/// rate times coverage. The dangerous rate is the rest, so the two always
/// add up to the total. Fails with `Overflow` exactly where the total rate
/// per hour does not fit in 128 bits.
pub fn calc_component_fmeda(component: &Component, modes: &[FailureMode]) -> (r: Result<
    ComponentFMEDAResult,
    FmedaError,
>)
    requires
        modes_well_formed(modes@),
    ensures
        match r {
            Ok(res) => {
                &&& component_rate_fits(modes@)
                &&& is_component_result(res, *component, modes@)
                &&& res.safe_per_hour + res.dangerous_per_hour == res.total_failure_per_hour
            },
            Err(e) => e == FmedaError::Overflow && !component_rate_fits(modes@),
        },
{
    let total_fit = sum_lambda(modes);
    let total_failure_per_hour = match fit_to_per_hour(total_fit) {
        Some(v) => v,
        None => {
            return Err(FmedaError::Overflow);
        },
    };
    let mut detected: u128 = 0;
    let mut j: usize = 0;
    while j < modes.len()
        invariant
            j <= modes.len(),
            modes_well_formed(modes@),
            detected == detected_sum(modes@.take(j as int)),
            total_failure_per_hour == fit_to_per_hour_spec(lambda_sum(modes@)),
        decreases modes.len() - j,
    {
        let coverage: u128 = match modes[j].detection_coverage {
            Some(c) => c as u128,
            None => 0,
        };
        let lambda: u128 = modes[j].lambda as u128;
        proof {
            assert(modes@.take(j + 1).drop_last() == modes@.take(j as int));
            assert(modes@[j as int].well_formed());
            lemma_prefix_sums(modes@, j + 1);
            lemma_sums_bounded(modes@);
            lemma_sums_bounded(modes@.take(j as int));
            assert(0 <= lambda * coverage <= lambda * 1_000_000_000) by (nonlinear_arith)
                requires
                    0 <= lambda,
                    0 <= coverage <= 1_000_000_000,
            ;
        }
        detected = detected + lambda * coverage;
        j = j + 1;
    }
    proof {
        assert(modes@.take(j as int) == modes@);
        lemma_sums_bounded(modes@);
    }
    let detection_coverage: u128 = if total_fit > 0 {
        detected / total_fit
    } else {
        0
    };
    Ok(
        ComponentFMEDAResult {
            component_id: component.id,
            mpn: component.manufacturer_part_number.clone(),
            quantity: component.quantity,
            total_fit,
            total_failure_per_hour,
            detection_coverage,
            safe_per_hour: detected,
            dangerous_per_hour: total_failure_per_hour - detected,
        },
    )
}

/// The failure modes that `map` holds for the component `id`: none where it
/// has no entry.
pub open spec fn modes_of(map: Map<u128, Vec<FailureMode>>, id: u128) -> Seq<FailureMode> {
    if map.contains_key(id) {
        map[id]@
    } else {
        Seq::empty()
    }
}

/// Every component of the list is well formed.
pub open spec fn components_well_formed(components: Seq<Component>) -> bool {
    forall|i: int| 0 <= i < components.len() ==> (#[trigger] components[i]).well_formed()
}

/// Every list of failure modes in the map is well formed.
pub open spec fn modes_map_well_formed(map: Map<u128, Vec<FailureMode>>) -> bool {
    forall|k: u128| map.contains_key(k) ==> modes_well_formed(#[trigger] map[k]@)
}

/// Sum over the results of dangerous rate times installed quantity.
pub open spec fn dangerous_total(results: Seq<ComponentFMEDAResult>) -> int
    decreases results.len(),
{
    if results.len() == 0 {
        0
    } else {
        dangerous_total(results.drop_last()) + results.last().dangerous_per_hour
            * results.last().quantity
    }
}

/// Sum over the results of safe rate times installed quantity.
pub open spec fn safe_total(results: Seq<ComponentFMEDAResult>) -> int
    decreases results.len(),
{
    if results.len() == 0 {
        0
    } else {
        safe_total(results.drop_last()) + results.last().safe_per_hour * results.last().quantity
    }
}

/// The dangerous rate of a bill of materials: each component's dangerous
/// rate times its quantity, summed.
pub open spec fn project_dangerous(
    components: Seq<Component>,
    map: Map<u128, Vec<FailureMode>>,
) -> int
    decreases components.len(),
{
    if components.len() == 0 {
        0
    } else {
        project_dangerous(components.drop_last(), map) + dangerous_rate(
            modes_of(map, components.last().id),
        ) * components.last().quantity
    }
}

/// The safe rate of a bill of materials: each component's detected rate
/// times its quantity, summed.
pub open spec fn project_safe(components: Seq<Component>, map: Map<u128, Vec<FailureMode>>) -> int
    decreases components.len(),
{
    if components.len() == 0 {
        0
    } else {
        project_safe(components.drop_last(), map) + detected_sum(
            modes_of(map, components.last().id),
        ) * components.last().quantity
    }
}

/// Every figure of the project's result fits in 128 bits.
pub open spec fn project_fits(components: Seq<Component>, map: Map<u128, Vec<FailureMode>>) -> bool {
    &&& forall|i: int|
        0 <= i < components.len() ==> component_rate_fits(
            modes_of(map, (#[trigger] components[i]).id),
        )
    &&& project_safe(components, map) <= u128::MAX
    &&& per_hour_to_per_million_hours_spec(project_dangerous(components, map)) <= u128::MAX
}

/// The project sums are non-negative.
pub proof fn lemma_project_nonnegative(
    components: Seq<Component>,
    map: Map<u128, Vec<FailureMode>>,
)
    requires
        components_well_formed(components),
        modes_map_well_formed(map),
    ensures
        0 <= project_dangerous(components, map),
        0 <= project_safe(components, map),
    decreases components.len(),
{
    if components.len() > 0 {
        assert(components.last().well_formed());
        lemma_project_nonnegative(components.drop_last(), map);
        lemma_term_bounded(components.last(), map);
    }
}

/// The project sums over the first `i` components are non-negative and at
/// most the sums over all.
pub proof fn lemma_project_prefix(
    components: Seq<Component>,
    map: Map<u128, Vec<FailureMode>>,
    i: int,
)
    requires
        components_well_formed(components),
        modes_map_well_formed(map),
        0 <= i <= components.len(),
    ensures
        0 <= project_dangerous(components.take(i), map) <= project_dangerous(components, map),
        0 <= project_safe(components.take(i), map) <= project_safe(components, map),
    decreases components.len() - i,
{
    lemma_project_nonnegative(components.take(i), map);
    if i == components.len() {
        assert(components.take(i) == components);
    } else {
        lemma_project_prefix(components, map, i + 1);
        assert(components.take(i + 1).drop_last() == components.take(i));
        assert(components.take(i + 1).last() == components[i]);
        lemma_term_bounded(components[i], map);
    }
}

/// One component's contribution to the project sums is non-negative.
pub proof fn lemma_term_bounded(component: Component, map: Map<u128, Vec<FailureMode>>)
    requires
        component.well_formed(),
        modes_map_well_formed(map),
    ensures
        modes_well_formed(modes_of(map, component.id)),
        0 <= dangerous_rate(modes_of(map, component.id)) * component.quantity,
        0 <= detected_sum(modes_of(map, component.id)) * component.quantity,
{
    let modes = modes_of(map, component.id);
    if map.contains_key(component.id) {
        assert(modes_well_formed(map[component.id]@));
    }
    lemma_sums_bounded(modes);
    let q = component.quantity as int;
    let d = dangerous_rate(modes);
    let s = detected_sum(modes);
    assert(0 <= d * q && 0 <= s * q) by (nonlinear_arith)
        requires
            0 <= d,
            0 <= s,
            1 <= q,
    ;
}

/// Rolls the bill of materials up into project totals.
///
/// Each component is computed from the failure modes that the map holds
/// under its identifier (none where it has no entry). The per-component
/// results keep the order of `components`. The project's dangerous and
/// safe rates are the components' rates, each times the installed
/// quantity, summed; they are re-expressed in whole nano-FIT and, for the
/// dangerous rate, per million hours. Fails with `Overflow` exactly where
/// a figure does not fit in 128 bits.
pub fn calc_project_fmeda(
    components: &[Component],
    modes_map: &HashMap<u128, Vec<FailureMode>>,
) -> (r: Result<ProjectFMEDAResult, FmedaError>)
    requires
        components_well_formed(components@),
        modes_map_well_formed(modes_map@),
    ensures
        match r {
            Ok(p) => {
                &&& project_fits(components@, modes_map@)
                &&& p.components@.len() == components@.len()
                &&& forall|i: int|
                    0 <= i < components@.len() ==> is_component_result(
                        #[trigger] p.components@[i],
                        components@[i],
                        modes_of(modes_map@, components@[i].id),
                    )
                &&& p.aggregate.total_dangerous_per_hour == dangerous_total(p.components@)
                &&& p.aggregate.total_safe_per_hour == safe_total(p.components@)
                &&& p.aggregate.total_dangerous_per_hour == project_dangerous(
                    components@,
                    modes_map@,
                )
                &&& p.aggregate.total_safe_per_hour == project_safe(components@, modes_map@)
                &&& p.aggregate.total_dangerous_fit == per_hour_to_fit_spec(
                    project_dangerous(components@, modes_map@),
                )
                &&& p.aggregate.total_safe_fit == per_hour_to_fit_spec(
                    project_safe(components@, modes_map@),
                )
                &&& p.aggregate.dangerous_per_million_hours
                    == per_hour_to_per_million_hours_spec(
                    project_dangerous(components@, modes_map@),
                )
            },
            Err(e) => e == FmedaError::Overflow && !project_fits(components@, modes_map@),
        },
{
    broadcast use vstd::std_specs::hash::group_hash_axioms;

    let no_modes: Vec<FailureMode> = Vec::new();
    let mut results: Vec<ComponentFMEDAResult> = Vec::new();
    let mut total_dangerous: u128 = 0;
    let mut total_safe: u128 = 0;
    let mut i: usize = 0;
    while i < components.len()
        invariant
            i <= components.len(),
            components_well_formed(components@),
            modes_map_well_formed(modes_map@),
            no_modes@.len() == 0,
            results@.len() == i,
            forall|k: int|
                0 <= k < i ==> is_component_result(
                    #[trigger] results@[k],
                    components@[k],
                    modes_of(modes_map@, components@[k].id),
                ),
            forall|k: int|
                0 <= k < i ==> component_rate_fits(
                    modes_of(modes_map@, (#[trigger] components@[k]).id),
                ),
            total_dangerous == dangerous_total(results@),
            total_safe == safe_total(results@),
            total_dangerous == project_dangerous(components@.take(i as int), modes_map@),
            total_safe == project_safe(components@.take(i as int), modes_map@),
        decreases components.len() - i,
    {
        let component = &components[i];
        let modes: &[FailureMode] = match modes_map.get(&component.id) {
            Some(list) => list.as_slice(),
            None => no_modes.as_slice(),
        };
        proof {
            assert(modes@ == modes_of(modes_map@, component.id));
            assert(components@[i as int].well_formed());
            lemma_term_bounded(*component, modes_map@);
            lemma_project_prefix(components@, modes_map@, i + 1);
            assert(components@.take(i + 1).drop_last() == components@.take(i as int));
            assert(components@.take(i + 1).last() == components@[i as int]);
        }
        let res = match calc_component_fmeda(component, modes) {
            Ok(res) => res,
            Err(_) => {
                return Err(FmedaError::Overflow);
            },
        };
        let quantity: u128 = component.quantity as u128;
        let dangerous = match res.dangerous_per_hour.checked_mul(quantity) {
            Some(v) => v,
            None => {
                return Err(FmedaError::Overflow);
            },
        };
        let safe = match res.safe_per_hour.checked_mul(quantity) {
            Some(v) => v,
            None => {
                return Err(FmedaError::Overflow);
            },
        };
        total_dangerous = match total_dangerous.checked_add(dangerous) {
            Some(v) => v,
            None => {
                return Err(FmedaError::Overflow);
            },
        };
        total_safe = match total_safe.checked_add(safe) {
            Some(v) => v,
            None => {
                return Err(FmedaError::Overflow);
            },
        };
        proof {
            assert(results@.push(res).drop_last() == results@);
            assert(results@.push(res).last() == res);
        }
        results.push(res);
        i = i + 1;
    }
    proof {
        assert(components@.take(i as int) == components@);
    }
    let dangerous_per_million_hours = match per_hour_to_per_million_hours(total_dangerous) {
        Some(v) => v,
        None => {
            return Err(FmedaError::Overflow);
        },
    };
    Ok(
        ProjectFMEDAResult {
            components: results,
            aggregate: ProjectAggregate {
                total_dangerous_per_hour: total_dangerous,
                total_safe_per_hour: total_safe,
                total_dangerous_fit: per_hour_to_fit(total_dangerous),
                total_safe_fit: per_hour_to_fit(total_safe),
                dangerous_per_million_hours,
            },
        },
    )
}

/// The safe and the dangerous rate of a component's result add up to its
/// total rate per hour, exactly.
pub proof fn lemma_split_adds_up(
    r: ComponentFMEDAResult,
    component: Component,
    modes: Seq<FailureMode>,
)
    requires
        is_component_result(r, component, modes),
    ensures
        r.safe_per_hour + r.dangerous_per_hour == r.total_failure_per_hour,
{
}

/// The project's dangerous rate is the sum over its components' results of
/// dangerous rate times quantity, and its safe rate the sum of safe rate
/// times quantity.
pub proof fn lemma_project_totals(
    results: Seq<ComponentFMEDAResult>,
    components: Seq<Component>,
    map: Map<u128, Vec<FailureMode>>,
)
    requires
        results.len() == components.len(),
        forall|i: int|
            0 <= i < components.len() ==> is_component_result(
                #[trigger] results[i],
                components[i],
                modes_of(map, components[i].id),
            ),
    ensures
        dangerous_total(results) == project_dangerous(components, map),
        safe_total(results) == project_safe(components, map),
    decreases results.len(),
{
    if results.len() > 0 {
        let n = results.len() - 1;
        assert(is_component_result(results[n], components[n], modes_of(map, components[n].id)));
        assert forall|i: int| 0 <= i < components.drop_last().len() implies is_component_result(
            #[trigger] results.drop_last()[i],
            components.drop_last()[i],
            modes_of(map, components.drop_last()[i].id),
        ) by {
            assert(is_component_result(results[i], components[i], modes_of(map, components[i].id)));
        }
        lemma_project_totals(results.drop_last(), components.drop_last(), map);
    }
}

/// The total rate of a bill of materials: each component's total rate per
/// hour times its quantity, summed.
pub open spec fn project_total(components: Seq<Component>, map: Map<u128, Vec<FailureMode>>) -> int
    decreases components.len(),
{
    if components.len() == 0 {
        0
    } else {
        project_total(components.drop_last(), map) + fit_to_per_hour_spec(
            lambda_sum(modes_of(map, components.last().id)),
        ) * components.last().quantity
    }
}

/// The dangerous and the safe rate of a bill of materials add up to its
/// total rate, exactly.
pub proof fn lemma_project_split_adds_up(
    components: Seq<Component>,
    map: Map<u128, Vec<FailureMode>>,
)
    ensures
        project_dangerous(components, map) + project_safe(components, map) == project_total(
            components,
            map,
        ),
    decreases components.len(),
{
    if components.len() > 0 {
        lemma_project_split_adds_up(components.drop_last(), map);
        let modes = modes_of(map, components.last().id);
        let q = components.last().quantity as int;
        let d = dangerous_rate(modes);
        let s = detected_sum(modes);
        assert(d * q + s * q == (d + s) * q) by (nonlinear_arith);
    }
}

/// Tests [`components_well_formed`].
pub fn are_components_well_formed(components: &[Component]) -> (r: bool)
    ensures
        r == components_well_formed(components@),
{
    let mut i: usize = 0;
    while i < components.len()
        invariant
            i <= components.len(),
            forall|j: int| 0 <= j < i ==> (#[trigger] components@[j]).well_formed(),
        decreases components.len() - i,
    {
        if !components[i].is_well_formed() {
            return false;
        }
        i = i + 1;
    }
    true
}

} // verus!
