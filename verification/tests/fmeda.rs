use fmeda_engine::errors::FmedaError;
use fmeda_engine::fmeda::{
    are_components_well_formed, calc_component_fmeda, calc_project_fmeda, sum_lambda,
};
use fmeda_engine::models::{
    are_modes_well_formed, Component, ComponentFMEDAResult, FailureMode,
};
use fmeda_engine::units::{
    fit_to_per_hour, per_hour_to_fit, per_hour_to_per_million_hours, same_text, NANO,
};
use std::collections::HashMap;

const FIT: u64 = 1_000_000_000;
const PERCENT: u32 = 10_000_000;

fn component(id: u128, component_type: &str, quantity: i32) -> Component {
    Component {
        id,
        project_id: 1,
        manufacturer_part_number: format!("MPN-{}", id),
        manufacturer: None,
        reference_designator: None,
        quantity,
        component_type: component_type.to_string(),
        base_fit: None,
        quality_factor: None,
        resistor_type: None,
        mission_profile_id: None,
        variant_id: None,
    }
}

fn mode(id: u128, lambda: u64, detection_coverage: Option<u32>) -> FailureMode {
    FailureMode {
        id,
        mpn: None,
        family: Some("chip".to_string()),
        mode: format!("mode-{}", id),
        lambda,
        detection_coverage,
    }
}

fn fmeda_of(c: &Component, modes: &[FailureMode]) -> ComponentFMEDAResult {
    assert!(are_modes_well_formed(modes));
    calc_component_fmeda(c, modes).unwrap()
}

#[test]
fn component_with_two_modes_splits_into_safe_and_dangerous() {
    let c = component(7, "Resistor", 3);
    let modes = vec![mode(1, 10 * FIT, Some(90 * PERCENT)), mode(2, 5 * FIT, Some(0))];
    let r = fmeda_of(&c, &modes);
    assert_eq!(r.component_id, 7);
    assert_eq!(r.mpn, "MPN-7");
    assert_eq!(r.quantity, 3);
    assert_eq!(r.total_fit, 15 * FIT as u128);
    assert_eq!(r.detection_coverage, 600_000_000);
    assert_eq!(r.total_failure_per_hour, 15 * (FIT as u128) * (NANO as u128));
    // safe is 0.6 of the total, dangerous 0.4
    assert_eq!(r.safe_per_hour * 10, r.total_failure_per_hour * 6);
    assert_eq!(r.dangerous_per_hour * 10, r.total_failure_per_hour * 4);
    assert_eq!(r.safe_per_hour, 9_000_000_000_000_000_000);
    assert_eq!(r.dangerous_per_hour, 6_000_000_000_000_000_000);
}

#[test]
fn safe_and_dangerous_add_up_to_the_total() {
    let c = component(1, "IC", 1);
    let modes = vec![
        mode(1, 1_234_567_891, Some(333_333_333)),
        mode(2, 7, Some(999_999_999)),
        mode(3, 0, Some(500_000_000)),
        mode(4, 98_765_432_109, None),
        mode(5, u64::MAX, Some(1_000_000_000)),
    ];
    let r = fmeda_of(&c, &modes);
    assert_eq!(r.safe_per_hour + r.dangerous_per_hour, r.total_failure_per_hour);
    assert_eq!(
        r.total_fit,
        1_234_567_891u128 + 7 + 98_765_432_109 + u64::MAX as u128
    );
}

#[test]
fn missing_coverage_counts_as_undetected() {
    let c = component(1, "IC", 1);
    let r = fmeda_of(&c, &[mode(1, 4 * FIT, None)]);
    assert_eq!(r.detection_coverage, 0);
    assert_eq!(r.safe_per_hour, 0);
    assert_eq!(r.dangerous_per_hour, r.total_failure_per_hour);
    assert_eq!(r.total_failure_per_hour, 4_000_000_000_000_000_000);
}

#[test]
fn no_failure_modes_give_zero_rates() {
    let c = component(9, "Capacitor", 2);
    let r = fmeda_of(&c, &[]);
    assert_eq!(r.total_fit, 0);
    assert_eq!(r.total_failure_per_hour, 0);
    assert_eq!(r.detection_coverage, 0);
    assert_eq!(r.safe_per_hour, 0);
    assert_eq!(r.dangerous_per_hour, 0);
}

#[test]
fn zero_rates_give_zero_coverage() {
    let c = component(9, "Capacitor", 2);
    let r = fmeda_of(&c, &[mode(1, 0, Some(90 * PERCENT)), mode(2, 0, Some(PERCENT))]);
    assert_eq!(r.total_fit, 0);
    assert_eq!(r.detection_coverage, 0);
    assert_eq!(r.safe_per_hour, 0);
    assert_eq!(r.dangerous_per_hour, 0);
}

#[test]
fn weighted_coverage_rounds_down() {
    let c = component(1, "IC", 1);
    // (1 * 1.0 + 2 * 0.0) / 3 = 0.333...
    let r = fmeda_of(&c, &[mode(1, FIT, Some(100 * PERCENT)), mode(2, 2 * FIT, Some(0))]);
    assert_eq!(r.detection_coverage, 333_333_333);
    // the split is exact all the same
    assert_eq!(r.safe_per_hour * 3, r.total_failure_per_hour);
}

#[test]
fn coverage_above_the_whole_is_not_well_formed() {
    assert!(!are_modes_well_formed(&[mode(1, FIT, Some(1_000_000_001))]));
    assert!(are_modes_well_formed(&[mode(1, FIT, Some(1_000_000_000))]));
    assert!(!mode(1, FIT, Some(u32::MAX)).is_well_formed());
    assert!(mode(1, FIT, None).is_well_formed());
}

#[test]
fn quantity_below_one_is_not_well_formed() {
    assert!(component(1, "IC", 1).is_well_formed());
    assert!(!component(1, "IC", 0).is_well_formed());
    assert!(!component(1, "IC", -4).is_well_formed());
    assert!(are_components_well_formed(&[]));
    assert!(are_components_well_formed(&[component(1, "IC", 1), component(2, "IC", i32::MAX)]));
    assert!(!are_components_well_formed(&[component(1, "IC", 1), component(2, "IC", 0)]));
}

#[test]
fn sum_lambda_adds_the_rates() {
    assert_eq!(sum_lambda(&[]), 0);
    assert_eq!(
        sum_lambda(&[mode(1, 1, None), mode(2, u64::MAX, None), mode(3, u64::MAX, None)]),
        2 * u64::MAX as u128 + 1
    );
}

#[test]
fn project_split_adds_up_to_the_total() {
    let components = vec![component(1, "Resistor", 2), component(2, "IC", 7)];
    let mut modes: HashMap<u128, Vec<FailureMode>> = HashMap::new();
    modes.insert(1, vec![mode(1, 10 * FIT, Some(90 * PERCENT)), mode(2, 5 * FIT, Some(0))]);
    modes.insert(2, vec![mode(3, 3 * FIT + 1, Some(123_456_789))]);
    let p = calc_project_fmeda(&components, &modes).unwrap();
    let total: u128 = p
        .components
        .iter()
        .map(|r| r.total_failure_per_hour * r.quantity as u128)
        .sum();
    assert_eq!(p.aggregate.total_dangerous_per_hour + p.aggregate.total_safe_per_hour, total);
    assert_eq!(total, (2 * 15 * FIT as u128 + 7 * (3 * FIT as u128 + 1)) * NANO as u128);
}

#[test]
fn project_totals_weigh_each_component_by_its_quantity() {
    let components =
        vec![component(1, "Resistor", 1), component(2, "Capacitor", 4), component(3, "IC", 25)];
    let mut modes: HashMap<u128, Vec<FailureMode>> = HashMap::new();
    modes.insert(1, vec![mode(1, 10 * FIT, Some(90 * PERCENT)), mode(2, 5 * FIT, Some(0))]);
    modes.insert(2, vec![mode(3, 2 * FIT, Some(50 * PERCENT))]);
    modes.insert(3, vec![mode(4, 8 * FIT, None), mode(5, FIT, Some(99 * PERCENT))]);
    let p = calc_project_fmeda(&components, &modes).unwrap();

    assert_eq!(p.components.len(), 3);
    let mut dangerous = 0u128;
    let mut safe = 0u128;
    for (c, r) in components.iter().zip(p.components.iter()) {
        assert_eq!(r.component_id, c.id);
        assert_eq!(r.quantity, c.quantity);
        assert_eq!(r, &fmeda_of(c, &modes[&c.id]));
        dangerous += r.dangerous_per_hour * c.quantity as u128;
        safe += r.safe_per_hour * c.quantity as u128;
    }
    assert_eq!(p.aggregate.total_dangerous_per_hour, dangerous);
    assert_eq!(p.aggregate.total_safe_per_hour, safe);

    let unit = FIT as u128 * NANO as u128;
    // 1 * 6 + 4 * 1 + 25 * 8.01 FIT dangerous
    assert_eq!(p.aggregate.total_dangerous_per_hour, 6 * unit + 4 * unit + 25 * 801 * unit / 100);
    // 1 * 9 + 4 * 1 + 25 * 0.99 FIT safe
    assert_eq!(p.aggregate.total_safe_per_hour, 9 * unit + 4 * unit + 25 * 99 * unit / 100);
    assert_eq!(p.aggregate.total_dangerous_fit, 210_250_000_000);
    assert_eq!(p.aggregate.total_safe_fit, 37_750_000_000);
    assert_eq!(
        p.aggregate.dangerous_per_million_hours,
        p.aggregate.total_dangerous_per_hour * 1000
    );
}

#[test]
fn project_keeps_the_order_of_the_bill_of_materials() {
    let components =
        vec![component(30, "IC", 1), component(10, "IC", 2), component(20, "IC", 3)];
    let mut modes: HashMap<u128, Vec<FailureMode>> = HashMap::new();
    modes.insert(10, vec![mode(1, FIT, None)]);
    modes.insert(20, vec![mode(2, 2 * FIT, None)]);
    modes.insert(30, vec![mode(3, 3 * FIT, None)]);
    let p = calc_project_fmeda(&components, &modes).unwrap();
    let ids: Vec<u128> = p.components.iter().map(|r| r.component_id).collect();
    assert_eq!(ids, vec![30, 10, 20]);
    let fits: Vec<u128> = p.components.iter().map(|r| r.total_fit).collect();
    assert_eq!(fits, vec![3 * FIT as u128, FIT as u128, 2 * FIT as u128]);
}

#[test]
fn component_without_entry_has_no_failure_modes() {
    let components = vec![component(1, "IC", 5), component(2, "IC", 1)];
    let mut modes: HashMap<u128, Vec<FailureMode>> = HashMap::new();
    modes.insert(2, vec![mode(1, FIT, Some(25 * PERCENT))]);
    let p = calc_project_fmeda(&components, &modes).unwrap();
    assert_eq!(p.components[0].total_fit, 0);
    assert_eq!(p.components[0].dangerous_per_hour, 0);
    assert_eq!(p.components[1].total_fit, FIT as u128);
    assert_eq!(p.aggregate.total_dangerous_per_hour, 750_000_000_000_000_000);
    assert_eq!(p.aggregate.total_safe_per_hour, 250_000_000_000_000_000);
    assert_eq!(p.aggregate.total_dangerous_fit, 750_000_000);
    assert_eq!(p.aggregate.total_safe_fit, 250_000_000);
}

#[test]
fn empty_project_has_zero_totals() {
    let modes: HashMap<u128, Vec<FailureMode>> = HashMap::new();
    let p = calc_project_fmeda(&[], &modes).unwrap();
    assert!(p.components.is_empty());
    assert_eq!(p.aggregate.total_dangerous_per_hour, 0);
    assert_eq!(p.aggregate.total_safe_per_hour, 0);
    assert_eq!(p.aggregate.total_dangerous_fit, 0);
    assert_eq!(p.aggregate.total_safe_fit, 0);
    assert_eq!(p.aggregate.dangerous_per_million_hours, 0);
}

#[test]
fn largest_rates_fit_in_a_component() {
    let c = component(1, "IC", 1);
    let modes: Vec<FailureMode> = (0..4).map(|i| mode(i, u64::MAX, None)).collect();
    let r = fmeda_of(&c, &modes);
    assert_eq!(r.total_fit, 4 * u64::MAX as u128);
    assert_eq!(r.dangerous_per_hour, 4 * u64::MAX as u128 * NANO as u128);
}

#[test]
fn project_total_beyond_128_bits_overflows() {
    let components: Vec<Component> = (0..3).map(|i| component(i, "IC", i32::MAX)).collect();
    let mut modes: HashMap<u128, Vec<FailureMode>> = HashMap::new();
    for c in &components {
        modes.insert(c.id, (0..8).map(|i| mode(i, u64::MAX, None)).collect());
    }
    // one component: 8 * 2^64 * 10^9 * 2^31 is about 2^128
    assert_eq!(calc_project_fmeda(&components, &modes), Err(FmedaError::Overflow));
    // a smaller quantity fits
    let small: Vec<Component> = (0..3).map(|i| component(i, "IC", 1000)).collect();
    assert!(calc_project_fmeda(&small, &modes).is_ok());
}

#[test]
fn per_million_hours_overflow_is_reported() {
    let components = vec![component(0, "IC", 1 << 21)];
    let mut modes: HashMap<u128, Vec<FailureMode>> = HashMap::new();
    modes.insert(0, (0..16).map(|i| mode(i, u64::MAX, None)).collect());
    // the dangerous rate per hour, 16 * 2^64 * 10^9 * 2^21, fits; times 1000 it does not
    assert_eq!(calc_project_fmeda(&components, &modes), Err(FmedaError::Overflow));
}

#[test]
fn unit_conversions() {
    assert_eq!(NANO, 1_000_000_000);
    assert_eq!(fit_to_per_hour(15 * FIT as u128), Some(15_000_000_000_000_000_000));
    assert_eq!(fit_to_per_hour(u128::MAX / 1_000_000_000), Some(u128::MAX / NANO as u128 * NANO as u128));
    assert_eq!(fit_to_per_hour(u128::MAX / 1_000_000_000 + 1), None);
    assert_eq!(per_hour_to_fit(15_000_000_000_999_999_999), 15 * FIT as u128);
    assert_eq!(per_hour_to_fit(999_999_999), 0);
    for fit in [0u128, 1, 15 * FIT as u128, u64::MAX as u128] {
        assert_eq!(per_hour_to_fit(fit_to_per_hour(fit).unwrap()), fit);
    }
    assert_eq!(per_hour_to_per_million_hours(7), Some(7000));
    assert_eq!(per_hour_to_per_million_hours(u128::MAX / 1000 + 1), None);
}

#[test]
fn same_text_compares_characters() {
    assert!(same_text("IC", "IC"));
    assert!(!same_text("IC", "ic"));
    assert!(!same_text("IC", "ICs"));
    assert!(same_text("", ""));
}
