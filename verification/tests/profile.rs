use fmeda_engine::errors::FmedaError;
use fmeda_engine::models::{
    collect_complete_pairs, MissionProfile, SegmentEntry, TempTauProfile,
};
use fmeda_engine::profile::{
    extract_temp_tau_pairs, resolve_profile, total_weight, ResolvedProfile,
};

fn entry(temperature: Option<i64>, tau: Option<u64>) -> SegmentEntry {
    SegmentEntry { temperature, tau }
}

fn blank() -> TempTauProfile {
    TempTauProfile { segments: None, temperature: None, tau: None, points: None }
}

fn mission(temp_tau_profile: TempTauProfile) -> MissionProfile {
    MissionProfile {
        id: 11,
        name: "city".to_string(),
        description: Some("urban driving".to_string()),
        temp_tau_profile,
        reference_temp: Some(40_000),
        operating_temp: None,
    }
}

#[test]
fn segments_are_read_in_order() {
    let doc = TempTauProfile {
        segments: Some(vec![
            entry(Some(85_000), Some(3)),
            entry(Some(-40_000), Some(1)),
            entry(Some(25_000), Some(6)),
        ]),
        ..blank()
    };
    assert_eq!(extract_temp_tau_pairs(&doc), vec![(85_000, 3), (-40_000, 1), (25_000, 6)]);
}

#[test]
fn incomplete_segments_are_skipped() {
    let doc = TempTauProfile {
        segments: Some(vec![
            entry(Some(85_000), None),
            entry(Some(-40_000), Some(1)),
            entry(None, Some(6)),
            entry(None, None),
            entry(Some(0), Some(0)),
        ]),
        ..blank()
    };
    assert_eq!(extract_temp_tau_pairs(&doc), vec![(-40_000, 1), (0, 0)]);
}

#[test]
fn segments_take_precedence_over_columns() {
    let doc = TempTauProfile {
        segments: Some(vec![entry(Some(1), Some(2))]),
        temperature: Some(vec![Some(3), Some(4)]),
        tau: Some(vec![Some(5), Some(6)]),
        points: Some(vec![entry(Some(7), Some(8))]),
    };
    assert_eq!(extract_temp_tau_pairs(&doc), vec![(1, 2)]);
    let empty = TempTauProfile { segments: Some(vec![]), ..doc };
    assert_eq!(extract_temp_tau_pairs(&empty), vec![]);
}

#[test]
fn columns_are_read_side_by_side() {
    let doc = TempTauProfile {
        temperature: Some(vec![Some(25_000), Some(60_000), Some(85_000)]),
        tau: Some(vec![Some(10), Some(20), Some(30)]),
        ..blank()
    };
    assert_eq!(extract_temp_tau_pairs(&doc), vec![(25_000, 10), (60_000, 20), (85_000, 30)]);
}

#[test]
fn columns_stop_at_the_shorter_one() {
    let doc = TempTauProfile {
        temperature: Some(vec![Some(25_000), Some(60_000), Some(85_000)]),
        tau: Some(vec![Some(10), Some(20)]),
        ..blank()
    };
    assert_eq!(extract_temp_tau_pairs(&doc), vec![(25_000, 10), (60_000, 20)]);
    let doc = TempTauProfile {
        temperature: Some(vec![Some(25_000)]),
        tau: Some(vec![Some(10), Some(20), Some(30)]),
        ..blank()
    };
    assert_eq!(extract_temp_tau_pairs(&doc), vec![(25_000, 10)]);
    let doc = TempTauProfile { temperature: Some(vec![]), tau: Some(vec![Some(1)]), ..blank() };
    assert_eq!(extract_temp_tau_pairs(&doc), vec![]);
}

#[test]
fn column_rows_without_a_number_are_skipped() {
    let doc = TempTauProfile {
        temperature: Some(vec![Some(1), None, Some(3), Some(4)]),
        tau: Some(vec![Some(10), Some(20), None, Some(40)]),
        ..blank()
    };
    assert_eq!(extract_temp_tau_pairs(&doc), vec![(1, 10), (4, 40)]);
}

#[test]
fn one_column_alone_gives_no_pairs() {
    let doc = TempTauProfile { temperature: Some(vec![Some(1)]), ..blank() };
    assert_eq!(extract_temp_tau_pairs(&doc), vec![]);
    let doc = TempTauProfile { tau: Some(vec![Some(1)]), ..blank() };
    assert_eq!(extract_temp_tau_pairs(&doc), vec![]);
    assert_eq!(extract_temp_tau_pairs(&blank()), vec![]);
}

#[test]
fn points_are_not_read_by_the_resolver() {
    let doc = TempTauProfile { points: Some(vec![entry(Some(7), Some(8))]), ..blank() };
    assert_eq!(extract_temp_tau_pairs(&doc), vec![]);
    assert_eq!(resolve_profile(&mission(doc)), Err(FmedaError::DegenerateProfile));
}

#[test]
fn parse_temp_tau_profile_reads_points() {
    let doc = TempTauProfile {
        segments: Some(vec![entry(Some(1), Some(2))]),
        points: Some(vec![
            entry(Some(25_000), Some(500)),
            entry(None, Some(1)),
            entry(Some(85_000), Some(500)),
            entry(Some(3), None),
        ]),
        ..blank()
    };
    assert_eq!(mission(doc).parse_temp_tau_profile(), vec![(25_000, 500), (85_000, 500)]);
    let doc = TempTauProfile { segments: Some(vec![entry(Some(1), Some(2))]), ..blank() };
    assert_eq!(mission(doc).parse_temp_tau_profile(), vec![]);
}

#[test]
fn collect_complete_pairs_keeps_complete_entries() {
    assert_eq!(collect_complete_pairs(&vec![]), vec![]);
    assert_eq!(
        collect_complete_pairs(&vec![entry(Some(i64::MIN), Some(u64::MAX)), entry(None, None)]),
        vec![(i64::MIN, u64::MAX)]
    );
}

#[test]
fn total_weight_sums_the_weights() {
    assert_eq!(total_weight(&vec![]), 0);
    assert_eq!(total_weight(&vec![(1, 2), (3, 4), (5, 6)]), 12);
    assert_eq!(total_weight(&vec![(0, u64::MAX), (0, u64::MAX), (0, 2)]), 2 * u64::MAX as u128 + 2);
}

#[test]
fn resolved_profile_holds_pairs_and_weight_sum() {
    let doc = TempTauProfile {
        segments: Some(vec![entry(Some(25_000), Some(500)), entry(Some(85_000), Some(1500))]),
        ..blank()
    };
    let r = resolve_profile(&mission(doc)).unwrap();
    assert_eq!(r.segments, vec![(25_000, 500), (85_000, 1500)]);
    assert_eq!(r.total_weight, 2000);
}

#[test]
fn profile_without_segments_is_degenerate() {
    assert_eq!(resolve_profile(&mission(blank())), Err(FmedaError::DegenerateProfile));
    let doc = TempTauProfile { segments: Some(vec![]), ..blank() };
    assert_eq!(resolve_profile(&mission(doc)), Err(FmedaError::DegenerateProfile));
    let doc = TempTauProfile { segments: Some(vec![entry(None, Some(5))]), ..blank() };
    assert_eq!(resolve_profile(&mission(doc)), Err(FmedaError::DegenerateProfile));
}

#[test]
fn profile_with_zero_weights_is_degenerate() {
    let doc = TempTauProfile {
        segments: Some(vec![entry(Some(25_000), Some(0)), entry(Some(85_000), Some(0))]),
        ..blank()
    };
    assert_eq!(resolve_profile(&mission(doc)), Err(FmedaError::DegenerateProfile));
    let doc = TempTauProfile {
        segments: Some(vec![entry(Some(25_000), Some(0)), entry(Some(85_000), Some(1))]),
        ..blank()
    };
    assert!(resolve_profile(&mission(doc)).is_ok());
}

#[test]
fn resolved_profile_well_formedness() {
    let ok = ResolvedProfile { segments: vec![(25_000, 2), (85_000, 3)], total_weight: 5 };
    assert!(ok.is_well_formed());
    let wrong_sum = ResolvedProfile { segments: vec![(25_000, 2), (85_000, 3)], total_weight: 6 };
    assert!(!wrong_sum.is_well_formed());
    let empty = ResolvedProfile { segments: vec![], total_weight: 0 };
    assert!(!empty.is_well_formed());
    let zero = ResolvedProfile { segments: vec![(25_000, 0)], total_weight: 0 };
    assert!(!zero.is_well_formed());
}
