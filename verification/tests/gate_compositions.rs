use tender_supervisor::calendar::{
    berlin_tick_on, days_from_civil, next_berlin_tick, next_berlin_tick_checked, tick_computable,
    today_tick_computable,
};
use tender_supervisor::gates::{dq_early_answer, edge_tripwire_writes, sibling_gates};
use tender_supervisor::walks::{process_nothing_to_do, ProcessTotals};

#[test]
fn the_sibling_gates_mark_only_an_execute_that_matches_both_counts() {
    assert_eq!(sibling_gates(false, Some(10), None, 10, 0, 0), Ok(None));
    assert_eq!(sibling_gates(false, Some(10), Some(3), 10, 1, 2), Ok(None));
    let err = sibling_gates(false, Some(9), None, 10, 0, 0).unwrap_err();
    assert!(err.starts_with("mark-skipped-siblings aborted: 10 rows match, expected exactly 9"), "{err}");
    let err = sibling_gates(true, Some(9), None, 10, 0, 0).unwrap_err();
    assert!(err.starts_with("mark-skipped-siblings aborted: 10 rows match"), "the count check runs first, dry or not: {err}");
    let dry = sibling_gates(true, Some(10), None, 10, 1, 2).unwrap().unwrap();
    assert!(dry.starts_with("dry run: 10 rows would be marked skipped-by-policy; 3 in scope REJECTED"), "{dry}");
    assert!(sibling_gates(true, None, None, 10, 0, 0).unwrap().is_some(), "a dry run never marks");
    let err = sibling_gates(false, None, None, 10, 0, 0).unwrap_err();
    assert!(err.starts_with("mark-skipped-siblings aborted: an execute requires an explicit `expect`"), "{err}");
    let err = sibling_gates(false, Some(10), None, 10, 1, 0).unwrap_err();
    assert!(err.starts_with("mark-skipped-siblings aborted: the sibling guard rejects 1 in-scope rows, expected exactly 0"), "{err}");
}

#[test]
fn data_quality_stops_early_only_for_a_dry_run_or_nothing_to_measure() {
    let whole = vec!["identity".to_owned()];
    let none: Vec<String> = vec![];
    assert_eq!(
        dq_early_answer(true, 0, 0, 7, &whole, &none).as_deref(),
        Some("data quality: no tender versions to measure")
    );
    assert_eq!(dq_early_answer(true, 3, 150_000, 7, &whole, &none), None);
    let dry = dq_early_answer(false, 0, 0, 7, &whole, &none).unwrap();
    assert!(dry.starts_with("DRY RUN — STORED NOTHING"), "{dry}");
}

#[test]
fn process_answers_for_an_empty_walk_and_adds_package_reports() {
    assert_eq!(process_nothing_to_do(0).as_deref(), Some("no packages to process"));
    assert_eq!(process_nothing_to_do(2), None);
    let mut t = ProcessTotals::new();
    let one = ProcessTotals { members: 3, notices: 2, parsed: 2, parse_quarantined: 0, quarantined: 1, duplicates: 0 };
    let two = ProcessTotals { members: 5, notices: 4, parsed: 3, parse_quarantined: 1, quarantined: 0, duplicates: 2 };
    t.add(&one);
    t.add(&two);
    assert_eq!((t.members, t.notices, t.parsed, t.parse_quarantined, t.quarantined, t.duplicates), (8, 6, 5, 1, 1, 2));
}

#[test]
fn the_tripwire_writes_the_verdict_and_moves_the_baseline() {
    let (body, baseline) = edge_tripwire_writes(None, 42, 42, 45, 1_000);
    assert_eq!(body, r#"{"at":1000,"clear":true,"total":45}"#);
    assert_eq!(baseline, 45);
    let (body, baseline) = edge_tripwire_writes(Some("SHRUNK"), 100, 90, 95, 7);
    assert_eq!(body, r#"{"alarm":"SHRUNK","at":7,"baseline_before":100,"edges_before_run":90,"total":95}"#);
    assert_eq!(baseline, 95);
}

#[test]
fn the_checked_tick_agrees_with_the_plain_one_and_refuses_out_of_range() {
    let midnight = days_from_civil(2026, 3, 2) * 86_400;
    assert_eq!(next_berlin_tick_checked(midnight, 9, 35), Some(next_berlin_tick(midnight, 9, 35)));
    assert_eq!(next_berlin_tick_checked(i64::MAX, 9, 35), None);
    assert_eq!(next_berlin_tick_checked(midnight, -1_000, 0), None, "a tick always in the past never comes");
    let day = days_from_civil(2026, 3, 2);
    assert!(tick_computable(day, 9, 35));
    assert_eq!(berlin_tick_on(day, 9, 35), midnight + 9 * 3_600 + 35 * 60 - 3_600);
    assert!(!tick_computable(day, i64::MAX, 0));
    assert!(today_tick_computable(midnight));
    assert!(!today_tick_computable(i64::MAX));
}
