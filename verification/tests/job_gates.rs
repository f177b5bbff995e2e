use tender_supervisor::gates::{
    clear_flag_gate, dq_dry_run_message, edge_tripwire, job_log_depth, keys_satellite_refusal,
    project_route, refold_guard, sibling_count_check, sibling_gap_gate, JOB_LOG_MAX, RECENT_RUNS,
};

#[test]
fn an_execute_without_an_expected_count_is_refused() {
    let err = sibling_gap_gate(false, None, None, 10, 0, 0).unwrap_err();
    assert!(err.contains("requires an explicit `expect`"), "the refusal must say what is missing, got: {err}");
    assert!(sibling_gap_gate(true, None, None, 10, 0, 0).unwrap().is_some(), "a dry run needs no expectation");
}

#[test]
fn naming_an_expected_gap_count_still_refuses_a_different_one() {
    let err = sibling_gap_gate(false, Some(10), Some(154), 10, 100, 55).unwrap_err();
    assert!(err.contains("expected exactly 154"), "the refusal must name both the found and expected gap counts, got: {err}");
    assert!(err.contains("rejects 155"), "{err}");
    assert!(err.contains("held-but-unextracted"), "the rejected rows are held-but-unextracted, not lost: {err}");
    assert!(!err.contains("data loss"));
    assert_eq!(sibling_gap_gate(false, Some(10), Some(154), 10, 100, 54).unwrap(), None);
    assert_eq!(sibling_gap_gate(false, Some(10), None, 10, 0, 0).unwrap(), None, "no named gaps means none");
}

#[test]
fn the_sibling_count_must_match_what_was_named() {
    assert!(sibling_count_check(None, 5).is_ok());
    assert!(sibling_count_check(Some(5), 5).is_ok());
    let err = sibling_count_check(Some(6), 5).unwrap_err();
    assert!(err.starts_with("mark-skipped-siblings aborted: 5 rows match, expected exactly 6 (nothing was written)."), "{err}");
}

#[test]
fn a_dry_sibling_run_reports_both_counts() {
    let msg = sibling_gap_gate(true, None, None, 592_856, 100, 54).unwrap().unwrap();
    assert!(msg.starts_with("dry run: 592856 rows would be marked skipped-by-policy; 154 in scope REJECTED by the sibling guard (100 with NO English original"), "{msg}");
    assert!(msg.contains("54 whose original is held but did not parse"), "{msg}");
}

#[test]
fn the_key_satellite_must_be_indexed_finished_and_current() {
    let r = keys_satellite_refusal("rehoming-packet", false, 0, "e1", "e1").unwrap();
    assert_eq!(r, "rehoming-packet refused: no org_match_keys_kk index — run build-org-match-keys (wet) first");
    let r = keys_satellite_refusal("scan-org-match-keys", true, 77, "e1", "e1").unwrap();
    assert_eq!(r, "scan-org-match-keys refused: keys build in flight (watermark 77) — let it finish or rerun build-org-match-keys");
    let r = keys_satellite_refusal("scan-org-match-keys", true, 0, "e0", "e1").unwrap();
    assert_eq!(r, "scan-org-match-keys refused: keys built under epoch \"e0\", this binary keys under \"e1\" — rerun build-org-match-keys (wet) first");
    assert!(keys_satellite_refusal("scan-org-match-keys", true, 0, "e1", "e1").is_none());
}

#[test]
fn an_interrupted_rebuild_is_finished_whatever_the_job_asks() {
    assert_eq!(project_route(false, false, false), (false, false));
    assert_eq!(project_route(false, true, false), (false, false), "clear_changes needs a whole-corpus fold");
    assert_eq!(project_route(false, true, true), (true, true));
    assert_eq!(project_route(true, false, false), (false, true));
}

#[test]
fn a_stale_rebuild_flag_is_cleared_only_over_an_intact_layer() {
    assert_eq!(clear_flag_gate(false, false).unwrap(), (false, "rebuild_in_progress was already clear — nothing to do".to_owned()));
    assert!(clear_flag_gate(true, false).unwrap_err().contains("genuinely mid-flight"));
    assert!(clear_flag_gate(true, true).unwrap().0);
}

#[test]
fn capped_and_stopped_runs_never_touch_tripwire_6() {
    assert!(edge_tripwire(true, false, 100, 50, 10, None, 5, 15_000_000).is_none());
    assert!(edge_tripwire(false, true, 100, 50, 10, None, 5, 15_000_000).is_none());
    let (alarm, line) = edge_tripwire(false, false, 42, 45, 45, Some(10), 0, 15_000_000).unwrap();
    assert_eq!((alarm, line.as_str()), (None, ""), "healthy run: no message suffix");
    let (alarm, line) = edge_tripwire(false, false, 124, 123, 130, None, 100, 15_000_000).unwrap();
    assert_eq!(alarm, Some("SHRUNK"));
    assert_eq!(line, "; TRIPWIRE 6 SHRUNK (baseline 124)");
}

#[test]
fn the_job_log_depth_is_reachable_and_clamped() {
    for (ask, got) in [(1i64, 1i64), (50, 50), (JOB_LOG_MAX, JOB_LOG_MAX), (JOB_LOG_MAX * 10, JOB_LOG_MAX), (0, 1), (-7, 1)] {
        assert_eq!(job_log_depth(ask), got);
    }
    assert!(JOB_LOG_MAX > RECENT_RUNS, "the cap must exceed the default to be worth asking for");
}

#[test]
fn a_data_quality_dry_run_reports_the_plan_and_measures_nothing() {
    let plan = dq_dry_run_message(0, 0, 11, &vec![], &vec![]);
    assert!(plan.starts_with("DRY RUN — STORED NOTHING"), "{plan}");
    assert!(plan.contains("{\"dry_run\": false}"), "the line must carry the enqueue fix: {plan}");
    assert!(plan.contains("0 window(s)"), "an empty corpus plans no windows: {plan}");
    assert!(plan.ends_with("; every label is windowed or whole-corpus"), "{plan}");
    let plan = dq_dry_run_message(32, 7_900_000, 11, &vec!["quarantine".into(), "gaps".into()], &vec!["awards".into()]);
    assert_eq!(
        plan,
        "DRY RUN — STORED NOTHING (enqueue with {\"dry_run\": false} to measure): would measure 32 window(s) of 250000 ids up to tender_id 7900000, 11 queries each (352 statements), plus 2 whole-corpus statement(s) run once (quarantine,gaps); unmeasured, no windowing: awards"
    );
}

#[test]
fn a_derived_refold_stops_when_its_cohort_is_off_by_more_than_a_quarter() {
    let names = vec!["eforms:de-1.1".to_owned(), "ted:r2".to_owned()];
    assert!(refold_guard(5_000_000, None, &names, false).is_ok(), "no expectation, no guard");
    assert!(refold_guard(125, Some(100), &names, false).is_ok());
    assert!(refold_guard(75, Some(100), &names, false).is_ok());
    assert_eq!(
        refold_guard(126, Some(100), &names, false).unwrap_err(),
        "refold aborted: 126 notices match [\"eforms:de-1.1\", \"ted:r2\"], expected ~100 — check the profile strings (nothing was written)"
    );
    assert_eq!(
        refold_guard(0, Some(3), &vec!["BT-1".to_owned()], true).unwrap_err(),
        "refold-fields aborted: 0 notices carry [\"BT-1\"], expected ~3 — check the field ids (nothing was written)"
    );
}

#[test]
fn daily_project_job_is_incremental_while_rebuild_is_full() {
    assert_eq!(project_route(true, false, false), (false, true), "a rebuild folds the whole corpus");
    assert_eq!(project_route(false, false, false), (false, false), "the daily job is incremental");
}

#[test]
fn a_recovered_job_resumes_an_interrupted_rebuild_even_when_not_a_rebuild() {
    assert_eq!(project_route(false, false, true), (false, true), "the in-progress flag makes a rebuild:false job resume the full fold");
}

#[test]
fn a_complete_plan_without_the_flag_does_not_re_salvage() {
    assert_eq!(project_route(false, false, false), (false, false), "without the flag the recovered job stays incremental");
}
