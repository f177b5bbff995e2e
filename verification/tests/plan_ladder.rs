use tender_supervisor::gates::keys_satellite_refusal;
use tender_supervisor::ladder::{
    edge_plan_gate, expected_plan, keys_build_start, merge_plan_record, merge_stop_message,
    r3_keys_refusal, EdgePlanStop, KeysBuildStart, ReviewedPlan,
};

const EPOCH: &str = "n2v3";

#[test]
fn the_r3_run_refuses_without_a_usable_key_satellite() {
    // 1. Empty satellite: a wet run refuses and names the WET remedy.
    let err = r3_keys_refusal(false, 0, 0, "", EPOCH).expect("empty satellite");
    assert!(err.contains("org_match_keys is empty"), "{err}");
    assert!(err.contains("\"dry_run\":false"), "the remedy must be the WET one: {err}");
    // 2. Keys present but a build is mid-walk.
    let err = r3_keys_refusal(false, 77, 1, "", EPOCH).expect("build in flight");
    assert!(err.contains("build is in flight") && err.contains("77"), "{err}");
    // 3. Watermark clear, keys under superseded semantics.
    let err = r3_keys_refusal(false, 0, 1, "", EPOCH).expect("stale keys epoch");
    assert!(err.contains("keys epoch"), "{err}");
    // 4. Epoch stamped to this binary's: the guard passes, and the wet run
    //    fails on the next precondition, the reviewed plan.
    assert_eq!(r3_keys_refusal(false, 0, 1, EPOCH, EPOCH), None);
    let err = expected_plan(ReviewedPlan::R3Merge, false, None).expect_err("no reviewed plan");
    assert!(err.contains("r3-merge-plan"), "{err}");
    // 5. A dry run plans on an empty satellite.
    assert_eq!(r3_keys_refusal(true, 0, 0, "", EPOCH), None);
    // 6. A dry run does not skip the cost guard mid-build.
    let err = r3_keys_refusal(true, 5, 1, EPOCH, EPOCH).expect("dry refuses mid-build too");
    assert!(err.contains("build is in flight"), "{err}");
    // 7. Nor a keyspace built under superseded semantics.
    let err = r3_keys_refusal(true, 0, 1, "n0v0", EPOCH).expect("dry refuses stale semantics");
    assert!(err.contains("keys epoch"), "{err}");
}

#[test]
fn r3_refusal_texts_are_exact() {
    assert_eq!(
        r3_keys_refusal(true, 9, 120, EPOCH, EPOCH).unwrap(),
        "match-org-identifiers r3 REFUSED: a key build is in flight (watermark 9); its covering \
         index does not exist yet, so the generic-name probe would full-scan 120 rows per \
         candidate and read a half-built keyspace"
    );
    assert_eq!(
        r3_keys_refusal(true, 0, 3, "n0v0", EPOCH).unwrap(),
        "match-org-identifiers r3 REFUSED: org_match_keys carries keys epoch \"n0v0\", this \
         binary's is \"n2v3\" — the generic-name wall would answer about a superseded keyspace; \
         run a WET build first: {\"kind\":\"build-org-match-keys\",\"dry_run\":false} — the \
         default is DRY and stores nothing"
    );
}

#[test]
fn a_dry_run_expects_nothing() {
    assert_eq!(expected_plan(ReviewedPlan::CountryFold, true, None), Ok(None));
    assert_eq!(expected_plan(ReviewedPlan::R2Merge, true, Some("not json")), Ok(None));
}

#[test]
fn a_wet_merge_reads_the_plan_groups() {
    assert_eq!(expected_plan(ReviewedPlan::R2Merge, false, Some(r#"{"plan_groups":42}"#)), Ok(Some(42)));
    assert_eq!(
        expected_plan(ReviewedPlan::R2Merge, false, Some(r#"{"rows":42}"#)),
        Err("r2-merge-plan lacks plan_groups".to_string())
    );
    assert_eq!(
        expected_plan(ReviewedPlan::R2Merge, false, None),
        Err("no stored r2-merge-plan — run the dry run first".to_string())
    );
    let err = expected_plan(ReviewedPlan::R3Merge, false, Some("{")).unwrap_err();
    assert!(err.contains("EOF"), "the parse error comes through: {err}");
}

#[test]
fn a_wet_repair_needs_a_dry_report_with_rows() {
    assert_eq!(
        expected_plan(ReviewedPlan::CountryFold, false, Some(r#"{"dry_run":true,"rows":7}"#)),
        Ok(Some(7))
    );
    assert_eq!(
        expected_plan(ReviewedPlan::CountryFold, false, Some(r#"{"dry_run":false,"rows":7}"#)),
        Err("the stored country-fold report is from a WET run, not a reviewed plan — run the dry pass again"
            .to_string())
    );
    assert_eq!(
        expected_plan(ReviewedPlan::MintedCountries, false, Some(r#"{"rows":7}"#)),
        Err("the stored minted-country-repair report is from a WET run, not a reviewed plan — run the dry pass again"
            .to_string())
    );
    assert_eq!(
        expected_plan(ReviewedPlan::LabelPrefixes, false, Some(r#"{"dry_run":true}"#)),
        Err("plan lacks rows".to_string())
    );
    assert_eq!(
        expected_plan(ReviewedPlan::CountryTypos, false, None),
        Err("no stored country-typo-repair plan — run the dry pass first".to_string())
    );
    assert_eq!(
        expected_plan(ReviewedPlan::MintedCountries, false, Some(r#"{"dry_run":true}"#)),
        Err("minted-country-repair plan lacks rows".to_string())
    );
}

#[test]
fn a_merge_rerecords_its_residual_unless_stopped_while_classifying() {
    assert_eq!(merge_plan_record(false, 10, 10), Some(0));
    assert_eq!(merge_plan_record(true, 10, 4), Some(6));
    assert_eq!(merge_plan_record(true, 0, 0), None);
    assert_eq!(merge_plan_record(false, 0, 0), Some(0));
}

#[test]
fn stopped_merges_say_how_far_they_got() {
    assert_eq!(
        merge_stop_message(false, 0, 0),
        "match-org-identifiers r2 STOPPED during classification: nothing was planned or written, \
         and the previously recorded plan was left untouched"
    );
    assert_eq!(
        merge_stop_message(true, 12, 5),
        "match-org-identifiers r3 STOPPED at a checkpoint: 5 of 12 plan candidates merged before \
         the stop; the residual plan was re-recorded, so a re-run continues under parity"
    );
    assert_eq!(
        merge_stop_message(false, 3, 1),
        "match-org-identifiers r2 STOPPED at a checkpoint: 1 of 3 plan groups merged before the \
         stop; the residual plan was re-recorded, so a re-run continues under parity"
    );
}

#[test]
fn a_key_build_resumes_only_under_its_own_epoch() {
    assert_eq!(keys_build_start(true, 50, EPOCH, EPOCH), KeysBuildStart::Dry);
    assert_eq!(keys_build_start(false, 50, EPOCH, EPOCH), KeysBuildStart::Resume(50));
    assert_eq!(keys_build_start(false, 50, "n0v0", EPOCH), KeysBuildStart::Reset { epoch_changed: true });
    assert_eq!(keys_build_start(false, 0, EPOCH, EPOCH), KeysBuildStart::Reset { epoch_changed: false });
}

fn refused(s: &str) -> Result<Option<u64>, EdgePlanStop> {
    Err(EdgePlanStop::Refused(s.to_string()))
}

#[test]
fn an_edge_scan_needs_the_build_report_and_a_plan_of_that_build() {
    let build = Some(r#"{"built_at":1700,"rows":12}"#);
    assert_eq!(
        edge_plan_gate(true, None, None),
        refused("scan-org-match-keys refused: no org-match-keys-build report — run build-org-match-keys (wet) first")
    );
    assert_eq!(edge_plan_gate(true, Some(r#"{"rows":12}"#), None), refused("org-match-keys-build lacks built_at"));
    assert!(matches!(edge_plan_gate(true, Some("nope"), None), Err(EdgePlanStop::Unreadable(_))));
    assert_eq!(edge_plan_gate(true, build, None), Ok(None));
    assert_eq!(
        edge_plan_gate(false, build, None),
        refused("no stored org-edge-scan-plan — run the dry scan first")
    );
    assert_eq!(
        edge_plan_gate(false, build, Some(r#"{"keys_built_at":1600,"bounds_ok":true,"would_emit":5}"#)),
        refused("org-edge-scan-plan predates the current keys build — rerun the dry scan and review it")
    );
    assert_eq!(
        edge_plan_gate(false, build, Some(r#"{"keys_built_at":1700,"bounds_ok":false,"would_emit":5}"#)),
        refused("org-edge-scan-plan bounds_ok is false — an out-of-bounds census means the semantics are wrong; re-plan, there is no override")
    );
    assert_eq!(
        edge_plan_gate(false, build, Some(r#"{"keys_built_at":1700,"bounds_ok":true}"#)),
        refused("org-edge-scan-plan lacks would_emit")
    );
    assert_eq!(
        edge_plan_gate(false, build, Some(r#"{"keys_built_at":1700,"bounds_ok":true,"would_emit":5}"#)),
        Ok(Some(5))
    );
}

#[test]
fn scan_org_match_keys_run_path_refusals_and_report_lifecycle() {
    // 1. No covering index: the remedy is the wet build.
    let err = keys_satellite_refusal("scan-org-match-keys", false, 0, EPOCH, EPOCH).expect("no index");
    assert!(err.contains("org_match_keys_kk"), "{err}");
    // 2. Index present but the stored keys epoch is not this binary's.
    let err = keys_satellite_refusal("scan-org-match-keys", true, 0, "", EPOCH).expect("epoch mismatch");
    assert!(err.contains("epoch"), "{err}");
    // 3. Epoch stamped and index rebuilt, but no completed build report.
    assert_eq!(keys_satellite_refusal("scan-org-match-keys", true, 0, EPOCH, EPOCH), None);
    match edge_plan_gate(true, None, None) {
        Err(EdgePlanStop::Refused(err)) => assert!(err.contains("org-match-keys-build"), "{err}"),
        other => panic!("no build report must refuse: {other:?}"),
    }
    // 4. Build report present: a wet run still refuses without the reviewed
    //    dry plan.
    let build = Some("{\"built_at\":123}");
    match edge_plan_gate(false, build, None) {
        Err(EdgePlanStop::Refused(err)) => assert!(err.contains("org-edge-scan-plan"), "{err}"),
        other => panic!("wet needs the plan: {other:?}"),
    }
    // 5. A dry run goes ahead.
    assert_eq!(edge_plan_gate(true, build, None), Ok(None));
    // 8. A keys rebuild after the plan was recorded: wet refuses on lineage.
    let plan = Some("{\"keys_built_at\":123,\"bounds_ok\":true,\"would_emit\":0}");
    assert_eq!(edge_plan_gate(false, build, plan), Ok(Some(0)));
    match edge_plan_gate(false, Some("{\"built_at\":456}"), plan) {
        Err(EdgePlanStop::Refused(err)) => assert!(err.contains("predates"), "{err}"),
        other => panic!("stale plan: {other:?}"),
    }
}
