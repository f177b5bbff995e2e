use tender_supervisor::drops::{drop_end, drop_plan, DropEnd, DropReport};

#[test]
fn the_drop_plan_json_round_trips_into_the_wet_arms_tuples() {
    // Exactly what the dry arm stores.
    let body = r#"{"candidates":2,"rows":[{"org":9610149,"org_name":"Bietergemeinschaft Dobler / Oberall","lang":"DEU","name":"Dobler GmbH & Co.KG Bauunternehmung","key":"dobler gmbh co kg bauunternehmung","target":1711879,"target_name":"Dobler GmbH & Co. KG Bauunternehmung"},{"org":22197923,"org_name":"Bietergemeinschaft IG WEPAE","lang":"FRA","name":"AMBERG ENGINEERING","key":"amberg engineering","target":null,"target_name":null}]}"#;

    // Exactly what the wet arm parses.
    let plan = drop_plan(false, Some(body)).expect("parses").expect("a wet run has a plan");

    assert_eq!(plan.len(), 2, "a null target must not drop its whole tuple");
    assert_eq!(
        plan[0],
        (
            9610149,
            "DEU".to_owned(),
            "dobler gmbh co kg bauunternehmung".to_owned(),
            Some(1711879)
        )
    );
    assert_eq!(
        plan[1],
        (22197923, "FRA".to_owned(), "amberg engineering".to_owned(), None)
    );
}

#[test]
fn rows_missing_an_org_a_lang_or_a_key_leave_the_plan() {
    let body = r#"{"rows":[{"org":1,"lang":"DEU"},{"lang":"DEU","key":"k"},{"org":2,"lang":"ITA","key":"k2","target":5}]}"#;
    assert_eq!(drop_plan(false, Some(body)), Ok(Some(vec![(2, "ITA".to_owned(), "k2".to_owned(), Some(5))])));
    assert_eq!(drop_plan(false, Some("{}")), Ok(Some(vec![])));
    assert_eq!(drop_plan(false, Some(r#"{"rows":"none"}"#)), Ok(Some(vec![])));
    assert_eq!(drop_plan(true, None), Ok(None));
    assert_eq!(
        drop_plan(false, None),
        Err("drop-orphan-satellites --wet REFUSED: no dry plan on record. Run the dry pass first — the tuple parity between plan and run is half of what makes this safe.".to_owned())
    );
    assert!(drop_plan(false, Some("[")).is_err());
}

fn report() -> DropReport {
    DropReport {
        stopped: false,
        no_plan: false,
        drifted: false,
        plan_added: vec![],
        plan_removed: vec![],
        candidates: 4,
        dropped: 3,
        skipped_recheck: 1,
        stale_keys: 2,
        cancelled: false,
    }
}

#[test]
fn a_drifted_plan_is_refused_with_its_first_differences() {
    let mut r = report();
    r.drifted = true;
    r.plan_added = vec![(7, "DEU".to_owned(), "k".to_owned(), None)];
    match drop_end(false, 9, &r) {
        DropEnd::Refused(s) => assert_eq!(
            s,
            "drop-orphan-satellites --wet REFUSED: the plan drifted. 1 tuple(s) appeared since the dry run and 0 went away — first added Some((7, \"DEU\", \"k\", None)), first gone None. Re-run the dry pass and read it before the wet one; a count would not have shown this."
        ),
        _ => panic!("drift refuses"),
    }
}

#[test]
fn a_drop_run_reports_by_how_it_ended() {
    let mut r = report();
    assert!(matches!(drop_end(true, 9, &r), DropEnd::Planned(s) if s.starts_with("drop-orphan-satellites DRY (issue 321): 4 variant(s)")));
    match drop_end(false, 9, &r) {
        DropEnd::Ran(s) => assert_eq!(
            s,
            "drop-orphan-satellites WET (issue 321): 4 candidate(s) matched the recorded plan exactly; dropped 3, skipped 1 on the in-transaction re-check. Pre-images in org_name_drops — restore-dropped-satellites puts every one back. 2 org_match_keys row(s) still carry a dropped key; the next build-org-match-keys clears them."
        ),
        _ => panic!("a wet run runs"),
    }
    r.cancelled = true;
    assert!(matches!(drop_end(false, 9, &r), DropEnd::Ran(s) if s.contains("restore-dropped-satellites with job 9 to undo it.")));
    r.no_plan = true;
    assert!(matches!(drop_end(false, 9, &r), DropEnd::Refused(_)));
    r.stopped = true;
    assert!(matches!(drop_end(false, 9, &r), DropEnd::Stopped(s) if s == "drop-orphan-satellites STOPPED by cancel — nothing written"));
}
