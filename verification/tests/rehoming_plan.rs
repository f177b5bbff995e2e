use tender_supervisor::rehoming::{rehoming_plan, rehoming_summary, RehomingReport};

#[test]
fn a_wet_rehoming_reads_the_move_list_with_gaps_filled() {
    let body = r#"{"pending":3,"plan":[{"notice":10,"section":"ORG-1","from":4,"to":5,"target_name":"X"},{"section":"ORG-2","to":6},{"notice":12,"from":7,"to":8}]}"#;
    assert_eq!(
        rehoming_plan(false, Some(body)),
        Ok(Some(vec![
            (10, "ORG-1".to_owned(), 4, 5),
            (-1, "ORG-2".to_owned(), -1, 6),
            (12, String::new(), 7, 8),
        ]))
    );
}

#[test]
fn a_wet_rehoming_without_a_move_list_is_refused() {
    assert_eq!(rehoming_plan(true, None), Ok(None));
    assert_eq!(
        rehoming_plan(false, None),
        Err("no stored rehoming-plan — run the dry pass first".to_owned())
    );
    assert_eq!(rehoming_plan(false, Some(r#"{"pending":0}"#)), Err("plan lacks moves".to_owned()));
    assert!(rehoming_plan(false, Some("{,")).is_err());
}

fn report() -> RehomingReport {
    RehomingReport {
        pending: 5,
        eligible: 4,
        moved: 3,
        parties: 2,
        bid_parties: 1,
        tenders: 6,
        refold_notices: 7,
        noop: 1,
        missing_target: 0,
    }
}

#[test]
fn a_dry_rehoming_line_names_what_the_wet_run_will_requeue() {
    assert_eq!(
        rehoming_summary(true, &report()),
        "apply-rehoming (issue 317 Unit A) DRY RUN — plan recorded, nothing written: 5 pending \
         verdicts, 4 eligible; 3 mentions would move (2 party and 1 bid-party rows follow them \
         across 6 tenders, whose causing notices the wet run will re-queue so the fold re-derives \
         the winners); 1 no-ops, 0 name a target org that does not exist or no target at all (v1 \
         never mints one)"
    );
    assert_eq!(
        rehoming_summary(false, &report()),
        "apply-rehoming (issue 317 Unit A): 5 pending verdicts, 4 eligible; 3 mentions moved (2 \
         party and 1 bid-party rows follow them across 6 tenders, whose 7 notices are re-queued \
         so the fold re-derives the winners); 1 no-ops, 0 name a target org that does not exist \
         or no target at all (v1 never mints one)"
    );
}
