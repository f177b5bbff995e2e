use tender_supervisor::alarms::{edge_alarm, parser_vs_stock_alarms, wall_suffix, PvsBaseline, WallCounts};

/// The edge-volume ceiling the store uses, an order of magnitude over the first
/// full census.
const CEILING: u64 = 15_000_000;

#[test]
fn edge_alarm_ladder() {
    assert_eq!(edge_alarm(0, 0, 1_498_485, 1_498_485, CEILING), None, "the first anchor is not a spike");
    assert_eq!(edge_alarm(1_000_000, 1_000_000, 1_010_000, 1_000_000, CEILING), None, "weekly drift is quiet");
    assert_eq!(
        edge_alarm(100, 99, 200, 1_000, CEILING),
        Some("SHRUNK"),
        "a deletion between runs shows in the before-count even though the run re-covered it"
    );
    assert_eq!(
        edge_alarm(0, 0, CEILING as i64 + 1, u64::MAX / 4, CEILING),
        Some("SPIKE"),
        "past the order-of-magnitude ceiling"
    );
    assert_eq!(edge_alarm(1_000, 1_000, 3_001, 1_000, CEILING), Some("SPIKE"), "more than twice the reviewed plan");
}

#[test]
fn edge_alarm_reads_a_zero_plan_as_one() {
    assert_eq!(edge_alarm(0, 0, 2, 0, CEILING), None);
    assert_eq!(edge_alarm(0, 0, 3, 0, CEILING), Some("SPIKE"));
    assert_eq!(edge_alarm(10, 10, 5, 0, CEILING), None, "a lower total is no growth");
}

fn base() -> PvsBaseline {
    PvsBaseline { no_longer_vat: Some(7), vat_country_differs: Some(1) }
}

#[test]
fn parser_vs_stock_alarms_need_a_baseline_and_a_real_jump() {
    let b = base();
    assert!(parser_vs_stock_alarms(Some(&b), 7, 1, 0, 0).is_empty());
    assert!(parser_vs_stock_alarms(Some(&b), 32, 1, 0, 0).is_empty());
    assert_eq!(parser_vs_stock_alarms(Some(&b), 33, 1, 0, 0).len(), 1);
    assert!(parser_vs_stock_alarms(Some(&b), 20, 12, 0, 0).is_empty());

    let a = parser_vs_stock_alarms(Some(&b), 218, 1, 0, 0);
    assert_eq!(a.len(), 1, "{a:?}");
    assert!(a[0].contains("no_longer_vat 7 -> 218"), "{a:?}");

    let bb = parser_vs_stock_alarms(Some(&b), 7, 4206, 0, 0);
    assert_eq!(bb.len(), 1, "{bb:?}");
    assert!(bb[0].contains("vat_country_differs 1 -> 4206"), "{bb:?}");

    let c = parser_vs_stock_alarms(Some(&b), 7, 1, 1, 0);
    assert_eq!(c.len(), 1, "{c:?}");
    assert!(c[0].contains("floor is 0"), "{c:?}");

    assert!(parser_vs_stock_alarms(None, 999_999, 999_999, 0, 0).is_empty());
    assert_eq!(parser_vs_stock_alarms(None, 0, 0, 3, 0).len(), 1);

    let old = PvsBaseline { no_longer_vat: None, vat_country_differs: None };
    assert!(parser_vs_stock_alarms(Some(&old), 7, 1, 0, 0).is_empty());

    let g = parser_vs_stock_alarms(Some(&b), 7, 1, 0, 1);
    assert_eq!(g.len(), 1, "{g:?}");
    assert!(g[0].contains("gln_shared_one_country"), "{g:?}");
    assert!(g[0].contains("merge path that has opened"), "{g:?}");
    assert!(parser_vs_stock_alarms(Some(&b), 7, 1, 0, 0).is_empty());
    assert!(parser_vs_stock_alarms(None, 0, 0, 0, 2).len() == 1, "no baseline needed");

    assert!(parser_vs_stock_alarms(Some(&b), 0, 0, 0, 0).is_empty());
}

#[test]
fn parser_vs_stock_alarm_lines_are_exact_and_ordered() {
    let big = PvsBaseline { no_longer_vat: Some(1_000), vat_country_differs: Some(500) };
    let a = parser_vs_stock_alarms(Some(&big), 1_101, 551, 2, 3);
    assert_eq!(
        a,
        vec![
            "no_longer_vat 1000 -> 1101".to_owned(),
            "vat_country_differs 500 -> 551".to_owned(),
            "vat_refused 2 (floor is 0)".to_owned(),
            "gln_shared_one_country 3 (floor is 0 — a shared Austrian GLN under ONE country is a merge path that has opened)".to_owned(),
        ]
    );
    // The tolerance is a tenth of the floor once that is above 25.
    assert!(parser_vs_stock_alarms(Some(&big), 1_100, 550, 0, 0).is_empty());
}

fn counts(resolved: bool, enabled: bool, anchor_reached: u64, asked: u64, denied: u64, errored: u64) -> WallCounts {
    WallCounts { resolved, enabled, anchor_reached, asked, denied, errored }
}

#[test]
fn the_wall_suffix_tells_a_no_op_run_apart_from_a_disabled_wall() {
    let disabled = "wall DISABLED this run";

    let quiet = counts(false, false, 0, 0, 0, 0);
    assert_eq!(wall_suffix(&quiet), "", "a fold with nothing to project must say nothing about a wall it never consulted");

    let off = counts(true, false, 0, 0, 0, 0);
    assert!(wall_suffix(&off).contains(disabled), "a genuinely switched-off wall must stay loud: {}", wall_suffix(&off));

    let armed = counts(true, true, 0, 0, 0, 0);
    assert_eq!(wall_suffix(&armed), "", "armed and idle has nothing to report");

    let fired = counts(true, true, 7, 3, 1, 0);
    let s = wall_suffix(&fired);
    assert!(s.contains("reached 7") && s.contains("asked 3") && s.contains("refused 1"), "{s}");
    assert!(!s.contains(disabled), "{s}");

    let errored = counts(true, true, 0, 0, 0, 2);
    assert!(wall_suffix(&errored).contains("PROBE(S) ERRORED"), "{}", wall_suffix(&errored));
}

#[test]
fn the_wall_suffix_lines_are_exact() {
    assert_eq!(wall_suffix(&counts(true, true, 7, 3, 1, 0)), "; issue-318 wall enabled=true reached 7 asked 3 refused 1");
    assert_eq!(
        wall_suffix(&counts(true, false, 0, 0, 0, 2)),
        "; issue-318 wall enabled=false reached 0 asked 0 refused 0 — 2 PROBE(S) ERRORED, those binds took the pre-318 bar"
    );
    assert_eq!(
        wall_suffix(&counts(true, false, 0, 0, 0, 0)),
        "; issue-318 wall DISABLED this run (key build in flight or interrupted) — anchor binds took the pre-318 bar"
    );
}
