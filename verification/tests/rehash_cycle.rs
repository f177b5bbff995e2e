use tender_supervisor::rehash::{
    rehash_next_cursor, rehash_shortfall, rehash_summary, rehash_wrap, ProbeOutcome, RegistryRow,
    RehashTally,
};

fn row(id: i64) -> RegistryRow {
    (id, "ted".to_string(), "daily".to_string(), format!("2024-{id:03}"))
}

#[test]
fn a_full_page_needs_no_wrap() {
    assert_eq!(rehash_shortfall(8, 8), None);
    assert_eq!(rehash_shortfall(3, 8), Some(5));
    assert_eq!(rehash_shortfall(0, 8), Some(8));
}

#[test]
fn the_wrap_takes_only_rows_at_or_before_the_cursor() {
    let mut page = vec![row(41), row(42)];
    rehash_wrap(&mut page, vec![row(1), row(2), row(41), row(42), row(40)], 40);
    let ids: Vec<i64> = page.iter().map(|r| r.0).collect();
    assert_eq!(ids, vec![41, 42, 1, 2, 40]);
    assert_eq!(page[2], row(1));
}

#[test]
fn the_cursor_restarts_at_the_newest_id_after_a_wrap() {
    assert_eq!(rehash_next_cursor(true, &vec![41, 42, 1, 2], 42), 42);
    assert_eq!(rehash_next_cursor(true, &vec![], 42), 0);
    assert_eq!(rehash_next_cursor(false, &vec![41, 42], 42), 42);
    assert_eq!(rehash_next_cursor(true, &vec![-5, -9], 3), -5);
}

#[test]
fn the_tally_counts_outcomes_and_moves_the_cursor_past_every_package() {
    let mut t = RehashTally::new(40);
    t.record(41, ProbeOutcome::Unchanged);
    t.record(43, ProbeOutcome::Drifted);
    t.record(42, ProbeOutcome::Gone);
    t.record(44, ProbeOutcome::Skipped);
    t.record(12, ProbeOutcome::Unchanged);
    assert_eq!((t.unchanged, t.drifted, t.gone, t.skipped, t.cursor), (2, 1, 1, 1, 44));
    assert_eq!(
        rehash_summary(5, &t, true),
        "rehash probe: 5 probed — 2 unchanged, 1 drifted, 1 gone, 1 skipped (registry cycle \
         wrapped); 2 package(s) DRIFTED/GONE — read the report"
    );
}

#[test]
fn a_quiet_probe_raises_no_alarm() {
    let mut t = RehashTally::new(0);
    t.record(3, ProbeOutcome::Unchanged);
    assert_eq!(
        rehash_summary(1, &t, false),
        "rehash probe: 1 probed — 1 unchanged, 0 drifted, 0 gone, 0 skipped"
    );
}
