use tender_supervisor::residual::{merge_reasons, residual_line, ReclaimReport, ReprocessTally};

fn reasons(pairs: &[(&str, u64)]) -> Vec<(String, u64)> {
    pairs.iter().map(|(r, c)| (r.to_string(), *c)).collect()
}

#[test]
fn no_residual_when_nothing_is_still_held() {
    assert_eq!(residual_line(&Vec::new()), "");
}

#[test]
fn residual_orders_by_count_then_name() {
    let v = reasons(&[("zeta", 2), ("alpha", 2), ("mid", 5)]);
    assert_eq!(residual_line(&v), "; still held by current reason: mid 5, alpha 2, zeta 2");
}

#[test]
fn residual_keeps_eight_and_sums_the_rest() {
    let v = reasons(&[
        ("r01", 1),
        ("r02", 9),
        ("r03", 3),
        ("r04", 7),
        ("r05", 5),
        ("r06", 6),
        ("r07", 4),
        ("r08", 8),
        ("r09", 2),
        ("r10", 10),
    ]);
    assert_eq!(
        residual_line(&v),
        "; still held by current reason: r10 10, r02 9, r08 8, r04 7, r06 6, r05 5, r07 4, r03 3, (other) 3"
    );
}

#[test]
fn residual_of_exactly_eight_has_no_other() {
    let v = reasons(&[("a", 1), ("b", 1), ("c", 1), ("d", 1), ("e", 1), ("f", 1), ("g", 1), ("h", 1)]);
    assert_eq!(residual_line(&v), "; still held by current reason: a 1, b 1, c 1, d 1, e 1, f 1, g 1, h 1");
}

#[test]
fn residual_omits_a_rest_of_zero() {
    let v = reasons(&[("a", 4), ("b", 4), ("c", 4), ("d", 4), ("e", 4), ("f", 4), ("g", 4), ("h", 4), ("i", 0)]);
    assert_eq!(residual_line(&v), "; still held by current reason: a 4, b 4, c 4, d 4, e 4, f 4, g 4, h 4");
}

#[test]
fn merging_adds_counts_under_one_name() {
    let mut acc = reasons(&[("bad xml", 2)]);
    merge_reasons(&mut acc, &reasons(&[("no lots", 1), ("bad xml", 3), ("no lots", 4)]));
    assert_eq!(acc, reasons(&[("bad xml", 5), ("no lots", 5)]));
}

#[test]
fn the_summary_sums_reports_and_carries_the_residual() {
    let mut t = ReprocessTally::new();
    t.add_report(&ReclaimReport {
        reclaimed: 4,
        still_held: 2,
        already: 1,
        skipped_by_policy: 0,
        still_held_reasons: reasons(&[("bad xml", 2)]),
    });
    t.add_report(&ReclaimReport {
        reclaimed: 1,
        still_held: 3,
        already: 0,
        skipped_by_policy: 2,
        still_held_reasons: reasons(&[("no lots", 1), ("bad xml", 2)]),
    });
    assert_eq!(
        t.summary(2),
        "2 package(s): 5 reclaimed, 5 still held, 1 already parsed, 2 skipped by dispatch policy; \
         still held by current reason: bad xml 4, no lots 1"
    );
}

#[test]
fn the_summary_of_a_clean_run_has_no_residual() {
    let mut t = ReprocessTally::new();
    t.add_report(&ReclaimReport {
        reclaimed: 7,
        still_held: 0,
        already: 3,
        skipped_by_policy: 0,
        still_held_reasons: Vec::new(),
    });
    assert_eq!(
        t.summary(1),
        "1 package(s): 7 reclaimed, 0 still held, 3 already parsed, 0 skipped by dispatch policy"
    );
}
