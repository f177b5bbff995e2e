use tender_supervisor::reveal_wrap::{
    cursor_totals, next_wrap_totals, recheck_summary, roll_reveal_wrap, try_roll_reveal_wrap,
    RevealSlice,
};

fn slice(due: i64, revealed: i64, no_later: i64, upto: i64, wrapped: bool) -> RevealSlice {
    RevealSlice { withheld_total: 279_483, upto, wrapped, due, checked: due, revealed, no_later }
}

#[test]
fn reveal_wrap_totals_accumulate_and_roll_only_on_wrap() {
    let (cursor, wrap) = roll_reveal_wrap(None, &slice(2606, 252, 1221, 25_535_052, false), 100);
    assert!(wrap.is_none(), "a partial wrap must not publish");
    let c: serde_json::Value = serde_json::from_str(&cursor).expect("cursor json");
    assert_eq!(c["after"].as_i64(), Some(25_535_052));
    assert_eq!(c["wrap"]["due"].as_i64(), Some(2606));
    assert_eq!(c["wrap"]["broken"].as_i64(), Some(2606 - 252 - 1221));
    assert_eq!(c["wrap"]["slices"].as_i64(), Some(1));

    let (cursor, wrap) = roll_reveal_wrap(Some(&cursor), &slice(1029, 54, 601, 26_788_048, false), 200);
    assert!(wrap.is_none());
    let c: serde_json::Value = serde_json::from_str(&cursor).expect("cursor json");
    assert_eq!(c["wrap"]["due"].as_i64(), Some(2606 + 1029));
    assert_eq!(c["wrap"]["broken"].as_i64(), Some(1133 + 374));
    assert_eq!(c["wrap"]["slices"].as_i64(), Some(2));

    let (cursor, wrap) = roll_reveal_wrap(Some(&cursor), &slice(40, 10, 20, 27_000_000, true), 300);
    let w: serde_json::Value = serde_json::from_str(&wrap.expect("a wrapped slice publishes")).expect("wrap json");
    assert_eq!(w["due"].as_i64(), Some(2606 + 1029 + 40));
    assert_eq!(w["revealed"].as_i64(), Some(252 + 54 + 10));
    assert_eq!(w["awaiting"].as_i64(), Some(1221 + 601 + 20));
    assert_eq!(w["broken"].as_i64(), Some(1133 + 374 + 10));
    assert_eq!(w["slices"].as_i64(), Some(3));
    assert_eq!(w["withheld_rows"].as_i64(), Some(279_483));
    assert_eq!(w["completed_at"].as_i64(), Some(300));
    let c: serde_json::Value = serde_json::from_str(&cursor).expect("cursor json");
    assert_eq!(c["after"].as_i64(), Some(0));
    assert!(c["wrap"].is_null(), "the running totals reset with the wrap");

    let (cursor, wrap) = roll_reveal_wrap(Some(r#"{"after": 25535052}"#), &slice(100, 30, 50, 26_000_000, false), 400);
    assert!(wrap.is_none());
    let c: serde_json::Value = serde_json::from_str(&cursor).expect("cursor json");
    assert_eq!(c["wrap"]["due"].as_i64(), Some(100));
    assert_eq!(c["wrap"]["broken"].as_i64(), Some(20));
    assert_eq!(c["wrap"]["slices"].as_i64(), Some(1));
}

#[test]
fn next_wrap_totals_adds_one_slice() {
    assert_eq!(next_wrap_totals((1, 2, 3, 4, 5), &slice(10, 3, 2, 0, false)), (11, 5, 5, 9, 6));
}

#[test]
fn a_cursor_that_is_not_json_counts_from_zero() {
    let (cursor, _) = roll_reveal_wrap(Some("not json"), &slice(5, 1, 1, 9, false), 1);
    let c: serde_json::Value = serde_json::from_str(&cursor).unwrap();
    assert_eq!(c["wrap"]["due"].as_i64(), Some(5));
    assert_eq!(c["wrap"]["broken"].as_i64(), Some(3));
}

#[test]
fn an_overflowing_total_is_refused_rather_than_wrapped() {
    let body = format!(r#"{{"after": 1, "wrap": {{"due": {}}}}}"#, i64::MAX);
    assert!(try_roll_reveal_wrap(Some(&body), &slice(1, 0, 0, 2, false), 3).is_none());
    assert!(try_roll_reveal_wrap(None, &slice(1, 0, 0, 2, false), 3).is_some());
}

#[test]
fn the_recheck_line_counts_the_broken_fields() {
    assert_eq!(
        recheck_summary(&slice(2606, 252, 1221, 25_535_052, false), 25_400_000, 9_000),
        "reveal recheck: 279483 withheld field(s) in corpus; slice 25400000..25535052: 9000 \
         section(s), 2606 due, of 2606 checked 252 revealed at head, 1221 awaiting a later \
         version, 1133 BROKEN (later version still withholds)"
    );
    assert!(recheck_summary(&slice(1, 0, 0, 5, true), 0, 1).ends_with("withholds) (cohort cycle wrapped)"));
}

#[test]
fn the_cursor_and_wrap_bodies_are_compact_json_in_key_order() {
    let (cursor, wrap) = roll_reveal_wrap(None, &slice(10, 3, 2, -7, false), 5);
    assert!(wrap.is_none());
    assert_eq!(cursor, r#"{"after":-7,"wrap":{"awaiting":2,"broken":5,"due":10,"revealed":3,"slices":1}}"#);
    let (cursor, wrap) = roll_reveal_wrap(Some(&cursor), &slice(1, 1, 0, 9, true), 77);
    assert_eq!(cursor, r#"{"after":0}"#);
    assert_eq!(
        wrap.unwrap(),
        r#"{"awaiting":2,"broken":5,"completed_at":77,"due":11,"revealed":4,"slices":2,"withheld_rows":279483}"#
    );
}

#[test]
fn a_cursor_reads_back_the_totals_it_was_written_with() {
    let (cursor, _) = roll_reveal_wrap(None, &slice(2606, 252, 1221, 25_535_052, false), 100);
    assert_eq!(cursor_totals(&cursor), (2606, 252, 1221, 1133, 1));
    assert_eq!(cursor_totals(r#"{"after":0}"#), (0, 0, 0, 0, 0));
    assert_eq!(cursor_totals(r#"{"after": 25535052}"#), (0, 0, 0, 0, 0));
    assert_eq!(cursor_totals("not json"), (0, 0, 0, 0, 0));
    assert_eq!(cursor_totals(r#"{"wrap":{"due":4,"broken":"x"}}"#), (4, 0, 0, 0, 0));
}
