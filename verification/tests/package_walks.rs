use tender_supervisor::walks::{
    parse_i64, process_summary, reparse_cap, reparse_next_after, reparse_nothing_to_do,
    reparse_start, reparse_summary, reprocess_start, ProcessTotals,
};

#[test]
fn parse_i64_agrees_with_std() {
    for s in ["0", "42", "-42", "+7", "-", "+", "", "9223372036854775807", "9223372036854775808", "-9223372036854775808", "-9223372036854775809", "12a", " 1", "007", "-0"] {
        assert_eq!(parse_i64(s), s.parse::<i64>().ok(), "{s:?}");
    }
}

#[test]
fn real_progress_wins_over_the_requested_floor() {
    assert_eq!(reparse_start(Some(186), None), 186);
    assert_eq!(reparse_start(Some(186), Some("240")), 240);
    assert_eq!(reparse_start(None, None), 0);
    assert_eq!(reparse_start(Some(5), Some("2004-07")), 5, "a cursor that is not a fetch id is no progress");
    assert_eq!(reprocess_start(Some("17")), 17);
    assert_eq!(reprocess_start(None), 0);
}

#[test]
fn a_cap_splits_the_packages_into_a_prefix_and_the_rest() {
    assert_eq!(reparse_cap(215, Some(1)), (1, 214));
    assert_eq!(reparse_cap(3, Some(10)), (3, 0));
    assert_eq!(reparse_cap(3, None), (3, 0));
    assert_eq!(reparse_cap(0, Some(0)), (0, 0));
}

#[test]
fn a_capped_reparse_says_where_to_continue() {
    let ids = vec![186, 240, 12];
    assert_eq!(reparse_next_after(&ids, 0, 99), 99);
    assert_eq!(reparse_next_after(&ids, 2, 99), 240);
    let line = reparse_summary(31, 1, 40, 2, 0, 5, false, 1, 214, 186);
    assert_eq!(
        line,
        "re-parsed 31 notices across 1 packages (40 members walked, 2 unmatched, 0 now failing and left untouched); stamped 5 tender(s) epoch-stale; 214 package(s) held back by the cap — continue with a fresh enqueue carrying {\"after\": 186} (re-enqueueing the original params restarts at their floor)"
    );
    let stopped = reparse_summary(1, 3, 1, 0, 0, 1, true, 1, 0, 186);
    assert!(stopped.ends_with("; STOPPED at an operator's request after 1 of 3 package(s) — continue with a fresh enqueue carrying {\"after\": 186}"), "{stopped}");
    let whole = reparse_summary(0, 2, 9, 0, 0, 0, false, 2, 0, 12);
    assert!(whole.ends_with("epoch-stale"), "{whole}");
    assert_eq!(reparse_nothing_to_do(&vec!["a".into(), "b".into()]), "no packages hold parsed notices of a,b");
}

#[test]
fn the_process_line_counts_every_outcome() {
    let t = ProcessTotals { members: 10, notices: 9, parsed: 7, parse_quarantined: 1, quarantined: 1, duplicates: 2 };
    assert_eq!(process_summary(&t), "10 members → 9 notices (7 parsed, 1 quarantined, 1 unrecognised, 2 dup)");
}
