use tender_supervisor::windows::{dq_windows, resume_skip, str_le, Package, DQ_WINDOW};

#[test]
fn data_quality_windows_tile_the_id_range_exactly() {
    let w = dq_windows(0, DQ_WINDOW * 2 + 7);
    assert_eq!(w.len(), 3);
    assert_eq!(w[0], (0, DQ_WINDOW));
    assert_eq!(w[2], (DQ_WINDOW * 2, DQ_WINDOW * 2 + 7), "the tail window is short, not skipped");

    for (floor, max_id) in
        [(0, 1), (0, DQ_WINDOW), (0, DQ_WINDOW * 3), (5, 5 + DQ_WINDOW + 1), (-1, 4)]
    {
        let w = dq_windows(floor, max_id);
        assert_eq!(w.first().unwrap().0, floor, "the first window opens at the floor");
        assert_eq!(w.last().unwrap().1, max_id, "the last window closes at the max");
        for pair in w.windows(2) {
            assert_eq!(pair[0].1, pair[1].0, "consecutive windows share a boundary exactly");
        }
        for (lo, hi) in &w {
            assert!(hi > lo, "no empty window");
            assert!(hi - lo <= DQ_WINDOW, "no window wider than the bound");
        }
    }

    assert!(dq_windows(0, 0).is_empty());
    assert!(dq_windows(9, 9).is_empty());
    assert!(dq_windows(9, 4).is_empty());
}

#[test]
fn dq_windows_saturate_at_the_top_of_the_id_space() {
    let w = dq_windows(i64::MAX - 10, i64::MAX);
    assert_eq!(w, vec![(i64::MAX - 10, i64::MAX)]);
}

#[test]
fn resume_skip_skips_the_completed_prefix() {
    let pkgs: Vec<Package> = ["1993-01", "2004-07", "2010-12"]
        .iter()
        .map(|p| Package { fetch_id: 1, period: (*p).to_owned(), path: "x".into() })
        .collect();
    assert_eq!(resume_skip(&pkgs, None), 0, "a fresh job walks all");
    assert_eq!(resume_skip(&pkgs, Some("2004-07")), 2, "skip through the cursor (inclusive)");
    assert_eq!(resume_skip(&pkgs, Some("1992-99")), 0, "cursor before the first: skip none");
    assert_eq!(resume_skip(&pkgs, Some("2099-01")), 3, "cursor past the last: skip all");
}

#[test]
fn str_le_orders_as_str_does() {
    for (a, b) in [("", ""), ("a", ""), ("", "a"), ("ab", "a"), ("a", "ab"), ("b", "ab"), ("é", "z"), ("2004-07", "2004-07")] {
        assert_eq!(str_le(a, b), a <= b, "{a:?} <= {b:?}");
    }
}
