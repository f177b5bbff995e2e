use tender_supervisor::period::{bad, month_walk_fits, months_between, parse_issue, parse_year_month, parse_ymd};

#[test]
fn months_between_is_inclusive_and_crosses_years() {
    assert_eq!(months_between("2024-11", "2025-02").unwrap(), ["2024-11", "2024-12", "2025-01", "2025-02"]);
    assert_eq!(months_between("2024-06", "2024-06").unwrap(), ["2024-06"]);
    assert!(months_between("2025-02", "2024-11").is_err());
}

#[test]
fn months_between_reports_which_end_is_wrong() {
    assert_eq!(months_between("2025-02", "2024-11").unwrap_err(), "range start 2025-02 is after end 2024-11");
    assert_eq!(months_between("2025", "2024-11").unwrap_err(), "malformed period \"2025\"");
    assert_eq!(months_between("2024-01", "x-1").unwrap_err(), "malformed period \"x-1\"");
}

#[test]
fn months_between_pads_single_digit_months() {
    let v = months_between("999-9", "999-10").unwrap();
    assert_eq!(v, ["999-09", "999-10"]);
    let v = months_between("2024-1", "2024-3").unwrap();
    assert_eq!(v, ["2024-01", "2024-02", "2024-03"]);
}

#[test]
fn month_walk_fits_flags_the_overflowing_ranges() {
    assert!(month_walk_fits("2024-01", "2025-12"));
    assert!(!month_walk_fits("65535-01", "65535-12"));
    assert!(!month_walk_fits("2024-13", "2025-01"));
    assert!(month_walk_fits("2024-13", "2024-20"));
    assert!(month_walk_fits("2025-01", "2024-01"));
    assert!(month_walk_fits("junk", "2024-01"));
}

#[test]
fn periods_parse_as_std_parses_numbers() {
    assert_eq!(parse_issue("2026-00137").unwrap(), (2026, 137));
    assert_eq!(parse_issue("+2026-+7").unwrap(), (2026, 7));
    assert!(parse_issue("2026").is_err());
    assert!(parse_issue("2026-").is_err());
    assert!(parse_issue("70000-1").is_err());
    assert_eq!(parse_year_month("2026-06").unwrap(), (2026, 6));
    assert_eq!(parse_year_month("2026-13").unwrap(), (2026, 13));
    assert!(parse_year_month("2026-256").is_err());
    assert!(parse_year_month("2026-06-01").is_err());
    assert_eq!(parse_ymd("2026-07-18").unwrap(), (2026, 7, 18));
    assert_eq!(parse_ymd("2026-07-18-extra").unwrap(), (2026, 7, 18));
    assert!(parse_ymd("2026-07").is_err());
    assert_eq!(parse_ymd("nope").unwrap_err(), "malformed period \"nope\"");
}

#[test]
fn bad_quotes_the_period_as_debug_does() {
    assert_eq!(bad("a\"b"), "malformed period \"a\\\"b\"");
    assert_eq!(bad(""), "malformed period \"\"");
}
