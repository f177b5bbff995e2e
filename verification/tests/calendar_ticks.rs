use tender_supervisor::calendar::{
    berlin_offset, berlin_tick_on, civil_year, days_from_civil, is_report_day, last_sunday,
    next_berlin_tick, startup_catch_up, tick_needs_catch_up, weekday_of, JobRun, REPORT_TICK,
};

#[test]
fn berlin_offset_follows_the_eu_dst_rule() {
    // 2026: last Sunday of March is the 29th; October is the 25th.
    let mar29_0030 = days_from_civil(2026, 3, 29) * 86_400 + 30 * 60; // 00:30 UTC → still CET
    let mar29_0130 = days_from_civil(2026, 3, 29) * 86_400 + 3_600 + 30 * 60; // 01:30 UTC → CEST
    assert_eq!(berlin_offset(mar29_0030), 3_600);
    assert_eq!(berlin_offset(mar29_0130), 7_200);

    let oct25_0030 = days_from_civil(2026, 10, 25) * 86_400 + 30 * 60; // still CEST
    let oct25_0130 = days_from_civil(2026, 10, 25) * 86_400 + 3_600 + 30 * 60; // back to CET
    assert_eq!(berlin_offset(oct25_0030), 7_200);
    assert_eq!(berlin_offset(oct25_0130), 3_600);

    // Deep winter and deep summer.
    assert_eq!(berlin_offset(days_from_civil(2026, 1, 15) * 86_400), 3_600);
    assert_eq!(berlin_offset(days_from_civil(2026, 7, 15) * 86_400), 7_200);
}

#[test]
fn next_tick_lands_on_0935_berlin() {
    // 2026-07-15 is a Wednesday. 00:00 UTC that day.
    let midnight = days_from_civil(2026, 7, 15) * 86_400;
    let (tick, weekday) = next_berlin_tick(midnight, 9, 35);
    // CEST (+2h): 09:35 local = 07:35 UTC.
    assert_eq!(tick, midnight + 7 * 3_600 + 35 * 60);
    assert!(weekday, "Wednesday is a weekday");

    // From just after the tick, the next one is the following day.
    let (next, _) = next_berlin_tick(tick + 1, 9, 35);
    assert_eq!(next, tick + 86_400);

    // 2026-07-18 is a Saturday.
    let sat = days_from_civil(2026, 7, 18) * 86_400;
    let (_, weekend) = next_berlin_tick(sat, 9, 35);
    assert!(!weekend, "Saturday is not a weekday");
}

fn run(kind: &str, outcome: &str, finished_at: i64) -> JobRun {
    JobRun {
        id: 1,
        job_id: None,
        kind: kind.into(),
        params: String::new(),
        started_at: finished_at - 10,
        finished_at,
        outcome: outcome.into(),
        counts: String::new(),
    }
}

#[test]
fn a_tick_that_passed_unserved_is_caught_up_on_startup() {
    let tick = days_from_civil(2026, 7, 15) * 86_400 + 7 * 3_600 + 35 * 60;
    let now = tick + 4 * 3_600; // startup at 13:35 Berlin, four hours late

    // Nothing since the tick — the deploy that restarted the box ate it.
    assert!(tick_needs_catch_up(tick, now, &[run("project", "ok", now - 60)], false));
    // A probe that succeeded after the tick means the daily ran: stay quiet.
    assert!(!tick_needs_catch_up(tick, now, &[run("probe", "ok", tick + 30)], false));
    // A probe that succeeded BEFORE the tick is yesterday's, and does not serve today.
    assert!(tick_needs_catch_up(tick, now, &[run("probe", "ok", tick - 100)], false));
    // A probe still in the queue after a restart will run on its own.
    assert!(!tick_needs_catch_up(tick, now, &[], true));
    // Before the tick, there is nothing to catch up; the loop will serve it.
    assert!(!tick_needs_catch_up(tick, tick - 1, &[], false));
    // A FAILED probe is not a served tick.
    assert!(tick_needs_catch_up(tick, now, &[run("probe", "error", tick + 30)], false));
}

#[test]
fn startup_catch_up_names_the_weekday_of_the_missed_tick() {
    let tick = days_from_civil(2026, 7, 15) * 86_400 + 7 * 3_600 + 35 * 60;
    assert_eq!(startup_catch_up(tick + 60, &[], false), Some(true));
    assert_eq!(startup_catch_up(tick - 60, &[], false), None);
    assert_eq!(startup_catch_up(tick + 60, &[run("probe", "ok", tick + 5)], false), None);
    let sat_tick = days_from_civil(2026, 7, 18) * 86_400 + 7 * 3_600 + 35 * 60;
    assert_eq!(startup_catch_up(sat_tick + 60, &[], false), Some(false));
}

#[test]
fn the_weekly_report_tick_lands_on_its_named_weekday() {
    // 2026-08-16 is a Sunday, the 18th a Tuesday.
    assert_eq!(weekday_of(days_from_civil(2026, 8, 16)), 0);
    assert_eq!(weekday_of(days_from_civil(2026, 8, 18)), 2);
    assert_eq!(weekday_of(days_from_civil(2026, 8, 22)), 6);

    for d in 0..14 {
        let noon = (days_from_civil(2026, 8, 10) + d) * 86_400 + 12 * 3_600;
        let (tick, weekday) = next_berlin_tick(noon, 3, 10);
        let wd = weekday_of(tick.div_euclid(86_400));
        assert_eq!(weekday, wd != 0 && wd != 6, "weekday flag disagrees at day {d}");
    }

    let (weekday, hour, minute) = REPORT_TICK;
    assert_eq!((weekday, hour, minute), (0, 3, 10));
    assert!(hour < 9, "the measurement must not collide with the daily fold");
}

#[test]
fn the_report_day_is_sunday_at_either_offset() {
    let sunday = days_from_civil(2026, 8, 16);
    assert!(is_report_day(berlin_tick_on(sunday, 3, 10)));
    assert!(!is_report_day(berlin_tick_on(sunday + 1, 3, 10)));
    let winter_sunday = days_from_civil(2026, 1, 18);
    assert!(is_report_day(berlin_tick_on(winter_sunday, 3, 10)));
}

#[test]
fn civil_days_match_the_gregorian_calendar() {
    assert_eq!(days_from_civil(1970, 1, 1), 0);
    assert_eq!(days_from_civil(2000, 3, 1), 11_017);
    assert_eq!(days_from_civil(1969, 12, 31), -1);
    assert_eq!(days_from_civil(0, 1, 1), -719_528);
    assert_eq!(civil_year(0), 1970);
    assert_eq!(civil_year(-1), 1969);
    assert_eq!(civil_year(days_from_civil(2024, 12, 31)), 2024);
    assert_eq!(civil_year(days_from_civil(2025, 1, 1)), 2025);
    assert_eq!(last_sunday(2026, 3), days_from_civil(2026, 3, 29) * 86_400);
    assert_eq!(last_sunday(2026, 10), days_from_civil(2026, 10, 25) * 86_400);
}
