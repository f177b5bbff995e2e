use tender_supervisor::alarms::WallCounts;
use tender_supervisor::backfills::{
    backfill_summary, project_summary, rederive_summary, Backfill, BatchWalk, ProjectReport,
};

#[test]
fn a_walk_sums_its_batches_and_stops_at_the_first_empty_one() {
    let mut w = BatchWalk::new();
    assert!(w.step(500, 1_200));
    assert!(w.step(250, 2_000));
    assert_eq!((w.stamped, w.watermark, w.done), (750, 2_000, false));
    assert!(!w.step(0, 99));
    assert_eq!((w.stamped, w.watermark, w.done), (750, 2_000, true));
}

#[test]
fn backfill_lines_name_their_column() {
    assert_eq!(backfill_summary(Backfill::OrgNames, 12), "name_norm stamped over 12 organizations");
    assert_eq!(
        backfill_summary(Backfill::Deadlines, 3),
        "current_deadline stamped over 3 tenders (head-version submission_deadline; NULL where none is published)"
    );
    assert!(backfill_summary(Backfill::OriginalLang, 0).starts_with("original_lang backfill walked 0 tenders, "));
    assert_eq!(
        backfill_summary(Backfill::Values, 7),
        "current_value_eur_cents stamped over 7 tenders (head-version MAX derived-EUR amount; NULL where none converts — ADR-0014 D4)"
    );
}

#[test]
fn a_resumed_rederive_says_where_it_resumed() {
    assert_eq!(
        rederive_summary(31, 400, 0, 12, 90),
        "eur_cents re-derived from 31 cached rates over 400 tenders: 12 of 90 money rows changed — follow with backfill-values (issue 306)"
    );
    assert_eq!(
        rederive_summary(31, 400, 77, 12, 90),
        "eur_cents re-derived from 31 cached rates over 400 tenders (resumed past tender id 77): 12 of 90 money rows changed — follow with backfill-values (issue 306)"
    );
}

fn report(stopped: bool) -> ProjectReport {
    ProjectReport {
        stopped,
        notices: 10,
        tenders: 7,
        islands: 2,
        versions_written: 9,
        tenders_written: 5,
        tenders_unchanged: 2,
        wall: WallCounts { resolved: true, enabled: true, anchor_reached: 0, asked: 0, denied: 0, errored: 0 },
    }
}

#[test]
fn a_cancelled_fold_says_so_first() {
    assert_eq!(
        project_summary(&report(false)),
        "10 notices → 7 tenders (2 islands), 9 versions; 5 tenders written, 2 verified unchanged"
    );
    assert_eq!(
        project_summary(&report(true)),
        "CANCELLED at a checkpoint — 10 notices → 7 tenders (2 islands), 9 versions; 5 tenders written, 2 verified unchanged"
    );
}
