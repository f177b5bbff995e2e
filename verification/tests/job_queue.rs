use tender_supervisor::jobs::{JobRequest, PlannedJob, Spec, REFOLD_NOTICES_CAP};
use tender_supervisor::queue::{Cancelled, JobQueue, RecoveredRow, ReindexPlacement};

/// The keys epoch the scans in these tests name.
const EPOCH: &str = "n2-test";

fn req(kind: &str) -> JobRequest {
    JobRequest { kind: kind.into(), ..Default::default() }
}

fn enqueue(q: &mut JobQueue, r: &JobRequest) -> Result<Vec<u64>, String> {
    let plan = q.plan(r, EPOCH.to_owned(), Vec::new())?;
    Ok(q.enqueue_all(plan))
}

fn kinds(q: &JobQueue) -> Vec<String> {
    q.queued().into_iter().map(|j| j.kind).collect()
}

fn params(q: &JobQueue) -> Vec<String> {
    q.queued().into_iter().map(|j| j.params).collect()
}

fn job(kind: &str, params: &str, spec: Spec) -> PlannedJob {
    PlannedJob { kind: kind.into(), params: params.into(), spec }
}

#[test]
fn cancelling_the_running_job_asks_it_to_stop() {
    let mut q = JobQueue::new();
    assert_eq!(q.cancel(1), Cancelled::Unknown, "no job to cancel");

    let queued = q.enqueue(job("project", "rebuild=false", Spec::Project { rebuild: false, clear_changes: false }), false);
    assert_eq!(q.cancel(queued), Cancelled::Queued, "a queued job is cancellable");
    assert!(q.queued().is_empty());
    assert!(!q.cancelled(queued), "a removed job needs no stop flag");

    q.begin(42, "reparse".into());
    assert!(!q.cancelled(42), "not cancelled until asked");
    assert_eq!(q.cancel(42), Cancelled::Stopping, "reparse reads the flag, so the running job accepts a stop request");
    assert!(q.cancelled(42), "and the job sees it at its next checkpoint");
    assert!(!q.cancelled(43));
}

#[test]
fn cancelling_a_kind_with_no_checkpoint_is_refused_rather_than_promised() {
    let mut q = JobQueue::new();
    q.begin(7, "reindex".into());
    assert_eq!(q.cancel(7), Cancelled::Unstoppable("reindex".to_owned()));
    assert!(!q.cancelled(7), "a refused cancel must not leave a flag set");

    q.begin(7, "data-quality".into());
    assert_eq!(q.cancel(7), Cancelled::Stopping);
    assert!(q.cancelled(7));
}

#[test]
fn finishing_a_job_clears_only_its_own_stop_request() {
    let mut q = JobQueue::new();
    q.begin(5, "reparse".into());
    assert_eq!(q.cancel(5), Cancelled::Stopping);
    q.finish(6);
    assert!(q.cancelled(5), "another job's conclusion leaves the request standing");
    q.begin(5, "reparse".into());
    q.finish(5);
    assert!(!q.cancelled(5), "the request ends with the job it named");
    assert_eq!(q.jobs_completed(), 2);
    assert!(q.running().is_none());
}

#[test]
fn a_missing_index_reindex_is_queued_ahead_of_pending_work() {
    let mut q = JobQueue::new();
    q.enqueue(job("reparse", "reparse text", Spec::Reparse { profiles: vec!["text".to_owned()], packages: Some(1), after: None }), false);
    q.enqueue(job("project", "rebuild=false", Spec::Project { rebuild: false, clear_changes: false }), false);

    assert_eq!(q.prioritize_reindex(), ReindexPlacement::NotQueued);
    q.enqueue(job("reindex", "auto: notices_source_id", Spec::Reindex), true);
    assert_eq!(kinds(&q), vec!["reindex", "reparse", "project"]);

    // A reindex already queued BEHIND work is moved to the front.
    let stale = q.pop().expect("the reindex");
    let id = stale.id;
    q.insert(stale, false);
    assert_eq!(kinds(&q), vec!["reparse", "project", "reindex"], "moved to the back");
    assert_eq!(q.prioritize_reindex(), ReindexPlacement::MovedToFront);
    assert_eq!(kinds(&q), vec!["reindex", "reparse", "project"], "an already-queued reindex is moved to the front, not left where it was");
    assert_eq!(q.queued()[0].id, id);
    assert_eq!(q.prioritize_reindex(), ReindexPlacement::AlreadyFirst);
    assert_eq!(kinds(&q), vec!["reindex", "reparse", "project"]);
}

#[test]
fn rehash_probe_enqueues_with_its_sample_cap() {
    let mut q = JobQueue::new();
    enqueue(&mut q, &req("rehash-probe")).expect("enqueue default");
    let mut capped = req("rehash-probe");
    capped.packages = Some(3);
    enqueue(&mut q, &capped).expect("enqueue capped");
    let mut zero = req("rehash-probe");
    zero.packages = Some(0);
    enqueue(&mut q, &zero).expect("enqueue zero");
    assert_eq!(params(&q), vec!["rehash probe (8 package(s))", "rehash probe (3 package(s))", "rehash probe (1 package(s))"]);
    assert!(kinds(&q).iter().all(|k| k == "rehash-probe"));
}

#[test]
fn data_quality_enqueues_as_a_single_measuring_job() {
    let mut q = JobQueue::new();
    let ids = enqueue(&mut q, &req("data-quality")).expect("enqueues");
    assert_eq!(ids.len(), 1, "a measurement changes nothing, so nothing follows it");
    assert_eq!(q.queued()[0].kind, "data-quality");
    assert_eq!(q.queued()[0].params, "data-quality dry-run");
    let ids = enqueue(&mut q, &JobRequest { kind: "data-quality".into(), dry_run: Some(false), ..Default::default() }).expect("enqueues");
    assert_eq!(ids.len(), 1);
    assert_eq!(q.queued()[1].params, "data-quality", "a confirmed run is named plainly");
}

#[test]
fn refold_sections_needs_a_kind_and_pairs_with_a_projection() {
    let mut q = JobQueue::new();
    assert!(enqueue(&mut q, &req("refold-sections")).is_err());
    let ids = enqueue(&mut q, &JobRequest { kind: "refold-sections".into(), profiles: Some(vec!["GroupComposition".into()]), ..Default::default() }).expect("a kind enqueues");
    assert_eq!(ids.len(), 2, "the refold and its trailing projection");
    let queued = q.queued();
    assert_eq!(queued[0].kind, "refold-sections");
    assert_eq!(queued[0].params, "refold-sections GroupComposition");
    assert_eq!(queued[1].kind, "project", "without the fold the requeue changes nothing");
}

#[test]
fn refold_notices_needs_ids_caps_the_list_and_logs_which_ones() {
    let mut q = JobQueue::new();
    assert!(enqueue(&mut q, &req("refold-notices")).is_err());

    let too_many: Vec<i64> = (1..=(REFOLD_NOTICES_CAP as i64 + 1)).collect();
    let err = enqueue(&mut q, &JobRequest { kind: "refold-notices".into(), notices: Some(too_many), ..Default::default() })
        .expect_err("a list past the cap is a cohort, not an exerciser");
    assert!(err.contains("cap"), "the refusal says what the limit is: {err}");
    assert_eq!(err, "refold-notices refuses 1001 ids (cap 1000) — a list this long is a cohort, and a cohort wants `refold` or `refold-fields`");

    let queued_ids = enqueue(&mut q, &JobRequest { kind: "refold-notices".into(), notices: Some(vec![11, 22, 33]), ..Default::default() })
        .expect("a small named list enqueues");
    assert_eq!(queued_ids.len(), 2, "the refold and its trailing projection");
    let queued = q.queued();
    assert_eq!(queued[0].kind, "refold-notices");
    assert_eq!(queued[0].params, "refold-notices 11,22,33");
    assert_eq!(queued[1].kind, "project");

    let many: Vec<i64> = (1..=12).collect();
    enqueue(&mut q, &JobRequest { kind: "refold-notices".into(), notices: Some(many), ..Default::default() }).expect("twelve ids is well inside the cap");
    assert_eq!(q.queued()[2].params, "refold-notices 1,2,3,4,5,6,7,8 (+4 more)");

    enqueue(&mut q, &JobRequest { kind: "refold-notices".into(), notices: Some(vec![-5]), ..Default::default() }).unwrap();
    assert_eq!(q.queued()[4].params, "refold-notices -5");
}

#[test]
fn reparse_needs_profiles_and_pairs_with_a_projection() {
    let mut q = JobQueue::new();
    assert!(enqueue(&mut q, &req("reparse")).is_err());
    let ids = enqueue(&mut q, &JobRequest {
        kind: "reparse".into(),
        profiles: Some(vec!["eforms:eforms-de-1.1".into(), "eforms:eforms-de-1.2".into()]),
        ..Default::default()
    })
    .expect("a reparse with profiles enqueues");
    assert_eq!(ids.len(), 2, "the reparse and its trailing projection");
    let queued = q.queued();
    assert_eq!(queued[0].kind, "reparse");
    assert_eq!(queued[0].params, "reparse eforms:eforms-de-1.1,eforms:eforms-de-1.2");
    assert_eq!(queued[1].kind, "project");

    let bulk = enqueue(&mut q, &JobRequest {
        kind: "reparse".into(),
        profiles: Some(vec!["eforms:eforms-de-1.1".into()]),
        reclaim_only: Some(true),
        packages: Some(3),
        after: Some(186),
        ..Default::default()
    })
    .expect("bulk reparse enqueues");
    assert_eq!(bulk.len(), 1, "reclaim_only leaves the fold to a later rebuild");
    assert_eq!(q.queued()[2].params, "reparse eforms:eforms-de-1.1 after fetch 186 (first 3 package(s))");
}

#[test]
fn scan_org_match_keys_defaults_dry_and_names_its_knobs() {
    let mut q = JobQueue::new();
    enqueue(&mut q, &req("scan-org-match-keys")).expect("enqueues");
    let queued = q.queued();
    assert_eq!(queued[0].kind, "scan-org-match-keys");
    assert_eq!(queued[0].params, format!("scan-org-match-keys dry-run stoplist=20 epoch={}", EPOCH));
    enqueue(&mut q, &JobRequest { kind: "scan-org-match-keys".into(), dry_run: Some(false), max_edges: Some(200_000), ..Default::default() })
        .expect("wet with a cap enqueues");
    let queued = q.queued();
    assert!(queued[1].params.starts_with("scan-org-match-keys cap=200000"), "a wet run's params name the cap: {}", queued[1].params);
}

#[test]
fn the_weekly_report_tick_enqueues_its_seven_jobs_once_each() {
    let mut q = JobQueue::new();
    let plan = q.plan_report_tick(EPOCH);
    q.enqueue_all(plan);
    assert_eq!(
        kinds(&q),
        vec!["disk-census", "ghost-census", "data-quality", "rehash-probe", "build-org-match-keys", "org-merge-health", "scan-org-match-keys"]
    );
    let scan = q.queued().into_iter().find(|j| j.kind == "scan-org-match-keys").unwrap();
    assert!(scan.params.contains("(weekly)"), "{}", scan.params);
    assert!(!scan.params.contains("dry-run"), "the weekly scan must be wet: {}", scan.params);
    let build = q.queued().into_iter().find(|j| j.kind == "build-org-match-keys").unwrap();
    assert!(build.params.contains("(weekly)"), "{}", build.params);
    assert!(!build.params.contains("dry-run"), "the weekly build must be wet: {}", build.params);
    assert!(build.params.contains(EPOCH), "the build carries its keys epoch as an audit line: {}", build.params);

    let again = q.plan_report_tick(EPOCH);
    assert!(again.is_empty());
    q.enqueue_all(again);
    assert_eq!(q.queued().len(), 7, "already_pending must stop the double enqueue");
}

#[test]
fn the_daily_pipeline_skips_what_is_already_pending() {
    let mut q = JobQueue::new();
    let plan = q.plan_daily(true);
    q.enqueue_all(plan);
    assert_eq!(kinds(&q), vec!["probe", "process", "probe", "process", "fetch-rates", "project", "reveal-recheck"]);
    assert_eq!(
        params(&q),
        vec!["ted daily (probe)", "ted daily (all)", "doe daily (probe)", "doe daily (all)", "ecb eurofxref-hist (daily)", "rebuild=false", "reveal recheck (daily slice)"]
    );
    let plan = q.plan_daily(false);
    let second: Vec<String> = plan.iter().map(|j| j.kind.clone()).collect();
    assert_eq!(second, vec!["probe", "process", "project"]);
}

#[test]
fn heavy_write_in_progress_tracks_the_running_job_kind() {
    let mut q = JobQueue::new();
    assert!(!q.heavy_write_in_progress(), "idle: nothing pins the WAL");
    q.begin(1, "process".into());
    assert!(q.heavy_write_in_progress(), "a package walk holds the WAL");
    q.begin(1, "project".into());
    assert!(q.heavy_write_in_progress(), "a projection holds the WAL");
    for kind in [
        "reparse", "merge-provisional-orgs", "mark-skipped-siblings", "repair-swept-siblings", "backfill-deadlines",
        "backfill-titles", "backfill-org-names", "backfill-legacy-adjacency", "refold-notices", "refold-sections",
        "build-org-match-keys", "scan-org-match-keys",
    ] {
        q.begin(1, kind.into());
        assert!(q.heavy_write_in_progress(), "{kind} checkpoints per batch — coverage must stand down");
    }
    for kind in ["fetch", "probe", "data-quality", "reveal-recheck", "register-archive", "clear-rebuild-flag"] {
        q.begin(1, kind.into());
        assert!(!q.heavy_write_in_progress(), "{kind} does not pin the WAL — coverage may scan");
    }
    q.finish(1);
    assert!(!q.heavy_write_in_progress(), "idle again");
}

#[test]
fn already_pending_sees_the_running_job_not_only_the_queue() {
    let mut q = JobQueue::new();
    assert!(!q.already_pending("data-quality"), "idle: nothing pending");
    q.begin(1, "data-quality".into());
    assert!(q.already_pending("data-quality"), "a running instance counts as pending — else the tick stacks a duplicate");
    assert!(!q.already_pending("rehash-probe"), "a different running kind is not pending");
}

#[test]
fn queue_enqueues_and_cancels() {
    let mut q = JobQueue::new();
    let a = enqueue(&mut q, &req("project")).unwrap();
    let b = enqueue(&mut q, &JobRequest { kind: "process".into(), source: Some("ted".into()), ..Default::default() }).unwrap();
    assert_eq!(q.queued().len(), 2);
    assert_eq!(q.queued()[0].id, a[0], "FIFO order");
    assert_eq!(q.cancel(b[0]), Cancelled::Queued, "a queued job cancels");
    assert_eq!(q.queued().len(), 1);
    assert_eq!(q.cancel(b[0]), Cancelled::Unknown, "cancelling twice is a no-op");
    assert_eq!(q.cancel(9_999), Cancelled::Unknown, "an unknown id cancels nothing");
    assert_eq!(q.pop().unwrap().id, a[0]);
    assert!(q.pop().is_none());
}

#[test]
fn backfill_fans_a_range_into_per_package_jobs() {
    let mut q = JobQueue::new();
    let ids = enqueue(&mut q, &JobRequest {
        kind: "backfill".into(),
        source: Some("doe".into()),
        range: Some(["2024-01".into(), "2024-03".into()]),
        ..Default::default()
    })
    .unwrap();
    assert_eq!(ids.len(), 5);
    let queued = q.queued();
    assert_eq!(queued.iter().filter(|j| j.kind == "fetch").count(), 3);
    assert_eq!(queued.last().unwrap().kind, "project");
    assert_eq!(params(&q), vec!["doe monthly 2024-01", "doe monthly 2024-02", "doe monthly 2024-03", "doe monthly (all)", "rebuild=false"]);

    assert!(enqueue(&mut q, &req("nonsense")).is_err());
    assert_eq!(enqueue(&mut q, &req("fetch")).unwrap_err(), "fetch needs a period");
}

fn row(id: i64, kind: &str, params: &str, spec: Option<Spec>, progress: Option<&str>) -> RecoveredRow {
    RecoveredRow { id, kind: kind.into(), params: params.into(), spec, progress: progress.map(str::to_owned) }
}

#[test]
fn a_drained_restart_does_not_reissue_a_spent_job_id() {
    let mut q = JobQueue::new();
    let id = enqueue(&mut q, &req("project")).unwrap()[0];
    let mut restarted = JobQueue::new();
    let r = restarted.recover(Vec::new(), &Vec::new(), Some(id as i64));
    assert_eq!(r.recovered, 0);
    let fresh = enqueue(&mut restarted, &req("project")).unwrap();
    assert!(fresh[0] > id, "a drained restart reissued id {} (spent by the logged run {id})", fresh[0]);
}

#[test]
fn recovers_the_queue_across_a_restart() {
    let project = || Some(Spec::Project { rebuild: false, clear_changes: false });
    let rows = vec![
        row(3, "fetch", "doe monthly 2024-01", Some(Spec::Fetch { source: "doe".into(), package_kind: "monthly".into(), period: "2024-01".into(), refetch: false }), None),
        row(4, "process", "doe monthly (all)", Some(Spec::Process { source: "doe".into(), package_kind: "monthly".into(), period: None }), Some("2004-07")),
        row(5, "mystery", "from a newer build", None, None),
        row(6, "project", "rebuild=false", project(), None),
        row(8, "reindex", "reindex", Some(Spec::Reindex), None),
    ];
    let mut q = JobQueue::new();
    let r = q.recover(rows, &vec![8], Some(2));
    assert_eq!(r.recovered, 3);
    assert_eq!(r.remove, vec![5, 8], "the unreadable row and the dropped one lose their durable rows");
    let ids: Vec<u64> = q.queued().iter().map(|j| j.id).collect();
    assert_eq!(ids, vec![3, 4, 6]);
    let first = q.pop().unwrap();
    assert!(first.resume_after.is_none());
    assert_eq!(q.pop().unwrap().resume_after.as_deref(), Some("2004-07"), "the resume cursor comes back with its job");
    let fresh = enqueue(&mut q, &req("project")).unwrap();
    assert_eq!(fresh[0], 9, "next_id advanced past recovered and dropped ids");
}

#[test]
fn the_mark_job_defaults_to_a_dry_run() {
    let mut q = JobQueue::new();
    enqueue(&mut q, &req("mark-skipped-siblings")).unwrap();
    assert_eq!(q.queued()[0].params, "dry-run", "omitted dry_run must mean dry run");
    enqueue(&mut q, &JobRequest { kind: "mark-skipped-siblings".into(), dry_run: Some(false), ..Default::default() }).unwrap();
    assert_eq!(q.queued()[1].params, "execute", "writing requires saying so explicitly");
}

#[test]
fn reprocess_reclaim_only_omits_the_trailing_project() {
    let mut q = JobQueue::new();
    let full = enqueue(&mut q, &JobRequest {
        kind: "reprocess".into(),
        reason: Some("unknown-field-code".into()),
        detail_like: Some("%: OC".into()),
        ..Default::default()
    })
    .unwrap();
    assert_eq!(full.len(), 2, "reprocess enqueues the reclaim + a trailing project");
    assert_eq!(q.queued()[0].params, "reprocess unknown-field-code LIKE %: OC");
    let bulk = enqueue(&mut q, &JobRequest {
        kind: "reprocess".into(),
        reason: Some("unknown-field-code".into()),
        reclaim_only: Some(true),
        profile: Some("ted-r2".into()),
        ..Default::default()
    })
    .unwrap();
    assert_eq!(bulk.len(), 1, "reclaim_only enqueues only the reclaim, no fold");
    assert_eq!(q.queued()[2].params, "reprocess unknown-field-code [ted-r2]");
    assert_eq!(enqueue(&mut q, &req("reprocess")).unwrap_err(), "reprocess needs a reason");
}

#[test]
fn an_interrupted_running_job_is_recovered_at_the_front() {
    let mut q = JobQueue::new();
    let running = enqueue(&mut q, &req("project")).unwrap()[0];
    let behind_id = enqueue(&mut q, &JobRequest { kind: "process".into(), source: Some("ted".into()), ..Default::default() }).unwrap()[0];
    // The worker takes the first job and is then killed mid-run: the durable rows
    // of both jobs survive.
    let taken = q.pop().expect("a job to run");
    assert_eq!(taken.id, running);
    let queued = q.queued();
    let process = &queued[0];
    let rows = vec![
        row(taken.id as i64, &taken.kind, &taken.params, Some(Spec::Project { rebuild: false, clear_changes: false }), None),
        row(behind_id as i64, &process.kind, &process.params, Some(Spec::Process { source: "ted".into(), package_kind: "daily".into(), period: None }), None),
    ];
    let mut restarted = JobQueue::new();
    restarted.recover(rows, &vec![], None);
    let recovered = restarted.queued();
    let interrupted = recovered.iter().position(|j| j.id == running).expect("the interrupted job is back");
    assert_eq!(recovered[interrupted].kind, "project");
    let behind = recovered.iter().position(|j| j.kind == "process").expect("the job queued behind it is back");
    assert!(interrupted < behind, "the interrupted job must come back AHEAD of the one queued behind it");
}
