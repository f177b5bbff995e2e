use tender_supervisor::jobs::{plan_request, JobRequest, PlanEnv, PlannedJob, Spec};

fn env() -> PlanEnv {
    PlanEnv { name_key_epoch: "n2-test".into(), doe_months: vec!["1995-01".into(), "1995-02".into()], rates_pending: false, recheck_pending: false }
}

fn req(kind: &str) -> JobRequest {
    JobRequest { kind: kind.into(), ..Default::default() }
}

fn lines(p: &[PlannedJob]) -> Vec<(String, String)> {
    p.iter().map(|j| (j.kind.clone(), j.params.clone())).collect()
}

fn pair(k: &str, p: &str) -> (String, String) {
    (k.to_owned(), p.to_owned())
}

#[test]
fn fetch_defaults_to_a_ted_daily_and_names_what_is_wrong() {
    let mut r = req("fetch");
    r.period = Some("2026-00137".into());
    let p = plan_request(&r, &env()).unwrap();
    assert_eq!(lines(&p), vec![pair("fetch", "ted daily 2026-00137")]);
    assert!(matches!(&p[0].spec, Spec::Fetch { refetch: false, .. }));
    r.source = Some("eu".into());
    assert_eq!(plan_request(&r, &env()).unwrap_err(), "unknown source \"eu\"");
    r.source = Some("doe".into());
    r.package_kind = Some("weekly".into());
    assert_eq!(plan_request(&r, &env()).unwrap_err(), "unknown package kind \"weekly\"");
}

#[test]
fn process_and_project_name_their_scope() {
    let mut r = req("process");
    assert_eq!(lines(&plan_request(&r, &env()).unwrap()), vec![pair("process", "ted daily (all)")]);
    r.source = Some("doe".into());
    r.period = Some("2026-07-18".into());
    assert_eq!(lines(&plan_request(&r, &env()).unwrap()), vec![pair("process", "doe daily 2026-07-18")]);
    let mut r = req("project");
    assert_eq!(lines(&plan_request(&r, &env()).unwrap()), vec![pair("project", "rebuild=false")]);
    r.clear_changes = Some(true);
    assert_eq!(lines(&plan_request(&r, &env()).unwrap()), vec![pair("project", "rebuild=false")], "clear_changes only pairs with a rebuild");
    r.rebuild = Some(true);
    assert_eq!(lines(&plan_request(&r, &env()).unwrap()), vec![pair("project", "rebuild=true clear_changes")]);
}

#[test]
fn backfill_needs_a_source_and_a_range_for_ted() {
    assert_eq!(plan_request(&req("backfill"), &env()).unwrap_err(), "backfill needs a source");
    let mut r = req("backfill");
    r.source = Some("ted".into());
    assert_eq!(plan_request(&r, &env()).unwrap_err(), "ted backfill needs a monthly range");
    r.source = Some("doe".into());
    let p = plan_request(&r, &env()).unwrap();
    assert_eq!(
        lines(&p),
        vec![pair("fetch", "doe monthly 1995-01"), pair("fetch", "doe monthly 1995-02"), pair("process", "doe monthly (all)"), pair("project", "rebuild=false")],
        "a range-less DÖE backfill covers the whole monthly archive"
    );
    let empty = PlanEnv { doe_months: Vec::new(), ..env() };
    assert_eq!(plan_request(&r, &empty).unwrap_err(), "backfill range is empty");
    r.source = Some("ted".into());
    r.range = Some(["2024-12".into(), "2024-11".into()]);
    assert_eq!(plan_request(&r, &env()).unwrap_err(), "range start 2024-12 is after end 2024-11");
    r.source = Some("x".into());
    assert_eq!(plan_request(&r, &env()).unwrap_err(), "unknown source \"x\"");
}

#[test]
fn writers_are_dry_unless_told_otherwise() {
    for (kind, dry, wet) in [
        ("apply-case-reviews", "apply-case-reviews dry-run", "apply-case-reviews"),
        ("unapply-case-reviews", "unapply-case-reviews dry-run (select=uuid-v4)", "unapply-case-reviews (select=uuid-v4)"),
        ("fold-org-countries", "fold-org-countries dry-run", "fold-org-countries"),
        ("repair-nested-orgs", "repair-nested-orgs dry-run", "repair-nested-orgs"),
        ("merge-provisional-orgs", "dry-run", "execute"),
        ("repair-swept-siblings", "dry-run", "execute"),
        ("restore-dropped-satellites", "restore-dropped-satellites dry-run", "restore-dropped-satellites"),
        ("build-org-match-keys", "build-org-match-keys dry-run", "build-org-match-keys"),
    ] {
        let p = plan_request(&req(kind), &env()).unwrap();
        assert_eq!(lines(&p), vec![pair(kind, dry)]);
        let mut r = req(kind);
        r.dry_run = Some(false);
        let p = plan_request(&r, &env()).unwrap();
        assert_eq!(lines(&p), vec![pair(kind, wet)]);
    }
}

#[test]
fn match_org_identifiers_takes_a_rule_and_a_cap() {
    let p = plan_request(&req("match-org-identifiers"), &env()).unwrap();
    assert_eq!(lines(&p), vec![pair("match-org-identifiers", "match-org-identifiers r2 dry-run")]);
    assert!(matches!(&p[0].spec, Spec::MatchOrgIdentifiersR2 { dry_run: true, max_groups: None }));
    let mut r = req("match-org-identifiers");
    r.rule = Some("r3".into());
    r.dry_run = Some(false);
    r.max_groups = Some(50);
    let p = plan_request(&r, &env()).unwrap();
    assert_eq!(lines(&p), vec![pair("match-org-identifiers", "match-org-identifiers r3 cap=50")]);
    assert!(matches!(&p[0].spec, Spec::MatchOrgIdentifiersR3 { dry_run: false, max_groups: Some(50) }));
    r.rule = Some("r9".into());
    assert_eq!(plan_request(&r, &env()).unwrap_err(), "match-org-identifiers: unknown rule 'r9' (r2 or r3)");
}

#[test]
fn simple_kinds_queue_one_fixed_job() {
    assert_eq!(lines(&plan_request(&req("fetch-rates"), &env()).unwrap()), vec![pair("fetch-rates", "ecb eurofxref-hist")]);
    assert_eq!(lines(&plan_request(&req("sweep-regrouped-ghosts"), &env()).unwrap()), vec![pair("ghost-census", "ghost-census")]);
    assert_eq!(lines(&plan_request(&req("reveal-recheck"), &env()).unwrap()), vec![pair("reveal-recheck", "reveal recheck")]);
    assert_eq!(
        lines(&plan_request(&req("rederive-eur"), &env()).unwrap()),
        vec![pair("rederive-eur", "rederive-eur"), pair("backfill-values", "backfill-values")]
    );
    assert_eq!(plan_request(&req("nonsense"), &env()).unwrap_err(), "unknown job kind \"nonsense\"");
}

#[test]
fn refold_and_refold_fields_pair_with_a_projection() {
    let mut r = req("refold");
    assert_eq!(plan_request(&r, &env()).unwrap_err(), "refold needs at least one profile");
    r.profiles = Some(vec!["a".into(), "b".into()]);
    r.expect = Some(9);
    let p = plan_request(&r, &env()).unwrap();
    assert_eq!(lines(&p), vec![pair("refold", "refold a,b"), pair("project", "rebuild=false")]);
    let mut r = req("refold-fields");
    assert_eq!(plan_request(&r, &env()).unwrap_err(), "refold-fields needs at least one field id (pass via profiles)");
    r.profiles = Some(vec!["BT-1".into()]);
    assert_eq!(lines(&plan_request(&r, &env()).unwrap()), vec![pair("refold-fields", "refold-fields BT-1"), pair("project", "rebuild=false")]);
}

#[test]
fn a_daily_request_runs_the_weekday_pipeline() {
    let p = plan_request(&req("daily"), &PlanEnv { rates_pending: true, ..env() }).unwrap();
    let kinds: Vec<String> = p.iter().map(|j| j.kind.clone()).collect();
    assert_eq!(kinds, vec!["probe", "process", "probe", "process", "project", "reveal-recheck"]);
}
