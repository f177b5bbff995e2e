use tender_supervisor::job_lines::{
    doe_probe_summary, ecu_kept, ecu_refusal, edge_scan_dry_summary, edge_scan_stopped,
    edge_scan_summary, fields_refold_summary, ghost_summary, key_build_dry_summary,
    key_build_stopped, key_build_summary, mark_summary, notices_refold_summary, org_merge_summary,
    rates_empty_refusal, refold_summary, sections_none_summary, sections_summary,
    swept_dry_summary, swept_summary, ted_probe_summary, EdgeScan, GhostCensus, KeyBuildWindow,
    OrgMergeBatch,
};

fn window() -> KeyBuildWindow {
    KeyBuildWindow { orgs: 1, names_read: 2, n2_rows: 3, n3_rows: 4, empty_skipped: 5, rows_written: 6 }
}

fn scan() -> EdgeScan {
    EdgeScan {
        keys_walked: 1,
        groups_ge2: 2,
        groups_emitting: 3,
        would_emit: 4,
        e3_name: 5,
        e3_xlang: 6,
        stoplist_skipped_n2: 7,
        stoplist_skipped_n3: 8,
        max_group: 9,
        provisional_only_groups: 10,
        pairs_considered: 11,
        dangling_members: 12,
        stale_pairs: 13,
        exemplar_edges: 14,
        edges_written: 15,
        edges_new: 16,
        edges_refreshed: 17,
        total_edges_after: 18,
        bounds_ok: true,
        capped: true,
    }
}

fn merged() -> OrgMergeBatch {
    OrgMergeBatch {
        groups: 1,
        removed: 2,
        mentions: 3,
        parties: 4,
        bid_parties: 5,
        winners: 6,
        winner_dups: 7,
        tender_changes: 8,
    }
}

#[test]
fn maintenance_lines_are_exact() {
    assert_eq!(
        ted_probe_summary(&vec![true, false, true]),
        "probed 3 issue(s), 2 new"
    );
    assert_eq!(
        doe_probe_summary(&vec![]),
        "probed 0 day(s), 0 new"
    );
    assert_eq!(
        ghost_summary(&GhostCensus { ghost_notices: 2, slices: 3, window: 1_000_000, max_notice_id: 77, ghost_tender_refs: 5 }),
        "ghost-census (issue 278): 2 notice(s) claimed by 2+ Tenders across 3 slice(s) of 1000000 notice ids, up to 77. Claims total 5, so the surplus (ghost) Tender count is 3. A notice keys to exactly ONE group — `plan_notice.notice_id` is a PK — so any non-zero here is a defect, not a tolerance. NOTHING IS WRITTEN: this replaced the sweep that stalled the queue for 40+ minutes, and it counts rather than retires because there has been nothing to retire since the reparse backlog drained. If it ever returns non-zero, the retirement path already exists on the incremental fold (`retire_regrouped_tenders`) — re-queue the named notices and let an ordinary project run drop the stale member."
    );
    assert_eq!(
        ghost_summary(&GhostCensus { ghost_notices: 0, slices: 3, window: 1_000_000, max_notice_id: 77, ghost_tender_refs: 0 }),
        "ghost-census (issue 278): 0 notice(s) claimed by 2+ Tenders across 3 slice(s) of 1000000 notice ids, up to 77. Claims total 0, so the surplus (ghost) Tender count is 0. A notice keys to exactly ONE group — `plan_notice.notice_id` is a PK — so any non-zero here is a defect, not a tolerance. NOTHING IS WRITTEN: this replaced the sweep that stalled the queue for 40+ minutes, and it counts rather than retires because there has been nothing to retire since the reparse backlog drained. If it ever returns non-zero, the retirement path already exists on the incremental fold (`retire_regrouped_tenders`) — re-queue the named notices and let an ordinary project run drop the stale member."
    );
    assert_eq!(
        key_build_stopped(4, 900),
        "build-org-match-keys stopped by cancel after 4 windows (watermark stands at 900; a re-run resumes)"
    );
    assert_eq!(
        key_build_dry_summary(&window(), 3, 12),
        "build-org-match-keys DRY RUN — STORED NOTHING: 1 orgs, 2 names, 3 n2 + 4 n3 keys projected (5 empty skipped) over 3 windows in 12s"
    );
    assert_eq!(
        key_build_summary(99, &window(), 3, 12),
        "build-org-match-keys (issue 300 Stage 4): 99 rows stand indexed (3 n2 + 4 n3 from 1 orgs / 2 names, 5 empty skipped) over 3 windows in 12s"
    );
    assert_eq!(
        edge_scan_stopped(&scan()),
        "scan-org-match-keys STOPPED by cancel: census had 4 edges, 15 written before the stop; NO report was recorded"
    );
    assert_eq!(
        edge_scan_dry_summary(&scan(), 1711879, 40),
        "scan-org-match-keys DRY RUN — STORED NOTHING: 1 keys walked, 2 groups >=2, 3 emitting; would emit 4 edges (5 e3-name + 6 e3-xlang); stoplist skipped 7 n2 + 8 n3 (max group 9); 10 provisional-only groups, 11 pairs, 12 dangling, 13 stale; exemplar org 1711879 has 14 edge(s); bounds_ok=true in 40s"
    );
    assert_eq!(
        edge_scan_summary(&scan(), 1711879, 40, "; tripwire 6 QUIET"),
        "scan-org-match-keys (issue 300 Stage 4) CAPPED: 1 keys walked, 2 groups >=2, 3 emitting; 15 edges written (16 new, 17 refreshed) of a 4 census (5 e3-name + 6 e3-xlang); stoplist skipped 7 n2 + 8 n3; exemplar org 1711879 has 14 edge(s); 18 edges stand, in 40s; tripwire 6 QUIET"
    );
    assert_eq!(
        refold_summary(3, 2),
        "re-queued 3 notices, stamped 2 tenders epoch-stale for the incremental fold"
    );
    assert_eq!(
        sections_none_summary(&vec!["Lot".to_string(), "Part".to_string()]),
        "no parsed notice carries a [\"Lot\", \"Part\"] section"
    );
    assert_eq!(
        sections_summary(4, &vec!["Lot".to_string()], 4, 3),
        "4 notice(s) carry a [\"Lot\"] section: re-queued 4, stamped 3 tender(s) epoch-stale for the incremental fold"
    );
    assert_eq!(
        notices_refold_summary(2, 2, 1),
        "2 notice(s) named: re-queued 2, stamped 1 tender(s)                      epoch-stale for the incremental fold"
    );
    assert_eq!(
        fields_refold_summary(9, 2, 9, 6),
        "9 carriers of 2 field id(s): re-queued 9 notices, stamped 6 tenders epoch-stale for the incremental fold"
    );
    assert_eq!(
        mark_summary(12),
        "marked 12 rows skipped-by-policy (reversible: skipped_reason = 'internal-ojs-non-english')"
    );
    assert_eq!(
        swept_dry_summary(5),
        "dry run: 5 skipped sibling row(s) are REJECTED by the parsed-original guard and would be restored to outstanding"
    );
    assert_eq!(
        swept_summary(4, 5),
        "restored 4 guard-rejected sibling row(s) to outstanding (found 5 before the write)"
    );
    assert_eq!(
        org_merge_summary(true, false, &merged()),
        "CANCELLED at a checkpoint — org merge: collapsed 1 duplicate group(s): 2 provisional org(s) removed; 3 mention(s), 4 party row(s), 5 bid-party row(s), 6 winner row(s) repointed, 7 duplicate winner row(s) dropped, 8 tender change event(s)"
    );
    assert_eq!(
        org_merge_summary(false, true, &merged()),
        "org-merge dry run: would collapse 1 duplicate group(s): 2 provisional org(s) removed; 3 mention(s), 4 party row(s), 5 bid-party row(s), 6 winner row(s) repointed, 7 duplicate winner row(s) dropped, 8 tender change event(s)"
    );
    assert_eq!(
        rates_empty_refusal(512),
        "rates csv parsed to ZERO rows (512 bytes) — format drift? nothing written"
    );
}

#[test]
fn window_counts_add_up() {
    let mut t = KeyBuildWindow::new();
    t.add(&window());
    t.add(&window());
    assert_eq!((t.orgs, t.n3_rows, t.rows_written), (2, 8, 12));
    let mut m = OrgMergeBatch::new();
    m.add(&merged());
    assert_eq!((m.groups, m.tender_changes), (1, 8));
}

#[test]
fn ecu_rows_stop_at_the_euro_and_must_reach_december_1998() {
    assert!(ecu_kept("1998-12-31"));
    assert!(!ecu_kept("1999-01-01"));
    assert!(!ecu_kept("2001-05-02"));
    assert_eq!(ecu_refusal("ert_h_eur_d", 120, 4096, "1998-12-31"), None);
    assert_eq!(ecu_refusal("ert_h_eur_d", 120, 4096, "1998-12-01"), None);
    assert_eq!(
        ecu_refusal("ert_h_eur_d", 0, 4096, ""),
        Some("ert_h_eur_d parsed to ZERO rows (4096 bytes) — format drift? nothing written".to_string())
    );
    assert_eq!(
        ecu_refusal("ert_bil_eur_d", 10, 4096, "1997-06-30"),
        Some("ert_bil_eur_d coverage ends 1997-06-30 — the closed ECU series must reach 1998-12; truncated or defective file, nothing written (issue 306)".to_string())
    );
}
