//! The result lines of the remaining maintenance jobs: the daily probes, the
//! ghost census, the match-key build and the edge scan, the refolds, the
//! sibling marks and sweeps, the provisional-org merge and the rate loads.
use vstd::prelude::*;
use crate::gates::{debug_list, push_debug_list};
use crate::residual::text_lt;
use crate::text::{bool_text, dec, dec_int, push_bool, push_i64, push_u64, str_eq};
use crate::windows::str_le;

verus! {

/// How many of the flags are set.
pub open spec fn count_true(s: Seq<bool>) -> nat
    decreases s.len(),
{
    if s.len() == 0 {
        0
    } else {
        count_true(s.drop_last()) + if s.last() {
            1nat
        } else {
            0nat
        }
    }
}

fn count_new(v: &Vec<bool>) -> (r: u64)
    ensures
        r == count_true(v@),
{
    let mut n: u64 = 0;
    let mut i: usize = 0;
    while i < v.len()
        invariant
            i <= v@.len(),
            n == count_true(v@.take(i as int)),
            n <= i,
        decreases v@.len() - i,
    {
        proof {
            assert(v@.take(i + 1).drop_last() =~= v@.take(i as int));
        }
        if v[i] {
            n = n + 1;
        }
        i = i + 1;
    }
    proof {
        assert(v@.take(v@.len() as int) =~= v@);
    }
    n
}

/// The result line of a probe over issues, from whether each package it probed came back new (fetched or a new version).
pub open spec fn ted_probe_summary_text(new: Seq<bool>) -> Seq<char> {
    "probed "@
        + (dec(new.len()))
        + " issue(s), "@
        + (dec(count_true(new)))
        + " new"@
}

/// The result line of a probe over issues, from whether each package it probed came back new (fetched or a new version).
pub fn ted_probe_summary(new: &Vec<bool>) -> (s: String)
    ensures
        s@ == ted_probe_summary_text(new@),
{
    let mut s = String::new();
    s.append("probed ");
    push_u64(&mut s, new.len() as u64);
    s.append(" issue(s), ");
    push_u64(&mut s, count_new(new));
    s.append(" new");
    s
}

/// The result line of a probe over days, from whether each package it probed came back new (fetched or a new version).
pub open spec fn doe_probe_summary_text(new: Seq<bool>) -> Seq<char> {
    "probed "@
        + (dec(new.len()))
        + " day(s), "@
        + (dec(count_true(new)))
        + " new"@
}

/// The result line of a probe over days, from whether each package it probed came back new (fetched or a new version).
pub fn doe_probe_summary(new: &Vec<bool>) -> (s: String)
    ensures
        s@ == doe_probe_summary_text(new@),
{
    let mut s = String::new();
    s.append("probed ");
    push_u64(&mut s, new.len() as u64);
    s.append(" day(s), ");
    push_u64(&mut s, count_new(new));
    s.append(" new");
    s
}

/// What the ghost census reports.
pub struct GhostCensus {
    pub ghost_notices: u64,
    pub slices: u64,
    pub window: i64,
    pub max_notice_id: i64,
    pub ghost_tender_refs: u64,
}

/// The result line of the ghost census: the claims beyond one per notice are the ghost Tenders.
pub open spec fn ghost_summary_text(r: GhostCensus) -> Seq<char> {
    "ghost-census (issue 278): "@
        + dec((r.ghost_notices) as nat)
        + " notice(s) claimed by 2+ Tenders across "@
        + dec((r.slices) as nat)
        + " slice(s) of "@
        + dec_int((r.window) as int)
        + " notice ids, up to "@
        + dec_int((r.max_notice_id) as int)
        + ". Claims total "@
        + dec((r.ghost_tender_refs) as nat)
        + ", so the surplus (ghost) Tender count is "@
        + (dec((if r.ghost_tender_refs >= r.ghost_notices { r.ghost_tender_refs - r.ghost_notices } else { 0 }) as nat))
        + ". A notice keys to exactly ONE group — `plan_notice.notice_id` is a PK — so any non-zero here is a defect, not a tolerance. NOTHING IS WRITTEN: this replaced the sweep that stalled the queue for 40+ minutes, and it counts rather than retires because there has been nothing to retire since the reparse backlog drained. If it ever returns non-zero, the retirement path already exists on the incremental fold (`retire_regrouped_tenders`) — re-queue the named notices and let an ordinary project run drop the stale member."@
}

/// The result line of the ghost census: the claims beyond one per notice are the ghost Tenders.
pub fn ghost_summary(r: &GhostCensus) -> (s: String)
    ensures
        s@ == ghost_summary_text(*r),
{
    let mut s = String::new();
    s.append("ghost-census (issue 278): ");
    push_u64(&mut s, r.ghost_notices);
    s.append(" notice(s) claimed by 2+ Tenders across ");
    push_u64(&mut s, r.slices);
    s.append(" slice(s) of ");
    push_i64(&mut s, r.window);
    s.append(" notice ids, up to ");
    push_i64(&mut s, r.max_notice_id);
    s.append(". Claims total ");
    push_u64(&mut s, r.ghost_tender_refs);
    s.append(", so the surplus (ghost) Tender count is ");
    push_u64(&mut s, r.ghost_tender_refs.saturating_sub(r.ghost_notices));
    s.append(". A notice keys to exactly ONE group — `plan_notice.notice_id` is a PK — so any non-zero here is a defect, not a tolerance. NOTHING IS WRITTEN: this replaced the sweep that stalled the queue for 40+ minutes, and it counts rather than retires because there has been nothing to retire since the reparse backlog drained. If it ever returns non-zero, the retirement path already exists on the incremental fold (`retire_regrouped_tenders`) — re-queue the named notices and let an ordinary project run drop the stale member.");
    s
}

/// The counts of the match-key build, per window or in total.
pub struct KeyBuildWindow {
    pub orgs: u64,
    pub names_read: u64,
    pub n2_rows: u64,
    pub n3_rows: u64,
    pub empty_skipped: u64,
    pub rows_written: u64,
}

impl KeyBuildWindow {
    /// Nothing counted.
    pub fn new() -> (t: Self)
        ensures
            t.orgs == 0,
            t.names_read == 0,
            t.n2_rows == 0,
            t.n3_rows == 0,
            t.empty_skipped == 0,
            t.rows_written == 0,
    {
        KeyBuildWindow {
            orgs: 0,
            names_read: 0,
            n2_rows: 0,
            n3_rows: 0,
            empty_skipped: 0,
            rows_written: 0,
        }
    }

    /// Adds one window's counts.
    pub fn add(&mut self, b: &Self)
        requires
            old(self).orgs + b.orgs <= u64::MAX,
            old(self).names_read + b.names_read <= u64::MAX,
            old(self).n2_rows + b.n2_rows <= u64::MAX,
            old(self).n3_rows + b.n3_rows <= u64::MAX,
            old(self).empty_skipped + b.empty_skipped <= u64::MAX,
            old(self).rows_written + b.rows_written <= u64::MAX,
        ensures
            final(self).orgs == old(self).orgs + b.orgs,
            final(self).names_read == old(self).names_read + b.names_read,
            final(self).n2_rows == old(self).n2_rows + b.n2_rows,
            final(self).n3_rows == old(self).n3_rows + b.n3_rows,
            final(self).empty_skipped == old(self).empty_skipped + b.empty_skipped,
            final(self).rows_written == old(self).rows_written + b.rows_written,
    {
        self.orgs = self.orgs + b.orgs;
        self.names_read = self.names_read + b.names_read;
        self.n2_rows = self.n2_rows + b.n2_rows;
        self.n3_rows = self.n3_rows + b.n3_rows;
        self.empty_skipped = self.empty_skipped + b.empty_skipped;
        self.rows_written = self.rows_written + b.rows_written;
    }
}

/// The result line of a key build stopped by a cancel.
pub open spec fn key_build_stopped_text(windows: u64, after: i64) -> Seq<char> {
    "build-org-match-keys stopped by cancel after "@
        + dec((windows) as nat)
        + " windows (watermark stands at "@
        + dec_int((after) as int)
        + "; a re-run resumes)"@
}

/// The result line of a key build stopped by a cancel.
pub fn key_build_stopped(windows: u64, after: i64) -> (s: String)
    ensures
        s@ == key_build_stopped_text(windows, after),
{
    let mut s = String::new();
    s.append("build-org-match-keys stopped by cancel after ");
    push_u64(&mut s, windows);
    s.append(" windows (watermark stands at ");
    push_i64(&mut s, after);
    s.append("; a re-run resumes)");
    s
}

/// The result line of a dry key build.
pub open spec fn key_build_dry_summary_text(t: KeyBuildWindow, windows: u64, secs: u64) -> Seq<char> {
    "build-org-match-keys DRY RUN — STORED NOTHING: "@
        + dec((t.orgs) as nat)
        + " orgs, "@
        + dec((t.names_read) as nat)
        + " names, "@
        + dec((t.n2_rows) as nat)
        + " n2 + "@
        + dec((t.n3_rows) as nat)
        + " n3 keys projected ("@
        + dec((t.empty_skipped) as nat)
        + " empty skipped) over "@
        + dec((windows) as nat)
        + " windows in "@
        + dec((secs) as nat)
        + "s"@
}

/// The result line of a dry key build.
pub fn key_build_dry_summary(t: &KeyBuildWindow, windows: u64, secs: u64) -> (s: String)
    ensures
        s@ == key_build_dry_summary_text(*t, windows, secs),
{
    let mut s = String::new();
    s.append("build-org-match-keys DRY RUN — STORED NOTHING: ");
    push_u64(&mut s, t.orgs);
    s.append(" orgs, ");
    push_u64(&mut s, t.names_read);
    s.append(" names, ");
    push_u64(&mut s, t.n2_rows);
    s.append(" n2 + ");
    push_u64(&mut s, t.n3_rows);
    s.append(" n3 keys projected (");
    push_u64(&mut s, t.empty_skipped);
    s.append(" empty skipped) over ");
    push_u64(&mut s, windows);
    s.append(" windows in ");
    push_u64(&mut s, secs);
    s.append("s");
    s
}

/// The result line of a wet key build, with the rows that stand indexed.
pub open spec fn key_build_summary_text(rows: u64, t: KeyBuildWindow, windows: u64, secs: u64) -> Seq<char> {
    "build-org-match-keys (issue 300 Stage 4): "@
        + dec((rows) as nat)
        + " rows stand indexed ("@
        + dec((t.n2_rows) as nat)
        + " n2 + "@
        + dec((t.n3_rows) as nat)
        + " n3 from "@
        + dec((t.orgs) as nat)
        + " orgs / "@
        + dec((t.names_read) as nat)
        + " names, "@
        + dec((t.empty_skipped) as nat)
        + " empty skipped) over "@
        + dec((windows) as nat)
        + " windows in "@
        + dec((secs) as nat)
        + "s"@
}

/// The result line of a wet key build, with the rows that stand indexed.
pub fn key_build_summary(rows: u64, t: &KeyBuildWindow, windows: u64, secs: u64) -> (s: String)
    ensures
        s@ == key_build_summary_text(rows, *t, windows, secs),
{
    let mut s = String::new();
    s.append("build-org-match-keys (issue 300 Stage 4): ");
    push_u64(&mut s, rows);
    s.append(" rows stand indexed (");
    push_u64(&mut s, t.n2_rows);
    s.append(" n2 + ");
    push_u64(&mut s, t.n3_rows);
    s.append(" n3 from ");
    push_u64(&mut s, t.orgs);
    s.append(" orgs / ");
    push_u64(&mut s, t.names_read);
    s.append(" names, ");
    push_u64(&mut s, t.empty_skipped);
    s.append(" empty skipped) over ");
    push_u64(&mut s, windows);
    s.append(" windows in ");
    push_u64(&mut s, secs);
    s.append("s");
    s
}

/// What an edge scan reports.
pub struct EdgeScan {
    pub keys_walked: u64,
    pub groups_ge2: u64,
    pub groups_emitting: u64,
    pub would_emit: u64,
    pub e3_name: u64,
    pub e3_xlang: u64,
    pub stoplist_skipped_n2: u64,
    pub stoplist_skipped_n3: u64,
    pub max_group: u64,
    pub provisional_only_groups: u64,
    pub pairs_considered: u64,
    pub dangling_members: u64,
    pub stale_pairs: u64,
    pub exemplar_edges: u64,
    pub edges_written: u64,
    pub edges_new: u64,
    pub edges_refreshed: u64,
    pub total_edges_after: u64,
    pub bounds_ok: bool,
    pub capped: bool,
}

/// The result line of an edge scan stopped by a cancel.
pub open spec fn edge_scan_stopped_text(r: EdgeScan) -> Seq<char> {
    "scan-org-match-keys STOPPED by cancel: census had "@
        + dec((r.would_emit) as nat)
        + " edges, "@
        + dec((r.edges_written) as nat)
        + " written before the stop; NO report was recorded"@
}

/// The result line of an edge scan stopped by a cancel.
pub fn edge_scan_stopped(r: &EdgeScan) -> (s: String)
    ensures
        s@ == edge_scan_stopped_text(*r),
{
    let mut s = String::new();
    s.append("scan-org-match-keys STOPPED by cancel: census had ");
    push_u64(&mut s, r.would_emit);
    s.append(" edges, ");
    push_u64(&mut s, r.edges_written);
    s.append(" written before the stop; NO report was recorded");
    s
}

/// The result line of a dry edge scan, with the exemplar org it counted edges for.
pub open spec fn edge_scan_dry_summary_text(r: EdgeScan, exemplar: i64, secs: u64) -> Seq<char> {
    "scan-org-match-keys DRY RUN — STORED NOTHING: "@
        + dec((r.keys_walked) as nat)
        + " keys walked, "@
        + dec((r.groups_ge2) as nat)
        + " groups >=2, "@
        + dec((r.groups_emitting) as nat)
        + " emitting; would emit "@
        + dec((r.would_emit) as nat)
        + " edges ("@
        + dec((r.e3_name) as nat)
        + " e3-name + "@
        + dec((r.e3_xlang) as nat)
        + " e3-xlang); stoplist skipped "@
        + dec((r.stoplist_skipped_n2) as nat)
        + " n2 + "@
        + dec((r.stoplist_skipped_n3) as nat)
        + " n3 (max group "@
        + dec((r.max_group) as nat)
        + "); "@
        + dec((r.provisional_only_groups) as nat)
        + " provisional-only groups, "@
        + dec((r.pairs_considered) as nat)
        + " pairs, "@
        + dec((r.dangling_members) as nat)
        + " dangling, "@
        + dec((r.stale_pairs) as nat)
        + " stale; exemplar org "@
        + dec_int((exemplar) as int)
        + " has "@
        + dec((r.exemplar_edges) as nat)
        + " edge(s); bounds_ok="@
        + (bool_text(r.bounds_ok))
        + " in "@
        + dec((secs) as nat)
        + "s"@
}

/// The result line of a dry edge scan, with the exemplar org it counted edges for.
pub fn edge_scan_dry_summary(r: &EdgeScan, exemplar: i64, secs: u64) -> (s: String)
    ensures
        s@ == edge_scan_dry_summary_text(*r, exemplar, secs),
{
    let mut s = String::new();
    s.append("scan-org-match-keys DRY RUN — STORED NOTHING: ");
    push_u64(&mut s, r.keys_walked);
    s.append(" keys walked, ");
    push_u64(&mut s, r.groups_ge2);
    s.append(" groups >=2, ");
    push_u64(&mut s, r.groups_emitting);
    s.append(" emitting; would emit ");
    push_u64(&mut s, r.would_emit);
    s.append(" edges (");
    push_u64(&mut s, r.e3_name);
    s.append(" e3-name + ");
    push_u64(&mut s, r.e3_xlang);
    s.append(" e3-xlang); stoplist skipped ");
    push_u64(&mut s, r.stoplist_skipped_n2);
    s.append(" n2 + ");
    push_u64(&mut s, r.stoplist_skipped_n3);
    s.append(" n3 (max group ");
    push_u64(&mut s, r.max_group);
    s.append("); ");
    push_u64(&mut s, r.provisional_only_groups);
    s.append(" provisional-only groups, ");
    push_u64(&mut s, r.pairs_considered);
    s.append(" pairs, ");
    push_u64(&mut s, r.dangling_members);
    s.append(" dangling, ");
    push_u64(&mut s, r.stale_pairs);
    s.append(" stale; exemplar org ");
    push_i64(&mut s, exemplar);
    s.append(" has ");
    push_u64(&mut s, r.exemplar_edges);
    s.append(" edge(s); bounds_ok=");
    push_bool(&mut s, r.bounds_ok);
    s.append(" in ");
    push_u64(&mut s, secs);
    s.append("s");
    s
}

/// The result line of a wet edge scan, ending with the tripwire line.
pub open spec fn edge_scan_summary_text(r: EdgeScan, exemplar: i64, secs: u64, alarm_line: Seq<char>) -> Seq<char> {
    "scan-org-match-keys (issue 300 Stage 4)"@
        + (if r.capped {
        " CAPPED"@
    } else {
        Seq::<char>::empty()
    })
        + ": "@
        + dec((r.keys_walked) as nat)
        + " keys walked, "@
        + dec((r.groups_ge2) as nat)
        + " groups >=2, "@
        + dec((r.groups_emitting) as nat)
        + " emitting; "@
        + dec((r.edges_written) as nat)
        + " edges written ("@
        + dec((r.edges_new) as nat)
        + " new, "@
        + dec((r.edges_refreshed) as nat)
        + " refreshed) of a "@
        + dec((r.would_emit) as nat)
        + " census ("@
        + dec((r.e3_name) as nat)
        + " e3-name + "@
        + dec((r.e3_xlang) as nat)
        + " e3-xlang); stoplist skipped "@
        + dec((r.stoplist_skipped_n2) as nat)
        + " n2 + "@
        + dec((r.stoplist_skipped_n3) as nat)
        + " n3; exemplar org "@
        + dec_int((exemplar) as int)
        + " has "@
        + dec((r.exemplar_edges) as nat)
        + " edge(s); "@
        + dec((r.total_edges_after) as nat)
        + " edges stand, in "@
        + dec((secs) as nat)
        + "s"@
        + (alarm_line)
}

/// The result line of a wet edge scan, ending with the tripwire line.
pub fn edge_scan_summary(r: &EdgeScan, exemplar: i64, secs: u64, alarm_line: &str) -> (s: String)
    ensures
        s@ == edge_scan_summary_text(*r, exemplar, secs, alarm_line@),
{
    let mut s = String::new();
    s.append("scan-org-match-keys (issue 300 Stage 4)");
    if r.capped {
        s.append(" CAPPED");
    }
    s.append(": ");
    push_u64(&mut s, r.keys_walked);
    s.append(" keys walked, ");
    push_u64(&mut s, r.groups_ge2);
    s.append(" groups >=2, ");
    push_u64(&mut s, r.groups_emitting);
    s.append(" emitting; ");
    push_u64(&mut s, r.edges_written);
    s.append(" edges written (");
    push_u64(&mut s, r.edges_new);
    s.append(" new, ");
    push_u64(&mut s, r.edges_refreshed);
    s.append(" refreshed) of a ");
    push_u64(&mut s, r.would_emit);
    s.append(" census (");
    push_u64(&mut s, r.e3_name);
    s.append(" e3-name + ");
    push_u64(&mut s, r.e3_xlang);
    s.append(" e3-xlang); stoplist skipped ");
    push_u64(&mut s, r.stoplist_skipped_n2);
    s.append(" n2 + ");
    push_u64(&mut s, r.stoplist_skipped_n3);
    s.append(" n3; exemplar org ");
    push_i64(&mut s, exemplar);
    s.append(" has ");
    push_u64(&mut s, r.exemplar_edges);
    s.append(" edge(s); ");
    push_u64(&mut s, r.total_edges_after);
    s.append(" edges stand, in ");
    push_u64(&mut s, secs);
    s.append("s");
    s.append(alarm_line);
    s
}

/// The result line of a profile refold.
pub open spec fn refold_summary_text(requeued: u64, stamped: u64) -> Seq<char> {
    "re-queued "@
        + dec((requeued) as nat)
        + " notices, stamped "@
        + dec((stamped) as nat)
        + " tenders epoch-stale for the incremental fold"@
}

/// The result line of a profile refold.
pub fn refold_summary(requeued: u64, stamped: u64) -> (s: String)
    ensures
        s@ == refold_summary_text(requeued, stamped),
{
    let mut s = String::new();
    s.append("re-queued ");
    push_u64(&mut s, requeued);
    s.append(" notices, stamped ");
    push_u64(&mut s, stamped);
    s.append(" tenders epoch-stale for the incremental fold");
    s
}

/// The result line of a section refold that found no carrier.
pub open spec fn sections_none_summary_text(kinds: Seq<Seq<char>>) -> Seq<char> {
    "no parsed notice carries a "@
        + (debug_list(kinds))
        + " section"@
}

/// The result line of a section refold that found no carrier.
pub fn sections_none_summary(kinds: &Vec<String>) -> (s: String)
    ensures
        s@ == sections_none_summary_text(kinds.deep_view()),
{
    let mut s = String::new();
    s.append("no parsed notice carries a ");
    push_debug_list(&mut s, kinds);
    s.append(" section");
    s
}

/// The result line of a section refold over its carriers.
pub open spec fn sections_summary_text(carriers: u64, kinds: Seq<Seq<char>>, requeued: u64, stamped: u64) -> Seq<char> {
    dec((carriers) as nat)
        + " notice(s) carry a "@
        + (debug_list(kinds))
        + " section: re-queued "@
        + dec((requeued) as nat)
        + ", stamped "@
        + dec((stamped) as nat)
        + " tender(s) epoch-stale for the incremental fold"@
}

/// The result line of a section refold over its carriers.
pub fn sections_summary(carriers: u64, kinds: &Vec<String>, requeued: u64, stamped: u64) -> (s: String)
    ensures
        s@ == sections_summary_text(carriers, kinds.deep_view(), requeued, stamped),
{
    let mut s = String::new();
    push_u64(&mut s, carriers);
    s.append(" notice(s) carry a ");
    push_debug_list(&mut s, kinds);
    s.append(" section: re-queued ");
    push_u64(&mut s, requeued);
    s.append(", stamped ");
    push_u64(&mut s, stamped);
    s.append(" tender(s) epoch-stale for the incremental fold");
    s
}

/// The result line of a refold of named notices.
pub open spec fn notices_refold_summary_text(named: u64, requeued: u64, stamped: u64) -> Seq<char> {
    dec((named) as nat)
        + " notice(s) named: re-queued "@
        + dec((requeued) as nat)
        + ", stamped "@
        + dec((stamped) as nat)
        + " tender(s)                      epoch-stale for the incremental fold"@
}

/// The result line of a refold of named notices.
pub fn notices_refold_summary(named: u64, requeued: u64, stamped: u64) -> (s: String)
    ensures
        s@ == notices_refold_summary_text(named, requeued, stamped),
{
    let mut s = String::new();
    push_u64(&mut s, named);
    s.append(" notice(s) named: re-queued ");
    push_u64(&mut s, requeued);
    s.append(", stamped ");
    push_u64(&mut s, stamped);
    s.append(" tender(s)                      epoch-stale for the incremental fold");
    s
}

/// The result line of a field refold over its carriers.
pub open spec fn fields_refold_summary_text(found: u64, fields: u64, requeued: u64, stamped: u64) -> Seq<char> {
    dec((found) as nat)
        + " carriers of "@
        + dec((fields) as nat)
        + " field id(s): re-queued "@
        + dec((requeued) as nat)
        + " notices, stamped "@
        + dec((stamped) as nat)
        + " tenders epoch-stale for the incremental fold"@
}

/// The result line of a field refold over its carriers.
pub fn fields_refold_summary(found: u64, fields: u64, requeued: u64, stamped: u64) -> (s: String)
    ensures
        s@ == fields_refold_summary_text(found, fields, requeued, stamped),
{
    let mut s = String::new();
    push_u64(&mut s, found);
    s.append(" carriers of ");
    push_u64(&mut s, fields);
    s.append(" field id(s): re-queued ");
    push_u64(&mut s, requeued);
    s.append(" notices, stamped ");
    push_u64(&mut s, stamped);
    s.append(" tenders epoch-stale for the incremental fold");
    s
}

/// The result line of marking skipped siblings.
pub open spec fn mark_summary_text(marked: u64) -> Seq<char> {
    "marked "@
        + dec((marked) as nat)
        + " rows skipped-by-policy (reversible: skipped_reason = 'internal-ojs-non-english')"@
}

/// The result line of marking skipped siblings.
pub fn mark_summary(marked: u64) -> (s: String)
    ensures
        s@ == mark_summary_text(marked),
{
    let mut s = String::new();
    s.append("marked ");
    push_u64(&mut s, marked);
    s.append(" rows skipped-by-policy (reversible: skipped_reason = 'internal-ojs-non-english')");
    s
}

/// The result line of a dry sweep repair.
pub open spec fn swept_dry_summary_text(swept: u64) -> Seq<char> {
    "dry run: "@
        + dec((swept) as nat)
        + " skipped sibling row(s) are REJECTED by the parsed-original guard and would be restored to outstanding"@
}

/// The result line of a dry sweep repair.
pub fn swept_dry_summary(swept: u64) -> (s: String)
    ensures
        s@ == swept_dry_summary_text(swept),
{
    let mut s = String::new();
    s.append("dry run: ");
    push_u64(&mut s, swept);
    s.append(" skipped sibling row(s) are REJECTED by the parsed-original guard and would be restored to outstanding");
    s
}

/// The result line of a sweep repair.
pub open spec fn swept_summary_text(restored: u64, swept: u64) -> Seq<char> {
    "restored "@
        + dec((restored) as nat)
        + " guard-rejected sibling row(s) to outstanding (found "@
        + dec((swept) as nat)
        + " before the write)"@
}

/// The result line of a sweep repair.
pub fn swept_summary(restored: u64, swept: u64) -> (s: String)
    ensures
        s@ == swept_summary_text(restored, swept),
{
    let mut s = String::new();
    s.append("restored ");
    push_u64(&mut s, restored);
    s.append(" guard-rejected sibling row(s) to outstanding (found ");
    push_u64(&mut s, swept);
    s.append(" before the write)");
    s
}

/// The counts of the provisional-org merge, per batch or in total.
pub struct OrgMergeBatch {
    pub groups: u64,
    pub removed: u64,
    pub mentions: u64,
    pub parties: u64,
    pub bid_parties: u64,
    pub winners: u64,
    pub winner_dups: u64,
    pub tender_changes: u64,
}

impl OrgMergeBatch {
    /// Nothing counted.
    pub fn new() -> (t: Self)
        ensures
            t.groups == 0,
            t.removed == 0,
            t.mentions == 0,
            t.parties == 0,
            t.bid_parties == 0,
            t.winners == 0,
            t.winner_dups == 0,
            t.tender_changes == 0,
    {
        OrgMergeBatch {
            groups: 0,
            removed: 0,
            mentions: 0,
            parties: 0,
            bid_parties: 0,
            winners: 0,
            winner_dups: 0,
            tender_changes: 0,
        }
    }

    /// Adds one batch's counts.
    pub fn add(&mut self, b: &Self)
        requires
            old(self).groups + b.groups <= u64::MAX,
            old(self).removed + b.removed <= u64::MAX,
            old(self).mentions + b.mentions <= u64::MAX,
            old(self).parties + b.parties <= u64::MAX,
            old(self).bid_parties + b.bid_parties <= u64::MAX,
            old(self).winners + b.winners <= u64::MAX,
            old(self).winner_dups + b.winner_dups <= u64::MAX,
            old(self).tender_changes + b.tender_changes <= u64::MAX,
        ensures
            final(self).groups == old(self).groups + b.groups,
            final(self).removed == old(self).removed + b.removed,
            final(self).mentions == old(self).mentions + b.mentions,
            final(self).parties == old(self).parties + b.parties,
            final(self).bid_parties == old(self).bid_parties + b.bid_parties,
            final(self).winners == old(self).winners + b.winners,
            final(self).winner_dups == old(self).winner_dups + b.winner_dups,
            final(self).tender_changes == old(self).tender_changes + b.tender_changes,
    {
        self.groups = self.groups + b.groups;
        self.removed = self.removed + b.removed;
        self.mentions = self.mentions + b.mentions;
        self.parties = self.parties + b.parties;
        self.bid_parties = self.bid_parties + b.bid_parties;
        self.winners = self.winners + b.winners;
        self.winner_dups = self.winner_dups + b.winner_dups;
        self.tender_changes = self.tender_changes + b.tender_changes;
    }
}

/// The result line of the provisional-org merge: a cancelled run says so first.
pub open spec fn org_merge_summary_text(stopped: bool, dry_run: bool, t: OrgMergeBatch) -> Seq<char> {
    (if stopped {
        "CANCELLED at a checkpoint — "@
    } else {
        Seq::<char>::empty()
    })
        + (if dry_run {
        "org-merge dry run: would collapse"@
    } else {
        "org merge: collapsed"@
    })
        + " "@
        + dec((t.groups) as nat)
        + " duplicate group(s): "@
        + dec((t.removed) as nat)
        + " provisional org(s) removed; "@
        + dec((t.mentions) as nat)
        + " mention(s), "@
        + dec((t.parties) as nat)
        + " party row(s), "@
        + dec((t.bid_parties) as nat)
        + " bid-party row(s), "@
        + dec((t.winners) as nat)
        + " winner row(s) repointed, "@
        + dec((t.winner_dups) as nat)
        + " duplicate winner row(s) dropped, "@
        + dec((t.tender_changes) as nat)
        + " tender change event(s)"@
}

/// The result line of the provisional-org merge: a cancelled run says so first.
pub fn org_merge_summary(stopped: bool, dry_run: bool, t: &OrgMergeBatch) -> (s: String)
    ensures
        s@ == org_merge_summary_text(stopped, dry_run, *t),
{
    let mut s = String::new();
    if stopped {
        s.append("CANCELLED at a checkpoint — ");
    }
    if dry_run {
        s.append("org-merge dry run: would collapse");
    } else {
        s.append("org merge: collapsed");
    }
    s.append(" ");
    push_u64(&mut s, t.groups);
    s.append(" duplicate group(s): ");
    push_u64(&mut s, t.removed);
    s.append(" provisional org(s) removed; ");
    push_u64(&mut s, t.mentions);
    s.append(" mention(s), ");
    push_u64(&mut s, t.parties);
    s.append(" party row(s), ");
    push_u64(&mut s, t.bid_parties);
    s.append(" bid-party row(s), ");
    push_u64(&mut s, t.winners);
    s.append(" winner row(s) repointed, ");
    push_u64(&mut s, t.winner_dups);
    s.append(" duplicate winner row(s) dropped, ");
    push_u64(&mut s, t.tender_changes);
    s.append(" tender change event(s)");
    s
}

/// The refusal of a rates file that parsed to nothing.
pub open spec fn rates_empty_refusal_text(bytes: u64) -> Seq<char> {
    "rates csv parsed to ZERO rows ("@
        + dec((bytes) as nat)
        + " bytes) — format drift? nothing written"@
}

/// The refusal of a rates file that parsed to nothing.
pub fn rates_empty_refusal(bytes: u64) -> (s: String)
    ensures
        s@ == rates_empty_refusal_text(bytes),
{
    let mut s = String::new();
    s.append("rates csv parsed to ZERO rows (");
    push_u64(&mut s, bytes);
    s.append(" bytes) — format drift? nothing written");
    s
}

/// The date the closed ECU series must reach.
pub open spec fn ecu_floor() -> Seq<char> {
    "1998-12-01"@
}

/// An ECU rate row is kept when it dates from before the euro.
pub fn ecu_kept(date: &str) -> (r: bool)
    ensures
        r == text_lt(date@, "1999-01-01"@),
{
    str_le(date, "1999-01-01") && !str_eq(date, "1999-01-01")
}

/// Why an ECU dataset is refused before anything is written: it parsed to no
/// rows, or its newest row falls short of December 1998.
pub open spec fn ecu_refusal_spec(dataset: Seq<char>, rows: nat, bytes: nat, newest: Seq<char>) -> Option<Seq<char>> {
    if rows == 0 {
        Some(dataset + " parsed to ZERO rows ("@ + dec(bytes) + " bytes) — format drift? nothing written"@)
    } else if text_lt(newest, ecu_floor()) {
        Some(
            dataset + " coverage ends "@ + newest
                + " — the closed ECU series must reach 1998-12; truncated or defective file, nothing written (issue 306)"@,
        )
    } else {
        None
    }
}

/// The check of an ECU dataset's rows before they are loaded.
pub fn ecu_refusal(dataset: &str, rows: u64, bytes: u64, newest: &str) -> (r: Option<String>)
    ensures
        r.is_some() == ecu_refusal_spec(dataset@, rows as nat, bytes as nat, newest@).is_some(),
        r.is_some() ==> r.unwrap()@ == ecu_refusal_spec(dataset@, rows as nat, bytes as nat, newest@).unwrap(),
{
    if rows == 0 {
        let mut s = String::from_str(dataset);
        s.append(" parsed to ZERO rows (");
        push_u64(&mut s, bytes);
        s.append(" bytes) — format drift? nothing written");
        return Some(s);
    }
    if str_le(newest, "1998-12-01") && !str_eq(newest, "1998-12-01") {
        let mut s = String::from_str(dataset);
        s.append(" coverage ends ");
        s.append(newest);
        s.append(
            " — the closed ECU series must reach 1998-12; truncated or defective file, nothing written (issue 306)",
        );
        return Some(s);
    }
    None
}

} // verus!
