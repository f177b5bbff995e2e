//! The result lines and running counts of the repair jobs: the batched
//! nested-org and placeholder repairs, the organization-name backfill, and
//! the plan-gated minted-country, label-prefix and country-typo repairs,
//! whose wet runs say what they applied.
use vstd::prelude::*;
use crate::text::{dec, push_u64};

verus! {

/// What a wet repair adds to its line: what it applied, what it skipped
/// because the row moved under the plan, and whether a cancel stopped it
/// (the committed prefix stands). A dry run adds nothing.
pub open spec fn applied_tail(dry_run: bool, applied: u64, skipped_moved: u64, stopped: bool) -> Seq<char> {
    if dry_run {
        Seq::empty()
    } else {
        " APPLIED "@ + dec(applied as nat) + ", skipped "@ + dec(skipped_moved as nat)
            + " whose row moved under the plan."@ + if stopped {
            " STOPPED by cancel — the committed prefix stands."@
        } else {
            Seq::empty()
        }
    }
}

fn push_applied_tail(s: &mut String, dry_run: bool, applied: u64, skipped_moved: u64, stopped: bool)
    ensures
        final(s)@ == old(s)@ + applied_tail(dry_run, applied, skipped_moved, stopped),
{
    if dry_run {
        proof {
            assert(old(s)@ + Seq::<char>::empty() =~= old(s)@);
        }
        return;
    }
    s.append(" APPLIED ");
    push_u64(s, applied);
    s.append(", skipped ");
    push_u64(s, skipped_moved);
    s.append(" whose row moved under the plan.");
    if stopped {
        s.append(" STOPPED by cancel — the committed prefix stands.");
    }
}

/// The counts of the nested-org mention repair, per batch or in total.
pub struct NestedOrgRepair {
    pub scanned: u64,
    pub repaired: u64,
    pub skipped: u64,
    pub winner_dups: u64,
    pub tender_changes: u64,
}

impl NestedOrgRepair {
    /// Nothing counted.
    pub fn new() -> (t: Self)
        ensures
            t.scanned == 0,
            t.repaired == 0,
            t.skipped == 0,
            t.winner_dups == 0,
            t.tender_changes == 0,
    {
        NestedOrgRepair {
            scanned: 0,
            repaired: 0,
            skipped: 0,
            winner_dups: 0,
            tender_changes: 0,
        }
    }

    /// Adds one batch's counts.
    pub fn add(&mut self, b: &Self)
        requires
            old(self).scanned + b.scanned <= u64::MAX,
            old(self).repaired + b.repaired <= u64::MAX,
            old(self).skipped + b.skipped <= u64::MAX,
            old(self).winner_dups + b.winner_dups <= u64::MAX,
            old(self).tender_changes + b.tender_changes <= u64::MAX,
        ensures
            final(self).scanned == old(self).scanned + b.scanned,
            final(self).repaired == old(self).repaired + b.repaired,
            final(self).skipped == old(self).skipped + b.skipped,
            final(self).winner_dups == old(self).winner_dups + b.winner_dups,
            final(self).tender_changes == old(self).tender_changes + b.tender_changes,
    {
        self.scanned = self.scanned + b.scanned;
        self.repaired = self.repaired + b.repaired;
        self.skipped = self.skipped + b.skipped;
        self.winner_dups = self.winner_dups + b.winner_dups;
        self.tender_changes = self.tender_changes + b.tender_changes;
    }
}

/// The result line of the nested-org mention repair.
pub open spec fn nested_org_summary_text(dry_run: bool, t: NestedOrgRepair) -> Seq<char> {
    "nested-org mention repair (issue 259)"@
        + (if dry_run {
        " DRY RUN — nothing written"@
    } else {
        Seq::<char>::empty()
    })
        + ": "@
        + dec((t.scanned) as nat)
        + " nameless provisionals scanned, "@
        + dec((t.repaired) as nat)
        + " repaired onto their named inner org (empty row deleted), "@
        + dec((t.skipped) as nat)
        + " skipped by guards, "@
        + dec((t.winner_dups) as nat)
        + " duplicate winner rows removed, "@
        + dec((t.tender_changes) as nat)
        + " tenders touched"@
}

/// The result line of the nested-org mention repair.
pub fn nested_org_summary(dry_run: bool, t: &NestedOrgRepair) -> (s: String)
    ensures
        s@ == nested_org_summary_text(dry_run, *t),
{
    let mut s = String::new();
    s.append("nested-org mention repair (issue 259)");
    if dry_run {
        s.append(" DRY RUN — nothing written");
    }
    s.append(": ");
    push_u64(&mut s, t.scanned);
    s.append(" nameless provisionals scanned, ");
    push_u64(&mut s, t.repaired);
    s.append(" repaired onto their named inner org (empty row deleted), ");
    push_u64(&mut s, t.skipped);
    s.append(" skipped by guards, ");
    push_u64(&mut s, t.winner_dups);
    s.append(" duplicate winner rows removed, ");
    push_u64(&mut s, t.tender_changes);
    s.append(" tenders touched");
    s
}

/// The counts of the placeholder dissolve, per batch or in total.
pub struct OrgDissolve {
    pub scanned: u64,
    pub condemned: u64,
    pub dissolved: u64,
    pub skipped: u64,
    pub mentions: u64,
    pub fresh: u64,
    pub reused: u64,
    pub parties: u64,
    pub bid_parties: u64,
    pub winners: u64,
    pub winner_dups: u64,
    pub winners_deleted: u64,
    pub refold_tenders: u64,
    pub refold_notices: u64,
    pub tender_changes: u64,
}

impl OrgDissolve {
    /// Nothing counted.
    pub fn new() -> (t: Self)
        ensures
            t.scanned == 0,
            t.condemned == 0,
            t.dissolved == 0,
            t.skipped == 0,
            t.mentions == 0,
            t.fresh == 0,
            t.reused == 0,
            t.parties == 0,
            t.bid_parties == 0,
            t.winners == 0,
            t.winner_dups == 0,
            t.winners_deleted == 0,
            t.refold_tenders == 0,
            t.refold_notices == 0,
            t.tender_changes == 0,
    {
        OrgDissolve {
            scanned: 0,
            condemned: 0,
            dissolved: 0,
            skipped: 0,
            mentions: 0,
            fresh: 0,
            reused: 0,
            parties: 0,
            bid_parties: 0,
            winners: 0,
            winner_dups: 0,
            winners_deleted: 0,
            refold_tenders: 0,
            refold_notices: 0,
            tender_changes: 0,
        }
    }

    /// Adds one batch's counts.
    pub fn add(&mut self, b: &Self)
        requires
            old(self).scanned + b.scanned <= u64::MAX,
            old(self).condemned + b.condemned <= u64::MAX,
            old(self).dissolved + b.dissolved <= u64::MAX,
            old(self).skipped + b.skipped <= u64::MAX,
            old(self).mentions + b.mentions <= u64::MAX,
            old(self).fresh + b.fresh <= u64::MAX,
            old(self).reused + b.reused <= u64::MAX,
            old(self).parties + b.parties <= u64::MAX,
            old(self).bid_parties + b.bid_parties <= u64::MAX,
            old(self).winners + b.winners <= u64::MAX,
            old(self).winner_dups + b.winner_dups <= u64::MAX,
            old(self).winners_deleted + b.winners_deleted <= u64::MAX,
            old(self).refold_tenders + b.refold_tenders <= u64::MAX,
            old(self).refold_notices + b.refold_notices <= u64::MAX,
            old(self).tender_changes + b.tender_changes <= u64::MAX,
        ensures
            final(self).scanned == old(self).scanned + b.scanned,
            final(self).condemned == old(self).condemned + b.condemned,
            final(self).dissolved == old(self).dissolved + b.dissolved,
            final(self).skipped == old(self).skipped + b.skipped,
            final(self).mentions == old(self).mentions + b.mentions,
            final(self).fresh == old(self).fresh + b.fresh,
            final(self).reused == old(self).reused + b.reused,
            final(self).parties == old(self).parties + b.parties,
            final(self).bid_parties == old(self).bid_parties + b.bid_parties,
            final(self).winners == old(self).winners + b.winners,
            final(self).winner_dups == old(self).winner_dups + b.winner_dups,
            final(self).winners_deleted == old(self).winners_deleted + b.winners_deleted,
            final(self).refold_tenders == old(self).refold_tenders + b.refold_tenders,
            final(self).refold_notices == old(self).refold_notices + b.refold_notices,
            final(self).tender_changes == old(self).tender_changes + b.tender_changes,
    {
        self.scanned = self.scanned + b.scanned;
        self.condemned = self.condemned + b.condemned;
        self.dissolved = self.dissolved + b.dissolved;
        self.skipped = self.skipped + b.skipped;
        self.mentions = self.mentions + b.mentions;
        self.fresh = self.fresh + b.fresh;
        self.reused = self.reused + b.reused;
        self.parties = self.parties + b.parties;
        self.bid_parties = self.bid_parties + b.bid_parties;
        self.winners = self.winners + b.winners;
        self.winner_dups = self.winner_dups + b.winner_dups;
        self.winners_deleted = self.winners_deleted + b.winners_deleted;
        self.refold_tenders = self.refold_tenders + b.refold_tenders;
        self.refold_notices = self.refold_notices + b.refold_notices;
        self.tender_changes = self.tender_changes + b.tender_changes;
    }
}

/// The result line of the placeholder dissolve.
pub open spec fn dissolve_summary_text(dry_run: bool, t: OrgDissolve) -> Seq<char> {
    "placeholder dissolve (issue 300)"@
        + (if dry_run {
        " DRY RUN — nothing written"@
    } else {
        Seq::<char>::empty()
    })
        + ": "@
        + dec((t.scanned) as nat)
        + " identifier-bearing orgs scanned, "@
        + dec((t.condemned) as nat)
        + " condemned by the v2 gate, "@
        + dec((t.dissolved) as nat)
        + " dissolved, "@
        + dec((t.skipped) as nat)
        + " skipped (unresolvable winner), "@
        + dec((t.mentions) as nat)
        + " mentions re-resolved ("@
        + dec((t.fresh) as nat)
        + " fresh provisionals, "@
        + dec((t.reused) as nat)
        + " reused), "@
        + dec((t.parties) as nat)
        + " party rows, "@
        + dec((t.bid_parties) as nat)
        + " bid-party rows, "@
        + dec((t.winners) as nat)
        + " winner rows ("@
        + dec((t.winner_dups) as nat)
        + " duplicates removed), "@
        + dec((t.winners_deleted) as nat)
        + " ambiguous winner rows deleted for refold ("@
        + dec((t.refold_tenders) as nat)
        + " tenders stamped epoch-stale, "@
        + dec((t.refold_notices) as nat)
        + " notices re-queued — the next incremental fold re-derives their winner sets), "@
        + dec((t.tender_changes) as nat)
        + " tenders touched"@
}

/// The result line of the placeholder dissolve.
pub fn dissolve_summary(dry_run: bool, t: &OrgDissolve) -> (s: String)
    ensures
        s@ == dissolve_summary_text(dry_run, *t),
{
    let mut s = String::new();
    s.append("placeholder dissolve (issue 300)");
    if dry_run {
        s.append(" DRY RUN — nothing written");
    }
    s.append(": ");
    push_u64(&mut s, t.scanned);
    s.append(" identifier-bearing orgs scanned, ");
    push_u64(&mut s, t.condemned);
    s.append(" condemned by the v2 gate, ");
    push_u64(&mut s, t.dissolved);
    s.append(" dissolved, ");
    push_u64(&mut s, t.skipped);
    s.append(" skipped (unresolvable winner), ");
    push_u64(&mut s, t.mentions);
    s.append(" mentions re-resolved (");
    push_u64(&mut s, t.fresh);
    s.append(" fresh provisionals, ");
    push_u64(&mut s, t.reused);
    s.append(" reused), ");
    push_u64(&mut s, t.parties);
    s.append(" party rows, ");
    push_u64(&mut s, t.bid_parties);
    s.append(" bid-party rows, ");
    push_u64(&mut s, t.winners);
    s.append(" winner rows (");
    push_u64(&mut s, t.winner_dups);
    s.append(" duplicates removed), ");
    push_u64(&mut s, t.winners_deleted);
    s.append(" ambiguous winner rows deleted for refold (");
    push_u64(&mut s, t.refold_tenders);
    s.append(" tenders stamped epoch-stale, ");
    push_u64(&mut s, t.refold_notices);
    s.append(" notices re-queued — the next incremental fold re-derives their winner sets), ");
    push_u64(&mut s, t.tender_changes);
    s.append(" tenders touched");
    s
}

/// The counts of the organization-name backfill, per window or in total.
pub struct OrgNameBackfill {
    pub notices: u64,
    pub mentions: u64,
    pub written: u64,
}

impl OrgNameBackfill {
    /// Nothing counted.
    pub fn new() -> (t: Self)
        ensures
            t.notices == 0,
            t.mentions == 0,
            t.written == 0,
    {
        OrgNameBackfill {
            notices: 0,
            mentions: 0,
            written: 0,
        }
    }

    /// Adds one window's counts.
    pub fn add(&mut self, b: &Self)
        requires
            old(self).notices + b.notices <= u64::MAX,
            old(self).mentions + b.mentions <= u64::MAX,
            old(self).written + b.written <= u64::MAX,
        ensures
            final(self).notices == old(self).notices + b.notices,
            final(self).mentions == old(self).mentions + b.mentions,
            final(self).written == old(self).written + b.written,
    {
        self.notices = self.notices + b.notices;
        self.mentions = self.mentions + b.mentions;
        self.written = self.written + b.written;
    }
}

/// The result line of the organization-name backfill.
pub open spec fn org_names_summary_text(t: OrgNameBackfill) -> Seq<char> {
    "organization_names backfilled over "@
        + dec((t.notices) as nat)
        + " notices: "@
        + dec((t.mentions) as nat)
        + " mentions visited, "@
        + dec((t.written) as nat)
        + " labelled variants written (issue 307)"@
}

/// The result line of the organization-name backfill.
pub fn org_names_summary(t: &OrgNameBackfill) -> (s: String)
    ensures
        s@ == org_names_summary_text(*t),
{
    let mut s = String::new();
    s.append("organization_names backfilled over ");
    push_u64(&mut s, t.notices);
    s.append(" notices: ");
    push_u64(&mut s, t.mentions);
    s.append(" mentions visited, ");
    push_u64(&mut s, t.written);
    s.append(" labelled variants written (issue 307)");
    s
}

/// What the minted-country repair reports.
pub struct MintedRepair {
    pub walked: u64,
    pub rows: u64,
    pub ambiguous: u64,
    pub no_mention_country: u64,
    pub now_refused: u64,
    pub collisions: u64,
    pub applied: u64,
    pub skipped_moved: u64,
    pub stopped: bool,
}

/// The result line of the minted-country repair.
pub open spec fn minted_summary_text(dry_run: bool, r: MintedRepair) -> Seq<char> {
    "repair-minted-countries (issue 325 step 4, "@
        + (if dry_run {
        "DRY"@
    } else {
        "WET"@
    })
        + "): "@
        + dec((r.walked) as nat)
        + " kind='vat' row(s) re-parsed. "@
        + dec((r.rows) as nat)
        + " disagree with what the parser now says and are planned; "@
        + dec((r.ambiguous) as nat)
        + " left alone because their own mentions name more than one country, "@
        + dec((r.no_mention_country) as nat)
        + " because no mention names an alpha-2 country at all, and "@
        + dec((r.now_refused) as nat)
        + " because the value is now refused outright (counted, never stripped — issue 312). "@
        + dec((r.collisions) as nat)
        + " planned target(s) would leave one (country, kind, identifier) held by more than one row: that is the R2 merge arm's work and reaching it is the point, not a blocker."@
        + (applied_tail(dry_run, r.applied, r.skipped_moved, r.stopped))
}

/// The result line of the minted-country repair.
pub fn minted_summary(dry_run: bool, r: &MintedRepair) -> (s: String)
    ensures
        s@ == minted_summary_text(dry_run, *r),
{
    let mut s = String::new();
    s.append("repair-minted-countries (issue 325 step 4, ");
    if dry_run {
        s.append("DRY");
    } else {
        s.append("WET");
    }
    s.append("): ");
    push_u64(&mut s, r.walked);
    s.append(" kind='vat' row(s) re-parsed. ");
    push_u64(&mut s, r.rows);
    s.append(" disagree with what the parser now says and are planned; ");
    push_u64(&mut s, r.ambiguous);
    s.append(" left alone because their own mentions name more than one country, ");
    push_u64(&mut s, r.no_mention_country);
    s.append(" because no mention names an alpha-2 country at all, and ");
    push_u64(&mut s, r.now_refused);
    s.append(" because the value is now refused outright (counted, never stripped — issue 312). ");
    push_u64(&mut s, r.collisions);
    s.append(" planned target(s) would leave one (country, kind, identifier) held by more than one row: that is the R2 merge arm's work and reaching it is the point, not a blocker.");
    push_applied_tail(&mut s, dry_run, r.applied, r.skipped_moved, r.stopped);
    s
}

/// What the label-prefix repair reports.
pub struct LabelRepair {
    pub labelled: u64,
    pub rows: u64,
    pub now_refused: u64,
    pub already_clean: u64,
    pub reunions: u64,
    pub applied: u64,
    pub skipped_moved: u64,
    pub stopped: bool,
}

/// The result line of the label-prefix repair.
pub open spec fn label_summary_text(dry_run: bool, r: LabelRepair) -> Seq<char> {
    "repair-label-prefixes (issue 328, "@
        + (if dry_run {
        "DRY"@
    } else {
        "WET"@
    })
        + "): "@
        + dec((r.labelled) as nat)
        + " row(s) carry a publisher label. "@
        + dec((r.rows) as nat)
        + " planned; "@
        + dec((r.now_refused) as nat)
        + " left standing as published because the remainder classified as nothing (a bare field name, or a value the "@
        + "gate refuses), and "@
        + dec((r.already_clean) as nat)
        + " already agree with the re-parse. "@
        + dec((r.reunions) as nat)
        + " planned row(s) land on an identity that ALREADY stands. NOTE: for the German class that is NOT a merge R2 will perform — `crosswalk::canonical_key` has no DE arm at all (\"court-scoped registers\", a pinned negative), so those rows become visible exact duplicates rather than folded ones."@
        + (applied_tail(dry_run, r.applied, r.skipped_moved, r.stopped))
        + " The published string is untouched either way: it stays in organization_mentions.raw_identifier."@
}

/// The result line of the label-prefix repair.
pub fn label_summary(dry_run: bool, r: &LabelRepair) -> (s: String)
    ensures
        s@ == label_summary_text(dry_run, *r),
{
    let mut s = String::new();
    s.append("repair-label-prefixes (issue 328, ");
    if dry_run {
        s.append("DRY");
    } else {
        s.append("WET");
    }
    s.append("): ");
    push_u64(&mut s, r.labelled);
    s.append(" row(s) carry a publisher label. ");
    push_u64(&mut s, r.rows);
    s.append(" planned; ");
    push_u64(&mut s, r.now_refused);
    s.append(" left standing as published because the remainder classified as nothing (a bare field name, or a value the ");
    s.append("gate refuses), and ");
    push_u64(&mut s, r.already_clean);
    s.append(" already agree with the re-parse. ");
    push_u64(&mut s, r.reunions);
    s.append(" planned row(s) land on an identity that ALREADY stands. NOTE: for the German class that is NOT a merge R2 will perform — `crosswalk::canonical_key` has no DE arm at all (\"court-scoped registers\", a pinned negative), so those rows become visible exact duplicates rather than folded ones.");
    push_applied_tail(&mut s, dry_run, r.applied, r.skipped_moved, r.stopped);
    s.append(" The published string is untouched either way: it stays in organization_mentions.raw_identifier.");
    s
}

/// What the country-typo repair reports.
pub struct TypoRepair {
    pub clusters_considered: u64,
    pub decisive: u64,
    pub rows: u64,
    pub left_unmoved: u64,
    pub from_asked_and_refused: u64,
    pub from_never_asked: u64,
    pub refused_row_has_standing: u64,
    pub refused_luhn_only: u64,
    pub applied: u64,
    pub skipped_moved: u64,
    pub stopped: bool,
}

/// The result line of the country-typo repair, with the mention count at which a row's own standing vetoes its move.
pub open spec fn typo_summary_text(dry_run: bool, r: TypoRepair, veto: u64) -> Seq<char> {
    "repair-country-typos (issue 326 step 2, "@
        + (if dry_run {
        "DRY"@
    } else {
        "WET"@
    })
        + "): "@
        + dec((r.clusters_considered) as nat)
        + " cluster(s) walked, "@
        + dec((r.decisive) as nat)
        + " decisive (the evidence names exactly one of the cluster's own codes). "@
        + dec((r.rows) as nat)
        + " row(s) planned to move; "@
        + dec((r.left_unmoved) as nat)
        + " left alone because their code is NOT one letter from the survivor — they share the identifier and nothing more, and a checksum elsewhere is no reason to rewrite a published country. Of the planned moves "@
        + dec((r.from_asked_and_refused) as nat)
        + " abandon a country that WAS tested and refused the value, and "@
        + dec((r.from_never_asked) as nat)
        + " abandon one no scheme covers at this shape — the second half rests on the survivor's anchor alone and is where the dry run's false positives were found. REFUSED: "@
        + dec((r.refused_row_has_standing) as nat)
        + " row(s) carry "@
        + dec((veto) as nat)
        + " mentions or more under their own country — real standing, so probably a real registration and not a slip — and "@
        + dec((r.refused_luhn_only) as nat)
        + " cluster(s) are named only by a bare Luhn, which carries no country information at all."@
        + (applied_tail(dry_run, r.applied, r.skipped_moved, r.stopped))
        + " EVERY move lands on an identity the survivor already holds, ON PURPOSE: run match-org-identifiers --r2 afterwards to fold them."@
}

/// The result line of the country-typo repair, with the mention count at which a row's own standing vetoes its move.
pub fn typo_summary(dry_run: bool, r: &TypoRepair, veto: u64) -> (s: String)
    ensures
        s@ == typo_summary_text(dry_run, *r, veto),
{
    let mut s = String::new();
    s.append("repair-country-typos (issue 326 step 2, ");
    if dry_run {
        s.append("DRY");
    } else {
        s.append("WET");
    }
    s.append("): ");
    push_u64(&mut s, r.clusters_considered);
    s.append(" cluster(s) walked, ");
    push_u64(&mut s, r.decisive);
    s.append(" decisive (the evidence names exactly one of the cluster's own codes). ");
    push_u64(&mut s, r.rows);
    s.append(" row(s) planned to move; ");
    push_u64(&mut s, r.left_unmoved);
    s.append(" left alone because their code is NOT one letter from the survivor — they share the identifier and nothing more, and a checksum elsewhere is no reason to rewrite a published country. Of the planned moves ");
    push_u64(&mut s, r.from_asked_and_refused);
    s.append(" abandon a country that WAS tested and refused the value, and ");
    push_u64(&mut s, r.from_never_asked);
    s.append(" abandon one no scheme covers at this shape — the second half rests on the survivor's anchor alone and is where the dry run's false positives were found. REFUSED: ");
    push_u64(&mut s, r.refused_row_has_standing);
    s.append(" row(s) carry ");
    push_u64(&mut s, veto);
    s.append(" mentions or more under their own country — real standing, so probably a real registration and not a slip — and ");
    push_u64(&mut s, r.refused_luhn_only);
    s.append(" cluster(s) are named only by a bare Luhn, which carries no country information at all.");
    push_applied_tail(&mut s, dry_run, r.applied, r.skipped_moved, r.stopped);
    s.append(" EVERY move lands on an identity the survivor already holds, ON PURPOSE: run match-org-identifiers --r2 afterwards to fold them.");
    s
}


} // verus!
