//! The result lines of the R2 and R3 merge runs that ran to the end of
//! their plan (a stopped run's line is `merge_stop_message`).
use vstd::prelude::*;
use crate::text::{dec, push_u64};

verus! {

/// What an R2 merge run reports.
pub struct R2MergeReport {
    pub scanned: u64,
    pub keyed: u64,
    pub groups: u64,
    pub denied_cap: u64,
    pub denied_gate: u64,
    pub denied_consortium: u64,
    pub consortium_excluded: u64,
    pub denied_legal_form: u64,
    pub denied_group_vat: u64,
    pub plan_groups: u64,
    pub merged_groups: u64,
    pub removed: u64,
    pub mentions: u64,
    pub parties: u64,
    pub bid_parties: u64,
    pub winners: u64,
    pub winner_dups: u64,
    pub tender_changes: u64,
}

/// The result line of an R2 merge run that was not stopped.
pub open spec fn r2_merge_summary_text(dry_run: bool, r: R2MergeReport) -> Seq<char> {
    "match-org-identifiers r2 (issue 300 Stage 2)"@
        + (if dry_run {
        " DRY RUN — plan recorded, nothing written"@
    } else {
        Seq::<char>::empty()
    })
        + ": "@
        + dec((r.scanned) as nat)
        + " orgs scanned, "@
        + dec((r.keyed) as nat)
        + " E1-keyed, "@
        + dec((r.groups) as nat)
        + " groups >=2; denied: "@
        + dec((r.denied_cap) as nat)
        + " cap, "@
        + dec((r.denied_gate) as nat)
        + " gate, "@
        + dec((r.denied_consortium) as nat)
        + " consortium ("@
        + dec((r.consortium_excluded) as nat)
        + " members excluded member-scoped), "@
        + dec((r.denied_legal_form) as nat)
        + " legal-form, "@
        + dec((r.denied_group_vat) as nat)
        + " vat-group-wall; plan "@
        + dec((r.plan_groups) as nat)
        + " groups; merged "@
        + dec((r.merged_groups) as nat)
        + " groups ("@
        + dec((r.removed) as nat)
        + " org rows removed, "@
        + dec((r.mentions) as nat)
        + " mentions, "@
        + dec((r.parties) as nat)
        + " parties, "@
        + dec((r.bid_parties) as nat)
        + " bid-parties, "@
        + dec((r.winners) as nat)
        + " winners repointed, "@
        + dec((r.winner_dups) as nat)
        + " winner dups deleted, "@
        + dec((r.tender_changes) as nat)
        + " tenders touched)"@
}

/// The result line of an R2 merge run that was not stopped.
pub fn r2_merge_summary(dry_run: bool, r: &R2MergeReport) -> (s: String)
    ensures
        s@ == r2_merge_summary_text(dry_run, *r),
{
    let mut s = String::new();
    s.append("match-org-identifiers r2 (issue 300 Stage 2)");
    if dry_run {
        s.append(" DRY RUN — plan recorded, nothing written");
    }
    s.append(": ");
    push_u64(&mut s, r.scanned);
    s.append(" orgs scanned, ");
    push_u64(&mut s, r.keyed);
    s.append(" E1-keyed, ");
    push_u64(&mut s, r.groups);
    s.append(" groups >=2; denied: ");
    push_u64(&mut s, r.denied_cap);
    s.append(" cap, ");
    push_u64(&mut s, r.denied_gate);
    s.append(" gate, ");
    push_u64(&mut s, r.denied_consortium);
    s.append(" consortium (");
    push_u64(&mut s, r.consortium_excluded);
    s.append(" members excluded member-scoped), ");
    push_u64(&mut s, r.denied_legal_form);
    s.append(" legal-form, ");
    push_u64(&mut s, r.denied_group_vat);
    s.append(" vat-group-wall; plan ");
    push_u64(&mut s, r.plan_groups);
    s.append(" groups; merged ");
    push_u64(&mut s, r.merged_groups);
    s.append(" groups (");
    push_u64(&mut s, r.removed);
    s.append(" org rows removed, ");
    push_u64(&mut s, r.mentions);
    s.append(" mentions, ");
    push_u64(&mut s, r.parties);
    s.append(" parties, ");
    push_u64(&mut s, r.bid_parties);
    s.append(" bid-parties, ");
    push_u64(&mut s, r.winners);
    s.append(" winners repointed, ");
    push_u64(&mut s, r.winner_dups);
    s.append(" winner dups deleted, ");
    push_u64(&mut s, r.tender_changes);
    s.append(" tenders touched)");
    s
}

/// What an R3 merge run reports.
pub struct R3MergeReport {
    pub pool: u64,
    pub register_prefixed: u64,
    pub unanchored: u64,
    pub no_target: u64,
    pub multi_target: u64,
    pub uncorroborated: u64,
    pub denied_generic_name: u64,
    pub generic_name_hard_anchor: u64,
    pub denied_gate: u64,
    pub denied_consortium: u64,
    pub denied_legal_form: u64,
    pub denied_group_vat: u64,
    pub denied_cap: u64,
    pub plan_groups: u64,
    pub merged_groups: u64,
    pub removed: u64,
    pub mentions: u64,
    pub parties: u64,
    pub bid_parties: u64,
    pub winners: u64,
    pub winner_dups: u64,
    pub tender_changes: u64,
}

/// The result line of an R3 merge run that was not stopped; `keys` is the size of the key satellite its generic-name wall read.
pub open spec fn r3_merge_summary_text(dry_run: bool, r: R3MergeReport, keys: u64) -> Seq<char> {
    "match-org-identifiers r3 (issue 300 Stage 3)"@
        + (if dry_run {
        " DRY RUN — plan recorded, nothing written"@
    } else {
        Seq::<char>::empty()
    })
        + ": pool "@
        + dec((r.pool) as nat)
        + "; skipped: "@
        + dec((r.register_prefixed) as nat)
        + " register-prefixed, "@
        + dec((r.unanchored) as nat)
        + " unanchored/ambiguous, "@
        + dec((r.no_target) as nat)
        + " no-target, "@
        + dec((r.multi_target) as nat)
        + " multi-target, "@
        + dec((r.uncorroborated) as nat)
        + " uncorroborated; denied: "@
        + dec((r.denied_generic_name) as nat)
        + " generic-name ("@
        + dec((r.generic_name_hard_anchor) as nat)
        + " generic but hard-anchored), "@
        + dec((r.denied_gate) as nat)
        + " gate, "@
        + dec((r.denied_consortium) as nat)
        + " consortium, "@
        + dec((r.denied_legal_form) as nat)
        + " legal-form, "@
        + dec((r.denied_group_vat) as nat)
        + " vat-group-wall, "@
        + dec((r.denied_cap) as nat)
        + " co-anchor-cap; plan "@
        + dec((r.plan_groups) as nat)
        + " candidates; merged "@
        + dec((r.merged_groups) as nat)
        + " ("@
        + dec((r.removed) as nat)
        + " org rows removed, "@
        + dec((r.mentions) as nat)
        + " mentions, "@
        + dec((r.parties) as nat)
        + " parties, "@
        + dec((r.bid_parties) as nat)
        + " bid-parties, "@
        + dec((r.winners) as nat)
        + " winners repointed, "@
        + dec((r.winner_dups) as nat)
        + " winner dups deleted, "@
        + dec((r.tender_changes) as nat)
        + " tenders touched)"@
        + (if keys == 0 {
        " — NOTE: org_match_keys is EMPTY, so the generic-name wall saw nothing and denied nothing"@
    } else {
        Seq::<char>::empty()
    })
}

/// The result line of an R3 merge run that was not stopped; `keys` is the size of the key satellite its generic-name wall read.
pub fn r3_merge_summary(dry_run: bool, r: &R3MergeReport, keys: u64) -> (s: String)
    ensures
        s@ == r3_merge_summary_text(dry_run, *r, keys),
{
    let mut s = String::new();
    s.append("match-org-identifiers r3 (issue 300 Stage 3)");
    if dry_run {
        s.append(" DRY RUN — plan recorded, nothing written");
    }
    s.append(": pool ");
    push_u64(&mut s, r.pool);
    s.append("; skipped: ");
    push_u64(&mut s, r.register_prefixed);
    s.append(" register-prefixed, ");
    push_u64(&mut s, r.unanchored);
    s.append(" unanchored/ambiguous, ");
    push_u64(&mut s, r.no_target);
    s.append(" no-target, ");
    push_u64(&mut s, r.multi_target);
    s.append(" multi-target, ");
    push_u64(&mut s, r.uncorroborated);
    s.append(" uncorroborated; denied: ");
    push_u64(&mut s, r.denied_generic_name);
    s.append(" generic-name (");
    push_u64(&mut s, r.generic_name_hard_anchor);
    s.append(" generic but hard-anchored), ");
    push_u64(&mut s, r.denied_gate);
    s.append(" gate, ");
    push_u64(&mut s, r.denied_consortium);
    s.append(" consortium, ");
    push_u64(&mut s, r.denied_legal_form);
    s.append(" legal-form, ");
    push_u64(&mut s, r.denied_group_vat);
    s.append(" vat-group-wall, ");
    push_u64(&mut s, r.denied_cap);
    s.append(" co-anchor-cap; plan ");
    push_u64(&mut s, r.plan_groups);
    s.append(" candidates; merged ");
    push_u64(&mut s, r.merged_groups);
    s.append(" (");
    push_u64(&mut s, r.removed);
    s.append(" org rows removed, ");
    push_u64(&mut s, r.mentions);
    s.append(" mentions, ");
    push_u64(&mut s, r.parties);
    s.append(" parties, ");
    push_u64(&mut s, r.bid_parties);
    s.append(" bid-parties, ");
    push_u64(&mut s, r.winners);
    s.append(" winners repointed, ");
    push_u64(&mut s, r.winner_dups);
    s.append(" winner dups deleted, ");
    push_u64(&mut s, r.tender_changes);
    s.append(" tenders touched)");
    if keys == 0 {
        s.append(" — NOTE: org_match_keys is EMPTY, so the generic-name wall saw nothing and denied nothing");
    }
    s
}


} // verus!
