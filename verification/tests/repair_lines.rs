use tender_supervisor::merges::{r2_merge_summary, r3_merge_summary, R2MergeReport, R3MergeReport};
use tender_supervisor::repairs::{
    dissolve_summary, label_summary, minted_summary, nested_org_summary, org_names_summary,
    typo_summary, LabelRepair, MintedRepair, NestedOrgRepair, OrgDissolve, OrgNameBackfill,
    TypoRepair,
};

fn nested() -> NestedOrgRepair {
    NestedOrgRepair { scanned: 1, repaired: 2, skipped: 3, winner_dups: 4, tender_changes: 5 }
}

fn dissolve() -> OrgDissolve {
    OrgDissolve {
        scanned: 1,
        condemned: 2,
        dissolved: 3,
        skipped: 4,
        mentions: 5,
        fresh: 6,
        reused: 7,
        parties: 8,
        bid_parties: 9,
        winners: 10,
        winner_dups: 11,
        winners_deleted: 12,
        refold_tenders: 13,
        refold_notices: 14,
        tender_changes: 15,
    }
}

fn names() -> OrgNameBackfill {
    OrgNameBackfill { notices: 7, mentions: 8, written: 9 }
}

fn minted(stopped: bool) -> MintedRepair {
    MintedRepair {
        walked: 1,
        rows: 2,
        ambiguous: 3,
        no_mention_country: 4,
        now_refused: 5,
        collisions: 6,
        applied: 7,
        skipped_moved: 8,
        stopped,
    }
}

fn label(stopped: bool) -> LabelRepair {
    LabelRepair {
        labelled: 1,
        rows: 2,
        now_refused: 3,
        already_clean: 4,
        reunions: 5,
        applied: 6,
        skipped_moved: 7,
        stopped,
    }
}

fn typo(stopped: bool) -> TypoRepair {
    TypoRepair {
        clusters_considered: 1,
        decisive: 2,
        rows: 3,
        left_unmoved: 4,
        from_asked_and_refused: 5,
        from_never_asked: 6,
        refused_row_has_standing: 7,
        refused_luhn_only: 8,
        applied: 9,
        skipped_moved: 10,
        stopped,
    }
}

#[test]
fn batch_counts_add_up() {
    let mut t = NestedOrgRepair::new();
    t.add(&nested());
    t.add(&nested());
    assert_eq!((t.scanned, t.repaired, t.tender_changes), (2, 4, 10));
    let mut d = OrgDissolve::new();
    d.add(&dissolve());
    assert_eq!((d.condemned, d.refold_notices), (2, 14));
    let mut n = OrgNameBackfill::new();
    n.add(&names());
    n.add(&names());
    assert_eq!((n.notices, n.mentions, n.written), (14, 16, 18));
}

#[test]
fn repair_lines_say_dry_or_what_they_applied() {
    assert_eq!(
        nested_org_summary(true, &nested()),
        "nested-org mention repair (issue 259) DRY RUN — nothing written: 1 nameless provisionals scanned, 2 repaired onto their named inner org (empty row deleted), 3 skipped by guards, 4 duplicate winner rows removed, 5 tenders touched"
    );
    assert_eq!(
        nested_org_summary(false, &nested()),
        "nested-org mention repair (issue 259): 1 nameless provisionals scanned, 2 repaired onto their named inner org (empty row deleted), 3 skipped by guards, 4 duplicate winner rows removed, 5 tenders touched"
    );
    assert_eq!(
        dissolve_summary(false, &dissolve()),
        "placeholder dissolve (issue 300): 1 identifier-bearing orgs scanned, 2 condemned by the v2 gate, 3 dissolved, 4 skipped (unresolvable winner), 5 mentions re-resolved (6 fresh provisionals, 7 reused), 8 party rows, 9 bid-party rows, 10 winner rows (11 duplicates removed), 12 ambiguous winner rows deleted for refold (13 tenders stamped epoch-stale, 14 notices re-queued — the next incremental fold re-derives their winner sets), 15 tenders touched"
    );
    assert_eq!(
        org_names_summary(&names()),
        "organization_names backfilled over 7 notices: 8 mentions visited, 9 labelled variants written (issue 307)"
    );
    assert_eq!(
        minted_summary(true, &minted(false)),
        "repair-minted-countries (issue 325 step 4, DRY): 1 kind='vat' row(s) re-parsed. 2 disagree with what the parser now says and are planned; 3 left alone because their own mentions name more than one country, 4 because no mention names an alpha-2 country at all, and 5 because the value is now refused outright (counted, never stripped — issue 312). 6 planned target(s) would leave one (country, kind, identifier) held by more than one row: that is the R2 merge arm's work and reaching it is the point, not a blocker."
    );
    assert_eq!(
        minted_summary(false, &minted(true)),
        "repair-minted-countries (issue 325 step 4, WET): 1 kind='vat' row(s) re-parsed. 2 disagree with what the parser now says and are planned; 3 left alone because their own mentions name more than one country, 4 because no mention names an alpha-2 country at all, and 5 because the value is now refused outright (counted, never stripped — issue 312). 6 planned target(s) would leave one (country, kind, identifier) held by more than one row: that is the R2 merge arm's work and reaching it is the point, not a blocker. APPLIED 7, skipped 8 whose row moved under the plan. STOPPED by cancel — the committed prefix stands."
    );
    assert_eq!(
        label_summary(false, &label(false)),
        ["repair-label-prefixes (issue 328, WET): 1 row(s) carry a publisher label. 2 planned; 3 left standing as published because the remainder classified as nothing (a bare field name, or a value the ",
            "gate refuses), and 4 already agree with the re-parse. 5 planned row(s) land on an identity that ALREADY stands. NOTE: for the German class that is NOT a merge R2 will perform — `crosswalk::canonical_key` has no DE arm at all (\"court-scoped registers\", a pinned negative), so those rows become visible exact duplicates rather than folded ones. APPLIED 6, skipped 7 whose row moved under the plan. The published string is untouched either way: it stays in organization_mentions.raw_identifier."].concat()
    );
    assert_eq!(
        typo_summary(true, &typo(false), 25),
        "repair-country-typos (issue 326 step 2, DRY): 1 cluster(s) walked, 2 decisive (the evidence names exactly one of the cluster's own codes). 3 row(s) planned to move; 4 left alone because their code is NOT one letter from the survivor — they share the identifier and nothing more, and a checksum elsewhere is no reason to rewrite a published country. Of the planned moves 5 abandon a country that WAS tested and refused the value, and 6 abandon one no scheme covers at this shape — the second half rests on the survivor's anchor alone and is where the dry run's false positives were found. REFUSED: 7 row(s) carry 25 mentions or more under their own country — real standing, so probably a real registration and not a slip — and 8 cluster(s) are named only by a bare Luhn, which carries no country information at all. EVERY move lands on an identity the survivor already holds, ON PURPOSE: run match-org-identifiers --r2 afterwards to fold them."
    );
}

fn r2() -> R2MergeReport {
    R2MergeReport {
        scanned: 1,
        keyed: 2,
        groups: 3,
        denied_cap: 4,
        denied_gate: 5,
        denied_consortium: 6,
        consortium_excluded: 7,
        denied_legal_form: 8,
        denied_group_vat: 9,
        plan_groups: 10,
        merged_groups: 11,
        removed: 12,
        mentions: 13,
        parties: 14,
        bid_parties: 15,
        winners: 16,
        winner_dups: 17,
        tender_changes: 18,
    }
}

fn r3() -> R3MergeReport {
    R3MergeReport {
        pool: 1,
        register_prefixed: 2,
        unanchored: 3,
        no_target: 4,
        multi_target: 5,
        uncorroborated: 6,
        denied_generic_name: 7,
        generic_name_hard_anchor: 8,
        denied_gate: 9,
        denied_consortium: 10,
        denied_legal_form: 11,
        denied_group_vat: 12,
        denied_cap: 13,
        plan_groups: 14,
        merged_groups: 15,
        removed: 16,
        mentions: 17,
        parties: 18,
        bid_parties: 19,
        winners: 20,
        winner_dups: 21,
        tender_changes: 22,
    }
}

#[test]
fn merge_lines_name_every_denial_and_a_blind_wall() {
    assert_eq!(
        r2_merge_summary(true, &r2()),
        "match-org-identifiers r2 (issue 300 Stage 2) DRY RUN — plan recorded, nothing written: 1 orgs scanned, 2 E1-keyed, 3 groups >=2; denied: 4 cap, 5 gate, 6 consortium (7 members excluded member-scoped), 8 legal-form, 9 vat-group-wall; plan 10 groups; merged 11 groups (12 org rows removed, 13 mentions, 14 parties, 15 bid-parties, 16 winners repointed, 17 winner dups deleted, 18 tenders touched)"
    );
    assert_eq!(
        r3_merge_summary(false, &r3(), 0),
        "match-org-identifiers r3 (issue 300 Stage 3): pool 1; skipped: 2 register-prefixed, 3 unanchored/ambiguous, 4 no-target, 5 multi-target, 6 uncorroborated; denied: 7 generic-name (8 generic but hard-anchored), 9 gate, 10 consortium, 11 legal-form, 12 vat-group-wall, 13 co-anchor-cap; plan 14 candidates; merged 15 (16 org rows removed, 17 mentions, 18 parties, 19 bid-parties, 20 winners repointed, 21 winner dups deleted, 22 tenders touched) — NOTE: org_match_keys is EMPTY, so the generic-name wall saw nothing and denied nothing"
    );
    assert_eq!(
        r3_merge_summary(false, &r3(), 5),
        "match-org-identifiers r3 (issue 300 Stage 3): pool 1; skipped: 2 register-prefixed, 3 unanchored/ambiguous, 4 no-target, 5 multi-target, 6 uncorroborated; denied: 7 generic-name (8 generic but hard-anchored), 9 gate, 10 consortium, 11 legal-form, 12 vat-group-wall, 13 co-anchor-cap; plan 14 candidates; merged 15 (16 org rows removed, 17 mentions, 18 parties, 19 bid-parties, 20 winners repointed, 21 winner dups deleted, 22 tenders touched)"
    );
}
