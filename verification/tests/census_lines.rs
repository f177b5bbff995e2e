use tender_supervisor::census_lines::{
    anchor_wall_summary, archive_summary, attribution_summary, backlog_summary,
    case_apply_summary, case_unapply_summary, cluster_summary, country_fold_summary,
    edge_census_summary, fusion_summary, identity_summary, legacy_summary, orphans_summary,
    packet_summary, pollution_summary, restore_summary, statistic_summary, typo_census_summary,
    wall_census_summary, xb_summary, AnchorWall, ArchiveRegistration, CaseApply, CaseBacklog,
    CaseUnapply, CountryCluster, CountryFold, CountryTypoCensus, DuplicateIdentity, FusionCensus,
    GenericStatistic, GenericWall, LegacyAdjacency, NameAttribution, NamePollution, OrgEdgeCensus,
    RehomingPacket, SatelliteOrphans, SatelliteRestore, XbPacket,
};

fn kv(pairs: &[(&str, u64)]) -> Vec<(String, u64)> {
    pairs.iter().map(|(k, v)| (k.to_string(), *v)).collect()
}

fn fold() -> CountryFold {
    CountryFold {
        values: 1,
        folds: 2,
        rows: 3,
        collisions: 4,
        unmapped: kv(&[("Deutschland", 9), ("X", 1)]),
        vat_scope_skipped: 5,
    }
}

fn packet(groups_elided: u64, truncated: bool) -> RehomingPacket {
    RehomingPacket {
        cases: 1,
        open: 2,
        off_name_mentions: 3,
        groups_total: 4,
        listed: 5,
        probed_groups: 6,
        probed_groups_with_target: 7,
        groups_generic: 8,
        already_reviewed: 9,
        parked_total: 10,
        groups_elided,
        truncated,
    }
}

fn restore() -> SatelliteRestore {
    SatelliteRestore { outstanding: 1, would_restore: 2, restored: 3, occupied: 4, superseded: 5, orphaned: 6 }
}

fn cluster() -> CountryCluster {
    CountryCluster {
        rows_walked: 1,
        identifiers: 2,
        countries: 3,
        clusters: 4,
        with_one_letter_pair: 5,
        with_heavy_one_letter: 6,
        footprint: 7,
        too_short: 8,
        verdicts: kv(&[("agree", 3), ("spray", 2)]),
        majority_share: vec![10, 20, 30, 40, 50, 60],
    }
}

fn attribution() -> NameAttribution {
    NameAttribution {
        keys_walked: 1,
        keys_examined: 2,
        sampled: 3,
        agrees: 4,
        differs: 5,
        silent: 6,
        published_keys: 7,
        replaced_keys: 8,
        mixed_keys: 9,
        no_evidence_keys: 10,
    }
}

fn statistic() -> GenericStatistic {
    GenericStatistic {
        keys_walked: 1,
        keys_over_cap: 2,
        over_cap_carriers: 3,
        single_identity: 4,
        mostly_fragmented: 5,
        mostly_distinct: 6,
        no_identifiers: 7,
        too_little_evidence: 8,
        identity_ratio: vec![10, 20, 30, 40, 50],
    }
}

fn pollution() -> NamePollution {
    NamePollution {
        rows_walked: 1,
        polluted: 2,
        polluted_mentions: 3,
        published: 4,
        derived_only: 5,
        no_mentions: 6,
        by_country: kv(&[("AT", 2), ("DE", 1)]),
        name_lengths: vec![1, 3, 5],
    }
}

fn identity() -> DuplicateIdentity {
    DuplicateIdentity {
        rows_walked: 1,
        triples: 2,
        duplicate_groups: 3,
        duplicate_rows: 4,
        keyed_groups: 5,
        unkeyed_groups: 8,
        unkeyed_by_scope: kv(&[("DE:vat", 8)]),
        verdicts: kv(&[("agree", 6), ("disagree", 2)]),
        verdicts_by_scope: kv(&[("DE:vat/agree-distinctive", 1), ("DE:vat/disagree", 2)]),
        name_keys_absent: 7,
    }
}

fn typo_census(hits: u64, decided: u64) -> CountryTypoCensus {
    CountryTypoCensus {
        countries: 1,
        pairs_considered: 2,
        rows_walked: 3,
        hits,
        decided,
        neither_probed: 6,
        listed: 7,
        truncated: false,
    }
}

fn anchor_wall(with_scheme: bool) -> AnchorWall {
    AnchorWall {
        keys_walked: 1,
        generic_keys: 2,
        generic_orgs: 3,
        probed: 4,
        anchored: 5,
        anchored_hard: 6,
        anchored_soft: 7,
        soft_slots: 8,
        by_scheme: if with_scheme { kv(&[("NO:orgnr", 11), ("DK:cvr", 3)]) } else { vec![] },
    }
}

fn edges() -> OrgEdgeCensus {
    OrgEdgeCensus {
        edges: 1,
        e3_name: 2,
        e3_xlang: 3,
        orgs_touched: 4,
        dangling_orgs: 5,
        components: 6,
        max_component: 7,
        canonical_only_components: 8,
        mixed_components: 9,
        provisional_only_components: 10,
        multi_country_components: 11,
        null_country_components: 12,
        canonical_cross_border_components: 13,
    }
}

#[test]
fn census_and_packet_lines_are_exact() {
    assert_eq!(
        archive_summary(&ArchiveRegistration { registered: 1, existing: 2, unrecognised: 3 }),
        "archive re-registered: 1 package(s) hashed+recorded, 2 period(s) already known (skipped unhashed), 3 unrecognised entr(ies)"
    );
    assert_eq!(
        legacy_summary(&LegacyAdjacency { swept: 4, keys: 5, watermark: -6 }),
        "legacy adjacency backfilled: 4 legacy notices swept, 5 key rows offered, watermark established at -6"
    );
    assert_eq!(
        country_fold_summary(true, &fold()),
        "fold-org-countries (issue 319) DRY RUN — plan recorded, nothing written: 1 distinct country values, 2 to fold over 3 rows; 4 identifier-bearing rows land on an identity that already stands (R2's to merge, not this job's); 2 values stay unmapped (largest: \"Deutschland\", 9 rows); 5 VAT-scope values SKIPPED on purpose (the resolver binds on them)"
    );
    assert_eq!(
        country_fold_summary(false, &CountryFold { unmapped: vec![], ..fold() }),
        "fold-org-countries (issue 319): 1 distinct country values, 2 to fold over 3 rows; 4 identifier-bearing rows land on an identity that already stands (R2's to merge, not this job's); 0 values stay unmapped; 5 VAT-scope values SKIPPED on purpose (the resolver binds on them)"
    );
    assert_eq!(
        fusion_summary(&FusionCensus { cases: 1, with_mentions: 2, fused: 3, off_name_mentions: 4, truncated: true }),
        "fusion-census (issue 317 Unit A): 1 applied case rows, 2 with mentions; 3 hold at least one mention naming somebody ELSE, over 4 such mentions (candidate list TRUNCATED at the cap)"
    );
    assert_eq!(
        packet_summary(&packet(0, false)),
        "rehoming-packet (issue 317 Unit A): 1 applied case orgs, 2 still hold an UNDECIDED off-name mention, over 3 such mentions in 4 name groups; listed 5 cases probing 6 groups (7 have a standing destination, 8 are a shared literal over the genericness wall); 9 mentions already decided, 10 verdicts PARKED (recorded but unappliable)"
    );
    assert_eq!(
        packet_summary(&packet(7, true)),
        "rehoming-packet (issue 317 Unit A): 1 applied case orgs, 2 still hold an UNDECIDED off-name mention, over 3 such mentions in 4 name groups; listed 5 cases probing 6 groups (7 have a standing destination, 8 are a shared literal over the genericness wall); 9 mentions already decided, 10 verdicts PARKED (recorded but unappliable); 7 groups elided by the per-case cap; CASE LIST TRUNCATED at the cap"
    );
    assert_eq!(
        restore_summary(true, Some(12), &restore()),
        "restore-dropped-satellites DRY (issue 321, bounded to drop job 12): 1 outstanding pre-image(s), 2 would be restored; 4 left alone because something has since written that (org, lang), 5 superseded by a newer drop on the same slot, 6 whose org no longer exists. A restore never clobbers newer truth and never lets one unrestorable row take the rest of the pass with it."
    );
    assert_eq!(
        restore_summary(false, None, &restore()),
        "restore-dropped-satellites WET (issue 321): 1 outstanding pre-image(s), 3 restored; 4 left alone because something has since written that (org, lang), 5 superseded by a newer drop on the same slot, 6 whose org no longer exists. A restore never clobbers newer truth and never lets one unrestorable row take the rest of the pass with it."
    );
    assert_eq!(
        xb_summary(&XbPacket { cohort: 9, cases: 3, truncated: true }),
        "xb-packet (issues 311+314): 9 same-name cross-border component(s) in the cohort, 3 carried in this packet (CAPPED). Each case lists every member's row, its language-labelled variants, its mention count and a few publication ids — the mention SPREAD is the first read: one heavy row beside a light one is a stray duplicate, two heavy rows are more likely two real registrations. ANCHOR KEY (issue 314): read country_agrees only WITH country_probed. probed+agrees = the arithmetic works where the row says it is; probed+disagrees = tested under the row's own register and refused, which is the contaminated country signal; NOT probed = no scheme of that country has this value's shape, so the silence carries no information."
    );
    assert_eq!(
        cluster_summary(&cluster(), 6),
        "country-cluster-census (issue 326 re-cut): 1 rows walked, 2 distinct identifiers under 3 country codes. 4 identifiers stand under MORE THAN ONE code; 5 have some two codes one letter apart, and 6 have the HEAVIEST code one letter from another (the sharper filter — spray one letter from spray says nothing). 7 cluster(s) are an operational footprint (embassy or development agency: one entity, one register number, filed from everywhere it operates) and are excluded, never corrected. 8 identifier(s) are under 6 characters. Verdicts: agree=3, spray=2. Heaviest code's mention share p25/p50/p75/p90 = 20/30/40/50%."
    );
    assert_eq!(
        attribution_summary(&attribution()),
        "name-attribution-probe (issue 334): walked 1 name key(s) to find the 2 WIDEST over the cap of 20, then sampled up to 120 carriers of each and asked their own notices. THIS IS A PROBE OVER THOSE KEYS, NOT A CORPUS TALLY — every number here is about that set. 3 carrier(s) sampled: 4 agree with at least one of their own mentions, 5 have every mention naming something ELSE, 6 have no mentions at all. Per key: 7 published (stored name is what the notices said — no parser change would have prevented it), 8 replaced (no sampled carrier's notices agree, so the name was put there downstream, which would be ours), 9 mixed, 10 with no evidence. Read the `examples` in the report before concluding anything: the counts say how big, only the values say what happened. NOTHING IS WRITTEN."
    );
    assert_eq!(
        statistic_summary(&statistic()),
        "generic-statistic-census (issue 332): 1 name key(s) walked across n2 and n3; 2 are over the stoplist cap of 20, covering 3 carrier rows. Cut by how many DISTINCT (country, kind, identifier) triples those carriers hold: 4 hold exactly ONE (a single identity fragmented — the wall refusing a name nobody else uses), 5 are mostly-fragmented (distinct identities at most half the identifier-bearing carriers), 6 are mostly-distinct (a genuinely shared name, the wall working as designed), and 7 have no identifier-bearing carrier at all, and 8 have exactly ONE (which makes `distinct == 1` arithmetically true and evidentially empty) — neither can be decided this way. Identity ratio p10/p25/p50/p75/p90 = 10/20/30/40/40%. THE QUESTION IS WHETHER THAT IS BIMODAL: two populations that separate would justify a better statistic, one smear means the carrier count is fine and issue 332 closes on a negative. NOTHING IS WRITTEN."
    );
    assert_eq!(
        wall_census_summary(&GenericWall { duplicate_groups: 1, duplicate_rows: 2, keys_with_savings: 3, keys_over_cap: 4, keys_falsely_generic: 5, orgs_affected: 6, nearest_miss: 7 }),
        "generic-wall-census (issue 331): 1 duplicate identity group(s) covering 2 org rows. 3 name key(s) are carried more than once inside some group, so their carrier count is inflated at all; 4 of those are over the stoplist cap of 20 today. FALSELY GENERIC — over the cap now, at or under it once duplicates collapse: 5. Upper bound on orgs behind them: 6. Nearest miss among keys that stay generic: 7 collapsed carriers against a cap of 20. A zero here means the mechanism is real and INERT, which is a complete answer and the same shape issue 327 settled on. NOTHING IS WRITTEN. Conservative by construction: duplication is proved by a shared (country, kind, identifier) triple, so fragmentation among rows with no identifier is counted as genuine commonality and never inflates this."
    );
    assert_eq!(
        pollution_summary(&pollution()),
        "name-pollution-census (issue 330): 1 organization name(s) walked, 2 carry a LINE BREAK, attached to 3 mention(s). Of those, 4 were PUBLISHED that way (at least one mention carries the break too — no parser change would have prevented it), 5 are derived-only (every mention clean, so the break was introduced downstream of the notice, which would be ours), and 6 have no mentions to compare. By country: AT=2, DE=1. Name length p50/p90/p99/max = 3/3/3/5 characters. NOTHING IS WRITTEN: the split between published and derived-only is what decides whether this is a parser fix or a normalisation policy."
    );
    assert_eq!(
        identity_summary(&identity()),
        "duplicate-identity-census (issue 328 follow-on): 1 rows walked, 2 distinct (country, kind, identifier) triples. 3 triple(s) are held by MORE THAN ONE org row, covering 4 rows. Of those, 5 are keyed by canonical_key and are already inside the merge arms' field of view; 8 are NOT keyed and no arm can reach them. Unkeyed by scope: DE:vat=8. Name verdicts over the unkeyed groups: agree=6, disagree=2 (25% disagree). DE:vat specifically — 1 agree-distinctive, 0 agree-generic, 0 contained, 2 disagree, 0 unnamed. `contained` is UNDECIDED and NOT a safe bucket: an Organschaft subsidiary and a branch office are named the same way (parent name plus a qualifier), so nothing in a name separates them. 7 name key(s) were absent from org_match_keys entirely, which is the number that says whether the agree/generic split can be trusted at all. NOTHING IS WRITTEN: this is the measurement the DE cross-walk decision was waiting on, not the decision."
    );
    assert_eq!(
        typo_census_summary(&typo_census(2, 5)),
        "country-typo-census (issue 326): 1 country code(s) hold identifier-bearing rows, 2 pairing(s) are exactly one letter apart with both sides present, 3 row(s) walked on the rarer sides. HITS: 2 pair(s) carry the SAME identifier across a one-letter country pair. Of those the checksum names a survivor for 5, and for 6 it never asked about EITHER country — so 0 of 2 need a discriminator the arithmetic cannot give, and a repair must abstain there rather than guess. 7 row(s) carried in the report. Read-only: nothing was merged, folded or written."
    );
    assert_eq!(
        typo_census_summary(&typo_census(9, 5)),
        "country-typo-census (issue 326): 1 country code(s) hold identifier-bearing rows, 2 pairing(s) are exactly one letter apart with both sides present, 3 row(s) walked on the rarer sides. HITS: 9 pair(s) carry the SAME identifier across a one-letter country pair. Of those the checksum names a survivor for 5, and for 6 it never asked about EITHER country — so 4 of 9 need a discriminator the arithmetic cannot give, and a repair must abstain there rather than guess. 7 row(s) carried in the report. Read-only: nothing was merged, folded or written."
    );
    assert_eq!(
        anchor_wall_summary(&anchor_wall(true)),
        "anchor-wall-census (issue 318): 1 n2 key group(s) walked, 2 over the stoplist cap, holding 3 carrier slot(s) of which 4 were probed. DISTINCT orgs anchoring to exactly one scheme: 5 — 6 HARD (both paths agree, the design's exemption) and 7 SOFT. That 7 is the STANDING SURFACE where the resolver would bind and the batch arm would refuse: distinct rows reachable (8 (org, generic-name) slots), not binds observed. Widest scheme: NO:orgnr at 11."
    );
    assert_eq!(
        anchor_wall_summary(&anchor_wall(false)),
        "anchor-wall-census (issue 318): 1 n2 key group(s) walked, 2 over the stoplist cap, holding 3 carrier slot(s) of which 4 were probed. DISTINCT orgs anchoring to exactly one scheme: 5 — 6 HARD (both paths agree, the design's exemption) and 7 SOFT. That 7 is the STANDING SURFACE where the resolver would bind and the batch arm would refuse: distinct rows reachable (8 (org, generic-name) slots), not binds observed."
    );
    assert_eq!(
        orphans_summary(&SatelliteOrphans { origins: 1, standing: 2, variants: 3, orphans: 4, orphans_at_target: 5, origins_with_orphans: 6, truncated: false }),
        "satellite-orphans (issue 321): 1 re-homing origins, 2 still standing, holding 3 name variants; 4 are supported by NO remaining mention (5 of those already stand on a row this origin re-homed to), over 6 origins"
    );
    assert_eq!(
        backlog_summary(&CaseBacklog { total: 9, applied: 4, unapplied: 5, escalations: 2, medium_peer_rows: vec![0, 3, 1, 0], truncated: true }),
        "case-review-backlog (issue 317): 9 verdicts, 4 applied, 5 parked; 2 escalations and 4 medium-band cases listed (2 of the mediums have a peer row carrying the same identifier); LIST TRUNCATED at the cap"
    );
    assert_eq!(
        edge_census_summary(&edges()),
        "org-edge-census (issue 314): 1 edges (2 e3-name + 3 e3-xlang) over 4 orgs (5 dangling); 6 components, max 7; 8 canonical-only, 9 mixed, 10 provisional-only; 11 span >1 KNOWN country, 12 hold a country-less member; COHORT (canonical-only AND cross-border): 13"
    );
    assert_eq!(
        case_apply_summary(true, &CaseApply { pending: 1, eligible: 2, stripped: 3, noop: 4 }),
        "apply-case-reviews (issue 311) DRY RUN — plan recorded, nothing written: 1 pending verdicts, 2 eligible (wrong-identifier + high confidence); 3 identifiers stripped, 4 no-ops"
    );
    assert_eq!(
        case_unapply_summary(false, &CaseUnapply { applied: 1, selected: 2, restored: 3, noop: 4 }),
        "unapply-case-reviews (issue 312): 1 applied verdicts examined, 2 strips with a platform-GUID pre-image; 3 identifiers restored, 4 no-ops (org gone or an identifier written since)"
    );
}
