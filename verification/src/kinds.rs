//! Which job kinds hold the WAL while they run, and which ones read the stop
//! flag.
use vstd::prelude::*;
use crate::text::str_eq;

verus! {

/// Kinds that write canonical or parsed rows in checkpointed batches.
pub open spec fn heavy_write(k: Seq<char>) -> bool {
    k == "process"@
        || k == "project"@
        || k == "reprocess"@
        || k == "reindex"@
        || k == "refold"@
        || k == "refold-fields"@
        || k == "refold-notices"@
        || k == "refold-sections"@
        || k == "reparse"@
        || k == "merge-provisional-orgs"@
        || k == "mark-skipped-siblings"@
        || k == "repair-swept-siblings"@
        || k == "backfill-deadlines"@
        || k == "backfill-titles"@
        || k == "backfill-values"@
        || k == "backfill-org-names"@
        || k == "backfill-legacy-adjacency"@
        || k == "rederive-eur"@
        || k == "repair-nested-orgs"@
        || k == "repair-placeholder-orgs"@
        || k == "match-org-identifiers"@
        || k == "build-org-match-keys"@
        || k == "scan-org-match-keys"@
        || k == "backfill-org-name-variants"@
        || k == "fetch-rates"@
        || k == "fetch-rates-ecu"@
}

/// Whether a running job of this kind needs the coverage refresher to stand down.
pub fn heavy_write_kind(kind: &str) -> (r: bool)
    ensures
        r == heavy_write(kind@),
{
    str_eq(kind, "process")
        || str_eq(kind, "project")
        || str_eq(kind, "reprocess")
        || str_eq(kind, "reindex")
        || str_eq(kind, "refold")
        || str_eq(kind, "refold-fields")
        || str_eq(kind, "refold-notices")
        || str_eq(kind, "refold-sections")
        || str_eq(kind, "reparse")
        || str_eq(kind, "merge-provisional-orgs")
        || str_eq(kind, "mark-skipped-siblings")
        || str_eq(kind, "repair-swept-siblings")
        || str_eq(kind, "backfill-deadlines")
        || str_eq(kind, "backfill-titles")
        || str_eq(kind, "backfill-values")
        || str_eq(kind, "backfill-org-names")
        || str_eq(kind, "backfill-legacy-adjacency")
        || str_eq(kind, "rederive-eur")
        || str_eq(kind, "repair-nested-orgs")
        || str_eq(kind, "repair-placeholder-orgs")
        || str_eq(kind, "match-org-identifiers")
        || str_eq(kind, "build-org-match-keys")
        || str_eq(kind, "scan-org-match-keys")
        || str_eq(kind, "backfill-org-name-variants")
        || str_eq(kind, "fetch-rates")
        || str_eq(kind, "fetch-rates-ecu")
}

/// Kinds whose loop reads the stop flag at its checkpoints.
pub open spec fn stoppable(k: Seq<char>) -> bool {
    k == "reparse"@
        || k == "data-quality"@
        || k == "project"@
        || k == "merge-provisional-orgs"@
        || k == "org-merge-health"@
        || k == "r2-census"@
        || k == "r3-census"@
        || k == "match-org-identifiers"@
        || k == "build-org-match-keys"@
        || k == "scan-org-match-keys"@
        || k == "org-edge-census"@
        || k == "case-review-backlog"@
        || k == "fold-org-countries"@
        || k == "fusion-census"@
        || k == "rehoming-packet"@
        || k == "satellite-orphans"@
        || k == "drop-orphan-satellites"@
        || k == "anchor-wall-census"@
        || k == "xb-packet"@
        || k == "country-typo-census"@
        || k == "country-cluster-census"@
        || k == "duplicate-identity-census"@
        || k == "name-pollution-census"@
        || k == "generic-wall-census"@
        || k == "generic-statistic-census"@
        || k == "name-attribution-probe"@
        || k == "ghost-census"@
        || k == "repair-country-typos"@
        || k == "repair-label-prefixes"@
        || k == "repair-minted-countries"@
}

/// Whether a running job of this kind can be asked to stop.
pub fn is_stoppable(kind: &str) -> (r: bool)
    ensures
        r == stoppable(kind@),
{
    str_eq(kind, "reparse")
        || str_eq(kind, "data-quality")
        || str_eq(kind, "project")
        || str_eq(kind, "merge-provisional-orgs")
        || str_eq(kind, "org-merge-health")
        || str_eq(kind, "r2-census")
        || str_eq(kind, "r3-census")
        || str_eq(kind, "match-org-identifiers")
        || str_eq(kind, "build-org-match-keys")
        || str_eq(kind, "scan-org-match-keys")
        || str_eq(kind, "org-edge-census")
        || str_eq(kind, "case-review-backlog")
        || str_eq(kind, "fold-org-countries")
        || str_eq(kind, "fusion-census")
        || str_eq(kind, "rehoming-packet")
        || str_eq(kind, "satellite-orphans")
        || str_eq(kind, "drop-orphan-satellites")
        || str_eq(kind, "anchor-wall-census")
        || str_eq(kind, "xb-packet")
        || str_eq(kind, "country-typo-census")
        || str_eq(kind, "country-cluster-census")
        || str_eq(kind, "duplicate-identity-census")
        || str_eq(kind, "name-pollution-census")
        || str_eq(kind, "generic-wall-census")
        || str_eq(kind, "generic-statistic-census")
        || str_eq(kind, "name-attribution-probe")
        || str_eq(kind, "ghost-census")
        || str_eq(kind, "repair-country-typos")
        || str_eq(kind, "repair-label-prefixes")
        || str_eq(kind, "repair-minted-countries")
}

} // verus!
