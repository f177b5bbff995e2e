//! The result lines of the census and packet jobs: each reads the counts its
//! store walk returned and says what they mean, with the list-valued parts
//! (verdicts by kind, the largest unmapped value, the widest scheme, the
//! distribution percentiles) rendered from the lists themselves.
use vstd::prelude::*;
use crate::jobs::SCAN_STOPLIST_CAP;
use crate::period::{debug_quote, debug_quoted};
use crate::quantiles::{percentile, percentile_spec, share_of, share_pct};
use crate::residual::{join_items, push_items};
use crate::text::{dec, dec_int, push_i64, push_u64, str_eq};

verus! {

/// How many carriers of each key the name-attribution probe samples.
pub const ATTRIBUTION_PER_KEY: u64 = 120;

/// Named counts as plain values.
pub open spec fn kvs_v(s: Seq<(String, u64)>) -> Seq<(Seq<char>, u64)> {
    s.map_values(|e: (String, u64)| (e.0@, e.1))
}

/// Named counts as `name=count`, joined with `, `.
pub open spec fn kv_text(s: Seq<(Seq<char>, u64)>) -> Seq<char> {
    join_items(s.map_values(|e: (Seq<char>, u64)| e.0 + "="@ + dec(e.1 as nat)))
}

fn push_kv(s: &mut String, items: &Vec<(String, u64)>)
    ensures
        final(s)@ == old(s)@ + kv_text(kvs_v(items@)),
{
    let mut parts: Vec<String> = Vec::new();
    let mut i: usize = 0;
    while i < items.len()
        invariant
            i <= items@.len(),
            parts.deep_view() == kvs_v(items@).take(i as int).map_values(
                |e: (Seq<char>, u64)| e.0 + "="@ + dec(e.1 as nat),
            ),
        decreases items@.len() - i,
    {
        let mut p = String::from_str(items[i].0.as_str());
        p.append("=");
        push_u64(&mut p, items[i].1);
        let ghost before = parts.deep_view();
        parts.push(p);
        proof {
            assert(parts.deep_view() =~= before.push(p@));
            assert(kvs_v(items@)[i as int] == (items@[i as int].0@, items@[i as int].1));
            assert(kvs_v(items@).take(i + 1).map_values(|e: (Seq<char>, u64)| e.0 + "="@ + dec(e.1 as nat))
                =~= kvs_v(items@).take(i as int).map_values(|e: (Seq<char>, u64)| e.0 + "="@ + dec(e.1 as nat)).push(p@));
        }
        i = i + 1;
    }
    proof {
        assert(kvs_v(items@).take(items@.len() as int) =~= kvs_v(items@));
    }
    push_items(s, &parts);
}

/// The largest unmapped value and its rows, when there is one.
pub open spec fn largest_text(s: Seq<(Seq<char>, u64)>) -> Seq<char> {
    if s.len() == 0 {
        Seq::empty()
    } else {
        " (largest: "@ + debug_quoted(s[0].0) + ", "@ + dec(s[0].1 as nat) + " rows)"@
    }
}

fn push_largest(s: &mut String, items: &Vec<(String, u64)>)
    ensures
        final(s)@ == old(s)@ + largest_text(kvs_v(items@)),
{
    if items.len() == 0 {
        proof {
            assert(old(s)@ + Seq::<char>::empty() =~= old(s)@);
        }
        return;
    }
    s.append(" (largest: ");
    let q = debug_quote(items[0].0.as_str());
    s.append(q.as_str());
    s.append(", ");
    push_u64(s, items[0].1);
    s.append(" rows)");
}

/// The widest scheme and its count, when there is one.
pub open spec fn widest_text(s: Seq<(Seq<char>, u64)>) -> Seq<char> {
    if s.len() == 0 {
        Seq::empty()
    } else {
        " Widest scheme: "@ + s[0].0 + " at "@ + dec(s[0].1 as nat) + "."@
    }
}

fn push_widest(s: &mut String, items: &Vec<(String, u64)>)
    ensures
        final(s)@ == old(s)@ + widest_text(kvs_v(items@)),
{
    if items.len() == 0 {
        proof {
            assert(old(s)@ + Seq::<char>::empty() =~= old(s)@);
        }
        return;
    }
    s.append(" Widest scheme: ");
    s.append(items[0].0.as_str());
    s.append(" at ");
    push_u64(s, items[0].1);
    s.append(".");
}

/// The count under the first entry named `key`, 0 when none is.
pub open spec fn lookup(s: Seq<(Seq<char>, u64)>, key: Seq<char>) -> u64
    decreases s.len(),
{
    if s.len() == 0 {
        0
    } else if s[0].0 == key {
        s[0].1
    } else {
        lookup(s.drop_first(), key)
    }
}

/// The count under `key`.
pub fn count_for(items: &Vec<(String, u64)>, key: &str) -> (r: u64)
    ensures
        r == lookup(kvs_v(items@), key@),
{
    let ghost v = kvs_v(items@);
    let mut i: usize = 0;
    proof {
        assert(v.skip(0) =~= v);
    }
    while i < items.len()
        invariant
            v == kvs_v(items@),
            i <= items@.len(),
            lookup(v.skip(i as int), key@) == lookup(v, key@),
        decreases items@.len() - i,
    {
        proof {
            assert(v.skip(i as int)[0] == v[i as int]);
            assert(v.skip(i as int).drop_first() =~= v.skip(i + 1));
            assert(v[i as int] == (items@[i as int].0@, items@[i as int].1));
        }
        if str_eq(items[i].0.as_str(), key) {
            return items[i].1;
        }
        i = i + 1;
    }
    proof {
        assert(v.skip(i as int).len() == 0);
    }
    0
}

/// How many of the counts are positive.
pub open spec fn positives(s: Seq<u64>) -> nat
    decreases s.len(),
{
    if s.len() == 0 {
        0
    } else {
        positives(s.drop_last()) + if s.last() > 0 {
            1nat
        } else {
            0nat
        }
    }
}

fn count_positive(v: &Vec<u64>) -> (r: u64)
    ensures
        r == positives(v@),
{
    let mut n: u64 = 0;
    let mut i: usize = 0;
    while i < v.len()
        invariant
            i <= v@.len(),
            n == positives(v@.take(i as int)),
            n <= i,
        decreases v@.len() - i,
    {
        proof {
            assert(v@.take(i + 1).drop_last() =~= v@.take(i as int));
        }
        if v[i] > 0 {
            n = n + 1;
        }
        i = i + 1;
    }
    proof {
        assert(v@.take(v@.len() as int) =~= v@);
    }
    n
}

/// What re-registering the archive reports.
pub struct ArchiveRegistration {
    pub registered: u64,
    pub existing: u64,
    pub unrecognised: u64,
}

/// The result line of an archive re-registration.
pub open spec fn archive_summary_text(r: ArchiveRegistration) -> Seq<char> {
    "archive re-registered: "@
        + dec((r.registered) as nat)
        + " package(s) hashed+recorded, "@
        + dec((r.existing) as nat)
        + " period(s) already known (skipped unhashed), "@
        + dec((r.unrecognised) as nat)
        + " unrecognised entr(ies)"@
}

/// The result line of an archive re-registration.
pub fn archive_summary(r: &ArchiveRegistration) -> (s: String)
    ensures
        s@ == archive_summary_text(*r),
{
    let mut s = String::new();
    s.append("archive re-registered: ");
    push_u64(&mut s, r.registered);
    s.append(" package(s) hashed+recorded, ");
    push_u64(&mut s, r.existing);
    s.append(" period(s) already known (skipped unhashed), ");
    push_u64(&mut s, r.unrecognised);
    s.append(" unrecognised entr(ies)");
    s
}

/// What the legacy-adjacency backfill reports.
pub struct LegacyAdjacency {
    pub swept: u64,
    pub keys: u64,
    pub watermark: i64,
}

/// The result line of the legacy-adjacency backfill.
pub open spec fn legacy_summary_text(r: LegacyAdjacency) -> Seq<char> {
    "legacy adjacency backfilled: "@
        + dec((r.swept) as nat)
        + " legacy notices swept, "@
        + dec((r.keys) as nat)
        + " key rows offered, watermark established at "@
        + dec_int((r.watermark) as int)
}

/// The result line of the legacy-adjacency backfill.
pub fn legacy_summary(r: &LegacyAdjacency) -> (s: String)
    ensures
        s@ == legacy_summary_text(*r),
{
    let mut s = String::new();
    s.append("legacy adjacency backfilled: ");
    push_u64(&mut s, r.swept);
    s.append(" legacy notices swept, ");
    push_u64(&mut s, r.keys);
    s.append(" key rows offered, watermark established at ");
    push_i64(&mut s, r.watermark);
    s
}

/// What the org-country fold reports: the folds planned, the values left unmapped (largest first) and the VAT-scope values skipped.
pub struct CountryFold {
    pub values: u64,
    pub folds: u64,
    pub rows: u64,
    pub collisions: u64,
    pub unmapped: Vec<(String, u64)>,
    pub vat_scope_skipped: u64,
}

/// The result line of the org-country fold.
pub open spec fn country_fold_summary_text(dry_run: bool, r: CountryFold) -> Seq<char> {
    "fold-org-countries (issue 319)"@
        + (if dry_run {
        " DRY RUN — plan recorded, nothing written"@
    } else {
        Seq::<char>::empty()
    })
        + ": "@
        + dec((r.values) as nat)
        + " distinct country values, "@
        + dec((r.folds) as nat)
        + " to fold over "@
        + dec((r.rows) as nat)
        + " rows; "@
        + dec((r.collisions) as nat)
        + " identifier-bearing rows land on an identity that already stands (R2's to merge, not this job's); "@
        + (dec(r.unmapped@.len()))
        + " values stay unmapped"@
        + (largest_text(kvs_v(r.unmapped@)))
        + "; "@
        + dec((r.vat_scope_skipped) as nat)
        + " VAT-scope values SKIPPED on purpose (the resolver binds on them)"@
}

/// The result line of the org-country fold.
pub fn country_fold_summary(dry_run: bool, r: &CountryFold) -> (s: String)
    ensures
        s@ == country_fold_summary_text(dry_run, *r),
{
    let mut s = String::new();
    s.append("fold-org-countries (issue 319)");
    if dry_run {
        s.append(" DRY RUN — plan recorded, nothing written");
    }
    s.append(": ");
    push_u64(&mut s, r.values);
    s.append(" distinct country values, ");
    push_u64(&mut s, r.folds);
    s.append(" to fold over ");
    push_u64(&mut s, r.rows);
    s.append(" rows; ");
    push_u64(&mut s, r.collisions);
    s.append(" identifier-bearing rows land on an identity that already stands (R2's to merge, not this job's); ");
    push_u64(&mut s, r.unmapped.len() as u64);
    s.append(" values stay unmapped");
    push_largest(&mut s, &r.unmapped);
    s.append("; ");
    push_u64(&mut s, r.vat_scope_skipped);
    s.append(" VAT-scope values SKIPPED on purpose (the resolver binds on them)");
    s
}

/// What the fusion census reports.
pub struct FusionCensus {
    pub cases: u64,
    pub with_mentions: u64,
    pub fused: u64,
    pub off_name_mentions: u64,
    pub truncated: bool,
}

/// The result line of the fusion census.
pub open spec fn fusion_summary_text(r: FusionCensus) -> Seq<char> {
    "fusion-census (issue 317 Unit A): "@
        + dec((r.cases) as nat)
        + " applied case rows, "@
        + dec((r.with_mentions) as nat)
        + " with mentions; "@
        + dec((r.fused) as nat)
        + " hold at least one mention naming somebody ELSE, over "@
        + dec((r.off_name_mentions) as nat)
        + " such mentions"@
        + (if r.truncated {
        " (candidate list TRUNCATED at the cap)"@
    } else {
        Seq::<char>::empty()
    })
}

/// The result line of the fusion census.
pub fn fusion_summary(r: &FusionCensus) -> (s: String)
    ensures
        s@ == fusion_summary_text(*r),
{
    let mut s = String::new();
    s.append("fusion-census (issue 317 Unit A): ");
    push_u64(&mut s, r.cases);
    s.append(" applied case rows, ");
    push_u64(&mut s, r.with_mentions);
    s.append(" with mentions; ");
    push_u64(&mut s, r.fused);
    s.append(" hold at least one mention naming somebody ELSE, over ");
    push_u64(&mut s, r.off_name_mentions);
    s.append(" such mentions");
    if r.truncated {
        s.append(" (candidate list TRUNCATED at the cap)");
    }
    s
}

/// What the re-homing packet reports.
pub struct RehomingPacket {
    pub cases: u64,
    pub open: u64,
    pub off_name_mentions: u64,
    pub groups_total: u64,
    pub listed: u64,
    pub probed_groups: u64,
    pub probed_groups_with_target: u64,
    pub groups_generic: u64,
    pub already_reviewed: u64,
    pub parked_total: u64,
    pub groups_elided: u64,
    pub truncated: bool,
}

/// The result line of the re-homing packet.
pub open spec fn packet_summary_text(r: RehomingPacket) -> Seq<char> {
    "rehoming-packet (issue 317 Unit A): "@
        + dec((r.cases) as nat)
        + " applied case orgs, "@
        + dec((r.open) as nat)
        + " still hold an UNDECIDED off-name mention, over "@
        + dec((r.off_name_mentions) as nat)
        + " such mentions in "@
        + dec((r.groups_total) as nat)
        + " name groups; listed "@
        + dec((r.listed) as nat)
        + " cases probing "@
        + dec((r.probed_groups) as nat)
        + " groups ("@
        + dec((r.probed_groups_with_target) as nat)
        + " have a standing destination, "@
        + dec((r.groups_generic) as nat)
        + " are a shared literal over the genericness wall); "@
        + dec((r.already_reviewed) as nat)
        + " mentions already decided, "@
        + dec((r.parked_total) as nat)
        + " verdicts PARKED (recorded but unappliable)"@
        + ((if r.groups_elided > 0 { "; "@ + dec(r.groups_elided as nat) + " groups elided by the per-case cap"@ } else { Seq::<char>::empty() }))
        + (if r.truncated {
        "; CASE LIST TRUNCATED at the cap"@
    } else {
        Seq::<char>::empty()
    })
}

/// The result line of the re-homing packet.
pub fn packet_summary(r: &RehomingPacket) -> (s: String)
    ensures
        s@ == packet_summary_text(*r),
{
    let mut s = String::new();
    s.append("rehoming-packet (issue 317 Unit A): ");
    push_u64(&mut s, r.cases);
    s.append(" applied case orgs, ");
    push_u64(&mut s, r.open);
    s.append(" still hold an UNDECIDED off-name mention, over ");
    push_u64(&mut s, r.off_name_mentions);
    s.append(" such mentions in ");
    push_u64(&mut s, r.groups_total);
    s.append(" name groups; listed ");
    push_u64(&mut s, r.listed);
    s.append(" cases probing ");
    push_u64(&mut s, r.probed_groups);
    s.append(" groups (");
    push_u64(&mut s, r.probed_groups_with_target);
    s.append(" have a standing destination, ");
    push_u64(&mut s, r.groups_generic);
    s.append(" are a shared literal over the genericness wall); ");
    push_u64(&mut s, r.already_reviewed);
    s.append(" mentions already decided, ");
    push_u64(&mut s, r.parked_total);
    s.append(" verdicts PARKED (recorded but unappliable)");
    if r.groups_elided > 0 { s.append("; "); push_u64(&mut s, r.groups_elided); s.append(" groups elided by the per-case cap"); }
    if r.truncated {
        s.append("; CASE LIST TRUNCATED at the cap");
    }
    s
}

/// What restoring dropped satellites reports: the outstanding pre-images, those a dry run would restore and those a wet run restored.
pub struct SatelliteRestore {
    pub outstanding: u64,
    pub would_restore: u64,
    pub restored: u64,
    pub occupied: u64,
    pub superseded: u64,
    pub orphaned: u64,
}

/// The result line of restoring dropped satellites, bounded to one drop job when `only_job` names one.
pub open spec fn restore_summary_text(dry_run: bool, only_job: Option<i64>, r: SatelliteRestore) -> Seq<char> {
    "restore-dropped-satellites "@
        + (if dry_run {
        "DRY"@
    } else {
        "WET"@
    })
        + " (issue 321"@
        + ((match only_job { Some(j) => ", bounded to drop job "@ + dec_int(j as int), None => Seq::<char>::empty() }))
        + "): "@
        + dec((r.outstanding) as nat)
        + " outstanding pre-image(s), "@
        + (dec((if dry_run { r.would_restore } else { r.restored }) as nat))
        + " "@
        + (if dry_run {
        "would be restored"@
    } else {
        "restored"@
    })
        + "; "@
        + dec((r.occupied) as nat)
        + " left alone because something has since written that (org, lang), "@
        + dec((r.superseded) as nat)
        + " superseded by a newer drop on the same slot, "@
        + dec((r.orphaned) as nat)
        + " whose org no longer exists. A restore never clobbers newer truth and never lets one unrestorable row take the rest of the pass with it."@
}

/// The result line of restoring dropped satellites, bounded to one drop job when `only_job` names one.
pub fn restore_summary(dry_run: bool, only_job: Option<i64>, r: &SatelliteRestore) -> (s: String)
    ensures
        s@ == restore_summary_text(dry_run, only_job, *r),
{
    let mut s = String::new();
    s.append("restore-dropped-satellites ");
    if dry_run {
        s.append("DRY");
    } else {
        s.append("WET");
    }
    s.append(" (issue 321");
    match only_job { Some(j) => { s.append(", bounded to drop job "); push_i64(&mut s, j); }, None => {}, }
    s.append("): ");
    push_u64(&mut s, r.outstanding);
    s.append(" outstanding pre-image(s), ");
    push_u64(&mut s, if dry_run { r.would_restore } else { r.restored });
    s.append(" ");
    if dry_run {
        s.append("would be restored");
    } else {
        s.append("restored");
    }
    s.append("; ");
    push_u64(&mut s, r.occupied);
    s.append(" left alone because something has since written that (org, lang), ");
    push_u64(&mut s, r.superseded);
    s.append(" superseded by a newer drop on the same slot, ");
    push_u64(&mut s, r.orphaned);
    s.append(" whose org no longer exists. A restore never clobbers newer truth and never lets one unrestorable row take the rest of the pass with it.");
    s
}

/// What the cross-border review packet reports.
pub struct XbPacket {
    pub cohort: u64,
    pub cases: u64,
    pub truncated: bool,
}

/// The result line of the cross-border review packet.
pub open spec fn xb_summary_text(r: XbPacket) -> Seq<char> {
    "xb-packet (issues 311+314): "@
        + dec((r.cohort) as nat)
        + " same-name cross-border component(s) in the cohort, "@
        + dec((r.cases) as nat)
        + " carried in this packet"@
        + (if r.truncated {
        " (CAPPED)"@
    } else {
        Seq::<char>::empty()
    })
        + ". Each case lists every member's row, its language-labelled variants, its mention count and a few publication ids — the mention SPREAD is the first read: one heavy row beside a light one is a stray duplicate, two heavy rows are more likely two real registrations. ANCHOR KEY (issue 314): read country_agrees only WITH country_probed. probed+agrees = the arithmetic works where the row says it is; probed+disagrees = tested under the row's own register and refused, which is the contaminated country signal; NOT probed = no scheme of that country has this value's shape, so the silence carries no information."@
}

/// The result line of the cross-border review packet.
pub fn xb_summary(r: &XbPacket) -> (s: String)
    ensures
        s@ == xb_summary_text(*r),
{
    let mut s = String::new();
    s.append("xb-packet (issues 311+314): ");
    push_u64(&mut s, r.cohort);
    s.append(" same-name cross-border component(s) in the cohort, ");
    push_u64(&mut s, r.cases);
    s.append(" carried in this packet");
    if r.truncated {
        s.append(" (CAPPED)");
    }
    s.append(". Each case lists every member's row, its language-labelled variants, its mention count and a few publication ids — the mention SPREAD is the first read: one heavy row beside a light one is a stray duplicate, two heavy rows are more likely two real registrations. ANCHOR KEY (issue 314): read country_agrees only WITH country_probed. probed+agrees = the arithmetic works where the row says it is; probed+disagrees = tested under the row's own register and refused, which is the contaminated country signal; NOT probed = no scheme of that country has this value's shape, so the silence carries no information.");
    s
}

/// What the country-cluster census reports, with the heaviest code's mention shares ascending.
pub struct CountryCluster {
    pub rows_walked: u64,
    pub identifiers: u64,
    pub countries: u64,
    pub clusters: u64,
    pub with_one_letter_pair: u64,
    pub with_heavy_one_letter: u64,
    pub footprint: u64,
    pub too_short: u64,
    pub verdicts: Vec<(String, u64)>,
    pub majority_share: Vec<u8>,
}

/// The result line of the country-cluster census; `min_identifier` is the shortest identifier it clusters.
pub open spec fn cluster_summary_text(r: CountryCluster, min_identifier: u64) -> Seq<char> {
    "country-cluster-census (issue 326 re-cut): "@
        + dec((r.rows_walked) as nat)
        + " rows walked, "@
        + dec((r.identifiers) as nat)
        + " distinct identifiers under "@
        + dec((r.countries) as nat)
        + " country codes. "@
        + dec((r.clusters) as nat)
        + " identifiers stand under MORE THAN ONE code; "@
        + dec((r.with_one_letter_pair) as nat)
        + " have some two codes one letter apart, and "@
        + dec((r.with_heavy_one_letter) as nat)
        + " have the HEAVIEST code one letter from another (the sharper filter — spray one letter from spray says nothing). "@
        + dec((r.footprint) as nat)
        + " cluster(s) are an operational footprint (embassy or development agency: one entity, one register number, filed from everywhere it operates) and are excluded, never corrected. "@
        + dec((r.too_short) as nat)
        + " identifier(s) are under "@
        + dec((min_identifier) as nat)
        + " characters. Verdicts: "@
        + (kv_text(kvs_v(r.verdicts@)))
        + ". Heaviest code's mention share p25/p50/p75/p90 = "@
        + (dec(percentile_spec(r.majority_share@, 25, 0u8) as nat))
        + "/"@
        + (dec(percentile_spec(r.majority_share@, 50, 0u8) as nat))
        + "/"@
        + (dec(percentile_spec(r.majority_share@, 75, 0u8) as nat))
        + "/"@
        + (dec(percentile_spec(r.majority_share@, 90, 0u8) as nat))
        + "%."@
}

/// The result line of the country-cluster census; `min_identifier` is the shortest identifier it clusters.
pub fn cluster_summary(r: &CountryCluster, min_identifier: u64) -> (s: String)
    requires
        r.majority_share@.len() * 100 <= usize::MAX,
    ensures
        s@ == cluster_summary_text(*r, min_identifier),
{
    let mut s = String::new();
    s.append("country-cluster-census (issue 326 re-cut): ");
    push_u64(&mut s, r.rows_walked);
    s.append(" rows walked, ");
    push_u64(&mut s, r.identifiers);
    s.append(" distinct identifiers under ");
    push_u64(&mut s, r.countries);
    s.append(" country codes. ");
    push_u64(&mut s, r.clusters);
    s.append(" identifiers stand under MORE THAN ONE code; ");
    push_u64(&mut s, r.with_one_letter_pair);
    s.append(" have some two codes one letter apart, and ");
    push_u64(&mut s, r.with_heavy_one_letter);
    s.append(" have the HEAVIEST code one letter from another (the sharper filter — spray one letter from spray says nothing). ");
    push_u64(&mut s, r.footprint);
    s.append(" cluster(s) are an operational footprint (embassy or development agency: one entity, one register number, filed from everywhere it operates) and are excluded, never corrected. ");
    push_u64(&mut s, r.too_short);
    s.append(" identifier(s) are under ");
    push_u64(&mut s, min_identifier);
    s.append(" characters. Verdicts: ");
    push_kv(&mut s, &r.verdicts);
    s.append(". Heaviest code's mention share p25/p50/p75/p90 = ");
    push_u64(&mut s, percentile(&r.majority_share, 25, 0u8) as u64);
    s.append("/");
    push_u64(&mut s, percentile(&r.majority_share, 50, 0u8) as u64);
    s.append("/");
    push_u64(&mut s, percentile(&r.majority_share, 75, 0u8) as u64);
    s.append("/");
    push_u64(&mut s, percentile(&r.majority_share, 90, 0u8) as u64);
    s.append("%.");
    s
}

/// What the name-attribution probe reports.
pub struct NameAttribution {
    pub keys_walked: u64,
    pub keys_examined: u64,
    pub sampled: u64,
    pub agrees: u64,
    pub differs: u64,
    pub silent: u64,
    pub published_keys: u64,
    pub replaced_keys: u64,
    pub mixed_keys: u64,
    pub no_evidence_keys: u64,
}

/// The result line of the name-attribution probe, which samples up to `ATTRIBUTION_PER_KEY` carriers of each key.
pub open spec fn attribution_summary_text(r: NameAttribution) -> Seq<char> {
    "name-attribution-probe (issue 334): walked "@
        + dec((r.keys_walked) as nat)
        + " name key(s) to find the "@
        + dec((r.keys_examined) as nat)
        + " WIDEST over the cap of "@
        + dec((SCAN_STOPLIST_CAP) as nat)
        + ", then sampled up to "@
        + dec((ATTRIBUTION_PER_KEY) as nat)
        + " carriers of each and asked their own notices. THIS IS A PROBE OVER THOSE KEYS, NOT A CORPUS TALLY — every number here is about that set. "@
        + dec((r.sampled) as nat)
        + " carrier(s) sampled: "@
        + dec((r.agrees) as nat)
        + " agree with at least one of their own mentions, "@
        + dec((r.differs) as nat)
        + " have every mention naming something ELSE, "@
        + dec((r.silent) as nat)
        + " have no mentions at all. Per key: "@
        + dec((r.published_keys) as nat)
        + " published (stored name is what the notices said — no parser change would have prevented it), "@
        + dec((r.replaced_keys) as nat)
        + " replaced (no sampled carrier's notices agree, so the name was put there downstream, which would be ours), "@
        + dec((r.mixed_keys) as nat)
        + " mixed, "@
        + dec((r.no_evidence_keys) as nat)
        + " with no evidence. Read the `examples` in the report before concluding anything: the counts say how big, only the values say what happened. NOTHING IS WRITTEN."@
}

/// The result line of the name-attribution probe, which samples up to `ATTRIBUTION_PER_KEY` carriers of each key.
pub fn attribution_summary(r: &NameAttribution) -> (s: String)
    ensures
        s@ == attribution_summary_text(*r),
{
    let mut s = String::new();
    s.append("name-attribution-probe (issue 334): walked ");
    push_u64(&mut s, r.keys_walked);
    s.append(" name key(s) to find the ");
    push_u64(&mut s, r.keys_examined);
    s.append(" WIDEST over the cap of ");
    push_u64(&mut s, SCAN_STOPLIST_CAP);
    s.append(", then sampled up to ");
    push_u64(&mut s, ATTRIBUTION_PER_KEY);
    s.append(" carriers of each and asked their own notices. THIS IS A PROBE OVER THOSE KEYS, NOT A CORPUS TALLY — every number here is about that set. ");
    push_u64(&mut s, r.sampled);
    s.append(" carrier(s) sampled: ");
    push_u64(&mut s, r.agrees);
    s.append(" agree with at least one of their own mentions, ");
    push_u64(&mut s, r.differs);
    s.append(" have every mention naming something ELSE, ");
    push_u64(&mut s, r.silent);
    s.append(" have no mentions at all. Per key: ");
    push_u64(&mut s, r.published_keys);
    s.append(" published (stored name is what the notices said — no parser change would have prevented it), ");
    push_u64(&mut s, r.replaced_keys);
    s.append(" replaced (no sampled carrier's notices agree, so the name was put there downstream, which would be ours), ");
    push_u64(&mut s, r.mixed_keys);
    s.append(" mixed, ");
    push_u64(&mut s, r.no_evidence_keys);
    s.append(" with no evidence. Read the `examples` in the report before concluding anything: the counts say how big, only the values say what happened. NOTHING IS WRITTEN.");
    s
}

/// What the genericness-statistic census reports, with the identity ratios ascending.
pub struct GenericStatistic {
    pub keys_walked: u64,
    pub keys_over_cap: u64,
    pub over_cap_carriers: u64,
    pub single_identity: u64,
    pub mostly_fragmented: u64,
    pub mostly_distinct: u64,
    pub no_identifiers: u64,
    pub too_little_evidence: u64,
    pub identity_ratio: Vec<u8>,
}

/// The result line of the genericness-statistic census.
pub open spec fn statistic_summary_text(r: GenericStatistic) -> Seq<char> {
    "generic-statistic-census (issue 332): "@
        + dec((r.keys_walked) as nat)
        + " name key(s) walked across n2 and n3; "@
        + dec((r.keys_over_cap) as nat)
        + " are over the stoplist cap of "@
        + dec((SCAN_STOPLIST_CAP) as nat)
        + ", covering "@
        + dec((r.over_cap_carriers) as nat)
        + " carrier rows. Cut by how many DISTINCT (country, kind, identifier) triples those carriers hold: "@
        + dec((r.single_identity) as nat)
        + " hold exactly ONE (a single identity fragmented — the wall refusing a name nobody else uses), "@
        + dec((r.mostly_fragmented) as nat)
        + " are mostly-fragmented (distinct identities at most half the identifier-bearing carriers), "@
        + dec((r.mostly_distinct) as nat)
        + " are mostly-distinct (a genuinely shared name, the wall working as designed), and "@
        + dec((r.no_identifiers) as nat)
        + " have no identifier-bearing carrier at all, and "@
        + dec((r.too_little_evidence) as nat)
        + " have exactly ONE (which makes `distinct == 1` arithmetically true and evidentially empty) — neither can be decided this way. Identity ratio p10/p25/p50/p75/p90 = "@
        + (dec(percentile_spec(r.identity_ratio@, 10, 0u8) as nat))
        + "/"@
        + (dec(percentile_spec(r.identity_ratio@, 25, 0u8) as nat))
        + "/"@
        + (dec(percentile_spec(r.identity_ratio@, 50, 0u8) as nat))
        + "/"@
        + (dec(percentile_spec(r.identity_ratio@, 75, 0u8) as nat))
        + "/"@
        + (dec(percentile_spec(r.identity_ratio@, 90, 0u8) as nat))
        + "%. THE QUESTION IS WHETHER THAT IS BIMODAL: two populations that separate would justify a better statistic, one smear means the carrier count is fine and issue 332 closes on a negative. NOTHING IS WRITTEN."@
}

/// The result line of the genericness-statistic census.
pub fn statistic_summary(r: &GenericStatistic) -> (s: String)
    requires
        r.identity_ratio@.len() * 100 <= usize::MAX,
    ensures
        s@ == statistic_summary_text(*r),
{
    let mut s = String::new();
    s.append("generic-statistic-census (issue 332): ");
    push_u64(&mut s, r.keys_walked);
    s.append(" name key(s) walked across n2 and n3; ");
    push_u64(&mut s, r.keys_over_cap);
    s.append(" are over the stoplist cap of ");
    push_u64(&mut s, SCAN_STOPLIST_CAP);
    s.append(", covering ");
    push_u64(&mut s, r.over_cap_carriers);
    s.append(" carrier rows. Cut by how many DISTINCT (country, kind, identifier) triples those carriers hold: ");
    push_u64(&mut s, r.single_identity);
    s.append(" hold exactly ONE (a single identity fragmented — the wall refusing a name nobody else uses), ");
    push_u64(&mut s, r.mostly_fragmented);
    s.append(" are mostly-fragmented (distinct identities at most half the identifier-bearing carriers), ");
    push_u64(&mut s, r.mostly_distinct);
    s.append(" are mostly-distinct (a genuinely shared name, the wall working as designed), and ");
    push_u64(&mut s, r.no_identifiers);
    s.append(" have no identifier-bearing carrier at all, and ");
    push_u64(&mut s, r.too_little_evidence);
    s.append(" have exactly ONE (which makes `distinct == 1` arithmetically true and evidentially empty) — neither can be decided this way. Identity ratio p10/p25/p50/p75/p90 = ");
    push_u64(&mut s, percentile(&r.identity_ratio, 10, 0u8) as u64);
    s.append("/");
    push_u64(&mut s, percentile(&r.identity_ratio, 25, 0u8) as u64);
    s.append("/");
    push_u64(&mut s, percentile(&r.identity_ratio, 50, 0u8) as u64);
    s.append("/");
    push_u64(&mut s, percentile(&r.identity_ratio, 75, 0u8) as u64);
    s.append("/");
    push_u64(&mut s, percentile(&r.identity_ratio, 90, 0u8) as u64);
    s.append("%. THE QUESTION IS WHETHER THAT IS BIMODAL: two populations that separate would justify a better statistic, one smear means the carrier count is fine and issue 332 closes on a negative. NOTHING IS WRITTEN.");
    s
}

/// What the generic-wall inflation census reports.
pub struct GenericWall {
    pub duplicate_groups: u64,
    pub duplicate_rows: u64,
    pub keys_with_savings: u64,
    pub keys_over_cap: u64,
    pub keys_falsely_generic: u64,
    pub orgs_affected: u64,
    pub nearest_miss: u64,
}

/// The result line of the generic-wall inflation census.
pub open spec fn wall_census_summary_text(r: GenericWall) -> Seq<char> {
    "generic-wall-census (issue 331): "@
        + dec((r.duplicate_groups) as nat)
        + " duplicate identity group(s) covering "@
        + dec((r.duplicate_rows) as nat)
        + " org rows. "@
        + dec((r.keys_with_savings) as nat)
        + " name key(s) are carried more than once inside some group, so their carrier count is inflated at all; "@
        + dec((r.keys_over_cap) as nat)
        + " of those are over the stoplist cap of "@
        + dec((SCAN_STOPLIST_CAP) as nat)
        + " today. FALSELY GENERIC — over the cap now, at or under it once duplicates collapse: "@
        + dec((r.keys_falsely_generic) as nat)
        + ". Upper bound on orgs behind them: "@
        + dec((r.orgs_affected) as nat)
        + ". Nearest miss among keys that stay generic: "@
        + dec((r.nearest_miss) as nat)
        + " collapsed carriers against a cap of "@
        + dec((SCAN_STOPLIST_CAP) as nat)
        + ". A zero here means the mechanism is real and INERT, which is a complete answer and the same shape issue 327 settled on. NOTHING IS WRITTEN. Conservative by construction: duplication is proved by a shared (country, kind, identifier) triple, so fragmentation among rows with no identifier is counted as genuine commonality and never inflates this."@
}

/// The result line of the generic-wall inflation census.
pub fn wall_census_summary(r: &GenericWall) -> (s: String)
    ensures
        s@ == wall_census_summary_text(*r),
{
    let mut s = String::new();
    s.append("generic-wall-census (issue 331): ");
    push_u64(&mut s, r.duplicate_groups);
    s.append(" duplicate identity group(s) covering ");
    push_u64(&mut s, r.duplicate_rows);
    s.append(" org rows. ");
    push_u64(&mut s, r.keys_with_savings);
    s.append(" name key(s) are carried more than once inside some group, so their carrier count is inflated at all; ");
    push_u64(&mut s, r.keys_over_cap);
    s.append(" of those are over the stoplist cap of ");
    push_u64(&mut s, SCAN_STOPLIST_CAP);
    s.append(" today. FALSELY GENERIC — over the cap now, at or under it once duplicates collapse: ");
    push_u64(&mut s, r.keys_falsely_generic);
    s.append(". Upper bound on orgs behind them: ");
    push_u64(&mut s, r.orgs_affected);
    s.append(". Nearest miss among keys that stay generic: ");
    push_u64(&mut s, r.nearest_miss);
    s.append(" collapsed carriers against a cap of ");
    push_u64(&mut s, SCAN_STOPLIST_CAP);
    s.append(". A zero here means the mechanism is real and INERT, which is a complete answer and the same shape issue 327 settled on. NOTHING IS WRITTEN. Conservative by construction: duplication is proved by a shared (country, kind, identifier) triple, so fragmentation among rows with no identifier is counted as genuine commonality and never inflates this.");
    s
}

/// What the name-pollution census reports, with the name lengths ascending.
pub struct NamePollution {
    pub rows_walked: u64,
    pub polluted: u64,
    pub polluted_mentions: u64,
    pub published: u64,
    pub derived_only: u64,
    pub no_mentions: u64,
    pub by_country: Vec<(String, u64)>,
    pub name_lengths: Vec<u32>,
}

/// The result line of the name-pollution census.
pub open spec fn pollution_summary_text(r: NamePollution) -> Seq<char> {
    "name-pollution-census (issue 330): "@
        + dec((r.rows_walked) as nat)
        + " organization name(s) walked, "@
        + dec((r.polluted) as nat)
        + " carry a LINE BREAK, attached to "@
        + dec((r.polluted_mentions) as nat)
        + " mention(s). Of those, "@
        + dec((r.published) as nat)
        + " were PUBLISHED that way (at least one mention carries the break too — no parser change would have prevented it), "@
        + dec((r.derived_only) as nat)
        + " are derived-only (every mention clean, so the break was introduced downstream of the notice, which would be ours), and "@
        + dec((r.no_mentions) as nat)
        + " have no mentions to compare. By country: "@
        + (kv_text(kvs_v(r.by_country@)))
        + ". Name length p50/p90/p99/max = "@
        + (dec(percentile_spec(r.name_lengths@, 50, 0u32) as nat))
        + "/"@
        + (dec(percentile_spec(r.name_lengths@, 90, 0u32) as nat))
        + "/"@
        + (dec(percentile_spec(r.name_lengths@, 99, 0u32) as nat))
        + "/"@
        + (dec(percentile_spec(r.name_lengths@, 100, 0u32) as nat))
        + " characters. NOTHING IS WRITTEN: the split between published and derived-only is what decides whether this is a parser fix or a normalisation policy."@
}

/// The result line of the name-pollution census.
pub fn pollution_summary(r: &NamePollution) -> (s: String)
    requires
        r.name_lengths@.len() * 100 <= usize::MAX,
    ensures
        s@ == pollution_summary_text(*r),
{
    let mut s = String::new();
    s.append("name-pollution-census (issue 330): ");
    push_u64(&mut s, r.rows_walked);
    s.append(" organization name(s) walked, ");
    push_u64(&mut s, r.polluted);
    s.append(" carry a LINE BREAK, attached to ");
    push_u64(&mut s, r.polluted_mentions);
    s.append(" mention(s). Of those, ");
    push_u64(&mut s, r.published);
    s.append(" were PUBLISHED that way (at least one mention carries the break too — no parser change would have prevented it), ");
    push_u64(&mut s, r.derived_only);
    s.append(" are derived-only (every mention clean, so the break was introduced downstream of the notice, which would be ours), and ");
    push_u64(&mut s, r.no_mentions);
    s.append(" have no mentions to compare. By country: ");
    push_kv(&mut s, &r.by_country);
    s.append(". Name length p50/p90/p99/max = ");
    push_u64(&mut s, percentile(&r.name_lengths, 50, 0u32) as u64);
    s.append("/");
    push_u64(&mut s, percentile(&r.name_lengths, 90, 0u32) as u64);
    s.append("/");
    push_u64(&mut s, percentile(&r.name_lengths, 99, 0u32) as u64);
    s.append("/");
    push_u64(&mut s, percentile(&r.name_lengths, 100, 0u32) as u64);
    s.append(" characters. NOTHING IS WRITTEN: the split between published and derived-only is what decides whether this is a parser fix or a normalisation policy.");
    s
}

/// What the duplicate-identity census reports: counts by scope and name verdicts, overall and by scope.
pub struct DuplicateIdentity {
    pub rows_walked: u64,
    pub triples: u64,
    pub duplicate_groups: u64,
    pub duplicate_rows: u64,
    pub keyed_groups: u64,
    pub unkeyed_groups: u64,
    pub unkeyed_by_scope: Vec<(String, u64)>,
    pub verdicts: Vec<(String, u64)>,
    pub verdicts_by_scope: Vec<(String, u64)>,
    pub name_keys_absent: u64,
}

/// The result line of the duplicate-identity census.
pub open spec fn identity_summary_text(r: DuplicateIdentity) -> Seq<char> {
    "duplicate-identity-census (issue 328 follow-on): "@
        + dec((r.rows_walked) as nat)
        + " rows walked, "@
        + dec((r.triples) as nat)
        + " distinct (country, kind, identifier) triples. "@
        + dec((r.duplicate_groups) as nat)
        + " triple(s) are held by MORE THAN ONE org row, covering "@
        + dec((r.duplicate_rows) as nat)
        + " rows. Of those, "@
        + dec((r.keyed_groups) as nat)
        + " are keyed by canonical_key and are already inside the merge arms' field of view; "@
        + dec((r.unkeyed_groups) as nat)
        + " are NOT keyed and no arm can reach them. Unkeyed by scope: "@
        + (kv_text(kvs_v(r.unkeyed_by_scope@)))
        + ". Name verdicts over the unkeyed groups: "@
        + (kv_text(kvs_v(r.verdicts@)))
        + " ("@
        + (dec(share_of(lookup(kvs_v(r.verdicts@), "disagree"@), r.unkeyed_groups) as nat))
        + "% disagree). DE:vat specifically — "@
        + (dec(lookup(kvs_v(r.verdicts_by_scope@), "DE:vat/agree-distinctive"@) as nat))
        + " agree-distinctive, "@
        + (dec(lookup(kvs_v(r.verdicts_by_scope@), "DE:vat/agree-generic"@) as nat))
        + " agree-generic, "@
        + (dec(lookup(kvs_v(r.verdicts_by_scope@), "DE:vat/contained"@) as nat))
        + " contained, "@
        + (dec(lookup(kvs_v(r.verdicts_by_scope@), "DE:vat/disagree"@) as nat))
        + " disagree, "@
        + (dec(lookup(kvs_v(r.verdicts_by_scope@), "DE:vat/unnamed"@) as nat))
        + " unnamed. `contained` is UNDECIDED and NOT a safe bucket: an Organschaft subsidiary and a branch office are named the same way (parent name plus a qualifier), so nothing in a name separates them. "@
        + dec((r.name_keys_absent) as nat)
        + " name key(s) were absent from org_match_keys entirely, which is the number that says whether the agree/generic split can be trusted at all. NOTHING IS WRITTEN: this is the measurement the DE cross-walk decision was waiting on, not the decision."@
}

/// The result line of the duplicate-identity census.
pub fn identity_summary(r: &DuplicateIdentity) -> (s: String)
    requires
        lookup(kvs_v(r.verdicts@), "disagree"@) * 100 <= u64::MAX,
    ensures
        s@ == identity_summary_text(*r),
{
    let mut s = String::new();
    s.append("duplicate-identity-census (issue 328 follow-on): ");
    push_u64(&mut s, r.rows_walked);
    s.append(" rows walked, ");
    push_u64(&mut s, r.triples);
    s.append(" distinct (country, kind, identifier) triples. ");
    push_u64(&mut s, r.duplicate_groups);
    s.append(" triple(s) are held by MORE THAN ONE org row, covering ");
    push_u64(&mut s, r.duplicate_rows);
    s.append(" rows. Of those, ");
    push_u64(&mut s, r.keyed_groups);
    s.append(" are keyed by canonical_key and are already inside the merge arms' field of view; ");
    push_u64(&mut s, r.unkeyed_groups);
    s.append(" are NOT keyed and no arm can reach them. Unkeyed by scope: ");
    push_kv(&mut s, &r.unkeyed_by_scope);
    s.append(". Name verdicts over the unkeyed groups: ");
    push_kv(&mut s, &r.verdicts);
    s.append(" (");
    push_u64(&mut s, share_pct(count_for(&r.verdicts, "disagree"), r.unkeyed_groups));
    s.append("% disagree). DE:vat specifically — ");
    push_u64(&mut s, count_for(&r.verdicts_by_scope, "DE:vat/agree-distinctive"));
    s.append(" agree-distinctive, ");
    push_u64(&mut s, count_for(&r.verdicts_by_scope, "DE:vat/agree-generic"));
    s.append(" agree-generic, ");
    push_u64(&mut s, count_for(&r.verdicts_by_scope, "DE:vat/contained"));
    s.append(" contained, ");
    push_u64(&mut s, count_for(&r.verdicts_by_scope, "DE:vat/disagree"));
    s.append(" disagree, ");
    push_u64(&mut s, count_for(&r.verdicts_by_scope, "DE:vat/unnamed"));
    s.append(" unnamed. `contained` is UNDECIDED and NOT a safe bucket: an Organschaft subsidiary and a branch office are named the same way (parent name plus a qualifier), so nothing in a name separates them. ");
    push_u64(&mut s, r.name_keys_absent);
    s.append(" name key(s) were absent from org_match_keys entirely, which is the number that says whether the agree/generic split can be trusted at all. NOTHING IS WRITTEN: this is the measurement the DE cross-walk decision was waiting on, not the decision.");
    s
}

/// What the country-typo census reports.
pub struct CountryTypoCensus {
    pub countries: u64,
    pub pairs_considered: u64,
    pub rows_walked: u64,
    pub hits: u64,
    pub decided: u64,
    pub neither_probed: u64,
    pub listed: u64,
    pub truncated: bool,
}

/// The result line of the country-typo census: of the hits the checksum does not decide, none can be repaired by arithmetic.
pub open spec fn typo_census_summary_text(r: CountryTypoCensus) -> Seq<char> {
    "country-typo-census (issue 326): "@
        + dec((r.countries) as nat)
        + " country code(s) hold identifier-bearing rows, "@
        + dec((r.pairs_considered) as nat)
        + " pairing(s) are exactly one letter apart with both sides present, "@
        + dec((r.rows_walked) as nat)
        + " row(s) walked on the rarer sides. HITS: "@
        + dec((r.hits) as nat)
        + " pair(s) carry the SAME identifier across a one-letter country pair. Of those the checksum names a survivor for "@
        + dec((r.decided) as nat)
        + ", and for "@
        + dec((r.neither_probed) as nat)
        + " it never asked about EITHER country — so "@
        + (dec((if r.hits >= r.decided { r.hits - r.decided } else { 0 }) as nat))
        + " of "@
        + dec((r.hits) as nat)
        + " need a discriminator the arithmetic cannot give, and a repair must abstain there rather than guess. "@
        + dec((r.listed) as nat)
        + " row(s) carried in the report"@
        + (if r.truncated {
        " (CAPPED)"@
    } else {
        Seq::<char>::empty()
    })
        + ". Read-only: nothing was merged, folded or written."@
}

/// The result line of the country-typo census: of the hits the checksum does not decide, none can be repaired by arithmetic.
pub fn typo_census_summary(r: &CountryTypoCensus) -> (s: String)
    ensures
        s@ == typo_census_summary_text(*r),
{
    let mut s = String::new();
    s.append("country-typo-census (issue 326): ");
    push_u64(&mut s, r.countries);
    s.append(" country code(s) hold identifier-bearing rows, ");
    push_u64(&mut s, r.pairs_considered);
    s.append(" pairing(s) are exactly one letter apart with both sides present, ");
    push_u64(&mut s, r.rows_walked);
    s.append(" row(s) walked on the rarer sides. HITS: ");
    push_u64(&mut s, r.hits);
    s.append(" pair(s) carry the SAME identifier across a one-letter country pair. Of those the checksum names a survivor for ");
    push_u64(&mut s, r.decided);
    s.append(", and for ");
    push_u64(&mut s, r.neither_probed);
    s.append(" it never asked about EITHER country — so ");
    push_u64(&mut s, r.hits.saturating_sub(r.decided));
    s.append(" of ");
    push_u64(&mut s, r.hits);
    s.append(" need a discriminator the arithmetic cannot give, and a repair must abstain there rather than guess. ");
    push_u64(&mut s, r.listed);
    s.append(" row(s) carried in the report");
    if r.truncated {
        s.append(" (CAPPED)");
    }
    s.append(". Read-only: nothing was merged, folded or written.");
    s
}

/// What the anchor-wall census reports, with its schemes widest first.
pub struct AnchorWall {
    pub keys_walked: u64,
    pub generic_keys: u64,
    pub generic_orgs: u64,
    pub probed: u64,
    pub anchored: u64,
    pub anchored_hard: u64,
    pub anchored_soft: u64,
    pub soft_slots: u64,
    pub by_scheme: Vec<(String, u64)>,
}

/// The result line of the anchor-wall census.
pub open spec fn anchor_wall_summary_text(r: AnchorWall) -> Seq<char> {
    "anchor-wall-census (issue 318): "@
        + dec((r.keys_walked) as nat)
        + " n2 key group(s) walked, "@
        + dec((r.generic_keys) as nat)
        + " over the stoplist cap, holding "@
        + dec((r.generic_orgs) as nat)
        + " carrier slot(s) of which "@
        + dec((r.probed) as nat)
        + " were probed. DISTINCT orgs anchoring to exactly one scheme: "@
        + dec((r.anchored) as nat)
        + " — "@
        + dec((r.anchored_hard) as nat)
        + " HARD (both paths agree, the design's exemption) and "@
        + dec((r.anchored_soft) as nat)
        + " SOFT. That "@
        + dec((r.anchored_soft) as nat)
        + " is the STANDING SURFACE where the resolver would bind and the batch arm would refuse: distinct rows reachable ("@
        + dec((r.soft_slots) as nat)
        + " (org, generic-name) slots), not binds observed."@
        + (widest_text(kvs_v(r.by_scheme@)))
}

/// The result line of the anchor-wall census.
pub fn anchor_wall_summary(r: &AnchorWall) -> (s: String)
    ensures
        s@ == anchor_wall_summary_text(*r),
{
    let mut s = String::new();
    s.append("anchor-wall-census (issue 318): ");
    push_u64(&mut s, r.keys_walked);
    s.append(" n2 key group(s) walked, ");
    push_u64(&mut s, r.generic_keys);
    s.append(" over the stoplist cap, holding ");
    push_u64(&mut s, r.generic_orgs);
    s.append(" carrier slot(s) of which ");
    push_u64(&mut s, r.probed);
    s.append(" were probed. DISTINCT orgs anchoring to exactly one scheme: ");
    push_u64(&mut s, r.anchored);
    s.append(" — ");
    push_u64(&mut s, r.anchored_hard);
    s.append(" HARD (both paths agree, the design's exemption) and ");
    push_u64(&mut s, r.anchored_soft);
    s.append(" SOFT. That ");
    push_u64(&mut s, r.anchored_soft);
    s.append(" is the STANDING SURFACE where the resolver would bind and the batch arm would refuse: distinct rows reachable (");
    push_u64(&mut s, r.soft_slots);
    s.append(" (org, generic-name) slots), not binds observed.");
    push_widest(&mut s, &r.by_scheme);
    s
}

/// What the satellite-orphans census reports.
pub struct SatelliteOrphans {
    pub origins: u64,
    pub standing: u64,
    pub variants: u64,
    pub orphans: u64,
    pub orphans_at_target: u64,
    pub origins_with_orphans: u64,
    pub truncated: bool,
}

/// The result line of the satellite-orphans census.
pub open spec fn orphans_summary_text(r: SatelliteOrphans) -> Seq<char> {
    "satellite-orphans (issue 321): "@
        + dec((r.origins) as nat)
        + " re-homing origins, "@
        + dec((r.standing) as nat)
        + " still standing, holding "@
        + dec((r.variants) as nat)
        + " name variants; "@
        + dec((r.orphans) as nat)
        + " are supported by NO remaining mention ("@
        + dec((r.orphans_at_target) as nat)
        + " of those already stand on a row this origin re-homed to), over "@
        + dec((r.origins_with_orphans) as nat)
        + " origins"@
        + (if r.truncated {
        "; LIST TRUNCATED at the cap"@
    } else {
        Seq::<char>::empty()
    })
}

/// The result line of the satellite-orphans census.
pub fn orphans_summary(r: &SatelliteOrphans) -> (s: String)
    ensures
        s@ == orphans_summary_text(*r),
{
    let mut s = String::new();
    s.append("satellite-orphans (issue 321): ");
    push_u64(&mut s, r.origins);
    s.append(" re-homing origins, ");
    push_u64(&mut s, r.standing);
    s.append(" still standing, holding ");
    push_u64(&mut s, r.variants);
    s.append(" name variants; ");
    push_u64(&mut s, r.orphans);
    s.append(" are supported by NO remaining mention (");
    push_u64(&mut s, r.orphans_at_target);
    s.append(" of those already stand on a row this origin re-homed to), over ");
    push_u64(&mut s, r.origins_with_orphans);
    s.append(" origins");
    if r.truncated {
        s.append("; LIST TRUNCATED at the cap");
    }
    s
}

/// What the case-review backlog reports: the peer-row count of each medium-band case listed.
pub struct CaseBacklog {
    pub total: u64,
    pub applied: u64,
    pub unapplied: u64,
    pub escalations: u64,
    pub medium_peer_rows: Vec<u64>,
    pub truncated: bool,
}

/// The result line of the case-review backlog: a medium-band case counts as corroborated when a peer row carries its identifier.
pub open spec fn backlog_summary_text(r: CaseBacklog) -> Seq<char> {
    "case-review-backlog (issue 317): "@
        + dec((r.total) as nat)
        + " verdicts, "@
        + dec((r.applied) as nat)
        + " applied, "@
        + dec((r.unapplied) as nat)
        + " parked; "@
        + dec((r.escalations) as nat)
        + " escalations and "@
        + (dec(r.medium_peer_rows@.len()))
        + " medium-band cases listed ("@
        + (dec(positives(r.medium_peer_rows@)))
        + " of the mediums have a peer row carrying the same identifier)"@
        + (if r.truncated {
        "; LIST TRUNCATED at the cap"@
    } else {
        Seq::<char>::empty()
    })
}

/// The result line of the case-review backlog: a medium-band case counts as corroborated when a peer row carries its identifier.
pub fn backlog_summary(r: &CaseBacklog) -> (s: String)
    ensures
        s@ == backlog_summary_text(*r),
{
    let mut s = String::new();
    s.append("case-review-backlog (issue 317): ");
    push_u64(&mut s, r.total);
    s.append(" verdicts, ");
    push_u64(&mut s, r.applied);
    s.append(" applied, ");
    push_u64(&mut s, r.unapplied);
    s.append(" parked; ");
    push_u64(&mut s, r.escalations);
    s.append(" escalations and ");
    push_u64(&mut s, r.medium_peer_rows.len() as u64);
    s.append(" medium-band cases listed (");
    push_u64(&mut s, count_positive(&r.medium_peer_rows));
    s.append(" of the mediums have a peer row carrying the same identifier)");
    if r.truncated {
        s.append("; LIST TRUNCATED at the cap");
    }
    s
}

/// What the org-edge census reports.
pub struct OrgEdgeCensus {
    pub edges: u64,
    pub e3_name: u64,
    pub e3_xlang: u64,
    pub orgs_touched: u64,
    pub dangling_orgs: u64,
    pub components: u64,
    pub max_component: u64,
    pub canonical_only_components: u64,
    pub mixed_components: u64,
    pub provisional_only_components: u64,
    pub multi_country_components: u64,
    pub null_country_components: u64,
    pub canonical_cross_border_components: u64,
}

/// The result line of the org-edge census.
pub open spec fn edge_census_summary_text(r: OrgEdgeCensus) -> Seq<char> {
    "org-edge-census (issue 314): "@
        + dec((r.edges) as nat)
        + " edges ("@
        + dec((r.e3_name) as nat)
        + " e3-name + "@
        + dec((r.e3_xlang) as nat)
        + " e3-xlang) over "@
        + dec((r.orgs_touched) as nat)
        + " orgs ("@
        + dec((r.dangling_orgs) as nat)
        + " dangling); "@
        + dec((r.components) as nat)
        + " components, max "@
        + dec((r.max_component) as nat)
        + "; "@
        + dec((r.canonical_only_components) as nat)
        + " canonical-only, "@
        + dec((r.mixed_components) as nat)
        + " mixed, "@
        + dec((r.provisional_only_components) as nat)
        + " provisional-only; "@
        + dec((r.multi_country_components) as nat)
        + " span >1 KNOWN country, "@
        + dec((r.null_country_components) as nat)
        + " hold a country-less member; COHORT (canonical-only AND cross-border): "@
        + dec((r.canonical_cross_border_components) as nat)
}

/// The result line of the org-edge census.
pub fn edge_census_summary(r: &OrgEdgeCensus) -> (s: String)
    ensures
        s@ == edge_census_summary_text(*r),
{
    let mut s = String::new();
    s.append("org-edge-census (issue 314): ");
    push_u64(&mut s, r.edges);
    s.append(" edges (");
    push_u64(&mut s, r.e3_name);
    s.append(" e3-name + ");
    push_u64(&mut s, r.e3_xlang);
    s.append(" e3-xlang) over ");
    push_u64(&mut s, r.orgs_touched);
    s.append(" orgs (");
    push_u64(&mut s, r.dangling_orgs);
    s.append(" dangling); ");
    push_u64(&mut s, r.components);
    s.append(" components, max ");
    push_u64(&mut s, r.max_component);
    s.append("; ");
    push_u64(&mut s, r.canonical_only_components);
    s.append(" canonical-only, ");
    push_u64(&mut s, r.mixed_components);
    s.append(" mixed, ");
    push_u64(&mut s, r.provisional_only_components);
    s.append(" provisional-only; ");
    push_u64(&mut s, r.multi_country_components);
    s.append(" span >1 KNOWN country, ");
    push_u64(&mut s, r.null_country_components);
    s.append(" hold a country-less member; COHORT (canonical-only AND cross-border): ");
    push_u64(&mut s, r.canonical_cross_border_components);
    s
}

/// What applying the case reviews reports.
pub struct CaseApply {
    pub pending: u64,
    pub eligible: u64,
    pub stripped: u64,
    pub noop: u64,
}

/// The result line of applying the case reviews.
pub open spec fn case_apply_summary_text(dry_run: bool, r: CaseApply) -> Seq<char> {
    "apply-case-reviews (issue 311)"@
        + (if dry_run {
        " DRY RUN — plan recorded, nothing written"@
    } else {
        Seq::<char>::empty()
    })
        + ": "@
        + dec((r.pending) as nat)
        + " pending verdicts, "@
        + dec((r.eligible) as nat)
        + " eligible (wrong-identifier + high confidence); "@
        + dec((r.stripped) as nat)
        + " identifiers stripped, "@
        + dec((r.noop) as nat)
        + " no-ops"@
}

/// The result line of applying the case reviews.
pub fn case_apply_summary(dry_run: bool, r: &CaseApply) -> (s: String)
    ensures
        s@ == case_apply_summary_text(dry_run, *r),
{
    let mut s = String::new();
    s.append("apply-case-reviews (issue 311)");
    if dry_run {
        s.append(" DRY RUN — plan recorded, nothing written");
    }
    s.append(": ");
    push_u64(&mut s, r.pending);
    s.append(" pending verdicts, ");
    push_u64(&mut s, r.eligible);
    s.append(" eligible (wrong-identifier + high confidence); ");
    push_u64(&mut s, r.stripped);
    s.append(" identifiers stripped, ");
    push_u64(&mut s, r.noop);
    s.append(" no-ops");
    s
}

/// What undoing applied case reviews reports.
pub struct CaseUnapply {
    pub applied: u64,
    pub selected: u64,
    pub restored: u64,
    pub noop: u64,
}

/// The result line of undoing applied case reviews.
pub open spec fn case_unapply_summary_text(dry_run: bool, r: CaseUnapply) -> Seq<char> {
    "unapply-case-reviews (issue 312)"@
        + (if dry_run {
        " DRY RUN — plan recorded, nothing written"@
    } else {
        Seq::<char>::empty()
    })
        + ": "@
        + dec((r.applied) as nat)
        + " applied verdicts examined, "@
        + dec((r.selected) as nat)
        + " strips with a platform-GUID pre-image; "@
        + dec((r.restored) as nat)
        + " identifiers restored, "@
        + dec((r.noop) as nat)
        + " no-ops (org gone or an identifier written since)"@
}

/// The result line of undoing applied case reviews.
pub fn case_unapply_summary(dry_run: bool, r: &CaseUnapply) -> (s: String)
    ensures
        s@ == case_unapply_summary_text(dry_run, *r),
{
    let mut s = String::new();
    s.append("unapply-case-reviews (issue 312)");
    if dry_run {
        s.append(" DRY RUN — plan recorded, nothing written");
    }
    s.append(": ");
    push_u64(&mut s, r.applied);
    s.append(" applied verdicts examined, ");
    push_u64(&mut s, r.selected);
    s.append(" strips with a platform-GUID pre-image; ");
    push_u64(&mut s, r.restored);
    s.append(" identifiers restored, ");
    push_u64(&mut s, r.noop);
    s.append(" no-ops (org gone or an identifier written since)");
    s
}


} // verus!
