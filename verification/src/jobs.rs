//! Jobs: what each one does, the admin request that asks for them, and the
//! planner that turns a request into the jobs to queue.
use vstd::prelude::*;
use crate::period::{debug_quoted, months_between, months_between_fits, months_between_spec, texts};
use crate::text::{
    bool_text, dec, dec_int, push_bool, push_i64, push_u64, str_eq, text_of,
};
use crate::period::debug_quote;

verus! {

/// What a job does.
#[derive(Debug)]
pub enum Spec {
    /// Download one package: a source, a package kind and a period.
    Fetch { source: String, package_kind: String, period: String, refetch: bool },
    /// Probe TED forward for the next daily issue.
    ProbeTed { refetch: bool },
    /// Walk DÖE daily exports forward from the last fetched day.
    ProbeDoe,
    /// Parse fetched packages of a source and kind, one period or all.
    Process { source: String, package_kind: String, period: Option<String> },
    /// Re-attempt a held quarantine bucket.
    Reprocess { reason: String, detail_like: Option<String>, profile: Option<String> },
    /// Re-parse a profile cohort from the archive.
    Reparse { profiles: Vec<String>, packages: Option<usize>, after: Option<i64> },
    /// Measure semantic data quality; a dry run only reports its plan.
    DataQuality { confirmed: bool },
    /// Re-download a sample of packages and compare their hashes.
    RehashProbe { samples: usize },
    /// Check whether withheld fields were revealed when promised.
    RevealRecheck,
    /// Re-derive the canonical layer, incrementally or whole.
    Project { rebuild: bool, clear_changes: bool },
    /// Build any missing deferred index.
    Reindex,
    /// Rebuild the fetch registry from the on-disk archive.
    RegisterArchive,
    /// Normalise every organisation name.
    BackfillOrgNames,
    /// Populate the legacy adjacency and its watermark.
    BackfillLegacyAdjacency,
    /// Stamp each tender's current deadline.
    BackfillDeadlines,
    /// Stamp each tender's current title.
    BackfillTitles,
    /// Stamp each tender's current EUR value.
    BackfillValues,
    /// Stamp each version's original language.
    BackfillOriginalLang,
    /// Re-derive EUR amounts from the current rates.
    RederiveEur,
    /// Repair the nested-organisation mention layer.
    RepairNestedOrgs { dry_run: bool },
    /// Populate the organisation name variants.
    BackfillOrgNameVariants,
    /// The distinct-name census per identifier-bearing organisation.
    OrgMergeHealth,
    /// Preview the same-country canonical-key merge.
    R2Census,
    /// Classify the null-country rescue pool.
    R3Census,
    /// Size the candidate-edge store.
    OrgEdgeCensus,
    /// The same-country canonical-key merge.
    MatchOrgIdentifiersR2 { dry_run: bool, max_groups: Option<u64> },
    /// The null-country checksum-anchor rescue.
    MatchOrgIdentifiersR3 { dry_run: bool, max_groups: Option<u64> },
    /// Apply the safe subset of recorded review verdicts.
    ApplyCaseReviews { dry_run: bool },
    /// Undo the strips whose pre-image was a platform GUID.
    UnapplyCaseReviews { dry_run: bool },
    /// List the parked review verdicts.
    CaseReviewBacklog,
    /// Fold non-canonical country codes.
    FoldOrgCountries { dry_run: bool },
    /// Reviewed vehicle rows holding mentions of somebody else.
    FusionCensus,
    /// The off-name mentions awaiting a verdict.
    RehomingPacket,
    /// Name variants no remaining mention supports.
    SatelliteOrphans,
    /// Drop orphaned name variants.
    DropOrphanSatellites { dry_run: bool },
    /// Restore what a drop pass removed.
    RestoreDroppedSatellites { dry_run: bool, only_job: Option<i64> },
    /// The anchor bind against the genericness wall.
    AnchorWallCensus,
    /// The same-name cross-border review packet.
    XbPacket,
    /// Identifiers under two country codes one letter apart.
    CountryTypoCensus,
    /// The country-typo class grouped by identifier.
    CountryClusterCensus,
    /// Standing duplicate identity triples.
    DuplicateIdentityCensus,
    /// Organisation names carrying a line break.
    NamePollutionCensus,
    /// Whether duplication pushes a key over the wall.
    GenericWallCensus,
    /// Whether over-cap keys are shared names.
    GenericStatisticCensus,
    /// Whether stored names match the notices.
    NameAttributionProbe,
    /// The storage figures.
    DiskCensus,
    /// Move rows a decisive anchor says are mistyped.
    RepairCountryTypos { dry_run: bool },
    /// Re-parse identifiers carrying a publisher label.
    RepairLabelPrefixes { dry_run: bool },
    /// Re-parse the standing VAT rows.
    RepairMintedCountries { dry_run: bool },
    /// Move reviewed mentions to the row they describe.
    ApplyRehoming { dry_run: bool },
    /// Rebuild the match-key satellite.
    BuildOrgMatchKeys { dry_run: bool },
    /// The candidate-edge scan over the key satellite.
    ScanOrgMatchKeys { dry_run: bool, max_edges: Option<u64> },
    /// Dissolve organisations keyed on placeholders.
    RepairPlaceholderOrgs { dry_run: bool },
    /// Re-queue a profile cohort for the incremental fold.
    Refold { profiles: Vec<String>, expect: Option<u64> },
    /// Re-fold every notice carrying a section of these kinds.
    RefoldSections { kinds: Vec<String> },
    /// Re-fold an explicit, small notice-id list.
    RefoldNotices { notices: Vec<i64> },
    /// Count notices keyed under two or more tenders.
    GhostCensus,
    /// Load the ECB reference rates.
    FetchRates,
    /// Load the closed pre-1999 ECU series.
    FetchRatesEcu,
    /// Re-project the notices carrying these field ids.
    RefoldFields { fields: Vec<String>, expect: Option<u64> },
    /// Mark duplicate language siblings skipped by policy.
    MarkSkippedSiblings { dry_run: bool, expect: Option<u64>, expect_gaps: Option<u64> },
    /// Restore siblings a guard-free pass swept.
    RepairSweptSiblings { dry_run: bool },
    /// Collapse duplicate identifier-less provisional organisations.
    MergeProvisionalOrgs { dry_run: bool },
    /// Clear a stale rebuild-in-progress flag.
    ClearRebuildFlag,
}

/// A job's action as plain values.
pub enum SpecV {
    Fetch { source: Seq<char>, package_kind: Seq<char>, period: Seq<char>, refetch: bool },
    ProbeTed { refetch: bool },
    ProbeDoe,
    Process { source: Seq<char>, package_kind: Seq<char>, period: Option<Seq<char>> },
    Reprocess { reason: Seq<char>, detail_like: Option<Seq<char>>, profile: Option<Seq<char>> },
    Reparse { profiles: Seq<Seq<char>>, packages: Option<usize>, after: Option<i64> },
    DataQuality { confirmed: bool },
    RehashProbe { samples: usize },
    RevealRecheck,
    Project { rebuild: bool, clear_changes: bool },
    Reindex,
    RegisterArchive,
    BackfillOrgNames,
    BackfillLegacyAdjacency,
    BackfillDeadlines,
    BackfillTitles,
    BackfillValues,
    BackfillOriginalLang,
    RederiveEur,
    RepairNestedOrgs { dry_run: bool },
    BackfillOrgNameVariants,
    OrgMergeHealth,
    R2Census,
    R3Census,
    OrgEdgeCensus,
    MatchOrgIdentifiersR2 { dry_run: bool, max_groups: Option<u64> },
    MatchOrgIdentifiersR3 { dry_run: bool, max_groups: Option<u64> },
    ApplyCaseReviews { dry_run: bool },
    UnapplyCaseReviews { dry_run: bool },
    CaseReviewBacklog,
    FoldOrgCountries { dry_run: bool },
    FusionCensus,
    RehomingPacket,
    SatelliteOrphans,
    DropOrphanSatellites { dry_run: bool },
    RestoreDroppedSatellites { dry_run: bool, only_job: Option<i64> },
    AnchorWallCensus,
    XbPacket,
    CountryTypoCensus,
    CountryClusterCensus,
    DuplicateIdentityCensus,
    NamePollutionCensus,
    GenericWallCensus,
    GenericStatisticCensus,
    NameAttributionProbe,
    DiskCensus,
    RepairCountryTypos { dry_run: bool },
    RepairLabelPrefixes { dry_run: bool },
    RepairMintedCountries { dry_run: bool },
    ApplyRehoming { dry_run: bool },
    BuildOrgMatchKeys { dry_run: bool },
    ScanOrgMatchKeys { dry_run: bool, max_edges: Option<u64> },
    RepairPlaceholderOrgs { dry_run: bool },
    Refold { profiles: Seq<Seq<char>>, expect: Option<u64> },
    RefoldSections { kinds: Seq<Seq<char>> },
    RefoldNotices { notices: Seq<i64> },
    GhostCensus,
    FetchRates,
    FetchRatesEcu,
    RefoldFields { fields: Seq<Seq<char>>, expect: Option<u64> },
    MarkSkippedSiblings { dry_run: bool, expect: Option<u64>, expect_gaps: Option<u64> },
    RepairSweptSiblings { dry_run: bool },
    MergeProvisionalOrgs { dry_run: bool },
    ClearRebuildFlag,
}

impl View for Spec {
    type V = SpecV;

    open spec fn view(&self) -> SpecV {
        match self {
            Spec::Fetch { source, package_kind, period, refetch } => SpecV::Fetch { source: source@, package_kind: package_kind@, period: period@, refetch: *refetch },
            Spec::ProbeTed { refetch } => SpecV::ProbeTed { refetch: *refetch },
            Spec::ProbeDoe => SpecV::ProbeDoe,
            Spec::Process { source, package_kind, period } => SpecV::Process { source: source@, package_kind: package_kind@, period: period.deep_view() },
            Spec::Reprocess { reason, detail_like, profile } => SpecV::Reprocess { reason: reason@, detail_like: detail_like.deep_view(), profile: profile.deep_view() },
            Spec::Reparse { profiles, packages, after } => SpecV::Reparse { profiles: profiles.deep_view(), packages: *packages, after: *after },
            Spec::DataQuality { confirmed } => SpecV::DataQuality { confirmed: *confirmed },
            Spec::RehashProbe { samples } => SpecV::RehashProbe { samples: *samples },
            Spec::RevealRecheck => SpecV::RevealRecheck,
            Spec::Project { rebuild, clear_changes } => SpecV::Project { rebuild: *rebuild, clear_changes: *clear_changes },
            Spec::Reindex => SpecV::Reindex,
            Spec::RegisterArchive => SpecV::RegisterArchive,
            Spec::BackfillOrgNames => SpecV::BackfillOrgNames,
            Spec::BackfillLegacyAdjacency => SpecV::BackfillLegacyAdjacency,
            Spec::BackfillDeadlines => SpecV::BackfillDeadlines,
            Spec::BackfillTitles => SpecV::BackfillTitles,
            Spec::BackfillValues => SpecV::BackfillValues,
            Spec::BackfillOriginalLang => SpecV::BackfillOriginalLang,
            Spec::RederiveEur => SpecV::RederiveEur,
            Spec::RepairNestedOrgs { dry_run } => SpecV::RepairNestedOrgs { dry_run: *dry_run },
            Spec::BackfillOrgNameVariants => SpecV::BackfillOrgNameVariants,
            Spec::OrgMergeHealth => SpecV::OrgMergeHealth,
            Spec::R2Census => SpecV::R2Census,
            Spec::R3Census => SpecV::R3Census,
            Spec::OrgEdgeCensus => SpecV::OrgEdgeCensus,
            Spec::MatchOrgIdentifiersR2 { dry_run, max_groups } => SpecV::MatchOrgIdentifiersR2 { dry_run: *dry_run, max_groups: *max_groups },
            Spec::MatchOrgIdentifiersR3 { dry_run, max_groups } => SpecV::MatchOrgIdentifiersR3 { dry_run: *dry_run, max_groups: *max_groups },
            Spec::ApplyCaseReviews { dry_run } => SpecV::ApplyCaseReviews { dry_run: *dry_run },
            Spec::UnapplyCaseReviews { dry_run } => SpecV::UnapplyCaseReviews { dry_run: *dry_run },
            Spec::CaseReviewBacklog => SpecV::CaseReviewBacklog,
            Spec::FoldOrgCountries { dry_run } => SpecV::FoldOrgCountries { dry_run: *dry_run },
            Spec::FusionCensus => SpecV::FusionCensus,
            Spec::RehomingPacket => SpecV::RehomingPacket,
            Spec::SatelliteOrphans => SpecV::SatelliteOrphans,
            Spec::DropOrphanSatellites { dry_run } => SpecV::DropOrphanSatellites { dry_run: *dry_run },
            Spec::RestoreDroppedSatellites { dry_run, only_job } => SpecV::RestoreDroppedSatellites { dry_run: *dry_run, only_job: *only_job },
            Spec::AnchorWallCensus => SpecV::AnchorWallCensus,
            Spec::XbPacket => SpecV::XbPacket,
            Spec::CountryTypoCensus => SpecV::CountryTypoCensus,
            Spec::CountryClusterCensus => SpecV::CountryClusterCensus,
            Spec::DuplicateIdentityCensus => SpecV::DuplicateIdentityCensus,
            Spec::NamePollutionCensus => SpecV::NamePollutionCensus,
            Spec::GenericWallCensus => SpecV::GenericWallCensus,
            Spec::GenericStatisticCensus => SpecV::GenericStatisticCensus,
            Spec::NameAttributionProbe => SpecV::NameAttributionProbe,
            Spec::DiskCensus => SpecV::DiskCensus,
            Spec::RepairCountryTypos { dry_run } => SpecV::RepairCountryTypos { dry_run: *dry_run },
            Spec::RepairLabelPrefixes { dry_run } => SpecV::RepairLabelPrefixes { dry_run: *dry_run },
            Spec::RepairMintedCountries { dry_run } => SpecV::RepairMintedCountries { dry_run: *dry_run },
            Spec::ApplyRehoming { dry_run } => SpecV::ApplyRehoming { dry_run: *dry_run },
            Spec::BuildOrgMatchKeys { dry_run } => SpecV::BuildOrgMatchKeys { dry_run: *dry_run },
            Spec::ScanOrgMatchKeys { dry_run, max_edges } => SpecV::ScanOrgMatchKeys { dry_run: *dry_run, max_edges: *max_edges },
            Spec::RepairPlaceholderOrgs { dry_run } => SpecV::RepairPlaceholderOrgs { dry_run: *dry_run },
            Spec::Refold { profiles, expect } => SpecV::Refold { profiles: profiles.deep_view(), expect: *expect },
            Spec::RefoldSections { kinds } => SpecV::RefoldSections { kinds: kinds.deep_view() },
            Spec::RefoldNotices { notices } => SpecV::RefoldNotices { notices: notices@ },
            Spec::GhostCensus => SpecV::GhostCensus,
            Spec::FetchRates => SpecV::FetchRates,
            Spec::FetchRatesEcu => SpecV::FetchRatesEcu,
            Spec::RefoldFields { fields, expect } => SpecV::RefoldFields { fields: fields.deep_view(), expect: *expect },
            Spec::MarkSkippedSiblings { dry_run, expect, expect_gaps } => SpecV::MarkSkippedSiblings { dry_run: *dry_run, expect: *expect, expect_gaps: *expect_gaps },
            Spec::RepairSweptSiblings { dry_run } => SpecV::RepairSweptSiblings { dry_run: *dry_run },
            Spec::MergeProvisionalOrgs { dry_run } => SpecV::MergeProvisionalOrgs { dry_run: *dry_run },
            Spec::ClearRebuildFlag => SpecV::ClearRebuildFlag,
        }
    }
}

/// The largest notice-id list `refold-notices` accepts.
pub const REFOLD_NOTICES_CAP: usize = 1_000;

/// A key shared by more organisations than this is a generic name, which the
/// edge scan counts and samples instead of pairing.
pub const SCAN_STOPLIST_CAP: u64 = 20;

/// The admin API's job request. `kind` selects the operation; the rest are its
/// parameters, each optional.
#[derive(Debug, Default)]
pub struct JobRequest {
    pub kind: String,
    pub source: Option<String>,
    pub package_kind: Option<String>,
    pub period: Option<String>,
    pub range: Option<[String; 2]>,
    pub rebuild: Option<bool>,
    pub refetch: Option<bool>,
    pub reason: Option<String>,
    pub detail_like: Option<String>,
    pub dry_run: Option<bool>,
    pub job: Option<i64>,
    pub profile: Option<String>,
    pub reclaim_only: Option<bool>,
    pub packages: Option<usize>,
    pub after: Option<i64>,
    pub clear_changes: Option<bool>,
    pub profiles: Option<Vec<String>>,
    pub expect: Option<u64>,
    pub notices: Option<Vec<i64>>,
    pub expect_gaps: Option<u64>,
    pub max_groups: Option<u64>,
    pub rule: Option<String>,
    pub max_edges: Option<u64>,
}

/// One job to queue: its kind, the params line the job log shows, and its action.
#[derive(Debug)]
pub struct PlannedJob {
    pub kind: String,
    pub params: String,
    pub spec: Spec,
}

/// A planned job as plain values: kind, params line, action.
pub type JobV = (Seq<char>, Seq<char>, SpecV);

impl View for PlannedJob {
    type V = JobV;

    open spec fn view(&self) -> JobV {
        (self.kind@, self.params@, self.spec@)
    }
}

/// The plain values of a list of planned jobs.
pub open spec fn jobs_v(v: Seq<PlannedJob>) -> Seq<JobV> {
    v.map_values(|j: PlannedJob| j@)
}

/// The plain value of a planner's answer.
pub open spec fn plan_v(r: Result<Vec<PlannedJob>, String>) -> Result<Seq<JobV>, Seq<char>> {
    match r {
        Ok(v) => Ok(jobs_v(v@)),
        Err(e) => Err(e@),
    }
}

fn planned(kind: &str, params: String, spec: Spec) -> (j: PlannedJob)
    ensures
        j@ == (kind@, params@, spec@),
{
    PlannedJob { kind: text_of(kind), params, spec }
}

/// The jobs of an accepted plan (nothing for a refused one).
pub open spec fn ok_of(r: Result<Seq<JobV>, Seq<char>>) -> Seq<JobV> {
    match r {
        Ok(v) => v,
        Err(_) => Seq::empty(),
    }
}

/// The incremental projection that trails every job that leaves notices
/// unprojected.
pub open spec fn project_job_v() -> JobV {
    ("project"@, "rebuild=false"@, SpecV::Project { rebuild: false, clear_changes: false })
}

fn project_job() -> (j: PlannedJob)
    ensures
        j@ == project_job_v(),
{
    planned("project", text_of("rebuild=false"), Spec::Project { rebuild: false, clear_changes: false })
}

/// `o`, or `d` when absent.
pub open spec fn or_bool(o: Option<bool>, d: bool) -> bool {
    match o {
        Some(b) => b,
        None => d,
    }
}

/// The items joined with `,`.
pub open spec fn join_comma(s: Seq<Seq<char>>) -> Seq<char>
    decreases s.len(),
{
    if s.len() == 0 {
        Seq::empty()
    } else if s.len() == 1 {
        s[0]
    } else {
        join_comma(s.drop_last()) + ","@ + s.last()
    }
}

/// Integers in decimal, joined with `,`.
pub open spec fn join_ints(s: Seq<i64>) -> Seq<char>
    decreases s.len(),
{
    if s.len() == 0 {
        Seq::empty()
    } else if s.len() == 1 {
        dec_int(s[0] as int)
    } else {
        join_ints(s.drop_last()) + ","@ + dec_int(s.last() as int)
    }
}

pub(crate) fn push_joined(out: &mut String, items: &Vec<String>)
    ensures
        final(out)@ == old(out)@ + join_comma(items.deep_view()),
{
    let ghost d = items.deep_view();
    let mut i: usize = 0;
    while i < items.len()
        invariant
            i <= items@.len(),
            d == items.deep_view(),
            out@ == old(out)@ + join_comma(d.take(i as int)),
        decreases items@.len() - i,
    {
        proof {
            assert(d.take(i + 1).drop_last() =~= d.take(i as int));
            assert(d.take(i + 1).last() == items@[i as int]@);
        }
        if i > 0 {
            out.append(",");
        }
        out.append(items[i].as_str());
        proof {
            if i == 0 {
                assert(d.take(1) =~= seq![items@[0]@]);
            }
        }
        i = i + 1;
    }
    proof {
        assert(d.take(items@.len() as int) =~= d);
    }
}

fn push_joined_ints(out: &mut String, items: &Vec<i64>, n: usize)
    requires
        n <= items@.len(),
    ensures
        final(out)@ == old(out)@ + join_ints(items@.take(n as int)),
{
    let mut i: usize = 0;
    while i < n
        invariant
            i <= n <= items@.len(),
            out@ == old(out)@ + join_ints(items@.take(i as int)),
        decreases n - i,
    {
        proof {
            assert(items@.take(i + 1).drop_last() =~= items@.take(i as int));
        }
        if i > 0 {
            out.append(",");
        }
        push_i64(out, items[i]);
        proof {
            if i == 0 {
                assert(items@.take(1) =~= seq![items@[0]]);
            }
        }
        i = i + 1;
    }
}

// ---------------------------------------------------------------- fetch

/// The source a fetch request names: `ted` when absent.
pub open spec fn fetch_source(req: JobRequest) -> Result<Seq<char>, Seq<char>> {
    match req.source {
        None => Ok("ted"@),
        Some(s) => if s@ == "ted"@ {
            Ok("ted"@)
        } else if s@ == "doe"@ {
            Ok("doe"@)
        } else {
            Err("unknown source "@ + debug_quoted(s@))
        },
    }
}

/// The package kind a fetch request names: `daily` when absent.
pub open spec fn fetch_kind(req: JobRequest) -> Result<Seq<char>, Seq<char>> {
    match req.package_kind {
        None => Ok("daily"@),
        Some(s) => if s@ == "daily"@ {
            Ok("daily"@)
        } else if s@ == "monthly"@ {
            Ok("monthly"@)
        } else {
            Err("unknown package kind "@ + debug_quoted(s@))
        },
    }
}

/// A `fetch` request: one package of a known source and kind, for a period the
/// request must name.
pub open spec fn fetch_plan(req: JobRequest) -> Result<Seq<JobV>, Seq<char>> {
    match fetch_source(req) {
        Err(e) => Err(e),
        Ok(src) => match fetch_kind(req) {
            Err(e) => Err(e),
            Ok(kd) => match req.period {
                None => Err("fetch needs a period"@),
                Some(p) => Ok(
                    seq![
                        (
                            "fetch"@,
                            src + " "@ + kd + " "@ + p@,
                            SpecV::Fetch {
                                source: src,
                                package_kind: kd,
                                period: p@,
                                refetch: or_bool(req.refetch, false),
                            },
                        ),
                    ],
                ),
            },
        },
    }
}

fn fetch_parts(req: &JobRequest) -> (r: Result<(&'static str, &'static str, String), String>)
    ensures
        match r {
            Ok((s, k, p)) => fetch_source(*req) == Ok::<Seq<char>, Seq<char>>(s@) && fetch_kind(*req)
                == Ok::<Seq<char>, Seq<char>>(k@) && req.period.is_some() && p@
                == req.period.unwrap()@,
            Err(e) => match fetch_plan(*req) {
                Err(t) => e@ == t,
                Ok(_) => false,
            },
        },
{
    let source: &'static str = match &req.source {
        None => "ted",
        Some(s) => if str_eq(s.as_str(), "ted") {
            "ted"
        } else if str_eq(s.as_str(), "doe") {
            "doe"
        } else {
            let mut e = String::from_str("unknown source ");
            let q = debug_quote(s.as_str());
            e.append(q.as_str());
            return Err(e);
        },
    };
    let package_kind: &'static str = match &req.package_kind {
        None => "daily",
        Some(s) => if str_eq(s.as_str(), "daily") {
            "daily"
        } else if str_eq(s.as_str(), "monthly") {
            "monthly"
        } else {
            let mut e = String::from_str("unknown package kind ");
            let q = debug_quote(s.as_str());
            e.append(q.as_str());
            return Err(e);
        },
    };
    match &req.period {
        None => Err(String::from_str("fetch needs a period")),
        Some(p) => Ok((source, package_kind, p.clone())),
    }
}

fn plan_fetch(req: &JobRequest) -> (r: Result<Vec<PlannedJob>, String>)
    ensures
        plan_v(r) == fetch_plan(*req),
{
    let (source, package_kind, period) = match fetch_parts(req) {
        Ok(parts) => parts,
        Err(e) => return Err(e),
    };
    let refetch = match req.refetch {
        Some(b) => b,
        None => false,
    };
    let mut params = String::from_str(source);
    params.append(" ");
    params.append(package_kind);
    params.append(" ");
    params.append(period.as_str());
    let spec = Spec::Fetch {
        source: text_of(source),
        package_kind: text_of(package_kind),
        period,
        refetch,
    };
    let j = planned("fetch", params, spec);
    let v = vec![j];
    proof {
        assert(jobs_v(v@) =~= ok_of(fetch_plan(*req)));
    }
    Ok(v)
}

// ---------------------------------------------------------------- process / project

/// A `process` request: the named (default `ted`) source and (default `daily`)
/// kind, one period or all.
pub open spec fn process_plan(req: JobRequest) -> Seq<JobV> {
    let src = match req.source {
        Some(s) => s@,
        None => "ted"@,
    };
    let kd = match req.package_kind {
        Some(k) => k@,
        None => "daily"@,
    };
    let tail = match req.period {
        Some(p) => p@,
        None => "(all)"@,
    };
    seq![
        (
            "process"@,
            src + " "@ + kd + " "@ + tail,
            SpecV::Process { source: src, package_kind: kd, period: req.period.deep_view() },
        ),
    ]
}

fn plan_process(req: &JobRequest) -> (r: Vec<PlannedJob>)
    ensures
        jobs_v(r@) == process_plan(*req),
{
    let source = match &req.source {
        Some(s) => s.clone(),
        None => text_of("ted"),
    };
    let package_kind = match &req.package_kind {
        Some(k) => k.clone(),
        None => text_of("daily"),
    };
    let period = match &req.period {
        Some(p) => Some(p.clone()),
        None => None,
    };
    let mut params = source.clone();
    params.append(" ");
    params.append(package_kind.as_str());
    params.append(" ");
    match &req.period {
        Some(p) => params.append(p.as_str()),
        None => params.append("(all)"),
    }
    proof {
        assert(period.deep_view() == req.period.deep_view());
    }
    let v = vec![planned("process", params, Spec::Process { source, package_kind, period })];
    proof {
        assert(jobs_v(v@) =~= process_plan(*req));
    }
    v
}

/// A `project` request: incremental unless `rebuild`; `clear_changes` only
/// pairs with a rebuild.
pub open spec fn project_plan(req: JobRequest) -> Seq<JobV> {
    let rebuild = or_bool(req.rebuild, false);
    let clear = rebuild && or_bool(req.clear_changes, false);
    seq![
        (
            "project"@,
            "rebuild="@ + bool_text(rebuild) + if clear {
                " clear_changes"@
            } else {
                Seq::empty()
            },
            SpecV::Project { rebuild, clear_changes: clear },
        ),
    ]
}

fn plan_project(req: &JobRequest) -> (r: Vec<PlannedJob>)
    ensures
        jobs_v(r@) == project_plan(*req),
{
    let rebuild = match req.rebuild {
        Some(b) => b,
        None => false,
    };
    let clear_changes = rebuild && match req.clear_changes {
        Some(b) => b,
        None => false,
    };
    let mut params = String::from_str("rebuild=");
    push_bool(&mut params, rebuild);
    if clear_changes {
        params.append(" clear_changes");
    }
    proof {
        assert(params@ =~= "rebuild="@ + bool_text(rebuild) + if clear_changes {
            " clear_changes"@
        } else {
            Seq::empty()
        });
    }
    let v = vec![planned("project", params, Spec::Project { rebuild, clear_changes })];
    proof {
        assert(jobs_v(v@) =~= project_plan(*req));
    }
    v
}

// ---------------------------------------------------------------- backfill

/// The months a `backfill` request covers: a `doe` request's range or, without
/// one, the whole monthly archive `doe_months`; a `ted` request's range, which it
/// must give.
pub open spec fn backfill_months(req: JobRequest, doe_months: Seq<Seq<char>>) -> Result<
    Seq<Seq<char>>,
    Seq<char>,
> {
    match req.source {
        None => Err("backfill needs a source"@),
        Some(s) => if s@ == "doe"@ {
            match req.range {
                Some(r) => months_between_spec(r@[0]@, r@[1]@),
                None => Ok(doe_months),
            }
        } else if s@ == "ted"@ {
            match req.range {
                None => Err("ted backfill needs a monthly range"@),
                Some(r) => months_between_spec(r@[0]@, r@[1]@),
            }
        } else {
            Err("unknown source "@ + debug_quoted(s@))
        },
    }
}

/// The fetch of one monthly package of a backfill.
pub open spec fn backfill_fetch(src: Seq<char>, period: Seq<char>) -> JobV {
    (
        "fetch"@,
        src + " monthly "@ + period,
        SpecV::Fetch { source: src, package_kind: "monthly"@, period, refetch: false },
    )
}

/// The process pass that follows a backfill's fetches.
pub open spec fn backfill_process(src: Seq<char>) -> JobV {
    (
        "process"@,
        src + " monthly (all)"@,
        SpecV::Process { source: src, package_kind: "monthly"@, period: None },
    )
}

/// A `backfill` request: one fetch per month, then one process pass over the
/// source's monthly packages and one projection.
pub open spec fn backfill_plan(req: JobRequest, doe_months: Seq<Seq<char>>) -> Result<
    Seq<JobV>,
    Seq<char>,
> {
    match backfill_months(req, doe_months) {
        Err(e) => Err(e),
        Ok(ms) => if ms.len() == 0 {
            Err("backfill range is empty"@)
        } else {
            let src = req.source.unwrap()@;
            Ok(
                ms.map_values(|p: Seq<char>| backfill_fetch(src, p)) + seq![
                    backfill_process(src),
                    project_job_v(),
                ],
            )
        },
    }
}

/// The walk over a backfill's range cannot overflow.
pub open spec fn backfill_fits(req: JobRequest) -> bool {
    match (req.source, req.range) {
        (Some(s), Some(r)) => (s@ == "doe"@ || s@ == "ted"@) ==> months_between_fits(
            r@[0]@,
            r@[1]@,
        ),
        _ => true,
    }
}

fn plan_backfill(req: &JobRequest, doe_months: &Vec<String>) -> (r: Result<Vec<PlannedJob>, String>)
    requires
        backfill_fits(*req),
    ensures
        plan_v(r) == backfill_plan(*req, doe_months.deep_view()),
{
    let source: &String = match &req.source {
        None => return Err(String::from_str("backfill needs a source")),
        Some(s) => s,
    };
    let is_doe = str_eq(source.as_str(), "doe");
    let is_ted = str_eq(source.as_str(), "ted");
    let months: Vec<String> = if is_doe {
        match &req.range {
            Some(r) => match months_between(r[0].as_str(), r[1].as_str()) {
                Ok(v) => v,
                Err(e) => return Err(e),
            },
            None => {
                let mut v: Vec<String> = Vec::new();
                let mut i: usize = 0;
                while i < doe_months.len()
                    invariant
                        i <= doe_months@.len(),
                        v@.len() == i,
                        forall|j: int| 0 <= j < i ==> (#[trigger] v@[j])@ == doe_months@[j]@,
                    decreases doe_months@.len() - i,
                {
                    v.push(doe_months[i].clone());
                    i = i + 1;
                }
                proof {
                    assert(texts(v@) =~= doe_months.deep_view());
                }
                v
            },
        }
    } else if is_ted {
        match &req.range {
            None => return Err(String::from_str("ted backfill needs a monthly range")),
            Some(r) => match months_between(r[0].as_str(), r[1].as_str()) {
                Ok(v) => v,
                Err(e) => return Err(e),
            },
        }
    } else {
        let mut e = String::from_str("unknown source ");
        let q = debug_quote(source.as_str());
        e.append(q.as_str());
        return Err(e);
    };
    proof {
        assert(backfill_months(*req, doe_months.deep_view()) == Ok::<Seq<Seq<char>>, Seq<char>>(
            texts(months@),
        ));
    }
    if months.len() == 0 {
        return Err(String::from_str("backfill range is empty"));
    }
    let src: &'static str = if is_doe {
        "doe"
    } else {
        "ted"
    };
    let ghost ms = texts(months@);
    let ghost srcv = source@;
    let mut out: Vec<PlannedJob> = Vec::new();
    let mut i: usize = 0;
    while i < months.len()
        invariant
            i <= months@.len(),
            ms == texts(months@),
            src@ == srcv,
            jobs_v(out@) =~= ms.take(i as int).map_values(|p: Seq<char>| backfill_fetch(srcv, p)),
        decreases months@.len() - i,
    {
        let mut params = String::from_str(src);
        params.append(" monthly ");
        params.append(months[i].as_str());
        let spec = Spec::Fetch {
            source: text_of(src),
            package_kind: text_of("monthly"),
            period: months[i].clone(),
            refetch: false,
        };
        let ghost before = jobs_v(out@);
        out.push(planned("fetch", params, spec));
        proof {
            assert(ms.take(i + 1) =~= ms.take(i as int).push(ms[i as int]));
            assert(jobs_v(out@) =~= before.push(backfill_fetch(srcv, ms[i as int])));
        }
        i = i + 1;
    }
    let mut pparams = String::from_str(src);
    pparams.append(" monthly (all)");
    let ghost before_tail = jobs_v(out@);
    out.push(
        planned(
            "process",
            pparams,
            Spec::Process { source: text_of(src), package_kind: text_of("monthly"), period: None },
        ),
    );
    out.push(project_job());
    proof {
        assert(ms.take(ms.len() as int) =~= ms);
        assert(jobs_v(out@) =~= before_tail + seq![backfill_process(srcv), project_job_v()]);
    }
    Ok(out)
}

/// The requests that queue one fixed job: the request kind, to the job's kind,
/// params line and action.
pub open spec fn simple_job(k: Seq<char>) -> Option<JobV> {
    if k == "reindex"@ {
        Some(("reindex"@, "reindex"@, SpecV::Reindex))
    } else if k == "register-archive"@ {
        Some(("register-archive"@, "register-archive"@, SpecV::RegisterArchive))
    } else if k == "backfill-org-names"@ {
        Some(("backfill-org-names"@, "backfill-org-names"@, SpecV::BackfillOrgNames))
    } else if k == "reveal-recheck"@ {
        Some(("reveal-recheck"@, "reveal recheck"@, SpecV::RevealRecheck))
    } else if k == "backfill-legacy-adjacency"@ {
        Some(("backfill-legacy-adjacency"@, "backfill-legacy-adjacency"@, SpecV::BackfillLegacyAdjacency))
    } else if k == "backfill-titles"@ {
        Some(("backfill-titles"@, "backfill-titles"@, SpecV::BackfillTitles))
    } else if k == "backfill-deadlines"@ {
        Some(("backfill-deadlines"@, "backfill-deadlines"@, SpecV::BackfillDeadlines))
    } else if k == "backfill-original-lang"@ {
        Some(("backfill-original-lang"@, "backfill-original-lang"@, SpecV::BackfillOriginalLang))
    } else if k == "backfill-values"@ {
        Some(("backfill-values"@, "backfill-values"@, SpecV::BackfillValues))
    } else if k == "backfill-org-name-variants"@ {
        Some(("backfill-org-name-variants"@, "backfill-org-name-variants"@, SpecV::BackfillOrgNameVariants))
    } else if k == "org-merge-health"@ {
        Some(("org-merge-health"@, "org-merge-health"@, SpecV::OrgMergeHealth))
    } else if k == "r2-census"@ {
        Some(("r2-census"@, "r2-census"@, SpecV::R2Census))
    } else if k == "org-edge-census"@ {
        Some(("org-edge-census"@, "org-edge-census"@, SpecV::OrgEdgeCensus))
    } else if k == "r3-census"@ {
        Some(("r3-census"@, "r3-census"@, SpecV::R3Census))
    } else if k == "fusion-census"@ {
        Some(("fusion-census"@, "fusion-census"@, SpecV::FusionCensus))
    } else if k == "xb-packet"@ {
        Some(("xb-packet"@, "xb-packet"@, SpecV::XbPacket))
    } else if k == "country-cluster-census"@ {
        Some(("country-cluster-census"@, "country-cluster-census"@, SpecV::CountryClusterCensus))
    } else if k == "disk-census"@ {
        Some(("disk-census"@, "disk-census"@, SpecV::DiskCensus))
    } else if k == "name-attribution-probe"@ {
        Some(("name-attribution-probe"@, "name-attribution-probe"@, SpecV::NameAttributionProbe))
    } else if k == "generic-statistic-census"@ {
        Some(("generic-statistic-census"@, "generic-statistic-census"@, SpecV::GenericStatisticCensus))
    } else if k == "generic-wall-census"@ {
        Some(("generic-wall-census"@, "generic-wall-census"@, SpecV::GenericWallCensus))
    } else if k == "name-pollution-census"@ {
        Some(("name-pollution-census"@, "name-pollution-census"@, SpecV::NamePollutionCensus))
    } else if k == "duplicate-identity-census"@ {
        Some(("duplicate-identity-census"@, "duplicate-identity-census"@, SpecV::DuplicateIdentityCensus))
    } else if k == "country-typo-census"@ {
        Some(("country-typo-census"@, "country-typo-census"@, SpecV::CountryTypoCensus))
    } else if k == "anchor-wall-census"@ {
        Some(("anchor-wall-census"@, "anchor-wall-census"@, SpecV::AnchorWallCensus))
    } else if k == "satellite-orphans"@ {
        Some(("satellite-orphans"@, "satellite-orphans"@, SpecV::SatelliteOrphans))
    } else if k == "rehoming-packet"@ {
        Some(("rehoming-packet"@, "rehoming-packet"@, SpecV::RehomingPacket))
    } else if k == "case-review-backlog"@ {
        Some(("case-review-backlog"@, "case-review-backlog"@, SpecV::CaseReviewBacklog))
    } else if k == "clear-rebuild-flag"@ {
        Some(("clear-rebuild-flag"@, "clear-rebuild-flag"@, SpecV::ClearRebuildFlag))
    } else if k == "fetch-rates"@ {
        Some(("fetch-rates"@, "ecb eurofxref-hist"@, SpecV::FetchRates))
    } else if k == "fetch-rates-ecu"@ {
        Some(("fetch-rates-ecu"@, "eurostat ecu 1993-1998"@, SpecV::FetchRatesEcu))
    } else if k == "ghost-census"@ {
        Some(("ghost-census"@, "ghost-census"@, SpecV::GhostCensus))
    } else if k == "sweep-regrouped-ghosts"@ {
        Some(("ghost-census"@, "ghost-census"@, SpecV::GhostCensus))
    } else {
        None
    }
}

/// The fixed job of a one-job request kind, if it is one.
fn simple_job_exec(k: &str) -> (r: Option<PlannedJob>)
    ensures
        r.is_some() == simple_job(k@).is_some(),
        r.is_some() ==> r.unwrap()@ == simple_job(k@).unwrap(),
{
    if str_eq(k, "reindex") {
        Some(planned("reindex", text_of("reindex"), Spec::Reindex))
    } else if str_eq(k, "register-archive") {
        Some(planned("register-archive", text_of("register-archive"), Spec::RegisterArchive))
    } else if str_eq(k, "backfill-org-names") {
        Some(planned("backfill-org-names", text_of("backfill-org-names"), Spec::BackfillOrgNames))
    } else if str_eq(k, "reveal-recheck") {
        Some(planned("reveal-recheck", text_of("reveal recheck"), Spec::RevealRecheck))
    } else if str_eq(k, "backfill-legacy-adjacency") {
        Some(planned("backfill-legacy-adjacency", text_of("backfill-legacy-adjacency"), Spec::BackfillLegacyAdjacency))
    } else if str_eq(k, "backfill-titles") {
        Some(planned("backfill-titles", text_of("backfill-titles"), Spec::BackfillTitles))
    } else if str_eq(k, "backfill-deadlines") {
        Some(planned("backfill-deadlines", text_of("backfill-deadlines"), Spec::BackfillDeadlines))
    } else if str_eq(k, "backfill-original-lang") {
        Some(planned("backfill-original-lang", text_of("backfill-original-lang"), Spec::BackfillOriginalLang))
    } else if str_eq(k, "backfill-values") {
        Some(planned("backfill-values", text_of("backfill-values"), Spec::BackfillValues))
    } else if str_eq(k, "backfill-org-name-variants") {
        Some(planned("backfill-org-name-variants", text_of("backfill-org-name-variants"), Spec::BackfillOrgNameVariants))
    } else if str_eq(k, "org-merge-health") {
        Some(planned("org-merge-health", text_of("org-merge-health"), Spec::OrgMergeHealth))
    } else if str_eq(k, "r2-census") {
        Some(planned("r2-census", text_of("r2-census"), Spec::R2Census))
    } else if str_eq(k, "org-edge-census") {
        Some(planned("org-edge-census", text_of("org-edge-census"), Spec::OrgEdgeCensus))
    } else if str_eq(k, "r3-census") {
        Some(planned("r3-census", text_of("r3-census"), Spec::R3Census))
    } else if str_eq(k, "fusion-census") {
        Some(planned("fusion-census", text_of("fusion-census"), Spec::FusionCensus))
    } else if str_eq(k, "xb-packet") {
        Some(planned("xb-packet", text_of("xb-packet"), Spec::XbPacket))
    } else if str_eq(k, "country-cluster-census") {
        Some(planned("country-cluster-census", text_of("country-cluster-census"), Spec::CountryClusterCensus))
    } else if str_eq(k, "disk-census") {
        Some(planned("disk-census", text_of("disk-census"), Spec::DiskCensus))
    } else if str_eq(k, "name-attribution-probe") {
        Some(planned("name-attribution-probe", text_of("name-attribution-probe"), Spec::NameAttributionProbe))
    } else if str_eq(k, "generic-statistic-census") {
        Some(planned("generic-statistic-census", text_of("generic-statistic-census"), Spec::GenericStatisticCensus))
    } else if str_eq(k, "generic-wall-census") {
        Some(planned("generic-wall-census", text_of("generic-wall-census"), Spec::GenericWallCensus))
    } else if str_eq(k, "name-pollution-census") {
        Some(planned("name-pollution-census", text_of("name-pollution-census"), Spec::NamePollutionCensus))
    } else if str_eq(k, "duplicate-identity-census") {
        Some(planned("duplicate-identity-census", text_of("duplicate-identity-census"), Spec::DuplicateIdentityCensus))
    } else if str_eq(k, "country-typo-census") {
        Some(planned("country-typo-census", text_of("country-typo-census"), Spec::CountryTypoCensus))
    } else if str_eq(k, "anchor-wall-census") {
        Some(planned("anchor-wall-census", text_of("anchor-wall-census"), Spec::AnchorWallCensus))
    } else if str_eq(k, "satellite-orphans") {
        Some(planned("satellite-orphans", text_of("satellite-orphans"), Spec::SatelliteOrphans))
    } else if str_eq(k, "rehoming-packet") {
        Some(planned("rehoming-packet", text_of("rehoming-packet"), Spec::RehomingPacket))
    } else if str_eq(k, "case-review-backlog") {
        Some(planned("case-review-backlog", text_of("case-review-backlog"), Spec::CaseReviewBacklog))
    } else if str_eq(k, "clear-rebuild-flag") {
        Some(planned("clear-rebuild-flag", text_of("clear-rebuild-flag"), Spec::ClearRebuildFlag))
    } else if str_eq(k, "fetch-rates") {
        Some(planned("fetch-rates", text_of("ecb eurofxref-hist"), Spec::FetchRates))
    } else if str_eq(k, "fetch-rates-ecu") {
        Some(planned("fetch-rates-ecu", text_of("eurostat ecu 1993-1998"), Spec::FetchRatesEcu))
    } else if str_eq(k, "ghost-census") {
        Some(planned("ghost-census", text_of("ghost-census"), Spec::GhostCensus))
    } else if str_eq(k, "sweep-regrouped-ghosts") {
        Some(planned("ghost-census", text_of("ghost-census"), Spec::GhostCensus))
    } else {
        None
    }
}

/// The writers whose only knob is `dry_run`: the request kind and the flag, to
/// the job's kind, params line and action.
pub open spec fn dry_job(k: Seq<char>, d: bool) -> Option<JobV> {
    if k == "apply-case-reviews"@ {
        Some(("apply-case-reviews"@, if d { "apply-case-reviews dry-run"@ } else { "apply-case-reviews"@ }, SpecV::ApplyCaseReviews { dry_run: d }))
    } else if k == "unapply-case-reviews"@ {
        Some(("unapply-case-reviews"@, if d { "unapply-case-reviews dry-run (select=uuid-v4)"@ } else { "unapply-case-reviews (select=uuid-v4)"@ }, SpecV::UnapplyCaseReviews { dry_run: d }))
    } else if k == "apply-rehoming"@ {
        Some(("apply-rehoming"@, if d { "apply-rehoming dry-run"@ } else { "apply-rehoming"@ }, SpecV::ApplyRehoming { dry_run: d }))
    } else if k == "fold-org-countries"@ {
        Some(("fold-org-countries"@, if d { "fold-org-countries dry-run"@ } else { "fold-org-countries"@ }, SpecV::FoldOrgCountries { dry_run: d }))
    } else if k == "drop-orphan-satellites"@ {
        Some(("drop-orphan-satellites"@, if d { "drop-orphan-satellites dry-run"@ } else { "drop-orphan-satellites"@ }, SpecV::DropOrphanSatellites { dry_run: d }))
    } else if k == "repair-minted-countries"@ {
        Some(("repair-minted-countries"@, if d { "repair-minted-countries dry-run"@ } else { "repair-minted-countries"@ }, SpecV::RepairMintedCountries { dry_run: d }))
    } else if k == "repair-label-prefixes"@ {
        Some(("repair-label-prefixes"@, if d { "repair-label-prefixes dry-run"@ } else { "repair-label-prefixes"@ }, SpecV::RepairLabelPrefixes { dry_run: d }))
    } else if k == "repair-country-typos"@ {
        Some(("repair-country-typos"@, if d { "repair-country-typos dry-run"@ } else { "repair-country-typos"@ }, SpecV::RepairCountryTypos { dry_run: d }))
    } else if k == "build-org-match-keys"@ {
        Some(("build-org-match-keys"@, if d { "build-org-match-keys dry-run"@ } else { "build-org-match-keys"@ }, SpecV::BuildOrgMatchKeys { dry_run: d }))
    } else if k == "repair-placeholder-orgs"@ {
        Some(("repair-placeholder-orgs"@, if d { "repair-placeholder-orgs dry-run"@ } else { "repair-placeholder-orgs"@ }, SpecV::RepairPlaceholderOrgs { dry_run: d }))
    } else if k == "repair-nested-orgs"@ {
        Some(("repair-nested-orgs"@, if d { "repair-nested-orgs dry-run"@ } else { "repair-nested-orgs"@ }, SpecV::RepairNestedOrgs { dry_run: d }))
    } else if k == "repair-swept-siblings"@ {
        Some(("repair-swept-siblings"@, if d { "dry-run"@ } else { "execute"@ }, SpecV::RepairSweptSiblings { dry_run: d }))
    } else if k == "merge-provisional-orgs"@ {
        Some(("merge-provisional-orgs"@, if d { "dry-run"@ } else { "execute"@ }, SpecV::MergeProvisionalOrgs { dry_run: d }))
    } else {
        None
    }
}

/// The job of a dry-run-only writer request, if it is one.
fn dry_job_exec(k: &str, d: bool) -> (r: Option<PlannedJob>)
    ensures
        r.is_some() == dry_job(k@, d).is_some(),
        r.is_some() ==> r.unwrap()@ == dry_job(k@, d).unwrap(),
{
    if str_eq(k, "apply-case-reviews") {
        let params = if d { text_of("apply-case-reviews dry-run") } else { text_of("apply-case-reviews") };
        Some(planned("apply-case-reviews", params, Spec::ApplyCaseReviews { dry_run: d }))
    } else if str_eq(k, "unapply-case-reviews") {
        let params = if d { text_of("unapply-case-reviews dry-run (select=uuid-v4)") } else { text_of("unapply-case-reviews (select=uuid-v4)") };
        Some(planned("unapply-case-reviews", params, Spec::UnapplyCaseReviews { dry_run: d }))
    } else if str_eq(k, "apply-rehoming") {
        let params = if d { text_of("apply-rehoming dry-run") } else { text_of("apply-rehoming") };
        Some(planned("apply-rehoming", params, Spec::ApplyRehoming { dry_run: d }))
    } else if str_eq(k, "fold-org-countries") {
        let params = if d { text_of("fold-org-countries dry-run") } else { text_of("fold-org-countries") };
        Some(planned("fold-org-countries", params, Spec::FoldOrgCountries { dry_run: d }))
    } else if str_eq(k, "drop-orphan-satellites") {
        let params = if d { text_of("drop-orphan-satellites dry-run") } else { text_of("drop-orphan-satellites") };
        Some(planned("drop-orphan-satellites", params, Spec::DropOrphanSatellites { dry_run: d }))
    } else if str_eq(k, "repair-minted-countries") {
        let params = if d { text_of("repair-minted-countries dry-run") } else { text_of("repair-minted-countries") };
        Some(planned("repair-minted-countries", params, Spec::RepairMintedCountries { dry_run: d }))
    } else if str_eq(k, "repair-label-prefixes") {
        let params = if d { text_of("repair-label-prefixes dry-run") } else { text_of("repair-label-prefixes") };
        Some(planned("repair-label-prefixes", params, Spec::RepairLabelPrefixes { dry_run: d }))
    } else if str_eq(k, "repair-country-typos") {
        let params = if d { text_of("repair-country-typos dry-run") } else { text_of("repair-country-typos") };
        Some(planned("repair-country-typos", params, Spec::RepairCountryTypos { dry_run: d }))
    } else if str_eq(k, "build-org-match-keys") {
        let params = if d { text_of("build-org-match-keys dry-run") } else { text_of("build-org-match-keys") };
        Some(planned("build-org-match-keys", params, Spec::BuildOrgMatchKeys { dry_run: d }))
    } else if str_eq(k, "repair-placeholder-orgs") {
        let params = if d { text_of("repair-placeholder-orgs dry-run") } else { text_of("repair-placeholder-orgs") };
        Some(planned("repair-placeholder-orgs", params, Spec::RepairPlaceholderOrgs { dry_run: d }))
    } else if str_eq(k, "repair-nested-orgs") {
        let params = if d { text_of("repair-nested-orgs dry-run") } else { text_of("repair-nested-orgs") };
        Some(planned("repair-nested-orgs", params, Spec::RepairNestedOrgs { dry_run: d }))
    } else if str_eq(k, "repair-swept-siblings") {
        let params = if d { text_of("dry-run") } else { text_of("execute") };
        Some(planned("repair-swept-siblings", params, Spec::RepairSweptSiblings { dry_run: d }))
    } else if str_eq(k, "merge-provisional-orgs") {
        let params = if d { text_of("dry-run") } else { text_of("execute") };
        Some(planned("merge-provisional-orgs", params, Spec::MergeProvisionalOrgs { dry_run: d }))
    } else {
        None
    }
}

// ---------------------------------------------------------------- list-shaped requests

/// A request's `profiles` list, empty when absent.
pub open spec fn profiles_of(req: JobRequest) -> Seq<Seq<char>> {
    match req.profiles {
        Some(v) => v.deep_view(),
        None => Seq::empty(),
    }
}

/// A request's `notices` list, empty when absent.
pub open spec fn notices_of(req: JobRequest) -> Seq<i64> {
    match req.notices {
        Some(v) => v@,
        None => Seq::empty(),
    }
}

/// The trailing projection, unless `reclaim_only` asked to leave the fold to a
/// later rebuild.
pub open spec fn trailing_project(req: JobRequest) -> Seq<JobV> {
    if or_bool(req.reclaim_only, false) {
        Seq::empty()
    } else {
        seq![project_job_v()]
    }
}

/// A `reparse` request: the profile cohort (at least one profile), optionally
/// starting after a fetch id and capped to a number of packages, then the
/// projection unless `reclaim_only`.
pub open spec fn reparse_plan(req: JobRequest) -> Result<Seq<JobV>, Seq<char>> {
    let profiles = profiles_of(req);
    if profiles.len() == 0 {
        Err("reparse needs at least one profile"@)
    } else {
        let params = "reparse "@ + join_comma(profiles) + (match req.after {
            Some(f) => " after fetch "@ + dec_int(f as int),
            None => Seq::empty(),
        }) + (match req.packages {
            Some(n) => " (first "@ + dec(n as nat) + " package(s))"@,
            None => Seq::empty(),
        });
        Ok(
            seq![
                (
                    "reparse"@,
                    params,
                    SpecV::Reparse { profiles, packages: req.packages, after: req.after },
                ),
            ] + trailing_project(req),
        )
    }
}

fn clone_strings(v: &Vec<String>) -> (r: Vec<String>)
    ensures
        r.deep_view() == v.deep_view(),
{
    let mut out: Vec<String> = Vec::new();
    let mut i: usize = 0;
    while i < v.len()
        invariant
            i <= v@.len(),
            out@.len() == i,
            forall|j: int| 0 <= j < i ==> (#[trigger] out@[j])@ == v@[j]@,
        decreases v@.len() - i,
    {
        out.push(v[i].clone());
        i = i + 1;
    }
    proof {
        assert(out.deep_view() =~= v.deep_view());
    }
    out
}

fn profiles_list(req: &JobRequest) -> (r: Vec<String>)
    ensures
        r.deep_view() == profiles_of(*req),
{
    match &req.profiles {
        Some(v) => clone_strings(v),
        None => {
            let v: Vec<String> = Vec::new();
            proof {
                assert(v.deep_view() =~= Seq::<Seq<char>>::empty());
            }
            v
        },
    }
}

fn push_trailing_project(out: &mut Vec<PlannedJob>, req: &JobRequest)
    ensures
        jobs_v(final(out)@) == jobs_v(old(out)@) + trailing_project(*req),
{
    let reclaim = match req.reclaim_only {
        Some(b) => b,
        None => false,
    };
    if !reclaim {
        out.push(project_job());
    }
    proof {
        assert(jobs_v(final(out)@) =~= jobs_v(old(out)@) + trailing_project(*req));
    }
}

fn plan_reparse(req: &JobRequest) -> (r: Result<Vec<PlannedJob>, String>)
    ensures
        plan_v(r) == reparse_plan(*req),
{
    let profiles = profiles_list(req);
    if profiles.len() == 0 {
        return Err(String::from_str("reparse needs at least one profile"));
    }
    let mut params = String::from_str("reparse ");
    push_joined(&mut params, &profiles);
    let ghost p0 = params@;
    if let Some(from) = req.after {
        params.append(" after fetch ");
        push_i64(&mut params, from);
    }
    proof {
        assert(params@ =~= p0 + match req.after {
            Some(f) => " after fetch "@ + dec_int(f as int),
            None => Seq::empty(),
        });
    }
    let ghost p1 = params@;
    if let Some(n) = req.packages {
        params.append(" (first ");
        push_u64(&mut params, n as u64);
        params.append(" package(s))");
    }
    proof {
        assert(params@ =~= p1 + match req.packages {
            Some(n) => " (first "@ + dec(n as nat) + " package(s))"@,
            None => Seq::empty(),
        });
        assert(params@ =~= "reparse "@ + join_comma(profiles_of(*req)) + (match req.after {
            Some(f) => " after fetch "@ + dec_int(f as int),
            None => Seq::empty(),
        }) + (match req.packages {
            Some(n) => " (first "@ + dec(n as nat) + " package(s))"@,
            None => Seq::empty(),
        }));
    }
    let ghost pv = profiles.deep_view();
    let mut out: Vec<PlannedJob> = Vec::new();
    out.push(
        planned(
            "reparse",
            params,
            Spec::Reparse { profiles, packages: req.packages, after: req.after },
        ),
    );
    push_trailing_project(&mut out, req);
    proof {
        assert(jobs_v(out@) =~= ok_of(reparse_plan(*req)));
    }
    Ok(out)
}

/// A `refold` request: the profile cohort and its expected size, then the
/// projection.
pub open spec fn refold_plan(req: JobRequest) -> Result<Seq<JobV>, Seq<char>> {
    let profiles = profiles_of(req);
    if profiles.len() == 0 {
        Err("refold needs at least one profile"@)
    } else {
        Ok(
            seq![
                (
                    "refold"@,
                    "refold "@ + join_comma(profiles),
                    SpecV::Refold { profiles, expect: req.expect },
                ),
                project_job_v(),
            ],
        )
    }
}

/// A `refold-fields` request: the field ids (passed in `profiles`) and the
/// expected size, then the projection.
pub open spec fn refold_fields_plan(req: JobRequest) -> Result<Seq<JobV>, Seq<char>> {
    let fields = profiles_of(req);
    if fields.len() == 0 {
        Err("refold-fields needs at least one field id (pass via profiles)"@)
    } else {
        Ok(
            seq![
                (
                    "refold-fields"@,
                    "refold-fields "@ + join_comma(fields),
                    SpecV::RefoldFields { fields, expect: req.expect },
                ),
                project_job_v(),
            ],
        )
    }
}

/// A `refold-sections` request: the section kinds (passed in `profiles`), then
/// the projection.
pub open spec fn refold_sections_plan(req: JobRequest) -> Result<Seq<JobV>, Seq<char>> {
    let kinds = profiles_of(req);
    if kinds.len() == 0 {
        Err("refold-sections needs at least one section kind (pass via profiles)"@)
    } else {
        Ok(
            seq![
                (
                    "refold-sections"@,
                    "refold-sections "@ + join_comma(kinds),
                    SpecV::RefoldSections { kinds },
                ),
                project_job_v(),
            ],
        )
    }
}

fn plan_refold_family(req: &JobRequest, which: u8) -> (r: Result<Vec<PlannedJob>, String>)
    requires
        which < 3,
    ensures
        which == 0 ==> plan_v(r) == refold_plan(*req),
        which == 1 ==> plan_v(r) == refold_fields_plan(*req),
        which == 2 ==> plan_v(r) == refold_sections_plan(*req),
{
    let list = profiles_list(req);
    if list.len() == 0 {
        return Err(
            if which == 0 {
                String::from_str("refold needs at least one profile")
            } else if which == 1 {
                String::from_str("refold-fields needs at least one field id (pass via profiles)")
            } else {
                String::from_str(
                    "refold-sections needs at least one section kind (pass via profiles)",
                )
            },
        );
    }
    let mut out: Vec<PlannedJob> = Vec::new();
    if which == 0 {
        let mut params = String::from_str("refold ");
        push_joined(&mut params, &list);
        out.push(planned("refold", params, Spec::Refold { profiles: list, expect: req.expect }));
    } else if which == 1 {
        let mut params = String::from_str("refold-fields ");
        push_joined(&mut params, &list);
        out.push(
            planned("refold-fields", params, Spec::RefoldFields { fields: list, expect: req.expect }),
        );
    } else {
        let mut params = String::from_str("refold-sections ");
        push_joined(&mut params, &list);
        out.push(planned("refold-sections", params, Spec::RefoldSections { kinds: list }));
    }
    out.push(project_job());
    proof {
        if which == 0 {
            assert(jobs_v(out@) =~= ok_of(refold_plan(*req)));
        } else if which == 1 {
            assert(jobs_v(out@) =~= ok_of(refold_fields_plan(*req)));
        } else {
            assert(jobs_v(out@) =~= ok_of(refold_sections_plan(*req)));
        }
    }
    Ok(out)
}

/// `refold-notices refuses <n> ids (cap 1000) — …`.
pub open spec fn notices_cap_text(n: int) -> Seq<char> {
    "refold-notices refuses "@ + dec(n as nat)
        + " ids (cap 1000) — a list this long is a cohort, and a cohort wants `refold` or `refold-fields`"@
}

/// A `refold-notices` request: a named list of one to `REFOLD_NOTICES_CAP` ids,
/// the first eight shown in the params line with a count of the rest, then the
/// projection.
pub open spec fn refold_notices_plan(req: JobRequest) -> Result<Seq<JobV>, Seq<char>> {
    let notices = notices_of(req);
    if notices.len() == 0 {
        Err("refold-notices needs at least one notice id"@)
    } else if notices.len() > REFOLD_NOTICES_CAP {
        Err(notices_cap_text(notices.len() as int))
    } else {
        let shown = if notices.len() > 8 {
            8
        } else {
            notices.len() as int
        };
        let params = "refold-notices "@ + join_ints(notices.take(shown)) + if notices.len() > 8 {
            " (+"@ + dec((notices.len() - 8) as nat) + " more)"@
        } else {
            Seq::empty()
        };
        Ok(
            seq![
                ("refold-notices"@, params, SpecV::RefoldNotices { notices }),
                project_job_v(),
            ],
        )
    }
}

fn plan_refold_notices(req: &JobRequest) -> (r: Result<Vec<PlannedJob>, String>)
    ensures
        plan_v(r) == refold_notices_plan(*req),
{
    let notices: Vec<i64> = match &req.notices {
        Some(v) => v.clone(),
        None => Vec::new(),
    };
    proof {
        assert(notices@ =~= notices_of(*req));
    }
    if notices.len() == 0 {
        return Err(String::from_str("refold-notices needs at least one notice id"));
    }
    if notices.len() > REFOLD_NOTICES_CAP {
        let mut e = String::from_str("refold-notices refuses ");
        push_u64(&mut e, notices.len() as u64);
        e.append(
            " ids (cap 1000) — a list this long is a cohort, and a cohort wants `refold` or `refold-fields`",
        );
        return Err(e);
    }
    let shown: usize = if notices.len() > 8 {
        8
    } else {
        notices.len()
    };
    let mut params = String::from_str("refold-notices ");
    push_joined_ints(&mut params, &notices, shown);
    let ghost p0 = params@;
    if notices.len() > 8 {
        params.append(" (+");
        push_u64(&mut params, (notices.len() - 8) as u64);
        params.append(" more)");
    }
    proof {
        assert(params@ =~= p0 + if notices@.len() > 8 {
            " (+"@ + dec((notices@.len() - 8) as nat) + " more)"@
        } else {
            Seq::empty()
        });
    }
    let mut out: Vec<PlannedJob> = Vec::new();
    out.push(planned("refold-notices", params, Spec::RefoldNotices { notices }));
    out.push(project_job());
    proof {
        assert(jobs_v(out@) =~= ok_of(refold_notices_plan(*req)));
    }
    Ok(out)
}

// ---------------------------------------------------------------- org matching

/// A `match-org-identifiers` request: rule `r2` (the default) or `r3`, dry by
/// default, optionally capped to a number of groups.
pub open spec fn match_plan(req: JobRequest) -> Result<Seq<JobV>, Seq<char>> {
    let d = or_bool(req.dry_run, true);
    let rule = match req.rule {
        Some(r) => r@,
        None => "r2"@,
    };
    let params = if d {
        "match-org-identifiers "@ + rule + " dry-run"@
    } else {
        match req.max_groups {
            Some(cap) => "match-org-identifiers "@ + rule + " cap="@ + dec(cap as nat),
            None => "match-org-identifiers "@ + rule,
        }
    };
    if rule == "r2"@ {
        Ok(
            seq![
                (
                    "match-org-identifiers"@,
                    params,
                    SpecV::MatchOrgIdentifiersR2 { dry_run: d, max_groups: req.max_groups },
                ),
            ],
        )
    } else if rule == "r3"@ {
        Ok(
            seq![
                (
                    "match-org-identifiers"@,
                    params,
                    SpecV::MatchOrgIdentifiersR3 { dry_run: d, max_groups: req.max_groups },
                ),
            ],
        )
    } else {
        Err("match-org-identifiers: unknown rule '"@ + rule + "' (r2 or r3)"@)
    }
}

fn plan_match(req: &JobRequest) -> (r: Result<Vec<PlannedJob>, String>)
    ensures
        plan_v(r) == match_plan(*req),
{
    let d = match req.dry_run {
        Some(b) => b,
        None => true,
    };
    let rule: String = match &req.rule {
        Some(r) => r.clone(),
        None => text_of("r2"),
    };
    let is_r2 = str_eq(rule.as_str(), "r2");
    let is_r3 = str_eq(rule.as_str(), "r3");
    if !is_r2 && !is_r3 {
        let mut e = String::from_str("match-org-identifiers: unknown rule '");
        e.append(rule.as_str());
        e.append("' (r2 or r3)");
        return Err(e);
    }
    let mut params = String::from_str("match-org-identifiers ");
    params.append(rule.as_str());
    if d {
        params.append(" dry-run");
    } else if let Some(cap) = req.max_groups {
        params.append(" cap=");
        push_u64(&mut params, cap);
    }
    let spec = if is_r2 {
        Spec::MatchOrgIdentifiersR2 { dry_run: d, max_groups: req.max_groups }
    } else {
        Spec::MatchOrgIdentifiersR3 { dry_run: d, max_groups: req.max_groups }
    };
    let v = vec![planned("match-org-identifiers", params, spec)];
    proof {
        assert(jobs_v(v@) =~= ok_of(match_plan(*req)));
    }
    Ok(v)
}

/// A `scan-org-match-keys` request: dry by default, optionally capped to a
/// number of edges; the params line names the stoplist cap and the keys epoch.
pub open spec fn scan_plan(req: JobRequest, epoch: Seq<char>) -> Seq<JobV> {
    let d = or_bool(req.dry_run, true);
    let params = "scan-org-match-keys"@ + (if d {
        " dry-run"@
    } else {
        Seq::empty()
    }) + (match req.max_edges {
        Some(cap) => " cap="@ + dec(cap as nat),
        None => Seq::empty(),
    }) + " stoplist="@ + dec(SCAN_STOPLIST_CAP as nat) + " epoch="@ + epoch;
    seq![
        (
            "scan-org-match-keys"@,
            params,
            SpecV::ScanOrgMatchKeys { dry_run: d, max_edges: req.max_edges },
        ),
    ]
}

fn plan_scan(req: &JobRequest, epoch: &str) -> (r: Vec<PlannedJob>)
    ensures
        jobs_v(r@) == scan_plan(*req, epoch@),
{
    let d = match req.dry_run {
        Some(b) => b,
        None => true,
    };
    let mut params = String::from_str("scan-org-match-keys");
    if d {
        params.append(" dry-run");
    }
    proof {
        assert(params@ =~= "scan-org-match-keys"@ + (if d {
            " dry-run"@
        } else {
            Seq::empty()
        }));
    }
    let ghost p0 = params@;
    if let Some(cap) = req.max_edges {
        params.append(" cap=");
        push_u64(&mut params, cap);
    }
    proof {
        assert(params@ =~= p0 + (match req.max_edges {
            Some(cap) => " cap="@ + dec(cap as nat),
            None => Seq::empty(),
        }));
    }
    params.append(" stoplist=");
    push_u64(&mut params, SCAN_STOPLIST_CAP);
    params.append(" epoch=");
    params.append(epoch);
    let v = vec![
        planned(
            "scan-org-match-keys",
            params,
            Spec::ScanOrgMatchKeys { dry_run: d, max_edges: req.max_edges },
        ),
    ];
    proof {
        assert(jobs_v(v@) =~= scan_plan(*req, epoch@));
    }
    v
}

// ---------------------------------------------------------------- reprocess

/// A `reprocess` request: the quarantine bucket (a reason it must name, an
/// optional LIKE pattern and profile), then the projection unless `reclaim_only`.
pub open spec fn reprocess_plan(req: JobRequest) -> Result<Seq<JobV>, Seq<char>> {
    match req.reason {
        None => Err("reprocess needs a reason"@),
        Some(reason) => {
            let params = "reprocess "@ + reason@ + (match req.detail_like {
                Some(d) => " LIKE "@ + d@,
                None => Seq::empty(),
            }) + (match req.profile {
                Some(p) => " ["@ + p@ + "]"@,
                None => Seq::empty(),
            });
            Ok(
                seq![
                    (
                        "reprocess"@,
                        params,
                        SpecV::Reprocess {
                            reason: reason@,
                            detail_like: req.detail_like.deep_view(),
                            profile: req.profile.deep_view(),
                        },
                    ),
                ] + trailing_project(req),
            )
        },
    }
}

fn clone_opt(o: &Option<String>) -> (r: Option<String>)
    ensures
        r.deep_view() == o.deep_view(),
{
    match o {
        Some(s) => Some(s.clone()),
        None => None,
    }
}

fn plan_reprocess(req: &JobRequest) -> (r: Result<Vec<PlannedJob>, String>)
    ensures
        plan_v(r) == reprocess_plan(*req),
{
    let reason = match &req.reason {
        None => return Err(String::from_str("reprocess needs a reason")),
        Some(r) => r.clone(),
    };
    let mut params = String::from_str("reprocess ");
    params.append(reason.as_str());
    let ghost p0 = params@;
    if let Some(d) = &req.detail_like {
        params.append(" LIKE ");
        params.append(d.as_str());
    }
    proof {
        assert(params@ =~= p0 + (match req.detail_like {
            Some(d) => " LIKE "@ + d@,
            None => Seq::empty(),
        }));
    }
    let ghost p1 = params@;
    if let Some(p) = &req.profile {
        params.append(" [");
        params.append(p.as_str());
        params.append("]");
    }
    proof {
        assert(params@ =~= p1 + (match req.profile {
            Some(p) => " ["@ + p@ + "]"@,
            None => Seq::empty(),
        }));
    }
    let spec = Spec::Reprocess {
        reason,
        detail_like: clone_opt(&req.detail_like),
        profile: clone_opt(&req.profile),
    };
    let mut out: Vec<PlannedJob> = Vec::new();
    out.push(planned("reprocess", params, spec));
    push_trailing_project(&mut out, req);
    proof {
        assert(jobs_v(out@) =~= ok_of(reprocess_plan(*req)));
    }
    Ok(out)
}

// ---------------------------------------------------------------- daily pipeline

/// The daily pipeline in execution order: on a weekday the TED probe and its
/// process pass, then the DÖE probe and process pass, the rates refresh unless
/// one is already pending, the projection, and the reveal recheck unless one is
/// already pending.
pub open spec fn daily_plan(weekday: bool, rates_pending: bool, recheck_pending: bool) -> Seq<JobV> {
    (if weekday {
        seq![
            ("probe"@, "ted daily (probe)"@, SpecV::ProbeTed { refetch: true }),
            (
                "process"@,
                "ted daily (all)"@,
                SpecV::Process { source: "ted"@, package_kind: "daily"@, period: None },
            ),
        ]
    } else {
        Seq::empty()
    }) + seq![
        ("probe"@, "doe daily (probe)"@, SpecV::ProbeDoe),
        (
            "process"@,
            "doe daily (all)"@,
            SpecV::Process { source: "doe"@, package_kind: "daily"@, period: None },
        ),
    ] + (if rates_pending {
        Seq::empty()
    } else {
        seq![("fetch-rates"@, "ecb eurofxref-hist (daily)"@, SpecV::FetchRates)]
    }) + seq![project_job_v()] + (if recheck_pending {
        Seq::empty()
    } else {
        seq![("reveal-recheck"@, "reveal recheck (daily slice)"@, SpecV::RevealRecheck)]
    })
}

/// The jobs of the daily pipeline.
pub fn plan_daily(weekday: bool, rates_pending: bool, recheck_pending: bool) -> (r: Vec<
    PlannedJob,
>)
    ensures
        jobs_v(r@) == daily_plan(weekday, rates_pending, recheck_pending),
{
    let mut out: Vec<PlannedJob> = Vec::new();
    if weekday {
        out.push(planned("probe", text_of("ted daily (probe)"), Spec::ProbeTed { refetch: true }));
        out.push(
            planned(
                "process",
                text_of("ted daily (all)"),
                Spec::Process { source: text_of("ted"), package_kind: text_of("daily"), period: None },
            ),
        );
    }
    out.push(planned("probe", text_of("doe daily (probe)"), Spec::ProbeDoe));
    out.push(
        planned(
            "process",
            text_of("doe daily (all)"),
            Spec::Process { source: text_of("doe"), package_kind: text_of("daily"), period: None },
        ),
    );
    if !rates_pending {
        out.push(planned("fetch-rates", text_of("ecb eurofxref-hist (daily)"), Spec::FetchRates));
    }
    out.push(project_job());
    if !recheck_pending {
        out.push(
            planned("reveal-recheck", text_of("reveal recheck (daily slice)"), Spec::RevealRecheck),
        );
    }
    proof {
        assert(jobs_v(out@) =~= daily_plan(weekday, rates_pending, recheck_pending));
    }
    out
}

// ---------------------------------------------------------------- the planner

/// What the planner needs beyond the request: the keys epoch the scan names,
/// the DÖE monthly archive a range-less DÖE backfill covers, and whether a rates
/// refresh or a reveal recheck is already pending (for `daily`).
pub struct PlanEnv {
    pub name_key_epoch: String,
    pub doe_months: Vec<String>,
    pub rates_pending: bool,
    pub recheck_pending: bool,
}

/// A request whose jobs are one fixed job.
pub open spec fn one(j: JobV) -> Result<Seq<JobV>, Seq<char>> {
    Ok(seq![j])
}

/// The jobs a request asks for, in queue order, or why it is refused.
pub open spec fn plan_spec(req: JobRequest, env: PlanEnv) -> Result<Seq<JobV>, Seq<char>> {
    let k = req.kind@;
    let d = or_bool(req.dry_run, true);
    if k == "fetch"@ {
        fetch_plan(req)
    } else if k == "process"@ {
        Ok(process_plan(req))
    } else if k == "project"@ {
        Ok(project_plan(req))
    } else if k == "backfill"@ {
        backfill_plan(req, env.doe_months.deep_view())
    } else if simple_job(k).is_some() {
        one(simple_job(k).unwrap())
    } else if dry_job(k, d).is_some() {
        one(dry_job(k, d).unwrap())
    } else if k == "reparse"@ {
        reparse_plan(req)
    } else if k == "data-quality"@ {
        one(
            (
                "data-quality"@,
                if d {
                    "data-quality dry-run"@
                } else {
                    "data-quality"@
                },
                SpecV::DataQuality { confirmed: !d },
            ),
        )
    } else if k == "rehash-probe"@ {
        let n: usize = match req.packages {
            Some(p) => if p > 1 { p } else { 1 },
            None => 8,
        };
        one(
            (
                "rehash-probe"@,
                "rehash probe ("@ + dec(n as nat) + " package(s))"@,
                SpecV::RehashProbe { samples: n },
            ),
        )
    } else if k == "rederive-eur"@ {
        Ok(
            seq![
                ("rederive-eur"@, "rederive-eur"@, SpecV::RederiveEur),
                ("backfill-values"@, "backfill-values"@, SpecV::BackfillValues),
            ],
        )
    } else if k == "match-org-identifiers"@ {
        match_plan(req)
    } else if k == "restore-dropped-satellites"@ {
        one(
            (
                "restore-dropped-satellites"@,
                if d {
                    "restore-dropped-satellites dry-run"@
                } else {
                    "restore-dropped-satellites"@
                },
                SpecV::RestoreDroppedSatellites { dry_run: d, only_job: req.job },
            ),
        )
    } else if k == "scan-org-match-keys"@ {
        Ok(scan_plan(req, env.name_key_epoch@))
    } else if k == "refold"@ {
        refold_plan(req)
    } else if k == "refold-fields"@ {
        refold_fields_plan(req)
    } else if k == "refold-sections"@ {
        refold_sections_plan(req)
    } else if k == "refold-notices"@ {
        refold_notices_plan(req)
    } else if k == "mark-skipped-siblings"@ {
        one(
            (
                "mark-skipped-siblings"@,
                if d {
                    "dry-run"@
                } else {
                    "execute"@
                },
                SpecV::MarkSkippedSiblings {
                    dry_run: d,
                    expect: req.expect,
                    expect_gaps: req.expect_gaps,
                },
            ),
        )
    } else if k == "daily"@ {
        Ok(daily_plan(true, env.rates_pending, env.recheck_pending))
    } else if k == "reprocess"@ {
        reprocess_plan(req)
    } else {
        Err("unknown job kind "@ + debug_quoted(k))
    }
}

/// The planner's inputs it can walk without overflowing: a backfill's range.
pub open spec fn plan_fits(req: JobRequest) -> bool {
    req.kind@ == "backfill"@ ==> backfill_fits(req)
}

fn single(j: PlannedJob) -> (r: Result<Vec<PlannedJob>, String>)
    ensures
        plan_v(r) == one(j@),
{
    let v = vec![j];
    proof {
        assert(jobs_v(v@) =~= seq![j@]);
    }
    Ok(v)
}

/// Turn one admin request into the jobs to queue, in order: a backfill fans a
/// month range out into per-package fetches plus a trailing process and
/// projection, the refolds and reparses pair with a projection, and every
/// writer that can delete or move rows is a dry run unless told otherwise.
pub fn plan_request(req: &JobRequest, env: &PlanEnv) -> (r: Result<Vec<PlannedJob>, String>)
    requires
        plan_fits(*req),
    ensures
        plan_v(r) == plan_spec(*req, *env),
{
    let k = req.kind.as_str();
    let d = match req.dry_run {
        Some(b) => b,
        None => true,
    };
    if str_eq(k, "fetch") {
        return plan_fetch(req);
    }
    if str_eq(k, "process") {
        return Ok(plan_process(req));
    }
    if str_eq(k, "project") {
        return Ok(plan_project(req));
    }
    if str_eq(k, "backfill") {
        return plan_backfill(req, &env.doe_months);
    }
    if let Some(j) = simple_job_exec(k) {
        return single(j);
    }
    if let Some(j) = dry_job_exec(k, d) {
        return single(j);
    }
    if str_eq(k, "reparse") {
        return plan_reparse(req);
    }
    if str_eq(k, "data-quality") {
        let params = if d {
            text_of("data-quality dry-run")
        } else {
            text_of("data-quality")
        };
        return single(planned("data-quality", params, Spec::DataQuality { confirmed: !d }));
    }
    if str_eq(k, "rehash-probe") {
        let n: usize = match req.packages {
            Some(p) => if p > 1 {
                p
            } else {
                1
            },
            None => 8,
        };
        let mut params = String::from_str("rehash probe (");
        push_u64(&mut params, n as u64);
        params.append(" package(s))");
        return single(planned("rehash-probe", params, Spec::RehashProbe { samples: n }));
    }
    if str_eq(k, "rederive-eur") {
        let v = vec![
            planned("rederive-eur", text_of("rederive-eur"), Spec::RederiveEur),
            planned("backfill-values", text_of("backfill-values"), Spec::BackfillValues),
        ];
        proof {
            assert(jobs_v(v@) =~= ok_of(plan_spec(*req, *env)));
        }
        return Ok(v);
    }
    if str_eq(k, "match-org-identifiers") {
        return plan_match(req);
    }
    if str_eq(k, "restore-dropped-satellites") {
        let params = if d {
            text_of("restore-dropped-satellites dry-run")
        } else {
            text_of("restore-dropped-satellites")
        };
        return single(
            planned(
                "restore-dropped-satellites",
                params,
                Spec::RestoreDroppedSatellites { dry_run: d, only_job: req.job },
            ),
        );
    }
    if str_eq(k, "scan-org-match-keys") {
        return Ok(plan_scan(req, env.name_key_epoch.as_str()));
    }
    if str_eq(k, "refold") {
        return plan_refold_family(req, 0);
    }
    if str_eq(k, "refold-fields") {
        return plan_refold_family(req, 1);
    }
    if str_eq(k, "refold-sections") {
        return plan_refold_family(req, 2);
    }
    if str_eq(k, "refold-notices") {
        return plan_refold_notices(req);
    }
    if str_eq(k, "mark-skipped-siblings") {
        let params = if d {
            text_of("dry-run")
        } else {
            text_of("execute")
        };
        return single(
            planned(
                "mark-skipped-siblings",
                params,
                Spec::MarkSkippedSiblings {
                    dry_run: d,
                    expect: req.expect,
                    expect_gaps: req.expect_gaps,
                },
            ),
        );
    }
    if str_eq(k, "daily") {
        return Ok(plan_daily(true, env.rates_pending, env.recheck_pending));
    }
    if str_eq(k, "reprocess") {
        return plan_reprocess(req);
    }
    let mut e = String::from_str("unknown job kind ");
    let q = debug_quote(k);
    e.append(q.as_str());
    Err(e)
}

} // verus!
