//! The dry-then-wet ladder of the repair and merge jobs: a wet run executes
//! only a plan a person read, so it reads the stored dry plan first; a merge
//! re-records its residual plan; and the jobs over the match-key satellite
//! check that the satellite can answer before they plan or merge.
use vstd::prelude::*;
use crate::period::debug_quote;
use crate::period::debug_quoted;
use crate::text::{dec, dec_int, push_i64, push_u64, str_eq};

verus! {

/// A report body read as JSON: the named members as an `i64`, a `bool` and a
/// `u64` (none for a member that is absent or of another type, as a name that
/// is no member, such as the empty one, is), or the parse error's text.
pub uninterp spec fn report_members(
    body: Seq<char>,
    int_key: Seq<char>,
    flag_key: Seq<char>,
    count_key: Seq<char>,
) -> Result<(Option<i64>, Option<bool>, Option<u64>), Seq<char>>;

/// `serde_json::from_str::<Value>` on the body, then `as_i64`, `as_bool` and
/// `as_u64` of the three named members; a parse failure gives the error's
/// `to_string()`. Claimed: the result is `report_members` of the body and the
/// names (it depends on the text alone). Not stated: which text gives which
/// values.
#[verifier::external_body]
fn read_members(body: &str, int_key: &str, flag_key: &str, count_key: &str) -> (r: Result<
    (Option<i64>, Option<bool>, Option<u64>),
    String,
>)
    ensures
        match r {
            Ok(v) => report_members(body@, int_key@, flag_key@, count_key@) == Ok::<
                (Option<i64>, Option<bool>, Option<u64>),
                Seq<char>,
            >(v),
            Err(e) => report_members(body@, int_key@, flag_key@, count_key@) == Err::<
                (Option<i64>, Option<bool>, Option<u64>),
                Seq<char>,
            >(e@),
        },
{
    match serde_json::from_str::<serde_json::Value>(body) {
        Ok(v) => Ok((v[int_key].as_i64(), v[flag_key].as_bool(), v[count_key].as_u64())),
        Err(e) => Err(e.to_string()),
    }
}

/// A job that runs wet only against a reviewed dry plan.
#[derive(PartialEq, Eq, Structural, Clone, Copy, Debug)]
pub enum ReviewedPlan {
    R2Merge,
    R3Merge,
    CountryFold,
    MintedCountries,
    LabelPrefixes,
    CountryTypos,
}

impl ReviewedPlan {
    /// The report its dry run records.
    pub open spec fn report_spec(self) -> Seq<char> {
        match self {
            ReviewedPlan::R2Merge => "r2-merge-plan"@,
            ReviewedPlan::R3Merge => "r3-merge-plan"@,
            ReviewedPlan::CountryFold => "country-fold"@,
            ReviewedPlan::MintedCountries => "minted-country-repair"@,
            ReviewedPlan::LabelPrefixes => "label-prefix-repair"@,
            ReviewedPlan::CountryTypos => "country-typo-repair"@,
        }
    }

    /// The member of the plan that holds the count a wet run must match.
    pub open spec fn count_member(self) -> Seq<char> {
        match self {
            ReviewedPlan::R2Merge | ReviewedPlan::R3Merge => "plan_groups"@,
            _ => "rows"@,
        }
    }

    /// Whether a stored report must say it came from a dry run.
    pub open spec fn checks_dry(self) -> bool {
        !(self == ReviewedPlan::R2Merge || self == ReviewedPlan::R3Merge)
    }

    /// The refusal when no plan is stored.
    pub open spec fn missing_text(self) -> Seq<char> {
        match self {
            ReviewedPlan::R2Merge => "no stored r2-merge-plan — run the dry run first"@,
            ReviewedPlan::R3Merge => "no stored r3-merge-plan — run the dry run first"@,
            ReviewedPlan::CountryFold => "no stored country-fold plan — run the dry pass first"@,
            ReviewedPlan::MintedCountries =>
                "no stored minted-country-repair plan — run the dry pass first"@,
            ReviewedPlan::LabelPrefixes =>
                "no stored label-prefix-repair plan — run the dry pass first"@,
            ReviewedPlan::CountryTypos =>
                "no stored country-typo-repair plan — run the dry pass first"@,
        }
    }

    /// The refusal when the stored report is from a wet run.
    pub open spec fn wet_text(self) -> Seq<char> {
        "the stored "@ + self.report_spec()
            + " report is from a WET run, not a reviewed plan — run the dry pass again"@
    }

    /// The refusal when the plan lacks its count.
    pub open spec fn lacks_text(self) -> Seq<char> {
        match self {
            ReviewedPlan::R2Merge => "r2-merge-plan lacks plan_groups"@,
            ReviewedPlan::R3Merge => "r3-merge-plan lacks plan_groups"@,
            ReviewedPlan::CountryFold => "country-fold plan lacks rows"@,
            ReviewedPlan::MintedCountries => "minted-country-repair plan lacks rows"@,
            _ => "plan lacks rows"@,
        }
    }

    /// The report its dry run records.
    pub fn report(self) -> (r: &'static str)
        ensures
            r@ == self.report_spec(),
    {
        match self {
            ReviewedPlan::R2Merge => "r2-merge-plan",
            ReviewedPlan::R3Merge => "r3-merge-plan",
            ReviewedPlan::CountryFold => "country-fold",
            ReviewedPlan::MintedCountries => "minted-country-repair",
            ReviewedPlan::LabelPrefixes => "label-prefix-repair",
            ReviewedPlan::CountryTypos => "country-typo-repair",
        }
    }
}

/// What a run expects of its plan: a dry run nothing; a wet run the count the
/// stored dry plan recorded, refused when no plan is stored, when it does not
/// parse, when a job that checks it finds a wet run's report, or when the
/// count is missing.
pub open spec fn expected_plan_spec(
    plan: ReviewedPlan,
    dry_run: bool,
    stored: Option<Seq<char>>,
) -> Result<Option<u64>, Seq<char>> {
    if dry_run {
        Ok(None)
    } else {
        match stored {
            None => Err(plan.missing_text()),
            Some(body) => match report_members(body, ""@, "dry_run"@, plan.count_member()) {
                Err(e) => Err(e),
                Ok(f) => if plan.checks_dry() && f.1 != Some(true) {
                    Err(plan.wet_text())
                } else {
                    match f.2 {
                        Some(n) => Ok(Some(n)),
                        None => Err(plan.lacks_text()),
                    }
                },
            },
        }
    }
}

/// The expectation a run takes from its stored plan (`stored` is the latest
/// body of `plan.report()`, if any).
pub fn expected_plan(plan: ReviewedPlan, dry_run: bool, stored: Option<&str>) -> (r: Result<
    Option<u64>,
    String,
>)
    ensures
        match r {
            Ok(v) => expected_plan_spec(
                plan,
                dry_run,
                match stored {
                    Some(b) => Some(b@),
                    None => None,
                },
            ) == Ok::<Option<u64>, Seq<char>>(v),
            Err(e) => expected_plan_spec(
                plan,
                dry_run,
                match stored {
                    Some(b) => Some(b@),
                    None => None,
                },
            ) == Err::<Option<u64>, Seq<char>>(e@),
        },
{
    if dry_run {
        return Ok(None);
    }
    let body = match stored {
        None => {
            let s = String::from_str(
                match plan {
                    ReviewedPlan::R2Merge => "no stored r2-merge-plan — run the dry run first",
                    ReviewedPlan::R3Merge => "no stored r3-merge-plan — run the dry run first",
                    ReviewedPlan::CountryFold =>
                        "no stored country-fold plan — run the dry pass first",
                    ReviewedPlan::MintedCountries =>
                        "no stored minted-country-repair plan — run the dry pass first",
                    ReviewedPlan::LabelPrefixes =>
                        "no stored label-prefix-repair plan — run the dry pass first",
                    ReviewedPlan::CountryTypos =>
                        "no stored country-typo-repair plan — run the dry pass first",
                },
            );
            return Err(s);
        },
        Some(b) => b,
    };
    let member = match plan {
        ReviewedPlan::R2Merge | ReviewedPlan::R3Merge => "plan_groups",
        _ => "rows",
    };
    let fields = match read_members(body, "", "dry_run", member) {
        Err(e) => return Err(e),
        Ok(f) => f,
    };
    let checks_dry = match plan {
        ReviewedPlan::R2Merge | ReviewedPlan::R3Merge => false,
        _ => true,
    };
    let is_dry = match fields.1 {
        Some(true) => true,
        _ => false,
    };
    if checks_dry && !is_dry {
        let mut s = String::from_str("the stored ");
        s.append(plan.report());
        s.append(" report is from a WET run, not a reviewed plan — run the dry pass again");
        return Err(s);
    }
    match fields.2 {
        Some(n) => Ok(Some(n)),
        None => Err(
            String::from_str(
                match plan {
                    ReviewedPlan::R2Merge => "r2-merge-plan lacks plan_groups",
                    ReviewedPlan::R3Merge => "r3-merge-plan lacks plan_groups",
                    ReviewedPlan::CountryFold => "country-fold plan lacks rows",
                    ReviewedPlan::MintedCountries => "minted-country-repair plan lacks rows",
                    _ => "plan lacks rows",
                },
            ),
        ),
    }
}

// ---------------------------------------------------------------- merge residual

/// The plan a merge run re-records: nothing after a stop during
/// classification (it computed no plan, and a zero would clobber a reviewed
/// one), else what is left of the plan after the groups it merged.
pub fn merge_plan_record(stopped: bool, plan_groups: u64, merged_groups: u64) -> (r: Option<u64>)
    requires
        !(stopped && plan_groups == 0) ==> merged_groups <= plan_groups,
    ensures
        r == if stopped && plan_groups == 0 {
            None::<u64>
        } else {
            Some((plan_groups - merged_groups) as u64)
        },
{
    if stopped && plan_groups == 0 {
        None
    } else {
        Some(plan_groups - merged_groups)
    }
}

/// The result line of a stopped merge run of stage `r3` (else R2).
pub open spec fn merge_stop_text(r3: bool, plan_groups: nat, merged_groups: nat) -> Seq<char> {
    let stage = if r3 {
        "r3"@
    } else {
        "r2"@
    };
    if plan_groups == 0 {
        "match-org-identifiers "@ + stage
            + " STOPPED during classification: nothing was planned or written, and the previously recorded plan was left untouched"@
    } else {
        "match-org-identifiers "@ + stage + " STOPPED at a checkpoint: "@ + dec(merged_groups)
            + " of "@ + dec(plan_groups) + if r3 {
            " plan candidates merged before the stop; the residual plan was re-recorded, so a re-run continues under parity"@
        } else {
            " plan groups merged before the stop; the residual plan was re-recorded, so a re-run continues under parity"@
        }
    }
}

/// The result line of a stopped merge run.
pub fn merge_stop_message(r3: bool, plan_groups: u64, merged_groups: u64) -> (r: String)
    ensures
        r@ == merge_stop_text(r3, plan_groups as nat, merged_groups as nat),
{
    let mut s = String::from_str("match-org-identifiers ");
    s.append(if r3 { "r3" } else { "r2" });
    if plan_groups == 0 {
        s.append(
            " STOPPED during classification: nothing was planned or written, and the previously recorded plan was left untouched",
        );
        return s;
    }
    s.append(" STOPPED at a checkpoint: ");
    push_u64(&mut s, merged_groups);
    s.append(" of ");
    push_u64(&mut s, plan_groups);
    if r3 {
        s.append(
            " plan candidates merged before the stop; the residual plan was re-recorded, so a re-run continues under parity",
        );
    } else {
        s.append(
            " plan groups merged before the stop; the residual plan was re-recorded, so a re-run continues under parity",
        );
    }
    s
}

// ---------------------------------------------------------------- key satellite

/// The remedy the R3 refusals name: the wet build, since the build's own
/// default is a dry run that stores nothing.
pub open spec fn wet_build_remedy() -> Seq<char> {
    "run a WET build first: {\"kind\":\"build-org-match-keys\",\"dry_run\":false} — the default is DRY and stores nothing"@
}

/// Why an R3 merge run refuses the key satellite: a build in flight (dry or
/// wet: the probe has no covering index); keys built under another epoch
/// than the binary's (when there are keys); or, for a wet run, no keys at all.
pub open spec fn r3_refusal_spec(
    dry_run: bool,
    watermark: i64,
    keys: u64,
    epoch: Seq<char>,
    binary_epoch: Seq<char>,
) -> Option<Seq<char>> {
    if watermark != 0 {
        Some(
            "match-org-identifiers r3 REFUSED: a key build is in flight (watermark "@ + dec_int(
                watermark as int,
            )
                + "); its covering index does not exist yet, so the generic-name probe would full-scan "@
                + dec(keys as nat)
                + " rows per candidate and read a half-built keyspace"@,
        )
    } else if keys > 0 && epoch != binary_epoch {
        Some(
            "match-org-identifiers r3 REFUSED: org_match_keys carries keys epoch "@
                + debug_quoted(epoch) + ", this binary's is "@ + debug_quoted(binary_epoch)
                + " — the generic-name wall would answer about a superseded keyspace; "@
                + wet_build_remedy(),
        )
    } else if !dry_run && keys == 0 {
        Some(
            "match-org-identifiers r3 REFUSED: org_match_keys is empty, so the issue-316 generic-name wall cannot see anything — "@
                + wet_build_remedy(),
        )
    } else {
        None
    }
}

/// The key-satellite check of an R3 merge run; `None` lets it plan or merge.
pub fn r3_keys_refusal(
    dry_run: bool,
    watermark: i64,
    keys: u64,
    epoch: &str,
    binary_epoch: &str,
) -> (r: Option<String>)
    ensures
        r.is_some() == r3_refusal_spec(dry_run, watermark, keys, epoch@, binary_epoch@).is_some(),
        r.is_some() ==> r.unwrap()@ == r3_refusal_spec(
            dry_run,
            watermark,
            keys,
            epoch@,
            binary_epoch@,
        ).unwrap(),
{
    if watermark != 0 {
        let mut s = String::from_str(
            "match-org-identifiers r3 REFUSED: a key build is in flight (watermark ",
        );
        push_i64(&mut s, watermark);
        s.append(
            "); its covering index does not exist yet, so the generic-name probe would full-scan ",
        );
        push_u64(&mut s, keys);
        s.append(" rows per candidate and read a half-built keyspace");
        return Some(s);
    }
    if keys > 0 && !str_eq(epoch, binary_epoch) {
        let mut s = String::from_str(
            "match-org-identifiers r3 REFUSED: org_match_keys carries keys epoch ",
        );
        let q = debug_quote(epoch);
        s.append(q.as_str());
        s.append(", this binary's is ");
        let q2 = debug_quote(binary_epoch);
        s.append(q2.as_str());
        s.append(" — the generic-name wall would answer about a superseded keyspace; ");
        s.append(
            "run a WET build first: {\"kind\":\"build-org-match-keys\",\"dry_run\":false} — the default is DRY and stores nothing",
        );
        return Some(s);
    }
    if !dry_run && keys == 0 {
        let mut s = String::from_str(
            "match-org-identifiers r3 REFUSED: org_match_keys is empty, so the issue-316 generic-name wall cannot see anything — ",
        );
        s.append(
            "run a WET build first: {\"kind\":\"build-org-match-keys\",\"dry_run\":false} — the default is DRY and stores nothing",
        );
        return Some(s);
    }
    None
}

/// Where a key build starts.
#[derive(PartialEq, Eq, Structural, Clone, Copy, Debug)]
pub enum KeysBuildStart {
    /// A dry run measures from the start and touches nothing.
    Dry,
    /// A wet run picks up past the stored watermark.
    Resume(i64),
    /// A wet run clears the satellite and builds afresh; `epoch_changed` says a
    /// build was under way under other semantics.
    Reset { epoch_changed: bool },
}

/// Where a key build starts: a wet run resumes a build under way under the
/// binary's epoch, and otherwise resets the satellite to that epoch.
pub fn keys_build_start(dry_run: bool, watermark: i64, epoch: &str, binary_epoch: &str) -> (r:
    KeysBuildStart)
    ensures
        r == if dry_run {
            KeysBuildStart::Dry
        } else if watermark > 0 && epoch@ == binary_epoch@ {
            KeysBuildStart::Resume(watermark)
        } else {
            KeysBuildStart::Reset { epoch_changed: watermark > 0 }
        },
{
    if dry_run {
        KeysBuildStart::Dry
    } else if watermark > 0 && str_eq(epoch, binary_epoch) {
        KeysBuildStart::Resume(watermark)
    } else {
        KeysBuildStart::Reset { epoch_changed: watermark > 0 }
    }
}

// ---------------------------------------------------------------- edge scan plan

/// Why an edge scan does not go ahead: a refusal, which the job records as
/// the scan's alarm, or a report that does not parse.
#[derive(PartialEq, Eq, Debug)]
pub enum EdgePlanStop {
    Refused(String),
    Unreadable(String),
}

/// The plain value of a stop.
pub enum EdgePlanStopV {
    Refused(Seq<char>),
    Unreadable(Seq<char>),
}

/// What an edge scan expects of its plan, past the satellite checks: the
/// keys build report must stand with its build time; a dry scan then expects
/// nothing; a wet one the `would_emit` of a stored plan made against this
/// very build whose census stayed in bounds.
pub open spec fn edge_plan_spec(dry_run: bool, build: Option<Seq<char>>, plan: Option<Seq<char>>) -> Result<
    Option<u64>,
    EdgePlanStopV,
> {
    match build {
        None => Err(
            EdgePlanStopV::Refused(
                "scan-org-match-keys refused: no org-match-keys-build report — run build-org-match-keys (wet) first"@,
            ),
        ),
        Some(b) => match report_members(b, "built_at"@, ""@, ""@) {
            Err(e) => Err(EdgePlanStopV::Unreadable(e)),
            Ok(bm) => match bm.0 {
                None => Err(EdgePlanStopV::Refused("org-match-keys-build lacks built_at"@)),
                Some(built_at) => if dry_run {
                    Ok(None)
                } else {
                    match plan {
                        None => Err(
                            EdgePlanStopV::Refused(
                                "no stored org-edge-scan-plan — run the dry scan first"@,
                            ),
                        ),
                        Some(p) => match report_members(p, "keys_built_at"@, "bounds_ok"@, "would_emit"@) {
                            Err(e) => Err(EdgePlanStopV::Unreadable(e)),
                            Ok(pm) => if pm.0 != Some(built_at) {
                                Err(
                                    EdgePlanStopV::Refused(
                                        "org-edge-scan-plan predates the current keys build — rerun the dry scan and review it"@,
                                    ),
                                )
                            } else if pm.1 != Some(true) {
                                Err(
                                    EdgePlanStopV::Refused(
                                        "org-edge-scan-plan bounds_ok is false — an out-of-bounds census means the semantics are wrong; re-plan, there is no override"@,
                                    ),
                                )
                            } else {
                                match pm.2 {
                                    None => Err(
                                        EdgePlanStopV::Refused(
                                            "org-edge-scan-plan lacks would_emit"@,
                                        ),
                                    ),
                                    Some(n) => Ok(Some(n)),
                                }
                            },
                        },
                    }
                },
            },
        },
    }
}

/// The plain value of a gate's answer.
pub open spec fn edge_answer_v(r: Result<Option<u64>, EdgePlanStop>) -> Result<Option<u64>, EdgePlanStopV> {
    match r {
        Ok(v) => Ok(v),
        Err(EdgePlanStop::Refused(s)) => Err(EdgePlanStopV::Refused(s@)),
        Err(EdgePlanStop::Unreadable(s)) => Err(EdgePlanStopV::Unreadable(s@)),
    }
}

/// The edge scan's plan gate, from the latest keys build report and the
/// latest stored edge-scan plan.
pub fn edge_plan_gate(dry_run: bool, build: Option<&str>, plan: Option<&str>) -> (r: Result<
    Option<u64>,
    EdgePlanStop,
>)
    ensures
        edge_answer_v(r) == edge_plan_spec(
            dry_run,
            match build {
                Some(b) => Some(b@),
                None => None,
            },
            match plan {
                Some(p) => Some(p@),
                None => None,
            },
        ),
{
    let b = match build {
        None => return Err(
            EdgePlanStop::Refused(
                String::from_str(
                    "scan-org-match-keys refused: no org-match-keys-build report — run build-org-match-keys (wet) first",
                ),
            ),
        ),
        Some(b) => b,
    };
    let bm = match read_members(b, "built_at", "", "") {
        Err(e) => return Err(EdgePlanStop::Unreadable(e)),
        Ok(m) => m,
    };
    let built_at = match bm.0 {
        None => return Err(
            EdgePlanStop::Refused(String::from_str("org-match-keys-build lacks built_at")),
        ),
        Some(t) => t,
    };
    if dry_run {
        return Ok(None);
    }
    let p = match plan {
        None => return Err(
            EdgePlanStop::Refused(
                String::from_str("no stored org-edge-scan-plan — run the dry scan first"),
            ),
        ),
        Some(p) => p,
    };
    let pm = match read_members(p, "keys_built_at", "bounds_ok", "would_emit") {
        Err(e) => return Err(EdgePlanStop::Unreadable(e)),
        Ok(m) => m,
    };
    let same_build = match pm.0 {
        Some(t) => t == built_at,
        None => false,
    };
    if !same_build {
        return Err(
            EdgePlanStop::Refused(
                String::from_str(
                    "org-edge-scan-plan predates the current keys build — rerun the dry scan and review it",
                ),
            ),
        );
    }
    let in_bounds = match pm.1 {
        Some(true) => true,
        _ => false,
    };
    if !in_bounds {
        return Err(
            EdgePlanStop::Refused(
                String::from_str(
                    "org-edge-scan-plan bounds_ok is false — an out-of-bounds census means the semantics are wrong; re-plan, there is no override",
                ),
            ),
        );
    }
    match pm.2 {
        None => Err(EdgePlanStop::Refused(String::from_str("org-edge-scan-plan lacks would_emit"))),
        Some(n) => Ok(Some(n)),
    }
}

} // verus!
