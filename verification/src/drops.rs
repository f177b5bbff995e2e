//! The orphaned-satellite drop's dry-then-wet ladder: the wet arm runs only
//! against the (org, lang, key, destination) tuples the dry arm recorded, and
//! the store's answer decides what the job reports.
use vstd::prelude::*;
use crate::period::{debug_quote, debug_quoted};
use crate::text::{dec, dec_int, push_i64, push_u64};

verus! {

/// A planned drop: the org, the variant's language and key, and the
/// destination the plan was reviewed against.
pub type DropTuple = (i64, String, String, Option<i64>);

/// A planned drop as plain values.
pub type DropTupleV = (i64, Seq<char>, Seq<char>, Option<i64>);

/// One row of a recorded plan as read: each member, if it is there and of its
/// type.
pub type PlanRowV = (Option<i64>, Option<Seq<char>>, Option<Seq<char>>, Option<i64>);

/// A plan body read as JSON: the `org`, `lang`, `key` and `target` members of
/// each element of its `rows` array (none when there is no such array), or the
/// parse error's text.
pub uninterp spec fn plan_rows(body: Seq<char>) -> Result<Option<Seq<PlanRowV>>, Seq<char>>;

/// `serde_json::from_str::<Value>` on the body, then `as_array` of its `rows`
/// member and, for each element, `as_i64` of `org`, `as_str` of `lang` and
/// `key`, and `as_i64` of `target`. Claimed: the result, as plain values, is
/// `plan_rows` of the body (it depends on the text alone). Not stated: which
/// text gives which rows.
#[verifier::external_body]
fn read_plan_rows(body: &str) -> (r: Result<
    Option<Vec<(Option<i64>, Option<String>, Option<String>, Option<i64>)>>,
    String,
>)
    ensures
        match r {
            Ok(None) => plan_rows(body@) == Ok::<Option<Seq<PlanRowV>>, Seq<char>>(None),
            Ok(Some(v)) => plan_rows(body@) == Ok::<Option<Seq<PlanRowV>>, Seq<char>>(
                Some(rows_v(v@)),
            ),
            Err(e) => plan_rows(body@) == Err::<Option<Seq<PlanRowV>>, Seq<char>>(e@),
        },
{
    let v: serde_json::Value = match serde_json::from_str(body) {
        Ok(v) => v,
        Err(e) => return Err(e.to_string()),
    };
    Ok(
        v["rows"].as_array().map(
            |rows| rows.iter().map(
                |r| (r["org"].as_i64(), r["lang"].as_str().map(str::to_owned), r["key"].as_str().map(str::to_owned), r["target"].as_i64()),
            ).collect(),
        ),
    )
}

/// The view of an optional string.
pub open spec fn opt_str(o: Option<String>) -> Option<Seq<char>> {
    match o {
        Some(s) => Some(s@),
        None => None,
    }
}

/// Rows as plain values.
pub open spec fn rows_v(v: Seq<(Option<i64>, Option<String>, Option<String>, Option<i64>)>) -> Seq<
    PlanRowV,
> {
    v.map_values(
        |r: (Option<i64>, Option<String>, Option<String>, Option<i64>)| (
            r.0,
            opt_str(r.1),
            opt_str(r.2),
            r.3,
        ),
    )
}

/// The tuples of the rows that carry an org, a language and a key; a missing
/// destination stays in the tuple as none rather than dropping it.
pub open spec fn plan_tuples(rows: Seq<PlanRowV>) -> Seq<DropTupleV>
    decreases rows.len(),
{
    if rows.len() == 0 {
        Seq::empty()
    } else {
        let r = rows.last();
        plan_tuples(rows.drop_last()) + if r.0.is_some() && r.1.is_some() && r.2.is_some() {
            seq![(r.0.unwrap(), r.1.unwrap(), r.2.unwrap(), r.3)]
        } else {
            Seq::empty()
        }
    }
}

/// Tuples as plain values.
pub open spec fn tuples_v(v: Seq<DropTuple>) -> Seq<DropTupleV> {
    v.map_values(|t: DropTuple| (t.0, t.1@, t.2@, t.3))
}

/// The refusal of a wet run with no dry plan on record.
pub open spec fn no_dry_plan_text() -> Seq<char> {
    "drop-orphan-satellites --wet REFUSED: no dry plan on record. Run the dry pass first — the tuple parity between plan and run is half of what makes this safe."@
}

/// What a drop run takes from the recorded plan: a dry run nothing; a wet run
/// the plan's tuples, refused when no plan is on record; a plan without a
/// `rows` array is an empty plan.
pub open spec fn drop_plan_spec(dry_run: bool, stored: Option<Seq<char>>) -> Result<
    Option<Seq<DropTupleV>>,
    Seq<char>,
> {
    if dry_run {
        Ok(None)
    } else {
        match stored {
            None => Err(no_dry_plan_text()),
            Some(b) => match plan_rows(b) {
                Err(e) => Err(e),
                Ok(None) => Ok(Some(Seq::empty())),
                Ok(Some(rows)) => Ok(Some(plan_tuples(rows))),
            },
        }
    }
}

/// The plan a drop run compares against, from the latest recorded dry plan.
pub fn drop_plan(dry_run: bool, stored: Option<&str>) -> (r: Result<Option<Vec<DropTuple>>, String>)
    ensures
        match r {
            Ok(None) => drop_plan_spec(
                dry_run,
                match stored {
                    Some(b) => Some(b@),
                    None => None,
                },
            ) == Ok::<Option<Seq<DropTupleV>>, Seq<char>>(None),
            Ok(Some(v)) => drop_plan_spec(
                dry_run,
                match stored {
                    Some(b) => Some(b@),
                    None => None,
                },
            ) == Ok::<Option<Seq<DropTupleV>>, Seq<char>>(Some(tuples_v(v@))),
            Err(e) => drop_plan_spec(
                dry_run,
                match stored {
                    Some(b) => Some(b@),
                    None => None,
                },
            ) == Err::<Option<Seq<DropTupleV>>, Seq<char>>(e@),
        },
        !dry_run && stored.is_some() && plan_rows(stored.unwrap()@) == Ok::<
            Option<Seq<PlanRowV>>,
            Seq<char>,
        >(None) ==> (r matches Ok(Some(v)) && v@.len() == 0),
{
    if dry_run {
        return Ok(None);
    }
    let body = match stored {
        None => return Err(
            String::from_str(
                "drop-orphan-satellites --wet REFUSED: no dry plan on record. Run the dry pass first — the tuple parity between plan and run is half of what makes this safe.",
            ),
        ),
        Some(b) => b,
    };
    let rows = match read_plan_rows(body) {
        Err(e) => return Err(e),
        Ok(None) => {
            let none: Vec<DropTuple> = Vec::new();
            proof {
                assert(tuples_v(none@) =~= Seq::<DropTupleV>::empty());
            }
            return Ok(Some(none));
        },
        Ok(Some(rows)) => rows,
    };
    let ghost rv = rows_v(rows@);
    let mut rows = rows;
    let n = rows.len();
    let mut out: Vec<DropTuple> = Vec::new();
    let mut k: usize = 0;
    let ghost r0 = rows@;
    proof {
        assert(r0.skip(0) =~= r0);
        assert(tuples_v(out@) =~= plan_tuples(rv.take(0)));
    }
    while rows.len() > 0
        invariant
            rv == rows_v(r0),
            n == r0.len(),
            k <= n,
            rows@ == r0.skip(k as int),
            n == rows@.len() + k,
            tuples_v(out@) == plan_tuples(rv.take(k as int)),
        decreases rows@.len(),
    {
        let row = rows.remove(0);
        proof {
            assert(row == r0[k as int]);
            assert(rows@ =~= r0.skip(k + 1));
            assert(rv.take(k + 1).drop_last() =~= rv.take(k as int));
            assert(rv.take(k + 1).last() == rv[k as int]);
            assert(rv[k as int] == (row.0, opt_str(row.1), opt_str(row.2), row.3));
        }
        let ghost before = out@;
        match row {
            (Some(org), Some(lang), Some(key), target) => {
                out.push((org, lang, key, target));
                proof {
                    assert(tuples_v(out@) =~= tuples_v(before).push((org, lang@, key@, target)));
                }
            },
            _ => {},
        }
        k = k + 1;
    }
    proof {
        assert(rv.take(n as int) =~= rv);
    }
    Ok(Some(out))
}

/// What `{:?}` writes for an optional integer.
pub open spec fn option_debug(o: Option<i64>) -> Seq<char> {
    match o {
        Some(n) => "Some("@ + dec_int(n as int) + ")"@,
        None => "None"@,
    }
}

/// What `{:?}` writes for the first of a list of tuples: `None` for an empty
/// list, else `Some((..))` with the tuple's members as `Debug` writes them.
pub open spec fn first_debug(v: Seq<DropTupleV>) -> Seq<char> {
    if v.len() == 0 {
        "None"@
    } else {
        "Some(("@ + dec_int(v[0].0 as int) + ", "@ + debug_quoted(v[0].1) + ", "@ + debug_quoted(
            v[0].2,
        ) + ", "@ + option_debug(v[0].3) + "))"@
    }
}

/// The first planned drop of a list as `{:?}` writes it.
fn debug_first(v: &Vec<DropTuple>) -> (s: String)
    ensures
        s@ == first_debug(tuples_v(v@)),
{
    if v.len() == 0 {
        return String::from_str("None");
    }
    let t = &v[0];
    let mut s = String::from_str("Some((");
    push_i64(&mut s, t.0);
    s.append(", ");
    let q = debug_quote(t.1.as_str());
    s.append(q.as_str());
    s.append(", ");
    let q = debug_quote(t.2.as_str());
    s.append(q.as_str());
    s.append(", ");
    match t.3 {
        Some(n) => {
            s.append("Some(");
            push_i64(&mut s, n);
            s.append(")");
        },
        None => s.append("None"),
    }
    s.append("))");
    s
}

/// What the store reports of a drop run.
pub struct DropReport {
    pub stopped: bool,
    pub no_plan: bool,
    pub drifted: bool,
    pub plan_added: Vec<DropTuple>,
    pub plan_removed: Vec<DropTuple>,
    pub candidates: u64,
    pub dropped: u64,
    pub skipped_recheck: u64,
    pub stale_keys: u64,
    pub cancelled: bool,
}

/// How a drop run ends.
pub enum DropEnd {
    /// Stopped before anything was written: the job succeeds with this line.
    Stopped(String),
    /// The store or the plan refuses: the job fails with this text.
    Refused(String),
    /// A dry run: its plan is recorded, then the job succeeds with this line.
    Planned(String),
    /// A wet run ran, in full or cancelled part-way: this is its line.
    Ran(String),
}

/// The plain value of an ending.
pub enum DropEndV {
    Stopped(Seq<char>),
    Refused(Seq<char>),
    Planned(Seq<char>),
    Ran(Seq<char>),
}

/// An ending as plain values.
pub open spec fn drop_end_v(e: DropEnd) -> DropEndV {
    match e {
        DropEnd::Stopped(s) => DropEndV::Stopped(s@),
        DropEnd::Refused(s) => DropEndV::Refused(s@),
        DropEnd::Planned(s) => DropEndV::Planned(s@),
        DropEnd::Ran(s) => DropEndV::Ran(s@),
    }
}

/// How a drop run ends, in the order the store's answer is read: a stop, a
/// missing plan, a drifted plan, a dry run's plan, a cancelled wet run, and a
/// finished one.
pub open spec fn drop_end_spec(dry_run: bool, job_id: u64, r: DropReport) -> DropEndV {
    if r.stopped {
        DropEndV::Stopped("drop-orphan-satellites STOPPED by cancel — nothing written"@)
    } else if r.no_plan {
        DropEndV::Refused(
            "drop-orphan-satellites --wet REFUSED by the store: no dry plan was supplied. The tuple parity between plan and run is half of what makes this safe."@,
        )
    } else if r.drifted {
        DropEndV::Refused(
            "drop-orphan-satellites --wet REFUSED: the plan drifted. "@ + dec(r.plan_added@.len())
                + " tuple(s) appeared since the dry run and "@ + dec(r.plan_removed@.len())
                + " went away — first added "@ + first_debug(tuples_v(r.plan_added@))
                + ", first gone "@ + first_debug(tuples_v(r.plan_removed@))
                + ". Re-run the dry pass and read it before the wet one; a count would not have shown this."@,
        )
    } else if dry_run {
        DropEndV::Planned(
            "drop-orphan-satellites DRY (issue 321): "@ + dec(r.candidates as nat)
                + " variant(s) would be dropped — each unsupported by any mention on its org, not that org's own head name, and already standing on a row the org re-homed to. Plan recorded; the wet arm compares against it as (org, lang, key, destination) tuples — the destination is in the tuple because an origin's verdicts can name several, and a plan reviewed against one must not run against another."@,
        )
    } else if r.cancelled {
        DropEndV::Ran(
            "drop-orphan-satellites WET CANCELLED PART-WAY (issue 321): "@ + dec(r.dropped as nat)
                + " of "@ + dec(r.candidates as nat)
                + " candidate(s) were dropped and are COMMITTED, each with its pre-image in org_name_drops; "@
                + dec(r.skipped_recheck as nat)
                + " skipped on the re-check; the rest were never attempted. This is a PARTIAL run — re-run the dry pass to see what is left, or restore-dropped-satellites with job "@
                + dec(job_id as nat) + " to undo it."@,
        )
    } else {
        DropEndV::Ran(
            "drop-orphan-satellites WET (issue 321): "@ + dec(r.candidates as nat)
                + " candidate(s) matched the recorded plan exactly; dropped "@ + dec(
                r.dropped as nat,
            ) + ", skipped "@ + dec(r.skipped_recheck as nat)
                + " on the in-transaction re-check. Pre-images in org_name_drops — restore-dropped-satellites puts every one back. "@
                + dec(r.stale_keys as nat)
                + " org_match_keys row(s) still carry a dropped key; the next build-org-match-keys clears them."@,
        )
    }
}

/// How a drop run ends, from the store's report.
pub fn drop_end(dry_run: bool, job_id: u64, r: &DropReport) -> (e: DropEnd)
    ensures
        drop_end_v(e) == drop_end_spec(dry_run, job_id, *r),
{
    if r.stopped {
        return DropEnd::Stopped(
            String::from_str("drop-orphan-satellites STOPPED by cancel — nothing written"),
        );
    }
    if r.no_plan {
        return DropEnd::Refused(
            String::from_str(
                "drop-orphan-satellites --wet REFUSED by the store: no dry plan was supplied. The tuple parity between plan and run is half of what makes this safe.",
            ),
        );
    }
    if r.drifted {
        let mut s = String::from_str("drop-orphan-satellites --wet REFUSED: the plan drifted. ");
        push_u64(&mut s, r.plan_added.len() as u64);
        s.append(" tuple(s) appeared since the dry run and ");
        push_u64(&mut s, r.plan_removed.len() as u64);
        s.append(" went away — first added ");
        let a = debug_first(&r.plan_added);
        s.append(a.as_str());
        s.append(", first gone ");
        let g = debug_first(&r.plan_removed);
        s.append(g.as_str());
        s.append(
            ". Re-run the dry pass and read it before the wet one; a count would not have shown this.",
        );
        return DropEnd::Refused(s);
    }
    if dry_run {
        let mut s = String::from_str("drop-orphan-satellites DRY (issue 321): ");
        push_u64(&mut s, r.candidates);
        s.append(
            " variant(s) would be dropped — each unsupported by any mention on its org, not that org's own head name, and already standing on a row the org re-homed to. Plan recorded; the wet arm compares against it as (org, lang, key, destination) tuples — the destination is in the tuple because an origin's verdicts can name several, and a plan reviewed against one must not run against another.",
        );
        return DropEnd::Planned(s);
    }
    if r.cancelled {
        let mut s = String::from_str("drop-orphan-satellites WET CANCELLED PART-WAY (issue 321): ");
        push_u64(&mut s, r.dropped);
        s.append(" of ");
        push_u64(&mut s, r.candidates);
        s.append(
            " candidate(s) were dropped and are COMMITTED, each with its pre-image in org_name_drops; ",
        );
        push_u64(&mut s, r.skipped_recheck);
        s.append(
            " skipped on the re-check; the rest were never attempted. This is a PARTIAL run — re-run the dry pass to see what is left, or restore-dropped-satellites with job ",
        );
        push_u64(&mut s, job_id);
        s.append(" to undo it.");
        return DropEnd::Ran(s);
    }
    let mut s = String::from_str("drop-orphan-satellites WET (issue 321): ");
    push_u64(&mut s, r.candidates);
    s.append(" candidate(s) matched the recorded plan exactly; dropped ");
    push_u64(&mut s, r.dropped);
    s.append(", skipped ");
    push_u64(&mut s, r.skipped_recheck);
    s.append(
        " on the in-transaction re-check. Pre-images in org_name_drops — restore-dropped-satellites puts every one back. ",
    );
    push_u64(&mut s, r.stale_keys);
    s.append(
        " org_match_keys row(s) still carry a dropped key; the next build-org-match-keys clears them.",
    );
    DropEnd::Ran(s)
}

} // verus!
