//! The re-homing apply's dry-then-wet ladder: a wet run executes the move
//! list a person read, compared tuple-wise, and its result line tells a dry
//! preview from a run that moved mentions.
use vstd::prelude::*;
use crate::text::{dec, push_u64};

verus! {

/// A planned move: the notice, its section, the org it leaves and the org it
/// lands on.
pub type Move = (i64, String, i64, i64);

/// A move as plain values.
pub type MoveV = (i64, Seq<char>, i64, i64);

/// One element of a plan's move list as read: each member, if it is there and
/// of its type.
pub type MoveRowV = (Option<i64>, Option<Seq<char>>, Option<i64>, Option<i64>);

/// A plan body read as JSON: for each element of its `plan` array, the
/// `notice`, `section`, `from` and `to` members (none when there is no such
/// array), or the parse error's text.
pub uninterp spec fn plan_moves(body: Seq<char>) -> Result<Option<Seq<MoveRowV>>, Seq<char>>;

/// The view of an optional string.
pub open spec fn opt_str(o: Option<String>) -> Option<Seq<char>> {
    match o {
        Some(s) => Some(s@),
        None => None,
    }
}

/// Move rows as plain values.
pub open spec fn move_rows_v(v: Seq<(Option<i64>, Option<String>, Option<i64>, Option<i64>)>) -> Seq<
    MoveRowV,
> {
    v.map_values(
        |r: (Option<i64>, Option<String>, Option<i64>, Option<i64>)| (r.0, opt_str(r.1), r.2, r.3),
    )
}

/// `serde_json::from_str::<Value>` on the body, then `as_array` of its `plan`
/// member and, for each element, `as_i64` of `notice`, `as_str` of `section`
/// and `as_i64` of `from` and `to`. Claimed: the result, as plain values, is
/// `plan_moves` of the body (it depends on the text alone). Not stated: which
/// text gives which moves.
#[verifier::external_body]
fn read_plan_moves(body: &str) -> (r: Result<
    Option<Vec<(Option<i64>, Option<String>, Option<i64>, Option<i64>)>>,
    String,
>)
    ensures
        match r {
            Ok(None) => plan_moves(body@) == Ok::<Option<Seq<MoveRowV>>, Seq<char>>(None),
            Ok(Some(v)) => plan_moves(body@) == Ok::<Option<Seq<MoveRowV>>, Seq<char>>(
                Some(move_rows_v(v@)),
            ),
            Err(e) => plan_moves(body@) == Err::<Option<Seq<MoveRowV>>, Seq<char>>(e@),
        },
{
    let v: serde_json::Value = match serde_json::from_str(body) {
        Ok(v) => v,
        Err(e) => return Err(e.to_string()),
    };
    Ok(
        v["plan"].as_array().map(
            |moves| moves.iter().map(
                |m| (m["notice"].as_i64(), m["section"].as_str().map(str::to_owned), m["from"].as_i64(), m["to"].as_i64()),
            ).collect(),
        ),
    )
}

/// A move row with its gaps filled as the wet arm fills them: a missing id
/// reads -1, a missing section the empty string.
pub open spec fn move_of(r: MoveRowV) -> MoveV {
    (
        match r.0 {
            Some(n) => n,
            None => -1i64,
        },
        match r.1 {
            Some(s) => s,
            None => Seq::empty(),
        },
        match r.2 {
            Some(n) => n,
            None => -1i64,
        },
        match r.3 {
            Some(n) => n,
            None => -1i64,
        },
    )
}

/// Moves as plain values.
pub open spec fn moves_v(v: Seq<Move>) -> Seq<MoveV> {
    v.map_values(|m: Move| (m.0, m.1@, m.2, m.3))
}

/// What a re-homing run expects: a dry run nothing; a wet run the recorded
/// move list, refused when none is recorded or it has no move list.
pub open spec fn rehoming_plan_spec(dry_run: bool, stored: Option<Seq<char>>) -> Result<
    Option<Seq<MoveV>>,
    Seq<char>,
> {
    if dry_run {
        Ok(None)
    } else {
        match stored {
            None => Err("no stored rehoming-plan — run the dry pass first"@),
            Some(b) => match plan_moves(b) {
                Err(e) => Err(e),
                Ok(None) => Err("plan lacks moves"@),
                Ok(Some(rows)) => Ok(Some(rows.map_values(|r: MoveRowV| move_of(r)))),
            },
        }
    }
}

/// The move list a re-homing run executes against, from the latest recorded
/// plan.
pub fn rehoming_plan(dry_run: bool, stored: Option<&str>) -> (r: Result<Option<Vec<Move>>, String>)
    ensures
        match r {
            Ok(None) => rehoming_plan_spec(
                dry_run,
                match stored {
                    Some(b) => Some(b@),
                    None => None,
                },
            ) == Ok::<Option<Seq<MoveV>>, Seq<char>>(None),
            Ok(Some(v)) => rehoming_plan_spec(
                dry_run,
                match stored {
                    Some(b) => Some(b@),
                    None => None,
                },
            ) == Ok::<Option<Seq<MoveV>>, Seq<char>>(Some(moves_v(v@))),
            Err(e) => rehoming_plan_spec(
                dry_run,
                match stored {
                    Some(b) => Some(b@),
                    None => None,
                },
            ) == Err::<Option<Seq<MoveV>>, Seq<char>>(e@),
        },
{
    if dry_run {
        return Ok(None);
    }
    let body = match stored {
        None => return Err(String::from_str("no stored rehoming-plan — run the dry pass first")),
        Some(b) => b,
    };
    let rows = match read_plan_moves(body) {
        Err(e) => return Err(e),
        Ok(None) => return Err(String::from_str("plan lacks moves")),
        Ok(Some(rows)) => rows,
    };
    let ghost rv = move_rows_v(rows@);
    let ghost r0 = rows@;
    let mut rows = rows;
    let n = rows.len();
    let mut out: Vec<Move> = Vec::new();
    let mut k: usize = 0;
    proof {
        assert(r0.skip(0) =~= r0);
        assert(moves_v(out@) =~= rv.take(0).map_values(|r: MoveRowV| move_of(r)));
    }
    while rows.len() > 0
        invariant
            rv == move_rows_v(r0),
            n == r0.len(),
            k <= n,
            rows@ == r0.skip(k as int),
            n == rows@.len() + k,
            out@.len() == k,
            moves_v(out@) == rv.take(k as int).map_values(|r: MoveRowV| move_of(r)),
        decreases rows@.len(),
    {
        let row = rows.remove(0);
        proof {
            assert(row == r0[k as int]);
            assert(rows@ =~= r0.skip(k + 1));
            assert(rv[k as int] == (row.0, opt_str(row.1), row.2, row.3));
        }
        let notice = match row.0 {
            Some(x) => x,
            None => -1i64,
        };
        let section = match row.1 {
            Some(s) => s,
            None => String::new(),
        };
        let from = match row.2 {
            Some(x) => x,
            None => -1i64,
        };
        let to = match row.3 {
            Some(x) => x,
            None => -1i64,
        };
        let ghost before = out@;
        out.push((notice, section, from, to));
        proof {
            assert(moves_v(out@) =~= moves_v(before).push((notice, section@, from, to)));
            assert(move_of(rv[k as int]) == (notice, section@, from, to));
            assert(rv.take(k + 1).map_values(|r: MoveRowV| move_of(r)) =~= rv.take(k as int).map_values(
                |r: MoveRowV| move_of(r),
            ).push(move_of(rv[k as int])));
        }
        k = k + 1;
    }
    proof {
        assert(rv.take(n as int) =~= rv);
    }
    Ok(Some(out))
}

/// What the store reports of a re-homing run.
pub struct RehomingReport {
    pub pending: u64,
    pub eligible: u64,
    pub moved: u64,
    pub parties: u64,
    pub bid_parties: u64,
    pub tenders: u64,
    pub refold_notices: u64,
    pub noop: u64,
    pub missing_target: u64,
}

/// The result line of a re-homing run. The re-queued notice count exists only
/// on the wet path, so a dry run names what the wet run will do instead of
/// printing a zero that reads as a finding.
pub open spec fn rehoming_summary_text(dry_run: bool, r: RehomingReport) -> Seq<char> {
    "apply-rehoming (issue 317 Unit A)"@ + (if dry_run {
        " DRY RUN — plan recorded, nothing written"@
    } else {
        Seq::empty()
    }) + ": "@ + dec(r.pending as nat) + " pending verdicts, "@ + dec(r.eligible as nat)
        + " eligible; "@ + dec(r.moved as nat) + " mentions "@ + (if dry_run {
        "would move"@
    } else {
        "moved"@
    }) + " ("@ + dec(r.parties as nat) + " party and "@ + dec(r.bid_parties as nat)
        + " bid-party rows follow them across "@ + dec(r.tenders as nat) + " tenders"@ + (if dry_run {
        ", whose causing notices the wet run will re-queue"@
    } else {
        ", whose "@ + dec(r.refold_notices as nat) + " notices are re-queued"@
    }) + " so the fold re-derives the winners); "@ + dec(r.noop as nat) + " no-ops, "@ + dec(
        r.missing_target as nat,
    ) + " name a target org that does not exist or no target at all (v1 never mints one)"@
}

/// The result line of a re-homing run.
pub fn rehoming_summary(dry_run: bool, r: &RehomingReport) -> (s: String)
    ensures
        s@ == rehoming_summary_text(dry_run, *r),
{
    let mut s = String::from_str("apply-rehoming (issue 317 Unit A)");
    if dry_run {
        s.append(" DRY RUN — plan recorded, nothing written");
    }
    s.append(": ");
    push_u64(&mut s, r.pending);
    s.append(" pending verdicts, ");
    push_u64(&mut s, r.eligible);
    s.append(" eligible; ");
    push_u64(&mut s, r.moved);
    s.append(" mentions ");
    s.append(if dry_run { "would move" } else { "moved" });
    s.append(" (");
    push_u64(&mut s, r.parties);
    s.append(" party and ");
    push_u64(&mut s, r.bid_parties);
    s.append(" bid-party rows follow them across ");
    push_u64(&mut s, r.tenders);
    s.append(" tenders");
    if dry_run {
        s.append(", whose causing notices the wet run will re-queue");
    } else {
        s.append(", whose ");
        push_u64(&mut s, r.refold_notices);
        s.append(" notices are re-queued");
    }
    s.append(" so the fold re-derives the winners); ");
    push_u64(&mut s, r.noop);
    s.append(" no-ops, ");
    push_u64(&mut s, r.missing_target);
    s.append(" name a target org that does not exist or no target at all (v1 never mints one)");
    s
}

} // verus!
