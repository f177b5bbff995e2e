//! The refusals and routing decisions that jobs take between their store reads:
//! what each one checks, and the exact words it answers with.
use vstd::prelude::*;
use crate::alarms::{edge_alarm, edge_shrunk, edge_spiked};
use crate::jobs::join_comma;
use crate::period::{debug_quote, debug_quoted};
use crate::text::{dec, dec_int, push_i64, push_u64, text_of};
use crate::windows::DQ_WINDOW;

verus! {

// ---------------------------------------------------------------- sibling marking

/// The refusal when the markable count is not the one the operator expected.
pub open spec fn sibling_shortfall_text(found: u64, expect: u64) -> Seq<char> {
    "mark-skipped-siblings aborted: "@ + dec(found as nat) + " rows match, expected exactly "@
        + dec(expect as nat)
        + " (nothing was written). A SHORTFALL is a finding, not a predicate to widen: the missing rows are held siblings whose English original did not parse — held-but-unextracted, and they must stay outstanding until something reads them."@
}

/// The first gate of `mark-skipped-siblings`: when an expected count is named,
/// the markable rows must be exactly that many.
pub fn sibling_count_check(expect: Option<u64>, found: u64) -> (r: Result<(), String>)
    ensures
        r.is_ok() == (expect.is_none() || expect.unwrap() == found),
        r.is_err() ==> r.unwrap_err()@ == sibling_shortfall_text(found, expect.unwrap()),
{
    match expect {
        Some(e) => if found != e {
            let mut s = String::from_str("mark-skipped-siblings aborted: ");
            push_u64(&mut s, found);
            s.append(" rows match, expected exactly ");
            push_u64(&mut s, e);
            s.append(
                " (nothing was written). A SHORTFALL is a finding, not a predicate to widen: the missing rows are held siblings whose English original did not parse — held-but-unextracted, and they must stay outstanding until something reads them.",
            );
            Err(s)
        } else {
            Ok(())
        },
        None => Ok(()),
    }
}

/// A dry run's answer: both the markable count and the guard's rejections.
pub open spec fn sibling_dry_text(found: u64, no_original: i64, unparsed: i64) -> Seq<char> {
    "dry run: "@ + dec(found as nat) + " rows would be marked skipped-by-policy; "@ + dec_int(
        no_original + unparsed,
    ) + " in scope REJECTED by the sibling guard ("@ + dec_int(no_original as int)
        + " with NO English original at all — a fetch/ingest gap; "@ + dec_int(unparsed as int)
        + " whose original is held but did not parse — a parse failure). These are held-but-unextracted, not lost: we have the bytes and failed to read them. Two separate investigations, and never a predicate to widen — an execute must name this count in `expect_gaps` rather than pass it"@
}

/// The refusal of an execute that names no expected count.
pub open spec fn sibling_no_expect_text() -> Seq<char> {
    "mark-skipped-siblings aborted: an execute requires an explicit `expect` (nothing was written). A run that writes hundreds of thousands of rows must name the population it believes it is writing, so the count can disagree with it."@
}

/// The refusal when the guard's rejections are not the number named.
pub open spec fn sibling_gap_text(no_original: i64, unparsed: i64, allowed: u64) -> Seq<char> {
    "mark-skipped-siblings aborted: the sibling guard rejects "@ + dec_int(no_original + unparsed)
        + " in-scope rows, expected exactly "@ + dec(allowed as nat) + " (nothing was written) — "@
        + dec_int(no_original as int)
        + " have NO English original at all (a fetch/ingest gap) and "@ + dec_int(unparsed as int)
        + " have one that is held but did not parse (a parse failure). Two different investigations. Both must stay outstanding: they are held-but-unextracted, not lost, and this is never a predicate to widen."@
}

/// The second gate of `mark-skipped-siblings`, once the guard's rejections are
/// counted: a dry run answers with both counts; an execute must name its
/// expected count, and the rejections must be exactly the number it names
/// (none when it names none). `Ok(None)` lets the marking proceed.
pub fn sibling_gap_gate(
    dry_run: bool,
    expect: Option<u64>,
    expect_gaps: Option<u64>,
    found: u64,
    no_original: i64,
    unparsed: i64,
) -> (r: Result<Option<String>, String>)
    requires
        i64::MIN <= no_original + unparsed <= i64::MAX,
    ensures
        dry_run ==> r.is_ok() && r.unwrap().is_some() && r.unwrap().unwrap()@ == sibling_dry_text(
            found,
            no_original,
            unparsed,
        ),
        !dry_run && expect.is_none() ==> r.is_err() && r.unwrap_err()@ == sibling_no_expect_text(),
        !dry_run && expect.is_some() && no_original + unparsed != (match expect_gaps {
            Some(g) => g,
            None => 0,
        }) as i64 ==> r.is_err() && r.unwrap_err()@ == sibling_gap_text(
            no_original,
            unparsed,
            match expect_gaps {
                Some(g) => g,
                None => 0,
            },
        ),
        !dry_run && expect.is_some() && no_original + unparsed == (match expect_gaps {
            Some(g) => g,
            None => 0,
        }) as i64 ==> r.is_ok() && r.unwrap().is_none(),
{
    let gaps = no_original + unparsed;
    if dry_run {
        let mut s = String::from_str("dry run: ");
        push_u64(&mut s, found);
        s.append(" rows would be marked skipped-by-policy; ");
        push_i64(&mut s, gaps);
        s.append(" in scope REJECTED by the sibling guard (");
        push_i64(&mut s, no_original);
        s.append(" with NO English original at all — a fetch/ingest gap; ");
        push_i64(&mut s, unparsed);
        s.append(
            " whose original is held but did not parse — a parse failure). These are held-but-unextracted, not lost: we have the bytes and failed to read them. Two separate investigations, and never a predicate to widen — an execute must name this count in `expect_gaps` rather than pass it",
        );
        return Ok(Some(s));
    }
    if expect.is_none() {
        return Err(
            String::from_str(
                "mark-skipped-siblings aborted: an execute requires an explicit `expect` (nothing was written). A run that writes hundreds of thousands of rows must name the population it believes it is writing, so the count can disagree with it.",
            ),
        );
    }
    let allowed: u64 = match expect_gaps {
        Some(g) => g,
        None => 0,
    };
    if gaps != allowed as i64 {
        let mut s = String::from_str("mark-skipped-siblings aborted: the sibling guard rejects ");
        push_i64(&mut s, gaps);
        s.append(" in-scope rows, expected exactly ");
        push_u64(&mut s, allowed);
        s.append(" (nothing was written) — ");
        push_i64(&mut s, no_original);
        s.append(" have NO English original at all (a fetch/ingest gap) and ");
        push_i64(&mut s, unparsed);
        s.append(
            " have one that is held but did not parse (a parse failure). Two different investigations. Both must stay outstanding: they are held-but-unextracted, not lost, and this is never a predicate to widen.",
        );
        return Err(s);
    }
    Ok(None)
}

/// The gap count an execute must meet: the one named, else none.
pub open spec fn allowed_gaps(expect_gaps: Option<u64>) -> u64 {
    match expect_gaps {
        Some(g) => g,
        None => 0,
    }
}

/// Both gates of `mark-skipped-siblings` in the order the job takes them,
/// over the two counts the store answers: `Ok(None)` lets the marking run,
/// `Ok(Some(..))` is the dry run's answer, an error aborts with nothing written.
pub open spec fn sibling_gates_spec(
    dry_run: bool,
    expect: Option<u64>,
    expect_gaps: Option<u64>,
    found: u64,
    no_original: i64,
    unparsed: i64,
) -> Result<Option<Seq<char>>, Seq<char>> {
    if expect.is_some() && expect.unwrap() != found {
        Err(sibling_shortfall_text(found, expect.unwrap()))
    } else if dry_run {
        Ok(Some(sibling_dry_text(found, no_original, unparsed)))
    } else if expect.is_none() {
        Err(sibling_no_expect_text())
    } else if no_original + unparsed != allowed_gaps(expect_gaps) as i64 {
        Err(sibling_gap_text(no_original, unparsed, allowed_gaps(expect_gaps)))
    } else {
        Ok(None)
    }
}

/// Both gates of `mark-skipped-siblings`. Rows are marked only when this
/// answers `Ok(None)`: an execute whose named count is the markable count and
/// whose guard rejects exactly the named number of rows; a dry run never marks.
pub fn sibling_gates(
    dry_run: bool,
    expect: Option<u64>,
    expect_gaps: Option<u64>,
    found: u64,
    no_original: i64,
    unparsed: i64,
) -> (r: Result<Option<String>, String>)
    requires
        i64::MIN <= no_original + unparsed <= i64::MAX,
    ensures
        match r {
            Ok(None) => sibling_gates_spec(dry_run, expect, expect_gaps, found, no_original, unparsed)
                == Ok::<Option<Seq<char>>, Seq<char>>(None),
            Ok(Some(s)) => sibling_gates_spec(dry_run, expect, expect_gaps, found, no_original, unparsed)
                == Ok::<Option<Seq<char>>, Seq<char>>(Some(s@)),
            Err(e) => sibling_gates_spec(dry_run, expect, expect_gaps, found, no_original, unparsed)
                == Err::<Option<Seq<char>>, Seq<char>>(e@),
        },
        (r matches Ok(None)) <==> (!dry_run && expect == Some(found) && no_original + unparsed
            == allowed_gaps(expect_gaps) as i64),
{
    match sibling_count_check(expect, found) {
        Err(e) => Err(e),
        Ok(()) => sibling_gap_gate(dry_run, expect, expect_gaps, found, no_original, unparsed),
    }
}

// ---------------------------------------------------------------- key satellite

/// Why a job that reads the match-key satellite refuses to run: no covering
/// index, a key build still in flight, or keys built under another epoch than
/// the binary's.
pub open spec fn keys_refusal(
    job: Seq<char>,
    has_index: bool,
    watermark: i64,
    epoch: Seq<char>,
    binary_epoch: Seq<char>,
) -> Option<Seq<char>> {
    if !has_index {
        Some(job + " refused: no org_match_keys_kk index — run build-org-match-keys (wet) first"@)
    } else if watermark != 0 {
        Some(
            job + " refused: keys build in flight (watermark "@ + dec_int(watermark as int)
                + ") — let it finish or rerun build-org-match-keys"@,
        )
    } else if epoch != binary_epoch {
        Some(
            job + " refused: keys built under epoch "@ + debug_quoted(epoch)
                + ", this binary keys under "@ + debug_quoted(binary_epoch)
                + " — rerun build-org-match-keys (wet) first"@,
        )
    } else {
        None
    }
}

/// The precondition check of a job over the match-key satellite; `None` lets it
/// run.
pub fn keys_satellite_refusal(
    job: &str,
    has_index: bool,
    watermark: i64,
    epoch: &str,
    binary_epoch: &str,
) -> (r: Option<String>)
    ensures
        r.is_some() == keys_refusal(job@, has_index, watermark, epoch@, binary_epoch@).is_some(),
        r.is_some() ==> r.unwrap()@ == keys_refusal(
            job@,
            has_index,
            watermark,
            epoch@,
            binary_epoch@,
        ).unwrap(),
{
    if !has_index {
        let mut s = String::from_str(job);
        s.append(" refused: no org_match_keys_kk index — run build-org-match-keys (wet) first");
        return Some(s);
    }
    if watermark != 0 {
        let mut s = String::from_str(job);
        s.append(" refused: keys build in flight (watermark ");
        push_i64(&mut s, watermark);
        s.append(") — let it finish or rerun build-org-match-keys");
        return Some(s);
    }
    if !crate::text::str_eq(epoch, binary_epoch) {
        let mut s = String::from_str(job);
        s.append(" refused: keys built under epoch ");
        let q = debug_quote(epoch);
        s.append(q.as_str());
        s.append(", this binary keys under ");
        let q2 = debug_quote(binary_epoch);
        s.append(q2.as_str());
        s.append(" — rerun build-org-match-keys (wet) first");
        return Some(s);
    }
    None
}

// ---------------------------------------------------------------- projection

/// How a `project` job runs: whether it first clears the change feed, and
/// whether it folds the whole corpus. An interrupted rebuild (`salvage`) is
/// finished whatever the job's own flag says, and the feed is cleared only on a
/// whole-corpus fold.
pub fn project_route(rebuild: bool, clear_changes: bool, salvage: bool) -> (r: (bool, bool))
    ensures
        r.1 == (salvage || rebuild),
        r.0 == (clear_changes && (salvage || rebuild)),
{
    let full = salvage || rebuild;
    (clear_changes && full, full)
}

/// Whether a stale rebuild flag may be cleared: not set, nothing to do; set over
/// an intact tender layer, clear it; set over an empty layer, a rebuild is
/// mid-flight, so refuse. The text is the job's result line.
pub fn clear_flag_gate(was_set: bool, layer_intact: bool) -> (r: Result<(bool, String), String>)
    ensures
        !was_set ==> r.is_ok() && !r.unwrap().0 && r.unwrap().1@
            == "rebuild_in_progress was already clear — nothing to do"@,
        was_set && !layer_intact ==> r.is_err() && r.unwrap_err()@
            == "refusing to clear rebuild_in_progress: the tenders table is EMPTY, so a rebuild is genuinely mid-flight and its salvage would be lost — let it finish (nothing was written)"@,
        was_set && layer_intact ==> r.is_ok() && r.unwrap().0 && r.unwrap().1@
            == "stale rebuild_in_progress CLEARED (plan retired) — projections route incremental again"@,
{
    if !was_set {
        return Ok((false, text_of("rebuild_in_progress was already clear — nothing to do")));
    }
    if !layer_intact {
        return Err(
            text_of(
                "refusing to clear rebuild_in_progress: the tenders table is EMPTY, so a rebuild is genuinely mid-flight and its salvage would be lost — let it finish (nothing was written)",
            ),
        );
    }
    Ok(
        (
            true,
            text_of(
                "stale rebuild_in_progress CLEARED (plan retired) — projections route incremental again",
            ),
        ),
    )
}

// ---------------------------------------------------------------- tripwire 6

/// The job-row line of a tripwire verdict.
pub open spec fn tripwire_line(alarm: Option<Seq<char>>, baseline: i64) -> Seq<char> {
    match alarm {
        Some(a) => "; TRIPWIRE 6 "@ + a + " (baseline "@ + dec_int(baseline as int) + ")"@,
        None => Seq::empty(),
    }
}

/// Tripwire 6's evaluate step: capped and stopped runs are left alone (`None`);
/// a completed, uncapped wet scan gets the edge alarm against the baseline
/// (judged against the reviewed plan, or the census' own count without one) and
/// its job-row line.
pub fn edge_tripwire(
    capped: bool,
    stopped: bool,
    baseline: i64,
    before_writes: i64,
    total: i64,
    expect_edges: Option<u64>,
    would_emit: u64,
    ceiling: u64,
) -> (r: Option<(Option<&'static str>, String)>)
    requires
        i64::MIN <= total - baseline <= i64::MAX,
        (match expect_edges {
            Some(e) => e,
            None => would_emit,
        }) <= u64::MAX / 2,
    ensures
        (capped || stopped) ==> r.is_none(),
        !(capped || stopped) ==> r.is_some() && ({
            let plan = match expect_edges {
                Some(e) => e,
                None => would_emit,
            };
            let (alarm, line) = r.unwrap();
            &&& edge_shrunk(baseline as int, before_writes as int) ==> alarm.is_some()
                && alarm.unwrap()@ == "SHRUNK"@
            &&& !edge_shrunk(baseline as int, before_writes as int) && edge_spiked(
                baseline as int,
                total as int,
                plan as int,
                ceiling as int,
            ) ==> alarm.is_some() && alarm.unwrap()@ == "SPIKE"@
            &&& !edge_shrunk(baseline as int, before_writes as int) && !edge_spiked(
                baseline as int,
                total as int,
                plan as int,
                ceiling as int,
            ) ==> alarm.is_none()
            &&& line@ == tripwire_line(
                match alarm {
                    Some(a) => Some(a@),
                    None => None,
                },
                baseline,
            )
        }),
{
    if capped || stopped {
        return None;
    }
    let plan = match expect_edges {
        Some(e) => e,
        None => would_emit,
    };
    let alarm = edge_alarm(baseline, before_writes, total, plan, ceiling);
    let line = match alarm {
        Some(a) => {
            let mut s = String::from_str("; TRIPWIRE 6 ");
            s.append(a);
            s.append(" (baseline ");
            push_i64(&mut s, baseline);
            s.append(")");
            s
        },
        None => String::new(),
    };
    Some((alarm, line))
}

/// `"key":` and a decimal integer, as a compact JSON member.
pub open spec fn json_int_member(key: Seq<char>, v: int) -> Seq<char> {
    "\""@ + key + "\":"@ + dec_int(v)
}

/// The alarm surface's body after a wet scan that raised `alarm`: the alarm
/// with the baseline, the edge count before the run, the total and the time,
/// as compact JSON in key order.
pub open spec fn alarm_report_text(alarm: Seq<char>, baseline: i64, edges_before_run: u64, total: i64, at: i64) -> Seq<char> {
    "{\"alarm\":\""@ + alarm + "\","@ + json_int_member("at"@, at as int) + ","@
        + json_int_member("baseline_before"@, baseline as int) + ","@ + json_int_member(
        "edges_before_run"@,
        edges_before_run as int,
    ) + ","@ + json_int_member("total"@, total as int) + "}"@
}

/// The alarm surface's body after a clean wet scan: a clear verdict with the
/// total and the time, as compact JSON in key order.
pub open spec fn clear_report_text(total: i64, at: i64) -> Seq<char> {
    "{"@ + json_int_member("at"@, at as int) + ",\"clear\":true,"@ + json_int_member(
        "total"@,
        total as int,
    ) + "}"@
}

/// `serde_json`'s compact rendering of the alarm surface's body with an
/// alarm (its `Map` keeps keys in order). Claimed: for the two alarms that
/// tripwire 6 raises, whose names need no escaping, the text is
/// `alarm_report_text`. Not stated: the text for another alarm string.
#[verifier::external_body]
fn write_alarm_report(alarm: &str, baseline: i64, edges_before_run: u64, total: i64, at: i64) -> (s: String)
    ensures
        alarm@ == "SHRUNK"@ || alarm@ == "SPIKE"@ ==> s@ == alarm_report_text(
            alarm@,
            baseline,
            edges_before_run,
            total,
            at,
        ),
{
    let mut m = serde_json::Map::new();
    m.insert("alarm".to_owned(), alarm.into());
    m.insert("baseline_before".to_owned(), baseline.into());
    m.insert("edges_before_run".to_owned(), edges_before_run.into());
    m.insert("total".to_owned(), total.into());
    m.insert("at".to_owned(), at.into());
    serde_json::Value::Object(m).to_string()
}

/// `serde_json`'s compact rendering of the clear verdict. Claimed: the text
/// is `clear_report_text` of the arguments.
#[verifier::external_body]
fn write_clear_report(total: i64, at: i64) -> (s: String)
    ensures
        s@ == clear_report_text(total, at),
{
    let mut m = serde_json::Map::new();
    m.insert("clear".to_owned(), true.into());
    m.insert("total".to_owned(), total.into());
    m.insert("at".to_owned(), at.into());
    serde_json::Value::Object(m).to_string()
}

/// What a judged wet scan writes to the store: the alarm surface's body, which
/// a clean run clears so it always shows the latest verdict, and the baseline
/// the next scan is judged against, which becomes this scan's total.
pub fn edge_tripwire_writes(
    alarm: Option<&str>,
    baseline: i64,
    edges_before_run: u64,
    total: i64,
    now: i64,
) -> (r: (String, i64))
    requires
        alarm.is_some() ==> alarm.unwrap()@ == "SHRUNK"@ || alarm.unwrap()@ == "SPIKE"@,
    ensures
        r.1 == total,
        alarm.is_none() ==> r.0@ == clear_report_text(total, now),
        alarm.is_some() ==> r.0@ == alarm_report_text(
            alarm.unwrap()@,
            baseline,
            edges_before_run,
            total,
            now,
        ),
{
    let body = match alarm {
        Some(a) => write_alarm_report(a, baseline, edges_before_run, total, now),
        None => write_clear_report(total, now),
    };
    (body, total)
}

// ---------------------------------------------------------------- job log and data quality

/// How many recent runs the dashboard's job log shows by default.
pub const RECENT_RUNS: i64 = 20;

/// The deepest job-log page an operator may ask for.
pub const JOB_LOG_MAX: i64 = 200;

/// An asked-for job-log depth, clamped to `1..=JOB_LOG_MAX`.
pub fn job_log_depth(limit: i64) -> (r: i64)
    ensures
        r == if limit < 1 {
            1
        } else if limit > JOB_LOG_MAX {
            JOB_LOG_MAX as int
        } else {
            limit as int
        },
{
    if limit < 1 {
        1
    } else if limit > JOB_LOG_MAX {
        JOB_LOG_MAX
    } else {
        limit
    }
}

/// What a data-quality dry run answers: the windows and statements a confirmed
/// run would execute, the whole-corpus statements by label, and the labels
/// nothing windows.
pub open spec fn dq_dry_run_text(
    windows: nat,
    max_id: int,
    queries: nat,
    whole: Seq<Seq<char>>,
    unwindowed: Seq<Seq<char>>,
) -> Seq<char> {
    "DRY RUN — STORED NOTHING (enqueue with {\"dry_run\": false} to measure): would measure "@
        + dec(windows) + " window(s) of "@ + dec(DQ_WINDOW as nat) + " ids up to tender_id "@
        + dec_int(max_id) + ", "@ + dec(queries) + " queries each ("@ + dec(windows * queries)
        + " statements)"@ + (if whole.len() == 0 {
        Seq::empty()
    } else {
        ", plus "@ + dec(whole.len()) + " whole-corpus statement(s) run once ("@ + join_comma(whole)
            + ")"@
    }) + (if unwindowed.len() == 0 {
        "; every label is windowed or whole-corpus"@
    } else {
        "; unmeasured, no windowing: "@ + join_comma(unwindowed)
    })
}

/// The data-quality dry run's answer.
pub fn dq_dry_run_message(
    windows: usize,
    max_id: i64,
    queries: usize,
    whole: &Vec<String>,
    unwindowed: &Vec<String>,
) -> (r: String)
    requires
        windows * queries <= u64::MAX,
    ensures
        r@ == dq_dry_run_text(
            windows as nat,
            max_id as int,
            queries as nat,
            whole.deep_view(),
            unwindowed.deep_view(),
        ),
{
    let mut s = String::from_str(
        "DRY RUN — STORED NOTHING (enqueue with {\"dry_run\": false} to measure): would measure ",
    );
    push_u64(&mut s, windows as u64);
    s.append(" window(s) of ");
    push_u64(&mut s, DQ_WINDOW as u64);
    s.append(" ids up to tender_id ");
    push_i64(&mut s, max_id);
    s.append(", ");
    push_u64(&mut s, queries as u64);
    s.append(" queries each (");
    push_u64(&mut s, (windows as u64) * (queries as u64));
    s.append(" statements)");
    let ghost head = s@;
    if whole.len() > 0 {
        s.append(", plus ");
        push_u64(&mut s, whole.len() as u64);
        s.append(" whole-corpus statement(s) run once (");
        crate::jobs::push_joined(&mut s, whole);
        s.append(")");
    }
    let ghost mid = s@;
    proof {
        assert(mid =~= head + (if whole.deep_view().len() == 0 {
            Seq::empty()
        } else {
            ", plus "@ + dec(whole.deep_view().len()) + " whole-corpus statement(s) run once ("@
                + join_comma(whole.deep_view()) + ")"@
        }));
    }
    if unwindowed.len() == 0 {
        s.append("; every label is windowed or whole-corpus");
    } else {
        s.append("; unmeasured, no windowing: ");
        crate::jobs::push_joined(&mut s, unwindowed);
    }
    proof {
        assert(s@ =~= mid + (if unwindowed.deep_view().len() == 0 {
            "; every label is windowed or whole-corpus"@
        } else {
            "; unmeasured, no windowing: "@ + join_comma(unwindowed.deep_view())
        }));
    }
    s
}

/// What a data-quality run answers before it measures anything: a dry run its
/// plan; a confirmed run over no windows that there is nothing to measure (a
/// row of zeros would overwrite a real earlier measurement); none when the
/// windows are to be measured.
pub open spec fn dq_early_text(
    confirmed: bool,
    windows: nat,
    max_id: int,
    queries: nat,
    whole: Seq<Seq<char>>,
    unwindowed: Seq<Seq<char>>,
) -> Option<Seq<char>> {
    if !confirmed {
        Some(dq_dry_run_text(windows, max_id, queries, whole, unwindowed))
    } else if windows == 0 {
        Some("data quality: no tender versions to measure"@)
    } else {
        None
    }
}

/// The data-quality run's answer before it measures, if it stops there.
pub fn dq_early_answer(
    confirmed: bool,
    windows: usize,
    max_id: i64,
    queries: usize,
    whole: &Vec<String>,
    unwindowed: &Vec<String>,
) -> (r: Option<String>)
    requires
        windows * queries <= u64::MAX,
    ensures
        r.is_some() == dq_early_text(
            confirmed,
            windows as nat,
            max_id as int,
            queries as nat,
            whole.deep_view(),
            unwindowed.deep_view(),
        ).is_some(),
        r.is_some() ==> r.unwrap()@ == dq_early_text(
            confirmed,
            windows as nat,
            max_id as int,
            queries as nat,
            whole.deep_view(),
            unwindowed.deep_view(),
        ).unwrap(),
{
    if !confirmed {
        Some(dq_dry_run_message(windows, max_id, queries, whole, unwindowed))
    } else if windows == 0 {
        Some(String::from_str("data quality: no tender versions to measure"))
    } else {
        None
    }
}

// ---------------------------------------------------------------- derived refolds

/// The cohort is within a quarter of the size the operator expected.
pub open spec fn within_slack(found: u64, expect: u64) -> bool {
    let diff = if found >= expect { found - expect } else { expect - found };
    diff <= expect / 4
}

/// A list of strings as `{:?}` writes it: each quoted, separated by `, `, in
/// brackets.
pub open spec fn debug_list(items: Seq<Seq<char>>) -> Seq<char> {
    "["@ + debug_items(items) + "]"@
}

/// The quoted items of a list, separated by `, `.
pub open spec fn debug_items(items: Seq<Seq<char>>) -> Seq<char>
    decreases items.len(),
{
    if items.len() == 0 {
        Seq::empty()
    } else if items.len() == 1 {
        debug_quoted(items[0])
    } else {
        debug_items(items.drop_last()) + ", "@ + debug_quoted(items.last())
    }
}

pub(crate) fn push_debug_list(out: &mut String, items: &Vec<String>)
    ensures
        final(out)@ == old(out)@ + debug_list(items.deep_view()),
{
    let ghost d = items.deep_view();
    out.append("[");
    let ghost start = out@;
    let mut i: usize = 0;
    while i < items.len()
        invariant
            i <= items@.len(),
            d == items.deep_view(),
            out@ == start + debug_items(d.take(i as int)),
        decreases items@.len() - i,
    {
        proof {
            assert(d.take(i + 1).drop_last() =~= d.take(i as int));
            assert(d.take(i + 1).last() == items@[i as int]@);
        }
        if i > 0 {
            out.append(", ");
        }
        let q = debug_quote(items[i].as_str());
        out.append(q.as_str());
        proof {
            if i == 0 {
                assert(d.take(1) =~= seq![items@[0]@]);
            }
        }
        i = i + 1;
    }
    out.append("]");
    proof {
        assert(d.take(items@.len() as int) =~= d);
    }
}

/// The refusal of a `refold` whose cohort is off its expected size.
pub open spec fn refold_abort_text(found: u64, profiles: Seq<Seq<char>>, expect: u64) -> Seq<char> {
    "refold aborted: "@ + dec(found as nat) + " notices match "@ + debug_list(profiles)
        + ", expected ~"@ + dec(expect as nat) + " — check the profile strings (nothing was written)"@
}

/// The refusal of a `refold-fields` whose carrier set is off its expected size.
pub open spec fn refold_fields_abort_text(found: u64, fields: Seq<Seq<char>>, expect: u64) -> Seq<
    char,
> {
    "refold-fields aborted: "@ + dec(found as nat) + " notices carry "@ + debug_list(fields)
        + ", expected ~"@ + dec(expect as nat) + " — check the field ids (nothing was written)"@
}

/// The size guard of the derived refolds: with an expected size named, the
/// cohort found must be within a quarter of it, or the job stops before writing.
/// `fields` picks the `refold-fields` wording over the `refold` one.
pub fn refold_guard(found: u64, expect: Option<u64>, names: &Vec<String>, fields: bool) -> (r: Result<
    (),
    String,
>)
    ensures
        r.is_ok() == (expect.is_none() || within_slack(found, expect.unwrap())),
        r.is_err() && !fields ==> r.unwrap_err()@ == refold_abort_text(
            found,
            names.deep_view(),
            expect.unwrap(),
        ),
        r.is_err() && fields ==> r.unwrap_err()@ == refold_fields_abort_text(
            found,
            names.deep_view(),
            expect.unwrap(),
        ),
{
    let e = match expect {
        None => return Ok(()),
        Some(e) => e,
    };
    let diff = if found >= e {
        found - e
    } else {
        e - found
    };
    if diff <= e / 4 {
        return Ok(());
    }
    let mut s = if fields {
        String::from_str("refold-fields aborted: ")
    } else {
        String::from_str("refold aborted: ")
    };
    push_u64(&mut s, found);
    if fields {
        s.append(" notices carry ");
    } else {
        s.append(" notices match ");
    }
    push_debug_list(&mut s, names);
    s.append(", expected ~");
    push_u64(&mut s, e);
    if fields {
        s.append(" — check the field ids (nothing was written)");
    } else {
        s.append(" — check the profile strings (nothing was written)");
    }
    proof {
        if fields {
            assert(s@ =~= refold_fields_abort_text(found, names.deep_view(), e));
        } else {
            assert(s@ =~= refold_abort_text(found, names.deep_view(), e));
        }
    }
    Err(s)
}

} // verus!
