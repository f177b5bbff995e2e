//! Properties that hold across calls and states: how the data-quality windows
//! tile their range, what a month range contains, and what the queue keeps.
use vstd::prelude::*;
use crate::alarms::{pvs_alarms, PvsBaseline};
use crate::kinds::stoppable;
use crate::ladder::{expected_plan_spec, report_members, ReviewedPlan};
use crate::jobs::{daily_plan, plan_spec, JobRequest, JobV, PlanEnv, SpecV};
use crate::period::{month_label, month_run, parse_year_month_spec, ym_le};
use crate::text::{
    all_digits, dec, digit_char, digit_value, digits_value, first_at, has_char, head_at,
    is_digit, lemma_first_at_unique, pad2, parse_unsigned_spec, tail_at, unsigned_body,
};
use crate::queue::{
    kept_rows, reindex_placed, ReindexPlacement, entry_of, high_water, holds_id, holds_kind, other_id, pending, queue_wf, report_plan,
    without_id, JobEntry, QueueV, RecoveredRow,
};
use crate::windows::{dq_window_seq, DQ_WINDOW};

verus! {

/// The data-quality windows tile `[floor, max_id)` exactly: the first opens at
/// the floor, the last closes at the max, each closes where the next opens, and
/// none is empty or wider than `DQ_WINDOW`. An empty range has no window.
pub proof fn law_dq_windows_tile(floor: int, max_id: int)
    requires
        i64::MIN <= floor <= i64::MAX,
        i64::MIN <= max_id <= i64::MAX,
    ensures
        floor >= max_id ==> dq_window_seq(floor, max_id).len() == 0,
        floor < max_id ==> {
            let w = dq_window_seq(floor, max_id);
            &&& w.len() > 0
            &&& w[0].0 == floor
            &&& w.last().1 == max_id
            &&& forall|i: int| 0 <= i < w.len() ==> (#[trigger] w[i]).0 < w[i].1 && w[i].1 - w[i].0 <= DQ_WINDOW
            &&& forall|i: int| 0 <= i < w.len() - 1 ==> (#[trigger] w[i]).1 == w[i + 1].0
        },
    decreases max_id - floor,
{
    if floor < max_id {
        let hi = if floor + DQ_WINDOW < max_id { floor + DQ_WINDOW } else { max_id };
        law_dq_windows_tile(hi, max_id);
        let w = dq_window_seq(floor, max_id);
        let rest = dq_window_seq(hi, max_id);
        assert(w == seq![(floor as i64, hi as i64)] + rest);
        assert(w[0] == (floor as i64, hi as i64));
        assert(floor as i64 == floor && hi as i64 == hi);
        assert forall|i: int| 0 <= i < w.len() implies (#[trigger] w[i]).0 < w[i].1 && w[i].1 - w[i].0
            <= DQ_WINDOW by {
            if i > 0 {
                assert(w[i] == rest[i - 1]);
            }
        }
        assert forall|i: int| 0 <= i < w.len() - 1 implies (#[trigger] w[i]).1 == w[i + 1].0 by {
            if i > 0 {
                assert(w[i] == rest[i - 1]);
                assert(w[i + 1] == rest[i]);
            } else {
                assert(w[1] == rest[0]);
            }
        }
        if rest.len() > 0 {
            assert(w.last() == rest.last());
        }
    }
}

/// Months are numbered by `12 * year + month`.
pub open spec fn month_number(y: int, m: int) -> int {
    12 * y + m
}

/// A month range between real months (1 to 12) is inclusive at both ends, holds
/// one entry per month, and each entry is the month after the one before.
pub proof fn law_month_range_inclusive(y: int, m: int, ey: int, em: int)
    requires
        1 <= m <= 12,
        1 <= em <= 12,
        ym_le(y, m, ey, em),
    ensures
        month_run(y, m, ey, em).len() == month_number(ey, em) - month_number(y, m) + 1,
        month_run(y, m, ey, em)[0] == (y, m),
        month_run(y, m, ey, em).last() == (ey, em),
        forall|i: int|
            0 <= i < month_run(y, m, ey, em).len() ==> month_number(
                (#[trigger] month_run(y, m, ey, em)[i]).0,
                month_run(y, m, ey, em)[i].1,
            ) == month_number(y, m) + i && 1 <= month_run(y, m, ey, em)[i].1 <= 12,
    decreases ey - y + 1, 256 - m,
{
    let r = month_run(y, m, ey, em);
    let (ny, nm) = if m == 12 { (y + 1, 1int) } else { (y, m + 1) };
    assert(r == seq![(y, m)] + month_run(ny, nm, ey, em));
    if ym_le(ny, nm, ey, em) {
        law_month_range_inclusive(ny, nm, ey, em);
        let rest = month_run(ny, nm, ey, em);
        assert(r.last() == rest.last());
        assert forall|i: int| 0 <= i < r.len() implies month_number(
            (#[trigger] r[i]).0,
            r[i].1,
        ) == month_number(y, m) + i && 1 <= r[i].1 <= 12 by {
            if i > 0 {
                assert(r[i] == rest[i - 1]);
            }
        }
    } else {
        assert(month_run(ny, nm, ey, em).len() == 0);
        assert(y == ey && m == em);
    }
}

/// A reserved id is fresh: no queued job has it.
pub proof fn law_reserved_id_is_fresh(q: QueueV)
    requires
        queue_wf(q),
    ensures
        !holds_id(q.jobs, q.next_id),
{
    if holds_id(q.jobs, q.next_id) {
        let i = choose|i: int| 0 <= i < q.jobs.len() && (#[trigger] q.jobs[i]).0 == q.next_id;
        assert(q.jobs[i].0 < q.next_id);
    }
}

/// Cancelling a queued id removes every job with it and keeps every other job,
/// so a second cancel of the same id finds nothing queued.
pub proof fn law_cancel_removes_only_that_id(jobs: Seq<JobEntry>, id: u64, other: u64)
    requires
        other != id,
    ensures
        !holds_id(without_id(jobs, id), id),
        holds_id(without_id(jobs, id), other) == holds_id(jobs, other),
{
    let w = without_id(jobs, id);
    if holds_id(w, id) {
        let i = choose|i: int| 0 <= i < w.len() && (#[trigger] w[i]).0 == id;
        jobs.lemma_filter_pred(other_id(id), i);
    }
    if holds_id(w, other) {
        let i = choose|i: int| 0 <= i < w.len() && (#[trigger] w[i]).0 == other;
        assert(w.contains(w[i]));
        jobs.lemma_filter_contains_rev(other_id(id), w[i]);
        let k = choose|k: int| 0 <= k < jobs.len() && jobs[k] == w[i];
        assert(jobs[k].0 == other);
    }
    if holds_id(jobs, other) {
        let k = choose|k: int| 0 <= k < jobs.len() && (#[trigger] jobs[k]).0 == other;
        jobs.lemma_filter_contains(other_id(id), k);
        let i = choose|i: int| 0 <= i < w.len() && w[i] == jobs[k];
        assert(w[i].0 == other);
    }
}

/// Recovery's high-water mark is at least every recovered row's id and the
/// logged mark, so the counter it sets hands out none of them again.
pub proof fn law_recovery_high_water(rows: Seq<RecoveredRow>, logged: Option<i64>)
    ensures
        forall|i: int| 0 <= i < rows.len() ==> (#[trigger] rows[i]).id as u64 <= high_water(rows, logged),
        logged.is_some() && logged.unwrap() > 0 ==> logged.unwrap() as u64 <= high_water(rows, logged),
    decreases rows.len(),
{
    if rows.len() > 0 {
        law_recovery_high_water(rows.drop_last(), logged);
        assert forall|i: int| 0 <= i < rows.len() implies (#[trigger] rows[i]).id as u64 <= high_water(
            rows,
            logged,
        ) by {
            if i < rows.len() - 1 {
                assert(rows[i] == rows.drop_last()[i]);
            }
        }
    }
}

/// The queue after a list of planned jobs was queued at the back.
pub open spec fn after_enqueue(q: QueueV, plan: Seq<JobV>) -> QueueV {
    QueueV {
        jobs: q.jobs + plan.map(|i: int, j: JobV| entry_of((q.next_id + i) as u64, j)),
        next_id: (q.next_id + plan.len()) as u64,
        ..q
    }
}

proof fn lemma_planned_kind_pending(q: QueueV, plan: Seq<JobV>, k: int)
    requires
        0 <= k < plan.len(),
    ensures
        pending(after_enqueue(q, plan), plan[k].0),
{
    let q2 = after_enqueue(q, plan);
    let idx = q.jobs.len() + k;
    assert(q2.jobs[idx].1 == plan[k].0);
}

proof fn lemma_pending_kept(q: QueueV, plan: Seq<JobV>, kind: Seq<char>)
    requires
        pending(q, kind),
    ensures
        pending(after_enqueue(q, plan), kind),
{
    let q2 = after_enqueue(q, plan);
    if holds_kind(q.jobs, kind) {
        let i = choose|i: int| 0 <= i < q.jobs.len() && (#[trigger] q.jobs[i]).1 == kind;
        assert(q2.jobs[i] == q.jobs[i]);
    }
}

/// The weekly report tick never stacks: once its jobs are queued, the next tick
/// finds every one of its kinds pending and queues nothing.
pub proof fn law_report_tick_once(q: QueueV, epoch: Seq<char>)
    ensures
        report_plan(after_enqueue(q, report_plan(q, epoch)), epoch).len() == 0,
{
    let plan = report_plan(q, epoch);
    let q2 = after_enqueue(q, plan);
    let a: int = if pending(q, "data-quality"@) { 0 } else { 3 };
    let b: int = a + if pending(q, "rehash-probe"@) { 0int } else { 1int };
    let c: int = b + if pending(q, "build-org-match-keys"@) { 0int } else { 1int };
    let d: int = c + if pending(q, "org-merge-health"@) { 0int } else { 1int };
    if pending(q, "data-quality"@) {
        lemma_pending_kept(q, plan, "data-quality"@);
    } else {
        assert(plan[2].0 == "data-quality"@);
        lemma_planned_kind_pending(q, plan, 2);
    }
    if pending(q, "rehash-probe"@) {
        lemma_pending_kept(q, plan, "rehash-probe"@);
    } else {
        assert(plan[a].0 == "rehash-probe"@);
        lemma_planned_kind_pending(q, plan, a);
    }
    if pending(q, "build-org-match-keys"@) {
        lemma_pending_kept(q, plan, "build-org-match-keys"@);
    } else {
        assert(plan[b].0 == "build-org-match-keys"@);
        lemma_planned_kind_pending(q, plan, b);
    }
    if pending(q, "org-merge-health"@) {
        lemma_pending_kept(q, plan, "org-merge-health"@);
    } else {
        assert(plan[c].0 == "org-merge-health"@);
        lemma_planned_kind_pending(q, plan, c);
    }
    if pending(q, "scan-org-match-keys"@) {
        lemma_pending_kept(q, plan, "scan-org-match-keys"@);
    } else {
        assert(plan[d].0 == "scan-org-match-keys"@);
        lemma_planned_kind_pending(q, plan, d);
    }
}

/// A second daily run queued behind the first neither refreshes the rates nor
/// rechecks reveals again: the first run's jobs of those kinds are pending.
pub proof fn law_daily_guards_hold(q: QueueV, weekday: bool, again: bool)
    ensures
        ({
            let q2 = after_enqueue(
                q,
                daily_plan(weekday, pending(q, "fetch-rates"@), pending(q, "reveal-recheck"@)),
            );
            daily_plan(again, pending(q2, "fetch-rates"@), pending(q2, "reveal-recheck"@))
                == daily_plan(again, true, true)
        }),
{
    let plan = daily_plan(weekday, pending(q, "fetch-rates"@), pending(q, "reveal-recheck"@));
    let base: int = if weekday { 4 } else { 2 };
    if pending(q, "fetch-rates"@) {
        lemma_pending_kept(q, plan, "fetch-rates"@);
    } else {
        assert(plan[base].0 == "fetch-rates"@);
        lemma_planned_kind_pending(q, plan, base);
    }
    let r: int = base + if pending(q, "fetch-rates"@) { 1int } else { 2int };
    if pending(q, "reveal-recheck"@) {
        lemma_pending_kept(q, plan, "reveal-recheck"@);
    } else {
        assert(plan[r].0 == "reveal-recheck"@);
        lemma_planned_kind_pending(q, plan, r);
    }
}

/// Without a baseline the two tolerance-guarded counters never alarm, however
/// high they read: a census does not shout on its own first run.
pub proof fn law_no_baseline_no_drift_alarm(no_longer_vat: int, vat_country_differs: int)
    ensures
        pvs_alarms(None, no_longer_vat, vat_country_differs, 0, 0).len() == 0,
{
}

/// A counter that stays at or below its floor never alarms: the residue being
/// worked down is what the tripwire wants.
pub proof fn law_falling_counts_are_quiet(b: PvsBaseline, no_longer_vat: int, vat_country_differs: int)
    requires
        b.no_longer_vat.is_some() ==> no_longer_vat <= b.no_longer_vat.unwrap(),
        b.vat_country_differs.is_some() ==> vat_country_differs <= b.vat_country_differs.unwrap(),
    ensures
        pvs_alarms(Some(b), no_longer_vat, vat_country_differs, 0, 0).len() == 0,
{
}

/// A decimal rendering is all digits and reads back as its number.
pub proof fn lemma_dec_reads_back(n: nat)
    ensures
        dec(n).len() >= 1,
        all_digits(dec(n)),
        digits_value(dec(n)) == n,
    decreases n,
{
    if n < 10 {
        assert(digit_value(digit_char(n)) == n);
        assert(dec(n).drop_last() =~= Seq::<char>::empty());
        reveal_with_fuel(digits_value, 2);
        assert(digits_value(dec(n)) == digits_value(Seq::<char>::empty()) * 10 + digit_value(
            digit_char(n),
        ));
    } else {
        lemma_dec_reads_back(n / 10);
        let d = dec(n / 10);
        assert(dec(n) == d.push(digit_char(n % 10)));
        assert(dec(n).drop_last() =~= d);
        assert(dec(n).last() == digit_char(n % 10));
        assert(digit_value(digit_char(n % 10)) == n % 10);
        assert(digits_value(dec(n)) == digits_value(d) * 10 + digit_value(digit_char(n % 10)));
        assert(n == (n / 10) * 10 + n % 10);
        assert forall|i: int| 0 <= i < dec(n).len() implies is_digit(#[trigger] dec(n)[i]) by {
            if i < d.len() {
                assert(dec(n)[i] == d[i]);
            }
        }
    }
}

/// A two-digit month rendering is all digits and reads back as its number.
pub proof fn lemma_pad2_reads_back(m: nat)
    ensures
        pad2(m).len() >= 1,
        all_digits(pad2(m)),
        digits_value(pad2(m)) == m,
{
    if m < 10 {
        let p = pad2(m);
        assert(p.drop_last() =~= seq!['0']);
        assert(seq!['0'].drop_last() =~= Seq::<char>::empty());
        assert(digit_value(digit_char(m)) == m);
        reveal_with_fuel(digits_value, 3);
        assert(digits_value(seq!['0']) == 0);
        assert(digits_value(p) == digits_value(seq!['0']) * 10 + digit_value(digit_char(m)));
    } else {
        lemma_dec_reads_back(m);
    }
}

/// Every month a range names is a period the month parser reads back as that
/// month: the planner's fetch periods are ones a fetch can resolve.
pub proof fn law_month_labels_parse_back(y: int, m: int)
    requires
        0 <= y <= 0xffff,
        0 <= m <= 255,
    ensures
        parse_year_month_spec(month_label((y, m))) == Some((y as u16, m as u8)),
{
    let a = dec(y as nat);
    let b = pad2(m as nat);
    let l = month_label((y, m));
    lemma_dec_reads_back(y as nat);
    lemma_pad2_reads_back(m as nat);
    assert(l == a + seq!['-'] + b);
    let k = a.len() as int;
    assert(l[k] == '-');
    assert forall|j: int| 0 <= j < k implies l[j] != '-' by {
        assert(l[j] == a[j]);
        assert(is_digit(a[j]));
    }
    assert(first_at(l, '-', k));
    lemma_first_at_unique(l, '-', k);
    assert(has_char(l, '-'));
    assert(head_at(l, '-') =~= a);
    assert(tail_at(l, '-').unwrap() =~= b);
    assert(is_digit(a[0]));
    assert(unsigned_body(a) == a);
    assert(is_digit(b[0]));
    assert(unsigned_body(b) == b);
    assert(parse_unsigned_spec(a, 0xffff) == Some(y as nat));
    assert(parse_unsigned_spec(b, 0xff) == Some(m as nat));
}


/// A request the planner accepts queues at least one job: every refusal is an
/// error, never an empty plan.
pub proof fn law_an_accepted_plan_is_not_empty(req: JobRequest, env: PlanEnv)
    ensures
        plan_spec(req, env) is Ok ==> plan_spec(req, env)->Ok_0.len() > 0,
{
}

/// A needed reindex settles at the front: once `prioritize_reindex` has
/// placed it (and, where none was queued, a reindex has been queued at the
/// front), the first job is a reindex, so a second call finds it first and
/// leaves the queue as it is.
pub proof fn law_reindex_placement_settles(
    q0: Seq<JobEntry>,
    q1: Seq<JobEntry>,
    r1: ReindexPlacement,
    queued: JobEntry,
    q3: Seq<JobEntry>,
    r2: ReindexPlacement,
)
    requires
        reindex_placed(q0, q1, r1),
        queued.3 == SpecV::Reindex,
        reindex_placed(
            if r1 == ReindexPlacement::NotQueued {
                seq![queued] + q1
            } else {
                q1
            },
            q3,
            r2,
        ),
    ensures
        r2 == ReindexPlacement::AlreadyFirst,
        q3 == (if r1 == ReindexPlacement::NotQueued {
            seq![queued] + q1
        } else {
            q1
        }),
{
    let q2 = if r1 == ReindexPlacement::NotQueued {
        seq![queued] + q1
    } else {
        q1
    };
    if r1 == ReindexPlacement::NotQueued {
        assert(q2[0] == queued);
    } else if r1 == ReindexPlacement::AlreadyFirst {
        assert(q2[0].3 == SpecV::Reindex);
    } else {
        let at = choose|at: int|
            0 < at < q0.len() && q0[at].3 == SpecV::Reindex && (forall|j: int|
                0 <= j < at ==> q0[j].3 != SpecV::Reindex) && q1 == seq![q0[at]] + q0.remove(at);
        assert(q2[0] == q0[at]);
    }
    assert(q2.len() > 0 && q2[0].3 == SpecV::Reindex);
    if r2 == ReindexPlacement::NotQueued {
        assert(q2[0].3 == SpecV::Reindex);
    }
}

/// Rows whose ids rise from first to last.
pub open spec fn ids_rise(rows: Seq<RecoveredRow>) -> bool {
    forall|i: int, j: int| 0 <= i < j < rows.len() ==> (#[trigger] rows[i]).id < (#[trigger] rows[j]).id
}

proof fn lemma_filter_keeps_rise(rows: Seq<RecoveredRow>, p: spec_fn(RecoveredRow) -> bool)
    requires
        ids_rise(rows),
    ensures
        ids_rise(rows.filter(p)),
        forall|i: int|
            0 <= i < rows.filter(p).len() ==> exists|j: int|
                0 <= j < rows.len() && #[trigger] rows.filter(p)[i] == rows[j],
    decreases rows.len(),
{
    reveal(Seq::filter);
    if rows.len() > 0 {
        let init = rows.drop_last();
        assert(ids_rise(init)) by {
            assert forall|i: int, j: int| 0 <= i < j < init.len() implies (#[trigger] init[i]).id
                < (#[trigger] init[j]).id by {
                assert(init[i] == rows[i] && init[j] == rows[j]);
            }
        }
        lemma_filter_keeps_rise(init, p);
        let sub = init.filter(p);
        let f = rows.filter(p);
        assert forall|i: int| 0 <= i < f.len() implies exists|j: int|
            0 <= j < rows.len() && #[trigger] f[i] == rows[j] by {
            if i < sub.len() {
                let j = choose|j: int| 0 <= j < init.len() && #[trigger] sub[i] == init[j];
                assert(f[i] == sub[i]);
                assert(rows[j] == init[j]);
            } else {
                assert(f[i] == rows[rows.len() - 1]);
            }
        }
        if p(rows.last()) {
            assert forall|i: int, j: int| 0 <= i < j < f.len() implies (#[trigger] f[i]).id
                < (#[trigger] f[j]).id by {
                if j < sub.len() {
                    assert(f[i] == sub[i] && f[j] == sub[j]);
                } else {
                    let k = choose|k: int| 0 <= k < init.len() && #[trigger] sub[i] == init[k];
                    assert(f[i] == sub[i]);
                    assert(init[k] == rows[k]);
                    assert(f[j] == rows[rows.len() - 1]);
                    assert(rows[k].id < rows[rows.len() - 1].id);
                }
            }
        }
    }
}

/// Recovery queues the durable rows in the order the store gives them: given
/// oldest id first, the recovered jobs' ids rise, so the job that was running
/// when the process stopped, whose row is the oldest left, comes back ahead of
/// the work queued behind it.
pub proof fn law_recovery_keeps_id_order(rows: Seq<RecoveredRow>, drop: Seq<i64>)
    requires
        ids_rise(rows),
    ensures
        ids_rise(kept_rows(rows, drop)),
{
    lemma_filter_keeps_rise(rows, crate::queue::row_kept(drop));
}

/// Recovery queues only rows the store still holds: a job whose durable row
/// was deleted, as a cancelled one's is, does not come back after a restart.
pub proof fn law_a_deleted_row_stays_gone(rows: Seq<RecoveredRow>, drop: Seq<i64>, id: i64)
    requires
        forall|i: int| 0 <= i < rows.len() ==> (#[trigger] rows[i]).id != id,
    ensures
        forall|i: int| 0 <= i < kept_rows(rows, drop).len() ==> (#[trigger] kept_rows(rows, drop)[i]).id != id,
{
    let p = crate::queue::row_kept(drop);
    let f = rows.filter(p);
    assert forall|i: int| 0 <= i < f.len() implies (#[trigger] f[i]).id != id by {
        assert(f[i] == rows.filter(p)[i]);
        lemma_filter_member(rows, p, i);
    }
}

proof fn lemma_filter_member(rows: Seq<RecoveredRow>, p: spec_fn(RecoveredRow) -> bool, i: int)
    requires
        0 <= i < rows.filter(p).len(),
    ensures
        exists|j: int| 0 <= j < rows.len() && rows.filter(p)[i] == #[trigger] rows[j],
    decreases rows.len(),
{
    reveal(Seq::filter);
    if rows.len() > 0 {
        let init = rows.drop_last();
        let sub = init.filter(p);
        if i < sub.len() {
            lemma_filter_member(init, p, i);
            let j = choose|j: int| 0 <= j < init.len() && sub[i] == #[trigger] init[j];
            assert(rows[j] == init[j]);
            assert(rows.filter(p)[i] == sub[i]);
        } else {
            assert(rows.filter(p)[i] == rows[rows.len() - 1]);
        }
    }
}

/// The ids one `enqueue_all` hands out are fresh: they rise one apart from
/// the counter, above every queued job's id and every id handed out or
/// recovered before, each of which is below the counter that no queue
/// operation lowers.
pub proof fn law_enqueued_ids_are_fresh(q: QueueV, plan: Seq<JobV>, earlier: u64)
    requires
        queue_wf(q),
        earlier < q.next_id,
        q.next_id + plan.len() < u64::MAX,
    ensures
        forall|i: int|
            0 <= i < plan.len() ==> (#[trigger] after_enqueue(q, plan).jobs[q.jobs.len() + i]).0
                == q.next_id + i,
        forall|i: int|
            0 <= i < plan.len() ==> (#[trigger] after_enqueue(q, plan).jobs[q.jobs.len() + i]).0
                != earlier,
        forall|i: int, k: int|
            0 <= i < plan.len() && 0 <= k < q.jobs.len() ==> (#[trigger] q.jobs[k]).0 < (#[trigger] after_enqueue(
                q,
                plan,
            ).jobs[q.jobs.len() + i]).0,
        forall|i: int|
            0 <= i < q.jobs.len() ==> #[trigger] after_enqueue(q, plan).jobs[i] == q.jobs[i],
{
    let q2 = after_enqueue(q, plan);
    assert forall|i: int| 0 <= i < plan.len() implies (#[trigger] q2.jobs[q.jobs.len() + i]).0
        == q.next_id + i by {
        assert(q2.jobs[q.jobs.len() + i] == entry_of((q.next_id + i) as u64, plan[i]));
    }
    assert forall|i: int, k: int| 0 <= i < plan.len() && 0 <= k < q.jobs.len() implies (#[trigger] q.jobs[k]).0
        < (#[trigger] q2.jobs[q.jobs.len() + i]).0 by {
        assert(q2.jobs[q.jobs.len() + i] == entry_of((q.next_id + i) as u64, plan[i]));
        assert(q.jobs[k].0 < q.next_id);
    }
}

// ---------------------------------------------------------------- what the operations are for

/// The job kinds whose loops read the stop flag at their checkpoints, so that
/// a running one can be asked to stop.
pub open spec fn stop_reading_kinds() -> Seq<Seq<char>> {
    seq![
        "reparse"@,
        "data-quality"@,
        "project"@,
        "merge-provisional-orgs"@,
        "org-merge-health"@,
        "r2-census"@,
        "r3-census"@,
        "match-org-identifiers"@,
        "build-org-match-keys"@,
        "scan-org-match-keys"@,
        "org-edge-census"@,
        "case-review-backlog"@,
        "fold-org-countries"@,
        "fusion-census"@,
        "rehoming-packet"@,
        "satellite-orphans"@,
        "drop-orphan-satellites"@,
        "anchor-wall-census"@,
        "xb-packet"@,
        "country-typo-census"@,
        "country-cluster-census"@,
        "duplicate-identity-census"@,
        "name-pollution-census"@,
        "generic-wall-census"@,
        "generic-statistic-census"@,
        "name-attribution-probe"@,
        "ghost-census"@,
        "repair-country-typos"@,
        "repair-label-prefixes"@,
        "repair-minted-countries"@,
    ]
}

/// A running job can be asked to stop exactly when its kind is one whose loop
/// reads the stop flag: cancelling a running projection, census, merge or
/// repair of those kinds asks it to stop, and any other running kind is
/// refused as unstoppable.
pub proof fn law_stoppable_kinds_are_the_stop_readers(k: Seq<char>)
    ensures
        stoppable(k) <==> stop_reading_kinds().contains(k),
        stoppable("project"@),
{
    let l = stop_reading_kinds();
    assert forall|i: int| 0 <= i < l.len() implies #[trigger] stoppable(l[i]) by {
        if i == 0 {
            assert(stoppable(l[0]));
        } else if i == 1 {
            assert(stoppable(l[1]));
        } else if i == 2 {
            assert(stoppable(l[2]));
        } else if i == 3 {
            assert(stoppable(l[3]));
        } else if i == 4 {
            assert(stoppable(l[4]));
        } else if i == 5 {
            assert(stoppable(l[5]));
        } else if i == 6 {
            assert(stoppable(l[6]));
        } else if i == 7 {
            assert(stoppable(l[7]));
        } else if i == 8 {
            assert(stoppable(l[8]));
        } else if i == 9 {
            assert(stoppable(l[9]));
        } else if i == 10 {
            assert(stoppable(l[10]));
        } else if i == 11 {
            assert(stoppable(l[11]));
        } else if i == 12 {
            assert(stoppable(l[12]));
        } else if i == 13 {
            assert(stoppable(l[13]));
        } else if i == 14 {
            assert(stoppable(l[14]));
        } else if i == 15 {
            assert(stoppable(l[15]));
        } else if i == 16 {
            assert(stoppable(l[16]));
        } else if i == 17 {
            assert(stoppable(l[17]));
        } else if i == 18 {
            assert(stoppable(l[18]));
        } else if i == 19 {
            assert(stoppable(l[19]));
        } else if i == 20 {
            assert(stoppable(l[20]));
        } else if i == 21 {
            assert(stoppable(l[21]));
        } else if i == 22 {
            assert(stoppable(l[22]));
        } else if i == 23 {
            assert(stoppable(l[23]));
        } else if i == 24 {
            assert(stoppable(l[24]));
        } else if i == 25 {
            assert(stoppable(l[25]));
        } else if i == 26 {
            assert(stoppable(l[26]));
        } else if i == 27 {
            assert(stoppable(l[27]));
        } else if i == 28 {
            assert(stoppable(l[28]));
        } else if i == 29 {
            assert(stoppable(l[29]));
        }
    }
    if stoppable(k) {
        assert(exists|i: int| 0 <= i < l.len() && l[i] == k) by {
            if k == "reparse"@ {
                assert(l[0] == k);
            } else if k == "data-quality"@ {
                assert(l[1] == k);
            } else if k == "project"@ {
                assert(l[2] == k);
            } else if k == "merge-provisional-orgs"@ {
                assert(l[3] == k);
            } else if k == "org-merge-health"@ {
                assert(l[4] == k);
            } else if k == "r2-census"@ {
                assert(l[5] == k);
            } else if k == "r3-census"@ {
                assert(l[6] == k);
            } else if k == "match-org-identifiers"@ {
                assert(l[7] == k);
            } else if k == "build-org-match-keys"@ {
                assert(l[8] == k);
            } else if k == "scan-org-match-keys"@ {
                assert(l[9] == k);
            } else if k == "org-edge-census"@ {
                assert(l[10] == k);
            } else if k == "case-review-backlog"@ {
                assert(l[11] == k);
            } else if k == "fold-org-countries"@ {
                assert(l[12] == k);
            } else if k == "fusion-census"@ {
                assert(l[13] == k);
            } else if k == "rehoming-packet"@ {
                assert(l[14] == k);
            } else if k == "satellite-orphans"@ {
                assert(l[15] == k);
            } else if k == "drop-orphan-satellites"@ {
                assert(l[16] == k);
            } else if k == "anchor-wall-census"@ {
                assert(l[17] == k);
            } else if k == "xb-packet"@ {
                assert(l[18] == k);
            } else if k == "country-typo-census"@ {
                assert(l[19] == k);
            } else if k == "country-cluster-census"@ {
                assert(l[20] == k);
            } else if k == "duplicate-identity-census"@ {
                assert(l[21] == k);
            } else if k == "name-pollution-census"@ {
                assert(l[22] == k);
            } else if k == "generic-wall-census"@ {
                assert(l[23] == k);
            } else if k == "generic-statistic-census"@ {
                assert(l[24] == k);
            } else if k == "name-attribution-probe"@ {
                assert(l[25] == k);
            } else if k == "ghost-census"@ {
                assert(l[26] == k);
            } else if k == "repair-country-typos"@ {
                assert(l[27] == k);
            } else if k == "repair-label-prefixes"@ {
                assert(l[28] == k);
            } else if k == "repair-minted-countries"@ {
                assert(l[29] == k);
            }
        }
    }
    if l.contains(k) {
        let i = choose|i: int| 0 <= i < l.len() && l[i] == k;
        assert(stoppable(l[i]));
    }
    assert(l[2] == "project"@);
    assert(stoppable(l[2]));
}

/// A fetch request downloads exactly the package it names, and downloads it
/// again only when the operator asked: the one planned download carries the
/// request's period and re-fetches exactly when the request says `refetch:
/// true`. A fetch request without a period is refused.
pub proof fn law_a_fetch_carries_its_request(req: JobRequest, env: PlanEnv)
    requires
        req.kind@ == "fetch"@,
    ensures
        req.period.is_none() ==> plan_spec(req, env) is Err,
        plan_spec(req, env) is Ok ==> ({
            let plan = plan_spec(req, env)->Ok_0;
            &&& plan.len() == 1
            &&& plan[0].0 == "fetch"@
            &&& req.period.is_some()
            &&& (plan[0].2 matches SpecV::Fetch { source, package_kind, period, refetch } && period
                == req.period.unwrap()@ && refetch == (req.refetch == Some(true)) && source == (
            match req.source {
                Some(s) => s@,
                None => "ted"@,
            }) && package_kind == (match req.package_kind {
                Some(k) => k@,
                None => "daily"@,
            }))
        }),
        req.period.is_some() && (req.source is None || req.source.unwrap()@ == "ted"@
            || req.source.unwrap()@ == "doe"@) && (req.package_kind is None
            || req.package_kind.unwrap()@ == "daily"@ || req.package_kind.unwrap()@ == "monthly"@)
            ==> (plan_spec(req, env) is Ok),
{
}

/// On a weekday the daily pipeline opens by probing TED and re-fetching the
/// current day, which may be rewritten until 09:30 CET, and then processes it,
/// ahead of exactly what the weekend pipeline runs; a weekend pipeline plans
/// no TED job at all.
pub proof fn law_the_weekday_daily_refetches_ted_first(rates_pending: bool, recheck_pending: bool)
    ensures
        daily_plan(true, rates_pending, recheck_pending)[0] == ("probe"@, "ted daily (probe)"@,
            (SpecV::ProbeTed { refetch: true })),
        daily_plan(true, rates_pending, recheck_pending) == seq![
            daily_plan(true, rates_pending, recheck_pending)[0],
            daily_plan(true, rates_pending, recheck_pending)[1],
        ] + daily_plan(false, rates_pending, recheck_pending),
        forall|i: int|
            0 <= i < daily_plan(false, rates_pending, recheck_pending).len() ==> !((#[trigger] daily_plan(
                false,
                rates_pending,
                recheck_pending,
            )[i]).2 is ProbeTed),
        forall|i: int|
            0 <= i < daily_plan(true, rates_pending, recheck_pending).len() && (#[trigger] daily_plan(
                true,
                rates_pending,
                recheck_pending,
            )[i]).2 is ProbeTed ==> daily_plan(true, rates_pending, recheck_pending)[i].2
                == (SpecV::ProbeTed { refetch: true }),
        daily_plan(true, rates_pending, recheck_pending)[1] == ("process"@, "ted daily (all)"@, (
        SpecV::Process { source: "ted"@, package_kind: "daily"@, period: None })),
        daily_plan(false, rates_pending, recheck_pending)[0].2 == SpecV::ProbeDoe,
        daily_plan(false, rates_pending, recheck_pending)[1].2 == (SpecV::Process {
            source: "doe"@,
            package_kind: "daily"@,
            period: None,
        }),
        (exists|i: int|
            0 <= i < daily_plan(false, rates_pending, recheck_pending).len() && (#[trigger] daily_plan(
                false,
                rates_pending,
                recheck_pending,
            )[i]).2 == SpecV::FetchRates) <==> !rates_pending,
        (exists|i: int|
            0 <= i < daily_plan(false, rates_pending, recheck_pending).len() && (#[trigger] daily_plan(
                false,
                rates_pending,
                recheck_pending,
            )[i]).2 == SpecV::RevealRecheck) <==> !recheck_pending,
{
    let w = daily_plan(true, rates_pending, recheck_pending);
    let e = daily_plan(false, rates_pending, recheck_pending);
    assert(w =~= seq![w[0], w[1]] + e);
    if !rates_pending {
        assert(e[2].2 == SpecV::FetchRates);
    }
    if !recheck_pending {
        assert(e[e.len() - 1].2 == SpecV::RevealRecheck);
    }
}

/// The weekly tick's data-quality job is a real measurement: when none is
/// pending the tick plans one, confirmed, and every data-quality job it plans
/// is confirmed; when one is pending it plans none.
pub proof fn law_the_weekly_measurement_is_confirmed(q: QueueV, epoch: Seq<char>)
    ensures
        !pending(q, "data-quality"@) ==> exists|i: int|
            0 <= i < report_plan(q, epoch).len() && #[trigger] report_plan(q, epoch)[i].2
                == (SpecV::DataQuality { confirmed: true }),
        forall|i: int|
            0 <= i < report_plan(q, epoch).len() && (#[trigger] report_plan(q, epoch)[i]).2 is DataQuality
                ==> !pending(q, "data-quality"@) && report_plan(q, epoch)[i].2
                == (SpecV::DataQuality { confirmed: true }),
        forall|i: int|
            0 <= i < report_plan(q, epoch).len() ==> match (#[trigger] report_plan(q, epoch)[i]).2 {
                SpecV::BuildOrgMatchKeys { dry_run } => !dry_run,
                SpecV::ScanOrgMatchKeys { dry_run, .. } => !dry_run,
                _ => true,
            },
{
    let p = report_plan(q, epoch);
    if !pending(q, "data-quality"@) {
        assert(p[2].2 == (SpecV::DataQuality { confirmed: true }));
    }
}

/// A wet repair or country fold runs only against a reviewed dry plan: it
/// proceeds only when the stored report says it came from a dry run, with the
/// count that report recorded, and a report that does not say so is refused
/// as a wet run's.
pub proof fn law_wet_repairs_need_a_dry_report(plan: ReviewedPlan, body: Seq<char>)
    requires
        plan != ReviewedPlan::R2Merge,
        plan != ReviewedPlan::R3Merge,
    ensures
        expected_plan_spec(plan, false, Some(body)) is Ok ==> ({
            let f = report_members(body, ""@, "dry_run"@, "rows"@);
            &&& f is Ok
            &&& f->Ok_0.1 == Some(true)
            &&& f->Ok_0.2 is Some
            &&& expected_plan_spec(plan, false, Some(body)) == Ok::<Option<u64>, Seq<char>>(
                f->Ok_0.2,
            )
        }),
        (report_members(body, ""@, "dry_run"@, "rows"@) matches Ok(f) && f.1 != Some(true))
            ==> expected_plan_spec(plan, false, Some(body)) == Err::<Option<u64>, Seq<char>>(
            "the stored "@ + plan.report_spec()
                + " report is from a WET run, not a reviewed plan — run the dry pass again"@,
        ),
{
}

} // verus!
