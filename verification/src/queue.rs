//! The supervisor's in-memory job queue: queued jobs in run order, the id
//! counter, the running job, the stop request and the count of concluded jobs.
use vstd::prelude::*;
use crate::jobs::{
    daily_plan, jobs_v, plan_daily, plan_request, plan_spec, plan_v, plan_fits, JobRequest,
    JobV, PlanEnv, PlannedJob, Spec, SpecV, SCAN_STOPLIST_CAP,
};
use crate::kinds::{heavy_write, heavy_write_kind, is_stoppable, stoppable};
use crate::text::{dec, push_u64, str_eq, text_of};

verus! {

/// A queued unit of work.
#[derive(Debug)]
pub struct Job {
    pub id: u64,
    pub kind: String,
    pub params: String,
    pub spec: Spec,
    /// The last package a prior run fully completed, restored on recovery;
    /// `None` for a fresh job.
    pub resume_after: Option<String>,
}

/// A queued job as plain values: id, kind, params line, action, resume cursor.
pub type JobEntry = (u64, Seq<char>, Seq<char>, SpecV, Option<Seq<char>>);

impl View for Job {
    type V = JobEntry;

    open spec fn view(&self) -> JobEntry {
        (self.id, self.kind@, self.params@, self.spec@, self.resume_after.deep_view())
    }
}

/// The plain values of a list of jobs.
pub open spec fn entries(v: Seq<Job>) -> Seq<JobEntry> {
    v.map_values(|j: Job| j@)
}

/// A queued job as the dashboard lists it.
#[derive(Debug)]
pub struct QueuedJob {
    pub id: u64,
    pub kind: String,
    pub params: String,
}

/// What `cancel` did.
#[derive(Debug, PartialEq, Eq)]
pub enum Cancelled {
    /// Dropped from the queue before it ran.
    Queued,
    /// Running, and its kind checks the stop flag: it ends at its next checkpoint.
    Stopping,
    /// Running, but nothing in this kind's loop reads the flag; carries the kind.
    Unstoppable(String),
    /// No such job.
    Unknown,
}

/// Where a needed reindex stands in the queue.
#[derive(Debug, PartialEq, Eq)]
pub enum ReindexPlacement {
    /// A reindex was already first.
    AlreadyFirst,
    /// A queued reindex was moved to the front.
    MovedToFront,
    /// No reindex is queued; one must be queued at the front.
    NotQueued,
}

/// What `prioritize_reindex` did to the jobs `before`, leaving `after`:
/// nothing when no reindex is queued or one is already first; else the first
/// queued reindex moved to the front, the rest in their order.
pub open spec fn reindex_placed(before: Seq<JobEntry>, after: Seq<JobEntry>, r: ReindexPlacement) -> bool {
    &&& (r == ReindexPlacement::NotQueued <==> !(exists|i: int|
        0 <= i < before.len() && (#[trigger] before[i]).3 == SpecV::Reindex))
    &&& (r == ReindexPlacement::NotQueued || r == ReindexPlacement::AlreadyFirst ==> after == before)
    &&& (r == ReindexPlacement::AlreadyFirst <==> (before.len() > 0 && before[0].3 == SpecV::Reindex))
    &&& (r == ReindexPlacement::MovedToFront ==> exists|at: int|
        0 < at < before.len() && before[at].3 == SpecV::Reindex && (forall|j: int|
            0 <= j < at ==> before[j].3 != SpecV::Reindex) && after == seq![before[at]]
            + before.remove(at))
}

/// The queue's state as plain values.
pub struct QueueV {
    pub jobs: Seq<JobEntry>,
    pub next_id: u64,
    pub running: Option<(u64, Seq<char>)>,
    pub stop_requested: u64,
    pub completed: u64,
}

/// The supervisor's job queue. Jobs run one at a time, front first.
pub struct JobQueue {
    jobs: Vec<Job>,
    next_id: u64,
    running: Option<(u64, String)>,
    stop_requested: u64,
    completed: u64,
}

impl View for JobQueue {
    type V = QueueV;

    closed spec fn view(&self) -> QueueV {
        QueueV {
            jobs: entries(self.jobs@),
            next_id: self.next_id,
            running: match self.running {
                Some(r) => Some((r.0, r.1@)),
                None => None,
            },
            stop_requested: self.stop_requested,
            completed: self.completed,
        }
    }
}

/// Some queued job has this id.
pub open spec fn holds_id(jobs: Seq<JobEntry>, id: u64) -> bool {
    exists|i: int| 0 <= i < jobs.len() && (#[trigger] jobs[i]).0 == id
}

/// Some queued job has this kind.
pub open spec fn holds_kind(jobs: Seq<JobEntry>, kind: Seq<char>) -> bool {
    exists|i: int| 0 <= i < jobs.len() && (#[trigger] jobs[i]).1 == kind
}

/// A job of this kind is queued or running.
pub open spec fn pending(q: QueueV, kind: Seq<char>) -> bool {
    (q.running.is_some() && q.running.unwrap().1 == kind) || holds_kind(q.jobs, kind)
}

/// The queue's invariant: every queued id was handed out already.
pub open spec fn queue_wf(q: QueueV) -> bool {
    forall|i: int| 0 <= i < q.jobs.len() ==> (#[trigger] q.jobs[i]).0 < q.next_id
}

/// A planned job queued under `id`.
pub open spec fn entry_of(id: u64, j: JobV) -> JobEntry {
    (id, j.0, j.1, j.2, None)
}

/// The entries whose id is not `id`.
pub open spec fn other_id(id: u64) -> spec_fn(JobEntry) -> bool {
    |e: JobEntry| e.0 != id
}

/// The queue without the jobs that have this id, in the same order.
pub open spec fn without_id(jobs: Seq<JobEntry>, id: u64) -> Seq<JobEntry> {
    jobs.filter(other_id(id))
}

/// The planner's environment as the queue sees it.
pub open spec fn env_for(q: QueueV, epoch: String, doe_months: Vec<String>) -> PlanEnv {
    PlanEnv {
        name_key_epoch: epoch,
        doe_months,
        rates_pending: pending(q, "fetch-rates"@),
        recheck_pending: pending(q, "reveal-recheck"@),
    }
}

/// The weekly report tick's jobs: the disk stamp, the ghost census and the
/// data-quality measurement unless a measurement is pending; the rehash probe,
/// the key build, the merge-health census and the wet edge scan each unless one
/// is pending.
pub open spec fn report_plan(q: QueueV, epoch: Seq<char>) -> Seq<JobV> {
    (if pending(q, "data-quality"@) {
        Seq::empty()
    } else {
        seq![
            ("disk-census"@, "disk-census (weekly)"@, SpecV::DiskCensus),
            ("ghost-census"@, "ghost-census (weekly)"@, SpecV::GhostCensus),
            ("data-quality"@, "data-quality (weekly)"@, SpecV::DataQuality { confirmed: true }),
        ]
    }) + (if pending(q, "rehash-probe"@) {
        Seq::empty()
    } else {
        seq![
            (
                "rehash-probe"@,
                "rehash probe (weekly, 8 package(s))"@,
                SpecV::RehashProbe { samples: 8 },
            ),
        ]
    }) + (if pending(q, "build-org-match-keys"@) {
        Seq::empty()
    } else {
        seq![
            (
                "build-org-match-keys"@,
                "build-org-match-keys epoch="@ + epoch + " (weekly)"@,
                SpecV::BuildOrgMatchKeys { dry_run: false },
            ),
        ]
    }) + (if pending(q, "org-merge-health"@) {
        Seq::empty()
    } else {
        seq![("org-merge-health"@, "org-merge-health (weekly)"@, SpecV::OrgMergeHealth)]
    }) + (if pending(q, "scan-org-match-keys"@) {
        Seq::empty()
    } else {
        seq![
            (
                "scan-org-match-keys"@,
                "scan-org-match-keys stoplist="@ + dec(SCAN_STOPLIST_CAP as nat) + " epoch="@ + epoch
                    + " (weekly)"@,
                SpecV::ScanOrgMatchKeys { dry_run: false, max_edges: None },
            ),
        ]
    })
}

/// A recovered durable queue row: `spec` is `None` when the stored action could
/// not be read back.
#[derive(Debug)]
pub struct RecoveredRow {
    pub id: i64,
    pub kind: String,
    pub params: String,
    pub spec: Option<Spec>,
    pub progress: Option<String>,
}

/// What recovery did: the durable rows to delete (dropped on request or
/// unreadable) and how many jobs it queued.
#[derive(Debug)]
pub struct Recovery {
    pub remove: Vec<i64>,
    pub recovered: usize,
}

/// A row recovery queues: not named in `drop`, and its action was read back.
pub open spec fn row_kept(drop: Seq<i64>) -> spec_fn(RecoveredRow) -> bool {
    |r: RecoveredRow| !drop.contains(r.id) && r.spec.is_some()
}

/// A row recovery deletes: named in `drop`, or its action could not be read.
pub open spec fn row_removed(drop: Seq<i64>) -> spec_fn(RecoveredRow) -> bool {
    |r: RecoveredRow| drop.contains(r.id) || r.spec.is_none()
}

/// The rows recovery queues, in order.
pub open spec fn kept_rows(rows: Seq<RecoveredRow>, drop: Seq<i64>) -> Seq<RecoveredRow> {
    rows.filter(row_kept(drop))
}

/// The rows recovery deletes, in order.
pub open spec fn removed_rows(rows: Seq<RecoveredRow>, drop: Seq<i64>) -> Seq<RecoveredRow> {
    rows.filter(row_removed(drop))
}

/// A recovered row as a queued job.
pub open spec fn row_entry(r: RecoveredRow) -> JobEntry {
    (r.id as u64, r.kind@, r.params@, r.spec.unwrap()@, r.progress.deep_view())
}

/// The largest id among the rows and the logged high-water mark (0 if none).
pub open spec fn high_water(rows: Seq<RecoveredRow>, logged: Option<i64>) -> int
    decreases rows.len(),
{
    if rows.len() == 0 {
        match logged {
            Some(l) => if l > 0 {
                l as u64 as int
            } else {
                0
            },
            None => 0,
        }
    } else {
        let rest = high_water(rows.drop_last(), logged);
        let last = rows.last().id as u64 as int;
        if last > rest {
            last
        } else {
            rest
        }
    }
}

fn wrapping_inc(n: u64) -> (r: u64)
    ensures
        r == if n == u64::MAX {
            0
        } else {
            n + 1
        },
{
    if n == u64::MAX {
        0
    } else {
        n + 1
    }
}

impl JobQueue {
    /// An empty queue whose first id is 1.
    pub fn new() -> (q: JobQueue)
        ensures
            q@.jobs.len() == 0,
            q@.next_id == 1,
            q@.running.is_none(),
            q@.stop_requested == 0,
            q@.completed == 0,
            queue_wf(q@),
    {
        let q = JobQueue {
            jobs: Vec::new(),
            next_id: 1,
            running: None,
            stop_requested: 0,
            completed: 0,
        };
        proof {
            assert(q@.jobs =~= Seq::<JobEntry>::empty());
        }
        q
    }

    /// The id the next reservation hands out.
    pub fn next_id(&self) -> (r: u64)
        ensures
            r == self@.next_id,
    {
        self.next_id
    }

    /// How many jobs have concluded since the queue was made.
    pub fn jobs_completed(&self) -> (r: u64)
        ensures
            r == self@.completed,
    {
        self.completed
    }

    /// Hand out the next job id.
    pub fn reserve_id(&mut self) -> (id: u64)
        requires
            old(self)@.next_id < u64::MAX,
            queue_wf(old(self)@),
        ensures
            id == old(self)@.next_id,
            final(self)@ == (QueueV { next_id: (id + 1) as u64, ..old(self)@ }),
            queue_wf(final(self)@),
    {
        let id = self.next_id;
        self.next_id = self.next_id + 1;
        id
    }

    /// Queue a job under a reserved id: at the back, or at the front for work the
    /// rest of the queue depends on.
    pub fn insert(&mut self, job: Job, front: bool)
        requires
            queue_wf(old(self)@),
            job.id < old(self)@.next_id,
        ensures
            final(self)@ == (QueueV {
                jobs: if front {
                    seq![job@] + old(self)@.jobs
                } else {
                    old(self)@.jobs.push(job@)
                },
                ..old(self)@
            }),
            queue_wf(final(self)@),
    {
        let ghost e = job@;
        if front {
            self.jobs.insert(0, job);
        } else {
            self.jobs.push(job);
        }
        proof {
            if front {
                assert(self@.jobs =~= seq![e] + old(self)@.jobs);
            } else {
                assert(self@.jobs =~= old(self)@.jobs.push(e));
            }
        }
    }

    /// Reserve an id for a planned job and queue it.
    pub fn enqueue(&mut self, job: PlannedJob, front: bool) -> (id: u64)
        requires
            old(self)@.next_id < u64::MAX,
            queue_wf(old(self)@),
        ensures
            id == old(self)@.next_id,
            final(self)@ == (QueueV {
                jobs: if front {
                    seq![entry_of(id, job@)] + old(self)@.jobs
                } else {
                    old(self)@.jobs.push(entry_of(id, job@))
                },
                next_id: (id + 1) as u64,
                ..old(self)@
            }),
            queue_wf(final(self)@),
    {
        let id = self.reserve_id();
        let job = Job { id, kind: job.kind, params: job.params, spec: job.spec, resume_after: None };
        self.insert(job, front);
        id
    }

    /// Queue a list of planned jobs at the back, in order, with consecutive ids.
    pub fn enqueue_all(&mut self, plan: Vec<PlannedJob>) -> (ids: Vec<u64>)
        requires
            old(self)@.next_id + plan@.len() < u64::MAX,
            queue_wf(old(self)@),
        ensures
            ids@.len() == plan@.len(),
            forall|i: int| 0 <= i < ids@.len() ==> #[trigger] ids@[i] == old(self)@.next_id + i,
            final(self)@.jobs == old(self)@.jobs + jobs_v(plan@).map(
                |i: int, j: JobV| entry_of((old(self)@.next_id + i) as u64, j),
            ),
            final(self)@.next_id == old(self)@.next_id + plan@.len(),
            final(self)@.running == old(self)@.running,
            final(self)@.stop_requested == old(self)@.stop_requested,
            final(self)@.completed == old(self)@.completed,
            queue_wf(final(self)@),
    {
        let ghost start = self@;
        let ghost pv = jobs_v(plan@);
        let ghost n = pv.len();
        let mut ids: Vec<u64> = Vec::new();
        let mut plan = plan;
        while plan.len() > 0
            invariant
                n == pv.len(),
                plan@.len() + ids@.len() == n,
                jobs_v(plan@) == pv.skip(ids@.len() as int),
                forall|i: int| 0 <= i < ids@.len() ==> #[trigger] ids@[i] == start.next_id + i,
                self@.next_id == start.next_id + ids@.len(),
                start.next_id + n < u64::MAX,
                self@.jobs == start.jobs + pv.take(ids@.len() as int).map(
                    |i: int, j: JobV| entry_of((start.next_id + i) as u64, j),
                ),
                self@.running == start.running,
                self@.stop_requested == start.stop_requested,
                self@.completed == start.completed,
                queue_wf(self@),
            decreases plan@.len(),
        {
            let ghost k = ids@.len() as int;
            let ghost before = plan@;
            let j = plan.remove(0);
            proof {
                assert(j@ == jobs_v(before)[0]);
                assert(j@ == pv[k]);
                assert forall|i: int| 0 <= i < plan@.len() implies #[trigger] jobs_v(plan@)[i] == pv.skip(
                    k + 1,
                )[i] by {
                    assert(plan@[i] == before[i + 1]);
                    assert(jobs_v(before)[i + 1] == pv.skip(k)[i + 1]);
                }
                assert(jobs_v(plan@) =~= pv.skip(k + 1));
            }
            let id = self.enqueue(j, false);
            ids.push(id);
            proof {
                assert(pv.take(k + 1) =~= pv.take(k).push(pv[k]));
                assert(self@.jobs =~= start.jobs + pv.take(k + 1).map(
                    |i: int, j: JobV| entry_of((start.next_id + i) as u64, j),
                ));
            }
        }
        proof {
            assert(pv.take(n as int) =~= pv);
        }
        ids
    }

    /// Whether a job of this kind is queued or running.
    pub fn already_pending(&self, kind: &str) -> (r: bool)
        ensures
            r == pending(self@, kind@),
    {
        if let Some((_, k)) = &self.running {
            if str_eq(k.as_str(), kind) {
                return true;
            }
        }
        let mut i: usize = 0;
        while i < self.jobs.len()
            invariant
                i <= self.jobs@.len(),
                !(self@.running.is_some() && self@.running.unwrap().1 == kind@),
                forall|j: int| 0 <= j < i ==> (#[trigger] self@.jobs[j]).1 != kind@,
            decreases self.jobs@.len() - i,
        {
            if str_eq(self.jobs[i].kind.as_str(), kind) {
                proof {
                    assert(self@.jobs[i as int].1 == kind@);
                }
                return true;
            }
            i = i + 1;
        }
        false
    }

    /// The jobs a request asks for, planned against this queue (a `daily`
    /// request leaves out a rates refresh or reveal recheck already pending).
    pub fn plan(&self, req: &JobRequest, epoch: String, doe_months: Vec<String>) -> (r: Result<
        Vec<PlannedJob>,
        String,
    >)
        requires
            plan_fits(*req),
        ensures
            plan_v(r) == plan_spec(*req, env_for(self@, epoch, doe_months)),
    {
        let rates_pending = self.already_pending("fetch-rates");
        let recheck_pending = self.already_pending("reveal-recheck");
        let env = PlanEnv { name_key_epoch: epoch, doe_months, rates_pending, recheck_pending };
        plan_request(req, &env)
    }

    /// The daily pipeline planned against this queue.
    pub fn plan_daily(&self, weekday: bool) -> (r: Vec<PlannedJob>)
        ensures
            jobs_v(r@) == daily_plan(
                weekday,
                pending(self@, "fetch-rates"@),
                pending(self@, "reveal-recheck"@),
            ),
    {
        let rates_pending = self.already_pending("fetch-rates");
        let recheck_pending = self.already_pending("reveal-recheck");
        plan_daily(weekday, rates_pending, recheck_pending)
    }

    /// The weekly report tick planned against this queue.
    pub fn plan_report_tick(&self, epoch: &str) -> (r: Vec<PlannedJob>)
        ensures
            jobs_v(r@) == report_plan(self@, epoch@),
    {
        let mut out: Vec<PlannedJob> = Vec::new();
        let ghost q = self@;
        if !self.already_pending("data-quality") {
            out.push(PlannedJob {
                kind: text_of("disk-census"),
                params: text_of("disk-census (weekly)"),
                spec: Spec::DiskCensus,
            });
            out.push(PlannedJob {
                kind: text_of("ghost-census"),
                params: text_of("ghost-census (weekly)"),
                spec: Spec::GhostCensus,
            });
            out.push(PlannedJob {
                kind: text_of("data-quality"),
                params: text_of("data-quality (weekly)"),
                spec: Spec::DataQuality { confirmed: true },
            });
        }
        let ghost a = jobs_v(out@);
        if !self.already_pending("rehash-probe") {
            out.push(PlannedJob {
                kind: text_of("rehash-probe"),
                params: text_of("rehash probe (weekly, 8 package(s))"),
                spec: Spec::RehashProbe { samples: 8 },
            });
        }
        let ghost b = jobs_v(out@);
        if !self.already_pending("build-org-match-keys") {
            let mut params = String::from_str("build-org-match-keys epoch=");
            params.append(epoch);
            params.append(" (weekly)");
            out.push(PlannedJob {
                kind: text_of("build-org-match-keys"),
                params,
                spec: Spec::BuildOrgMatchKeys { dry_run: false },
            });
        }
        let ghost c = jobs_v(out@);
        if !self.already_pending("org-merge-health") {
            out.push(PlannedJob {
                kind: text_of("org-merge-health"),
                params: text_of("org-merge-health (weekly)"),
                spec: Spec::OrgMergeHealth,
            });
        }
        let ghost d = jobs_v(out@);
        if !self.already_pending("scan-org-match-keys") {
            let mut params = String::from_str("scan-org-match-keys stoplist=");
            push_u64(&mut params, SCAN_STOPLIST_CAP);
            params.append(" epoch=");
            params.append(epoch);
            params.append(" (weekly)");
            out.push(PlannedJob {
                kind: text_of("scan-org-match-keys"),
                params,
                spec: Spec::ScanOrgMatchKeys { dry_run: false, max_edges: None },
            });
        }
        proof {
            assert(a =~= (if pending(q, "data-quality"@) {
                Seq::empty()
            } else {
                seq![
                    ("disk-census"@, "disk-census (weekly)"@, SpecV::DiskCensus),
                    ("ghost-census"@, "ghost-census (weekly)"@, SpecV::GhostCensus),
                    (
                        "data-quality"@,
                        "data-quality (weekly)"@,
                        SpecV::DataQuality { confirmed: true },
                    ),
                ]
            }));
            assert(jobs_v(out@) =~= report_plan(q, epoch@));
        }
        out
    }

    /// Whether the queue holds a job with this id.
    pub fn holds(&self, id: u64) -> (r: bool)
        ensures
            r == holds_id(self@.jobs, id),
    {
        let mut i: usize = 0;
        while i < self.jobs.len()
            invariant
                i <= self.jobs@.len(),
                forall|j: int| 0 <= j < i ==> (#[trigger] self@.jobs[j]).0 != id,
            decreases self.jobs@.len() - i,
        {
            if self.jobs[i].id == id {
                proof {
                    assert(self@.jobs[i as int].0 == id);
                }
                return true;
            }
            i = i + 1;
        }
        false
    }

    fn remove_id(&mut self, id: u64)
        requires
            queue_wf(old(self)@),
        ensures
            final(self)@ == (QueueV { jobs: without_id(old(self)@.jobs, id), ..old(self)@ }),
            queue_wf(final(self)@),
    {
        let ghost start = self@.jobs;
        let mut kept: Vec<Job> = Vec::new();
        let mut rest: Vec<Job> = Vec::new();
        std::mem::swap(&mut rest, &mut self.jobs);
        let ghost n = start.len();
        while rest.len() > 0
            invariant
                n == start.len(),
                rest@.len() <= n,
                entries(rest@) == start.skip(n - rest@.len()),
                entries(kept@) == without_id(start.take(n - rest@.len()), id),
            decreases rest@.len(),
        {
            let ghost done = n - rest@.len();
            let ghost before_rest = rest@;
            let j = rest.remove(0);
            proof {
                assert(entries(before_rest)[0] == j@);
                assert(j@ == start[done]);
                assert forall|i: int| 0 <= i < rest@.len() implies #[trigger] entries(rest@)[i] == start.skip(done + 1)[i] by {
                    assert(rest@[i] == before_rest[i + 1]);
                    assert(entries(before_rest)[i + 1] == start.skip(done)[i + 1]);
                }
                assert(entries(rest@) =~= start.skip(done + 1));
                assert(start.take(done + 1) =~= start.take(done).push(start[done]));
                start.take(done).lemma_filter_push(start[done], other_id(id));
            }
            if j.id != id {
                let ghost before = entries(kept@);
                kept.push(j);
                proof {
                    assert(entries(kept@) =~= before.push(start[done]));
                }
            }
        }
        proof {
            assert(start.take(n as int) =~= start);
        }
        self.jobs = kept;
        proof {
            assert forall|i: int| 0 <= i < self@.jobs.len() implies (#[trigger] self@.jobs[i]).0
                < self@.next_id by {
                let w = without_id(start, id);
                assert(w.contains(w[i]));
                start.lemma_filter_contains_rev(other_id(id), w[i]);
            }
        }
    }

    /// Drop a queued job, or ask the running one to stop if its kind reads the
    /// stop flag, or say that it cannot be stopped, or that there is no such job.
    pub fn cancel(&mut self, id: u64) -> (r: Cancelled)
        requires
            queue_wf(old(self)@),
        ensures
            queue_wf(final(self)@),
            holds_id(old(self)@.jobs, id) ==> r == Cancelled::Queued && final(self)@ == (QueueV {
                jobs: without_id(old(self)@.jobs, id),
                ..old(self)@
            }),
            !holds_id(old(self)@.jobs, id) ==> final(self)@.jobs == old(self)@.jobs,
            !holds_id(old(self)@.jobs, id) && old(self)@.running.is_some() && old(self)@.running.unwrap().0 == id && stoppable(old(self)@.running.unwrap().1) ==> r
                == Cancelled::Stopping && final(self)@ == (QueueV {
                stop_requested: id,
                ..old(self)@
            }),
            !holds_id(old(self)@.jobs, id) && old(self)@.running.is_some() && old(self)@.running.unwrap().0 == id && !stoppable(old(self)@.running.unwrap().1) ==> (
            match r {
                Cancelled::Unstoppable(k) => k@ == old(self)@.running.unwrap().1,
                _ => false,
            }) && final(self)@ == old(self)@,
            !holds_id(old(self)@.jobs, id) && !(old(self)@.running.is_some() && old(self)@.running.unwrap().0 == id) ==> r == Cancelled::Unknown && final(self)@ == old(self)@,
    {
        if self.holds(id) {
            self.remove_id(id);
            return Cancelled::Queued;
        }
        match &self.running {
            Some((rid, kind)) => {
                if *rid != id {
                    return Cancelled::Unknown;
                }
                if !is_stoppable(kind.as_str()) {
                    return Cancelled::Unstoppable(kind.clone());
                }
            },
            None => return Cancelled::Unknown,
        }
        self.stop_requested = id;
        Cancelled::Stopping
    }

    /// Whether this running job has been asked to stop.
    pub fn cancelled(&self, id: u64) -> (r: bool)
        ensures
            r == (self@.stop_requested == id),
    {
        self.stop_requested == id
    }

    /// Take the front job to run.
    pub fn pop(&mut self) -> (r: Option<Job>)
        requires
            queue_wf(old(self)@),
        ensures
            queue_wf(final(self)@),
            old(self)@.jobs.len() == 0 ==> r.is_none() && final(self)@ == old(self)@,
            old(self)@.jobs.len() > 0 ==> r.is_some() && r.unwrap()@ == old(self)@.jobs[0]
                && final(self)@ == (QueueV { jobs: old(self)@.jobs.drop_first(), ..old(self)@ }),
    {
        if self.jobs.len() == 0 {
            return None;
        }
        let j = self.jobs.remove(0);
        proof {
            assert(self@.jobs =~= old(self)@.jobs.drop_first());
        }
        Some(j)
    }

    /// Record that a job started running.
    pub fn begin(&mut self, id: u64, kind: String)
        ensures
            final(self)@ == (QueueV { running: Some((id, kind@)), ..old(self)@ }),
    {
        self.running = Some((id, kind));
    }

    /// Record that the running job concluded (ok or error): nothing runs, a stop
    /// request naming it is cleared, and the concluded count goes up by one.
    pub fn finish(&mut self, id: u64)
        requires
            queue_wf(old(self)@),
        ensures
            final(self)@.jobs == old(self)@.jobs,
            final(self)@.next_id == old(self)@.next_id,
            final(self)@.running.is_none(),
            final(self)@.stop_requested == if old(self)@.stop_requested == id {
                0
            } else {
                old(self)@.stop_requested
            },
            final(self)@.completed == if old(self)@.completed == u64::MAX {
                0
            } else {
                old(self)@.completed + 1
            },
            queue_wf(final(self)@),
    {
        self.running = None;
        if self.stop_requested == id {
            self.stop_requested = 0;
        }
        self.completed = wrapping_inc(self.completed);
        proof {
            assert(self@.jobs == old(self)@.jobs);
        }
    }

    /// Whether the running job is one that holds the WAL.
    pub fn heavy_write_in_progress(&self) -> (r: bool)
        ensures
            r == (self@.running.is_some() && heavy_write(self@.running.unwrap().1)),
    {
        match &self.running {
            Some((_, k)) => heavy_write_kind(k.as_str()),
            None => false,
        }
    }

    /// The running job's id and kind, if any.
    pub fn running(&self) -> (r: Option<(u64, String)>)
        ensures
            r.is_some() == self@.running.is_some(),
            r.is_some() ==> r.unwrap().0 == self@.running.unwrap().0 && r.unwrap().1@
                == self@.running.unwrap().1,
    {
        match &self.running {
            Some((id, k)) => Some((*id, k.clone())),
            None => None,
        }
    }

    /// The queued jobs as the dashboard lists them, in run order.
    pub fn queued(&self) -> (r: Vec<QueuedJob>)
        ensures
            r@.len() == self@.jobs.len(),
            forall|i: int|
                0 <= i < r@.len() ==> (#[trigger] r@[i]).id == self@.jobs[i].0 && r@[i].kind@
                    == self@.jobs[i].1 && r@[i].params@ == self@.jobs[i].2,
    {
        let mut out: Vec<QueuedJob> = Vec::new();
        let mut i: usize = 0;
        while i < self.jobs.len()
            invariant
                i <= self.jobs@.len(),
                out@.len() == i,
                forall|j: int|
                    0 <= j < i ==> (#[trigger] out@[j]).id == self@.jobs[j].0 && out@[j].kind@
                        == self@.jobs[j].1 && out@[j].params@ == self@.jobs[j].2,
            decreases self.jobs@.len() - i,
        {
            let j = &self.jobs[i];
            out.push(QueuedJob { id: j.id, kind: j.kind.clone(), params: j.params.clone() });
            i = i + 1;
        }
        out
    }

    /// Where a needed reindex stands, moving a queued one to the front.
    pub fn prioritize_reindex(&mut self) -> (r: ReindexPlacement)
        requires
            queue_wf(old(self)@),
        ensures
            queue_wf(final(self)@),
            final(self)@.next_id == old(self)@.next_id,
            final(self)@.running == old(self)@.running,
            final(self)@.stop_requested == old(self)@.stop_requested,
            final(self)@.completed == old(self)@.completed,
            reindex_placed(old(self)@.jobs, final(self)@.jobs, r),
    {
        let mut i: usize = 0;
        while i < self.jobs.len()
            invariant
                i <= self.jobs@.len(),
                self@ == old(self)@,
                queue_wf(old(self)@),
                forall|j: int| 0 <= j < i ==> (#[trigger] self@.jobs[j]).3 != SpecV::Reindex,
            decreases self.jobs@.len() - i,
        {
            let is_reindex = match &self.jobs[i].spec {
                Spec::Reindex => true,
                _ => false,
            };
            if is_reindex {
                if i == 0 {
                    return ReindexPlacement::AlreadyFirst;
                }
                let ghost at = i as int;
                let j = self.jobs.remove(i);
                self.jobs.insert(0, j);
                proof {
                    assert(self@.jobs =~= seq![old(self)@.jobs[at]] + old(self)@.jobs.remove(at));
                    assert forall|k: int| 0 <= k < self@.jobs.len() implies (#[trigger] self@.jobs[k]).0
                        < self@.next_id by {
                        if k == 0 {
                            assert(old(self)@.jobs[at].0 < self@.next_id);
                        } else if k - 1 < at {
                            assert(self@.jobs[k] == old(self)@.jobs[k - 1]);
                        } else {
                            assert(self@.jobs[k] == old(self)@.jobs[k]);
                        }
                    }
                }
                return ReindexPlacement::MovedToFront;
            }
            i = i + 1;
        }
        ReindexPlacement::NotQueued
    }

    /// Rebuild the queue from the durable rows (oldest id first): rows named in
    /// `drop` and rows whose action cannot be read are removed rather than
    /// queued, and the id counter moves past every row's id and the job log's
    /// high-water mark.
    pub fn recover(&mut self, rows: Vec<RecoveredRow>, drop: &Vec<i64>, logged_max: Option<i64>) -> (r:
        Recovery)
        requires
            queue_wf(old(self)@),
            high_water(rows@, logged_max) < u64::MAX,
        ensures
            final(self)@.jobs == old(self)@.jobs + kept_rows(rows@, drop@).map_values(
                |row: RecoveredRow| row_entry(row),
            ),
            r.remove@ == removed_rows(rows@, drop@).map_values(|row: RecoveredRow| row.id),
            r.recovered == kept_rows(rows@, drop@).len(),
            final(self)@.next_id == if high_water(rows@, logged_max) + 1 > old(self)@.next_id {
                high_water(rows@, logged_max) + 1
            } else {
                old(self)@.next_id as int
            },
            final(self)@.running == old(self)@.running,
            final(self)@.stop_requested == old(self)@.stop_requested,
            final(self)@.completed == old(self)@.completed,
            queue_wf(final(self)@),
    {
        let ghost start = self@;
        let ghost rs = rows@;
        let ghost dr = drop@;
        let mut remove: Vec<i64> = Vec::new();
        let mut kept: Vec<Job> = Vec::new();
        let mut max_id: u64 = match logged_max {
            Some(l) => if l > 0 {
                l as u64
            } else {
                0
            },
            None => 0,
        };
        let mut rest = rows;
        let ghost n = rs.len();
        while rest.len() > 0
            invariant
                n == rs.len(),
                rest@.len() <= n,
                dr == drop@,
                rest@ == rs.skip(n - rest@.len()),
                max_id == high_water(rs.take(n - rest@.len()), logged_max),
                high_water(rs, logged_max) < u64::MAX,
                entries(kept@) == kept_rows(rs.take(n - rest@.len()), dr).map_values(
                    |row: RecoveredRow| row_entry(row),
                ),
                remove@ == removed_rows(rs.take(n - rest@.len()), dr).map_values(
                    |row: RecoveredRow| row.id,
                ),
                forall|i: int| 0 <= i < kept@.len() ==> (#[trigger] kept@[i]).id <= max_id,
            decreases rest@.len(),
        {
            let ghost done = n - rest@.len();
            let row = rest.remove(0);
            proof {
                assert(row == rs[done]);
                assert(rest@ =~= rs.skip(done + 1));
                assert(rs.take(done + 1) =~= rs.take(done).push(rs[done]));
                assert(rs.take(done + 1).drop_last() =~= rs.take(done));
                lemma_high_water_prefix(rs, logged_max, done + 1);
                rs.take(done).lemma_filter_push(rs[done], row_kept(dr));
                rs.take(done).lemma_filter_push(rs[done], row_removed(dr));
            }
            let id = row.id as u64;
            if id > max_id {
                max_id = id;
            }
            let dropped = contains_i64(drop, row.id);
            if dropped {
                let ghost before = remove@;
                remove.push(row.id);
                proof {
                    assert(remove@ =~= before.push(rs[done].id));
                }
            } else {
                match row.spec {
                    Some(spec) => {
                        let ghost before = entries(kept@);
                        kept.push(
                            Job {
                                id,
                                kind: row.kind,
                                params: row.params,
                                spec,
                                resume_after: row.progress,
                            },
                        );
                        proof {
                            assert(entries(kept@) =~= before.push(row_entry(rs[done])));
                        }
                    },
                    None => {
                        let ghost before = remove@;
                        remove.push(row.id);
                        proof {
                            assert(remove@ =~= before.push(rs[done].id));
                        }
                    },
                }
            }
        }
        proof {
            assert(rs.take(n as int) =~= rs);
        }
        let recovered = kept.len();
        let ghost kv = entries(kept@);
        self.jobs.append(&mut kept);
        if max_id + 1 > self.next_id {
            self.next_id = max_id + 1;
        }
        proof {
            assert(self@.jobs =~= start.jobs + kv);
            assert forall|i: int| 0 <= i < self@.jobs.len() implies (#[trigger] self@.jobs[i]).0
                < self@.next_id by {
                if i >= start.jobs.len() {
                    assert(self@.jobs[i] == kv[i - start.jobs.len()]);
                }
            }
        }
        Recovery { remove, recovered }
    }
}

proof fn lemma_high_water_prefix(rows: Seq<RecoveredRow>, logged: Option<i64>, k: int)
    requires
        0 <= k <= rows.len(),
    ensures
        high_water(rows.take(k), logged) <= high_water(rows, logged),
    decreases rows.len(),
{
    if k < rows.len() {
        assert(rows.drop_last().take(k) =~= rows.take(k));
        lemma_high_water_prefix(rows.drop_last(), logged, k);
    } else {
        assert(rows.take(k) =~= rows);
    }
}

fn contains_i64(v: &Vec<i64>, x: i64) -> (r: bool)
    ensures
        r == v@.contains(x),
{
    let mut i: usize = 0;
    while i < v.len()
        invariant
            i <= v@.len(),
            forall|j: int| 0 <= j < i ==> v@[j] != x,
        decreases v@.len() - i,
    {
        if v[i] == x {
            proof {
                assert(v@[i as int] == x);
            }
            return true;
        }
        i = i + 1;
    }
    false
}

} // verus!
