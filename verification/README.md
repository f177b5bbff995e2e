# tender_supervisor

The decision core of an in-process ingestion supervisor for a tenders
database: a serialized job queue, the planner that turns an admin request into
queued jobs, the Europe/Berlin scheduling calendar, and the tripwires and gates
that jobs consult between their store reads. Every function in `src/` is
verified with Verus against a contract stated over plain mathematical values.

Layout:

- `src/text.rs` — decimal rendering, std-compatible unsigned parsing, string
  helpers.
- `src/period.rs` — `YYYY-NNNNN` / `YYYY-MM` / `YYYY-MM-DD` periods and
  inclusive month ranges.
- `src/calendar.rs` — civil days, Berlin's DST offset, wall-clock ticks, the
  startup catch-up decision.
- `src/windows.rs` — data-quality id windows and the resume prefix of a walk.
- `src/kinds.rs` — which job kinds hold the WAL and which can be stopped.
- `src/jobs.rs` — job actions, the admin request and the request planner.
- `src/queue.rs` — the job queue state machine (enqueue, cancel, pop, recover).
- `src/alarms.rs`, `src/gates.rs`, `src/walks.rs`, `src/phase.rs`,
  `src/reveal_wrap.rs` — tripwires, refusals, walk summaries, phase records and
  the reveal recheck's running totals.
- `src/ladder.rs`, `src/drops.rs`, `src/rehoming.rs` — the dry-then-wet
  ladder: the stored plan a wet run must match, the key-satellite refusals, the
  edge-scan plan gate, the re-recorded residual of a merge.
- `src/spread.rs`, `src/health.rs` — the `org-merge-health` census: the
  distinct-name spread with its hundred widest orgs, gate tallies per scheme,
  parser-vs-stock verdicts and the 9110 GLN class.
- `src/r2census.rs`, `src/r3census.rs` — where a row lands in the R2 census and
  the statistics over its key groups; the R3 anchor classes.
- `src/r2sample.rs` — the deterministic sample of the largest R2 key groups.
- `src/residual.rs` — the reprocess tally, its reason merge and the top-eight
  residual line.
- `src/rehash.rs`, `src/backfills.rs`, `src/quantiles.rs` — the re-hash probe
  cycle, the batch walks of the backfills, percentiles and shares.
- `src/repairs.rs`, `src/merges.rs`, `src/census_lines.rs`,
  `src/job_lines.rs` — the running counts and result lines of the remaining
  jobs.
- `src/laws.rs` — properties across calls: window tiling, month ranges,
  id freshness, cancellation, recovery and the scheduler's no-stacking guards.
- `app/` — the service around the core: the durable queue and job log through
  a `Store`, the job bodies through a `Runner`, the worker and the schedulers.
