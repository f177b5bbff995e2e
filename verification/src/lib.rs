//! The ingestion supervisor's decision core: period parsing, the Berlin
//! scheduling calendar, the job queue's state machine and the request planner,
//! and what the jobs decide between their store reads: the gates and plans
//! they check, the tallies they keep and the result lines they report.
use vstd::prelude::*;

pub mod alarms;
pub mod backfills;
pub mod calendar;
pub mod census_lines;
pub mod drops;
pub mod gates;
pub mod health;
pub mod job_lines;
pub mod jobs;
pub mod kinds;
pub mod ladder;
pub mod laws;
pub mod merges;
pub mod period;
pub mod phase;
pub mod quantiles;
pub mod queue;
pub mod r2census;
pub mod r2sample;
pub mod r3census;
pub mod rehash;
pub mod rehoming;
pub mod repairs;
pub mod residual;
pub mod reveal_wrap;
pub mod spread;
pub mod text;
pub mod walks;
pub mod windows;

verus! {

} // verus!
