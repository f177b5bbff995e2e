//! The projection's progress events, read as the running job's phase record.
use vstd::prelude::*;
use crate::text::{dec, push_u64, text_of};

verus! {

/// A progress event of the projection.
#[derive(Debug)]
pub enum ProgressEvent {
    /// Phase-1 planning: notices planned so far, of a total.
    Planning { notices: u64, total: u64 },
    /// The identity scan: changed notices scanned so far, of a total.
    Identity { notices: u64, total: u64 },
    /// The pre-pass sweep, whose end is not counted up front.
    PrePass { notices: u64 },
    /// The plan is grouped into tenders, some of them single-notice islands.
    Grouped { tenders: u64, islands: u64 },
    /// Phase-2 folding: tenders applied of a total, and rows written.
    Applying { tenders: u64, total: u64, versions: u64, leaf_rows: u64 },
}

/// What the running job is doing now: a phase name, how far it got and of how
/// much (when known), and a line of detail.
#[derive(Debug)]
pub struct PhaseUpdate {
    pub name: String,
    pub done: Option<u64>,
    pub total: Option<u64>,
    pub detail: String,
}

/// The phase update of an event, as plain values.
pub open spec fn phase_spec(p: ProgressEvent) -> (Seq<char>, Option<u64>, Option<u64>, Seq<char>) {
    match p {
        ProgressEvent::Planning { notices, total } => (
            "planning"@,
            Some(notices),
            Some(total),
            "notices planned"@,
        ),
        ProgressEvent::Identity { notices, total } => (
            "identity"@,
            Some(notices),
            Some(total),
            "changed notices scanned"@,
        ),
        ProgressEvent::PrePass { notices } => (
            "pre-pass"@,
            Some(notices),
            None,
            "notices swept into buckets"@,
        ),
        ProgressEvent::Grouped { tenders, islands } => (
            "folding"@,
            Some(0),
            Some(tenders),
            "plan grouped: "@ + dec(tenders as nat) + " tenders, "@ + dec(islands as nat)
                + " single-notice islands"@,
        ),
        ProgressEvent::Applying { tenders, total, versions, leaf_rows } => (
            "folding"@,
            Some(tenders),
            Some(total),
            dec(versions as nat) + " version rows written, "@ + dec(leaf_rows as nat) + " leaf rows"@,
        ),
    }
}

/// The phase record a progress event writes: one arm per event, each keeping the
/// event's own counts and units.
pub fn phase_from_progress(p: &ProgressEvent) -> (r: PhaseUpdate)
    ensures
        (r.name@, r.done, r.total, r.detail@) == phase_spec(*p),
{
    match p {
        ProgressEvent::Planning { notices, total } => PhaseUpdate {
            name: text_of("planning"),
            done: Some(*notices),
            total: Some(*total),
            detail: text_of("notices planned"),
        },
        ProgressEvent::Identity { notices, total } => PhaseUpdate {
            name: text_of("identity"),
            done: Some(*notices),
            total: Some(*total),
            detail: text_of("changed notices scanned"),
        },
        ProgressEvent::PrePass { notices } => PhaseUpdate {
            name: text_of("pre-pass"),
            done: Some(*notices),
            total: None,
            detail: text_of("notices swept into buckets"),
        },
        ProgressEvent::Grouped { tenders, islands } => {
            let mut detail = String::from_str("plan grouped: ");
            push_u64(&mut detail, *tenders);
            detail.append(" tenders, ");
            push_u64(&mut detail, *islands);
            detail.append(" single-notice islands");
            PhaseUpdate { name: text_of("folding"), done: Some(0), total: Some(*tenders), detail }
        },
        ProgressEvent::Applying { tenders, total, versions, leaf_rows } => {
            let mut detail = String::new();
            push_u64(&mut detail, *versions);
            detail.append(" version rows written, ");
            push_u64(&mut detail, *leaf_rows);
            detail.append(" leaf rows");
            proof {
                assert(detail@ =~= dec(*versions as nat) + " version rows written, "@ + dec(
                    *leaf_rows as nat,
                ) + " leaf rows"@);
            }
            PhaseUpdate {
                name: text_of("folding"),
                done: Some(*tenders),
                total: Some(*total),
                detail,
            }
        },
    }
}

} // verus!
