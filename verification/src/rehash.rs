//! The re-hash probe's cycle over the package registry: each run re-fetches a
//! page of packages past its cursor, wraps to the oldest when the page runs
//! short, and tallies how each package came out.
use vstd::prelude::*;
use crate::text::{dec, push_u64};

verus! {

/// A registry row: package id, source, kind and period.
pub type RegistryRow = (i64, String, String, String);

/// How many more rows a short page asks for from the registry's start: the
/// shortfall, when the page holds fewer than `samples`.
pub fn rehash_shortfall(page_len: usize, samples: usize) -> (r: Option<usize>)
    ensures
        r == if page_len < samples {
            Some((samples - page_len) as usize)
        } else {
            None::<usize>
        },
{
    if page_len < samples {
        Some(samples - page_len)
    } else {
        None
    }
}

/// The rows of `s` whose id is at or before `after`, in order.
pub open spec fn at_or_before(s: Seq<RegistryRow>, after: i64) -> Seq<RegistryRow>
    decreases s.len(),
{
    if s.len() == 0 {
        Seq::empty()
    } else {
        at_or_before(s.drop_last(), after) + if s.last().0 <= after {
            seq![s.last()]
        } else {
            Seq::empty()
        }
    }
}

/// Wraps a short page: the rows read from the registry's start follow it,
/// those at or before the cursor only (the rest were this run's page).
pub fn rehash_wrap(page: &mut Vec<RegistryRow>, more: Vec<RegistryRow>, after: i64)
    ensures
        final(page)@ == old(page)@ + at_or_before(more@, after),
{
    let ghost m0 = more@;
    let ghost p0 = page@;
    let mut more = more;
    let n0 = more.len();
    let mut k: usize = 0;
    proof {
        assert(m0.skip(0) =~= m0);
        assert(at_or_before(m0.take(0), after) =~= Seq::<RegistryRow>::empty());
        assert(page@ =~= p0 + at_or_before(m0.take(0), after));
    }
    while more.len() > 0
        invariant
            k <= m0.len(),
            more@ == m0.skip(k as int),
            m0.len() == more@.len() + k,
            m0.len() == n0,
            page@ == p0 + at_or_before(m0.take(k as int), after),
        decreases more@.len(),
    {
        let row = more.remove(0);
        proof {
            assert(row == m0[k as int]);
            assert(m0.take(k + 1).drop_last() =~= m0.take(k as int));
            assert(m0.take(k + 1).last() == m0[k as int]);
            assert(more@ =~= m0.skip(k + 1));
        }
        let keep = row.0 <= after;
        let ghost before = page@;
        if keep {
            page.push(row);
            proof {
                assert(page@ =~= before.push(m0[k as int]));
                assert(page@ =~= p0 + at_or_before(m0.take(k + 1), after));
            }
        } else {
            proof {
                assert(page@ =~= p0 + at_or_before(m0.take(k + 1), after));
            }
        }
        k = k + 1;
    }
    proof {
        assert(m0.take(k as int) =~= m0);
    }
}

/// The greatest of `ids`, or `none` when there are none.
pub open spec fn max_or(ids: Seq<i64>, none: i64) -> i64
    decreases ids.len(),
{
    if ids.len() == 0 {
        none
    } else {
        let m = max_or(ids.drop_last(), none);
        if ids.last() > m || ids.len() == 1 {
            ids.last()
        } else {
            m
        }
    }
}

/// The cursor the next run starts after: a wrapped run restarts at the newest
/// id it consumed (0 for an empty page); otherwise the cursor stands where the
/// run moved it.
pub fn rehash_next_cursor(wrapped: bool, ids: &Vec<i64>, cursor: i64) -> (r: i64)
    ensures
        r == if wrapped {
            max_or(ids@, 0)
        } else {
            cursor
        },
{
    if !wrapped {
        return cursor;
    }
    let mut m: i64 = 0;
    let mut i: usize = 0;
    while i < ids.len()
        invariant
            i <= ids@.len(),
            m == max_or(ids@.take(i as int), 0),
        decreases ids@.len() - i,
    {
        proof {
            assert(ids@.take(i + 1).drop_last() =~= ids@.take(i as int));
            assert(ids@.take(i + 1).last() == ids@[i as int]);
        }
        if ids[i] > m || i == 0 {
            m = ids[i];
        }
        i = i + 1;
    }
    proof {
        assert(ids@.take(ids@.len() as int) =~= ids@);
    }
    m
}

/// How one probed package came out.
#[derive(PartialEq, Eq, Structural, Clone, Copy, Debug)]
pub enum ProbeOutcome {
    /// Upstream serves the bytes we ingested.
    Unchanged,
    /// Upstream serves different bytes.
    Drifted,
    /// Upstream no longer serves the package.
    Gone,
    /// Neither answer: the package has no download address, the fetch came
    /// back otherwise, or it failed.
    Skipped,
}

/// The probe's running tallies and its cursor.
pub struct RehashTally {
    pub unchanged: u64,
    pub drifted: u64,
    pub gone: u64,
    pub skipped: u64,
    pub cursor: i64,
}

impl RehashTally {
    /// Nothing probed; the cursor stands at `after`.
    pub fn new(after: i64) -> (t: Self)
        ensures
            t.unchanged == 0,
            t.drifted == 0,
            t.gone == 0,
            t.skipped == 0,
            t.cursor == after,
    {
        RehashTally { unchanged: 0, drifted: 0, gone: 0, skipped: 0, cursor: after }
    }

    /// Counts package `id`'s outcome and moves the cursor up to it: a drifted
    /// or vanished package is reported, not re-probed next run.
    pub fn record(&mut self, id: i64, outcome: ProbeOutcome)
        requires
            old(self).unchanged < u64::MAX,
            old(self).drifted < u64::MAX,
            old(self).gone < u64::MAX,
            old(self).skipped < u64::MAX,
        ensures
            final(self).unchanged == old(self).unchanged + if outcome == ProbeOutcome::Unchanged {
                1int
            } else {
                0
            },
            final(self).drifted == old(self).drifted + if outcome == ProbeOutcome::Drifted {
                1int
            } else {
                0
            },
            final(self).gone == old(self).gone + if outcome == ProbeOutcome::Gone {
                1int
            } else {
                0
            },
            final(self).skipped == old(self).skipped + if outcome == ProbeOutcome::Skipped {
                1int
            } else {
                0
            },
            final(self).cursor == if id > old(self).cursor {
                id
            } else {
                old(self).cursor
            },
    {
        match outcome {
            ProbeOutcome::Unchanged => self.unchanged = self.unchanged + 1,
            ProbeOutcome::Drifted => self.drifted = self.drifted + 1,
            ProbeOutcome::Gone => self.gone = self.gone + 1,
            ProbeOutcome::Skipped => self.skipped = self.skipped + 1,
        }
        if id > self.cursor {
            self.cursor = id;
        }
    }
}

/// The probe's result line.
pub open spec fn rehash_summary_text(probed: nat, t: RehashTally, wrapped: bool) -> Seq<char> {
    "rehash probe: "@ + dec(probed) + " probed — "@ + dec(t.unchanged as nat) + " unchanged, "@
        + dec(t.drifted as nat) + " drifted, "@ + dec(t.gone as nat) + " gone, "@ + dec(
        t.skipped as nat,
    ) + " skipped"@ + if wrapped {
        " (registry cycle wrapped)"@
    } else {
        Seq::empty()
    } + if t.drifted + t.gone > 0 {
        "; "@ + dec((t.drifted + t.gone) as nat) + " package(s) DRIFTED/GONE — read the report"@
    } else {
        Seq::empty()
    }
}

/// The probe's result line over `probed` packages.
pub fn rehash_summary(probed: usize, t: &RehashTally, wrapped: bool) -> (r: String)
    requires
        t.drifted + t.gone <= u64::MAX,
    ensures
        r@ == rehash_summary_text(probed as nat, *t, wrapped),
{
    let mut s = String::from_str("rehash probe: ");
    push_u64(&mut s, probed as u64);
    s.append(" probed — ");
    push_u64(&mut s, t.unchanged);
    s.append(" unchanged, ");
    push_u64(&mut s, t.drifted);
    s.append(" drifted, ");
    push_u64(&mut s, t.gone);
    s.append(" gone, ");
    push_u64(&mut s, t.skipped);
    s.append(" skipped");
    if wrapped {
        s.append(" (registry cycle wrapped)");
    }
    if t.drifted + t.gone > 0 {
        s.append("; ");
        push_u64(&mut s, t.drifted + t.gone);
        s.append(" package(s) DRIFTED/GONE — read the report");
    }
    s
}

} // verus!
