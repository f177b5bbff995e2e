//! The bounded batch walks of the backfill jobs (one batch per transaction,
//! past a watermark, until a batch finds nothing), their result lines, and
//! the result line of a projection run.
use vstd::prelude::*;
use crate::alarms::{wall_suffix, wall_suffix_spec, WallCounts};
use crate::text::{dec, dec_int, push_i64, push_u64};

verus! {

/// The sum of the batches' row counts.
pub open spec fn batch_sum(batches: Seq<i64>) -> int
    decreases batches.len(),
{
    if batches.len() == 0 {
        0
    } else {
        batch_sum(batches.drop_last()) + batches.last()
    }
}

/// A batch walk: the rows stamped so far, the watermark the next batch starts
/// past, and whether a batch has come back empty.
pub struct BatchWalk {
    pub stamped: i64,
    pub watermark: i64,
    pub done: bool,
    pub batches: Ghost<Seq<i64>>,
}

impl BatchWalk {
    /// The walk's state follows from its batches: the rows stamped are their
    /// sum, and none but the last, which ends the walk, came back empty.
    pub open spec fn wf(&self) -> bool {
        &&& self.stamped == batch_sum(self.batches@)
        &&& forall|i: int|
            0 <= i < self.batches@.len() ==> (#[trigger] self.batches@[i] == 0 <==> (self.done
                && i == self.batches@.len() - 1))
    }

    /// A walk from the start.
    pub fn new() -> (w: Self)
        ensures
            w.wf(),
            w.stamped == 0,
            w.watermark == 0,
            !w.done,
            w.batches@ == Seq::<i64>::empty(),
    {
        BatchWalk { stamped: 0, watermark: 0, done: false, batches: Ghost(Seq::empty()) }
    }

    /// Takes in one batch's answer: `rows` stamped and the watermark `next`
    /// it reached. An empty batch ends the walk and moves nothing; any other
    /// adds its rows and moves the watermark. Returns whether to go on.
    pub fn step(&mut self, rows: i64, next: i64) -> (go_on: bool)
        requires
            old(self).wf(),
            !old(self).done,
            i64::MIN <= old(self).stamped + rows <= i64::MAX,
        ensures
            final(self).wf(),
            final(self).batches@ == old(self).batches@.push(rows),
            go_on == (rows != 0),
            final(self).done == (rows == 0),
            final(self).stamped == old(self).stamped + rows,
            final(self).watermark == if rows == 0 {
                old(self).watermark
            } else {
                next
            },
    {
        let ghost b0 = self.batches@;
        let ghost b1 = b0.push(rows);
        self.batches = Ghost(b1);
        proof {
            assert(b1.drop_last() =~= b0);
        }
        if rows == 0 {
            self.done = true;
            proof {
                assert forall|i: int| 0 <= i < b1.len() implies (#[trigger] b1[i] == 0 <==> (true && i
                    == b1.len() - 1)) by {
                    if i < b0.len() {
                        assert(b1[i] == b0[i]);
                    }
                }
            }
            return false;
        }
        self.stamped = self.stamped + rows;
        self.watermark = next;
        proof {
            assert forall|i: int| 0 <= i < b1.len() implies (#[trigger] b1[i] == 0 <==> (false && i
                == b1.len() - 1)) by {
                if i < b0.len() {
                    assert(b1[i] == b0[i]);
                }
            }
        }
        true
    }
}

/// A backfill whose walk stamps one column over a table.
#[derive(PartialEq, Eq, Structural, Clone, Copy, Debug)]
pub enum Backfill {
    OrgNames,
    Deadlines,
    Titles,
    OriginalLang,
    Values,
}

/// A backfill's result line.
pub open spec fn backfill_summary_text(b: Backfill, stamped: int) -> Seq<char> {
    match b {
        Backfill::OrgNames => "name_norm stamped over "@ + dec_int(stamped) + " organizations"@,
        Backfill::Deadlines => "current_deadline stamped over "@ + dec_int(stamped)
            + " tenders (head-version submission_deadline; NULL where none is published)"@,
        Backfill::Titles => "current_title stamped over "@ + dec_int(stamped)
            + " tenders (head-version title, Tender's own before a lot's; NULL where none is published)"@,
        Backfill::OriginalLang => "original_lang backfill walked "@ + dec_int(stamped)
            + " tenders, every NULL version of theirs stamped from its notice's own language code (BT-702 / LG_ORIG / OL, in the fold's 639-2/T vocabulary — ADR-0013 D3's third leg). Left NULL where the era never said: the 1990s text notices before the OL line."@,
        Backfill::Values => "current_value_eur_cents stamped over "@ + dec_int(stamped)
            + " tenders (head-version MAX derived-EUR amount; NULL where none converts — ADR-0014 D4)"@,
    }
}

/// A backfill's result line over the rows its walk stamped.
pub fn backfill_summary(b: Backfill, stamped: i64) -> (r: String)
    ensures
        r@ == backfill_summary_text(b, stamped as int),
{
    let mut s = String::from_str(
        match b {
            Backfill::OrgNames => "name_norm stamped over ",
            Backfill::Deadlines => "current_deadline stamped over ",
            Backfill::Titles => "current_title stamped over ",
            Backfill::OriginalLang => "original_lang backfill walked ",
            Backfill::Values => "current_value_eur_cents stamped over ",
        },
    );
    push_i64(&mut s, stamped);
    s.append(
        match b {
            Backfill::OrgNames => " organizations",
            Backfill::Deadlines =>
                " tenders (head-version submission_deadline; NULL where none is published)",
            Backfill::Titles =>
                " tenders (head-version title, Tender's own before a lot's; NULL where none is published)",
            Backfill::OriginalLang =>
                " tenders, every NULL version of theirs stamped from its notice's own language code (BT-702 / LG_ORIG / OL, in the fold's 639-2/T vocabulary — ADR-0013 D3's third leg). Left NULL where the era never said: the 1990s text notices before the OL line.",
            Backfill::Values =>
                " tenders (head-version MAX derived-EUR amount; NULL where none converts — ADR-0014 D4)",
        },
    );
    s
}

/// The result line of a EUR re-derivation: the rates it read, the tenders it
/// walked, where it resumed (when it did) and how many money rows changed.
pub open spec fn rederive_summary_text(
    cached: int,
    tenders: int,
    resumed: int,
    updated: int,
    scanned: int,
) -> Seq<char> {
    "eur_cents re-derived from "@ + dec_int(cached) + " cached rates over "@ + dec_int(tenders)
        + " tenders"@ + if resumed > 0 {
        " (resumed past tender id "@ + dec_int(resumed) + ")"@
    } else {
        Seq::empty()
    } + ": "@ + dec_int(updated) + " of "@ + dec_int(scanned)
        + " money rows changed — follow with backfill-values (issue 306)"@
}

/// The result line of a EUR re-derivation.
pub fn rederive_summary(cached: i64, tenders: i64, resumed: i64, updated: i64, scanned: i64) -> (r:
    String)
    ensures
        r@ == rederive_summary_text(
            cached as int,
            tenders as int,
            resumed as int,
            updated as int,
            scanned as int,
        ),
{
    let mut s = String::from_str("eur_cents re-derived from ");
    push_i64(&mut s, cached);
    s.append(" cached rates over ");
    push_i64(&mut s, tenders);
    s.append(" tenders");
    if resumed > 0 {
        s.append(" (resumed past tender id ");
        push_i64(&mut s, resumed);
        s.append(")");
    }
    s.append(": ");
    push_i64(&mut s, updated);
    s.append(" of ");
    push_i64(&mut s, scanned);
    s.append(" money rows changed — follow with backfill-values (issue 306)");
    s
}

/// What a projection run reports.
pub struct ProjectReport {
    pub stopped: bool,
    pub notices: u64,
    pub tenders: u64,
    pub islands: u64,
    pub versions_written: u64,
    pub tenders_written: u64,
    pub tenders_unchanged: u64,
    pub wall: WallCounts,
}

/// A projection run's result line: a stopped run says so first, since its
/// tallies are committed work but not a finished fold.
pub open spec fn project_summary_text(r: ProjectReport) -> Seq<char> {
    (if r.stopped {
        "CANCELLED at a checkpoint — "@
    } else {
        Seq::empty()
    }) + dec(r.notices as nat) + " notices → "@ + dec(r.tenders as nat) + " tenders ("@ + dec(
        r.islands as nat,
    ) + " islands), "@ + dec(r.versions_written as nat) + " versions; "@ + dec(
        r.tenders_written as nat,
    ) + " tenders written, "@ + dec(r.tenders_unchanged as nat) + " verified unchanged"@
        + wall_suffix_spec(r.wall)
}

/// A projection run's result line.
pub fn project_summary(r: &ProjectReport) -> (s: String)
    ensures
        s@ == project_summary_text(*r),
{
    let mut s = String::new();
    if r.stopped {
        s.append("CANCELLED at a checkpoint — ");
    }
    push_u64(&mut s, r.notices);
    s.append(" notices → ");
    push_u64(&mut s, r.tenders);
    s.append(" tenders (");
    push_u64(&mut s, r.islands);
    s.append(" islands), ");
    push_u64(&mut s, r.versions_written);
    s.append(" versions; ");
    push_u64(&mut s, r.tenders_written);
    s.append(" tenders written, ");
    push_u64(&mut s, r.tenders_unchanged);
    s.append(" verified unchanged");
    let w = wall_suffix(&r.wall);
    s.append(w.as_str());
    s
}

} // verus!
