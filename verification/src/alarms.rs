//! Tripwires: the edge-store growth alarm, the parser-vs-stock counters and
//! the genericness-wall suffix of a fold's job row.
use vstd::prelude::*;
use crate::text::{bool_text, dec, push_bool, push_u64};

verus! {

/// The edge store shrank since the last anchored run.
pub open spec fn edge_shrunk(baseline: int, before_writes: int) -> bool {
    before_writes < baseline
}

/// How far the edge store grew past the baseline (never negative).
pub open spec fn edge_growth(baseline: int, total: int) -> int {
    if total - baseline > 0 {
        total - baseline
    } else {
        0
    }
}

/// The growth is past the volume ceiling or more than twice the reviewed plan.
pub open spec fn edge_spiked(baseline: int, total: int, plan_expect: int, ceiling: int) -> bool {
    let growth = edge_growth(baseline, total);
    let plan = if plan_expect > 1 { plan_expect } else { 1 };
    growth > ceiling || growth > 2 * plan
}

/// The edge-store monotone check: `SHRUNK` when the count before this run's
/// writes fell below the baseline, else `SPIKE` when the growth over the
/// baseline passes `ceiling` or twice the reviewed plan, else nothing.
pub fn edge_alarm(baseline: i64, before_writes: i64, total: i64, plan_expect: u64, ceiling: u64) -> (r:
    Option<&'static str>)
    requires
        i64::MIN <= total - baseline <= i64::MAX,
        plan_expect <= u64::MAX / 2,
    ensures
        edge_shrunk(baseline as int, before_writes as int) ==> r.is_some() && r.unwrap()@
            == "SHRUNK"@,
        !edge_shrunk(baseline as int, before_writes as int) && edge_spiked(
            baseline as int,
            total as int,
            plan_expect as int,
            ceiling as int,
        ) ==> r.is_some() && r.unwrap()@ == "SPIKE"@,
        !edge_shrunk(baseline as int, before_writes as int) && !edge_spiked(
            baseline as int,
            total as int,
            plan_expect as int,
            ceiling as int,
        ) ==> r.is_none(),
{
    if before_writes < baseline {
        return Some("SHRUNK");
    }
    let diff = total - baseline;
    let growth: u64 = if diff > 0 {
        diff as u64
    } else {
        0
    };
    let plan: u64 = if plan_expect > 1 {
        plan_expect
    } else {
        1
    };
    if growth > ceiling || growth > 2 * plan {
        return Some("SPIKE");
    }
    None
}

/// The previous `org-merge-health` report's counters that the tripwire compares
/// against; a counter the report did not carry is `None`.
#[derive(Debug)]
pub struct PvsBaseline {
    pub no_longer_vat: Option<u64>,
    pub vat_country_differs: Option<u64>,
}

/// The baseline a borrowed baseline names.
pub open spec fn baseline_of(before: Option<&PvsBaseline>) -> Option<PvsBaseline> {
    match before {
        Some(b) => Some(*b),
        None => None,
    }
}

/// How far above its floor a counter may drift before it alarms.
pub open spec fn tolerance(was: int) -> int {
    if was / 10 > 25 {
        was / 10
    } else {
        25
    }
}

/// `<label> <was> -> <current>` when the counter rose past its floor's
/// tolerance; nothing without a floor.
pub open spec fn watch_alarm(label: Seq<char>, current: int, floor: Option<u64>) -> Seq<Seq<char>> {
    match floor {
        None => Seq::empty(),
        Some(was) => if current > was + tolerance(was as int) {
            seq![label + " "@ + dec(was as nat) + " -> "@ + dec(current as nat)]
        } else {
            Seq::empty()
        },
    }
}

/// The floor of one counter, read from the baseline if there is one.
pub open spec fn floor_of(before: Option<PvsBaseline>, no_longer_vat: bool) -> Option<u64> {
    match before {
        None => None,
        Some(b) => if no_longer_vat {
            b.no_longer_vat
        } else {
            b.vat_country_differs
        },
    }
}

/// The `vat_refused` alarm text.
pub open spec fn vat_refused_text(n: int) -> Seq<char> {
    "vat_refused "@ + dec(n as nat) + " (floor is 0)"@
}

/// The `gln_shared_one_country` alarm text.
pub open spec fn gln_text(n: int) -> Seq<char> {
    "gln_shared_one_country "@ + dec(n as nat)
        + " (floor is 0 — a shared Austrian GLN under ONE country is a merge path that has opened)"@
}

/// The alarms of one parser-vs-stock run, in order: the two counters with a
/// floor and a tolerance, then the two zero-floor counters.
pub open spec fn pvs_alarms(
    before: Option<PvsBaseline>,
    no_longer_vat: int,
    vat_country_differs: int,
    vat_refused: int,
    gln_shared_one_country: int,
) -> Seq<Seq<char>> {
    watch_alarm("no_longer_vat"@, no_longer_vat, floor_of(before, true)) + watch_alarm(
        "vat_country_differs"@,
        vat_country_differs,
        floor_of(before, false),
    ) + (if vat_refused > 0 {
        seq![vat_refused_text(vat_refused)]
    } else {
        Seq::empty()
    }) + (if gln_shared_one_country > 0 {
        seq![gln_text(gln_shared_one_country)]
    } else {
        Seq::empty()
    })
}

/// The floors fit: adding a tolerance to a floor stays inside `u64`.
pub open spec fn floors_fit(before: Option<PvsBaseline>) -> bool {
    forall|b: bool|
        #[trigger] floor_of(before, b).is_some() ==> floor_of(before, b).unwrap() + tolerance(
            floor_of(before, b).unwrap() as int,
        ) <= u64::MAX
}

fn watch(alarms: &mut Vec<String>, label: &str, current: u64, floor: Option<u64>)
    requires
        floor.is_some() ==> floor.unwrap() + tolerance(floor.unwrap() as int) <= u64::MAX,
    ensures
        final(alarms)@.map_values(|s: String| s@) == old(alarms)@.map_values(|s: String| s@)
            + watch_alarm(label@, current as int, floor),
{
    match floor {
        None => {
            proof {
                assert(final(alarms)@.map_values(|s: String| s@) =~= old(alarms)@.map_values(
                    |s: String| s@,
                ) + watch_alarm(label@, current as int, floor));
            }
        },
        Some(was) => {
            let tenth = was / 10;
            let tol: u64 = if tenth > 25 {
                tenth
            } else {
                25
            };
            if current > was + tol {
                let mut s = String::from_str(label);
                s.append(" ");
                push_u64(&mut s, was);
                s.append(" -> ");
                push_u64(&mut s, current);
                let ghost before = alarms@;
                alarms.push(s);
                proof {
                    assert(alarms@.map_values(|s: String| s@) =~= before.map_values(|s: String| s@)
                        + watch_alarm(label@, current as int, floor));
                }
            } else {
                proof {
                    assert(alarms@.map_values(|s: String| s@) =~= old(alarms)@.map_values(
                        |s: String| s@,
                    ) + watch_alarm(label@, current as int, floor));
                }
            }
        },
    }
}

/// Which parser-vs-stock counters moved far enough to alarm, given the previous
/// report's counters as the floors.
pub fn parser_vs_stock_alarms(
    before: Option<&PvsBaseline>,
    no_longer_vat: u64,
    vat_country_differs: u64,
    vat_refused: u64,
    gln_shared_one_country: u64,
) -> (r: Vec<String>)
    requires
        floors_fit(baseline_of(before)),
    ensures
        r@.map_values(|s: String| s@) == pvs_alarms(
            baseline_of(before),
            no_longer_vat as int,
            vat_country_differs as int,
            vat_refused as int,
            gln_shared_one_country as int,
        ),
{
    let ghost bv = baseline_of(before);
    let mut alarms: Vec<String> = Vec::new();
    let f1: Option<u64> = match before {
        Some(b) => b.no_longer_vat,
        None => None,
    };
    let f2: Option<u64> = match before {
        Some(b) => b.vat_country_differs,
        None => None,
    };
    proof {
        assert(f1 == floor_of(bv, true));
        assert(f2 == floor_of(bv, false));
    }
    watch(&mut alarms, "no_longer_vat", no_longer_vat, f1);
    watch(&mut alarms, "vat_country_differs", vat_country_differs, f2);
    let ghost after_watch = alarms@.map_values(|s: String| s@);
    if vat_refused > 0 {
        let mut s = String::from_str("vat_refused ");
        push_u64(&mut s, vat_refused);
        s.append(" (floor is 0)");
        alarms.push(s);
    }
    let ghost after_refused = alarms@.map_values(|s: String| s@);
    proof {
        assert(after_refused =~= after_watch + (if vat_refused > 0 {
            seq![vat_refused_text(vat_refused as int)]
        } else {
            Seq::empty()
        }));
    }
    if gln_shared_one_country > 0 {
        let mut s = String::from_str("gln_shared_one_country ");
        push_u64(&mut s, gln_shared_one_country);
        s.append(
            " (floor is 0 — a shared Austrian GLN under ONE country is a merge path that has opened)",
        );
        alarms.push(s);
    }
    proof {
        assert(alarms@.map_values(|s: String| s@) =~= after_refused + (if gln_shared_one_country
            > 0 {
            seq![gln_text(gln_shared_one_country as int)]
        } else {
            Seq::empty()
        }));
        assert(Seq::<String>::empty().map_values(|s: String| s@) =~= Seq::<Seq<char>>::empty());
    }
    alarms
}

/// What the genericness wall did during a fold.
#[derive(Debug)]
pub struct WallCounts {
    pub resolved: bool,
    pub enabled: bool,
    pub anchor_reached: u64,
    pub asked: u64,
    pub denied: u64,
    pub errored: u64,
}

/// `; issue-318 wall enabled=<b> reached <n> asked <n> refused <n>`.
pub open spec fn wall_counts_text(w: WallCounts) -> Seq<char> {
    "; issue-318 wall enabled="@ + bool_text(w.enabled) + " reached "@ + dec(
        w.anchor_reached as nat,
    ) + " asked "@ + dec(w.asked as nat) + " refused "@ + dec(w.denied as nat)
}

/// The job-row suffix for the wall: its counts (with an error note when a probe
/// errored) once anything reached it, a warning when a resolver ran with the wall
/// disabled, and nothing otherwise.
pub open spec fn wall_suffix_spec(w: WallCounts) -> Seq<char> {
    if w.errored > 0 {
        wall_counts_text(w) + " — "@ + dec(w.errored as nat)
            + " PROBE(S) ERRORED, those binds took the pre-318 bar"@
    } else if w.anchor_reached > 0 {
        wall_counts_text(w)
    } else if w.resolved && !w.enabled {
        "; issue-318 wall DISABLED this run (key build in flight or interrupted) — anchor binds took the pre-318 bar"@
    } else {
        Seq::empty()
    }
}

/// What the genericness wall did this run, as the suffix of the durable job row.
pub fn wall_suffix(w: &WallCounts) -> (r: String)
    ensures
        r@ == wall_suffix_spec(*w),
{
    if w.errored > 0 || w.anchor_reached > 0 {
        let mut s = String::from_str("; issue-318 wall enabled=");
        push_bool(&mut s, w.enabled);
        s.append(" reached ");
        push_u64(&mut s, w.anchor_reached);
        s.append(" asked ");
        push_u64(&mut s, w.asked);
        s.append(" refused ");
        push_u64(&mut s, w.denied);
        if w.errored > 0 {
            s.append(" — ");
            push_u64(&mut s, w.errored);
            s.append(" PROBE(S) ERRORED, those binds took the pre-318 bar");
        }
        s
    } else if w.resolved && !w.enabled {
        String::from_str(
            "; issue-318 wall DISABLED this run (key build in flight or interrupted) — anchor binds took the pre-318 bar",
        )
    } else {
        String::new()
    }
}

} // verus!
