//! Id-range windows for the data-quality measurement and the resume prefix of
//! a package walk.
use vstd::prelude::*;

verus! {

/// Span of tender ids measured per data-quality window.
pub const DQ_WINDOW: i64 = 250_000;

/// The windows that cover `[floor, max_id)`, each `DQ_WINDOW` wide except a
/// short tail.
pub open spec fn dq_window_seq(floor: int, max_id: int) -> Seq<(i64, i64)>
    decreases max_id - floor,
{
    if floor < max_id {
        let hi = if floor + DQ_WINDOW < max_id { floor + DQ_WINDOW } else { max_id };
        seq![(floor as i64, hi as i64)] + dq_window_seq(hi, max_id)
    } else {
        Seq::empty()
    }
}

/// Split `[floor, max_id)` into consecutive windows of at most `DQ_WINDOW` ids.
pub fn dq_windows(floor: i64, max_id: i64) -> (out: Vec<(i64, i64)>)
    ensures
        out@ == dq_window_seq(floor as int, max_id as int),
{
    let mut out: Vec<(i64, i64)> = Vec::new();
    let mut lo: i64 = floor;
    while lo < max_id
        invariant
            floor <= lo || floor >= max_id,
            lo == floor || lo <= max_id,
            out@ + dq_window_seq(lo as int, max_id as int) == dq_window_seq(floor as int, max_id as int),
        decreases max_id - lo,
    {
        let hi: i64 = match lo.checked_add(DQ_WINDOW) {
            Some(v) => if v < max_id { v } else { max_id },
            None => max_id,
        };
        let ghost before = out@;
        out.push((lo, hi));
        proof {
            assert(out@ + dq_window_seq(hi as int, max_id as int) =~= before + dq_window_seq(lo as int, max_id as int));
        }
        lo = hi;
    }
    out
}

/// `a` sorts at or before `b`, comparing character by character (the order of
/// `str`'s `<=`).
pub open spec fn text_le(a: Seq<char>, b: Seq<char>) -> bool
    decreases a.len(),
{
    if a.len() == 0 {
        true
    } else if b.len() == 0 {
        false
    } else if a[0] != b[0] {
        a[0] < b[0]
    } else {
        text_le(a.drop_first(), b.drop_first())
    }
}

/// Whether `a <= b` as strings.
pub fn str_le(a: &str, b: &str) -> (r: bool)
    ensures
        r == text_le(a@, b@),
{
    let n = a.unicode_len();
    let m = b.unicode_len();
    let mut i: usize = 0;
    proof {
        assert(a@.skip(0) =~= a@);
        assert(b@.skip(0) =~= b@);
    }
    while i < n && i < m
        invariant
            n == a@.len(),
            m == b@.len(),
            i <= n,
            i <= m,
            forall|j: int| 0 <= j < i ==> a@[j] == b@[j],
            text_le(a@, b@) == text_le(a@.skip(i as int), b@.skip(i as int)),
        decreases n - i,
    {
        let x = a.get_char(i);
        let y = b.get_char(i);
        proof {
            assert(a@.skip(i as int)[0] == x);
            assert(b@.skip(i as int)[0] == y);
            assert(a@.skip(i as int).drop_first() =~= a@.skip(i + 1));
            assert(b@.skip(i as int).drop_first() =~= b@.skip(i + 1));
        }
        if x != y {
            return x < y;
        }
        i = i + 1;
    }
    proof {
        if i == n {
            assert(a@.skip(i as int).len() == 0);
        } else {
            assert(b@.skip(i as int).len() == 0);
        }
    }
    i == n
}

/// A package of the registry, as a resumed walk reads it.
#[derive(Debug)]
pub struct Package {
    pub fetch_id: i64,
    pub period: String,
    pub path: String,
}

/// How many leading periods sort at or before `cursor`.
pub open spec fn leading_at_or_before(periods: Seq<Seq<char>>, cursor: Seq<char>) -> nat
    decreases periods.len(),
{
    if periods.len() == 0 {
        0
    } else if text_le(periods[0], cursor) {
        1 + leading_at_or_before(periods.drop_first(), cursor)
    } else {
        0
    }
}

/// The periods of a list of packages.
pub open spec fn periods_of(packages: Seq<Package>) -> Seq<Seq<char>> {
    packages.map_values(|p: Package| p.period@)
}

/// How many leading packages a resumed process job skips: the period-ordered
/// prefix at or before the cursor. A fresh job (no cursor) skips nothing.
pub fn resume_skip(packages: &[Package], resume_after: Option<&str>) -> (r: usize)
    ensures
        r == match resume_after {
            None => 0,
            Some(c) => leading_at_or_before(periods_of(packages@), c@),
        },
{
    let cursor = match resume_after {
        None => return 0,
        Some(c) => c,
    };
    let ghost ps = periods_of(packages@);
    let mut i: usize = 0;
    proof {
        assert(ps.skip(0) =~= ps);
    }
    while i < packages.len()
        invariant
            i <= packages@.len(),
            resume_after == Some(cursor),
            ps == periods_of(packages@),
            leading_at_or_before(ps, cursor@) == i + leading_at_or_before(ps.skip(i as int), cursor@),
        decreases packages@.len() - i,
    {
        proof {
            assert(ps.skip(i as int)[0] == packages@[i as int].period@);
            assert(ps.skip(i as int).drop_first() =~= ps.skip(i + 1));
        }
        if !str_le(packages[i].period.as_str(), cursor) {
            proof {
                assert(!text_le(ps.skip(i as int)[0], cursor@));
                assert(ps.skip(i as int).len() > 0);
                assert(leading_at_or_before(ps.skip(i as int), cursor@) == 0);
                assert(leading_at_or_before(ps, cursor@) == i);
            }
            return i;
        }
        i = i + 1;
    }
    proof {
        assert(ps.skip(i as int).len() == 0);
    }
    i
}

} // verus!
