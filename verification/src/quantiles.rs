//! The distribution read-outs of the census reports: nearest-rank
//! percentiles over a sorted list, and a count as a whole percentage of
//! another.
use vstd::prelude::*;

verus! {

/// Where percentile `p` falls in a sorted list of `len` values:
/// `(len - 1) * p / 100`, rounded down.
pub open spec fn rank_index(len: nat, p: nat) -> int {
    ((len - 1) * p) / 100
}

/// Percentile `p` of an ascending list: the value at `rank_index`, or `none`
/// for an empty list.
pub open spec fn percentile_spec<T>(sorted: Seq<T>, p: nat, none: T) -> T {
    if sorted.len() == 0 {
        none
    } else {
        sorted[rank_index(sorted.len(), p)]
    }
}

/// Percentile `p` of an ascending list.
pub fn percentile<T: Copy>(sorted: &Vec<T>, p: usize, none: T) -> (r: T)
    requires
        p <= 100,
        sorted@.len() * 100 <= usize::MAX,
    ensures
        r == percentile_spec(sorted@, p as nat, none),
{
    if sorted.len() == 0 {
        return none;
    }
    let n = sorted.len();
    proof {
        assert((n - 1) * p <= (n - 1) * 100) by (nonlinear_arith)
            requires
                p <= 100,
                n >= 1,
        ;
        assert(((n - 1) * p) / 100 <= n - 1) by (nonlinear_arith)
            requires
                p <= 100,
                n >= 1,
        ;
    }
    let i = (n - 1) * p / 100;
    sorted[i]
}

/// `n` as a whole percentage of `whole`, rounded down; 0 of nothing.
pub open spec fn share_of(n: u64, whole: u64) -> int {
    if whole == 0 {
        0
    } else {
        (n * 100) / (whole as int)
    }
}

/// `n` as a whole percentage of `whole`.
pub fn share_pct(n: u64, whole: u64) -> (r: u64)
    requires
        n * 100 <= u64::MAX,
    ensures
        r == share_of(n, whole),
{
    if whole == 0 {
        0
    } else {
        n * 100 / whole
    }
}

} // verus!
