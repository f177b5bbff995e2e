//! The R3 census over the NULL-country identifier pool: which values carry a
//! register prefix, which the checksum schemes anchor to exactly one scheme,
//! and how the anchored ones fare against the standing target map.
use vstd::prelude::*;
use crate::text::{dec, push_u64};

verus! {

/// An ASCII letter.
pub open spec fn is_alpha(c: char) -> bool {
    ('A' <= c && c <= 'Z') || ('a' <= c && c <= 'z')
}

/// The value carries a letter: a register-prefixed identifier, the separate
/// R3 alternative, set aside before any checksum is asked.
pub open spec fn register_prefixed_spec(value: Seq<char>) -> bool {
    exists|i: int| 0 <= i < value.len() && is_alpha(#[trigger] value[i])
}

/// Whether the value carries a letter.
pub fn register_prefixed(value: &str) -> (r: bool)
    ensures
        r == register_prefixed_spec(value@),
{
    let n = value.unicode_len();
    let mut i: usize = 0;
    while i < n
        invariant
            n == value@.len(),
            i <= n,
            forall|j: int| 0 <= j < i ==> !is_alpha(#[trigger] value@[j]),
        decreases n - i,
    {
        let c = value.get_char(i);
        if ('A' <= c && c <= 'Z') || ('a' <= c && c <= 'z') {
            return true;
        }
        i = i + 1;
    }
    false
}

/// A scheme name marking an ambiguity by construction (such as `DK|SI`), never
/// an anchor of its own.
pub open spec fn is_marker(scheme: Seq<char>) -> bool {
    exists|i: int| 0 <= i < scheme.len() && scheme[i] == '|'
}

/// The positions of the real anchors (not markers), in order.
pub open spec fn real_anchors(anchors: Seq<(Seq<char>, Seq<char>)>) -> Seq<int>
    decreases anchors.len(),
{
    if anchors.len() == 0 {
        Seq::empty()
    } else {
        real_anchors(anchors.drop_last()) + if is_marker(anchors.last().0) {
            Seq::empty()
        } else {
            seq![anchors.len() - 1]
        }
    }
}

/// How the checksum anchors of a value fall.
#[derive(PartialEq, Eq, Structural, Clone, Copy, Debug)]
pub enum AnchorClass {
    /// No real anchor.
    Unanchored,
    /// More than one real anchor, or a marker beside one: ambiguous.
    Ambiguous,
    /// Exactly one real anchor, at this position, and no marker.
    Anchored(usize),
}

/// How anchors (scheme, key) fall: no real anchor, ambiguity, or exactly one.
pub open spec fn anchor_class_spec(anchors: Seq<(Seq<char>, Seq<char>)>) -> AnchorClass {
    let reals = real_anchors(anchors);
    if reals.len() == 0 {
        AnchorClass::Unanchored
    } else if anchors.len() > reals.len() || reals.len() > 1 {
        AnchorClass::Ambiguous
    } else {
        AnchorClass::Anchored(reals[0] as usize)
    }
}

/// The anchors as plain values.
pub open spec fn anchors_v(a: Seq<(String, String)>) -> Seq<(Seq<char>, Seq<char>)> {
    a.map_values(|e: (String, String)| (e.0@, e.1@))
}

proof fn lemma_real_anchors_len(a: Seq<(Seq<char>, Seq<char>)>)
    ensures
        real_anchors(a).len() <= a.len(),
        forall|k: int| 0 <= k < real_anchors(a).len() ==> 0 <= #[trigger] real_anchors(a)[k] < a.len(),
    decreases a.len(),
{
    if a.len() > 0 {
        lemma_real_anchors_len(a.drop_last());
    }
}

/// How a value's checksum anchors fall.
pub fn anchor_class(anchors: &Vec<(String, String)>) -> (r: AnchorClass)
    ensures
        r == anchor_class_spec(anchors_v(anchors@)),
{
    let ghost a = anchors_v(anchors@);
    let n = anchors.len();
    let mut n_real: usize = 0;
    let mut first: usize = 0;
    let mut i: usize = 0;
    while i < n
        invariant
            n == anchors@.len(),
            a == anchors_v(anchors@),
            i <= n,
            n_real == real_anchors(a.take(i as int)).len(),
            n_real > 0 ==> first == real_anchors(a.take(i as int))[0],
            n_real <= i,
        decreases n - i,
    {
        proof {
            assert(a.take(i + 1).drop_last() =~= a.take(i as int));
            assert(a.take(i + 1).last() == a[i as int]);
            assert(a[i as int].0 == anchors@[i as int].0@);
            lemma_real_anchors_len(a.take(i as int));
        }
        let s = anchors[i].0.as_str();
        let m = s.unicode_len();
        let mut j: usize = 0;
        let mut marker = false;
        while j < m
            invariant
                m == s@.len(),
                j <= m,
                marker == exists|x: int| 0 <= x < j && s@[x] == '|',
            decreases m - j,
        {
            if s.get_char(j) == '|' {
                marker = true;
            }
            j = j + 1;
        }
        if !marker {
            if n_real == 0 {
                first = i;
            }
            n_real = n_real + 1;
            proof {
                assert(real_anchors(a.take(i + 1)) =~= real_anchors(a.take(i as int)).push(i as int));
            }
        } else {
            proof {
                assert(real_anchors(a.take(i + 1)) =~= real_anchors(a.take(i as int)));
            }
        }
        i = i + 1;
    }
    proof {
        assert(a.take(n as int) =~= a);
        lemma_real_anchors_len(a);
    }
    if n_real == 0 {
        AnchorClass::Unanchored
    } else if n > n_real || n_real > 1 {
        AnchorClass::Ambiguous
    } else {
        AnchorClass::Anchored(first)
    }
}

/// How a pooled org fares in the census.
#[derive(PartialEq, Eq, Structural, Clone, Copy, Debug)]
pub enum R3Outcome {
    RegisterPrefixed,
    Unanchored,
    Ambiguous,
    NoTarget,
    Uncorroborated,
    Corroborated,
}

/// The census counters over the pool.
pub struct R3Tally {
    pub pool: u64,
    pub register_prefixed: u64,
    pub unanchored_none: u64,
    pub unanchored_multi: u64,
    pub anchored_no_target: u64,
    pub anchored_uncorr: u64,
    pub anchored_corr: u64,
}

/// One more when `b`.
pub open spec fn plus_if(x: u64, b: bool) -> int {
    x + if b {
        1int
    } else {
        0
    }
}

impl R3Tally {
    /// The pool of `pool` orgs, none classified yet.
    pub fn new(pool: u64) -> (t: Self)
        ensures
            t.pool == pool,
            t.register_prefixed == 0 && t.unanchored_none == 0 && t.unanchored_multi == 0,
            t.anchored_no_target == 0 && t.anchored_uncorr == 0 && t.anchored_corr == 0,
    {
        R3Tally {
            pool,
            register_prefixed: 0,
            unanchored_none: 0,
            unanchored_multi: 0,
            anchored_no_target: 0,
            anchored_uncorr: 0,
            anchored_corr: 0,
        }
    }

    /// Counts one org's outcome.
    pub fn record(&mut self, o: R3Outcome)
        requires
            old(self).register_prefixed < u64::MAX,
            old(self).unanchored_none < u64::MAX,
            old(self).unanchored_multi < u64::MAX,
            old(self).anchored_no_target < u64::MAX,
            old(self).anchored_uncorr < u64::MAX,
            old(self).anchored_corr < u64::MAX,
        ensures
            final(self).pool == old(self).pool,
            final(self).register_prefixed == plus_if(old(self).register_prefixed, o == R3Outcome::RegisterPrefixed),
            final(self).unanchored_none == plus_if(old(self).unanchored_none, o == R3Outcome::Unanchored),
            final(self).unanchored_multi == plus_if(old(self).unanchored_multi, o == R3Outcome::Ambiguous),
            final(self).anchored_no_target == plus_if(old(self).anchored_no_target, o == R3Outcome::NoTarget),
            final(self).anchored_uncorr == plus_if(old(self).anchored_uncorr, o == R3Outcome::Uncorroborated),
            final(self).anchored_corr == plus_if(old(self).anchored_corr, o == R3Outcome::Corroborated),
    {
        match o {
            R3Outcome::RegisterPrefixed => self.register_prefixed = self.register_prefixed + 1,
            R3Outcome::Unanchored => self.unanchored_none = self.unanchored_none + 1,
            R3Outcome::Ambiguous => self.unanchored_multi = self.unanchored_multi + 1,
            R3Outcome::NoTarget => self.anchored_no_target = self.anchored_no_target + 1,
            R3Outcome::Uncorroborated => self.anchored_uncorr = self.anchored_uncorr + 1,
            R3Outcome::Corroborated => self.anchored_corr = self.anchored_corr + 1,
        }
    }
}

/// The census line.
pub open spec fn r3_summary_text(t: R3Tally) -> Seq<char> {
    "r3-census (issue 300 Stage 3): "@ + dec(t.pool as nat) + " NULL-country identifier orgs — "@
        + dec(t.anchored_corr as nat) + " anchored+corroborated (R3 merge candidates), "@ + dec(
        t.anchored_uncorr as nat,
    ) + " anchored without name corroboration (edges), "@ + dec(t.anchored_no_target as nat)
        + " anchored with no standing target, "@ + dec(t.unanchored_multi as nat)
        + " multi-scheme ambiguous (EBSCO class), "@ + dec(t.unanchored_none as nat)
        + " unanchored, "@ + dec(t.register_prefixed as nat)
        + " register-prefixed (the separate R3 alternative)"@
}

/// The census line of an R3 census run.
pub fn r3_summary(t: &R3Tally) -> (r: String)
    ensures
        r@ == r3_summary_text(*t),
{
    let mut s = String::from_str("r3-census (issue 300 Stage 3): ");
    push_u64(&mut s, t.pool);
    s.append(" NULL-country identifier orgs — ");
    push_u64(&mut s, t.anchored_corr);
    s.append(" anchored+corroborated (R3 merge candidates), ");
    push_u64(&mut s, t.anchored_uncorr);
    s.append(" anchored without name corroboration (edges), ");
    push_u64(&mut s, t.anchored_no_target);
    s.append(" anchored with no standing target, ");
    push_u64(&mut s, t.unanchored_multi);
    s.append(" multi-scheme ambiguous (EBSCO class), ");
    push_u64(&mut s, t.unanchored_none);
    s.append(" unanchored, ");
    push_u64(&mut s, t.register_prefixed);
    s.append(" register-prefixed (the separate R3 alternative)");
    s
}

} // verus!
