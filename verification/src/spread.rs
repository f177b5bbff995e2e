//! The distinct-name spread of the identifier-bearing organizations, as the
//! `org-merge-health` census walks them: how many orgs carry two, six and
//! twenty or more distinct mention names, the widest one, and the hundred
//! widest in rank order.
use vstd::prelude::*;
use vstd::multiset::Multiset;

verus! {

broadcast use vstd::seq_lib::group_to_multiset_ensures;

/// An org's distinct-name count and its id, ordered as a pair: by count, then
/// by id.
pub type Spread = (u64, i64);

/// How many of the widest orgs the census keeps.
pub const TOP_SPREAD: usize = 100;

/// `a` orders at or before `b`.
pub open spec fn spread_le(a: Spread, b: Spread) -> bool {
    a.0 < b.0 || (a.0 == b.0 && a.1 <= b.1)
}

/// The observations that `top` does not keep.
pub open spec fn dropped(top: Seq<Spread>, seen: Seq<Spread>) -> Multiset<Spread> {
    seen.to_multiset().sub(top.to_multiset())
}

/// `top` holds the `k` greatest of `seen` (all of them while there are fewer):
/// drawn from `seen`, and nothing left out orders after anything kept.
pub open spec fn keeps_greatest(top: Seq<Spread>, seen: Seq<Spread>, k: nat) -> bool {
    &&& top.len() == if seen.len() < k {
        seen.len()
    } else {
        k
    }
    &&& top.to_multiset().subset_of(seen.to_multiset())
    &&& forall|y: Spread, x: Spread|
        #![trigger dropped(top, seen).count(y), top.to_multiset().count(x)]
        dropped(top, seen).count(y) > 0 && top.to_multiset().count(x) > 0 ==> spread_le(y, x)
}

/// How many observations have at least `t` distinct names.
pub open spec fn count_at_least(seen: Seq<Spread>, t: u64) -> nat
    decreases seen.len(),
{
    if seen.len() == 0 {
        0
    } else {
        count_at_least(seen.drop_last(), t) + if seen.last().0 >= t {
            1nat
        } else {
            0nat
        }
    }
}

/// The widest observation, the first of the widest on a tie, `(0, 0)` before
/// any has more than none.
pub open spec fn widest(seen: Seq<Spread>) -> Spread
    decreases seen.len(),
{
    if seen.len() == 0 {
        (0, 0)
    } else {
        let m = widest(seen.drop_last());
        if seen.last().0 > m.0 {
            seen.last()
        } else {
            m
        }
    }
}

/// The census of distinct-name spread over the orgs observed so far.
pub struct NameSpread {
    pub orgs: u64,
    pub ge2: u64,
    pub ge6: u64,
    pub ge20: u64,
    pub max: Spread,
    pub top: Vec<Spread>,
    pub seen: Ghost<Seq<Spread>>,
}

impl NameSpread {
    /// Every org observed so far, in order.
    pub open spec fn seen(&self) -> Seq<Spread> {
        self.seen@
    }

    /// The counters and the kept set agree with what was observed.
    pub open spec fn wf(&self) -> bool {
        &&& self.orgs == self.seen@.len()
        &&& self.ge2 == count_at_least(self.seen@, 2)
        &&& self.ge6 == count_at_least(self.seen@, 6)
        &&& self.ge20 == count_at_least(self.seen@, 20)
        &&& self.max == widest(self.seen@)
        &&& keeps_greatest(self.top@, self.seen@, TOP_SPREAD as nat)
        &&& self.seen@.len() <= TOP_SPREAD ==> self.top@.to_multiset() == self.seen@.to_multiset()
    }

    /// Nothing observed.
    pub fn new() -> (s: Self)
        ensures
            s.wf(),
            s.seen() == Seq::<Spread>::empty(),
    {
        let s = NameSpread {
            orgs: 0,
            ge2: 0,
            ge6: 0,
            ge20: 0,
            max: (0, 0),
            top: Vec::new(),
            seen: Ghost(Seq::empty()),
        };
        proof {
            assert(s.top@.to_multiset() =~= s.seen@.to_multiset());
            assert(dropped(s.top@, s.seen@) =~= Multiset::empty());
        }
        s
    }

    /// Observes one org with `names` distinct mention names.
    pub fn observe(&mut self, names: u64, org: i64)
        requires
            old(self).wf(),
            old(self).seen().len() < u64::MAX,
        ensures
            final(self).wf(),
            final(self).seen() == old(self).seen().push((names, org)),
    {
        let x: Spread = (names, org);
        let ghost s0 = self.seen@;
        let ghost t0 = self.top@;
        let ghost s1 = s0.push(x);
        proof {
            assert(s1.drop_last() =~= s0);
            assert(s0.len() == self.orgs);
            assert(self.ge2 <= s0.len() && self.ge6 <= s0.len() && self.ge20 <= s0.len()) by {
                lemma_count_at_most(s0, 2);
                lemma_count_at_most(s0, 6);
                lemma_count_at_most(s0, 20);
            }
        }
        self.orgs = self.orgs + 1;
        if names >= 2 {
            self.ge2 = self.ge2 + 1;
        }
        if names >= 6 {
            self.ge6 = self.ge6 + 1;
        }
        if names >= 20 {
            self.ge20 = self.ge20 + 1;
        }
        if names > self.max.0 {
            self.max = x;
        }
        if self.top.len() < TOP_SPREAD {
            self.top.push(x);
            self.seen = Ghost(s1);
            proof {
                assert(s0.len() < TOP_SPREAD);
                assert(self.top@ =~= t0.push(x));
                assert(self.top@.to_multiset() =~= self.seen@.to_multiset());
                assert(dropped(self.top@, s1) =~= Multiset::empty());
            }
        } else {
            let m = self.least_kept();
            let t = self.top[m];
            if spread_lt(t, x) {
                let _ = self.top.remove(m);
                self.top.push(x);
                self.seen = Ghost(s1);
                proof {
                    let t1 = self.top@;
                    assert(t1 =~= t0.remove(m as int).push(x));
                    assert(t1.to_multiset() =~= t0.to_multiset().remove(t).insert(x));
                    assert(t0.to_multiset().count(t) > 0);
                    assert(dropped(t1, s1) =~= dropped(t0, s0).insert(t));
                    assert forall|y: Spread, z: Spread|
                        dropped(t1, s1).count(y) > 0 && t1.to_multiset().count(z) > 0 implies spread_le(
                            y,
                            z,
                        ) by {
                        if z != x {
                            assert(t0.to_multiset().count(z) > 0);
                            assert(t0.contains(z));
                            let j = choose|j: int| 0 <= j < t0.len() && t0[j] == z;
                            assert(spread_le(t, t0[j]));
                        }
                        if y != t {
                            assert(dropped(t0, s0).count(y) > 0);
                            assert(spread_le(y, t));
                        }
                    }
                }
            } else {
                self.seen = Ghost(s1);
                proof {
                    assert(dropped(t0, s1) =~= dropped(t0, s0).insert(x));
                    assert forall|y: Spread, z: Spread|
                        dropped(t0, s1).count(y) > 0 && t0.to_multiset().count(z) > 0 implies spread_le(
                            y,
                            z,
                        ) by {
                        assert(t0.contains(z));
                        let j = choose|j: int| 0 <= j < t0.len() && t0[j] == z;
                        assert(spread_le(t, t0[j]));
                        if y != x {
                            assert(dropped(t0, s0).count(y) > 0);
                        }
                    }
                }
            }
        }
    }

    /// The position of a least kept org.
    fn least_kept(&self) -> (m: usize)
        requires
            self.top@.len() > 0,
        ensures
            m < self.top@.len(),
            forall|j: int| 0 <= j < self.top@.len() ==> spread_le(self.top@[m as int], #[trigger] self.top@[j]),
    {
        let mut m: usize = 0;
        let mut i: usize = 1;
        while i < self.top.len()
            invariant
                0 < i <= self.top@.len(),
                m < i,
                forall|j: int| 0 <= j < i ==> spread_le(self.top@[m as int], #[trigger] self.top@[j]),
            decreases self.top@.len() - i,
        {
            if spread_lt(self.top[i], self.top[m]) {
                m = i;
            }
            i = i + 1;
        }
        m
    }

    /// The kept widest orgs, widest first.
    pub fn ranked(&self) -> (r: Vec<Spread>)
        requires
            self.wf(),
        ensures
            keeps_greatest(r@, self.seen(), TOP_SPREAD as nat),
            forall|i: int, j: int| 0 <= i < j < r@.len() ==> spread_le(r@[j], r@[i]),
    {
        let mut rest: Vec<Spread> = Vec::new();
        let mut k: usize = 0;
        while k < self.top.len()
            invariant
                k <= self.top@.len(),
                rest@ == self.top@.take(k as int),
            decreases self.top@.len() - k,
        {
            rest.push(self.top[k]);
            k = k + 1;
            proof {
                assert(rest@ =~= self.top@.take(k as int));
            }
        }
        let mut out: Vec<Spread> = Vec::new();
        proof {
            assert(rest@ =~= self.top@);
            assert(out@.to_multiset().add(rest@.to_multiset()) =~= self.top@.to_multiset());
        }
        while rest.len() > 0
            invariant
                out@.to_multiset().add(rest@.to_multiset()) == self.top@.to_multiset(),
                forall|i: int, j: int| 0 <= i < j < out@.len() ==> spread_le(out@[j], out@[i]),
                forall|i: int, j: int|
                    0 <= i < out@.len() && 0 <= j < rest@.len() ==> spread_le(rest@[j], out@[i]),
            decreases rest@.len(),
        {
            let mut b: usize = 0;
            let mut i: usize = 1;
            while i < rest.len()
                invariant
                    0 < i <= rest@.len(),
                    b < i,
                    forall|j: int| 0 <= j < i ==> spread_le(#[trigger] rest@[j], rest@[b as int]),
                decreases rest@.len() - i,
            {
                if spread_lt(rest[b], rest[i]) {
                    b = i;
                }
                i = i + 1;
            }
            let ghost r0 = rest@;
            let ghost o0 = out@;
            let e = rest.remove(b);
            out.push(e);
            proof {
                assert(rest@ =~= r0.remove(b as int));
                assert(out@ =~= o0.push(e));
                assert(out@.to_multiset().add(rest@.to_multiset()) =~= o0.to_multiset().add(
                    r0.to_multiset(),
                ));
                assert forall|i: int, j: int|
                    0 <= i < out@.len() && 0 <= j < rest@.len() implies spread_le(
                        rest@[j],
                        out@[i],
                    ) by {
                    if j < b {
                        assert(rest@[j] == r0[j]);
                    } else {
                        assert(rest@[j] == r0[j + 1]);
                    }
                }
            }
        }
        proof {
            assert(rest@.to_multiset() =~= Multiset::empty());
            assert(out@.to_multiset() =~= self.top@.to_multiset());
            assert(out@.len() == out@.to_multiset().len());
            assert(self.top@.len() == self.top@.to_multiset().len());
            assert(out@.len() == self.top@.len());
            assert(dropped(out@, self.seen@) == dropped(self.top@, self.seen@));
        }
        out
    }
}

/// `a` orders strictly before `b`.
fn spread_lt(a: Spread, b: Spread) -> (r: bool)
    ensures
        r == !spread_le(b, a),
{
    a.0 < b.0 || (a.0 == b.0 && a.1 < b.1)
}

proof fn lemma_count_at_most(seen: Seq<Spread>, t: u64)
    ensures
        count_at_least(seen, t) <= seen.len(),
    decreases seen.len(),
{
    if seen.len() > 0 {
        lemma_count_at_most(seen.drop_last(), t);
    }
}

} // verus!
