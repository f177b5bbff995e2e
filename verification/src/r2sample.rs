//! The R2 census's inspection sample: the largest same-country key groups,
//! the widest first and ties in key order, as the precision review reads them.
use vstd::prelude::*;
use crate::residual::{lemma_text_le_antisymmetric, lemma_text_le_total, lemma_text_le_transitive, text_lt};
use crate::windows::str_le;
use crate::text::str_eq;
use vstd::set_lib::set_int_range;

verus! {

/// How many groups the sample keeps.
pub const SAMPLE_CAP: usize = 30;

/// A group's size and its key: country, scheme and key.
pub type SampleKey = (u64, (Seq<char>, Seq<char>, Seq<char>));

/// Keys in order: by country, then scheme, then key, each in text order.
pub open spec fn key_lt(a: (Seq<char>, Seq<char>, Seq<char>), b: (Seq<char>, Seq<char>, Seq<char>)) -> bool {
    text_lt(a.0, b.0) || (a.0 == b.0 && (text_lt(a.1, b.1) || (a.1 == b.1 && text_lt(a.2, b.2))))
}

/// `a` comes before `b` in the sample: larger first, then by key.
pub open spec fn precedes(a: SampleKey, b: SampleKey) -> bool {
    a.0 > b.0 || (a.0 == b.0 && key_lt(a.1, b.1))
}

proof fn lemma_text_lt_order(a: Seq<char>, b: Seq<char>, c: Seq<char>)
    ensures
        !text_lt(a, a),
        text_lt(a, b) ==> !text_lt(b, a),
        a != b ==> text_lt(a, b) || text_lt(b, a),
        text_lt(a, b) && text_lt(b, c) ==> text_lt(a, c),
{
    if text_lt(a, b) && text_lt(b, a) {
        lemma_text_le_antisymmetric(a, b);
    }
    if a != b {
        lemma_text_le_total(a, b);
    }
    if text_lt(a, b) && text_lt(b, c) {
        lemma_text_le_transitive(a, b, c);
        if a == c {
            lemma_text_le_antisymmetric(a, b);
        }
    }
}

proof fn lemma_precedes_order(a: SampleKey, b: SampleKey, c: SampleKey)
    ensures
        !precedes(a, a),
        precedes(a, b) ==> !precedes(b, a),
        a.1 != b.1 ==> precedes(a, b) || precedes(b, a),
        precedes(a, b) && precedes(b, c) ==> precedes(a, c),
{
    lemma_text_lt_order(a.1.0, b.1.0, c.1.0);
    lemma_text_lt_order(a.1.1, b.1.1, c.1.1);
    lemma_text_lt_order(a.1.2, b.1.2, c.1.2);
    lemma_text_lt_order(b.1.0, a.1.0, c.1.0);
    lemma_text_lt_order(b.1.1, a.1.1, c.1.1);
    lemma_text_lt_order(b.1.2, a.1.2, c.1.2);
    if a.1 != b.1 {
        assert(a.1.0 != b.1.0 || a.1.1 != b.1.1 || a.1.2 != b.1.2);
    }
}

/// The groups have distinct keys.
pub open spec fn distinct_keys(s: Seq<SampleKey>) -> bool {
    forall|i: int, j: int| 0 <= i < j < s.len() ==> (#[trigger] s[i]).1 != (#[trigger] s[j]).1
}

/// The positions of the groups that come before group `i`.
pub open spec fn preceders(s: Seq<SampleKey>, i: int) -> Set<int> {
    Set::new(|j: int| 0 <= j < s.len() && precedes(s[j], s[i]))
}

/// Group `i`'s place in the sample order: how many groups come before it.
pub open spec fn place(s: Seq<SampleKey>, i: int) -> nat {
    preceders(s, i).len()
}

/// `top` lists the groups placed below `n`, in order: `top[k]` is the
/// position of the group placed `k`.
pub open spec fn places_top(s: Seq<SampleKey>, top: Seq<int>, n: nat) -> bool {
    &&& top.len() == n
    &&& forall|k: int| 0 <= k < n ==> 0 <= #[trigger] top[k] < s.len() && place(s, top[k]) == k
}

/// A key group of two or more own-key members: its size and key.
pub struct SampleGroup {
    pub size: u64,
    pub country: String,
    pub scheme: String,
    pub key: String,
}

/// A group as plain values.
pub open spec fn group_v(g: SampleGroup) -> SampleKey {
    (g.size, (g.country@, g.scheme@, g.key@))
}

/// The groups as plain values.
pub open spec fn groups_v(v: Seq<SampleGroup>) -> Seq<SampleKey> {
    v.map_values(|g: SampleGroup| group_v(g))
}

fn text_lt_exec(a: &str, b: &str) -> (r: bool)
    ensures
        r == text_lt(a@, b@),
{
    str_le(a, b) && !str_eq(a, b)
}

fn precedes_exec(a: &SampleGroup, b: &SampleGroup) -> (r: bool)
    ensures
        r == precedes(group_v(*a), group_v(*b)),
{
    if a.size != b.size {
        return a.size > b.size;
    }
    if !str_eq(a.country.as_str(), b.country.as_str()) {
        return text_lt_exec(a.country.as_str(), b.country.as_str());
    }
    if !str_eq(a.scheme.as_str(), b.scheme.as_str()) {
        return text_lt_exec(a.scheme.as_str(), b.scheme.as_str());
    }
    text_lt_exec(a.key.as_str(), b.key.as_str())
}

/// The first-placed group not yet taken.
fn pick_first(groups: &Vec<SampleGroup>, taken: &Vec<bool>) -> (b: usize)
    requires
        taken@.len() == groups@.len(),
        distinct_keys(groups_v(groups@)),
        exists|u: int| 0 <= u < taken@.len() && !taken@[u],
    ensures
        b < groups@.len(),
        !taken@[b as int],
        forall|u: int|
            0 <= u < groups@.len() && !taken@[u] && u != b ==> precedes(
                groups_v(groups@)[b as int],
                #[trigger] groups_v(groups@)[u],
            ),
{
    let ghost s = groups_v(groups@);
    let n = groups.len();
    let mut best: usize = n;
    let mut j: usize = 0;
    while j < n
        invariant
            n == groups@.len(),
            n == taken@.len(),
            s == groups_v(groups@),
            distinct_keys(s),
            j <= n,
            best <= n,
            best < n ==> best < j && !taken@[best as int],
            best == n ==> forall|i: int| 0 <= i < j ==> #[trigger] taken@[i],
            best < n ==> forall|i: int|
                0 <= i < j && !taken@[i] && i != best ==> precedes(
                    s[best as int],
                    #[trigger] s[i],
                ),
        decreases n - j,
    {
        if !taken[j] {
            proof {
                assert(s[j as int] == group_v(groups@[j as int]));
            }
            if best == n {
                best = j;
            } else {
                proof {
                    assert(s[best as int] == group_v(groups@[best as int]));
                }
                if precedes_exec(&groups[j], &groups[best]) {
                    proof {
                        assert forall|i: int|
                            0 <= i < j + 1 && !taken@[i] && i != j implies precedes(
                                s[j as int],
                                #[trigger] s[i],
                            ) by {
                            if i != best {
                                assert(precedes(s[best as int], s[i]));
                            }
                            lemma_precedes_order(s[j as int], s[best as int], s[i]);
                        }
                    }
                    best = j;
                } else {
                    proof {
                        assert(s[best as int].1 != s[j as int].1);
                        lemma_precedes_order(s[best as int], s[j as int], s[j as int]);
                    }
                }
            }
        }
        j = j + 1;
    }
    proof {
        let u = choose|u: int| 0 <= u < taken@.len() && !taken@[u];
        if best == n {
            assert(taken@[u]);
        }
    }
    best
}

/// The inspection sample of the groups of two or more (distinct keys): the
/// positions of the `SAMPLE_CAP` largest, the widest first and ties in key
/// order (all of them when there are fewer).
pub fn r2_sample(groups: &Vec<SampleGroup>) -> (top: Vec<usize>)
    requires
        distinct_keys(groups_v(groups@)),
    ensures
        places_top(
            groups_v(groups@),
            top@.map_values(|x: usize| x as int),
            if groups@.len() < SAMPLE_CAP {
                groups@.len() as nat
            } else {
                SAMPLE_CAP as nat
            },
        ),
{
    let ghost s = groups_v(groups@);
    let n = groups.len();
    let m: usize = if n < SAMPLE_CAP {
        n
    } else {
        SAMPLE_CAP
    };
    let mut taken: Vec<bool> = Vec::new();
    while taken.len() < n
        invariant
            taken@.len() <= n,
            forall|i: int| 0 <= i < taken@.len() ==> !taken@[i],
        decreases n - taken@.len(),
    {
        taken.push(false);
    }
    let mut top: Vec<usize> = Vec::new();
    proof {
        vstd::set_lib::lemma_int_range(0, n as int);
    }
    while top.len() < m
        invariant
            n == groups@.len(),
            s == groups_v(groups@),
            distinct_keys(s),
            m == if n < SAMPLE_CAP { n } else { SAMPLE_CAP },
            taken@.len() == n,
            top@.len() <= m,
            top@.map_values(|x: usize| x as int).no_duplicates(),
            forall|k: int|
                0 <= k < top@.len() ==> (#[trigger] top@[k]) < n && place(s, top@[k] as int) == k,
            forall|i: int|
                0 <= i < n ==> (taken@[i] <==> top@.map_values(|x: usize| x as int).contains(i)),
            forall|t: int, u: int|
                0 <= t < n && 0 <= u < n && taken@[t] && !taken@[u] ==> precedes(
                    #[trigger] s[t],
                    #[trigger] s[u],
                ),
            set_int_range(0, n as int).len() == n,
            set_int_range(0, n as int).finite(),
        decreases m - top@.len(),
    {
        let ghost tv = top@.map_values(|x: usize| x as int);
        proof {
            tv.unique_seq_to_set();
            vstd::seq_lib::seq_to_set_is_finite(tv);
            if forall|u: int| 0 <= u < n ==> taken@[u] {
                assert forall|x: int| set_int_range(0, n as int).contains(x) implies tv.to_set().contains(
                    x,
                ) by {
                    assert(taken@[x]);
                    assert(tv.contains(x));
                }
                assert(set_int_range(0, n as int).subset_of(tv.to_set()));
                vstd::set_lib::lemma_len_subset(set_int_range(0, n as int), tv.to_set());
                assert(false);
            }
        }
        let b = pick_first(groups, &taken);
        proof {
            let o = preceders(s, b as int);
            assert(o =~= tv.to_set()) by {
                assert forall|j: int| o.contains(j) implies tv.to_set().contains(j) by {
                    if !taken@[j] {
                        if j == b {
                            lemma_precedes_order(s[j], s[j], s[j]);
                        } else {
                            lemma_precedes_order(s[b as int], s[j], s[j]);
                        }
                    }
                }
                assert forall|j: int| tv.to_set().contains(j) implies o.contains(j) by {
                    assert(tv.contains(j));
                    let k = choose|k: int| 0 <= k < tv.len() && tv[k] == j;
                    assert(top@[k] < n);
                    assert(taken@[j]);
                }
            }
        }
        let ghost before_taken = taken@;
        let ghost before_tv = tv;
        taken.set(b, true);
        top.push(b);
        proof {
            let tv2 = top@.map_values(|x: usize| x as int);
            assert(tv2 =~= before_tv.push(b as int));
            assert(!before_tv.contains(b as int));
            assert forall|i: int, j: int| 0 <= i < j < tv2.len() implies tv2[i] != tv2[j] by {
                if j < before_tv.len() {
                    assert(tv2[i] == before_tv[i] && tv2[j] == before_tv[j]);
                } else {
                    assert(before_tv.contains(tv2[i]));
                }
            }
            assert forall|i: int| 0 <= i < n implies (taken@[i] <==> tv2.contains(i)) by {
                if i == b {
                    assert(tv2[tv2.len() - 1] == i);
                } else {
                    if tv2.contains(i) {
                        let k = choose|k: int| 0 <= k < tv2.len() && tv2[k] == i;
                        assert(k < before_tv.len());
                        assert(before_tv.contains(i));
                    }
                    if before_tv.contains(i) {
                        let k = choose|k: int| 0 <= k < before_tv.len() && before_tv[k] == i;
                        assert(tv2[k] == i);
                    }
                }
            }
            assert forall|t: int, u: int|
                0 <= t < n && 0 <= u < n && taken@[t] && !taken@[u] implies precedes(
                    #[trigger] s[t],
                    #[trigger] s[u],
                ) by {
                if t == b {
                } else {
                    assert(before_taken[t]);
                    assert(!before_taken[u]);
                }
            }
        }
    }
    proof {
        let tv = top@.map_values(|x: usize| x as int);
        assert forall|k: int| 0 <= k < m implies 0 <= #[trigger] tv[k] < s.len() && place(s, tv[k]) == k by {
            assert(tv[k] == top@[k] as int);
        }
    }
    top
}

/// The sample order is determined: among groups with distinct keys no two
/// share a place, so two lists of the groups placed `0 .. n` are the same.
pub proof fn law_sample_is_determined(s: Seq<SampleKey>, t1: Seq<int>, t2: Seq<int>, n: nat)
    requires
        distinct_keys(s),
        places_top(s, t1, n),
        places_top(s, t2, n),
    ensures
        t1 == t2,
{
    assert forall|k: int| 0 <= k < n implies t1[k] == t2[k] by {
        assert(0 <= t1[k] < s.len() && place(s, t1[k]) == k);
        assert(0 <= t2[k] < s.len() && place(s, t2[k]) == k);
        if t1[k] != t2[k] {
            lemma_place_injective(s, t1[k], t2[k]);
        }
    }
    assert(t1 =~= t2);
}

proof fn lemma_place_injective(s: Seq<SampleKey>, i: int, j: int)
    requires
        distinct_keys(s),
        0 <= i < s.len(),
        0 <= j < s.len(),
        i != j,
    ensures
        place(s, i) != place(s, j),
{
    let (a, b) = if i < j { (i, j) } else { (j, i) };
    assert(s[a].1 != s[b].1);
    lemma_precedes_order(s[a], s[b], s[b]);
    let (hi, lo) = if precedes(s[a], s[b]) { (a, b) } else { (b, a) };
    let oh = preceders(s, hi);
    let ol = preceders(s, lo);
    vstd::set_lib::lemma_int_range(0, s.len() as int);
    assert(ol.subset_of(set_int_range(0, s.len() as int)));
    vstd::set_lib::lemma_len_subset(ol, set_int_range(0, s.len() as int));
    assert forall|x: int| oh.insert(hi).contains(x) implies ol.contains(x) by {
        if x != hi {
            lemma_precedes_order(s[x], s[hi], s[lo]);
        }
    }
    lemma_precedes_order(s[hi], s[hi], s[hi]);
    assert(!oh.contains(hi));
    vstd::set_lib::lemma_len_subset(oh.insert(hi), ol);
    vstd::set_lib::lemma_len_subset(oh, oh.insert(hi));
}

} // verus!
