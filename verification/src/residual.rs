//! The residual line of a `reprocess` run: the reasons its still-held members
//! fail for now, busiest first, the top eight by name and the rest summed.
use vstd::prelude::*;
use crate::text::{dec, push_u64};
use crate::text::str_eq;
use crate::windows::{str_le, text_le};
use vstd::set_lib::set_int_range;

verus! {

/// `a` sorts strictly before `b`.
pub open spec fn text_lt(a: Seq<char>, b: Seq<char>) -> bool {
    text_le(a, b) && a != b
}

/// Text order is total.
pub proof fn lemma_text_le_total(a: Seq<char>, b: Seq<char>)
    ensures
        text_le(a, b) || text_le(b, a),
    decreases a.len(),
{
    if a.len() > 0 && b.len() > 0 {
        if a[0] == b[0] {
            lemma_text_le_total(a.drop_first(), b.drop_first());
        }
    }
}

/// Text order is antisymmetric.
pub proof fn lemma_text_le_antisymmetric(a: Seq<char>, b: Seq<char>)
    requires
        text_le(a, b),
        text_le(b, a),
    ensures
        a == b,
    decreases a.len(),
{
    if a.len() == 0 {
        assert(b.len() == 0 || !text_le(b, a));
        assert(a =~= b);
    } else {
        assert(b.len() > 0);
        assert(a[0] == b[0]);
        lemma_text_le_antisymmetric(a.drop_first(), b.drop_first());
        assert(a =~= seq![a[0]] + a.drop_first());
        assert(b =~= seq![b[0]] + b.drop_first());
    }
}

/// Text order is transitive.
pub proof fn lemma_text_le_transitive(a: Seq<char>, b: Seq<char>, c: Seq<char>)
    requires
        text_le(a, b),
        text_le(b, c),
    ensures
        text_le(a, c),
    decreases a.len(),
{
    if a.len() > 0 && b.len() > 0 && c.len() > 0 && a[0] == b[0] && b[0] == c[0] {
        lemma_text_le_transitive(a.drop_first(), b.drop_first(), c.drop_first());
    }
}

/// A reason and how many members it holds.
pub type ReasonCount = (Seq<char>, u64);

/// `a` ranks before `b`: more members first, then the name in text order.
pub open spec fn outranks(a: ReasonCount, b: ReasonCount) -> bool {
    a.1 > b.1 || (a.1 == b.1 && text_lt(a.0, b.0))
}

proof fn lemma_outranks_order(a: ReasonCount, b: ReasonCount, c: ReasonCount)
    ensures
        !outranks(a, a),
        outranks(a, b) ==> !outranks(b, a),
        a.0 != b.0 ==> outranks(a, b) || outranks(b, a),
        outranks(a, b) && outranks(b, c) ==> outranks(a, c),
{
    if outranks(a, b) && outranks(b, a) {
        lemma_text_le_antisymmetric(a.0, b.0);
    }
    if a.0 != b.0 {
        lemma_text_le_total(a.0, b.0);
    }
    if outranks(a, b) && outranks(b, c) && a.1 == b.1 && b.1 == c.1 {
        lemma_text_le_transitive(a.0, b.0, c.0);
        if a.0 == c.0 {
            lemma_text_le_antisymmetric(a.0, b.0);
        }
    }
}

/// The reasons have distinct names.
pub open spec fn distinct_names(s: Seq<ReasonCount>) -> bool {
    forall|i: int, j: int| 0 <= i < j < s.len() ==> (#[trigger] s[i]).0 != (#[trigger] s[j]).0
}

/// The positions of the reasons that outrank reason `i`.
pub open spec fn outrankers(s: Seq<ReasonCount>, i: int) -> Set<int> {
    Set::new(|j: int| 0 <= j < s.len() && outranks(s[j], s[i]))
}

/// Reason `i`'s place in the ranking: how many reasons outrank it.
pub open spec fn rank(s: Seq<ReasonCount>, i: int) -> nat {
    outrankers(s, i).len()
}

/// The reasons with a ranking place below `n`, in ranking order: `top[k]` is the
/// position of the reason ranked `k`.
pub open spec fn ranks_top(s: Seq<ReasonCount>, top: Seq<int>, n: nat) -> bool {
    &&& top.len() == n
    &&& forall|k: int| 0 <= k < n ==> 0 <= #[trigger] top[k] < s.len() && rank(s, top[k]) == k
}

/// The sum of the counts, among the first `k` reasons, of those that rank at
/// or past place `n`.
pub open spec fn tail_total(s: Seq<ReasonCount>, n: nat, k: int) -> int
    decreases k,
{
    if k <= 0 {
        0
    } else {
        tail_total(s, n, k - 1) + if rank(s, k - 1) >= n {
            s[k - 1].1 as int
        } else {
            0
        }
    }
}

/// `<reason> <count>` for each of the top reasons, then `(other) <rest>` when
/// the rest hold any member, joined with `, `.
pub open spec fn residual_items(s: Seq<ReasonCount>, top: Seq<int>, rest: int) -> Seq<char> {
    join_items(top.map_values(|i: int| s[i].0 + " "@ + dec(s[i].1 as nat)) + if rest > 0 {
        seq!["(other) "@ + dec(rest as nat)]
    } else {
        Seq::empty()
    })
}

/// Items joined with `, `.
pub open spec fn join_items(s: Seq<Seq<char>>) -> Seq<char>
    decreases s.len(),
{
    if s.len() == 0 {
        Seq::empty()
    } else if s.len() == 1 {
        s[0]
    } else {
        join_items(s.drop_last()) + ", "@ + s.last()
    }
}

/// The residual line: nothing when no member is still held, else the top
/// reasons and the rest.
pub open spec fn residual_text(s: Seq<ReasonCount>, top: Seq<int>, rest: int) -> Seq<char> {
    if top.len() == 0 && rest <= 0 {
        Seq::empty()
    } else {
        "; still held by current reason: "@ + residual_items(s, top, rest)
    }
}

/// The plain values of the reasons.
pub open spec fn reasons_v(v: Seq<(String, u64)>) -> Seq<ReasonCount> {
    v.map_values(|e: (String, u64)| (e.0@, e.1))
}

fn outranks_exec(a: &(String, u64), b: &(String, u64)) -> (r: bool)
    ensures
        r == outranks((a.0@, a.1), (b.0@, b.1)),
{
    a.1 > b.1 || (a.1 == b.1 && str_le(a.0.as_str(), b.0.as_str()) && !str_eq(
        a.0.as_str(),
        b.0.as_str(),
    ))
}

/// The best-ranked reason not yet taken.
fn pick_best(reasons: &Vec<(String, u64)>, taken: &Vec<bool>) -> (b: usize)
    requires
        taken@.len() == reasons@.len(),
        distinct_names(reasons_v(reasons@)),
        exists|u: int| 0 <= u < taken@.len() && !taken@[u],
    ensures
        b < reasons@.len(),
        !taken@[b as int],
        forall|u: int|
            0 <= u < reasons@.len() && !taken@[u] && u != b ==> outranks(
                reasons_v(reasons@)[b as int],
                #[trigger] reasons_v(reasons@)[u],
            ),
{
    let ghost s = reasons_v(reasons@);
    let n = reasons.len();
    let mut best: usize = n;
    let mut j: usize = 0;
    while j < n
        invariant
            n == reasons@.len(),
            n == taken@.len(),
            s == reasons_v(reasons@),
            distinct_names(s),
            j <= n,
            best <= n,
            best < n ==> best < j && !taken@[best as int],
            best == n ==> forall|i: int| 0 <= i < j ==> #[trigger] taken@[i],
            best < n ==> forall|i: int|
                0 <= i < j && !taken@[i] && i != best ==> outranks(
                    s[best as int],
                    #[trigger] s[i],
                ),
        decreases n - j,
    {
        if !taken[j] {
            proof {
                assert(s[j as int] == (reasons@[j as int].0@, reasons@[j as int].1));
            }
            if best == n {
                best = j;
            } else {
                proof {
                    assert(s[best as int] == (reasons@[best as int].0@, reasons@[best as int].1));
                }
                if outranks_exec(&reasons[j], &reasons[best]) {
                    proof {
                        assert forall|i: int|
                            0 <= i < j + 1 && !taken@[i] && i != j implies outranks(
                                s[j as int],
                                #[trigger] s[i],
                            ) by {
                            if i != best {
                                assert(outranks(s[best as int], s[i]));
                            }
                            lemma_outranks_order(s[j as int], s[best as int], s[i]);
                        }
                    }
                    best = j;
                } else {
                    proof {
                        assert(s[best as int].0 != s[j as int].0);
                        lemma_outranks_order(s[best as int], s[j as int], s[j as int]);
                    }
                }
            }
        }
        j = j + 1;
    }
    proof {
        let u = choose|u: int| 0 <= u < taken@.len() && !taken@[u];
        if best == n {
            assert(taken@[u]);
        }
    }
    best
}

/// The residual line of a `reprocess` run, from the still-held reasons with
/// their counts (distinct reasons): the eight busiest as `<reason> <count>`
/// (ties by name), the rest summed as `(other) <n>` when non-zero; nothing when
/// no member is still held.
pub fn residual_line(reasons: &Vec<(String, u64)>) -> (r: String)
    requires
        distinct_names(reasons_v(reasons@)),
        tail_total(reasons_v(reasons@), 8, reasons@.len() as int) <= u64::MAX,
    ensures
        exists|top: Seq<int>|
            ranks_top(
                reasons_v(reasons@),
                top,
                if reasons@.len() < 8 {
                    reasons@.len() as nat
                } else {
                    8
                },
            ) && r@ == residual_text(
                reasons_v(reasons@),
                top,
                tail_total(reasons_v(reasons@), 8, reasons@.len() as int),
            ),
{
    let ghost s = reasons_v(reasons@);
    let n = reasons.len();
    let m: usize = if n < 8 {
        n
    } else {
        8
    };
    let mut taken: Vec<bool> = Vec::new();
    while taken.len() < n
        invariant
            taken@.len() <= n,
            forall|i: int| 0 <= i < taken@.len() ==> !taken@[i],
        decreases n - taken@.len(),
    {
        taken.push(false);
    }
    let mut top: Vec<usize> = Vec::new();
    proof {
        vstd::set_lib::lemma_int_range(0, n as int);
    }
    while top.len() < m
        invariant
            n == reasons@.len(),
            s == reasons_v(reasons@),
            distinct_names(s),
            m == if n < 8 { n } else { 8 },
            taken@.len() == n,
            top@.len() <= m,
            top@.map_values(|x: usize| x as int).no_duplicates(),
            forall|k: int|
                0 <= k < top@.len() ==> (#[trigger] top@[k]) < n && rank(s, top@[k] as int) == k,
            forall|i: int|
                0 <= i < n ==> (taken@[i] <==> top@.map_values(|x: usize| x as int).contains(i)),
            forall|t: int, u: int|
                0 <= t < n && 0 <= u < n && taken@[t] && !taken@[u] ==> outranks(
                    #[trigger] s[t],
                    #[trigger] s[u],
                ),
            set_int_range(0, n as int).len() == n,
            set_int_range(0, n as int).finite(),
        decreases m - top@.len(),
    {
        let ghost tv = top@.map_values(|x: usize| x as int);
        proof {
            tv.unique_seq_to_set();
            vstd::seq_lib::seq_to_set_is_finite(tv);
            if forall|u: int| 0 <= u < n ==> taken@[u] {
                assert forall|x: int| set_int_range(0, n as int).contains(x) implies tv.to_set().contains(
                    x,
                ) by {
                    assert(taken@[x]);
                    assert(tv.contains(x));
                }
                assert(set_int_range(0, n as int).subset_of(tv.to_set()));
                vstd::set_lib::lemma_len_subset(set_int_range(0, n as int), tv.to_set());
                assert(false);
            }
        }
        let b = pick_best(reasons, &taken);
        proof {
            let o = outrankers(s, b as int);
            assert(o =~= tv.to_set()) by {
                assert forall|j: int| o.contains(j) implies tv.to_set().contains(j) by {
                    if !taken@[j] {
                        if j == b {
                            lemma_outranks_order(s[j], s[j], s[j]);
                        } else {
                            lemma_outranks_order(s[b as int], s[j], s[j]);
                        }
                    }
                }
                assert forall|j: int| tv.to_set().contains(j) implies o.contains(j) by {
                    assert(tv.contains(j));
                    let k = choose|k: int| 0 <= k < tv.len() && tv[k] == j;
                    assert(top@[k] < n);
                    assert(taken@[j]);
                }
            }
        }
        let ghost before_taken = taken@;
        let ghost before_tv = tv;
        taken.set(b, true);
        top.push(b);
        proof {
            let tv2 = top@.map_values(|x: usize| x as int);
            assert(tv2 =~= before_tv.push(b as int));
            assert(!before_tv.contains(b as int));
            assert forall|i: int, j: int| 0 <= i < j < tv2.len() implies tv2[i] != tv2[j] by {
                if j < before_tv.len() {
                    assert(tv2[i] == before_tv[i] && tv2[j] == before_tv[j]);
                } else {
                    assert(before_tv.contains(tv2[i]));
                }
            }
            assert forall|i: int| 0 <= i < n implies (taken@[i] <==> tv2.contains(i)) by {
                if i == b {
                    assert(tv2[tv2.len() - 1] == i);
                } else {
                    if tv2.contains(i) {
                        let k = choose|k: int| 0 <= k < tv2.len() && tv2[k] == i;
                        assert(k < before_tv.len());
                        assert(before_tv.contains(i));
                    }
                    if before_tv.contains(i) {
                        let k = choose|k: int| 0 <= k < before_tv.len() && before_tv[k] == i;
                        assert(tv2[k] == i);
                    }
                }
            }
            assert forall|t: int, u: int|
                0 <= t < n && 0 <= u < n && taken@[t] && !taken@[u] implies outranks(
                    #[trigger] s[t],
                    #[trigger] s[u],
                ) by {
                if t == b {
                } else {
                    assert(before_taken[t]);
                    assert(!before_taken[u]);
                }
            }
        }
    }
    // The rest: every reason not taken, which are exactly those ranked at or
    // past place eight.
    let ghost tv = top@.map_values(|x: usize| x as int);
    proof {
        tv.unique_seq_to_set();
        vstd::seq_lib::seq_to_set_is_finite(tv);
        assert forall|k: int| 0 <= k < tv.len() implies 0 <= #[trigger] tv[k] < n by {
            assert(top@[k] < n);
        }
        if m == n {
            lemma_full_cover(tv, n as int);
        }
        assert forall|u: int| 0 <= u < n implies (!taken@[u] <==> rank(s, u) >= 8) by {
            if !taken@[u] {
                if m == n {
                    assert(tv.contains(u));
                }
                assert(m == 8);
                let o = outrankers(s, u);
                assert forall|j: int| tv.to_set().contains(j) implies o.contains(j) by {
                    assert(tv.contains(j));
                    let k = choose|k: int| 0 <= k < tv.len() && tv[k] == j;
                    assert(tv[k] < n);
                    assert(taken@[j]);
                    assert(outranks(s[j], s[u]));
                }
                assert(tv.to_set().subset_of(o));
                assert(o.subset_of(set_int_range(0, n as int)));
                vstd::set_lib::lemma_len_subset(o, set_int_range(0, n as int));
                vstd::set_lib::lemma_len_subset(tv.to_set(), o);
            } else {
                assert(tv.contains(u));
                let k = choose|k: int| 0 <= k < tv.len() && tv[k] == u;
                assert(top@[k] as int == u);
                assert(rank(s, top@[k] as int) == k);
            }
        }
    }
    let mut rest: u64 = 0;
    let mut i: usize = 0;
    while i < n
        invariant
            n == reasons@.len(),
            s == reasons_v(reasons@),
            taken@.len() == n,
            i <= n,
            rest == tail_total(s, 8, i as int),
            tail_total(s, 8, n as int) <= u64::MAX,
            forall|u: int| 0 <= u < n ==> (!taken@[u] <==> rank(s, u) >= 8),
        decreases n - i,
    {
        proof {
            lemma_tail_total_monotone(s, 8, i as int + 1, n as int);
            assert(s[i as int].1 == reasons@[i as int].1);
        }
        if !taken[i] {
            rest = rest + reasons[i].1;
        }
        i = i + 1;
    }
    let mut out = String::new();
    let mut k: usize = 0;
    let ghost items = top@.map_values(|x: usize| x as int).map_values(
        |x: int| s[x].0 + " "@ + dec(s[x].1 as nat),
    );
    while k < top.len()
        invariant
            n == reasons@.len(),
            s == reasons_v(reasons@),
            k <= top@.len(),
            forall|j: int| 0 <= j < top@.len() ==> (#[trigger] top@[j]) < n,
            items == top@.map_values(|x: usize| x as int).map_values(
                |x: int| s[x].0 + " "@ + dec(s[x].1 as nat),
            ),
            out@ == join_items(items.take(k as int)),
        decreases top@.len() - k,
    {
        proof {
            assert(items.take(k + 1).drop_last() =~= items.take(k as int));
            assert(items[k as int] == s[top@[k as int] as int].0 + " "@ + dec(
                s[top@[k as int] as int].1 as nat,
            ));
        }
        if k > 0 {
            out.append(", ");
        }
        let e = &reasons[top[k]];
        out.append(e.0.as_str());
        out.append(" ");
        push_u64(&mut out, e.1);
        proof {
            if k == 0 {
                assert(items.take(1) =~= seq![items[0]]);
            }
            assert(out@ =~= join_items(items.take(k + 1)));
        }
        k = k + 1;
    }
    proof {
        assert(items.take(top@.len() as int) =~= items);
    }
    let ghost head = out@;
    if rest > 0 {
        if top.len() > 0 {
            out.append(", ");
        }
        out.append("(other) ");
        push_u64(&mut out, rest);
    }
    let ghost tv = top@.map_values(|x: usize| x as int);
    proof {
        let all = items + if rest > 0 {
            seq!["(other) "@ + dec(rest as nat)]
        } else {
            Seq::empty()
        };
        assert(tv.map_values(|i: int| s[i].0 + " "@ + dec(s[i].1 as nat)) =~= items);
        if rest > 0 {
            assert(all.drop_last() =~= items);
            if items.len() == 0 {
                assert(all =~= seq!["(other) "@ + dec(rest as nat)]);
            }
        } else {
            assert(all =~= items);
        }
        assert(out@ =~= join_items(all));
        assert(ranks_top(s, tv, m as nat));
    }
    if top.len() == 0 && rest == 0 {
        let empty = String::new();
        proof {
            assert(residual_text(s, tv, tail_total(s, 8, n as int)) =~= empty@);
            assert(ranks_top(s, tv, m as nat) && empty@ == residual_text(
                s,
                tv,
                tail_total(s, 8, n as int),
            ));
        }
        return empty;
    }
    let mut line = String::from_str("; still held by current reason: ");
    line.append(out.as_str());
    proof {
        assert(line@ =~= residual_text(s, tv, tail_total(s, 8, n as int)));
        assert(ranks_top(s, tv, m as nat) && line@ == residual_text(s, tv, tail_total(s, 8, n as int)));
    }
    line
}

proof fn lemma_full_cover(tv: Seq<int>, n: int)
    requires
        tv.no_duplicates(),
        tv.len() == n,
        forall|k: int| 0 <= k < tv.len() ==> 0 <= #[trigger] tv[k] < n,
    ensures
        forall|x: int| 0 <= x < n ==> tv.contains(x),
{
    tv.unique_seq_to_set();
    vstd::seq_lib::seq_to_set_is_finite(tv);
    vstd::set_lib::lemma_int_range(0, n);
    assert forall|x: int| tv.to_set().contains(x) implies set_int_range(0, n).contains(x) by {
        assert(tv.contains(x));
        let k = choose|k: int| 0 <= k < tv.len() && tv[k] == x;
        assert(0 <= tv[k] < n);
    }
    assert(tv.to_set().subset_of(set_int_range(0, n)));
    vstd::set_lib::lemma_subset_equality(tv.to_set(), set_int_range(0, n));
    assert forall|x: int| 0 <= x < n implies tv.contains(x) by {
        assert(set_int_range(0, n).contains(x));
        assert(tv.to_set().contains(x));
    }
}

proof fn lemma_tail_total_monotone(s: Seq<ReasonCount>, lim: nat, a: int, b: int)
    requires
        0 <= a <= b,
    ensures
        tail_total(s, lim, a) <= tail_total(s, lim, b),
    decreases b - a,
{
    if a < b {
        lemma_tail_total_monotone(s, lim, a, b - 1);
    }
}


/// How many members the entries named `name` hold together.
pub open spec fn count_of(s: Seq<ReasonCount>, name: Seq<char>) -> int
    decreases s.len(),
{
    if s.len() == 0 {
        0
    } else {
        count_of(s.drop_last(), name) + if s.last().0 == name {
            s.last().1 as int
        } else {
            0
        }
    }
}

proof fn lemma_count_absent(s: Seq<ReasonCount>, name: Seq<char>)
    requires
        forall|i: int| 0 <= i < s.len() ==> (#[trigger] s[i]).0 != name,
    ensures
        count_of(s, name) == 0,
    decreases s.len(),
{
    if s.len() > 0 {
        assert(s.last() == s[s.len() - 1]);
        lemma_count_absent(s.drop_last(), name);
    }
}

/// With distinct names, an entry's count is its name's count.
proof fn lemma_count_single(s: Seq<ReasonCount>, k: int)
    requires
        distinct_names(s),
        0 <= k < s.len(),
    ensures
        count_of(s, s[k].0) == s[k].1,
    decreases s.len(),
{
    let d = s.drop_last();
    if k == s.len() - 1 {
        assert forall|i: int| 0 <= i < d.len() implies (#[trigger] d[i]).0 != s[k].0 by {
            assert(d[i] == s[i]);
        }
        lemma_count_absent(d, s[k].0);
    } else {
        assert(s.last() == s[s.len() - 1]);
        assert(d[k] == s[k]);
        lemma_count_single(d, k);
    }
}

/// Setting entry `k`'s count moves only its name's count.
proof fn lemma_count_update(s: Seq<ReasonCount>, k: int, c: u64, name: Seq<char>)
    requires
        0 <= k < s.len(),
    ensures
        count_of(s.update(k, (s[k].0, c)), name) == count_of(s, name) + if s[k].0 == name {
            c - s[k].1
        } else {
            0
        },
    decreases s.len(),
{
    let t = s.update(k, (s[k].0, c));
    if k == s.len() - 1 {
        assert(t.drop_last() =~= s.drop_last());
    } else {
        assert(t.drop_last() =~= s.drop_last().update(k, (s[k].0, c)));
        assert(t.last() == s.last());
        lemma_count_update(s.drop_last(), k, c, name);
    }
}

proof fn lemma_count_prefix(s: Seq<ReasonCount>, i: int, j: int, name: Seq<char>)
    requires
        0 <= i <= j <= s.len(),
    ensures
        count_of(s.take(i), name) <= count_of(s.take(j), name),
    decreases j - i,
{
    if i < j {
        assert(s.take(j).drop_last() =~= s.take(j - 1));
        lemma_count_prefix(s, i, j - 1, name);
    }
}

/// Adds each of `more`'s counts to the entry of its name in `acc`, or appends
/// it as a new entry.
pub fn merge_reasons(acc: &mut Vec<(String, u64)>, more: &Vec<(String, u64)>)
    requires
        distinct_names(reasons_v(old(acc)@)),
        forall|name: Seq<char>|
            count_of(reasons_v(old(acc)@), name) + #[trigger] count_of(reasons_v(more@), name)
                <= u64::MAX,
    ensures
        distinct_names(reasons_v(final(acc)@)),
        forall|name: Seq<char>|
            #[trigger] count_of(reasons_v(final(acc)@), name) == count_of(
                reasons_v(old(acc)@),
                name,
            ) + count_of(reasons_v(more@), name),
{
    let ghost a0 = reasons_v(acc@);
    let ghost m = reasons_v(more@);
    let mut i: usize = 0;
    proof {
        assert forall|name: Seq<char>| #[trigger] count_of(reasons_v(acc@), name) == count_of(a0, name) + count_of(m.take(0), name) by {
            assert(m.take(0).len() == 0);
        }
    }
    while i < more.len()
        invariant
            m == reasons_v(more@),
            i <= more@.len(),
            distinct_names(reasons_v(acc@)),
            forall|name: Seq<char>|
                count_of(a0, name) + #[trigger] count_of(m, name) <= u64::MAX,
            forall|name: Seq<char>|
                #[trigger] count_of(reasons_v(acc@), name) == count_of(a0, name) + count_of(
                    m.take(i as int),
                    name,
                ),
        decreases more@.len() - i,
    {
        let ghost a = reasons_v(acc@);
        let name = &more[i].0;
        let c = more[i].1;
        proof {
            assert(m[i as int] == (name@, c));
            assert(m.take(i + 1).drop_last() =~= m.take(i as int));
            assert(m.take(i + 1).last() == m[i as int]);
            lemma_count_prefix(m, i + 1, m.len() as int, name@);
            assert(m.take(m.len() as int) =~= m);
            assert(count_of(a, name@) == count_of(a0, name@) + count_of(m.take(i as int), name@));
            assert(count_of(m.take(i + 1), name@) == count_of(m.take(i as int), name@) + c);
            assert(count_of(a0, name@) + count_of(m, name@) <= u64::MAX);
        }
        let mut k: usize = 0;
        let mut found = false;
        while k < acc.len()
            invariant
                a == reasons_v(acc@),
                k <= acc@.len(),
                !found ==> forall|j: int| 0 <= j < k ==> (#[trigger] a[j]).0 != name@,
                found ==> k < acc@.len() && a[k as int].0 == name@,
            ensures
                a == reasons_v(acc@),
                !found ==> forall|j: int| 0 <= j < acc@.len() ==> (#[trigger] a[j]).0 != name@,
                found ==> k < acc@.len() && a[k as int].0 == name@,
            decreases acc@.len() - k,
        {
            if str_eq(acc[k].0.as_str(), name.as_str()) {
                proof {
                    assert(a[k as int] == (acc@[k as int].0@, acc@[k as int].1));
                }
                found = true;
                break;
            }
            proof {
                assert(a[k as int] == (acc@[k as int].0@, acc@[k as int].1));
            }
            k = k + 1;
        }
        if found {
            let old_c = acc[k].1;
            proof {
                assert(a[k as int] == (acc@[k as int].0@, acc@[k as int].1));
                lemma_count_single(a, k as int);
                lemma_count_prefix(m, 0, i as int, name@);
                assert(m.take(0).len() == 0);
            }
            let key = acc[k].0.clone();
            acc.set(k, (key, old_c + c));
            proof {
                assert(reasons_v(acc@) =~= a.update(k as int, (a[k as int].0, (old_c + c) as u64)));
                assert forall|name2: Seq<char>| #[trigger] count_of(reasons_v(acc@), name2)
                    == count_of(a0, name2) + count_of(m.take(i + 1), name2) by {
                    lemma_count_update(a, k as int, (old_c + c) as u64, name2);
                    assert(count_of(m.take(i + 1), name2) == count_of(m.take(i as int), name2) + if m[i as int].0 == name2 { c as int } else { 0 });
                }
                assert forall|x: int, y: int| 0 <= x < y < reasons_v(acc@).len() implies (#[trigger] reasons_v(acc@)[x]).0 != (#[trigger] reasons_v(acc@)[y]).0 by {
                    assert(a[x] == a[x] && a[y] == a[y]);
                }
            }
        } else {
            let key = name.clone();
            acc.push((key, c));
            proof {
                assert(reasons_v(acc@) =~= a.push((name@, c)));
                assert(reasons_v(acc@).drop_last() =~= a);
                assert(reasons_v(acc@).last() == (name@, c));
                assert forall|name2: Seq<char>| #[trigger] count_of(reasons_v(acc@), name2)
                    == count_of(a0, name2) + count_of(m.take(i + 1), name2) by {
                    assert(count_of(a, name2) == count_of(a0, name2) + count_of(m.take(i as int), name2));
                    assert(count_of(reasons_v(acc@), name2) == count_of(a, name2) + if name@ == name2 { c as int } else { 0 });
                    assert(count_of(m.take(i + 1), name2) == count_of(m.take(i as int), name2) + if m[i as int].0 == name2 { c as int } else { 0 });
                }
                assert forall|x: int, y: int| 0 <= x < y < reasons_v(acc@).len() implies (#[trigger] reasons_v(acc@)[x]).0 != (#[trigger] reasons_v(acc@)[y]).0 by {
                    if y == a.len() {
                        assert(a[x] == a[x]);
                        assert(a[x].0 != name@);
                    } else {
                        assert(a[x] == a[x] && a[y] == a[y]);
                    }
                }
            }
        }
        i = i + 1;
    }
    proof {
        assert(m.take(more@.len() as int) =~= m);
    }
}

/// What one package's reclaim reports: how its held members ended, and the
/// current reasons of those still held.
pub struct ReclaimReport {
    pub reclaimed: u64,
    pub still_held: u64,
    pub already: u64,
    pub skipped_by_policy: u64,
    pub still_held_reasons: Vec<(String, u64)>,
}

/// The running totals of a `reprocess` run over its packages.
pub struct ReprocessTally {
    pub reclaimed: u64,
    pub still_held: u64,
    pub already: u64,
    pub skipped: u64,
    pub reasons: Vec<(String, u64)>,
}

/// The summary of a `reprocess` run.
pub open spec fn reprocess_summary_text(
    packages: nat,
    reclaimed: nat,
    still_held: nat,
    already: nat,
    skipped: nat,
    residual: Seq<char>,
) -> Seq<char> {
    dec(packages) + " package(s): "@ + dec(reclaimed) + " reclaimed, "@ + dec(still_held)
        + " still held, "@ + dec(already) + " already parsed, "@ + dec(skipped)
        + " skipped by dispatch policy"@ + residual
}

impl ReprocessTally {
    /// The reasons hold distinct names.
    pub open spec fn wf(&self) -> bool {
        distinct_names(reasons_v(self.reasons@))
    }

    /// Nothing counted yet.
    pub fn new() -> (t: Self)
        ensures
            t.wf(),
            t.reclaimed == 0,
            t.still_held == 0,
            t.already == 0,
            t.skipped == 0,
            t.reasons@.len() == 0,
    {
        ReprocessTally { reclaimed: 0, still_held: 0, already: 0, skipped: 0, reasons: Vec::new() }
    }

    /// Adds one package's report: each outcome's count, and each reason's
    /// count to the reason of that name.
    pub fn add_report(&mut self, report: &ReclaimReport)
        requires
            old(self).wf(),
            old(self).reclaimed + report.reclaimed <= u64::MAX,
            old(self).still_held + report.still_held <= u64::MAX,
            old(self).already + report.already <= u64::MAX,
            old(self).skipped + report.skipped_by_policy <= u64::MAX,
            forall|name: Seq<char>|
                count_of(reasons_v(old(self).reasons@), name) + #[trigger] count_of(
                    reasons_v(report.still_held_reasons@),
                    name,
                ) <= u64::MAX,
        ensures
            final(self).wf(),
            final(self).reclaimed == old(self).reclaimed + report.reclaimed,
            final(self).still_held == old(self).still_held + report.still_held,
            final(self).already == old(self).already + report.already,
            final(self).skipped == old(self).skipped + report.skipped_by_policy,
            forall|name: Seq<char>|
                #[trigger] count_of(reasons_v(final(self).reasons@), name) == count_of(
                    reasons_v(old(self).reasons@),
                    name,
                ) + count_of(reasons_v(report.still_held_reasons@), name),
    {
        self.reclaimed = self.reclaimed + report.reclaimed;
        self.still_held = self.still_held + report.still_held;
        self.already = self.already + report.already;
        self.skipped = self.skipped + report.skipped_by_policy;
        merge_reasons(&mut self.reasons, &report.still_held_reasons);
    }

    /// The run's summary over `packages` packages, with its residual line.
    pub fn summary(&self, packages: usize) -> (r: String)
        requires
            self.wf(),
            tail_total(reasons_v(self.reasons@), 8, self.reasons@.len() as int) <= u64::MAX,
        ensures
            exists|top: Seq<int>|
                ranks_top(
                    reasons_v(self.reasons@),
                    top,
                    if self.reasons@.len() < 8 {
                        self.reasons@.len() as nat
                    } else {
                        8
                    },
                ) && r@ == reprocess_summary_text(
                    packages as nat,
                    self.reclaimed as nat,
                    self.still_held as nat,
                    self.already as nat,
                    self.skipped as nat,
                    residual_text(
                        reasons_v(self.reasons@),
                        top,
                        tail_total(reasons_v(self.reasons@), 8, self.reasons@.len() as int),
                    ),
                ),
    {
        let residual = residual_line(&self.reasons);
        let mut out = String::new();
        push_u64(&mut out, packages as u64);
        out.append(" package(s): ");
        push_u64(&mut out, self.reclaimed);
        out.append(" reclaimed, ");
        push_u64(&mut out, self.still_held);
        out.append(" still held, ");
        push_u64(&mut out, self.already);
        out.append(" already parsed, ");
        push_u64(&mut out, self.skipped);
        out.append(" skipped by dispatch policy");
        out.append(residual.as_str());
        out
    }
}

/// Among reasons with distinct names no two share a ranking place.
pub proof fn lemma_rank_injective(s: Seq<ReasonCount>, i: int, j: int)
    requires
        distinct_names(s),
        0 <= i < s.len(),
        0 <= j < s.len(),
        i != j,
    ensures
        rank(s, i) != rank(s, j),
{
    let (a, b) = if i < j { (i, j) } else { (j, i) };
    assert(s[a].0 != s[b].0);
    lemma_outranks_order(s[a], s[b], s[b]);
    let (hi, lo) = if outranks(s[a], s[b]) { (a, b) } else { (b, a) };
    // `hi` outranks `lo`: whatever outranks `hi` outranks `lo`, and `hi` too.
    let oh = outrankers(s, hi);
    let ol = outrankers(s, lo);
    vstd::set_lib::lemma_int_range(0, s.len() as int);
    assert(ol.subset_of(set_int_range(0, s.len() as int)));
    vstd::set_lib::lemma_len_subset(ol, set_int_range(0, s.len() as int));
    assert forall|x: int| oh.insert(hi).contains(x) implies ol.contains(x) by {
        if x != hi {
            lemma_outranks_order(s[x], s[hi], s[lo]);
        }
    }
    lemma_outranks_order(s[hi], s[hi], s[hi]);
    assert(!oh.contains(hi));
    vstd::set_lib::lemma_len_subset(oh.insert(hi), ol);
    vstd::set_lib::lemma_len_subset(oh, oh.insert(hi));
}

/// The top of a ranking is determined: among reasons with distinct names, two
/// lists of the reasons ranked `0 .. n` are the same list.
pub proof fn law_ranking_is_determined(s: Seq<ReasonCount>, t1: Seq<int>, t2: Seq<int>, n: nat)
    requires
        distinct_names(s),
        ranks_top(s, t1, n),
        ranks_top(s, t2, n),
    ensures
        t1 == t2,
{
    assert forall|k: int| 0 <= k < n implies t1[k] == t2[k] by {
        assert(0 <= t1[k] < s.len() && rank(s, t1[k]) == k);
        assert(0 <= t2[k] < s.len() && rank(s, t2[k]) == k);
        if t1[k] != t2[k] {
            lemma_rank_injective(s, t1[k], t2[k]);
        }
    }
    assert(t1 =~= t2);
}

/// Appends the items joined with `, `.
pub(crate) fn push_items(out: &mut String, items: &Vec<String>)
    ensures
        final(out)@ == old(out)@ + join_items(items.deep_view()),
{
    let ghost d = items.deep_view();
    let mut i: usize = 0;
    while i < items.len()
        invariant
            i <= items@.len(),
            d == items.deep_view(),
            out@ == old(out)@ + join_items(d.take(i as int)),
        decreases items@.len() - i,
    {
        proof {
            assert(d.take(i + 1).drop_last() =~= d.take(i as int));
            assert(d[i as int] == items@[i as int]@);
            if i == 0 {
                assert(d.take(1) =~= seq![d[0]]);
            }
        }
        if i > 0 {
            out.append(", ");
        }
        out.append(items[i].as_str());
        i = i + 1;
    }
    proof {
        assert(d.take(items@.len() as int) =~= d);
    }
}

} // verus!
