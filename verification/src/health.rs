//! The identifier side of the `org-merge-health` census: placeholder classes
//! and per-scheme checksum rates, the parser-vs-stock
//! verdicts over the rows standing as `vat`, and the Austrian 9110 GLN class.
use vstd::prelude::*;
use crate::text::{dec, dec_int, is_digit, push_i64, push_u64, str_eq};
use crate::residual::{join_items, push_items};
use crate::spread::NameSpread;

verus! {

/// A row's checksum verdict under its scheme.
#[derive(PartialEq, Eq, Structural, Clone, Copy, Debug)]
pub enum Checksum {
    Pass,
    Fail,
    Unknown,
}

/// What the identifier gate's census says of one row: the scheme it falls
/// under, its checksum verdict and the placeholder classes it hits.
pub struct GateCensus {
    pub scheme: String,
    pub checksum: Checksum,
    pub lexicon: bool,
    pub sequence: bool,
    pub letter_run: bool,
    pub short_vat: bool,
    pub hex_hash: bool,
    pub compound: bool,
}

/// How many items satisfy `p`.
pub open spec fn count_where<A>(s: Seq<A>, p: spec_fn(A) -> bool) -> nat
    decreases s.len(),
{
    if s.len() == 0 {
        0
    } else {
        count_where(s.drop_last(), p) + if p(s.last()) {
            1nat
        } else {
            0nat
        }
    }
}

pub proof fn lemma_count_where_le<A>(s: Seq<A>, p: spec_fn(A) -> bool)
    ensures
        count_where(s, p) <= s.len(),
    decreases s.len(),
{
    if s.len() > 0 {
        lemma_count_where_le(s.drop_last(), p);
    }
}

/// The row's checksum counts toward its scheme's pass rate: a pass on a row no
/// earlier gate stage condemns.
pub open spec fn counts_pass(c: GateCensus) -> bool {
    !c.lexicon && !c.sequence && c.checksum == Checksum::Pass
}

/// The row's checksum counts toward its scheme's fail rate.
pub open spec fn counts_fail(c: GateCensus) -> bool {
    !c.lexicon && !c.sequence && c.checksum == Checksum::Fail
}

/// A scheme's population and its counted checksum passes and fails.
pub struct SchemeTally {
    pub scheme: String,
    pub pop: u64,
    pub pass: u64,
    pub fail: u64,
}

/// The scheme tallies as plain values.
pub open spec fn schemes_v(s: Seq<SchemeTally>) -> Seq<(Seq<char>, u64, u64, u64)> {
    s.map_values(|t: SchemeTally| (t.scheme@, t.pop, t.pass, t.fail))
}

/// The population, passes and fails the tallies hold under `name`.
pub open spec fn tally_of(s: Seq<(Seq<char>, u64, u64, u64)>, name: Seq<char>) -> (int, int, int)
    decreases s.len(),
{
    if s.len() == 0 {
        (0, 0, 0)
    } else {
        let r = tally_of(s.drop_last(), name);
        if s.last().0 == name {
            (r.0 + s.last().1, r.1 + s.last().2, r.2 + s.last().3)
        } else {
            r
        }
    }
}

/// The population, counted passes and counted fails observed under `name`.
pub open spec fn observed_of(seen: Seq<GateCensus>, name: Seq<char>) -> (int, int, int)
    decreases seen.len(),
{
    if seen.len() == 0 {
        (0, 0, 0)
    } else {
        let r = observed_of(seen.drop_last(), name);
        let c = seen.last();
        if c.scheme@ == name {
            (
                r.0 + 1,
                r.1 + if counts_pass(c) {
                    1int
                } else {
                    0
                },
                r.2 + if counts_fail(c) {
                    1int
                } else {
                    0
                },
            )
        } else {
            r
        }
    }
}

/// No two tallies share a scheme.
pub open spec fn distinct_schemes(s: Seq<(Seq<char>, u64, u64, u64)>) -> bool {
    forall|i: int, j: int| 0 <= i < j < s.len() ==> (#[trigger] s[i]).0 != (#[trigger] s[j]).0
}

proof fn lemma_observed_bounds(seen: Seq<GateCensus>, name: Seq<char>)
    ensures
        0 <= observed_of(seen, name).1 <= observed_of(seen, name).0 <= seen.len(),
        0 <= observed_of(seen, name).2 <= observed_of(seen, name).0,
    decreases seen.len(),
{
    if seen.len() > 0 {
        lemma_observed_bounds(seen.drop_last(), name);
    }
}

proof fn lemma_tally_absent(s: Seq<(Seq<char>, u64, u64, u64)>, name: Seq<char>)
    requires
        forall|i: int| 0 <= i < s.len() ==> (#[trigger] s[i]).0 != name,
    ensures
        tally_of(s, name) == (0int, 0int, 0int),
    decreases s.len(),
{
    if s.len() > 0 {
        assert(s.last() == s[s.len() - 1]);
        lemma_tally_absent(s.drop_last(), name);
    }
}

proof fn lemma_tally_single(s: Seq<(Seq<char>, u64, u64, u64)>, k: int)
    requires
        distinct_schemes(s),
        0 <= k < s.len(),
    ensures
        tally_of(s, s[k].0) == (s[k].1 as int, s[k].2 as int, s[k].3 as int),
    decreases s.len(),
{
    let d = s.drop_last();
    if k == s.len() - 1 {
        assert forall|i: int| 0 <= i < d.len() implies (#[trigger] d[i]).0 != s[k].0 by {
            assert(d[i] == s[i]);
        }
        lemma_tally_absent(d, s[k].0);
    } else {
        assert(s.last() == s[s.len() - 1]);
        assert(d[k] == s[k]);
        lemma_tally_single(d, k);
    }
}

proof fn lemma_tally_update(
    s: Seq<(Seq<char>, u64, u64, u64)>,
    k: int,
    e: (Seq<char>, u64, u64, u64),
    name: Seq<char>,
)
    requires
        0 <= k < s.len(),
        e.0 == s[k].0,
    ensures
        tally_of(s.update(k, e), name) == if s[k].0 == name {
            (
                tally_of(s, name).0 + e.1 - s[k].1,
                tally_of(s, name).1 + e.2 - s[k].2,
                tally_of(s, name).2 + e.3 - s[k].3,
            )
        } else {
            tally_of(s, name)
        },
    decreases s.len(),
{
    let t = s.update(k, e);
    if k == s.len() - 1 {
        assert(t.drop_last() =~= s.drop_last());
    } else {
        assert(t.drop_last() =~= s.drop_last().update(k, e));
        assert(t.last() == s.last());
        lemma_tally_update(s.drop_last(), k, e, name);
    }
}

/// The identifier-gate tallies over the rows observed so far.
pub struct GateTally {
    pub lexicon: u64,
    pub sequence: u64,
    pub letter_run: u64,
    pub short_vat: u64,
    pub hex_hash: u64,
    pub compound: u64,
    pub schemes: Vec<SchemeTally>,
    pub seen: Ghost<Seq<GateCensus>>,
}

impl GateTally {
    /// Every row observed so far, in order.
    pub open spec fn seen(&self) -> Seq<GateCensus> {
        self.seen@
    }

    /// Each counter counts its class among the rows observed, and each scheme
    /// observed has one tally that counts its rows.
    pub open spec fn wf(&self) -> bool {
        &&& self.lexicon == count_where(self.seen(), |c: GateCensus| c.lexicon)
        &&& self.sequence == count_where(self.seen(), |c: GateCensus| c.sequence)
        &&& self.letter_run == count_where(self.seen(), |c: GateCensus| c.letter_run)
        &&& self.short_vat == count_where(self.seen(), |c: GateCensus| c.short_vat)
        &&& self.hex_hash == count_where(self.seen(), |c: GateCensus| c.hex_hash)
        &&& self.compound == count_where(self.seen(), |c: GateCensus| c.compound)
        &&& distinct_schemes(schemes_v(self.schemes@))
        &&& forall|name: Seq<char>| #[trigger]
            tally_of(schemes_v(self.schemes@), name) == observed_of(self.seen(), name)
    }

    /// Nothing observed.
    pub fn new() -> (t: Self)
        ensures
            t.wf(),
            t.seen() == Seq::<GateCensus>::empty(),
    {
        GateTally {
            lexicon: 0,
            sequence: 0,
            letter_run: 0,
            short_vat: 0,
            hex_hash: 0,
            compound: 0,
            schemes: Vec::new(),
            seen: Ghost(Seq::empty()),
        }
    }

    /// Observes one row's gate census.
    pub fn observe(&mut self, c: GateCensus)
        requires
            old(self).wf(),
            old(self).seen().len() < u64::MAX,
        ensures
            final(self).wf(),
            final(self).seen() == old(self).seen().push(c),
    {
        let ghost s0 = self.seen@;
        let ghost s1 = s0.push(c);
        let ghost a = schemes_v(self.schemes@);
        proof {
            assert(s1.drop_last() =~= s0);
            assert(s1.last() == c);
            lemma_count_where_le(s0, |c: GateCensus| c.lexicon);
            lemma_count_where_le(s0, |c: GateCensus| c.sequence);
            lemma_count_where_le(s0, |c: GateCensus| c.letter_run);
            lemma_count_where_le(s0, |c: GateCensus| c.short_vat);
            lemma_count_where_le(s0, |c: GateCensus| c.hex_hash);
            lemma_count_where_le(s0, |c: GateCensus| c.compound);
        }
        if c.lexicon {
            self.lexicon = self.lexicon + 1;
        }
        if c.sequence {
            self.sequence = self.sequence + 1;
        }
        if c.letter_run {
            self.letter_run = self.letter_run + 1;
        }
        if c.short_vat {
            self.short_vat = self.short_vat + 1;
        }
        if c.hex_hash {
            self.hex_hash = self.hex_hash + 1;
        }
        if c.compound {
            self.compound = self.compound + 1;
        }
        let pass: u64 = if !c.lexicon && !c.sequence && c.checksum == Checksum::Pass {
            1
        } else {
            0
        };
        let fail: u64 = if !c.lexicon && !c.sequence && c.checksum == Checksum::Fail {
            1
        } else {
            0
        };
        let mut k: usize = 0;
        let mut found = false;
        while k < self.schemes.len()
            invariant
                a == schemes_v(self.schemes@),
                k <= self.schemes@.len(),
                !found ==> forall|j: int| 0 <= j < k ==> (#[trigger] a[j]).0 != c.scheme@,
                found ==> k < self.schemes@.len() && a[k as int].0 == c.scheme@,
            ensures
                a == schemes_v(self.schemes@),
                !found ==> forall|j: int|
                    0 <= j < self.schemes@.len() ==> (#[trigger] a[j]).0 != c.scheme@,
                found ==> k < self.schemes@.len() && a[k as int].0 == c.scheme@,
            decreases self.schemes@.len() - k,
        {
            proof {
                assert(a[k as int] == (
                    self.schemes@[k as int].scheme@,
                    self.schemes@[k as int].pop,
                    self.schemes@[k as int].pass,
                    self.schemes@[k as int].fail,
                ));
            }
            if str_eq(self.schemes[k].scheme.as_str(), c.scheme.as_str()) {
                found = true;
                break;
            }
            k = k + 1;
        }
        if found {
            let t = &self.schemes[k];
            proof {
                assert(a[k as int] == (t.scheme@, t.pop, t.pass, t.fail));
                lemma_tally_single(a, k as int);
                lemma_observed_bounds(s0, c.scheme@);
            }
            let e = SchemeTally {
                scheme: t.scheme.clone(),
                pop: t.pop + 1,
                pass: t.pass + pass,
                fail: t.fail + fail,
            };
            self.schemes.set(k, e);
            self.seen = Ghost(s1);
            proof {
                let ev = (e.scheme@, e.pop, e.pass, e.fail);
                assert(schemes_v(self.schemes@) =~= a.update(k as int, ev));
                assert forall|name: Seq<char>| #[trigger]
                    tally_of(schemes_v(self.schemes@), name) == observed_of(s1, name) by {
                    lemma_tally_update(a, k as int, ev, name);
                }
                assert forall|x: int, y: int|
                    0 <= x < y < schemes_v(self.schemes@).len() implies (#[trigger] schemes_v(
                        self.schemes@,
                    )[x]).0 != (#[trigger] schemes_v(self.schemes@)[y]).0 by {
                    assert(a[x] == a[x] && a[y] == a[y]);
                }
            }
        } else {
            let e = SchemeTally { scheme: c.scheme.clone(), pop: 1, pass, fail };
            self.schemes.push(e);
            self.seen = Ghost(s1);
            proof {
                let ev = (e.scheme@, e.pop, e.pass, e.fail);
                assert(schemes_v(self.schemes@) =~= a.push(ev));
                assert(schemes_v(self.schemes@).drop_last() =~= a);
                assert forall|name: Seq<char>| #[trigger]
                    tally_of(schemes_v(self.schemes@), name) == observed_of(s1, name) by {
                    assert(tally_of(a, name) == observed_of(s0, name));
                }
                assert forall|x: int, y: int|
                    0 <= x < y < schemes_v(self.schemes@).len() implies (#[trigger] schemes_v(
                        self.schemes@,
                    )[x]).0 != (#[trigger] schemes_v(self.schemes@)[y]).0 by {
                    if y == a.len() {
                        assert(a[x] == a[x]);
                    } else {
                        assert(a[x] == a[x] && a[y] == a[y]);
                    }
                }
            }
        }
        proof {
            assert(count_where(s1, |c: GateCensus| c.lexicon) == count_where(
                s0,
                |c: GateCensus| c.lexicon,
            ) + if c.lexicon {
                1nat
            } else {
                0nat
            });
        }
    }

    /// The larger of the lexicon and sequence counts: the floor on how many
    /// identifiers are placeholder-keyed.
    pub fn placeholder_total(&self) -> (r: u64)
        ensures
            r == if self.lexicon >= self.sequence {
                self.lexicon
            } else {
                self.sequence
            },
    {
        if self.lexicon >= self.sequence {
            self.lexicon
        } else {
            self.sequence
        }
    }
}

// ---------------------------------------------------------------- parser vs stock

/// What the identifier parser makes of a row's published value today: the
/// kind it files it under and the country it gives it.
pub struct ParsedId {
    pub kind: String,
    pub country: Option<String>,
}

/// The view of an optional string.
pub open spec fn opt_text(o: Option<String>) -> Option<Seq<char>> {
    match o {
        Some(s) => Some(s@),
        None => None,
    }
}

/// How a row standing as `vat` compares with what the parser says of it now.
#[derive(PartialEq, Eq, Structural, Clone, Copy, Debug)]
pub enum VatVerdict {
    Agrees,
    NoLongerVat,
    CountryDiffers,
    Refused,
}

/// The verdict on a row standing as `vat` under `stored`: refused when the
/// parser takes nothing, no longer vat when it files the value under another
/// kind, a different country when it keeps `vat` under another country.
pub open spec fn vat_verdict_spec(stored: Option<Seq<char>>, parsed: Option<(Seq<char>, Option<Seq<char>>)>) -> VatVerdict {
    match parsed {
        None => VatVerdict::Refused,
        Some(p) => if p.0 != "vat"@ {
            VatVerdict::NoLongerVat
        } else if p.1 != stored {
            VatVerdict::CountryDiffers
        } else {
            VatVerdict::Agrees
        },
    }
}

/// The verdict on a row standing as `vat`, from its stored country and what
/// the parser made of its value.
pub fn vat_verdict(stored: Option<&str>, parsed: Option<&ParsedId>) -> (r: VatVerdict)
    ensures
        r == vat_verdict_spec(
            match stored {
                Some(s) => Some(s@),
                None => None,
            },
            match parsed {
                Some(p) => Some((p.kind@, opt_text(p.country))),
                None => None,
            },
        ),
{
    match parsed {
        None => VatVerdict::Refused,
        Some(p) => {
            if !str_eq(p.kind.as_str(), "vat") {
                VatVerdict::NoLongerVat
            } else {
                let same = match (&p.country, stored) {
                    (Some(a), Some(b)) => str_eq(a.as_str(), b),
                    (None, None) => true,
                    _ => false,
                };
                if same {
                    VatVerdict::Agrees
                } else {
                    VatVerdict::CountryDiffers
                }
            }
        },
    }
}

/// The parser-vs-stock counters over the rows standing as `vat`.
pub struct ParserVsStock {
    pub no_longer_vat: u64,
    pub vat_country_differs: u64,
    pub vat_refused: u64,
}

impl ParserVsStock {
    /// Nothing counted.
    pub fn new() -> (p: Self)
        ensures
            p.no_longer_vat == 0,
            p.vat_country_differs == 0,
            p.vat_refused == 0,
    {
        ParserVsStock { no_longer_vat: 0, vat_country_differs: 0, vat_refused: 0 }
    }

    /// Counts one verdict under its counter; an agreeing row counts nowhere.
    pub fn record(&mut self, v: VatVerdict)
        requires
            old(self).no_longer_vat < u64::MAX,
            old(self).vat_country_differs < u64::MAX,
            old(self).vat_refused < u64::MAX,
        ensures
            final(self).no_longer_vat == old(self).no_longer_vat + if v == VatVerdict::NoLongerVat {
                1int
            } else {
                0
            },
            final(self).vat_country_differs == old(self).vat_country_differs + if v
                == VatVerdict::CountryDiffers {
                1int
            } else {
                0
            },
            final(self).vat_refused == old(self).vat_refused + if v == VatVerdict::Refused {
                1int
            } else {
                0
            },
    {
        match v {
            VatVerdict::NoLongerVat => self.no_longer_vat = self.no_longer_vat + 1,
            VatVerdict::CountryDiffers => self.vat_country_differs = self.vat_country_differs + 1,
            VatVerdict::Refused => self.vat_refused = self.vat_refused + 1,
            VatVerdict::Agrees => {},
        }
    }
}

// ---------------------------------------------------------------- 9110 GLN

/// An Austrian 9110 GLN: thirteen decimal digits beginning `9110`.
pub open spec fn is_austrian_gln_spec(s: Seq<char>) -> bool {
    &&& s.len() == 13
    &&& s.take(4) == "9110"@
    &&& forall|i: int| 0 <= i < 13 ==> is_digit(#[trigger] s[i])
}

/// Whether `identifier` is an Austrian 9110 GLN.
pub fn is_austrian_gln(identifier: &str) -> (r: bool)
    ensures
        r == is_austrian_gln_spec(identifier@),
{
    proof {
        reveal_strlit("9110");
    }
    let n = identifier.unicode_len();
    if n != 13 {
        return false;
    }
    let mut i: usize = 0;
    while i < 13
        invariant
            n == 13,
            identifier@.len() == 13,
            i <= 13,
            forall|j: int| 0 <= j < i ==> is_digit(#[trigger] identifier@[j]),
        decreases 13 - i,
    {
        let c = identifier.get_char(i);
        if !('0' <= c && c <= '9') {
            return false;
        }
        i = i + 1;
    }
    let ok = identifier.get_char(0) == '9' && identifier.get_char(1) == '1' && identifier.get_char(
        2,
    ) == '1' && identifier.get_char(3) == '0';
    proof {
        if ok {
            assert(identifier@.take(4) =~= "9110"@);
        } else {
            assert(identifier@.take(4)[0] == identifier@[0]);
            assert(identifier@.take(4)[1] == identifier@[1]);
            assert(identifier@.take(4)[2] == identifier@[2]);
            assert(identifier@.take(4)[3] == identifier@[3]);
            assert(identifier@.take(4) != "9110"@);
        }
    }
    ok
}

/// The GLN rows' countries grouped by value, as plain values.
pub open spec fn gln_v(s: Seq<(String, Vec<String>)>) -> Seq<(Seq<char>, Seq<Seq<char>>)> {
    s.map_values(|e: (String, Vec<String>)| (e.0@, e.1.deep_view()))
}

/// The countries the entries hold under `value`.
pub open spec fn group_for(s: Seq<(Seq<char>, Seq<Seq<char>>)>, value: Seq<char>) -> Seq<Seq<char>>
    decreases s.len(),
{
    if s.len() == 0 {
        Seq::empty()
    } else {
        group_for(s.drop_last(), value) + if s.last().0 == value {
            s.last().1
        } else {
            Seq::empty()
        }
    }
}

/// The countries of the observed rows carrying `value`, in order.
pub open spec fn countries_for(seen: Seq<(Seq<char>, Seq<char>)>, value: Seq<char>) -> Seq<Seq<char>>
    decreases seen.len(),
{
    if seen.len() == 0 {
        Seq::empty()
    } else {
        countries_for(seen.drop_last(), value) + if seen.last().0 == value {
            seq![seen.last().1]
        } else {
            Seq::empty()
        }
    }
}

/// No two entries share a value.
pub open spec fn distinct_values(s: Seq<(Seq<char>, Seq<Seq<char>>)>) -> bool {
    forall|i: int, j: int| 0 <= i < j < s.len() ==> (#[trigger] s[i]).0 != (#[trigger] s[j]).0
}

/// Every country of the group is its first.
pub open spec fn one_country(l: Seq<Seq<char>>) -> bool {
    forall|i: int| 0 <= i < l.len() ==> #[trigger] l[i] == l[0]
}

proof fn lemma_group_absent(s: Seq<(Seq<char>, Seq<Seq<char>>)>, value: Seq<char>)
    requires
        forall|i: int| 0 <= i < s.len() ==> (#[trigger] s[i]).0 != value,
    ensures
        group_for(s, value) == Seq::<Seq<char>>::empty(),
    decreases s.len(),
{
    if s.len() > 0 {
        assert(s.last() == s[s.len() - 1]);
        lemma_group_absent(s.drop_last(), value);
        assert(group_for(s, value) =~= Seq::<Seq<char>>::empty());
    }
}

proof fn lemma_group_single(s: Seq<(Seq<char>, Seq<Seq<char>>)>, k: int)
    requires
        distinct_values(s),
        0 <= k < s.len(),
    ensures
        group_for(s, s[k].0) == s[k].1,
    decreases s.len(),
{
    let d = s.drop_last();
    if k == s.len() - 1 {
        assert forall|i: int| 0 <= i < d.len() implies (#[trigger] d[i]).0 != s[k].0 by {
            assert(d[i] == s[i]);
        }
        lemma_group_absent(d, s[k].0);
        assert(group_for(s, s[k].0) =~= s[k].1);
    } else {
        assert(s.last() == s[s.len() - 1]);
        assert(d[k] == s[k]);
        lemma_group_single(d, k);
        assert(group_for(s, s[k].0) =~= s[k].1);
    }
}

proof fn lemma_group_update(
    s: Seq<(Seq<char>, Seq<Seq<char>>)>,
    k: int,
    l: Seq<Seq<char>>,
    value: Seq<char>,
)
    requires
        distinct_values(s),
        0 <= k < s.len(),
    ensures
        group_for(s.update(k, (s[k].0, l)), value) == if s[k].0 == value {
            l
        } else {
            group_for(s, value)
        },
    decreases s.len(),
{
    let t = s.update(k, (s[k].0, l));
    if s[k].0 == value {
        assert(distinct_values(t)) by {
            assert forall|i: int, j: int| 0 <= i < j < t.len() implies (#[trigger] t[i]).0 != (
            #[trigger] t[j]).0 by {
                assert(s[i] == s[i] && s[j] == s[j]);
            }
        }
        lemma_group_single(t, k);
    } else {
        if k == s.len() - 1 {
            assert(t.drop_last() =~= s.drop_last());
            assert(group_for(t, value) =~= group_for(s, value));
        } else {
            assert(t.drop_last() =~= s.drop_last().update(k, (s[k].0, l)));
            assert(t.last() == s.last());
            assert(distinct_values(s.drop_last())) by {
                assert forall|i: int, j: int| 0 <= i < j < s.drop_last().len() implies (
                #[trigger] s.drop_last()[i]).0 != (#[trigger] s.drop_last()[j]).0 by {
                    assert(s[i] == s[i] && s[j] == s[j]);
                }
            }
            lemma_group_update(s.drop_last(), k, l, value);
            assert(group_for(t, value) =~= group_for(s, value));
        }
    }
}

/// The Austrian 9110 GLN rows: how many, and their countries by value.
pub struct GlnTally {
    pub rows: u64,
    pub by_value: Vec<(String, Vec<String>)>,
    pub seen: Ghost<Seq<(Seq<char>, Seq<char>)>>,
}

impl GlnTally {
    /// The GLN rows observed so far as (value, country), a missing country as
    /// the empty string.
    pub open spec fn seen(&self) -> Seq<(Seq<char>, Seq<char>)> {
        self.seen@
    }

    /// The count and the grouping agree with the rows observed.
    pub open spec fn wf(&self) -> bool {
        &&& self.rows == self.seen().len()
        &&& distinct_values(gln_v(self.by_value@))
        &&& forall|i: int|
            0 <= i < self.by_value@.len() ==> (#[trigger] gln_v(self.by_value@)[i]).1.len() > 0
        &&& forall|value: Seq<char>| #[trigger]
            group_for(gln_v(self.by_value@), value) == countries_for(self.seen(), value)
    }

    /// Nothing observed.
    pub fn new() -> (g: Self)
        ensures
            g.wf(),
            g.seen() == Seq::<(Seq<char>, Seq<char>)>::empty(),
    {
        GlnTally { rows: 0, by_value: Vec::new(), seen: Ghost(Seq::empty()) }
    }

    /// Observes one row: a 9110 GLN is counted and grouped under its value
    /// with its country; any other identifier is passed over.
    pub fn observe(&mut self, identifier: &str, country: Option<&str>)
        requires
            old(self).wf(),
            old(self).seen().len() < u64::MAX,
        ensures
            final(self).wf(),
            final(self).seen() == if is_austrian_gln_spec(identifier@) {
                old(self).seen().push(
                    (
                        identifier@,
                        match country {
                            Some(c) => c@,
                            None => Seq::<char>::empty(),
                        },
                    ),
                )
            } else {
                old(self).seen()
            },
    {
        if !is_austrian_gln(identifier) {
            return;
        }
        let cc: String = match country {
            Some(c) => String::from_str(c),
            None => String::new(),
        };
        let ghost s0 = self.seen@;
        let ghost s1 = s0.push((identifier@, cc@));
        let ghost a = gln_v(self.by_value@);
        proof {
            assert(s1.drop_last() =~= s0);
        }
        self.rows = self.rows + 1;
        let mut k: usize = 0;
        let mut found = false;
        while k < self.by_value.len()
            invariant
                a == gln_v(self.by_value@),
                k <= self.by_value@.len(),
                !found ==> forall|j: int| 0 <= j < k ==> (#[trigger] a[j]).0 != identifier@,
                found ==> k < self.by_value@.len() && a[k as int].0 == identifier@,
            ensures
                a == gln_v(self.by_value@),
                !found ==> forall|j: int|
                    0 <= j < self.by_value@.len() ==> (#[trigger] a[j]).0 != identifier@,
                found ==> k < self.by_value@.len() && a[k as int].0 == identifier@,
            decreases self.by_value@.len() - k,
        {
            proof {
                assert(a[k as int].0 == self.by_value@[k as int].0@);
            }
            if str_eq(self.by_value[k].0.as_str(), identifier) {
                found = true;
                break;
            }
            k = k + 1;
        }
        if found {
            let (value, mut countries) = self.by_value.remove(k);
            proof {
                assert(a[k as int] == (value@, countries.deep_view()));
                lemma_group_single(a, k as int);
            }
            let ghost l0 = countries.deep_view();
            countries.push(cc);
            proof {
                assert(countries.deep_view() =~= l0.push(cc@));
            }
            self.by_value.insert(k, (value, countries));
            self.seen = Ghost(s1);
            proof {
                let l1 = countries.deep_view();
                assert(gln_v(self.by_value@) =~= a.update(k as int, (a[k as int].0, l1)));
                assert forall|v: Seq<char>| #[trigger]
                    group_for(gln_v(self.by_value@), v) == countries_for(s1, v) by {
                    lemma_group_update(a, k as int, l1, v);
                    if v == identifier@ {
                        assert(countries_for(s1, v) =~= countries_for(s0, v).push(cc@));
                    } else {
                        assert(countries_for(s1, v) =~= countries_for(s0, v));
                    }
                }
                assert forall|x: int, y: int|
                    0 <= x < y < gln_v(self.by_value@).len() implies (#[trigger] gln_v(
                        self.by_value@,
                    )[x]).0 != (#[trigger] gln_v(self.by_value@)[y]).0 by {
                    assert(a[x] == a[x] && a[y] == a[y]);
                }
                assert forall|i: int| 0 <= i < self.by_value@.len() implies (#[trigger] gln_v(
                    self.by_value@,
                )[i]).1.len() > 0 by {
                    if i != k {
                        assert(a[i] == a[i]);
                    }
                }
            }
        } else {
            let mut countries: Vec<String> = Vec::new();
            countries.push(cc);
            let value = String::from_str(identifier);
            self.by_value.push((value, countries));
            self.seen = Ghost(s1);
            proof {
                let l1 = countries.deep_view();
                assert(l1 =~= seq![cc@]);
                assert(gln_v(self.by_value@) =~= a.push((identifier@, l1)));
                assert(gln_v(self.by_value@).drop_last() =~= a);
                assert forall|v: Seq<char>| #[trigger]
                    group_for(gln_v(self.by_value@), v) == countries_for(s1, v) by {
                    assert(group_for(a, v) == countries_for(s0, v));
                    if v == identifier@ {
                        lemma_group_absent(a, v);
                        assert(group_for(gln_v(self.by_value@), v) =~= seq![cc@]);
                        assert(countries_for(s1, v) =~= countries_for(s0, v).push(cc@));
                    } else {
                        assert(group_for(gln_v(self.by_value@), v) =~= group_for(a, v));
                        assert(countries_for(s1, v) =~= countries_for(s0, v));
                    }
                }
                assert forall|x: int, y: int|
                    0 <= x < y < gln_v(self.by_value@).len() implies (#[trigger] gln_v(
                        self.by_value@,
                    )[x]).0 != (#[trigger] gln_v(self.by_value@)[y]).0 by {
                    if y == a.len() {
                        assert(a[x] == a[x]);
                    } else {
                        assert(a[x] == a[x] && a[y] == a[y]);
                    }
                }
                assert forall|i: int| 0 <= i < self.by_value@.len() implies (#[trigger] gln_v(
                    self.by_value@,
                )[i]).1.len() > 0 by {
                    if i < a.len() {
                        assert(a[i] == a[i]);
                    }
                }
            }
        }
    }

    /// How many values are held by more than one row, and how many of those
    /// have every row under the same country.
    pub fn shared(&self) -> (r: (u64, u64))
        ensures
            r.0 == shared_count(gln_v(self.by_value@)),
            r.1 == one_country_count(gln_v(self.by_value@)),
    {
        let ghost a = gln_v(self.by_value@);
        let mut shared: u64 = 0;
        let mut one: u64 = 0;
        let mut i: usize = 0;
        while i < self.by_value.len()
            invariant
                a == gln_v(self.by_value@),
                i <= self.by_value@.len(),
                shared == shared_count(a.take(i as int)),
                one == one_country_count(a.take(i as int)),
                shared <= i,
                one <= i,
            decreases self.by_value@.len() - i,
        {
            let codes = &self.by_value[i].1;
            let ghost l = codes.deep_view();
            proof {
                assert(a.take(i + 1).drop_last() =~= a.take(i as int));
                assert(a.take(i + 1).last() == a[i as int]);
                assert(a[i as int].1 == l);
                assert(l.len() == codes@.len());
            }
            if codes.len() >= 2 {
                shared = shared + 1;
                let mut j: usize = 1;
                let mut same = true;
                while j < codes.len()
                    invariant
                        l == codes.deep_view(),
                        1 <= j <= codes@.len(),
                        same == forall|x: int| 0 <= x < j ==> #[trigger] l[x] == l[0],
                    decreases codes@.len() - j,
                {
                    proof {
                        assert(l[j as int] == codes@[j as int]@);
                        assert(l[0] == codes@[0]@);
                    }
                    if !str_eq(codes[j].as_str(), codes[0].as_str()) {
                        proof {
                            assert(l[j as int] != l[0]);
                        }
                        same = false;
                    }
                    j = j + 1;
                }
                if same {
                    one = one + 1;
                }
                proof {
                    assert(same == one_country(l));
                }
            }
            i = i + 1;
        }
        proof {
            assert(a.take(self.by_value@.len() as int) =~= a);
        }
        (shared, one)
    }
}

/// How many groups hold more than one row.
pub open spec fn shared_count(s: Seq<(Seq<char>, Seq<Seq<char>>)>) -> nat
    decreases s.len(),
{
    if s.len() == 0 {
        0
    } else {
        shared_count(s.drop_last()) + if s.last().1.len() >= 2 {
            1nat
        } else {
            0nat
        }
    }
}

/// How many groups hold more than one row, all under one country.
pub open spec fn one_country_count(s: Seq<(Seq<char>, Seq<Seq<char>>)>) -> nat
    decreases s.len(),
{
    if s.len() == 0 {
        0
    } else {
        one_country_count(s.drop_last()) + if s.last().1.len() >= 2 && one_country(s.last().1) {
            1nat
        } else {
            0nat
        }
    }
}

// ---------------------------------------------------------------- summary

/// The tail of the census line: the alarms when any fired, else a note on a
/// first run that had no baseline to compare against.
pub open spec fn health_tail(alarms: Seq<Seq<char>>, had_previous: bool) -> Seq<char> {
    if alarms.len() == 0 {
        if had_previous {
            Seq::empty()
        } else {
            " — first run, no baseline to compare against"@
        }
    } else {
        "; PARSER-VS-STOCK ALARM(S): "@ + join_items(alarms)
    }
}

/// The `org-merge-health` census line.
pub open spec fn health_summary_text(
    spread: (nat, nat, nat, nat, nat, int),
    gate: (nat, nat, nat, nat, nat, nat, nat),
    pvs: (nat, nat, nat),
    gln: (nat, nat, nat),
    tail: Seq<char>,
) -> Seq<char> {
    "org-merge-health census (issue 300): "@ + dec(spread.0) + " identifier-bearing orgs, "@
        + dec(spread.1) + " with >=2 distinct mention names, "@ + dec(spread.2) + " >=6, "@
        + dec(spread.3) + " >=20, max "@ + dec(spread.4) + " (org "@ + dec_int(spread.5)
        + "); gate census: "@ + dec(gate.0) + " lexicon, "@ + dec(gate.1) + " sequence, "@
        + dec(gate.2) + " letter-run, "@ + dec(gate.3) + " short-vat, "@ + dec(gate.4)
        + " hex-hash, "@ + dec(gate.5) + " compound hits (~"@ + dec(gate.6)
        + "+ placeholder-keyed; checksum rates now exclude condemned ids). Parser-vs-stock (issue 325 step 5): "@
        + dec(pvs.0) + " no longer vat, "@ + dec(pvs.1) + " vat under another country, "@
        + dec(pvs.2) + " now refused. Issue 327: "@ + dec(gln.0)
        + " Austrian 9110 GLN row(s), "@ + dec(gln.1)
        + " value(s) held by more than one row (that class is wrong about two thirds of the time), "@
        + dec(gln.2) + " of them under a SINGLE country"@ + tail
}

/// The census line of an `org-merge-health` run, from its tallies, the
/// parser-vs-stock alarms and whether an earlier report stood to compare
/// against.
pub fn health_summary(
    spread: &NameSpread,
    gate: &GateTally,
    pvs: &ParserVsStock,
    gln_rows: u64,
    gln_shared: u64,
    gln_one_country: u64,
    alarms: &Vec<String>,
    had_previous: bool,
) -> (r: String)
    ensures
        r@ == health_summary_text(
            (
                spread.orgs as nat,
                spread.ge2 as nat,
                spread.ge6 as nat,
                spread.ge20 as nat,
                spread.max.0 as nat,
                spread.max.1 as int,
            ),
            (
                gate.lexicon as nat,
                gate.sequence as nat,
                gate.letter_run as nat,
                gate.short_vat as nat,
                gate.hex_hash as nat,
                gate.compound as nat,
                if gate.lexicon >= gate.sequence {
                    gate.lexicon as nat
                } else {
                    gate.sequence as nat
                },
            ),
            (pvs.no_longer_vat as nat, pvs.vat_country_differs as nat, pvs.vat_refused as nat),
            (gln_rows as nat, gln_shared as nat, gln_one_country as nat),
            health_tail(alarms.deep_view(), had_previous),
        ),
{
    let mut s = String::from_str("org-merge-health census (issue 300): ");
    push_u64(&mut s, spread.orgs);
    s.append(" identifier-bearing orgs, ");
    push_u64(&mut s, spread.ge2);
    s.append(" with >=2 distinct mention names, ");
    push_u64(&mut s, spread.ge6);
    s.append(" >=6, ");
    push_u64(&mut s, spread.ge20);
    s.append(" >=20, max ");
    push_u64(&mut s, spread.max.0);
    s.append(" (org ");
    push_i64(&mut s, spread.max.1);
    s.append("); gate census: ");
    push_u64(&mut s, gate.lexicon);
    s.append(" lexicon, ");
    push_u64(&mut s, gate.sequence);
    s.append(" sequence, ");
    push_u64(&mut s, gate.letter_run);
    s.append(" letter-run, ");
    push_u64(&mut s, gate.short_vat);
    s.append(" short-vat, ");
    push_u64(&mut s, gate.hex_hash);
    s.append(" hex-hash, ");
    push_u64(&mut s, gate.compound);
    s.append(" compound hits (~");
    push_u64(&mut s, gate.placeholder_total());
    s.append(
        "+ placeholder-keyed; checksum rates now exclude condemned ids). Parser-vs-stock (issue 325 step 5): ",
    );
    push_u64(&mut s, pvs.no_longer_vat);
    s.append(" no longer vat, ");
    push_u64(&mut s, pvs.vat_country_differs);
    s.append(" vat under another country, ");
    push_u64(&mut s, pvs.vat_refused);
    s.append(" now refused. Issue 327: ");
    push_u64(&mut s, gln_rows);
    s.append(" Austrian 9110 GLN row(s), ");
    push_u64(&mut s, gln_shared);
    s.append(
        " value(s) held by more than one row (that class is wrong about two thirds of the time), ",
    );
    push_u64(&mut s, gln_one_country);
    s.append(" of them under a SINGLE country");
    if alarms.len() == 0 {
        if !had_previous {
            s.append(" — first run, no baseline to compare against");
        }
    } else {
        s.append("; PARSER-VS-STOCK ALARM(S): ");
        push_items(&mut s, alarms);
    }
    s
}

} // verus!
