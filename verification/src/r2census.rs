//! The R2 census, the read-only preview of the same-country merge: where each
//! identifier-bearing org row lands (no key, no country, a country its VAT
//! prefix contradicts, or a same-country key group), the denial classes the
//! key function refuses, and the statistics over the groups of two or more.
use vstd::prelude::*;
use crate::text::{dec, push_u64, str_eq};

verus! {

/// An identifier-bearing org row as the census walk reads it.
pub struct OrgIdRow {
    pub org_id: i64,
    pub country: Option<String>,
    pub kind: Option<String>,
    pub identifier: String,
}

/// The crosswalk's canonical key of a row: its scheme and key, and whether it
/// is the row's own (E1) key rather than one derived from padding (E2).
pub struct CanonicalKey {
    pub scheme: String,
    pub key: String,
    pub e1: bool,
}

/// The larger groups the merge refuses: more members than this.
pub const GROUP_CAP: u64 = 8;

/// An ASCII letter or digit.
pub open spec fn is_alnum(c: char) -> bool {
    ('0' <= c && c <= '9') || ('A' <= c && c <= 'Z') || ('a' <= c && c <= 'z')
}

/// A character's code point, upper-cased when it is an ASCII lower-case letter.
pub open spec fn upper_code(c: char) -> int {
    if 'a' <= c && c <= 'z' {
        c as int - 32
    } else {
        c as int
    }
}

/// The identifier's ASCII letters and digits, upper-cased, as code points.
pub open spec fn norm_codes(s: Seq<char>) -> Seq<int>
    decreases s.len(),
{
    if s.len() == 0 {
        Seq::empty()
    } else {
        norm_codes(s.drop_last()) + if is_alnum(s.last()) {
            seq![upper_code(s.last())]
        } else {
            Seq::empty()
        }
    }
}

/// The code points of a pattern.
pub open spec fn codes(p: Seq<char>) -> Seq<int> {
    p.map_values(|c: char| c as int)
}

/// `s` begins with `p`.
pub open spec fn begins(s: Seq<int>, p: Seq<int>) -> bool {
    s.len() >= p.len() && s.take(p.len() as int) == p
}

/// The row's kind, `national` when it names none.
pub open spec fn kind_of(row: OrgIdRow) -> Seq<char> {
    match row.kind {
        Some(k) => k@,
        None => "national"@,
    }
}

/// The row stands as a VAT number.
pub open spec fn is_vat(row: OrgIdRow) -> bool {
    kind_of(row) == "vat"@
}

/// A Czech VAT number of the 699 class (the key function refuses it).
pub open spec fn cz699(row: OrgIdRow) -> bool {
    is_vat(row) && begins(norm_codes(row.identifier@), codes("CZ699"@))
}

/// A Spanish UTE (a temporary joint venture; the key function refuses it): a
/// Spanish VAT number, or any identifier of a Spanish row, whose body begins
/// with `U`.
pub open spec fn es_ute(row: OrgIdRow) -> bool {
    if is_vat(row) {
        begins(norm_codes(row.identifier@), codes("ESU"@))
    } else {
        row.country matches Some(c) && c@ == "ES"@ && begins(
            norm_codes(row.identifier@),
            codes("U"@),
        )
    }
}

/// The row's normalised identifier begins with `p` (all of whose characters
/// are digits or upper-case letters).
fn norm_begins(s: &str, p: &str) -> (r: bool)
    requires
        forall|i: int| 0 <= i < p@.len() ==> is_alnum(#[trigger] p@[i]) && !('a' <= p@[i] && p@[i] <= 'z'),
    ensures
        r == begins(norm_codes(s@), codes(p@)),
{
    let n = s.unicode_len();
    let m = p.unicode_len();
    let mut i: usize = 0;
    let mut j: usize = 0;
    proof {
        lemma_norm_codes_len(s@);
    }
    while i < n && j < m
        invariant
            n == s@.len(),
            m == p@.len(),
            i <= n,
            j <= m,
            norm_codes(s@.take(i as int)).len() == j,
            norm_codes(s@.take(i as int)) == codes(p@).take(j as int),
            forall|x: int|
                0 <= x < p@.len() ==> is_alnum(#[trigger] p@[x]) && !('a' <= p@[x] && p@[x] <= 'z'),
        decreases n - i,
    {
        let c = s.get_char(i);
        proof {
            assert(s@.take(i + 1).drop_last() =~= s@.take(i as int));
            assert(s@.take(i + 1).last() == c);
        }
        let alnum = ('0' <= c && c <= '9') || ('A' <= c && c <= 'Z') || ('a' <= c && c <= 'z');
        if alnum {
            let want = p.get_char(j);
            proof {
                assert(want == p@[j as int]);
                assert(is_alnum(want) && !('a' <= want && want <= 'z'));
                assert(norm_codes(s@.take(i + 1)) =~= norm_codes(s@.take(i as int)).push(upper_code(c)));
            }
            let same = c == want || ('a' <= c && c <= 'z' && (c as u32) == (want as u32) + 32);
            if !same {
                proof {
                    assert(upper_code(c) != want as int);
                    assert(norm_codes(s@.take(i + 1))[j as int] == upper_code(c));
                    lemma_norm_prefix(s@, i + 1, n as int);
                    lemma_norm_len_mono(s@, i + 1, n as int);
                    assert(s@.take(n as int) =~= s@);
                    assert(norm_codes(s@)[j as int] == upper_code(c));
                    assert(codes(p@)[j as int] == want as int);
                    if norm_codes(s@).len() >= m {
                        assert(norm_codes(s@).take(m as int)[j as int] != codes(p@)[j as int]);
                    }
                }
                return false;
            }
            proof {
                assert(upper_code(c) == want as int);
                assert(norm_codes(s@.take(i + 1)) =~= codes(p@).take(j + 1));
            }
            j = j + 1;
        }
        i = i + 1;
    }
    proof {
        lemma_norm_prefix(s@, i as int, n as int);
        lemma_norm_len_mono(s@, i as int, n as int);
        assert(s@.take(n as int) =~= s@);
        if j == m {
            assert(codes(p@).take(m as int) =~= codes(p@));
            assert(norm_codes(s@).take(m as int) =~= codes(p@));
            assert(begins(norm_codes(s@), codes(p@)));
        } else {
            assert(i == n);
            assert(norm_codes(s@).len() == j);
            assert(!begins(norm_codes(s@), codes(p@)));
        }
    }
    j == m
}

proof fn lemma_norm_codes_len(s: Seq<char>)
    ensures
        norm_codes(s).len() <= s.len(),
    decreases s.len(),
{
    if s.len() > 0 {
        lemma_norm_codes_len(s.drop_last());
    }
}

/// The codes of a prefix of the identifier are a prefix of its codes.
proof fn lemma_norm_prefix(s: Seq<char>, i: int, k: int)
    requires
        0 <= i <= k <= s.len(),
    ensures
        norm_codes(s.take(k)).take(norm_codes(s.take(i)).len() as int) == norm_codes(s.take(i)),
    decreases k - i,
{
    if i < k {
        lemma_norm_prefix(s, i, k - 1);
        assert(s.take(k).drop_last() =~= s.take(k - 1));
        lemma_norm_len_mono(s, i, k - 1);
        assert(norm_codes(s.take(k)).take(norm_codes(s.take(i)).len() as int) =~= norm_codes(
            s.take(k - 1),
        ).take(norm_codes(s.take(i)).len() as int));
    } else {
        assert(norm_codes(s.take(k)).take(norm_codes(s.take(i)).len() as int) =~= norm_codes(
            s.take(i),
        ));
    }
}

proof fn lemma_norm_len_mono(s: Seq<char>, i: int, k: int)
    requires
        0 <= i <= k <= s.len(),
    ensures
        norm_codes(s.take(i)).len() <= norm_codes(s.take(k)).len(),
    decreases k - i,
{
    if i < k {
        assert(s.take(k).drop_last() =~= s.take(k - 1));
        lemma_norm_len_mono(s, i, k - 1);
    }
}

/// `s` begins with `p`.
fn text_begins(s: &str, p: &str) -> (r: bool)
    ensures
        r == (s@.len() >= p@.len() && s@.take(p@.len() as int) == p@),
{
    let n = s.unicode_len();
    let m = p.unicode_len();
    if n < m {
        return false;
    }
    let mut i: usize = 0;
    while i < m
        invariant
            n == s@.len(),
            m == p@.len(),
            m <= n,
            i <= m,
            forall|j: int| 0 <= j < i ==> s@[j] == p@[j],
        decreases m - i,
    {
        if s.get_char(i) != p.get_char(i) {
            proof {
                assert(s@.take(m as int)[i as int] != p@[i as int]);
            }
            return false;
        }
        i = i + 1;
    }
    proof {
        assert(s@.take(m as int) =~= p@);
    }
    true
}

/// The denial classes of a row: whether it is a CZ 699 VAT number, and
/// whether it is a Spanish UTE.
pub fn r2_denials(row: &OrgIdRow) -> (r: (bool, bool))
    ensures
        r == (cz699(*row), es_ute(*row)),
{
    let vat = match &row.kind {
        Some(k) => str_eq(k.as_str(), "vat"),
        None => false,
    };
    proof {
        reveal_strlit("vat");
        reveal_strlit("national");
        if row.kind is None {
            assert("national"@.len() != "vat"@.len());
            assert(kind_of(*row) != "vat"@);
        }
        assert(vat == is_vat(*row));
    }
    let id = row.identifier.as_str();
    proof {
        reveal_strlit("CZ699");
        reveal_strlit("ESU");
        reveal_strlit("U");
        assert("CZ699"@ =~= seq!['C', 'Z', '6', '9', '9']);
        assert("ESU"@ =~= seq!['E', 'S', 'U']);
        assert("U"@ =~= seq!['U']);
    }
    let cz = vat && norm_begins(id, "CZ699");
    let ute = if vat {
        norm_begins(id, "ESU")
    } else {
        match &row.country {
            Some(c) => str_eq(c.as_str(), "ES") && norm_begins(id, "U"),
            None => false,
        }
    };
    (cz, ute)
}

/// Where a row lands in the census, as plain values.
pub enum PlaceV {
    Unkeyed,
    NullCountry,
    PrefixContradiction,
    Group(Seq<char>, Seq<char>, Seq<char>, bool, bool),
}

/// Where a row lands in the census.
pub enum R2Place {
    /// The key function gives it no key.
    Unkeyed,
    /// Keyed, but with no country: material for the R3 stage, not grouped.
    NullCountry,
    /// A VAT number whose scheme does not begin with its country: an anomaly,
    /// not grouped.
    PrefixContradiction,
    /// In the group of (country, scheme, key), the country with `EL` folded
    /// to `GR`; `e1` for an own key, `is_vat` for a VAT row.
    Group { country: String, scheme: String, key: String, e1: bool, is_vat: bool },
}

/// The plain value of a place.
pub open spec fn place_v(p: R2Place) -> PlaceV {
    match p {
        R2Place::Unkeyed => PlaceV::Unkeyed,
        R2Place::NullCountry => PlaceV::NullCountry,
        R2Place::PrefixContradiction => PlaceV::PrefixContradiction,
        R2Place::Group { country, scheme, key, e1, is_vat } => PlaceV::Group(
            country@,
            scheme@,
            key@,
            e1,
            is_vat,
        ),
    }
}

/// The country a row groups under: `EL` is Greece's VAT prefix, folded to `GR`.
pub open spec fn group_country(c: Seq<char>) -> Seq<char> {
    if c == "EL"@ {
        "GR"@
    } else {
        c
    }
}

/// Where a row with canonical key `key` (scheme, key, own) lands.
pub open spec fn r2_place_spec(row: OrgIdRow, key: Option<(Seq<char>, Seq<char>, bool)>) -> PlaceV {
    match key {
        None => PlaceV::Unkeyed,
        Some(k) => match row.country {
            None => PlaceV::NullCountry,
            Some(c) => {
                let g = group_country(c@);
                if is_vat(row) && !(k.0.len() >= g.len() && k.0.take(g.len() as int) == g) {
                    PlaceV::PrefixContradiction
                } else {
                    PlaceV::Group(g, k.0, k.1, k.2, is_vat(row))
                }
            },
        },
    }
}

/// The plain values of a canonical key.
pub open spec fn key_v(k: Option<CanonicalKey>) -> Option<(Seq<char>, Seq<char>, bool)> {
    match k {
        Some(k) => Some((k.scheme@, k.key@, k.e1)),
        None => None,
    }
}

/// Where a row lands, given its canonical key.
pub fn r2_place(row: &OrgIdRow, key: Option<CanonicalKey>) -> (r: R2Place)
    ensures
        place_v(r) == r2_place_spec(*row, key_v(key)),
{
    let k = match key {
        None => return R2Place::Unkeyed,
        Some(k) => k,
    };
    let c = match &row.country {
        None => return R2Place::NullCountry,
        Some(c) => c,
    };
    let g: String = if str_eq(c.as_str(), "EL") {
        String::from_str("GR")
    } else {
        c.clone()
    };
    let vat = match &row.kind {
        Some(kd) => str_eq(kd.as_str(), "vat"),
        None => false,
    };
    proof {
        reveal_strlit("vat");
        reveal_strlit("national");
        if row.kind is None {
            assert("national"@.len() != "vat"@.len());
            assert(kind_of(*row) != "vat"@);
        }
        assert(vat == is_vat(*row));
        assert(g@ == group_country(c@));
    }
    if vat && !text_begins(k.scheme.as_str(), g.as_str()) {
        return R2Place::PrefixContradiction;
    }
    R2Place::Group { country: g, scheme: k.scheme, key: k.key, e1: k.e1, is_vat: vat }
}

/// The census counters over the rows walked.
pub struct R2Tally {
    pub scanned: u64,
    pub keyed_e1: u64,
    pub keyed_e2: u64,
    pub unkeyed: u64,
    pub es_ute: u64,
    pub cz699: u64,
    pub null_country_keyed: u64,
    pub prefix_contradictions: u64,
}

/// One more when `b`.
pub open spec fn bump(x: u64, b: bool) -> int {
    x + if b {
        1int
    } else {
        0
    }
}

impl R2Tally {
    /// Nothing walked.
    pub fn new() -> (t: Self)
        ensures
            t.scanned == 0 && t.keyed_e1 == 0 && t.keyed_e2 == 0 && t.unkeyed == 0,
            t.es_ute == 0 && t.cz699 == 0 && t.null_country_keyed == 0,
            t.prefix_contradictions == 0,
    {
        R2Tally {
            scanned: 0,
            keyed_e1: 0,
            keyed_e2: 0,
            unkeyed: 0,
            es_ute: 0,
            cz699: 0,
            null_country_keyed: 0,
            prefix_contradictions: 0,
        }
    }

    /// Walks one row with its canonical key: counts it, its denial classes
    /// and where it lands, and returns the place for the caller to group.
    pub fn observe(&mut self, row: &OrgIdRow, key: Option<CanonicalKey>) -> (r: R2Place)
        requires
            old(self).scanned < u64::MAX,
            old(self).keyed_e1 < u64::MAX,
            old(self).keyed_e2 < u64::MAX,
            old(self).unkeyed < u64::MAX,
            old(self).es_ute < u64::MAX,
            old(self).cz699 < u64::MAX,
            old(self).null_country_keyed < u64::MAX,
            old(self).prefix_contradictions < u64::MAX,
        ensures
            place_v(r) == r2_place_spec(*row, key_v(key)),
            final(self).scanned == old(self).scanned + 1,
            final(self).cz699 == bump(old(self).cz699, cz699(*row)),
            final(self).es_ute == bump(old(self).es_ute, es_ute(*row)),
            final(self).unkeyed == bump(old(self).unkeyed, place_v(r) is Unkeyed),
            final(self).null_country_keyed == bump(
                old(self).null_country_keyed,
                place_v(r) is NullCountry,
            ),
            final(self).prefix_contradictions == bump(
                old(self).prefix_contradictions,
                place_v(r) is PrefixContradiction,
            ),
            final(self).keyed_e1 == bump(
                old(self).keyed_e1,
                place_v(r) matches PlaceV::Group(_, _, _, e1, _) && e1,
            ),
            final(self).keyed_e2 == bump(
                old(self).keyed_e2,
                place_v(r) matches PlaceV::Group(_, _, _, e1, _) && !e1,
            ),
    {
        self.scanned = self.scanned + 1;
        let (cz, ute) = r2_denials(row);
        if cz {
            self.cz699 = self.cz699 + 1;
        }
        if ute {
            self.es_ute = self.es_ute + 1;
        }
        let place = r2_place(row, key);
        match &place {
            R2Place::Unkeyed => self.unkeyed = self.unkeyed + 1,
            R2Place::NullCountry => self.null_country_keyed = self.null_country_keyed + 1,
            R2Place::PrefixContradiction => self.prefix_contradictions = self.prefix_contradictions
                + 1,
            R2Place::Group { e1, .. } => {
                if *e1 {
                    self.keyed_e1 = self.keyed_e1 + 1;
                } else {
                    self.keyed_e2 = self.keyed_e2 + 1;
                }
            },
        }
        place
    }
}

// ---------------------------------------------------------------- groups

/// One scheme's statistics over its groups of two or more own-key members.
pub struct SchemeStat {
    pub scheme: String,
    pub groups_ge2: u64,
    pub orgs_in_groups: u64,
    pub mixed_kind: u64,
    pub over_cap: u64,
    pub max_group: u64,
}

/// A scheme's statistics as plain values.
pub type SchemeStatV = (Seq<char>, u64, u64, u64, u64, u64);

/// The statistics as plain values.
pub open spec fn stats_v(s: Seq<SchemeStat>) -> Seq<SchemeStatV> {
    s.map_values(
        |t: SchemeStat| (t.scheme@, t.groups_ge2, t.orgs_in_groups, t.mixed_kind, t.over_cap, t.max_group),
    )
}

/// The statistics held under `name` (all zero when none are).
pub open spec fn stat_of(s: Seq<SchemeStatV>, name: Seq<char>) -> SchemeStatV
    decreases s.len(),
{
    if s.len() == 0 {
        (name, 0, 0, 0, 0, 0)
    } else if s.last().0 == name {
        s.last()
    } else {
        stat_of(s.drop_last(), name)
    }
}

/// The statistics summed over the schemes: groups, orgs in them, mixed
/// groups and groups over the cap.
pub open spec fn stat_sums(s: Seq<SchemeStatV>) -> (int, int, int, int)
    decreases s.len(),
{
    if s.len() == 0 {
        (0, 0, 0, 0)
    } else {
        let r = stat_sums(s.drop_last());
        (r.0 + s.last().1, r.1 + s.last().2, r.2 + s.last().3, r.3 + s.last().4)
    }
}

proof fn lemma_sums_update(s: Seq<SchemeStatV>, k: int, e: SchemeStatV)
    requires
        0 <= k < s.len(),
    ensures
        stat_sums(s.update(k, e)) == (
            stat_sums(s).0 + e.1 - s[k].1,
            stat_sums(s).1 + e.2 - s[k].2,
            stat_sums(s).2 + e.3 - s[k].3,
            stat_sums(s).3 + e.4 - s[k].4,
        ),
    decreases s.len(),
{
    let t = s.update(k, e);
    if k == s.len() - 1 {
        assert(t.drop_last() =~= s.drop_last());
    } else {
        assert(t.drop_last() =~= s.drop_last().update(k, e));
        assert(t.last() == s.last());
        lemma_sums_update(s.drop_last(), k, e);
    }
}

/// No two statistics share a scheme.
pub open spec fn distinct_stats(s: Seq<SchemeStatV>) -> bool {
    forall|i: int, j: int| 0 <= i < j < s.len() ==> (#[trigger] s[i]).0 != (#[trigger] s[j]).0
}

/// A group's members mix VAT and national kinds.
pub open spec fn mixed(m: Seq<(i64, bool)>) -> bool {
    (exists|i: int| 0 <= i < m.len() && (#[trigger] m[i]).1) && (exists|j: int|
        0 <= j < m.len() && !(#[trigger] m[j]).1)
}

/// A scheme's statistics with its counters as integers.
pub open spec fn widen(st: SchemeStatV) -> (Seq<char>, int, int, int, int, int) {
    (st.0, st.1 as int, st.2 as int, st.3 as int, st.4 as int, st.5 as int)
}

/// A scheme's statistics with one more group of `n` members.
pub open spec fn with_group(st: SchemeStatV, n: nat, is_mixed: bool) -> (Seq<char>, int, int, int, int, int) {
    (
        st.0,
        st.1 + 1,
        st.2 + n,
        st.3 + if is_mixed {
            1int
        } else {
            0
        },
        st.4 + if n > GROUP_CAP {
            1int
        } else {
            0
        },
        if n > st.5 {
            n as int
        } else {
            st.5 as int
        },
    )
}

proof fn lemma_stat_absent(s: Seq<SchemeStatV>, name: Seq<char>)
    requires
        forall|i: int| 0 <= i < s.len() ==> (#[trigger] s[i]).0 != name,
    ensures
        stat_of(s, name) == (name, 0u64, 0u64, 0u64, 0u64, 0u64),
    decreases s.len(),
{
    if s.len() > 0 {
        assert(s.last() == s[s.len() - 1]);
        lemma_stat_absent(s.drop_last(), name);
    }
}

proof fn lemma_stat_at(s: Seq<SchemeStatV>, k: int)
    requires
        distinct_stats(s),
        0 <= k < s.len(),
    ensures
        stat_of(s, s[k].0) == s[k],
    decreases s.len(),
{
    if k < s.len() - 1 {
        assert(s.last() == s[s.len() - 1]);
        let d = s.drop_last();
        assert(d[k] == s[k]);
        assert(distinct_stats(d)) by {
            assert forall|i: int, j: int| 0 <= i < j < d.len() implies (#[trigger] d[i]).0 != (
            #[trigger] d[j]).0 by {
                assert(s[i] == d[i] && s[j] == d[j]);
            }
        }
        lemma_stat_at(d, k);
    }
}

proof fn lemma_stat_update(s: Seq<SchemeStatV>, k: int, e: SchemeStatV, name: Seq<char>)
    requires
        distinct_stats(s),
        0 <= k < s.len(),
        e.0 == s[k].0,
    ensures
        stat_of(s.update(k, e), name) == if name == s[k].0 {
            e
        } else {
            stat_of(s, name)
        },
    decreases s.len(),
{
    let t = s.update(k, e);
    assert(t.last() == t[t.len() - 1]);
    assert(s.last() == s[s.len() - 1]);
    if k < s.len() - 1 {
        let d = s.drop_last();
        assert(t.drop_last() =~= d.update(k, e));
        assert(distinct_stats(d)) by {
            assert forall|i: int, j: int| 0 <= i < j < d.len() implies (#[trigger] d[i]).0 != (
            #[trigger] d[j]).0 by {
                assert(s[i] == d[i] && s[j] == d[j]);
            }
        }
        assert(d[k] == s[k]);
        lemma_stat_update(d, k, e, name);
    } else {
        assert(t.drop_last() =~= s.drop_last());
    }
}

/// The statistics over the R2 census's key groups.
pub struct R2GroupStats {
    pub groups_ge2: u64,
    pub orgs_in_groups: u64,
    pub mixed_kind: u64,
    pub over_cap: u64,
    pub e2_attached: u64,
    pub e2_orphan_keys: u64,
    pub schemes: Vec<SchemeStat>,
}

impl R2GroupStats {
    /// One entry per scheme, none above the totals.
    pub open spec fn wf(&self) -> bool {
        &&& distinct_stats(stats_v(self.schemes@))
        &&& stat_sums(stats_v(self.schemes@)) == (
            self.groups_ge2 as int,
            self.orgs_in_groups as int,
            self.mixed_kind as int,
            self.over_cap as int,
        )
        &&& forall|i: int|
            0 <= i < self.schemes@.len() ==> {
                let e = #[trigger] stats_v(self.schemes@)[i];
                &&& e.1 <= self.groups_ge2
                &&& e.2 <= self.orgs_in_groups
                &&& e.3 <= self.mixed_kind
                &&& e.4 <= self.over_cap
            }
    }

    /// No group seen.
    pub fn new() -> (s: Self)
        ensures
            s.wf(),
            s.groups_ge2 == 0 && s.orgs_in_groups == 0 && s.mixed_kind == 0 && s.over_cap == 0,
            s.e2_attached == 0 && s.e2_orphan_keys == 0,
            s.schemes@.len() == 0,
    {
        R2GroupStats {
            groups_ge2: 0,
            orgs_in_groups: 0,
            mixed_kind: 0,
            over_cap: 0,
            e2_attached: 0,
            e2_orphan_keys: 0,
            schemes: Vec::new(),
        }
    }

    /// Adds one key group of `scheme`: its own-key members (org id, VAT kind)
    /// and how many padding-derived rows attach to it. Padding rows count as
    /// attached when the group has own-key members, else the key is a
    /// padding-only one; a group of two or more members counts toward its
    /// scheme and the totals, as mixed when its members mix VAT and national
    /// kinds and as over the cap past `GROUP_CAP` members.
    pub fn add_group(&mut self, scheme: &str, e1: &Vec<(i64, bool)>, e2: u64)
        requires
            old(self).wf(),
            e2 > 0 && e1@.len() > 0 ==> old(self).e2_attached + e2 <= u64::MAX,
            e2 > 0 && e1@.len() == 0 ==> old(self).e2_orphan_keys < u64::MAX,
            e1@.len() >= 2 ==> old(self).groups_ge2 < u64::MAX,
            e1@.len() >= 2 ==> old(self).orgs_in_groups + e1@.len() <= u64::MAX,
            e1@.len() >= 2 ==> old(self).mixed_kind < u64::MAX,
            e1@.len() >= 2 ==> old(self).over_cap < u64::MAX,
        ensures
            final(self).wf(),
            final(self).e2_attached == old(self).e2_attached + if e2 > 0 && e1@.len() > 0 {
                e2 as int
            } else {
                0
            },
            final(self).e2_orphan_keys == bump(old(self).e2_orphan_keys, e2 > 0 && e1@.len() == 0),
            e1@.len() < 2 ==> {
                &&& final(self).groups_ge2 == old(self).groups_ge2
                &&& final(self).orgs_in_groups == old(self).orgs_in_groups
                &&& final(self).mixed_kind == old(self).mixed_kind
                &&& final(self).over_cap == old(self).over_cap
                &&& final(self).schemes@ == old(self).schemes@
            },
            e1@.len() >= 2 ==> {
                &&& final(self).groups_ge2 == old(self).groups_ge2 + 1
                &&& final(self).orgs_in_groups == old(self).orgs_in_groups + e1@.len()
                &&& final(self).mixed_kind == bump(old(self).mixed_kind, mixed(e1@))
                &&& final(self).over_cap == bump(old(self).over_cap, e1@.len() > GROUP_CAP)
                &&& forall|name: Seq<char>|
                    #[trigger] widen(stat_of(stats_v(final(self).schemes@), name)) == if name == scheme@ {
                        with_group(
                            stat_of(stats_v(old(self).schemes@), name),
                            e1@.len(),
                            mixed(e1@),
                        )
                    } else {
                        widen(stat_of(stats_v(old(self).schemes@), name))
                    }
            },
    {
        if e2 > 0 {
            if e1.len() == 0 {
                self.e2_orphan_keys = self.e2_orphan_keys + 1;
            } else {
                self.e2_attached = self.e2_attached + e2;
            }
        }
        let n = e1.len();
        if n < 2 {
            return;
        }
        let mut any_vat = false;
        let mut any_national = false;
        let mut i: usize = 0;
        while i < n
            invariant
                n == e1@.len(),
                i <= n,
                any_vat == exists|x: int| 0 <= x < i && (#[trigger] e1@[x]).1,
                any_national == exists|x: int| 0 <= x < i && !(#[trigger] e1@[x]).1,
            decreases n - i,
        {
            if e1[i].1 {
                any_vat = true;
            } else {
                any_national = true;
            }
            i = i + 1;
        }
        let is_mixed = any_vat && any_national;
        let over = (n as u64) > GROUP_CAP;
        let ghost a = stats_v(self.schemes@);
        let mut k: usize = 0;
        let mut found = false;
        while k < self.schemes.len()
            invariant
                a == stats_v(self.schemes@),
                k <= self.schemes@.len(),
                !found ==> forall|j: int| 0 <= j < k ==> (#[trigger] a[j]).0 != scheme@,
                found ==> k < self.schemes@.len() && a[k as int].0 == scheme@,
            ensures
                a == stats_v(self.schemes@),
                !found ==> forall|j: int|
                    0 <= j < self.schemes@.len() ==> (#[trigger] a[j]).0 != scheme@,
                found ==> k < self.schemes@.len() && a[k as int].0 == scheme@,
            decreases self.schemes@.len() - k,
        {
            proof {
                assert(a[k as int].0 == self.schemes@[k as int].scheme@);
            }
            if str_eq(self.schemes[k].scheme.as_str(), scheme) {
                found = true;
                break;
            }
            k = k + 1;
        }
        let ghost old_groups = self.groups_ge2;
        let ghost old_orgs = self.orgs_in_groups;
        let ghost old_mixed = self.mixed_kind;
        let ghost old_over = self.over_cap;
        self.groups_ge2 = self.groups_ge2 + 1;
        self.orgs_in_groups = self.orgs_in_groups + n as u64;
        if is_mixed {
            self.mixed_kind = self.mixed_kind + 1;
        }
        if over {
            self.over_cap = self.over_cap + 1;
        }
        if found {
            let t = &self.schemes[k];
            proof {
                assert(a[k as int] == (t.scheme@, t.groups_ge2, t.orgs_in_groups, t.mixed_kind, t.over_cap, t.max_group));
                lemma_stat_at(a, k as int);
            }
            let e = SchemeStat {
                scheme: t.scheme.clone(),
                groups_ge2: t.groups_ge2 + 1,
                orgs_in_groups: t.orgs_in_groups + n as u64,
                mixed_kind: if is_mixed { t.mixed_kind + 1 } else { t.mixed_kind },
                over_cap: if over { t.over_cap + 1 } else { t.over_cap },
                max_group: if n as u64 > t.max_group { n as u64 } else { t.max_group },
            };
            self.schemes.set(k, e);
            proof {
                let ev = (e.scheme@, e.groups_ge2, e.orgs_in_groups, e.mixed_kind, e.over_cap, e.max_group);
                assert(stats_v(self.schemes@) =~= a.update(k as int, ev));
                assert forall|name: Seq<char>| #[trigger] widen(stat_of(stats_v(self.schemes@), name)) == if name == scheme@ {
                        with_group(stat_of(a, name), n as nat, mixed(e1@))
                    } else {
                        widen(stat_of(a, name))
                    } by {
                    lemma_stat_update(a, k as int, ev, name);
                }
                lemma_sums_update(a, k as int, ev);
                assert forall|x: int, y: int|
                    0 <= x < y < stats_v(self.schemes@).len() implies (#[trigger] stats_v(
                        self.schemes@,
                    )[x]).0 != (#[trigger] stats_v(self.schemes@)[y]).0 by {
                    assert(a[x] == a[x] && a[y] == a[y]);
                }
                assert forall|i: int| 0 <= i < self.schemes@.len() implies {
                    let e = #[trigger] stats_v(self.schemes@)[i];
                    &&& e.1 <= self.groups_ge2
                    &&& e.2 <= self.orgs_in_groups
                    &&& e.3 <= self.mixed_kind
                    &&& e.4 <= self.over_cap
                } by {
                    assert(a[i] == a[i]);
                }
            }
        } else {
            let e = SchemeStat {
                scheme: String::from_str(scheme),
                groups_ge2: 1,
                orgs_in_groups: n as u64,
                mixed_kind: if is_mixed { 1 } else { 0 },
                over_cap: if over { 1 } else { 0 },
                max_group: n as u64,
            };
            self.schemes.push(e);
            proof {
                let ev = (e.scheme@, e.groups_ge2, e.orgs_in_groups, e.mixed_kind, e.over_cap, e.max_group);
                assert(stats_v(self.schemes@) =~= a.push(ev));
                assert(stats_v(self.schemes@).drop_last() =~= a);
                assert(stats_v(self.schemes@).last() == ev);
                lemma_stat_absent(a, scheme@);
                assert forall|x: int, y: int|
                    0 <= x < y < stats_v(self.schemes@).len() implies (#[trigger] stats_v(
                        self.schemes@,
                    )[x]).0 != (#[trigger] stats_v(self.schemes@)[y]).0 by {
                    if y == a.len() {
                        assert(a[x] == a[x]);
                    } else {
                        assert(a[x] == a[x] && a[y] == a[y]);
                    }
                }
                assert forall|i: int| 0 <= i < self.schemes@.len() implies {
                    let e = #[trigger] stats_v(self.schemes@)[i];
                    &&& e.1 <= self.groups_ge2
                    &&& e.2 <= self.orgs_in_groups
                    &&& e.3 <= self.mixed_kind
                    &&& e.4 <= self.over_cap
                } by {
                    if i < a.len() {
                        assert(a[i] == a[i]);
                    }
                }
            }
        }
    }
}

/// The census line.
pub open spec fn r2_summary_text(t: R2Tally, g: R2GroupStats) -> Seq<char> {
    "r2-census (issue 300 Stage 2): "@ + dec(t.scanned as nat) + " identifier-bearing orgs, "@
        + dec(t.keyed_e1 as nat) + " E1-keyed / "@ + dec(t.keyed_e2 as nat) + " E2 (pad) / "@
        + dec(t.unkeyed as nat) + " no key; "@ + dec(g.groups_ge2 as nat)
        + " same-country groups >=2 holding "@ + dec(g.orgs_in_groups as nat) + " orgs ("@
        + dec(g.mixed_kind as nat) + " mixed vat+national, "@ + dec(g.over_cap as nat)
        + " over cap "@ + dec(GROUP_CAP as nat) + "); "@ + dec(g.e2_attached as nat)
        + " pad rows attach to keyed groups, "@ + dec(g.e2_orphan_keys as nat)
        + " pad-only keys; "@ + dec(t.null_country_keyed as nat) + " NULL-country keyed (R3 pool), "@
        + dec(t.prefix_contradictions as nat) + " country/prefix contradictions; denials: "@
        + dec(t.es_ute as nat) + " ES-UTE, "@ + dec(t.cz699 as nat) + " CZ699"@
}

/// The census line of an R2 census run.
pub fn r2_summary(t: &R2Tally, g: &R2GroupStats) -> (r: String)
    ensures
        r@ == r2_summary_text(*t, *g),
{
    let mut s = String::from_str("r2-census (issue 300 Stage 2): ");
    push_u64(&mut s, t.scanned);
    s.append(" identifier-bearing orgs, ");
    push_u64(&mut s, t.keyed_e1);
    s.append(" E1-keyed / ");
    push_u64(&mut s, t.keyed_e2);
    s.append(" E2 (pad) / ");
    push_u64(&mut s, t.unkeyed);
    s.append(" no key; ");
    push_u64(&mut s, g.groups_ge2);
    s.append(" same-country groups >=2 holding ");
    push_u64(&mut s, g.orgs_in_groups);
    s.append(" orgs (");
    push_u64(&mut s, g.mixed_kind);
    s.append(" mixed vat+national, ");
    push_u64(&mut s, g.over_cap);
    s.append(" over cap ");
    push_u64(&mut s, GROUP_CAP);
    s.append("); ");
    push_u64(&mut s, g.e2_attached);
    s.append(" pad rows attach to keyed groups, ");
    push_u64(&mut s, g.e2_orphan_keys);
    s.append(" pad-only keys; ");
    push_u64(&mut s, t.null_country_keyed);
    s.append(" NULL-country keyed (R3 pool), ");
    push_u64(&mut s, t.prefix_contradictions);
    s.append(" country/prefix contradictions; denials: ");
    push_u64(&mut s, t.es_ute);
    s.append(" ES-UTE, ");
    push_u64(&mut s, t.cz699);
    s.append(" CZ699");
    s
}

} // verus!
