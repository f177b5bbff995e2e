//! The package walks of `process`, `reparse` and `reprocess`: where a run
//! starts, how a cap splits its packages, and the lines it reports.
use vstd::prelude::*;
use crate::jobs::join_comma;
use crate::text::{
    all_digits, dec, dec_int, digit_value, digits_value, is_digit, push_i64, push_u64,
};

verus! {

/// A signed number's sign and digits: `-` or `+` first is the sign.
pub open spec fn signed_parts(s: Seq<char>) -> (bool, Seq<char>) {
    if s.len() > 0 && s[0] == '-' {
        (true, s.drop_first())
    } else if s.len() > 0 && s[0] == '+' {
        (false, s.drop_first())
    } else {
        (false, s)
    }
}

/// std's `FromStr` for `i64`: an optional sign, then at least one digit and
/// nothing else, inside `i64`.
pub open spec fn parse_i64_spec(s: Seq<char>) -> Option<int> {
    let (neg, t) = signed_parts(s);
    if t.len() > 0 && all_digits(t) {
        let v = digits_value(t) as int;
        if neg && v <= 0x8000_0000_0000_0000 {
            Some(-v)
        } else if !neg && v <= 0x7fff_ffff_ffff_ffff {
            Some(v)
        } else {
            None
        }
    } else {
        None
    }
}

proof fn lemma_digits_step(s: Seq<char>, i: int)
    requires
        0 <= i < s.len(),
    ensures
        digits_value(s.subrange(0, i + 1)) == digits_value(s.subrange(0, i)) * 10 + digit_value(s[i]),
{
    assert(s.subrange(0, i + 1).drop_last() =~= s.subrange(0, i));
}

/// Parse an `i64` as std's `str::parse` does.
pub fn parse_i64(s: &str) -> (r: Option<i64>)
    ensures
        r.is_some() == parse_i64_spec(s@).is_some(),
        r.is_some() ==> r.unwrap() == parse_i64_spec(s@).unwrap(),
{
    let n = s.unicode_len();
    let first: char = if n > 0 { s.get_char(0) } else { ' ' };
    let neg = n > 0 && first == '-';
    let start: usize = if n > 0 && (first == '-' || first == '+') { 1 } else { 0 };
    let limit: u128 = if neg { 0x8000_0000_0000_0000 } else { 0x7fff_ffff_ffff_ffff };
    let ghost t = signed_parts(s@).1;
    proof {
        assert(t =~= s@.subrange(start as int, n as int));
        assert(signed_parts(s@).0 == neg);
    }
    if start >= n {
        return None;
    }
    let mut i: usize = start;
    let mut val: u128 = 0;
    let mut over: bool = false;
    while i < n
        invariant
            n == s@.len(),
            start <= i <= n,
            t == s@.subrange(start as int, n as int),
            t == signed_parts(s@).1,
            neg == signed_parts(s@).0,
            limit == if neg { 0x8000_0000_0000_0000u128 } else { 0x7fff_ffff_ffff_ffffu128 },
            forall|j: int| start <= j < i ==> is_digit(#[trigger] s@[j]),
            !over ==> val == digits_value(s@.subrange(start as int, i as int)) && val <= limit,
            over ==> digits_value(s@.subrange(start as int, i as int)) > limit,
        decreases n - i,
    {
        let c = s.get_char(i);
        if !('0' <= c && c <= '9') {
            proof {
                assert(t[i - start] == c);
                assert(!all_digits(t));
            }
            return None;
        }
        let d: u128 = (c as u32 - '0' as u32) as u128;
        proof {
            lemma_digits_step(s@.subrange(start as int, n as int), i - start);
            assert(s@.subrange(start as int, n as int).subrange(0, i - start + 1) =~= s@.subrange(
                start as int,
                i + 1,
            ));
            assert(s@.subrange(start as int, n as int).subrange(0, i - start) =~= s@.subrange(
                start as int,
                i as int,
            ));
        }
        if !over {
            let next: u128 = val * 10 + d;
            if next > limit {
                over = true;
            } else {
                val = next;
            }
        }
        i = i + 1;
    }
    proof {
        assert(s@.subrange(start as int, n as int) =~= t);
        assert forall|j: int| 0 <= j < t.len() implies is_digit(#[trigger] t[j]) by {
            assert(t[j] == s@[j + start]);
        }
    }
    if over {
        None
    } else if neg {
        if val == 0x8000_0000_0000_0000 {
            Some(i64::MIN)
        } else {
            Some(-(val as i64))
        }
    } else {
        Some(val as i64)
    }
}

/// The fetch id a resumed walk carries: the resume cursor when it reads as a
/// number.
pub open spec fn cursor_id(resume_after: Option<&str>) -> Option<int> {
    match resume_after {
        Some(c) => parse_i64_spec(c@),
        None => None,
    }
}

/// Where a `reparse` run starts: real progress (the resume cursor) wins over the
/// requested floor, which defaults to the start.
pub fn reparse_start(start_after: Option<i64>, resume_after: Option<&str>) -> (r: i64)
    ensures
        r == match cursor_id(resume_after) {
            Some(v) => v,
            None => match start_after {
                Some(a) => a as int,
                None => 0,
            },
        },
{
    let parsed = match resume_after {
        Some(c) => parse_i64(c),
        None => None,
    };
    match parsed {
        Some(v) => v,
        None => match start_after {
            Some(a) => a,
            None => 0,
        },
    }
}

/// Where a `reprocess` run starts: after the resume cursor, or at the start.
pub fn reprocess_start(resume_after: Option<&str>) -> (r: i64)
    ensures
        r == match cursor_id(resume_after) {
            Some(v) => v,
            None => 0,
        },
{
    reparse_start(None, resume_after)
}

/// How a package cap splits a run's `len` packages: how many this run walks,
/// and how many it holds back for a later run.
pub fn reparse_cap(len: usize, cap: Option<usize>) -> (r: (usize, usize))
    ensures
        r.0 + r.1 == len,
        cap.is_none() ==> r.0 == len && r.1 == 0,
        cap.is_some() ==> r.0 == if len < cap.unwrap() {
            len
        } else {
            cap.unwrap()
        },
{
    match cap {
        None => (len, 0),
        Some(n) => if len < n {
            (len, 0)
        } else {
            (n, len - n)
        },
    }
}

/// The `after` a follow-up run should carry: the last package this run
/// finished, or this run's own start when it finished none.
pub fn reparse_next_after(fetch_ids: &Vec<i64>, packages_done: usize, after: i64) -> (r: i64)
    ensures
        r == if packages_done == 0 || packages_done > fetch_ids@.len() {
            after
        } else {
            fetch_ids@[packages_done - 1]
        },
{
    if packages_done == 0 || packages_done > fetch_ids.len() {
        after
    } else {
        fetch_ids[packages_done - 1]
    }
}

/// What a `reparse` run reports after its walk: the counts, the tenders it
/// stamped stale, and, when it did not walk everything, how to continue.
pub open spec fn reparse_summary_text(
    reparsed: u64,
    packages: nat,
    members: u64,
    unmatched: u64,
    failing: u64,
    stamped: u64,
    stopped: bool,
    packages_done: nat,
    held_back: nat,
    next_after: i64,
) -> Seq<char> {
    "re-parsed "@ + dec(reparsed as nat) + " notices across "@ + dec(packages) + " packages ("@
        + dec(members as nat) + " members walked, "@ + dec(unmatched as nat) + " unmatched, "@
        + dec(failing as nat) + " now failing and left untouched); stamped "@ + dec(
        stamped as nat,
    ) + " tender(s) epoch-stale"@ + if stopped {
        "; STOPPED at an operator's request after "@ + dec(packages_done) + " of "@ + dec(packages)
            + " package(s) — continue with a fresh enqueue carrying {\"after\": "@ + dec_int(
            next_after as int,
        ) + "}"@
    } else if held_back > 0 {
        "; "@ + dec(held_back) + " package(s) held back by the cap — continue with a fresh enqueue carrying {\"after\": "@
            + dec_int(next_after as int)
            + "} (re-enqueueing the original params restarts at their floor)"@
    } else {
        Seq::empty()
    }
}

/// The `reparse` run's result line.
pub fn reparse_summary(
    reparsed: u64,
    packages: usize,
    members: u64,
    unmatched: u64,
    failing: u64,
    stamped: u64,
    stopped: bool,
    packages_done: usize,
    held_back: usize,
    next_after: i64,
) -> (r: String)
    ensures
        r@ == reparse_summary_text(
            reparsed,
            packages as nat,
            members,
            unmatched,
            failing,
            stamped,
            stopped,
            packages_done as nat,
            held_back as nat,
            next_after,
        ),
{
    let mut s = String::from_str("re-parsed ");
    push_u64(&mut s, reparsed);
    s.append(" notices across ");
    push_u64(&mut s, packages as u64);
    s.append(" packages (");
    push_u64(&mut s, members);
    s.append(" members walked, ");
    push_u64(&mut s, unmatched);
    s.append(" unmatched, ");
    push_u64(&mut s, failing);
    s.append(" now failing and left untouched); stamped ");
    push_u64(&mut s, stamped);
    s.append(" tender(s) epoch-stale");
    let ghost head = s@;
    if stopped {
        s.append("; STOPPED at an operator's request after ");
        push_u64(&mut s, packages_done as u64);
        s.append(" of ");
        push_u64(&mut s, packages as u64);
        s.append(" package(s) — continue with a fresh enqueue carrying {\"after\": ");
        push_i64(&mut s, next_after);
        s.append("}");
    } else if held_back > 0 {
        s.append("; ");
        push_u64(&mut s, held_back as u64);
        s.append(
            " package(s) held back by the cap — continue with a fresh enqueue carrying {\"after\": ",
        );
        push_i64(&mut s, next_after);
        s.append("} (re-enqueueing the original params restarts at their floor)");
    }
    proof {
        assert(s@ =~= reparse_summary_text(
            reparsed,
            packages as nat,
            members,
            unmatched,
            failing,
            stamped,
            stopped,
            packages_done as nat,
            held_back as nat,
            next_after,
        ));
    }
    s
}

/// What a `reparse` run with no package to walk reports.
pub fn reparse_nothing_to_do(profiles: &Vec<String>) -> (r: String)
    ensures
        r@ == "no packages hold parsed notices of "@ + join_comma(profiles.deep_view()),
{
    let mut s = String::from_str("no packages hold parsed notices of ");
    crate::jobs::push_joined(&mut s, profiles);
    s
}

/// What a `process` run with no package left to walk answers; none when there
/// are packages to process.
pub fn process_nothing_to_do(remaining: usize) -> (r: Option<String>)
    ensures
        r.is_some() == (remaining == 0),
        r.is_some() ==> r.unwrap()@ == "no packages to process"@,
{
    if remaining == 0 {
        Some(String::from_str("no packages to process"))
    } else {
        None
    }
}

/// A `process` run's counts.
pub struct ProcessTotals {
    pub members: u64,
    pub notices: u64,
    pub parsed: u64,
    pub parse_quarantined: u64,
    pub quarantined: u64,
    pub duplicates: u64,
}

impl ProcessTotals {
    /// Nothing processed.
    pub fn new() -> (t: Self)
        ensures
            t.members == 0 && t.notices == 0 && t.parsed == 0,
            t.parse_quarantined == 0 && t.quarantined == 0 && t.duplicates == 0,
    {
        ProcessTotals {
            members: 0,
            notices: 0,
            parsed: 0,
            parse_quarantined: 0,
            quarantined: 0,
            duplicates: 0,
        }
    }

    /// Adds one package's report to the run's totals.
    pub fn add(&mut self, r: &Self)
        requires
            old(self).members + r.members <= u64::MAX,
            old(self).notices + r.notices <= u64::MAX,
            old(self).parsed + r.parsed <= u64::MAX,
            old(self).parse_quarantined + r.parse_quarantined <= u64::MAX,
            old(self).quarantined + r.quarantined <= u64::MAX,
            old(self).duplicates + r.duplicates <= u64::MAX,
        ensures
            final(self).members == old(self).members + r.members,
            final(self).notices == old(self).notices + r.notices,
            final(self).parsed == old(self).parsed + r.parsed,
            final(self).parse_quarantined == old(self).parse_quarantined + r.parse_quarantined,
            final(self).quarantined == old(self).quarantined + r.quarantined,
            final(self).duplicates == old(self).duplicates + r.duplicates,
    {
        self.members = self.members + r.members;
        self.notices = self.notices + r.notices;
        self.parsed = self.parsed + r.parsed;
        self.parse_quarantined = self.parse_quarantined + r.parse_quarantined;
        self.quarantined = self.quarantined + r.quarantined;
        self.duplicates = self.duplicates + r.duplicates;
    }
}

/// A `process` run's result line.
pub open spec fn process_summary_text(t: ProcessTotals) -> Seq<char> {
    dec(t.members as nat) + " members → "@ + dec(t.notices as nat) + " notices ("@ + dec(
        t.parsed as nat,
    ) + " parsed, "@ + dec(t.parse_quarantined as nat) + " quarantined, "@ + dec(
        t.quarantined as nat,
    ) + " unrecognised, "@ + dec(t.duplicates as nat) + " dup)"@
}

/// The `process` run's result line.
pub fn process_summary(t: &ProcessTotals) -> (r: String)
    ensures
        r@ == process_summary_text(*t),
{
    let mut s = String::new();
    push_u64(&mut s, t.members);
    s.append(" members → ");
    push_u64(&mut s, t.notices);
    s.append(" notices (");
    push_u64(&mut s, t.parsed);
    s.append(" parsed, ");
    push_u64(&mut s, t.parse_quarantined);
    s.append(" quarantined, ");
    push_u64(&mut s, t.quarantined);
    s.append(" unrecognised, ");
    push_u64(&mut s, t.duplicates);
    s.append(" dup)");
    proof {
        assert(s@ =~= process_summary_text(*t));
    }
    s
}

} // verus!
