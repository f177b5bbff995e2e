//! Period strings: `YYYY-NNNNN` daily issues, `YYYY-MM` months, `YYYY-MM-DD`
//! days, and inclusive month ranges.
use vstd::prelude::*;
use crate::text::{
    dec, head_at, pad2, parse_unsigned, parse_unsigned_spec, push_pad2, push_u64,
    split_at_char, tail_at,
};

verus! {

/// What `{:?}` writes for a string (std's `Debug` for `str`: the text in double
/// quotes, each character escaped as `char::escape_debug` escapes it).
pub uninterp spec fn debug_quoted(s: Seq<char>) -> Seq<char>;

/// `format!("{s:?}")` of std. Claimed: the result is `debug_quoted` of the
/// argument, and a string made only of ASCII letters, digits, `-` and spaces is
/// its own text between double quotes (such characters are never escaped).
#[verifier::external_body]
pub(crate) fn debug_quote(s: &str) -> (q: String)
    ensures
        q@ == debug_quoted(s@),
        (forall|i: int|
            0 <= i < s@.len() ==> plain_char(#[trigger] s@[i])) ==> q@ == seq!['"'] + s@ + seq![
            '"',
        ],
{
    format!("{s:?}")
}

/// Characters that `escape_debug` leaves as they are and that need no quoting.
pub open spec fn plain_char(c: char) -> bool {
    ('a' <= c && c <= 'z') || ('A' <= c && c <= 'Z') || ('0' <= c && c <= '9') || c == '-' || c
        == ' '
}

/// `malformed period "<p>"`.
pub open spec fn bad_text(p: Seq<char>) -> Seq<char> {
    "malformed period "@ + debug_quoted(p)
}

/// The error every period parser returns for a string it cannot read.
pub fn bad(period: &str) -> (r: String)
    ensures
        r@ == bad_text(period@),
{
    let mut s = String::from_str("malformed period ");
    let q = debug_quote(period);
    s.append(q.as_str());
    s
}

/// `YYYY-NNNNN` read as (year, issue): split at the first `-`, a `u16` before it
/// and a `u32` after it.
pub open spec fn parse_issue_spec(p: Seq<char>) -> Option<(u16, u32)> {
    match tail_at(p, '-') {
        None => None,
        Some(rest) => match (
            parse_unsigned_spec(head_at(p, '-'), 0xffff),
            parse_unsigned_spec(rest, 0xffff_ffff),
        ) {
            (Some(y), Some(n)) => Some((y as u16, n as u32)),
            _ => None,
        },
    }
}

/// `YYYY-MM` read as (year, month): a `u16` and a `u8` around the first `-`. The
/// month is not range-checked.
pub open spec fn parse_year_month_spec(p: Seq<char>) -> Option<(u16, u8)> {
    match tail_at(p, '-') {
        None => None,
        Some(rest) => match (
            parse_unsigned_spec(head_at(p, '-'), 0xffff),
            parse_unsigned_spec(rest, 0xff),
        ) {
            (Some(y), Some(m)) => Some((y as u16, m as u8)),
            _ => None,
        },
    }
}

/// `YYYY-MM-DD` read as (year, month, day): the first three `-`-separated
/// fields, anything after a third `-` ignored.
pub open spec fn parse_ymd_spec(p: Seq<char>) -> Option<(u16, u8, u8)> {
    match tail_at(p, '-') {
        None => None,
        Some(r1) => match tail_at(r1, '-') {
            None => None,
            Some(r2) => match (
                parse_unsigned_spec(head_at(p, '-'), 0xffff),
                parse_unsigned_spec(head_at(r1, '-'), 0xff),
                parse_unsigned_spec(head_at(r2, '-'), 0xff),
            ) {
                (Some(y), Some(m), Some(d)) => Some((y as u16, m as u8, d as u8)),
                _ => None,
            },
        },
    }
}

/// `YYYY-NNNNN` → (year, issue).
pub fn parse_issue(period: &str) -> (r: Result<(u16, u32), String>)
    ensures
        r.is_ok() == parse_issue_spec(period@).is_some(),
        r.is_ok() ==> r.unwrap() == parse_issue_spec(period@).unwrap(),
        r.is_err() ==> r.unwrap_err()@ == bad_text(period@),
{
    let (y, rest) = split_at_char(period, '-');
    match rest {
        None => Err(bad(period)),
        Some(n) => {
            let yv = parse_unsigned(y, 0xffff);
            let nv = parse_unsigned(n, 0xffff_ffff);
            match (yv, nv) {
                (Some(a), Some(b)) => Ok((a as u16, b as u32)),
                _ => Err(bad(period)),
            }
        },
    }
}

/// `YYYY-MM` → (year, month).
pub fn parse_year_month(period: &str) -> (r: Result<(u16, u8), String>)
    ensures
        r.is_ok() == parse_year_month_spec(period@).is_some(),
        r.is_ok() ==> r.unwrap() == parse_year_month_spec(period@).unwrap(),
        r.is_err() ==> r.unwrap_err()@ == bad_text(period@),
{
    let (y, rest) = split_at_char(period, '-');
    match rest {
        None => Err(bad(period)),
        Some(m) => {
            let yv = parse_unsigned(y, 0xffff);
            let mv = parse_unsigned(m, 0xff);
            match (yv, mv) {
                (Some(a), Some(b)) => Ok((a as u16, b as u8)),
                _ => Err(bad(period)),
            }
        },
    }
}

/// `YYYY-MM-DD` → (year, month, day).
pub fn parse_ymd(period: &str) -> (r: Result<(u16, u8, u8), String>)
    ensures
        r.is_ok() == parse_ymd_spec(period@).is_some(),
        r.is_ok() ==> r.unwrap() == parse_ymd_spec(period@).unwrap(),
        r.is_err() ==> r.unwrap_err()@ == bad_text(period@),
{
    let (y, r1) = split_at_char(period, '-');
    let r1 = match r1 {
        None => return Err(bad(period)),
        Some(r) => r,
    };
    let (m, r2) = split_at_char(r1, '-');
    let r2 = match r2 {
        None => return Err(bad(period)),
        Some(r) => r,
    };
    let (d, _) = split_at_char(r2, '-');
    let yv = parse_unsigned(y, 0xffff);
    let mv = parse_unsigned(m, 0xff);
    let dv = parse_unsigned(d, 0xff);
    match (yv, mv, dv) {
        (Some(a), Some(b), Some(c)) => Ok((a as u16, b as u8, c as u8)),
        _ => Err(bad(period)),
    }
}

/// `(y, m)` is at or before `(ey, em)`, comparing the year first.
pub open spec fn ym_le(y: int, m: int, ey: int, em: int) -> bool {
    y < ey || (y == ey && m <= em)
}

/// The month after `(y, m)`: December rolls into January of the next year, any
/// other month number is incremented.
pub open spec fn next_month(y: int, m: int) -> (int, int) {
    if m == 12 {
        (y + 1, 1)
    } else {
        (y, m + 1)
    }
}

/// The months from `(y, m)` through `(ey, em)` inclusive.
pub open spec fn month_run(y: int, m: int, ey: int, em: int) -> Seq<(int, int)>
    decreases ey - y + 1, 256 - m,
    when 0 <= m <= 255
{
    if ym_le(y, m, ey, em) {
        let nx = next_month(y, m);
        seq![(y, m)] + month_run(nx.0, nx.1, ey, em)
    } else {
        Seq::empty()
    }
}

/// Walking from `(y, m)` to `(ey, em)` stays inside `u16` years and `u8` month
/// numbers. A walk from a real month (at most 12) can only overflow the year, at
/// the end of year 65535; a walk from a month number above 12 climbs the month
/// number and must stop before it passes 255.
pub open spec fn walk_fits(y: int, m: int, ey: int, em: int) -> bool {
    !ym_le(y, m, ey, em) || (if m <= 12 {
        !(ey == 0xffff && em >= 12)
    } else {
        y == ey && em < 255
    })
}

/// The `YYYY-MM` label of a month.
pub open spec fn month_label(ym: (int, int)) -> Seq<char> {
    dec(ym.0 as nat) + seq!['-'] + pad2(ym.1 as nat)
}

/// The text of each string in a sequence.
pub open spec fn texts(v: Seq<String>) -> Seq<Seq<char>> {
    v.map_values(|s: String| s@)
}

/// `range start <a> is after end <b>`.
pub open spec fn reversed_range_text(a: Seq<char>, b: Seq<char>) -> Seq<char> {
    "range start "@ + a + " is after end "@ + b
}

/// What `months_between(a, b)` gives: the labels of every month from `a` through
/// `b` inclusive, or the error for the first thing wrong with the request.
pub open spec fn months_between_spec(a: Seq<char>, b: Seq<char>) -> Result<
    Seq<Seq<char>>,
    Seq<char>,
> {
    match parse_year_month_spec(a) {
        None => Err(bad_text(a)),
        Some(s) => match parse_year_month_spec(b) {
            None => Err(bad_text(b)),
            Some(e) => if ym_le(s.0 as int, s.1 as int, e.0 as int, e.1 as int) {
                Ok(
                    month_run(s.0 as int, s.1 as int, e.0 as int, e.1 as int).map_values(
                        |ym: (int, int)| month_label(ym),
                    ),
                )
            } else {
                Err(reversed_range_text(a, b))
            },
        },
    }
}

/// The walk never overflows on these endpoints.
pub open spec fn months_between_fits(a: Seq<char>, b: Seq<char>) -> bool {
    match (parse_year_month_spec(a), parse_year_month_spec(b)) {
        (Some(s), Some(e)) => walk_fits(s.0 as int, s.1 as int, e.0 as int, e.1 as int),
        _ => true,
    }
}

/// Whether `months_between(a, b)` can walk its range without overflowing, so
/// that a caller can refuse such a range instead of calling.
pub fn month_walk_fits(a: &str, b: &str) -> (r: bool)
    ensures
        r == months_between_fits(a@, b@),
{
    match (parse_year_month(a), parse_year_month(b)) {
        (Ok((y, m)), Ok((ey, em))) => {
            let le = y < ey || (y == ey && m <= em);
            !le || (if m <= 12 {
                !(ey == 0xffff && em >= 12)
            } else {
                y == ey && em < 255
            })
        },
        _ => true,
    }
}

proof fn lemma_walk_step(y: int, m: int, ey: int, em: int)
    requires
        0 <= m <= 255,
        0 <= y <= 0xffff,
        ym_le(y, m, ey, em),
        walk_fits(y, m, ey, em),
        ey <= 0xffff,
    ensures
        0 <= next_month(y, m).0 <= 0xffff,
        0 <= next_month(y, m).1 <= 255,
        walk_fits(next_month(y, m).0, next_month(y, m).1, ey, em),
        month_run(y, m, ey, em) == seq![(y, m)] + month_run(
            next_month(y, m).0,
            next_month(y, m).1,
            ey,
            em,
        ),
{
}

/// Inclusive list of `YYYY-MM` periods from `a` to `b`.
pub fn months_between(a: &str, b: &str) -> (r: Result<Vec<String>, String>)
    requires
        months_between_fits(a@, b@),
    ensures
        match (r, months_between_spec(a@, b@)) {
            (Ok(v), Ok(s)) => texts(v@) == s,
            (Err(e), Err(t)) => e@ == t,
            _ => false,
        },
{
    let (y0, m0) = match parse_year_month(a) {
        Ok(v) => v,
        Err(e) => return Err(e),
    };
    let (ey, em) = match parse_year_month(b) {
        Ok(v) => v,
        Err(e) => return Err(e),
    };
    if !(y0 < ey || (y0 == ey && m0 <= em)) {
        let mut msg = String::from_str("range start ");
        msg.append(a);
        msg.append(" is after end ");
        msg.append(b);
        proof {
            assert(msg@ =~= reversed_range_text(a@, b@));
        }
        return Err(msg);
    }
    let ghost whole = month_run(y0 as int, m0 as int, ey as int, em as int);
    let mut out: Vec<String> = Vec::new();
    let mut y: u16 = y0;
    let mut m: u8 = m0;
    while y < ey || (y == ey && m <= em)
        invariant
            walk_fits(y as int, m as int, ey as int, em as int),
            whole == month_run(y0 as int, m0 as int, ey as int, em as int),
            out@.len() + month_run(y as int, m as int, ey as int, em as int).len() == whole.len(),
            forall|i: int| 0 <= i < out@.len() ==> (#[trigger] out@[i])@ == month_label(whole[i]),
            forall|i: int|
                0 <= i < month_run(y as int, m as int, ey as int, em as int).len() ==> #[trigger] month_run(
                    y as int,
                    m as int,
                    ey as int,
                    em as int,
                )[i] == whole[out@.len() + i],
        decreases ey - y + 1, 256 - m,
    {
        proof {
            lemma_walk_step(y as int, m as int, ey as int, em as int);
        }
        let ghost run = month_run(y as int, m as int, ey as int, em as int);
        let mut label = String::new();
        push_u64(&mut label, y as u64);
        label.append("-");
        push_pad2(&mut label, m as u64);
        proof {
            reveal_strlit("-");
            assert(label@ =~= month_label((y as int, m as int)));
            assert(run[0] == (y as int, m as int));
            assert(whole[out@.len() as int] == run[0]);
        }
        out.push(label);
        if m == 12 {
            y = y + 1;
            m = 1;
        } else {
            m = m + 1;
        }
        proof {
            let nrun = month_run(y as int, m as int, ey as int, em as int);
            assert forall|i: int| 0 <= i < nrun.len() implies #[trigger] nrun[i] == whole[out@.len() + i] by {
                assert(nrun[i] == run[i + 1]);
            }
        }
    }
    proof {
        assert(month_run(y as int, m as int, ey as int, em as int) =~= Seq::<(int, int)>::empty());
        assert(texts(out@) =~= whole.map_values(|ym: (int, int)| month_label(ym)));
    }
    Ok(out)
}

} // verus!
