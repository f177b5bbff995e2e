//! The reveal recheck's per-wrap running totals: each nightly slice adds to the
//! totals carried in the cursor report, and the slice that wraps the cohort walk
//! publishes them as the wrap report and starts the cursor afresh.
use vstd::prelude::*;
use crate::text::{dec_int, push_i64};

verus! {

/// Running per-wrap totals: due, revealed, awaiting, broken, slices.
pub type WrapTotals = (i64, i64, i64, i64, i64);

/// The `wrap` members of a cursor report as read: `due`, `revealed`,
/// `awaiting`, `broken` and `slices`, each when it is there and an `i64`.
pub type WrapMembers = (Option<i64>, Option<i64>, Option<i64>, Option<i64>, Option<i64>);

/// A cursor report body read as JSON: the members of its `wrap` object, or none
/// when the body is not JSON.
pub uninterp spec fn cursor_members(body: Seq<char>) -> Option<WrapMembers>;

/// `"key":value` of a JSON object with an integer value.
pub open spec fn int_member(key: Seq<char>, v: int) -> Seq<char> {
    "\""@ + key + "\":"@ + dec_int(v)
}

/// The compact JSON object of the running totals, members in key order.
pub open spec fn wrap_object_text(t: WrapTotals) -> Seq<char> {
    "{"@ + int_member("awaiting"@, t.2 as int) + ","@ + int_member("broken"@, t.3 as int) + ","@
        + int_member("due"@, t.0 as int) + ","@ + int_member("revealed"@, t.1 as int) + ","@
        + int_member("slices"@, t.4 as int) + "}"@
}

/// The cursor report body `{"after":..,"wrap":{..the totals..}}`.
pub open spec fn cursor_text(after: i64, t: WrapTotals) -> Seq<char> {
    "{"@ + int_member("after"@, after as int) + ",\"wrap\":"@ + wrap_object_text(t) + "}"@
}

/// The bare cursor report body `{"after":..}`.
pub open spec fn bare_cursor_text(after: i64) -> Seq<char> {
    "{"@ + int_member("after"@, after as int) + "}"@
}

/// The wrap report body: the totals with `withheld_rows` and `completed_at`,
/// members in key order.
pub open spec fn wrap_text(t: WrapTotals, withheld_rows: i64, completed_at: i64) -> Seq<char> {
    "{"@ + int_member("awaiting"@, t.2 as int) + ","@ + int_member("broken"@, t.3 as int) + ","@
        + int_member("completed_at"@, completed_at as int) + ","@ + int_member("due"@, t.0 as int)
        + ","@ + int_member("revealed"@, t.1 as int) + ","@ + int_member("slices"@, t.4 as int)
        + ","@ + int_member("withheld_rows"@, withheld_rows as int) + "}"@
}

/// `serde_json::from_str::<Value>` on the body, then `as_i64` of each total
/// under its `wrap` member; `None` when the body does not parse. Claimed: the
/// result is `cursor_members` of the body (it depends on the text alone); a
/// body that serde_json itself wrote as `cursor_text` reads back its totals,
/// and one it wrote as `bare_cursor_text` has no `wrap` member, so none of
/// them. Not stated: what any other text gives.
#[verifier::external_body]
fn read_cursor_members(body: &str) -> (r: Option<WrapMembers>)
    ensures
        r == cursor_members(body@),
        forall|after: i64, t: WrapTotals|
            body@ == #[trigger] cursor_text(after, t) ==> r == Some::<WrapMembers>(
                (Some(t.0), Some(t.1), Some(t.2), Some(t.3), Some(t.4)),
            ),
        forall|after: i64|
            body@ == #[trigger] bare_cursor_text(after) ==> r == Some::<WrapMembers>(
                (None, None, None, None, None),
            ),
{
    match serde_json::from_str::<serde_json::Value>(body) {
        Ok(v) => Some(
            (
                v["wrap"]["due"].as_i64(),
                v["wrap"]["revealed"].as_i64(),
                v["wrap"]["awaiting"].as_i64(),
                v["wrap"]["broken"].as_i64(),
                v["wrap"]["slices"].as_i64(),
            ),
        ),
        Err(_) => None,
    }
}

/// `serde_json`'s compact rendering of the cursor object (its `Map` keeps keys
/// in order). Claimed: the text is `cursor_text` of the arguments.
#[verifier::external_body]
fn write_cursor_body(after: i64, t: WrapTotals) -> (s: String)
    ensures
        s@ == cursor_text(after, t),
{
    let mut wrap = serde_json::Map::new();
    wrap.insert("due".to_owned(), t.0.into());
    wrap.insert("revealed".to_owned(), t.1.into());
    wrap.insert("awaiting".to_owned(), t.2.into());
    wrap.insert("broken".to_owned(), t.3.into());
    wrap.insert("slices".to_owned(), t.4.into());
    let mut m = serde_json::Map::new();
    m.insert("after".to_owned(), after.into());
    m.insert("wrap".to_owned(), serde_json::Value::Object(wrap));
    serde_json::Value::Object(m).to_string()
}

/// `serde_json`'s compact rendering of `{"after": after}`. Claimed: the text is
/// `bare_cursor_text` of the argument.
#[verifier::external_body]
fn write_bare_cursor_body(after: i64) -> (s: String)
    ensures
        s@ == bare_cursor_text(after),
{
    let mut m = serde_json::Map::new();
    m.insert("after".to_owned(), after.into());
    serde_json::Value::Object(m).to_string()
}

/// `serde_json`'s compact rendering of the wrap report object (its `Map` keeps
/// keys in order). Claimed: the text is `wrap_text` of the arguments.
#[verifier::external_body]
fn write_wrap_body(t: WrapTotals, withheld_rows: i64, completed_at: i64) -> (s: String)
    ensures
        s@ == wrap_text(t, withheld_rows, completed_at),
{
    let mut m = serde_json::Map::new();
    m.insert("due".to_owned(), t.0.into());
    m.insert("revealed".to_owned(), t.1.into());
    m.insert("awaiting".to_owned(), t.2.into());
    m.insert("broken".to_owned(), t.3.into());
    m.insert("slices".to_owned(), t.4.into());
    m.insert("withheld_rows".to_owned(), withheld_rows.into());
    m.insert("completed_at".to_owned(), completed_at.into());
    serde_json::Value::Object(m).to_string()
}

/// A member as a running total: a missing or non-integer one counts as zero.
pub open spec fn total_or_zero(o: Option<i64>) -> i64 {
    match o {
        Some(n) => n,
        None => 0,
    }
}

/// The running totals of a read cursor: a body that is not JSON, or a total
/// that is missing or not an integer, counts as zero.
pub open spec fn totals_of(m: Option<WrapMembers>) -> WrapTotals {
    match m {
        Some(w) => (
            total_or_zero(w.0),
            total_or_zero(w.1),
            total_or_zero(w.2),
            total_or_zero(w.3),
            total_or_zero(w.4),
        ),
        None => (0, 0, 0, 0, 0),
    }
}

/// The running totals a cursor report carries. A missing, legacy
/// `{"after": N}` or garbled cursor counts as zero totals, so the walk restarts
/// rather than inventing history; a cursor this module wrote reads back the
/// totals it was written with.
pub fn cursor_totals(body: &str) -> (t: WrapTotals)
    ensures
        t == totals_of(cursor_members(body@)),
        cursor_members(body@) is None ==> t == (0i64, 0i64, 0i64, 0i64, 0i64),
        forall|after: i64, u: WrapTotals| body@ == #[trigger] cursor_text(after, u) ==> t == u,
        forall|after: i64|
            body@ == #[trigger] bare_cursor_text(after) ==> t == (0i64, 0i64, 0i64, 0i64, 0i64),
{
    match read_cursor_members(body) {
        Some(w) => (
            match w.0 {
                Some(n) => n,
                None => 0,
            },
            match w.1 {
                Some(n) => n,
                None => 0,
            },
            match w.2 {
                Some(n) => n,
                None => 0,
            },
            match w.3 {
                Some(n) => n,
                None => 0,
            },
            match w.4 {
                Some(n) => n,
                None => 0,
            },
        ),
        None => (0, 0, 0, 0, 0),
    }
}

/// One nightly slice of the reveal recheck, as the totals read it.
#[derive(Debug)]
pub struct RevealSlice {
    pub withheld_total: i64,
    pub upto: i64,
    pub wrapped: bool,
    pub due: i64,
    pub checked: i64,
    pub revealed: i64,
    pub no_later: i64,
}

/// The totals after adding one slice: a checked field that was neither revealed
/// nor still awaiting a later version is broken.
pub open spec fn add_slice(t: WrapTotals, sl: RevealSlice) -> (int, int, int, int, int) {
    (
        t.0 + sl.due,
        t.1 + sl.revealed,
        t.2 + sl.no_later,
        t.3 + (sl.checked - sl.revealed - sl.no_later),
        t.4 + 1,
    )
}

/// Adding the slice stays inside `i64`.
pub open spec fn slice_fits(t: WrapTotals, sl: RevealSlice) -> bool {
    let s = add_slice(t, sl);
    &&& i64::MIN <= sl.checked - sl.revealed <= i64::MAX
    &&& i64::MIN <= sl.checked - sl.revealed - sl.no_later <= i64::MAX
    &&& i64::MIN <= s.0 <= i64::MAX
    &&& i64::MIN <= s.1 <= i64::MAX
    &&& i64::MIN <= s.2 <= i64::MAX
    &&& i64::MIN <= s.3 <= i64::MAX
    &&& i64::MIN <= s.4 <= i64::MAX
}

/// The running totals after one more slice.
pub fn next_wrap_totals(t: WrapTotals, sl: &RevealSlice) -> (r: WrapTotals)
    requires
        slice_fits(t, *sl),
    ensures
        (r.0 as int, r.1 as int, r.2 as int, r.3 as int, r.4 as int) == add_slice(t, *sl),
{
    (
        t.0 + sl.due,
        t.1 + sl.revealed,
        t.2 + sl.no_later,
        t.3 + (sl.checked - sl.revealed - sl.no_later),
        t.4 + 1,
    )
}

/// The totals a cursor report carries (zero where `cursor_totals` reads
/// zero), none for a first run.
pub open spec fn prior_totals(prev_cursor: Option<&str>) -> WrapTotals {
    match prev_cursor {
        Some(b) => totals_of(cursor_members(b@)),
        None => (0, 0, 0, 0, 0),
    }
}

/// The reports after one slice: the cursor body to store, and the wrap body to
/// publish when the slice wrapped the walk (which also resets the cursor).
pub open spec fn roll_spec(prev_cursor: Option<&str>, sl: RevealSlice, now: i64) -> (
    Seq<char>,
    Option<Seq<char>>,
) {
    let s = add_slice(prior_totals(prev_cursor), sl);
    let t: WrapTotals = (s.0 as i64, s.1 as i64, s.2 as i64, s.3 as i64, s.4 as i64);
    if sl.wrapped {
        (bare_cursor_text(0), Some(wrap_text(t, sl.withheld_total, now)))
    } else {
        (cursor_text(sl.upto, t), None)
    }
}

/// Roll one slice into the cursor's running totals; a wrapping slice publishes
/// the totals (itself included) and resets the cursor.
pub fn roll_reveal_wrap(prev_cursor: Option<&str>, sl: &RevealSlice, now: i64) -> (r: (
    String,
    Option<String>,
))
    requires
        slice_fits(prior_totals(prev_cursor), *sl),
    ensures
        r.0@ == roll_spec(prev_cursor, *sl, now).0,
        r.1.is_some() == roll_spec(prev_cursor, *sl, now).1.is_some(),
        r.1.is_some() ==> r.1.unwrap()@ == roll_spec(prev_cursor, *sl, now).1.unwrap(),
        forall|after: i64, u: WrapTotals|
            prev_cursor is Some && prev_cursor.unwrap()@ == #[trigger] cursor_text(after, u)
                ==> prior_totals(prev_cursor) == u,
        forall|after: i64|
            prev_cursor is Some && prev_cursor.unwrap()@ == #[trigger] bare_cursor_text(after)
                ==> prior_totals(prev_cursor) == (0i64, 0i64, 0i64, 0i64, 0i64),
{
    let running: WrapTotals = match prev_cursor {
        Some(b) => cursor_totals(b),
        None => (0, 0, 0, 0, 0),
    };
    let t = next_wrap_totals(running, sl);
    if sl.wrapped {
        (write_bare_cursor_body(0), Some(write_wrap_body(t, sl.withheld_total, now)))
    } else {
        (write_cursor_body(sl.upto, t), None)
    }
}

/// `roll_reveal_wrap` for any prior cursor: `None` where adding the slice to the
/// cursor's totals would leave `i64`.
pub fn try_roll_reveal_wrap(prev_cursor: Option<&str>, sl: &RevealSlice, now: i64) -> (r: Option<
    (String, Option<String>),
>)
    ensures
        r.is_some() == slice_fits(prior_totals(prev_cursor), *sl),
        r.is_some() ==> r.unwrap().0@ == roll_spec(prev_cursor, *sl, now).0 && r.unwrap().1.is_some()
            == roll_spec(prev_cursor, *sl, now).1.is_some() && (r.unwrap().1.is_some()
            ==> r.unwrap().1.unwrap()@ == roll_spec(prev_cursor, *sl, now).1.unwrap()),
{
    let t: WrapTotals = match prev_cursor {
        Some(b) => cursor_totals(b),
        None => (0, 0, 0, 0, 0),
    };
    let broken_fits = match sl.checked.checked_sub(sl.revealed) {
        Some(a) => match a.checked_sub(sl.no_later) {
            Some(b) => t.3.checked_add(b).is_some(),
            None => false,
        },
        None => false,
    };
    let fits = broken_fits && t.0.checked_add(sl.due).is_some() && t.1.checked_add(
        sl.revealed,
    ).is_some() && t.2.checked_add(sl.no_later).is_some() && t.4.checked_add(1).is_some();
    if fits {
        Some(roll_reveal_wrap(prev_cursor, sl, now))
    } else {
        None
    }
}

/// The recheck's result line for one slice `after..upto` over `sections`
/// sections: a checked field neither revealed at head nor awaiting a later
/// version is broken.
pub open spec fn recheck_summary_text(sl: RevealSlice, after: i64, sections: i64) -> Seq<char> {
    "reveal recheck: "@ + dec_int(sl.withheld_total as int) + " withheld field(s) in corpus; slice "@
        + dec_int(after as int) + ".."@ + dec_int(sl.upto as int) + ": "@ + dec_int(
        sections as int,
    ) + " section(s), "@ + dec_int(sl.due as int) + " due, of "@ + dec_int(sl.checked as int)
        + " checked "@ + dec_int(sl.revealed as int) + " revealed at head, "@ + dec_int(
        sl.no_later as int,
    ) + " awaiting a later version, "@ + dec_int(sl.checked - sl.revealed - sl.no_later)
        + " BROKEN (later version still withholds)"@ + if sl.wrapped {
        " (cohort cycle wrapped)"@
    } else {
        Seq::empty()
    }
}

/// The recheck's result line for one slice.
pub fn recheck_summary(sl: &RevealSlice, after: i64, sections: i64) -> (r: String)
    requires
        i64::MIN <= sl.checked - sl.revealed <= i64::MAX,
        i64::MIN <= sl.checked - sl.revealed - sl.no_later <= i64::MAX,
    ensures
        r@ == recheck_summary_text(*sl, after, sections),
{
    let mut s = String::from_str("reveal recheck: ");
    push_i64(&mut s, sl.withheld_total);
    s.append(" withheld field(s) in corpus; slice ");
    push_i64(&mut s, after);
    s.append("..");
    push_i64(&mut s, sl.upto);
    s.append(": ");
    push_i64(&mut s, sections);
    s.append(" section(s), ");
    push_i64(&mut s, sl.due);
    s.append(" due, of ");
    push_i64(&mut s, sl.checked);
    s.append(" checked ");
    push_i64(&mut s, sl.revealed);
    s.append(" revealed at head, ");
    push_i64(&mut s, sl.no_later);
    s.append(" awaiting a later version, ");
    push_i64(&mut s, sl.checked - sl.revealed - sl.no_later);
    s.append(" BROKEN (later version still withholds)");
    if sl.wrapped {
        s.append(" (cohort cycle wrapped)");
    }
    s
}

} // verus!
