//! Calendar dates read from event start times, through `chrono`.

use vstd::prelude::*;
use vstd::utf8::*;
use vstd::string::*;
use crate::text::{decimal_spec, trim, trim_spec};
use chrono::Datelike;

verus! {

/// A calendar date: year, month (1–12), day of month (1–31) and day of the
/// week counted from Monday (0 = Monday … 6 = Sunday).
#[derive(Clone, Copy, Debug, PartialEq, Eq)]
pub struct CivilDate {
    pub year: i32,
    pub month: u32,
    pub day: u32,
    pub weekday: u32,
}

/// The date that `NaiveDate::parse_from_str(s, "%Y-%m-%d")` reads from `s`,
/// or `None` when it refuses `s`.
pub uninterp spec fn ymd_date(s: Seq<char>) -> Option<CivilDate>;

/// The local date (`date_naive`) of what `DateTime::parse_from_rfc3339`
/// reads from `s`, or `None` when it refuses `s`.
pub uninterp spec fn rfc3339_date(s: Seq<char>) -> Option<CivilDate>;

/// Calls `chrono::NaiveDate::parse_from_str(s, "%Y-%m-%d")` and reads the
/// year, month, day and weekday of the result. The contract claims that the
/// result depends on `s` alone and that chrono's accessors keep month, day
/// and weekday in their documented ranges.
#[verifier::external_body]
fn parse_ymd(s: &str) -> (r: Option<CivilDate>)
    ensures
        r == ymd_date(s@),
        r matches Some(d) ==> 1 <= d.month <= 12 && 1 <= d.day <= 31 && d.weekday < 7,
{
    chrono::NaiveDate::parse_from_str(s, "%Y-%m-%d").ok().map(
        |d| CivilDate {
            year: d.year(),
            month: d.month(),
            day: d.day(),
            weekday: d.weekday().num_days_from_monday(),
        },
    )
}

/// Calls `chrono::DateTime::parse_from_rfc3339(s)` and reads the date in the
/// parsed offset (`date_naive`). The contract claims that the result depends
/// on `s` alone and that month, day and weekday are in their documented ranges.
#[verifier::external_body]
fn parse_rfc3339(s: &str) -> (r: Option<CivilDate>)
    ensures
        r == rfc3339_date(s@),
        r matches Some(d) ==> 1 <= d.month <= 12 && 1 <= d.day <= 31 && d.weekday < 7,
{
    chrono::DateTime::parse_from_rfc3339(s).ok().map(
        |dt| {
            let d = dt.date_naive();
            CivilDate {
                year: d.year(),
                month: d.month(),
                day: d.day(),
                weekday: d.weekday().num_days_from_monday(),
            }
        },
    )
}

/// Whether the first ten UTF-8 bytes of `s` can be cut off as a string: `s`
/// is shorter than ten bytes or byte ten starts a character.
pub open spec fn ten_byte_cut_ok(s: Seq<char>) -> bool {
    encode_utf8(s).len() < 10 || is_char_boundary(encode_utf8(s), 10)
}

/// The characters in the first ten UTF-8 bytes of `s`.
pub open spec fn first_ten_bytes(s: Seq<char>) -> Seq<char> {
    decode_utf8(encode_utf8(s).subrange(0, 10))
}

/// The date that an event starting at `start_iso` falls on: for an all-day
/// event `start_iso` is read as `YYYY-MM-DD`; otherwise as RFC 3339, or else
/// its first ten bytes as `YYYY-MM-DD`.
pub open spec fn start_date_spec(start_iso: Seq<char>, all_day: bool) -> Option<CivilDate> {
    let s = trim_spec(start_iso);
    if all_day {
        ymd_date(s)
    } else if rfc3339_date(s) is Some {
        rfc3339_date(s)
    } else if encode_utf8(s).len() >= 10 {
        ymd_date(first_ten_bytes(s))
    } else {
        None
    }
}

/// The date that an event starting at `start_iso` falls on.
pub fn naive_date_from_start(start_iso: &str, all_day: bool) -> (r: Option<CivilDate>)
    requires
        all_day || ten_byte_cut_ok(trim_spec(start_iso@)),
    ensures
        r == start_date_spec(start_iso@, all_day),
        r matches Some(d) ==> 1 <= d.month <= 12 && 1 <= d.day <= 31 && d.weekday < 7,
{
    let s = trim(start_iso);
    let t = s.as_str();
    assert(t@ == trim_spec(start_iso@));
    assert(t.spec_bytes() == encode_utf8(t@));
    if all_day {
        return parse_ymd(t);
    }
    let r = parse_rfc3339(t);
    if r.is_some() {
        return r;
    }
    if t.as_bytes().len() >= 10 {
        let (head, _tail) = t.split_at(10);
        proof {
            encode_utf8_decode_utf8(head@);
            assert(head.spec_bytes() == encode_utf8(head@));
            assert(encode_utf8(head@) == encode_utf8(t@).subrange(0, 10));
            assert(head@ == first_ten_bytes(t@));
        }
        let d = parse_ymd(head);
        assert(d == ymd_date(first_ten_bytes(t@)));
        d
    } else {
        None
    }
}

/// The two-letter iCalendar day code for a weekday counted from Monday.
pub open spec fn byday_spec(w: u32) -> Seq<char> {
    if w == 0 {
        "MO"@
    } else if w == 1 {
        "TU"@
    } else if w == 2 {
        "WE"@
    } else if w == 3 {
        "TH"@
    } else if w == 4 {
        "FR"@
    } else if w == 5 {
        "SA"@
    } else {
        "SU"@
    }
}

/// The two-letter iCalendar day code (`MO` … `SU`) for a weekday counted
/// from Monday.
pub fn weekday_to_byday(w: u32) -> (r: &'static str)
    requires
        w < 7,
    ensures
        r@ == byday_spec(w),
{
    if w == 0 {
        "MO"
    } else if w == 1 {
        "TU"
    } else if w == 2 {
        "WE"
    } else if w == 3 {
        "TH"
    } else if w == 4 {
        "FR"
    } else if w == 5 {
        "SA"
    } else {
        "SU"
    }
}

/// Whether a (proleptic Gregorian) year is a leap year.
pub open spec fn is_leap_year(y: int) -> bool {
    y % 4 == 0 && (y % 100 != 0 || y % 400 == 0)
}

/// The number of days of a month (1–12) in a year.
pub open spec fn days_in_month(y: int, m: int) -> int {
    if m == 2 {
        if is_leap_year(y) {
            29
        } else {
            28
        }
    } else if m == 4 || m == 6 || m == 9 || m == 11 {
        30
    } else {
        31
    }
}

/// What `NaiveDate::from_ymd_opt(year, month, day)` followed by
/// `checked_sub_months(Months::new(n))` gives, as (year, month, day); `None`
/// when either refuses.
pub uninterp spec fn months_earlier(year: i32, month: u32, day: u32, n: u32) -> Option<(i32, u32, u32)>;

/// What `NaiveDate::from_ymd_opt(year, month, day)` followed by
/// `checked_add_months(Months::new(n))` gives, as (year, month, day); `None`
/// when either refuses.
pub uninterp spec fn months_later(year: i32, month: u32, day: u32, n: u32) -> Option<(i32, u32, u32)>;

/// What `NaiveDate::from_ymd_opt(year, month, day)` then `to_string` gives;
/// `None` when the date does not exist.
pub uninterp spec fn date_text(year: i32, month: u32, day: u32) -> Option<Seq<char>>;

/// Whether `(y2, m2, d2)` is `(y, m, d)` moved by `delta` months, with the
/// day clamped to the last day of the new month (what chrono's month
/// arithmetic documents).
pub open spec fn months_moved(y: int, m: int, d: int, delta: int, y2: int, m2: int, d2: int) -> bool {
    &&& y2 * 12 + m2 == y * 12 + m + delta
    &&& 1 <= m2 <= 12
    &&& d2 == if d < days_in_month(y2, m2) {
        d
    } else {
        days_in_month(y2, m2)
    }
}

/// `n` in decimal, with leading zeros up to `w` digits.
pub open spec fn zero_padded(n: nat, w: nat) -> Seq<char> {
    let t = decimal_spec(n);
    if t.len() < w {
        Seq::new((w - t.len()) as nat, |i: int| '0') + t
    } else {
        t
    }
}

/// Calls `NaiveDate::from_ymd_opt(year, month, day)` and then
/// `checked_sub_months(Months::new(n))`. The contract claims that the result
/// depends on the arguments alone and, when there is one, that it is the date
/// `n` months earlier with the day clamped to the end of its month.
#[verifier::external_body]
pub(crate) fn sub_months(year: i32, month: u32, day: u32, n: u32) -> (r: Option<(i32, u32, u32)>)
    ensures
        r == months_earlier(year, month, day, n),
        r matches Some(t) ==> months_moved(year as int, month as int, day as int, -(n as int), t.0 as int, t.1 as int, t.2 as int),
{
    chrono::NaiveDate::from_ymd_opt(year, month, day)
        .and_then(|d| d.checked_sub_months(chrono::Months::new(n)))
        .map(|d| (d.year(), d.month(), d.day()))
}

/// Calls `NaiveDate::from_ymd_opt(year, month, day)` and then
/// `checked_add_months(Months::new(n))`. The contract claims that the result
/// depends on the arguments alone and, when there is one, that it is the date
/// `n` months later with the day clamped to the end of its month.
#[verifier::external_body]
pub(crate) fn add_months(year: i32, month: u32, day: u32, n: u32) -> (r: Option<(i32, u32, u32)>)
    ensures
        r == months_later(year, month, day, n),
        r matches Some(t) ==> months_moved(year as int, month as int, day as int, n as int, t.0 as int, t.1 as int, t.2 as int),
{
    chrono::NaiveDate::from_ymd_opt(year, month, day)
        .and_then(|d| d.checked_add_months(chrono::Months::new(n)))
        .map(|d| (d.year(), d.month(), d.day()))
}

/// Calls `NaiveDate::from_ymd_opt(year, month, day)` and formats the date
/// with `to_string`. The contract claims that the text depends on the
/// arguments alone and, for a year from 0 to 9999, that it is `YYYY-MM-DD`
/// with leading zeros (other years carry a sign, which is left unsaid).
#[verifier::external_body]
pub(crate) fn ymd_text(year: i32, month: u32, day: u32) -> (r: Option<String>)
    ensures
        match r {
            Some(t) => date_text(year, month, day) == Some(t@) && (0 <= year <= 9999 ==> t@
                == zero_padded(year as nat, 4) + "-"@ + zero_padded(month as nat, 2) + "-"@
                + zero_padded(day as nat, 2)),
            None => date_text(year, month, day) is None,
        },
{
    chrono::NaiveDate::from_ymd_opt(year, month, day).map(|d| d.to_string())
}

} // verus!
