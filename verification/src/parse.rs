//! The two due-string shapes of the remote schema.
//!
//! A due date arrives as a string in exactly one of two shapes, told apart by
//! its length in characters: a plain calendar date `YYYY-MM-DD` (10
//! characters) or a combined date and time `YYYY-MM-DDTHH:MM:SS` (19
//! characters).  Both parsers state exactly which strings they accept and
//! which components they read.  The date-time shape carries no zone or
//! offset suffix — the zone is resolved separately — so a string in any
//! other form, a suffixed one included, classifies as malformed.

use vstd::prelude::*;

use crate::dates::CalendarDate;
use crate::dates::TimeOfDay;
use crate::dates::days_in_month;
use crate::dates::spec_days_in_month;

verus! {

pub open spec fn spec_is_digit(c: char) -> bool {
    '0' <= c && c <= '9'
}

pub open spec fn spec_digit_val(c: char) -> int {
    c as int - '0' as int
}

pub open spec fn spec_num2(s: Seq<char>, i: int) -> int {
    spec_digit_val(s[i]) * 10 + spec_digit_val(s[i + 1])
}

pub open spec fn spec_num4(s: Seq<char>, i: int) -> int {
    spec_digit_val(s[i]) * 1000 + spec_digit_val(s[i + 1]) * 100 + spec_digit_val(s[i + 2]) * 10
        + spec_digit_val(s[i + 3])
}

/// The string is shaped `YYYY-MM-DD`.
pub open spec fn spec_date_shape(s: Seq<char>) -> bool {
    &&& s.len() == 10
    &&& spec_is_digit(s[0])
    &&& spec_is_digit(s[1])
    &&& spec_is_digit(s[2])
    &&& spec_is_digit(s[3])
    &&& s[4] == '-'
    &&& spec_is_digit(s[5])
    &&& spec_is_digit(s[6])
    &&& s[7] == '-'
    &&& spec_is_digit(s[8])
    &&& spec_is_digit(s[9])
}

/// The calendar date a `YYYY-MM-DD` string names, or `None` when the string
/// has another shape or its components name no real day.
pub open spec fn spec_parse_date(s: Seq<char>) -> Option<CalendarDate> {
    if spec_date_shape(s) {
        let y = spec_num4(s, 0);
        let m = spec_num2(s, 5);
        let d = spec_num2(s, 8);
        if 1 <= m <= 12 && 1 <= d <= spec_days_in_month(y, m) {
            Some(CalendarDate { year: y as i32, month: m as u8, day: d as u8 })
        } else {
            None
        }
    } else {
        None
    }
}

/// The string is shaped `YYYY-MM-DDTHH:MM:SS`.
pub open spec fn spec_datetime_shape(s: Seq<char>) -> bool {
    &&& s.len() == 19
    &&& spec_date_shape(s.subrange(0, 10))
    &&& s[10] == 'T'
    &&& spec_is_digit(s[11])
    &&& spec_is_digit(s[12])
    &&& s[13] == ':'
    &&& spec_is_digit(s[14])
    &&& spec_is_digit(s[15])
    &&& s[16] == ':'
    &&& spec_is_digit(s[17])
    &&& spec_is_digit(s[18])
}

/// The wall-clock reading a `YYYY-MM-DDTHH:MM:SS` string names, or `None`
/// when the string has another shape or its components name no real day or
/// time.
pub open spec fn spec_parse_datetime(s: Seq<char>) -> Option<(CalendarDate, TimeOfDay)> {
    if spec_datetime_shape(s) {
        match spec_parse_date(s.subrange(0, 10)) {
            Some(date) => {
                let h = spec_num2(s, 11);
                let mi = spec_num2(s, 14);
                let sec = spec_num2(s, 17);
                if h <= 23 && mi <= 59 && sec <= 59 {
                    Some(
                        (date, TimeOfDay { hour: h as u8, minute: mi as u8, second: sec as u8 }),
                    )
                } else {
                    None
                }
            },
            None => None,
        }
    } else {
        None
    }
}

/// The digit a character stands for, if any.
fn digit_of(c: char) -> (r: Option<u8>)
    ensures
        r is Some <==> spec_is_digit(c),
        r is Some ==> r->0 as int == spec_digit_val(c),
{
    let u = c as u32;
    if 48 <= u && u <= 57 {
        Some((u - 48) as u8)
    } else {
        None
    }
}

/// Reads two digits of `s` starting at `i`.
fn num2_at(s: &str, i: usize) -> (r: Option<u8>)
    requires
        s@.len() <= usize::MAX,
        i + 2 <= s@.len(),
    ensures
        r is Some <==> spec_is_digit(s@[i as int]) && spec_is_digit(s@[i + 1]),
        r is Some ==> r->0 as int == spec_num2(s@, i as int),
{
    let c0 = digit_of(s.get_char(i));
    let c1 = digit_of(s.get_char(i + 1));
    match (c0, c1) {
        (Some(a), Some(b)) => Some(a * 10 + b),
        _ => None,
    }
}

/// Reads four digits of `s` starting at `i`.
fn num4_at(s: &str, i: usize) -> (r: Option<u16>)
    requires
        s@.len() <= usize::MAX,
        i + 4 <= s@.len(),
    ensures
        r is Some <==> spec_is_digit(s@[i as int]) && spec_is_digit(s@[i + 1]) && spec_is_digit(
            s@[i + 2],
        ) && spec_is_digit(s@[i + 3]),
        r is Some ==> r->0 as int == spec_num4(s@, i as int),
{
    let c0 = digit_of(s.get_char(i));
    let c1 = digit_of(s.get_char(i + 1));
    let c2 = digit_of(s.get_char(i + 2));
    let c3 = digit_of(s.get_char(i + 3));
    match (c0, c1, c2, c3) {
        (Some(a), Some(b), Some(c), Some(d)) => Some(
            a as u16 * 1000 + b as u16 * 100 + c as u16 * 10 + d as u16,
        ),
        _ => None,
    }
}

/// Parses a `YYYY-MM-DD` string into the day it names.
pub fn parse_date(s: &str) -> (r: Option<CalendarDate>)
    ensures
        r == spec_parse_date(s@),
{
    if s.unicode_len() != 10 {
        return None;
    }
    let y = num4_at(s, 0);
    let m = num2_at(s, 5);
    let d = num2_at(s, 8);
    if s.get_char(4) != '-' || s.get_char(7) != '-' {
        return None;
    }
    match (y, m, d) {
        (Some(y), Some(m), Some(d)) => {
            if 1 <= m && m <= 12 && 1 <= d && d <= days_in_month(y as i32, m as u8) {
                Some(CalendarDate { year: y as i32, month: m as u8, day: d as u8 })
            } else {
                None
            }
        },
        _ => None,
    }
}

/// Parses a `YYYY-MM-DDTHH:MM:SS` string into the reading it names.
pub fn parse_datetime(s: &str) -> (r: Option<(CalendarDate, TimeOfDay)>)
    ensures
        r == spec_parse_datetime(s@),
{
    if s.unicode_len() != 19 {
        return None;
    }
    let date_part = s.substring_char(0, 10);
    let date = match parse_date(date_part) {
        Some(d) => d,
        None => {
            return None;
        },
    };
    if s.get_char(10) != 'T' || s.get_char(13) != ':' || s.get_char(16) != ':' {
        return None;
    }
    let h = num2_at(s, 11);
    let mi = num2_at(s, 14);
    let sec = num2_at(s, 17);
    match (h, mi, sec) {
        (Some(h), Some(mi), Some(sec)) => {
            if h <= 23 && mi <= 59 && sec <= 59 {
                Some((date, TimeOfDay { hour: h, minute: mi, second: sec }))
            } else {
                None
            }
        },
        _ => None,
    }
}


/// A parsed date is a real day whose year fits in four digits.
pub proof fn lemma_parse_date_bounds(s: Seq<char>)
    ensures
        spec_parse_date(s) is Some ==> 0 <= spec_parse_date(s)->0.year <= 9999,
        spec_parse_date(s) is Some ==> spec_parse_date(s)->0.valid(),
{
    if spec_parse_date(s) is Some {
        assert(0 <= spec_digit_val(s[0]) <= 9);
        assert(0 <= spec_digit_val(s[1]) <= 9);
        assert(0 <= spec_digit_val(s[2]) <= 9);
        assert(0 <= spec_digit_val(s[3]) <= 9);
        assert(0 <= spec_num4(s, 0) <= 9999);
    }
}

/// A parsed date-time is a real day and time; the year fits in four digits.
pub proof fn lemma_parse_datetime_bounds(s: Seq<char>)
    ensures
        spec_parse_datetime(s) matches Some(dt) ==> 0 <= dt.0.year <= 9999 && dt.0.valid()
            && dt.1.valid(),
{
    if spec_parse_datetime(s) is Some {
        lemma_parse_date_bounds(s.subrange(0, 10));
    }
}

} // verus!
