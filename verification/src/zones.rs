//! The two places where the engine needs the timezone database.
//!
//! Everything else in the crate works on plain calendar components and epoch
//! seconds; only the mapping between instants and zoned wall-clock readings
//! comes from the `chrono` and `chrono-tz` crates, behind the two trusted
//! wrappers below.  Both results are deterministic functions of the instant,
//! the components and the zone name, so each is given a name that the rest of
//! the crate's contracts speak of.

use vstd::prelude::*;

use crate::dates::CalendarDate;
use crate::dates::TimeOfDay;
use chrono::Datelike;
use chrono::Offset;
use chrono::TimeZone;

verus! {

/// The (year, month, day) that the instant `secs` (seconds since the Unix
/// epoch) reads as on a wall clock of the zone named `tz`.
pub uninterp spec fn local_civil_date(secs: int, tz: Seq<char>) -> (int, int, int);

/// The instant (seconds since the Unix epoch) whose wall-clock reading in the
/// zone named `tz` is the given date and time, or `None` when no such instant
/// exists there.
pub uninterp spec fn local_instant(
    y: int,
    mo: int,
    d: int,
    h: int,
    mi: int,
    s: int,
    tz: Seq<char>,
) -> Option<int>;

/// Relies on `chrono_tz::Tz::from_str` (unknown zone names fall back to UTC),
/// `chrono::TimeZone::timestamp_opt` and the checked offset addition of
/// `chrono::NaiveDateTime`: the calendar date that an instant reads as in a
/// named zone depends only on the instant and the name, and is always a real
/// day of the Gregorian calendar.  An instant outside chrono's supported
/// range, or whose local reading in the zone leaves that range, reads as
/// 1970-01-01.
#[verifier::external_body]
pub(crate) fn civil_date_of(secs: i64, tz: &str) -> (r: CalendarDate)
    ensures
        r.valid(),
        ({
            let t = local_civil_date(secs as int, tz@);
            r.year as int == t.0 && r.month as int == t.1 && r.day as int == t.2
        }),
{
    let zone: chrono_tz::Tz = tz.parse().unwrap_or(chrono_tz::Tz::UTC);
    let local = match zone.timestamp_opt(secs, 0) {
        chrono::LocalResult::Single(dt) => dt.naive_utc().checked_add_offset(dt.offset().fix()),
        _ => None,
    };
    match local {
        Some(ndt) => {
            let d = ndt.date();
            CalendarDate { year: d.year(), month: d.month() as u8, day: d.day() as u8 }
        },
        None => CalendarDate { year: 1970, month: 1, day: 1 },
    }
}

/// Relies on `chrono_tz::Tz::from_str` (unknown zone names fall back to UTC)
/// and `chrono::TimeZone::from_local_datetime`: whether a wall-clock reading
/// exists in a named zone, and which instant it names, depend only on the
/// components and the name.  An ambiguous reading (a clock turned back) takes
/// the earlier instant; a reading inside a gap (a clock turned forward), an
/// invalid date or an out-of-range result give `None`.
#[verifier::external_body]
pub(crate) fn instant_of_civil(date: &CalendarDate, time: &TimeOfDay, tz: &str) -> (r: Option<
    i64,
>)
    ensures
        r is Some <==> local_instant(
            date.year as int,
            date.month as int,
            date.day as int,
            time.hour as int,
            time.minute as int,
            time.second as int,
            tz@,
        ) is Some,
        r is Some ==> r->0 as int == local_instant(
            date.year as int,
            date.month as int,
            date.day as int,
            time.hour as int,
            time.minute as int,
            time.second as int,
            tz@,
        )->0,
{
    let zone: chrono_tz::Tz = tz.parse().unwrap_or(chrono_tz::Tz::UTC);
    chrono::NaiveDate::from_ymd_opt(date.year, date.month as u32, date.day as u32)
        .and_then(|d| d.and_hms_opt(time.hour as u32, time.minute as u32, time.second as u32))
        .and_then(|ndt| zone.from_local_datetime(&ndt).earliest())
        .map(|dt| dt.timestamp())
}

} // verus!
