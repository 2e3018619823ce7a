//! Plain-value calendar dates and times of day.
//!
//! Due dates are modelled as their civil components (year, month, day and
//! optionally hour, minute, second) so that classification, comparison and
//! scoring are ordinary verified arithmetic.  Only the timezone database is
//! left to an outside crate (see `zones`).

use vstd::prelude::*;

verus! {

/// A date of the proleptic Gregorian calendar, held as plain components.
#[derive(Clone, Copy, Debug, PartialEq, Eq, Structural)]
pub struct CalendarDate {
    pub year: i32,
    pub month: u8,
    pub day: u8,
}

/// A wall-clock time of day, held as plain components.
#[derive(Clone, Copy, Debug, PartialEq, Eq, Structural)]
pub struct TimeOfDay {
    pub hour: u8,
    pub minute: u8,
    pub second: u8,
}

pub open spec fn spec_is_leap_year(y: int) -> bool {
    (y % 4 == 0 && y % 100 != 0) || y % 400 == 0
}

pub open spec fn spec_days_in_month(y: int, m: int) -> int {
    if m == 2 {
        if spec_is_leap_year(y) {
            29
        } else {
            28
        }
    } else if m == 4 || m == 6 || m == 9 || m == 11 {
        30
    } else {
        31
    }
}

impl CalendarDate {
    /// The components name a real day of the calendar.
    pub open spec fn valid(self) -> bool {
        &&& 1 <= self.month <= 12
        &&& 1 <= self.day <= spec_days_in_month(self.year as int, self.month as int)
    }

    /// Strict order of days: lexicographic on (year, month, day).
    pub open spec fn before(self, other: CalendarDate) -> bool {
        ||| self.year < other.year
        ||| (self.year == other.year && self.month < other.month)
        ||| (self.year == other.year && self.month == other.month && self.day < other.day)
    }
}

impl TimeOfDay {
    pub open spec fn valid(self) -> bool {
        self.hour <= 23 && self.minute <= 59 && self.second <= 59
    }
}

/// A date never precedes itself: `before` is a strict order.
pub proof fn lemma_before_irreflexive(a: CalendarDate, b: CalendarDate)
    ensures
        a == b ==> !a.before(b),
        a.before(b) ==> a != b,
{
}

/// Leap years of the Gregorian calendar, for years at or after year zero.
pub fn is_leap_year(y: i32) -> (r: bool)
    requires
        y >= 0,
    ensures
        r == spec_is_leap_year(y as int),
{
    (y % 4 == 0 && y % 100 != 0) || y % 400 == 0
}

/// How many days the given month of the given year has.
pub fn days_in_month(y: i32, m: u8) -> (r: u8)
    requires
        y >= 0,
    ensures
        r as int == spec_days_in_month(y as int, m as int),
{
    if m == 2 {
        if is_leap_year(y) {
            29
        } else {
            28
        }
    } else if m == 4 || m == 6 || m == 9 || m == 11 {
        30
    } else {
        31
    }
}

/// Whether `a` names a strictly earlier day than `b`.
pub fn date_before(a: &CalendarDate, b: &CalendarDate) -> (r: bool)
    ensures
        r == a.before(*b),
{
    a.year < b.year
    || (a.year == b.year && a.month < b.month)
    || (a.year == b.year && a.month == b.month && a.day < b.day)
}

} // verus!
