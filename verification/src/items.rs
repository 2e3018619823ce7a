//! Tasks and the urgency engine: due-date classification, temporal
//! predicates and the urgency score.
//!
//! Everything here is a pure function of the task, the configured default
//! timezone and a caller-supplied `now` (seconds since the Unix epoch).
//! Classification is recomputed on every call — "today" moves with `now`, so
//! nothing derived is ever cached on the task.

use vstd::prelude::*;

use crate::config::Config;
use crate::dates::CalendarDate;
use crate::dates::TimeOfDay;
use crate::dates::date_before;
use crate::dates::lemma_before_irreflexive;
use crate::parse::parse_date;
use crate::text::str_eq;
use crate::parse::parse_datetime;
use crate::parse::spec_parse_date;
use crate::parse::spec_parse_datetime;
use crate::zones::civil_date_of;
use crate::zones::instant_of_civil;
use crate::zones::local_civil_date;
use crate::zones::local_instant;

verus! {

/// One remote task.
#[derive(Clone, Debug)]
pub struct Item {
    pub id: String,
    pub content: String,
    pub priority: u8,
    pub checked: bool,
    pub description: String,
    pub due: Option<DateInfo>,
    pub is_deleted: bool,
}

/// The optional deadline of a task: a due string in one of two shapes, a
/// recurrence flag, and an optional zone of its own.
#[derive(Clone, Debug)]
pub struct DateInfo {
    pub date: String,
    pub is_recurring: bool,
    pub timezone: Option<String>,
}

/// What a due string resolves to: nothing, a day, or a zoned instant.
#[derive(Clone, Copy, Debug, PartialEq, Eq, Structural)]
pub enum DateTimeInfo {
    NoDateTime,
    Date { date: CalendarDate, is_recurring: bool },
    DateTime { date: CalendarDate, time: TimeOfDay, instant: i64, is_recurring: bool },
}

/// Why a due string failed to resolve.
#[derive(Clone, Copy, Debug, PartialEq, Eq, Structural)]
pub enum ParseError {
    /// A 10-character due string that is not a well-formed calendar date.
    MalformedDate,
    /// A due string of any other length that is not a well-formed date-time,
    /// or a wall-clock reading that does not exist in its zone.
    MalformedDateTime,
}

/// The default zone name: the configured one, else UTC.
pub open spec fn spec_default_tz(tz: Option<String>) -> Seq<char> {
    match tz {
        Some(t) => t@,
        None => "UTC"@,
    }
}

/// The zone a task's due string is read in: the task's own, else the default.
pub open spec fn spec_resolved_tz(item: Item, default_tz: Option<String>) -> Seq<char> {
    match item.due {
        Some(di) => match di.timezone {
            Some(t) => t@,
            None => spec_default_tz(default_tz),
        },
        None => spec_default_tz(default_tz),
    }
}

/// The day that the instant `now` reads as in the zone named `tz`.
pub open spec fn spec_today_date(now: int, tz: Seq<char>) -> CalendarDate {
    let t = local_civil_date(now, tz);
    CalendarDate { year: t.0 as i32, month: t.1 as u8, day: t.2 as u8 }
}

/// Today from the task's point of view: `now` read in the task's zone.
pub open spec fn spec_today(item: Item, default_tz: Option<String>, now: int) -> CalendarDate {
    spec_today_date(now, spec_resolved_tz(item, default_tz))
}

/// What a task's due info resolves to.  A 10-character due string is a
/// calendar date; any other is a date-time, whose instant is the wall-clock
/// reading taken in the resolved zone.
pub open spec fn spec_classify(item: Item, default_tz: Option<String>) -> Result<
    DateTimeInfo,
    ParseError,
> {
    match item.due {
        None => Ok(DateTimeInfo::NoDateTime),
        Some(di) => {
            if di.date@.len() == 10 {
                match spec_parse_date(di.date@) {
                    Some(date) => Ok(
                        DateTimeInfo::Date { date, is_recurring: di.is_recurring },
                    ),
                    None => Err(ParseError::MalformedDate),
                }
            } else {
                match spec_parse_datetime(di.date@) {
                    Some(dt) => {
                        match local_instant(
                            dt.0.year as int,
                            dt.0.month as int,
                            dt.0.day as int,
                            dt.1.hour as int,
                            dt.1.minute as int,
                            dt.1.second as int,
                            spec_resolved_tz(item, default_tz),
                        ) {
                            Some(secs) => Ok(
                                DateTimeInfo::DateTime {
                                    date: dt.0,
                                    time: dt.1,
                                    instant: secs as i64,
                                    is_recurring: di.is_recurring,
                                },
                            ),
                            None => Err(ParseError::MalformedDateTime),
                        }
                    },
                    None => Err(ParseError::MalformedDateTime),
                }
            }
        },
    }
}

/// The task has no deadline at all.
pub open spec fn spec_has_no_date(item: Item) -> bool {
    item.due is None
}

/// The task's due day equals today in its zone; a task without a deadline or
/// with an unreadable due string is not due today.
pub open spec fn spec_is_today(item: Item, default_tz: Option<String>, now: int) -> bool {
    match spec_classify(item, default_tz) {
        Ok(DateTimeInfo::NoDateTime) => false,
        Ok(DateTimeInfo::Date { date, .. }) => date == spec_today(item, default_tz, now),
        Ok(DateTimeInfo::DateTime { date, .. }) => date == spec_today(item, default_tz, now),
        Err(_) => false,
    }
}

/// The task's due day lies strictly before today in its zone.  Only the day
/// is compared: a timed task due earlier today is not yet overdue.
pub open spec fn spec_is_overdue(item: Item, default_tz: Option<String>, now: int) -> bool {
    match spec_classify(item, default_tz) {
        Ok(DateTimeInfo::NoDateTime) => false,
        Ok(DateTimeInfo::Date { date, .. }) => date.before(spec_today(item, default_tz, now)),
        Ok(DateTimeInfo::DateTime { date, .. }) => date.before(
            spec_today(item, default_tz, now),
        ),
        Err(_) => false,
    }
}

/// The task resolves to a zoned instant, carrying a time of day.
pub open spec fn spec_has_time(item: Item, default_tz: Option<String>) -> bool {
    match spec_classify(item, default_tz) {
        Ok(DateTimeInfo::DateTime { .. }) => true,
        _ => false,
    }
}

/// The instant lies within fifteen whole minutes of `now`, either side:
/// the signed difference in seconds, truncated to whole minutes, is in
/// [-15, 15], which holds exactly of differences in [-959, 959] seconds.
pub open spec fn spec_within_window(instant: int, now: int) -> bool {
    -959 <= instant - now <= 959
}

/// The date-derived part of the urgency score.
///
/// No deadline contributes a fixed 80.  A calendar date adds 100 when it is
/// today, 150 when it lies in the past, and 50 when not recurring.  A zoned
/// instant adds 200 when within the fifteen-minute window of `now`, plus the
/// same 50 when not recurring.  An unreadable due string contributes a fixed
/// fallback of 50.
pub open spec fn spec_date_component(item: Item, default_tz: Option<String>, now: int) -> int {
    match spec_classify(item, default_tz) {
        Ok(DateTimeInfo::NoDateTime) => 80,
        Ok(DateTimeInfo::Date { date, is_recurring }) => {
            let today = spec_today(item, default_tz, now);
            (if date == today {
                100int
            } else {
                0int
            }) + (if date.before(today) {
                150int
            } else {
                0int
            }) + (if is_recurring {
                0int
            } else {
                50int
            })
        },
        Ok(DateTimeInfo::DateTime { instant, is_recurring, .. }) => {
            (if spec_within_window(instant as int, now) {
                200int
            } else {
                0int
            }) + (if is_recurring {
                0int
            } else {
                50int
            })
        },
        Err(_) => 50,
    }
}

/// The priority-derived part of the urgency score: a total remap of the
/// stored level.  Stored 2, 3, 4 contribute 1, 3, 4; every other stored
/// value, the default level included, contributes 2.
pub open spec fn spec_priority_value(p: u8) -> int {
    if p == 2 {
        1
    } else if p == 3 {
        3
    } else if p == 4 {
        4
    } else {
        2
    }
}

/// The urgency score: date component plus priority component.  Higher
/// surfaces first; the value only orders tasks within one call.
pub open spec fn spec_score(item: Item, default_tz: Option<String>, now: int) -> int {
    spec_date_component(item, default_tz, now) + spec_priority_value(item.priority)
}

/// The sort key of the due-instant order: the instant when the task has one.
pub open spec fn spec_datetime_key(item: Item, default_tz: Option<String>) -> Option<i64> {
    match spec_classify(item, default_tz) {
        Ok(DateTimeInfo::DateTime { instant, .. }) => Some(instant),
        _ => None,
    }
}

/// The configured default zone's name, else "UTC".
fn default_tz_name<'a>(config: &'a Config) -> (r: &'a str)
    ensures
        r@ == spec_default_tz(config.timezone),
{
    match &config.timezone {
        Some(t) => t.as_str(),
        None => "UTC",
    }
}

/// The name of the zone the task's due string is read in.
fn tz_name<'a>(item: &'a Item, config: &'a Config) -> (r: &'a str)
    ensures
        r@ == spec_resolved_tz(*item, config.timezone),
{
    match &item.due {
        Some(di) => match &di.timezone {
            Some(t) => t.as_str(),
            None => default_tz_name(config),
        },
        None => default_tz_name(config),
    }
}

impl Item {
    /// Today in the item's zone at the instant `now`.
    fn today_of(&self, config: &Config, now: i64) -> (r: CalendarDate)
        ensures
            r == spec_today(*self, config.timezone, now as int),
            r.valid(),
    {
        civil_date_of(now, tz_name(self, config))
    }

    /// Resolves the due info into its classification, reading the due string
    /// in the task's zone.  `Err` names the malformed shape; a task without
    /// due info resolves to `NoDateTime`.
    pub fn datetimeinfo(&self, config: &Config) -> (r: Result<DateTimeInfo, ParseError>)
        ensures
            r == spec_classify(*self, config.timezone),
    {
        let di = match &self.due {
            None => {
                return Ok(DateTimeInfo::NoDateTime);
            },
            Some(di) => di,
        };
        if di.date.unicode_len() == 10 {
            match parse_date(di.date.as_str()) {
                Some(date) => Ok(DateTimeInfo::Date { date, is_recurring: di.is_recurring }),
                None => Err(ParseError::MalformedDate),
            }
        } else {
            match parse_datetime(di.date.as_str()) {
                Some((date, time)) => {
                    match instant_of_civil(&date, &time, tz_name(self, config)) {
                        Some(instant) => Ok(
                            DateTimeInfo::DateTime {
                                date,
                                time,
                                instant,
                                is_recurring: di.is_recurring,
                            },
                        ),
                        None => Err(ParseError::MalformedDateTime),
                    }
                },
                None => Err(ParseError::MalformedDateTime),
            }
        }
    }

    /// The task has no deadline.
    pub fn has_no_date(&self) -> (r: bool)
        ensures
            r == spec_has_no_date(*self),
    {
        self.due.is_none()
    }

    /// The task's due day equals today in its zone.
    pub fn is_today(&self, config: &Config, now: i64) -> (r: bool)
        ensures
            r == spec_is_today(*self, config.timezone, now as int),
    {
        match self.datetimeinfo(config) {
            Ok(DateTimeInfo::NoDateTime) => false,
            Ok(DateTimeInfo::Date { date, .. }) => {
                let today = self.today_of(config, now);
                date == today
            },
            Ok(DateTimeInfo::DateTime { date, .. }) => {
                let today = self.today_of(config, now);
                date == today
            },
            Err(_) => false,
        }
    }

    /// The task's due day lies strictly before today in its zone.
    pub fn is_overdue(&self, config: &Config, now: i64) -> (r: bool)
        ensures
            r == spec_is_overdue(*self, config.timezone, now as int),
    {
        match self.datetimeinfo(config) {
            Ok(DateTimeInfo::NoDateTime) => false,
            Ok(DateTimeInfo::Date { date, .. }) => {
                let today = self.today_of(config, now);
                date_before(&date, &today)
            },
            Ok(DateTimeInfo::DateTime { date, .. }) => {
                let today = self.today_of(config, now);
                date_before(&date, &today)
            },
            Err(_) => false,
        }
    }

    /// The task resolves to a zoned instant.
    pub fn has_time(&self, config: &Config) -> (r: bool)
        ensures
            r == spec_has_time(*self, config.timezone),
    {
        match self.datetimeinfo(config) {
            Ok(DateTimeInfo::DateTime { .. }) => true,
            _ => false,
        }
    }

    /// The instant the task is due, when it has one.
    pub fn datetime(&self, config: &Config) -> (r: Option<i64>)
        ensures
            r == spec_datetime_key(*self, config.timezone),
    {
        match self.datetimeinfo(config) {
            Ok(DateTimeInfo::DateTime { instant, .. }) => Some(instant),
            _ => None,
        }
    }

    /// The date-derived part of the urgency score.
    pub fn date_value(&self, config: &Config, now: i64) -> (r: u8)
        ensures
            r as int == spec_date_component(*self, config.timezone, now as int),
    {
        match self.datetimeinfo(config) {
            Ok(DateTimeInfo::NoDateTime) => 80,
            Ok(DateTimeInfo::Date { date, is_recurring }) => {
                let today = self.today_of(config, now);
                proof {
                    lemma_before_irreflexive(date, today);
                }
                let today_value: u8 = if date == today {
                    100
                } else {
                    0
                };
                let overdue_value: u8 = if date_before(&date, &today) {
                    150
                } else {
                    0
                };
                let recurring_value: u8 = if is_recurring {
                    0
                } else {
                    50
                };
                today_value + overdue_value + recurring_value
            },
            Ok(DateTimeInfo::DateTime { instant, is_recurring, .. }) => {
                let recurring_value: u8 = if is_recurring {
                    0
                } else {
                    50
                };
                let diff: i128 = instant as i128 - now as i128;
                if -959 <= diff && diff <= 959 {
                    200 + recurring_value
                } else {
                    recurring_value
                }
            },
            Err(_) => 50,
        }
    }

    /// The priority-derived part of the urgency score.
    pub fn priority_value(&self) -> (r: u8)
        ensures
            r as int == spec_priority_value(self.priority),
    {
        match self.priority {
            2 => 1,
            3 => 3,
            4 => 4,
            _ => 2,
        }
    }

    /// The urgency score of the task at `now`.
    pub fn value(&self, config: &Config, now: i64) -> (r: u32)
        ensures
            r as int == spec_score(*self, config.timezone, now as int),
    {
        let date_value = self.date_value(config, now);
        let priority_value = self.priority_value();
        date_value as u32 + priority_value as u32
    }
}


/// An order as a value: `prec(a, b)` says `a` must stand strictly before `b`.
pub open spec fn spec_value_order(tz: Option<String>, now: int) -> spec_fn(Item, Item) -> bool {
    |a: Item, b: Item| spec_score(a, tz, now) > spec_score(b, tz, now)
}

/// Ascending order on optional instants; a missing instant sorts first.
pub open spec fn spec_key_lt(a: Option<i64>, b: Option<i64>) -> bool {
    match (a, b) {
        (None, Some(_)) => true,
        (Some(x), Some(y)) => x < y,
        _ => false,
    }
}

/// The due-instant order: ascending by instant, tasks without one first.
pub open spec fn spec_datetime_order(tz: Option<String>) -> spec_fn(Item, Item) -> bool {
    |a: Item, b: Item| spec_key_lt(spec_datetime_key(a, tz), spec_datetime_key(b, tz))
}

/// Stable insertion: `x` goes in front of the first element it must precede,
/// so behind every element it ties with.
pub open spec fn spec_insert_ord(
    s: Seq<Item>,
    x: Item,
    prec: spec_fn(Item, Item) -> bool,
) -> Seq<Item>
    decreases s.len(),
{
    if s.len() == 0 {
        seq![x]
    } else if prec(x, s[0]) {
        seq![x] + s
    } else {
        seq![s[0]] + spec_insert_ord(s.drop_first(), x, prec)
    }
}

/// Stable insertion sort: elements are inserted in input order, so ties keep
/// their relative input order.
pub open spec fn spec_sort_ord(s: Seq<Item>, prec: spec_fn(Item, Item) -> bool) -> Seq<Item>
    decreases s.len(),
{
    if s.len() == 0 {
        Seq::empty()
    } else {
        spec_insert_ord(spec_sort_ord(s.drop_last(), prec), s.last(), prec)
    }
}

/// What `sort_by_value` returns: the stable descending sort by score.
pub open spec fn spec_sort_by_value(s: Seq<Item>, tz: Option<String>, now: int) -> Seq<Item> {
    spec_sort_ord(s, spec_value_order(tz, now))
}

/// What `sort_by_datetime` returns: the stable ascending sort by due instant,
/// tasks without one first.
pub open spec fn spec_sort_by_datetime(s: Seq<Item>, tz: Option<String>) -> Seq<Item> {
    spec_sort_ord(s, spec_datetime_order(tz))
}

/// A task is actionable when it is due today, has no deadline, or is
/// overdue — everything but a task scheduled strictly in the future.
pub open spec fn spec_actionable(item: Item, tz: Option<String>, now: int) -> bool {
    spec_is_today(item, tz, now) || spec_has_no_date(item) || spec_is_overdue(item, tz, now)
}

/// The actionable test as a value, for stating what the filter keeps.
pub open spec fn spec_actionable_pred(tz: Option<String>, now: int) -> spec_fn(Item) -> bool {
    |it: Item| spec_actionable(it, tz, now)
}

/// Due this moment: due today with a clock time attached.
pub open spec fn spec_due_now_pred(tz: Option<String>, now: int) -> spec_fn(Item) -> bool {
    |it: Item| spec_is_today(it, tz, now) && spec_has_time(it, tz)
}

/// Inserting at the position the requirements describe is what
/// `spec_insert_ord` does.
proof fn lemma_insert_ord_at(s: Seq<Item>, x: Item, prec: spec_fn(Item, Item) -> bool, p: int)
    requires
        0 <= p <= s.len(),
        forall|j: int| 0 <= j < p ==> !prec(x, s[j]),
        p < s.len() ==> prec(x, s[p]),
    ensures
        spec_insert_ord(s, x, prec) == s.insert(p, x),
    decreases s.len(),
{
    if s.len() == 0 {
        assert(spec_insert_ord(s, x, prec) =~= s.insert(p, x));
    } else if prec(x, s[0]) {
        assert(p == 0);
        assert(spec_insert_ord(s, x, prec) =~= s.insert(0, x));
    } else {
        assert(p >= 1);
        lemma_insert_ord_at(s.drop_first(), x, prec, p - 1);
        assert(spec_insert_ord(s, x, prec) =~= s.insert(p, x));
    }
}

/// The first position whose element scores strictly under `vx`.
fn find_pos_value(out: &Vec<Item>, vx: u32, config: &Config, now: i64) -> (p: usize)
    ensures
        p <= out@.len(),
        forall|j: int|
            0 <= j < p ==> spec_score(out@[j], config.timezone, now as int) >= vx as int,
        p < out@.len() ==> spec_score(out@[p as int], config.timezone, now as int) < vx as int,
{
    let mut p: usize = 0;
    while p < out.len()
        invariant
            p <= out@.len(),
            forall|j: int|
                0 <= j < p ==> spec_score(out@[j], config.timezone, now as int) >= vx as int,
        decreases out@.len() - p,
    {
        if out[p].value(config, now) < vx {
            return p;
        }
        p += 1;
    }
    p
}

/// Whether `a` sorts strictly before `b` in the due-instant order.
fn key_lt(a: &Option<i64>, b: &Option<i64>) -> (r: bool)
    ensures
        r == spec_key_lt(*a, *b),
{
    match (a, b) {
        (None, Some(_)) => true,
        (Some(x), Some(y)) => *x < *y,
        _ => false,
    }
}

/// The first position whose element the key `kx` must precede.
fn find_pos_datetime(out: &Vec<Item>, kx: &Option<i64>, config: &Config) -> (p: usize)
    ensures
        p <= out@.len(),
        forall|j: int|
            0 <= j < p ==> !spec_key_lt(*kx, spec_datetime_key(out@[j], config.timezone)),
        p < out@.len() ==> spec_key_lt(*kx, spec_datetime_key(out@[p as int], config.timezone)),
{
    let mut p: usize = 0;
    while p < out.len()
        invariant
            p <= out@.len(),
            forall|j: int|
                0 <= j < p ==> !spec_key_lt(*kx, spec_datetime_key(out@[j], config.timezone)),
        decreases out@.len() - p,
    {
        let key_p = out[p].datetime(config);
        if key_lt(kx, &key_p) {
            return p;
        }
        p += 1;
    }
    p
}

/// Stable sort, most urgent first: descending by score, ties in input order.
pub fn sort_by_value(items: Vec<Item>, config: &Config, now: i64) -> (r: Vec<Item>)
    ensures
        r@ == spec_sort_by_value(items@, config.timezone, now as int),
{
    let ghost prec = spec_value_order(config.timezone, now as int);
    let ghost orig = items@;
    let mut rest = items;
    let mut out: Vec<Item> = Vec::new();
    let ghost mut k: int = 0;
    while rest.len() > 0
        invariant
            0 <= k <= orig.len(),
            k + rest@.len() == orig.len(),
            rest@ =~= orig.subrange(k, orig.len() as int),
            out@ == spec_sort_ord(orig.subrange(0, k), prec),
            prec == spec_value_order(config.timezone, now as int),
        decreases rest@.len(),
    {
        let x = rest.remove(0);
        proof {
            assert(x == orig[k]);
            assert(rest@ =~= orig.subrange(k + 1, orig.len() as int));
        }
        let vx = x.value(config, now);
        let p = find_pos_value(&out, vx, config, now);
        let ghost out_before = out@;
        proof {
            lemma_insert_ord_at(out_before, x, prec, p as int);
        }
        out.insert(p, x);
        proof {
            assert(out@ == spec_insert_ord(out_before, x, prec));
            assert(orig.subrange(0, k + 1).drop_last() =~= orig.subrange(0, k));
            assert(orig.subrange(0, k + 1).last() == orig[k]);
            assert(out@ == spec_sort_ord(orig.subrange(0, k + 1), prec));
            k = k + 1;
        }
    }
    proof {
        assert(orig.subrange(0, k) =~= orig);
    }
    out
}

/// Stable sort by due instant, earliest first; tasks without an instant come
/// first, in input order.
pub fn sort_by_datetime(items: Vec<Item>, config: &Config) -> (r: Vec<Item>)
    ensures
        r@ == spec_sort_by_datetime(items@, config.timezone),
{
    let ghost prec = spec_datetime_order(config.timezone);
    let ghost orig = items@;
    let mut rest = items;
    let mut out: Vec<Item> = Vec::new();
    let ghost mut k: int = 0;
    while rest.len() > 0
        invariant
            0 <= k <= orig.len(),
            k + rest@.len() == orig.len(),
            rest@ =~= orig.subrange(k, orig.len() as int),
            out@ == spec_sort_ord(orig.subrange(0, k), prec),
            prec == spec_datetime_order(config.timezone),
        decreases rest@.len(),
    {
        let x = rest.remove(0);
        proof {
            assert(x == orig[k]);
            assert(rest@ =~= orig.subrange(k + 1, orig.len() as int));
        }
        let kx = x.datetime(config);
        let p = find_pos_datetime(&out, &kx, config);
        let ghost out_before = out@;
        proof {
            lemma_insert_ord_at(out_before, x, prec, p as int);
        }
        out.insert(p, x);
        proof {
            assert(out@ == spec_insert_ord(out_before, x, prec));
            assert(orig.subrange(0, k + 1).drop_last() =~= orig.subrange(0, k));
            assert(orig.subrange(0, k + 1).last() == orig[k]);
            assert(out@ == spec_sort_ord(orig.subrange(0, k + 1), prec));
            k = k + 1;
        }
    }
    proof {
        assert(orig.subrange(0, k) =~= orig);
    }
    out
}

/// Keeps the actionable tasks: due today, without a deadline, or overdue.
/// One unreadable due string never fails the call — such a task is simply
/// not actionable — so the result is always `Ok`.
pub fn filter_not_in_future(items: Vec<Item>, config: &Config, now: i64) -> (r: Result<
    Vec<Item>,
    ParseError,
>)
    ensures
        r is Ok,
        r->Ok_0@ == items@.filter(spec_actionable_pred(config.timezone, now as int)),
{
    let ghost pred = spec_actionable_pred(config.timezone, now as int);
    let ghost orig = items@;
    let mut rest = items;
    let mut out: Vec<Item> = Vec::new();
    let ghost mut k: int = 0;
    while rest.len() > 0
        invariant
            0 <= k <= orig.len(),
            k + rest@.len() == orig.len(),
            rest@ =~= orig.subrange(k, orig.len() as int),
            out@ == orig.subrange(0, k).filter(pred),
            pred == spec_actionable_pred(config.timezone, now as int),
        decreases rest@.len(),
    {
        let x = rest.remove(0);
        proof {
            assert(x == orig[k]);
            assert(rest@ =~= orig.subrange(k + 1, orig.len() as int));
        }
        let keep = x.is_today(config, now) || x.has_no_date() || x.is_overdue(config, now);
        if keep {
            out.push(x);
        }
        proof {
            reveal_with_fuel(Seq::<_>::filter, 2);
            assert(orig.subrange(0, k + 1).drop_last() =~= orig.subrange(0, k));
            assert(orig.subrange(0, k + 1).last() == orig[k]);
            assert(out@ == orig.subrange(0, k + 1).filter(pred));
            k = k + 1;
        }
    }
    proof {
        assert(orig.subrange(0, k) =~= orig);
    }
    Ok(out)
}

/// Keeps the tasks to act on this moment: due today with a clock time.
pub fn filter_today_and_has_time(items: Vec<Item>, config: &Config, now: i64) -> (r: Vec<Item>)
    ensures
        r@ == items@.filter(spec_due_now_pred(config.timezone, now as int)),
{
    let ghost pred = spec_due_now_pred(config.timezone, now as int);
    let ghost orig = items@;
    let mut rest = items;
    let mut out: Vec<Item> = Vec::new();
    let ghost mut k: int = 0;
    while rest.len() > 0
        invariant
            0 <= k <= orig.len(),
            k + rest@.len() == orig.len(),
            rest@ =~= orig.subrange(k, orig.len() as int),
            out@ == orig.subrange(0, k).filter(pred),
            pred == spec_due_now_pred(config.timezone, now as int),
        decreases rest@.len(),
    {
        let x = rest.remove(0);
        proof {
            assert(x == orig[k]);
            assert(rest@ =~= orig.subrange(k + 1, orig.len() as int));
        }
        let keep = x.is_today(config, now) && x.has_time(config);
        if keep {
            out.push(x);
        }
        proof {
            reveal_with_fuel(Seq::<_>::filter, 2);
            assert(orig.subrange(0, k + 1).drop_last() =~= orig.subrange(0, k));
            assert(orig.subrange(0, k + 1).last() == orig[k]);
            assert(out@ == orig.subrange(0, k + 1).filter(pred));
            k = k + 1;
        }
    }
    proof {
        assert(orig.subrange(0, k) =~= orig);
    }
    out
}


/// The interactive priority choice: the user types 1, 2 or 3 (lowest to
/// highest); the remote service stores those as levels 2, 3 and 4.  Any
/// other input names no level.
pub fn priority_from_input(choice: &str) -> (r: Option<u8>)
    ensures
        r == if choice@ == "1"@ {
            Some(2u8)
        } else if choice@ == "2"@ {
            Some(3u8)
        } else if choice@ == "3"@ {
            Some(4u8)
        } else {
            None::<u8>
        },
{
    if str_eq(choice, "1") {
        Some(2)
    } else if str_eq(choice, "2") {
        Some(3)
    } else if str_eq(choice, "3") {
        Some(4)
    } else {
        None
    }
}

} // verus!
