//! Rendering dates, times and due descriptions as text.
//!
//! The display layer receives, per task, a human-readable due string:
//! calendar dates render as `Due: YYYY-MM-DD`, zoned date-times as
//! `Due: YYYY-MM-DD HH:MM`, both with a trailing recurrence marker when the
//! deadline recurs, and an unreadable due string renders as its error text
//! instead.

use vstd::prelude::*;

use crate::config::Config;
use crate::dates::CalendarDate;
use crate::dates::TimeOfDay;
use crate::items::DateTimeInfo;
use crate::items::Item;
use crate::items::ParseError;
use crate::items::spec_classify;

verus! {

/// The character of one decimal digit.
pub open spec fn spec_digit_char(d: int) -> char {
    if d == 0 {
        '0'
    } else if d == 1 {
        '1'
    } else if d == 2 {
        '2'
    } else if d == 3 {
        '3'
    } else if d == 4 {
        '4'
    } else if d == 5 {
        '5'
    } else if d == 6 {
        '6'
    } else if d == 7 {
        '7'
    } else if d == 8 {
        '8'
    } else {
        '9'
    }
}

/// Two decimal digits, zero-padded.
pub open spec fn spec_render2(n: int) -> Seq<char> {
    seq![spec_digit_char(n / 10 % 10), spec_digit_char(n % 10)]
}

/// Four decimal digits, zero-padded.
pub open spec fn spec_render4(n: int) -> Seq<char> {
    seq![
        spec_digit_char(n / 1000 % 10),
        spec_digit_char(n / 100 % 10),
        spec_digit_char(n / 10 % 10),
        spec_digit_char(n % 10),
    ]
}

/// A date as `YYYY-MM-DD`.
pub open spec fn spec_render_date(d: CalendarDate) -> Seq<char> {
    spec_render4(d.year as int) + seq!['-'] + spec_render2(d.month as int) + seq!['-']
        + spec_render2(d.day as int)
}

/// A time of day as `HH:MM`.
pub open spec fn spec_render_time(t: TimeOfDay) -> Seq<char> {
    spec_render2(t.hour as int) + seq![':'] + spec_render2(t.minute as int)
}

/// One digit as a string slice.
fn digit_str(d: u8) -> (r: &'static str)
    requires
        d < 10,
    ensures
        r@ == seq![spec_digit_char(d as int)],
{
    let s: &'static str = match d {
        0 => "0",
        1 => "1",
        2 => "2",
        3 => "3",
        4 => "4",
        5 => "5",
        6 => "6",
        7 => "7",
        8 => "8",
        _ => "9",
    };
    proof {
        reveal_strlit("0");
        reveal_strlit("1");
        reveal_strlit("2");
        reveal_strlit("3");
        reveal_strlit("4");
        reveal_strlit("5");
        reveal_strlit("6");
        reveal_strlit("7");
        reveal_strlit("8");
        reveal_strlit("9");
        assert(s@ =~= seq![spec_digit_char(d as int)]);
    }
    s
}

/// Appends `n` as two zero-padded digits.
fn push2(out: &mut String, n: u8)
    requires
        n < 100,
    ensures
        final(out)@ == old(out)@ + spec_render2(n as int),
{
    out.append(digit_str(n / 10));
    out.append(digit_str(n % 10));
    proof {
        assert(n as int / 10 % 10 == n as int / 10);
        assert(old(out)@ + seq![spec_digit_char(n as int / 10 % 10)] + seq![
            spec_digit_char(n as int % 10),
        ] =~= old(out)@ + spec_render2(n as int));
    }
}

/// Appends `n` as four zero-padded digits.
fn push4(out: &mut String, n: u16)
    requires
        n < 10000,
    ensures
        final(out)@ == old(out)@ + spec_render4(n as int),
{
    out.append(digit_str((n / 1000) as u8));
    out.append(digit_str((n / 100 % 10) as u8));
    out.append(digit_str((n / 10 % 10) as u8));
    out.append(digit_str((n % 10) as u8));
    proof {
        assert(n as int / 1000 % 10 == n as int / 1000);
        assert(old(out)@ + seq![spec_digit_char(n as int / 1000 % 10)] + seq![
            spec_digit_char(n as int / 100 % 10),
        ] + seq![spec_digit_char(n as int / 10 % 10)] + seq![spec_digit_char(n as int % 10)] =~= old(
            out,
        )@ + spec_render4(n as int));
    }
}

/// A date rendered as `YYYY-MM-DD`.
pub fn render_date(d: &CalendarDate) -> (r: String)
    requires
        0 <= d.year <= 9999,
        d.valid(),
    ensures
        r@ == spec_render_date(*d),
{
    let mut out = String::new();
    push4(&mut out, d.year as u16);
    out.append("-");
    push2(&mut out, d.month);
    out.append("-");
    push2(&mut out, d.day);
    proof {
        reveal_strlit("-");
        assert(out@ =~= spec_render_date(*d));
    }
    out
}

/// A time rendered as `HH:MM`.
pub fn render_time(t: &TimeOfDay) -> (r: String)
    requires
        t.valid(),
    ensures
        r@ == spec_render_time(*t),
{
    let mut out = String::new();
    push2(&mut out, t.hour);
    out.append(":");
    push2(&mut out, t.minute);
    proof {
        reveal_strlit(":");
        assert(out@ =~= spec_render_time(*t));
    }
    out
}

/// The due description handed to the display layer, per task.
pub open spec fn spec_due_description(item: Item, default_tz: Option<String>) -> Seq<char> {
    match spec_classify(item, default_tz) {
        Ok(DateTimeInfo::NoDateTime) => Seq::<char>::empty(),
        Ok(DateTimeInfo::Date { date, is_recurring }) => "Due: "@ + spec_render_date(date) + (
        if is_recurring {
            " ↻"@
        } else {
            Seq::<char>::empty()
        }),
        Ok(DateTimeInfo::DateTime { date, time, is_recurring, .. }) => "Due: "@
            + spec_render_date(date) + " "@ + spec_render_time(time) + (if is_recurring {
            " ↻"@
        } else {
            Seq::<char>::empty()
        }),
        Err(ParseError::MalformedDate) => "Invalid date string"@,
        Err(ParseError::MalformedDateTime) => "Invalid datetime string"@,
    }
}

impl Item {
    /// Renders the task's deadline for display: the date or date-time, a
    /// recurrence marker when it recurs, the error text when the due string
    /// is unreadable, and nothing when there is no deadline.
    pub fn due_description(&self, config: &Config) -> (r: String)
        ensures
            r@ == spec_due_description(*self, config.timezone),
    {
        match self.datetimeinfo(config) {
            Ok(DateTimeInfo::NoDateTime) => {
                let r = String::new();
                proof {
                    assert(r@ =~= spec_due_description(*self, config.timezone));
                }
                r
            },
            Ok(DateTimeInfo::Date { date, is_recurring }) => {
                proof {
                    crate::parse::lemma_parse_date_bounds(
                        match &self.due {
                            Some(di) => di.date@,
                            None => Seq::<char>::empty(),
                        },
                    );
                }
                let mut out = String::from_str("Due: ");
                out.append(render_date(&date).as_str());
                if is_recurring {
                    out.append(" ↻");
                }
                proof {
                    assert(out@ =~= spec_due_description(*self, config.timezone));
                }
                out
            },
            Ok(DateTimeInfo::DateTime { date, time, is_recurring, .. }) => {
                proof {
                    crate::parse::lemma_parse_datetime_bounds(
                        match &self.due {
                            Some(di) => di.date@,
                            None => Seq::<char>::empty(),
                        },
                    );
                }
                let mut out = String::from_str("Due: ");
                out.append(render_date(&date).as_str());
                out.append(" ");
                out.append(render_time(&time).as_str());
                if is_recurring {
                    out.append(" ↻");
                }
                proof {
                    assert(out@ =~= spec_due_description(*self, config.timezone));
                }
                out
            },
            Err(ParseError::MalformedDate) => String::from_str("Invalid date string"),
            Err(ParseError::MalformedDateTime) => String::from_str("Invalid datetime string"),
        }
    }
}

} // verus!
