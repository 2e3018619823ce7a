//! Tests of the collection operations: both stable sorts and both filters,
//! also in the presence of malformed due strings.

use chrono::TimeZone;
use todo_core::config::Config;
use todo_core::items::{
    filter_not_in_future, filter_today_and_has_time, sort_by_datetime, sort_by_value, DateInfo,
    Item, ParseError,
};

fn cfg() -> Config {
    Config {
        token: String::from("t"),
        projects: Vec::new(),
        path: String::from("p"),
        next_id: None,
        timezone: None,
        last_version_check: None,
    }
}

fn task(id: &str, due: Option<DateInfo>, priority: u8) -> Item {
    Item {
        id: String::from(id),
        content: String::from(id),
        priority,
        checked: false,
        description: String::new(),
        due,
        is_deleted: false,
    }
}

fn date_due(date: &str) -> Option<DateInfo> {
    Some(DateInfo { date: String::from(date), is_recurring: false, timezone: None })
}

fn utc(y: i32, mo: u32, d: u32, h: u32, mi: u32, s: u32) -> i64 {
    chrono::Utc
        .with_ymd_and_hms(y, mo, d, h, mi, s)
        .unwrap()
        .timestamp()
}

fn ids(items: &[Item]) -> Vec<&str> {
    items.iter().map(|i| i.id.as_str()).collect()
}

#[test]
fn sort_by_value_descends() {
    let config = cfg();
    let now = utc(2024, 1, 15, 9, 0, 0);
    let items = vec![
        task("none", None, 1),              // 80 + 2 = 82
        task("overdue", date_due("2024-01-10"), 1), // 200 + 2 = 202
        task("today", date_due("2024-01-15"), 4),   // 150 + 4 = 154
    ];
    let sorted = sort_by_value(items, &config, now);
    assert_eq!(ids(&sorted), ["overdue", "today", "none"]);
}

#[test]
fn sort_by_value_is_stable_on_ties() {
    let config = cfg();
    let now = utc(2024, 1, 15, 9, 0, 0);
    // Same score (82) for all four; a higher-score task sits in between.
    let items = vec![
        task("a", None, 1),
        task("b", None, 5),
        task("high", date_due("2024-01-15"), 4),
        task("c", None, 0),
        task("d", None, 1),
    ];
    let sorted = sort_by_value(items, &config, now);
    assert_eq!(ids(&sorted), ["high", "a", "b", "c", "d"]);
}

#[test]
fn sort_by_datetime_puts_missing_first_and_ascends() {
    let config = cfg();
    let timed = |id: &str, h: u32| {
        task(
            id,
            Some(DateInfo {
                date: format!("2024-01-15T{:02}:00:00", h),
                is_recurring: false,
                timezone: None,
            }),
            1,
        )
    };
    let items = vec![
        timed("late", 18),
        task("no_time_1", date_due("2024-01-15"), 1),
        timed("early", 6),
        task("no_time_2", None, 1),
        timed("noon", 12),
    ];
    let sorted = sort_by_datetime(items, &config);
    assert_eq!(
        ids(&sorted),
        ["no_time_1", "no_time_2", "early", "noon", "late"]
    );
}

#[test]
fn filter_not_in_future_keeps_actionable_only() {
    let config = cfg();
    let now = utc(2024, 1, 15, 9, 0, 0);
    let items = vec![
        task("future", date_due("2024-02-01"), 1),
        task("today", date_due("2024-01-15"), 1),
        task("none", None, 1),
        task("overdue", date_due("2023-12-31"), 1),
    ];
    let kept = filter_not_in_future(items, &config, now).unwrap();
    assert_eq!(ids(&kept), ["today", "none", "overdue"]);
}

#[test]
fn filter_today_and_has_time_wants_both() {
    let config = cfg();
    let now = utc(2024, 1, 15, 9, 0, 0);
    let items = vec![
        task("timed_today", date_due("2024-01-15T10:00:00"), 1),
        task("date_today", date_due("2024-01-15"), 1),
        task("timed_tomorrow", date_due("2024-01-16T10:00:00"), 1),
        task("none", None, 1),
    ];
    let kept = filter_today_and_has_time(items, &config, now);
    assert_eq!(ids(&kept), ["timed_today"]);
}

#[test]
fn malformed_due_string_never_fails_the_collection() {
    let config = cfg();
    let now = utc(2024, 1, 15, 9, 0, 0);
    let bad = task("bad", date_due("2024-99-99"), 1);
    assert_eq!(bad.datetimeinfo(&config), Err(ParseError::MalformedDate));
    let items = vec![
        task("today", date_due("2024-01-15"), 1),
        task("bad", date_due("2024-99-99"), 1),
        task("none", None, 1),
    ];
    let kept = filter_not_in_future(items, &config, now).unwrap();
    assert_eq!(ids(&kept), ["today", "none"]);

    // The malformed task falls back to the fixed 50 and still sorts.
    let items = vec![
        task("bad", date_due("2024-99-99"), 1),   // 50 + 2 = 52
        task("today", date_due("2024-01-15"), 1), // 150 + 2 = 152
    ];
    let sorted = sort_by_value(items, &config, now);
    assert_eq!(ids(&sorted), ["today", "bad"]);
    assert_eq!(sorted[1].value(&config, now), 52);
}

#[test]
fn sort_by_datetime_is_stable_on_equal_instants() {
    let config = cfg();
    let due = || {
        Some(DateInfo {
            date: String::from("2024-01-15T09:00:00"),
            is_recurring: false,
            timezone: None,
        })
    };
    let items = vec![task("first", due(), 1), task("second", due(), 4)];
    let sorted = sort_by_datetime(items, &config);
    assert_eq!(ids(&sorted), ["first", "second"]);
}

#[test]
fn sort_by_datetime_compares_absolute_instants_across_zones() {
    let config = cfg();
    // 09:00 in New York is 14:00 UTC, so the 12:00 UTC task comes first.
    let ny = task(
        "ny",
        Some(DateInfo {
            date: String::from("2024-01-15T09:00:00"),
            is_recurring: false,
            timezone: Some(String::from("America/New_York")),
        }),
        1,
    );
    let utc_noon = task("utc", date_due("2024-01-15T12:00:00"), 1);
    let sorted = sort_by_datetime(vec![ny, utc_noon], &config);
    assert_eq!(ids(&sorted), ["utc", "ny"]);
}
