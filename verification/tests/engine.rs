//! End-to-end tests of the urgency engine: predicates, scoring and the
//! fifteen-minute window, against instants computed with chrono.

use chrono::TimeZone;
use todo_core::config::Config;
use todo_core::items::{DateInfo, Item, ParseError};

fn cfg(tz: Option<&str>) -> Config {
    Config {
        token: String::from("t"),
        projects: Vec::new(),
        path: String::from("p"),
        next_id: None,
        timezone: tz.map(String::from),
        last_version_check: None,
    }
}

fn task(due: Option<DateInfo>, priority: u8) -> Item {
    Item {
        id: String::from("id"),
        content: String::from("content"),
        priority,
        checked: false,
        description: String::new(),
        due,
        is_deleted: false,
    }
}

fn date_due(date: &str) -> Option<DateInfo> {
    Some(DateInfo { date: String::from(date), is_recurring: false, timezone: None })
}

fn utc(y: i32, mo: u32, d: u32, h: u32, mi: u32, s: u32) -> i64 {
    chrono::Utc
        .with_ymd_and_hms(y, mo, d, h, mi, s)
        .unwrap()
        .timestamp()
}

#[test]
fn no_due_info_predicates_and_component() {
    let config = cfg(None);
    let now = utc(2024, 1, 15, 9, 0, 0);
    let item = task(None, 1);
    assert!(item.has_no_date());
    assert!(!item.is_today(&config, now));
    assert!(!item.is_overdue(&config, now));
    assert!(!item.has_time(&config));
    assert_eq!(item.date_value(&config, now), 80);
    assert_eq!(item.value(&config, now), 82);
}

#[test]
fn round_trip_due_today() {
    let config = cfg(None);
    let now = utc(2024, 1, 15, 9, 0, 0);
    let item = task(date_due("2024-01-15"), 4);
    assert!(item.is_today(&config, now));
    assert!(!item.is_overdue(&config, now));
    assert!(!item.has_time(&config));
    assert_eq!(item.date_value(&config, now), 150);
    assert_eq!(item.priority_value(), 4);
    assert_eq!(item.value(&config, now), 154);
}

#[test]
fn same_task_five_days_later() {
    let config = cfg(None);
    let now = utc(2024, 1, 20, 9, 0, 0);
    let item = task(date_due("2024-01-15"), 4);
    assert!(!item.is_today(&config, now));
    assert!(item.is_overdue(&config, now));
    assert_eq!(item.date_value(&config, now), 200);
    assert_eq!(item.value(&config, now), 204);
}

#[test]
fn recurring_datetime_in_window() {
    let config = cfg(Some("UTC"));
    let now = utc(2024, 1, 15, 9, 10, 0);
    let item = task(
        Some(DateInfo {
            date: String::from("2024-01-15T09:05:00"),
            is_recurring: true,
            timezone: None,
        }),
        1,
    );
    assert!(item.has_time(&config));
    assert!(item.is_today(&config, now));
    assert_eq!(item.date_value(&config, now), 200);
}

#[test]
fn window_edges_in_seconds() {
    let config = cfg(None);
    let item = task(
        Some(DateInfo {
            date: String::from("2024-01-15T09:05:00"),
            is_recurring: true,
            timezone: None,
        }),
        1,
    );
    let instant = utc(2024, 1, 15, 9, 5, 0);
    // 15 whole minutes either side of now still counts ...
    assert_eq!(item.date_value(&config, instant - 959), 200);
    assert_eq!(item.date_value(&config, instant + 959), 200);
    // ... one second past the edge does not.
    assert_eq!(item.date_value(&config, instant - 960), 0);
    assert_eq!(item.date_value(&config, instant + 960), 0);
}

#[test]
fn priority_remap_is_total() {
    let expected = [(0u8, 2u8), (1, 2), (2, 1), (3, 3), (4, 4), (5, 2), (255, 2)];
    for (stored, contributed) in expected {
        assert_eq!(task(None, stored).priority_value(), contributed);
    }
}

#[test]
fn non_recurring_bonus_applies_to_datetime() {
    let config = cfg(None);
    let now = utc(2024, 1, 15, 9, 0, 0);
    let item = task(
        Some(DateInfo {
            date: String::from("2024-01-15T09:05:00"),
            is_recurring: false,
            timezone: None,
        }),
        1,
    );
    assert_eq!(item.date_value(&config, now), 250);
}

#[test]
fn today_follows_the_tasks_zone() {
    // 2024-01-16 03:00 UTC is still 2024-01-15 in New York.
    let now = utc(2024, 1, 16, 3, 0, 0);
    let ny = task(
        Some(DateInfo {
            date: String::from("2024-01-15"),
            is_recurring: false,
            timezone: Some(String::from("America/New_York")),
        }),
        1,
    );
    let utc_task = task(date_due("2024-01-15"), 1);
    let config = cfg(None);
    assert!(ny.is_today(&config, now));
    assert!(!ny.is_overdue(&config, now));
    assert!(!utc_task.is_today(&config, now));
    assert!(utc_task.is_overdue(&config, now));
}

#[test]
fn default_zone_comes_from_config() {
    let now = utc(2024, 1, 16, 3, 0, 0);
    let item = task(date_due("2024-01-15"), 1);
    assert!(item.is_today(&cfg(Some("America/New_York")), now));
    assert!(!item.is_today(&cfg(Some("UTC")), now));
}

#[test]
fn datetime_instant_matches_chrono() {
    let config = cfg(None);
    let item = task(
        Some(DateInfo {
            date: String::from("2024-01-15T09:05:00"),
            is_recurring: false,
            timezone: Some(String::from("America/New_York")),
        }),
        1,
    );
    let zone: chrono_tz::Tz = "America/New_York".parse().unwrap();
    let expected = zone
        .with_ymd_and_hms(2024, 1, 15, 9, 5, 0)
        .unwrap()
        .timestamp();
    assert_eq!(item.datetime(&config), Some(expected));
    assert_eq!(expected, utc(2024, 1, 15, 14, 5, 0));
}

#[test]
fn nonexistent_wall_clock_reading_is_an_error() {
    // New York springs forward over 02:30 on 2024-03-10.
    let config = cfg(None);
    let item = task(
        Some(DateInfo {
            date: String::from("2024-03-10T02:30:00"),
            is_recurring: false,
            timezone: Some(String::from("America/New_York")),
        }),
        1,
    );
    assert_eq!(item.datetimeinfo(&config), Err(ParseError::MalformedDateTime));
    let now = utc(2024, 3, 10, 12, 0, 0);
    assert!(!item.is_today(&config, now));
    assert!(!item.is_overdue(&config, now));
    assert!(!item.has_time(&config));
    assert_eq!(item.date_value(&config, now), 50);
}

#[test]
fn due_description_renders_each_shape() {
    let config = cfg(None);
    assert_eq!(task(None, 1).due_description(&config), "");
    assert_eq!(
        task(date_due("2024-01-15"), 1).due_description(&config),
        "Due: 2024-01-15"
    );
    let recurring = task(
        Some(DateInfo {
            date: String::from("2024-01-15T09:05:00"),
            is_recurring: true,
            timezone: None,
        }),
        1,
    );
    assert_eq!(recurring.due_description(&config), "Due: 2024-01-15 09:05 ↻");
    assert_eq!(
        task(date_due("2024-13-45"), 1).due_description(&config),
        "Invalid date string"
    );
    assert_eq!(
        task(date_due("tomorrow"), 1).due_description(&config),
        "Invalid datetime string"
    );
}

#[test]
fn extreme_instants_do_not_panic() {
    // At the top of chrono's range a positive-offset zone pushes the local
    // reading past the last representable day; the engine must fall back,
    // not abort.  Same at the bottom with a negative-offset zone.
    let top = chrono::DateTime::<chrono::Utc>::MAX_UTC.timestamp();
    let bottom = chrono::DateTime::<chrono::Utc>::MIN_UTC.timestamp();
    let tokyo = task(
        Some(DateInfo {
            date: String::from("2024-01-15"),
            is_recurring: false,
            timezone: Some(String::from("Asia/Tokyo")),
        }),
        1,
    );
    let ny = task(
        Some(DateInfo {
            date: String::from("2024-01-15"),
            is_recurring: false,
            timezone: Some(String::from("America/New_York")),
        }),
        1,
    );
    let config = cfg(None);
    for now in [top, bottom, i64::MAX, i64::MIN] {
        for item in [&tokyo, &ny] {
            let _ = item.is_today(&config, now);
            let _ = item.is_overdue(&config, now);
            let _ = item.date_value(&config, now);
            let _ = item.value(&config, now);
        }
        let _ = config.today_string(now);
    }
    // Out-of-range instants read as the epoch day, so the 2024 deadline is
    // neither today nor overdue there.
    assert!(!tokyo.is_today(&config, top));
    assert!(!tokyo.is_overdue(&config, top));
}
