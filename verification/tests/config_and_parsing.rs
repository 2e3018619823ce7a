//! Tests of due-string parsing edges, configuration updates and the token
//! check.

use chrono::TimeZone;
use todo_core::cfg::{validate_api_token, UserConfig};
use todo_core::config::Config;
use todo_core::config_old;
use todo_core::items::{priority_from_input, DateInfo, DateTimeInfo, Item, ParseError};

fn cfg() -> Config {
    Config::new("token", String::from("path"))
}

fn task(due: &str) -> Item {
    Item {
        id: String::from("id"),
        content: String::from("c"),
        priority: 1,
        checked: false,
        description: String::new(),
        due: Some(DateInfo { date: String::from(due), is_recurring: false, timezone: None }),
        is_deleted: false,
    }
}

fn utc(y: i32, mo: u32, d: u32, h: u32, mi: u32, s: u32) -> i64 {
    chrono::Utc
        .with_ymd_and_hms(y, mo, d, h, mi, s)
        .unwrap()
        .timestamp()
}

#[test]
fn date_parsing_knows_the_calendar() {
    let config = cfg();
    // A leap day parses in a leap year and only there.
    assert!(matches!(
        task("2024-02-29").datetimeinfo(&config),
        Ok(DateTimeInfo::Date { .. })
    ));
    assert_eq!(
        task("2023-02-29").datetimeinfo(&config),
        Err(ParseError::MalformedDate)
    );
    assert_eq!(
        task("2024-02-30").datetimeinfo(&config),
        Err(ParseError::MalformedDate)
    );
    assert_eq!(
        task("2024-04-31").datetimeinfo(&config),
        Err(ParseError::MalformedDate)
    );
    assert_eq!(
        task("2024-00-10").datetimeinfo(&config),
        Err(ParseError::MalformedDate)
    );
    assert_eq!(
        task("2024/01/15").datetimeinfo(&config),
        Err(ParseError::MalformedDate)
    );
    assert_eq!(
        task("not-a-date"). datetimeinfo(&config),
        Err(ParseError::MalformedDate)
    );
}

#[test]
fn datetime_parsing_checks_shape_and_clock() {
    let config = cfg();
    assert!(matches!(
        task("2024-01-15T09:05:00").datetimeinfo(&config),
        Ok(DateTimeInfo::DateTime { .. })
    ));
    assert_eq!(
        task("2024-01-15T24:00:00").datetimeinfo(&config),
        Err(ParseError::MalformedDateTime)
    );
    assert_eq!(
        task("2024-01-15T09:60:00").datetimeinfo(&config),
        Err(ParseError::MalformedDateTime)
    );
    assert_eq!(
        task("2024-01-15 09:05:00").datetimeinfo(&config),
        Err(ParseError::MalformedDateTime)
    );
    assert_eq!(
        task("soon").datetimeinfo(&config),
        Err(ParseError::MalformedDateTime)
    );
    assert_eq!(
        task("2024-02-30T09:05:00").datetimeinfo(&config),
        Err(ParseError::MalformedDateTime)
    );
}

#[test]
fn token_validation_wants_forty_bytes() {
    let token = "a".repeat(40);
    assert_eq!(validate_api_token(&token), Ok(()));
    assert_eq!(validate_api_token("short"), Err(5));
    assert_eq!(validate_api_token(&"a".repeat(41)), Err(41));
    // The length is counted in bytes: twenty two-byte characters pass.
    let wide = "é".repeat(20);
    assert_eq!(wide.len(), 40);
    assert_eq!(validate_api_token(&wide), Ok(()));
    assert_eq!(validate_api_token(&"é".repeat(40)), Err(80));
    assert_eq!(config_old::UserConfig::validate_api_token(&token), Ok(()));
    assert_eq!(config_old::UserConfig::validate_api_token(""), Err(0));
}

#[test]
fn project_table_uniqueness_is_checkable() {
    let good = cfg()
        .add_project(String::from("home"), 1)
        .add_project(String::from("work"), 2);
    assert!(good.projects_keys_unique());
    let mut bad = cfg();
    bad.projects.push((String::from("home"), 1));
    bad.projects.push((String::from("home"), 2));
    assert!(!bad.projects_keys_unique());
}

#[test]
fn fresh_user_configs_start_empty_with_color() {
    let new = UserConfig::new("ignored", String::from("/tmp/cfgfile"));
    assert_eq!(new.token, "");
    assert!(new.color);
    assert_eq!(new.config_file_path, "/tmp/cfgfile");
    let old = config_old::UserConfig::new();
    assert_eq!(old.token, "");
    assert!(old.color);
}

#[test]
fn config_project_table_behaves_like_a_map() {
    let config = cfg()
        .add_project(String::from("home"), 1)
        .add_project(String::from("work"), 2)
        .add_project(String::from("home"), 3);
    assert_eq!(config.project_number("home"), Some(3));
    assert_eq!(config.project_number("work"), Some(2));
    assert_eq!(config.project_number("gone"), None);
    assert_eq!(config.projects.len(), 2);
    assert_eq!(config.projects[0].0, "home"); // replaced in place, order kept

    let config = config.remove_project("home");
    assert_eq!(config.project_number("home"), None);
    assert_eq!(config.project_number("work"), Some(2));
    let config = config.remove_project("never-there");
    assert_eq!(config.projects.len(), 1);
}

#[test]
fn config_next_id_and_path_updates() {
    let config = cfg().set_next_id(String::from("42"));
    assert_eq!(config.next_id.as_deref(), Some("42"));
    let config = config.clear_next_id();
    assert_eq!(config.next_id, None);
    let config = config.set_path("elsewhere");
    assert_eq!(config.path, "elsewhere");
    assert_eq!(config.token, "token");
}

#[test]
fn version_check_marker_is_today() {
    let now = utc(2024, 1, 15, 12, 0, 0);
    let config = cfg();
    assert_eq!(config.today_string(now), "2024-01-15");
    assert!(config.version_check_due(now));
    let config = config.mark_version_checked(now);
    assert_eq!(config.last_version_check.as_deref(), Some("2024-01-15"));
    assert!(!config.version_check_due(now));
    assert!(config.version_check_due(now + 86_400));
}

#[test]
fn interactive_priority_choice_maps_to_stored_levels() {
    assert_eq!(priority_from_input("1"), Some(2));
    assert_eq!(priority_from_input("2"), Some(3));
    assert_eq!(priority_from_input("3"), Some(4));
    assert_eq!(priority_from_input("4"), None);
    assert_eq!(priority_from_input(""), None);
}
