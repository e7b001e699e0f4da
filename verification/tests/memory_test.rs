use peri_tui::memory::{format_relative_time, format_relative_time_now};

fn now() -> (i64, u32) {
    let n = chrono::Utc::now();
    (n.timestamp(), n.timestamp_subsec_nanos())
}

fn ago(secs: i64) -> String {
    let (s, n) = now();
    format_relative_time_now(s - secs, n)
}

#[test]
fn test_format_relative_time_just_now() {
    let (s, n) = now();
    assert_eq!(format_relative_time_now(s, n), "just now");
    assert_eq!(ago(59), "just now");
}

#[test]
fn test_format_relative_time_minutes() {
    assert_eq!(ago(5 * 60), "5m ago");
    assert_eq!(ago(59 * 60), "59m ago");
}

#[test]
fn test_format_relative_time_hours() {
    assert_eq!(ago(2 * 3600), "2h ago");
    assert_eq!(ago(23 * 3600), "23h ago");
}

#[test]
fn test_format_relative_time_days() {
    assert_eq!(ago(5 * 86400), "5d ago");
    assert_eq!(ago(29 * 86400), "29d ago");
}

#[test]
fn test_format_relative_time_over_30_days_falls_to_date() {
    let result = ago(40 * 86400);
    assert!(result.len() == 10 && result.chars().nth(4) == Some('-'), "expected YYYY-MM-DD, got: {}", result);
}

#[test]
fn relative_time_counts_whole_seconds_toward_zero() {
    assert_eq!(format_relative_time(40, 300_000_000, 100, 0), "just now");
    assert_eq!(format_relative_time(40, 0, 100, 0), "1m ago");
    assert_eq!(format_relative_time(0, 0, 3599, 999_999_999), "59m ago");
    assert_eq!(format_relative_time(100, 0, 10, 0), "just now");
}

#[test]
fn relative_time_date_is_utc_calendar_date() {
    assert_eq!(format_relative_time(0, 0, 100 * 86400, 0), "1970-01-01");
    assert_eq!(format_relative_time(1_431_648_000, 5, 1_431_648_000 + 31 * 86400, 0), "2015-05-15");
}
