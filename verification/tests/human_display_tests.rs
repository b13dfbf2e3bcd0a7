use razer_driver_rs::human_display::{HumanDuration, HumanDurationDisplay, DAY, HOUR, MINUTE};

#[test]
fn seconds_only() {
    let duration: i64 = 10;
    assert_eq!(duration.as_human().human_string(), "10s");
}

#[test]
fn minutes_only() {
    let duration: i64 = 10 * MINUTE;
    assert_eq!(duration.as_human().human_string(), "10m");
}

#[test]
fn hours_only() {
    let duration: i64 = 10 * HOUR;
    assert_eq!(duration.as_human().human_string(), "10h");
}

#[test]
fn days_only() {
    let duration: i64 = 10 * DAY;
    assert_eq!(duration.as_human().human_string(), "10d");
}

#[test]
fn days_and_hours() {
    let duration: i64 = 10 * DAY + 10 * HOUR;
    assert_eq!(duration.as_human().human_string(), "10d 10h");
}

#[test]
fn day_hours_and_minutes() {
    let duration: i64 = 2 * DAY + 10 * HOUR + 2 * MINUTE;
    assert_eq!(duration.as_human().human_string(), "2d 10h");
}

#[test]
fn hours_and_minutes_pad_the_minutes() {
    let duration: i64 = HOUR + 5 * MINUTE;
    assert_eq!(duration.as_human().human_string(), "1h05m");
}

#[test]
fn minutes_ignore_leftover_seconds() {
    let duration: i64 = 2 * MINUTE + 59;
    assert_eq!(duration.as_human().human_string(), "2m");
}

#[test]
fn zero_seconds() {
    let duration = HumanDurationDisplay(0);
    assert_eq!(duration.human_string(), "0s");
}
