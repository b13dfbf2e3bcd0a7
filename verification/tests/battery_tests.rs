use razer_driver_rs::battery::{battery_percentage, BatteryData, BatteryStatus};

#[test]
fn test_battery_duration() {
    let entries = vec![
        BatteryData::new(1, "2022-01-01 20:49:40", 76, false),
        BatteryData::new(1, "2022-01-01 21:09:49", 75, false),
        BatteryData::new(1, "2022-01-01 21:51:08", 74, false),
        BatteryData::new(1, "2022-01-01 22:27:49", 0, false),
        BatteryData::new(1, "2022-01-01 23:19:10", 74, false),
        BatteryData::new(1, "2022-01-01 23:27:59", 0, false),
        BatteryData::new(1, "2022-01-01 23:45:20", 74, false),
        BatteryData::new(1, "2022-01-01 23:51:35", 73, false),
    ];

    let duration = BatteryData::consumption(&entries);
    assert_eq!(duration, Some(2728));
}

#[test]
fn test_no_measurements() {
    let duration = BatteryData::consumption(&vec![]);
    assert_eq!(duration, None);
}

#[test]
fn consumption_rejects_unparseable_timestamps() {
    let entries = vec![
        BatteryData::new(1, "2022-01-01 20:49:40", 76, false),
        BatteryData::new(1, "not a timestamp", 75, false),
    ];
    assert_eq!(BatteryData::consumption(&entries), None);
}

#[test]
fn consumption_rejects_backwards_timestamps() {
    let entries = vec![
        BatteryData::new(1, "2022-01-02 20:49:40", 76, false),
        BatteryData::new(1, "2022-01-01 21:09:49", 75, false),
    ];
    assert_eq!(BatteryData::consumption(&entries), None);
}

#[test]
fn consumption_needs_a_percentage_change() {
    let entries = vec![
        BatteryData::new(1, "2022-01-01 20:49:40", 76, false),
        BatteryData::new(1, "2022-01-01 21:09:49", 76, false),
    ];
    assert_eq!(BatteryData::consumption(&entries), None);
}

#[test]
fn timestamp_parses_to_epoch_seconds() {
    let entry = BatteryData::new(1, "2022-01-01 00:00:00", 50, false);
    assert_eq!(entry.timestamp_seconds(), Some(1640995200));
    let bad = BatteryData::new(1, "01/01/2022", 50, false);
    assert_eq!(bad.timestamp_seconds(), None);
}

#[test]
fn battery_percentage_rounds_to_nearest() {
    assert_eq!(battery_percentage(255), 100);
    assert_eq!(battery_percentage(128), 50);
    assert_eq!(battery_percentage(0), 0);
    assert_eq!(battery_percentage(1), 0);
    assert_eq!(battery_percentage(2), 1);
}

#[test]
fn last_status_picks_latest_positive_sample_of_device() {
    let entries = vec![
        BatteryData::new(7, "2022-01-01 20:49:40", 76, false),
        BatteryData::new(1, "2022-01-01 21:09:49", 60, false),
        BatteryData::new(1, "2022-01-01 21:51:08", 0, false),
        BatteryData::new(2, "2022-01-01 22:27:49", 40, false),
    ];
    assert_eq!(BatteryStatus::last_status(1, &entries), Some(60));
    assert_eq!(BatteryStatus::last_status(2, &entries), Some(40));
    assert_eq!(BatteryStatus::last_status(9, &entries), None);
    assert_eq!(BatteryStatus::last_status(1, &Vec::new()), None);
}

#[test]
fn fmt_remaining_renders_the_estimate() {
    let entries = vec![
        BatteryData::new(1, "2022-01-01 20:00:00", 76, false),
        BatteryData::new(1, "2022-01-01 20:01:00", 75, false),
    ];
    // one measurement of 60 seconds per percent, 50 percent left
    let status = BatteryStatus {
        product_id: 1,
        name: "test".to_string(),
        percentage: 50,
        charging: false,
    };
    assert_eq!(status.remaining(&entries), Some(3000));
    assert_eq!(status.fmt_remaining(&entries), Some("50m".to_string()));
    assert_eq!(status.fmt_remaining(&Vec::new()), None);
}

#[test]
fn status_string_shows_icon_and_percent() {
    let status = BatteryStatus {
        product_id: 1,
        name: "test".to_string(),
        percentage: 50,
        charging: false,
    };
    assert_eq!(status.status_string(), "\u{1F50B}50%");
    let charging = BatteryStatus { charging: true, ..status };
    assert_eq!(charging.status_string(), "\u{26A1}\u{FE0F}50%");
}
