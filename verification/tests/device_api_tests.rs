use razer_driver_rs::razer_device::{
    cached_serial, device_mode_request, get_led_brightness_request, get_led_state_request,
    parse_battery_charge, parse_charging_status, parse_device_mode, parse_firmware_version,
    parse_led_brightness, parse_led_state, parse_serial, set_device_mode_request,
    set_led_brightness_request, DeviceMode, RazerFirmwareVersion,
};
use razer_driver_rs::razer_keyboard::RazerKeyboardKind;
use razer_driver_rs::razer_report::{RazerLed, RazerStorage, RazerTransactionDevice};
use razer_driver_rs::RazerError;

#[test]
fn firmware_version_parses_major_and_minor() {
    let version = parse_firmware_version(&vec![2, 1]);
    assert_eq!(version, RazerFirmwareVersion(2, 1));
    assert_eq!(version.version_string(), "v2.1");
}

#[test]
fn serial_decodes_ascii_bytes() {
    let body: Vec<u8> = b"PM2029H02903492".to_vec();
    assert_eq!(parse_serial(&body), "PM2029H02903492");
}

#[test]
fn cached_serial_skips_empty_strings() {
    assert_eq!(cached_serial(&None), None);
    assert_eq!(cached_serial(&Some(String::new())), None);
    assert_eq!(cached_serial(&Some("X1".to_string())), Some("X1".to_string()));
}

#[test]
fn device_mode_parses_known_bytes() {
    assert_eq!(parse_device_mode(&vec![0, 0]), Ok(DeviceMode::Normal));
    assert_eq!(parse_device_mode(&vec![2, 0]), Ok(DeviceMode::FactoryTesting));
    assert_eq!(parse_device_mode(&vec![3, 0]), Ok(DeviceMode::Driver));
    assert!(matches!(
        parse_device_mode(&vec![1, 0]),
        Err(RazerError::FailedToParse("invalid device mode"))
    ));
}

#[test]
fn device_mode_requests_lay_out_their_bodies() {
    let get = device_mode_request(RazerTransactionDevice::Default);
    let frame = get.create_payload().unwrap();
    assert_eq!(frame[6], 2);
    assert_eq!(frame[7], 0x00);
    assert_eq!(frame[8], 0x84);
    let set = set_device_mode_request(RazerTransactionDevice::Default, DeviceMode::Driver);
    let frame = set.create_payload().unwrap();
    assert_eq!(frame[6], 2);
    assert_eq!(frame[8], 0x04);
    assert_eq!(&frame[9..11], &[0x03, 0x00]);
}

#[test]
fn led_requests_lay_out_their_bodies() {
    let set = set_led_brightness_request(
        RazerTransactionDevice::Default,
        RazerStorage::VarStore,
        RazerLed::Logo,
        90,
    );
    let frame = set.create_payload().unwrap();
    assert_eq!(frame[7], 0x03);
    assert_eq!(frame[8], 0x03);
    assert_eq!(&frame[9..12], &[0x01, 0x04, 0x5A]);
    let get = get_led_brightness_request(
        RazerTransactionDevice::Default,
        RazerStorage::NoStore,
        RazerLed::Backlight,
    );
    let frame = get.create_payload().unwrap();
    assert_eq!(frame[6], 3);
    assert_eq!(frame[8], 0x83);
    assert_eq!(&frame[9..11], &[0x00, 0x05]);
    let state = get_led_state_request(
        RazerTransactionDevice::Default,
        RazerStorage::VarStore,
        RazerLed::Logo,
    );
    let frame = state.create_payload().unwrap();
    assert_eq!(frame[8], 0x80);
}

#[test]
fn reply_parsers_read_their_bytes() {
    assert_eq!(parse_led_brightness(&vec![1, 5, 77]), 77);
    assert_eq!(parse_led_state(&vec![1, 4, 1]), 1);
    assert_eq!(parse_battery_charge(&vec![0x00, 0xFF]), 255);
    assert_eq!(parse_battery_charge(&vec![0x00, 0x80]), 128);
    assert_eq!(parse_charging_status(&vec![0x00, 0x01]), 1);
}

#[test]
fn brightness_dispatch_huntsman_uses_extended_matrix() {
    let report = RazerKeyboardKind::Huntsman.set_brightness_request(90);
    let frame = report.create_payload().unwrap();
    assert_eq!(frame[7], 0x0F);
    assert_eq!(frame[8], 0x04);
    assert_eq!(&frame[9..12], &[0x01, 0x05, 0x5A]);
}

#[test]
fn brightness_dispatch_stealth_uses_logo_led() {
    let report = RazerKeyboardKind::BlackwidowStealth.set_brightness_request(90);
    let frame = report.create_payload().unwrap();
    assert_eq!(frame[7], 0x03);
    assert_eq!(frame[8], 0x03);
    assert_eq!(&frame[9..12], &[0x01, 0x04, 0x5A]);
}

#[test]
fn brightness_dispatch_blade_uses_blade_command() {
    let report = RazerKeyboardKind::Blade2018.set_brightness_request(90);
    let frame = report.create_payload().unwrap();
    assert_eq!(frame[7], 0x0E);
    assert_eq!(frame[8], 0x04);
    assert_eq!(&frame[9..11], &[0x01, 0x5A]);
}

#[test]
fn brightness_dispatch_tartarus_uses_zero_led() {
    let report = RazerKeyboardKind::TartarusV2.set_brightness_request(55);
    let frame = report.create_payload().unwrap();
    assert_eq!(frame[7], 0x0F);
    assert_eq!(&frame[9..12], &[0x01, 0x00, 55]);
}

#[test]
fn brightness_replies_read_the_dispatched_offset() {
    assert_eq!(RazerKeyboardKind::Blade2018.parse_brightness(&vec![1, 42]), 42);
    assert_eq!(RazerKeyboardKind::Huntsman.parse_brightness(&vec![1, 5, 42]), 42);
    assert_eq!(
        RazerKeyboardKind::BlackwidowUltimate2016.parse_brightness(&vec![1, 5, 42]),
        42
    );
}

#[test]
fn get_brightness_requests_follow_the_dispatch() {
    let report = RazerKeyboardKind::Blade2018.get_brightness_request();
    let frame = report.create_payload().unwrap();
    assert_eq!(frame[7], 0x0E);
    assert_eq!(frame[8], 0x84);
    assert_eq!(frame[9], 0x01);
    let report = RazerKeyboardKind::CynosaChroma.get_brightness_request();
    let frame = report.create_payload().unwrap();
    assert_eq!(frame[7], 0x0F);
    assert_eq!(frame[8], 0x84);
    assert_eq!(&frame[9..11], &[0x01, 0x05]);
}
