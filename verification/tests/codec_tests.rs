use razer_driver_rs::razer_device::{battery_charge_request, firmware_version_request};
use razer_driver_rs::razer_report::{
    EncodeError, RazerCommand, RazerCommandDirection, RazerReport, RazerStatus,
    RazerTransactionDevice,
};
use razer_driver_rs::RazerError;

fn all_commands() -> Vec<RazerCommand> {
    vec![
        RazerCommand::DeviceMode,
        RazerCommand::Serial,
        RazerCommand::FirmwareVersion,
        RazerCommand::LedState,
        RazerCommand::LedBlinking,
        RazerCommand::LedRgb,
        RazerCommand::LedEffect,
        RazerCommand::LedBrightness,
        RazerCommand::StandardMatrixEffect,
        RazerCommand::StandardMatrixCustomFrame,
        RazerCommand::ExtendedMatrixBrightness,
        RazerCommand::BladeBrightness,
        RazerCommand::BatteryCharge,
        RazerCommand::ChargingStatus,
    ]
}

/// A reply buffer that decode accepts for the given request: successful
/// status, zero remaining packets, the declared size, matching class and
/// direction-tagged id, and the given payload bytes.
fn valid_reply(report: &RazerReport, payload: &[u8]) -> Vec<u8> {
    let mut b = vec![0u8; 91];
    b[0] = 0;
    b[1] = 2;
    b[6] = report.command.reply_size();
    b[7] = report.command.class().value();
    b[8] = report.command.base_id() | report.command_direction.value();
    for (i, x) in payload.iter().enumerate() {
        b[9 + i] = *x;
    }
    b
}

#[test]
fn encode_host_to_device_shape() {
    for cmd in all_commands() {
        let body = vec![1u8, 2, 3];
        let report = RazerReport::new(
            RazerCommandDirection::HostToDevice,
            cmd,
            body.clone(),
            RazerTransactionDevice::Default,
        );
        let frame = report.create_payload().unwrap();
        assert_eq!(frame.len(), 91);
        assert_eq!(frame[6] as usize, body.len());
    }
}

#[test]
fn encode_device_to_host_declares_reply_size() {
    for cmd in all_commands() {
        let report = RazerReport::new(
            RazerCommandDirection::DeviceToHost,
            cmd,
            Vec::new(),
            RazerTransactionDevice::Default,
        );
        let frame = report.create_payload().unwrap();
        assert_eq!(frame.len(), 91);
        assert_eq!(frame[6], cmd.reply_size());
    }
}

#[test]
fn encode_checksum_covers_offsets_2_to_88() {
    for cmd in all_commands() {
        let report = RazerReport::new(
            RazerCommandDirection::HostToDevice,
            cmd,
            vec![9u8, 8, 7, 6],
            RazerTransactionDevice::Zero,
        );
        let frame = report.create_payload().unwrap();
        let mut crc = 0u8;
        for i in 2..=88 {
            crc ^= frame[i];
        }
        assert_eq!(frame[89], crc);
        assert_eq!(frame[90], 0);
    }
}

#[test]
fn encode_transaction_id_tags_every_quirk() {
    let quirks = [
        (RazerTransactionDevice::Default, 0xE0u8),
        (RazerTransactionDevice::Zero, 0x00),
        (RazerTransactionDevice::One, 0x20),
        (RazerTransactionDevice::Four, 0x80),
        (RazerTransactionDevice::Seven, 0xC0),
    ];
    for (quirk, value) in quirks {
        let frame = battery_charge_request(quirk).create_payload().unwrap();
        assert_eq!(frame[2], value | 0x1F);
    }
}

#[test]
fn encode_rejects_oversized_body() {
    let report = RazerReport::new(
        RazerCommandDirection::HostToDevice,
        RazerCommand::DeviceMode,
        vec![0u8; 81],
        RazerTransactionDevice::Default,
    );
    assert_eq!(report.create_payload(), Err(EncodeError::BodyTooLarge));
}

#[test]
fn firmware_version_request_frame() {
    let report = firmware_version_request(RazerTransactionDevice::Default);
    let frame = report.create_payload().unwrap();
    assert_eq!(frame.len(), 91);
    assert_eq!(frame[0], 0x00);
    assert_eq!(frame[1], 0x00);
    assert_eq!(frame[2], 0xFF);
    assert_eq!(frame[3], 0x00);
    assert_eq!(frame[4], 0x00);
    assert_eq!(frame[5], 0x00);
    assert_eq!(frame[6], 0x02);
    assert_eq!(frame[7], 0x00);
    assert_eq!(frame[8], 0x81);
    for i in 9..89 {
        assert_eq!(frame[i], 0x00);
    }
    assert_eq!(frame[89], 0xFF ^ 0x02 ^ 0x81);
    assert_eq!(frame[89], 0x7C);
    assert_eq!(frame[90], 0x00);
}

#[test]
fn firmware_version_reply_decodes() {
    let report = firmware_version_request(RazerTransactionDevice::Default);
    let mut b = vec![0u8; 91];
    b[0] = 0;
    b[1] = 2;
    b[2] = 0xFF;
    b[5] = 0;
    b[6] = 2;
    b[7] = 0;
    b[8] = 0x81;
    b[9] = 2;
    b[10] = 1;
    let body = report.verify_response(&b).unwrap();
    assert_eq!(body, vec![2, 1]);
}

#[test]
fn decode_round_trip_returns_declared_body() {
    for cmd in all_commands() {
        let report = RazerReport::new(
            RazerCommandDirection::DeviceToHost,
            cmd,
            Vec::new(),
            RazerTransactionDevice::Default,
        );
        let payload: Vec<u8> = (0..cmd.reply_size()).map(|i| i.wrapping_mul(3)).collect();
        let b = valid_reply(&report, &payload);
        let body = report.verify_response(&b).unwrap();
        assert_eq!(body, payload);
    }
}

#[test]
fn decode_rejects_wrong_report_id() {
    let report = firmware_version_request(RazerTransactionDevice::Default);
    let mut b = valid_reply(&report, &[2, 1]);
    b[0] = 1;
    assert!(matches!(
        report.verify_response(&b),
        Err(RazerError::MismatchResponse("report id"))
    ));
}

#[test]
fn decode_rejects_unknown_status() {
    let report = firmware_version_request(RazerTransactionDevice::Default);
    let mut b = valid_reply(&report, &[2, 1]);
    b[1] = 6;
    assert!(matches!(
        report.verify_response(&b),
        Err(RazerError::FailedToParse("invalid status"))
    ));
}

#[test]
fn decode_rejects_not_support_status() {
    let report = firmware_version_request(RazerTransactionDevice::Default);
    let mut b = valid_reply(&report, &[2, 1]);
    b[1] = 5;
    assert!(matches!(
        report.verify_response(&b),
        Err(RazerError::BadStatus(RazerStatus::CommandNotSupport))
    ));
}

#[test]
fn decode_rejects_wrong_remaining_packets() {
    let report = firmware_version_request(RazerTransactionDevice::Default);
    let mut b = valid_reply(&report, &[2, 1]);
    b[4] = 1;
    assert!(matches!(
        report.verify_response(&b),
        Err(RazerError::MismatchResponse("remaining packets"))
    ));
}

#[test]
fn decode_rejects_oversized_data_size() {
    let report = firmware_version_request(RazerTransactionDevice::Default);
    let mut b = valid_reply(&report, &[2, 1]);
    b[6] = 81;
    assert!(matches!(
        report.verify_response(&b),
        Err(RazerError::FailedToParse("invalid data size"))
    ));
}

#[test]
fn decode_rejects_wrong_size_packet() {
    let report = firmware_version_request(RazerTransactionDevice::Default);
    let mut b = valid_reply(&report, &[2, 1]);
    b[6] = 3;
    assert!(matches!(
        report.verify_response(&b),
        Err(RazerError::MismatchResponse("wrong size packet"))
    ));
}

#[test]
fn decode_rejects_flipped_command_class() {
    let report = firmware_version_request(RazerTransactionDevice::Default);
    let mut b = valid_reply(&report, &[2, 1]);
    b[7] ^= 0x01;
    assert!(matches!(
        report.verify_response(&b),
        Err(RazerError::MismatchResponse("command class"))
    ));
}

#[test]
fn decode_rejects_flipped_command_id() {
    let report = firmware_version_request(RazerTransactionDevice::Default);
    let mut b = valid_reply(&report, &[2, 1]);
    b[8] ^= 0x01;
    assert!(matches!(
        report.verify_response(&b),
        Err(RazerError::MismatchResponse("command id"))
    ));
}

#[test]
fn decode_ignores_transaction_id_and_crc() {
    let report = firmware_version_request(RazerTransactionDevice::Default);
    let mut b = valid_reply(&report, &[2, 1]);
    b[2] = 0xAB;
    b[5] = 0x77;
    b[89] = 0x13;
    assert_eq!(report.verify_response(&b).unwrap(), vec![2, 1]);
}
