use razer_driver_rs::filter_devices;
use razer_driver_rs::razer_device::{RazerDeviceKind, RazerDeviceType};
use razer_driver_rs::razer_keyboard::RazerKeyboardKind;
use razer_driver_rs::razer_mouse::RazerMouseKind;
use razer_driver_rs::razer_report::RazerTransactionDevice;
use razer_driver_rs::DeviceDescriptor;

fn descriptor(vendor_id: u16, product_id: u16, interface: i32, usage: u16, page: u16) -> DeviceDescriptor {
    DeviceDescriptor {
        vendor_id,
        product_id,
        interface_number: interface,
        usage,
        usage_page: page,
        product_string: None,
        serial_number: None,
    }
}

#[test]
fn keyboard_product_ids_round_trip() {
    let kinds = [
        RazerKeyboardKind::BlackwidowUltimate2012,
        RazerKeyboardKind::Huntsman,
        RazerKeyboardKind::TartarusV2,
        RazerKeyboardKind::Blade2018,
        RazerKeyboardKind::BlackwidowV3Tk,
    ];
    for kind in kinds {
        assert_eq!(RazerKeyboardKind::from_repr(kind.product_id()), Some(kind));
    }
    assert_eq!(RazerKeyboardKind::from_repr(0x0227), Some(RazerKeyboardKind::Huntsman));
    assert_eq!(RazerKeyboardKind::from_repr(0xFFFF), None);
}

#[test]
fn mouse_product_ids_round_trip() {
    assert_eq!(
        RazerMouseKind::from_repr(0x007b),
        Some(RazerMouseKind::ViperUltimateWireless)
    );
    assert_eq!(RazerMouseKind::from_repr(0x00a4), Some(RazerMouseKind::MouseDockPro));
    assert_eq!(RazerMouseKind::from_repr(0x0227), None);
}

#[test]
fn keyboard_transaction_quirks() {
    assert_eq!(
        RazerKeyboardKind::TartarusV2.get_transaction_device(),
        RazerTransactionDevice::Zero
    );
    assert_eq!(
        RazerKeyboardKind::BlackwidowV3MiniWireless.get_transaction_device(),
        RazerTransactionDevice::Four
    );
    assert_eq!(
        RazerKeyboardKind::Huntsman.get_transaction_device(),
        RazerTransactionDevice::Default
    );
}

#[test]
fn mouse_transaction_byte() {
    let kind = RazerMouseKind::ViperUltimateWireless;
    assert_eq!(kind.get_transaction_device(), RazerTransactionDevice::Seven);
    let report =
        razer_driver_rs::razer_device::battery_charge_request(kind.get_transaction_device());
    let frame = report.create_payload().unwrap();
    assert_eq!(frame[2], 0xC0 | 0x1F);
    assert_eq!(frame[2], 0xDF);
}

#[test]
fn capability_predicates() {
    assert!(RazerKeyboardKind::Blade2018.is_blade());
    assert!(!RazerKeyboardKind::Huntsman.is_blade());
    assert!(RazerKeyboardKind::BlackwidowStealth.is_logo_only());
    assert!(!RazerKeyboardKind::Blade2018.is_logo_only());
    assert!(RazerKeyboardKind::Huntsman.is_extended_matrix());
    assert!(RazerKeyboardKind::TartarusV2.is_extended_matrix());
    assert!(!RazerKeyboardKind::Blade2018.is_extended_matrix());
}

#[test]
fn scan_filters_on_vendor_and_connect_info() {
    let descriptors = vec![
        // wrong vendor, right product
        descriptor(0x046d, 0x0227, 2, 2, 1),
        // right vendor, unknown product
        descriptor(0x1532, 0x9999, 2, 2, 1),
        // right vendor, right product, wrong interface
        descriptor(0x1532, 0x0227, 1, 2, 1),
        // a legacy keyboard on its management interface
        descriptor(0x1532, 0x0227, 2, 2, 1),
        // a consumer-control keyboard on its management interface
        descriptor(0x1532, 0x0266, 3, 1, 0x0C),
        // the same keyboard on its input interface is filtered out
        descriptor(0x1532, 0x0266, 2, 2, 1),
        // a wireless mouse on its management interface
        descriptor(0x1532, 0x007b, 0, 2, 1),
    ];
    let matches = filter_devices(&descriptors);
    assert_eq!(matches.len(), 3);
    assert_eq!(matches[0].descriptor_index, 3);
    assert_eq!(
        matches[0].kind,
        RazerDeviceType::Keyboard(RazerKeyboardKind::Huntsman)
    );
    assert_eq!(matches[0].name, "Huntsman");
    assert_eq!(matches[1].descriptor_index, 4);
    assert_eq!(
        matches[1].kind,
        RazerDeviceType::Keyboard(RazerKeyboardKind::HuntsmanV2Analog)
    );
    assert_eq!(matches[2].descriptor_index, 6);
    assert_eq!(
        matches[2].kind,
        RazerDeviceType::Mouse(RazerMouseKind::ViperUltimateWireless)
    );
    for m in &matches {
        assert_eq!(descriptors[m.descriptor_index].vendor_id, 0x1532);
    }
}

#[test]
fn scan_prefers_the_product_string() {
    let mut d = descriptor(0x1532, 0x0227, 2, 2, 1);
    d.product_string = Some("Razer Huntsman".to_string());
    d.serial_number = Some("PM1234".to_string());
    let matches = filter_devices(&vec![d]);
    assert_eq!(matches.len(), 1);
    assert_eq!(matches[0].name, "Razer Huntsman");
    assert_eq!(matches[0].serial.as_deref(), Some("PM1234"));
}
