//! The device-facing layer of the protocol: HID match criteria, the
//! per-family transaction quirk, and the typed operations — each operation
//! is a verified request builder plus a verified parser for the reply body
//! that the codec hands back.

use crate::razer_keyboard::RazerKeyboardKind;
use crate::razer_mouse::RazerMouseKind;
use crate::razer_report::{
    RazerCommand, RazerCommandDirection, RazerLed, RazerReport, RazerStatus, RazerStorage,
    RazerTransactionDevice,
};
use crate::RazerError;
use vstd::prelude::*;
use vstd::string::StringExecFns;

verus! {

/// All Razer devices have this vendor ID.
pub const RAZER_VENDOR_ID: u16 = 0x1532;

/// Information for connecting to the management interface of the razer
/// device. An absent criterion means "don't filter on this axis".
#[derive(Debug, Clone, Copy, PartialEq, Eq)]
pub struct RazerDeviceConnectInfo {
    pub interface_number: Option<i32>,
    pub usage: Option<u16>,
    pub usage_page: Option<u16>,
}

/// Represents different types of devices (eg. keyboards vs mice).
pub trait RazerDeviceKind {
    /// The transaction-device selector this device family needs.
    spec fn spec_transaction_device(&self) -> RazerTransactionDevice;

    /// Returns the specific transaction device that this device needs.
    fn get_transaction_device(&self) -> (d: RazerTransactionDevice)
        ensures
            d == self.spec_transaction_device(),
    ;
}

/// A device of either registry, as discovery reports it.
#[derive(Debug, Clone, Copy, PartialEq, Eq, Structural)]
pub enum RazerDeviceType {
    Keyboard(RazerKeyboardKind),
    Mouse(RazerMouseKind),
}

impl RazerDeviceKind for RazerDeviceType {
    open spec fn spec_transaction_device(&self) -> RazerTransactionDevice {
        match self {
            RazerDeviceType::Keyboard(kind) => kind.spec_transaction_device(),
            RazerDeviceType::Mouse(kind) => kind.spec_transaction_device(),
        }
    }

    fn get_transaction_device(&self) -> (d: RazerTransactionDevice) {
        match self {
            RazerDeviceType::Keyboard(kind) => kind.get_transaction_device(),
            RazerDeviceType::Mouse(kind) => kind.get_transaction_device(),
        }
    }
}

/// The major and minor version of the firmware of the device.
#[derive(Debug, Clone, Copy, PartialEq, Eq, Structural)]
pub struct RazerFirmwareVersion(pub u8, pub u8);

impl RazerFirmwareVersion {
    /// The version rendered as text: a `v`, the major number, a dot, the
    /// minor number.
    pub open spec fn spec_version_string(self) -> Seq<char> {
        "v"@ + crate::human_display::spec_decimal(self.0 as nat) + "."@
            + crate::human_display::spec_decimal(self.1 as nat)
    }

    pub fn version_string(&self) -> (r: String)
        ensures
            r@ == self.spec_version_string(),
    {
        let mut s = String::new();
        s.append("v");
        crate::human_display::append_decimal(&mut s, self.0 as u64);
        s.append(".");
        crate::human_display::append_decimal(&mut s, self.1 as u64);
        proof {
            assert(s@ =~= self.spec_version_string());
        }
        s
    }
}

/// The modes the device can be set to.
#[derive(Debug, Clone, Copy, PartialEq, Eq, Structural)]
pub enum DeviceMode {
    /// The unmanaged mode the keyboard will be in without any special
    /// software
    Normal,
    /// Some kind of factory testing mode that causes the FN and macro keys
    /// to behave like standard keys
    FactoryTesting,
    /// The keyboard will behave like there is the full razer software
    /// installed
    Driver,
}

impl DeviceMode {
    /// The wire encoding of this device mode.
    pub open spec fn spec_value(self) -> u8 {
        match self {
            DeviceMode::Normal => 0x00,
            DeviceMode::FactoryTesting => 0x02,
            DeviceMode::Driver => 0x03,
        }
    }

    pub fn value(self) -> (v: u8)
        ensures
            v == self.spec_value(),
    {
        match self {
            DeviceMode::Normal => 0x00,
            DeviceMode::FactoryTesting => 0x02,
            DeviceMode::Driver => 0x03,
        }
    }

    /// The device mode a byte stands for, if any.
    pub open spec fn spec_from_repr(v: u8) -> Option<DeviceMode> {
        if v == 0x00 {
            Some(DeviceMode::Normal)
        } else if v == 0x02 {
            Some(DeviceMode::FactoryTesting)
        } else if v == 0x03 {
            Some(DeviceMode::Driver)
        } else {
            None
        }
    }

    pub fn from_repr(v: u8) -> (r: Option<DeviceMode>)
        ensures
            r == DeviceMode::spec_from_repr(v),
    {
        match v {
            0x00 => Some(DeviceMode::Normal),
            0x02 => Some(DeviceMode::FactoryTesting),
            0x03 => Some(DeviceMode::Driver),
            _ => None,
        }
    }
}

/// What a request builder promises: a fresh report with the given
/// direction, command, body bytes, and transaction-device selector.
pub open spec fn is_request(
    r: RazerReport,
    direction: RazerCommandDirection,
    command: RazerCommand,
    body: Seq<u8>,
    transaction_device: RazerTransactionDevice,
) -> bool {
    &&& r.report_id == 0
    &&& r.status == RazerStatus::NewCommand
    &&& r.remaining_packets == 0
    &&& r.command_direction == direction
    &&& r.command == command
    &&& r.transaction_device == transaction_device
    &&& r.body@ == body
}

/// The request that reads the firmware version of the device.
pub fn firmware_version_request(transaction_device: RazerTransactionDevice) -> (r: RazerReport)
    ensures
        is_request(
            r,
            RazerCommandDirection::DeviceToHost,
            RazerCommand::FirmwareVersion,
            Seq::<u8>::empty(),
            transaction_device,
        ),
{
    let body: Vec<u8> = Vec::new();
    assert(body@ =~= Seq::<u8>::empty());
    RazerReport::new(
        RazerCommandDirection::DeviceToHost,
        RazerCommand::FirmwareVersion,
        body,
        transaction_device,
    )
}

/// The firmware version a reply body carries: major then minor.
pub fn parse_firmware_version(body: &Vec<u8>) -> (v: RazerFirmwareVersion)
    requires
        body@.len() == 2,
    ensures
        v == (RazerFirmwareVersion(body@[0], body@[1])),
{
    RazerFirmwareVersion(body[0], body[1])
}

/// The request that reads the serial number of the device.
pub fn serial_request(transaction_device: RazerTransactionDevice) -> (r: RazerReport)
    ensures
        is_request(
            r,
            RazerCommandDirection::DeviceToHost,
            RazerCommand::Serial,
            Seq::<u8>::empty(),
            transaction_device,
        ),
{
    let body: Vec<u8> = Vec::new();
    assert(body@ =~= Seq::<u8>::empty());
    RazerReport::new(
        RazerCommandDirection::DeviceToHost,
        RazerCommand::Serial,
        body,
        transaction_device,
    )
}

/// What lossy UTF-8 decoding yields on a given byte sequence; invalid
/// sequences are replaced, everything else decodes as UTF-8.
pub uninterp spec fn utf8_lossy_of(bytes: Seq<u8>) -> Seq<char>;

/// Relies on String::from_utf8_lossy: the result is a function of the bytes
/// alone, and ASCII bytes decode to themselves.
#[verifier::external_body]
fn utf8_lossy(bytes: &Vec<u8>) -> (s: String)
    ensures
        s@ == utf8_lossy_of(bytes@),
        bytes@.len() == 0 ==> s@.len() == 0,
        (forall|i: int| 0 <= i < bytes@.len() ==> bytes@[i] < 0x80) ==> s@ == Seq::new(
            bytes@.len(),
            |i: int| bytes@[i] as char,
        ),
{
    String::from_utf8_lossy(bytes.as_slice()).to_string()
}

/// The serial string a reply body carries, interpreted as UTF-8 with lossy
/// replacement.
pub fn parse_serial(body: &Vec<u8>) -> (s: String)
    ensures
        s@ == utf8_lossy_of(body@),
        (forall|i: int| 0 <= i < body@.len() ==> body@[i] < 0x80) ==> s@ == Seq::new(
            body@.len(),
            |i: int| body@[i] as char,
        ),
{
    utf8_lossy(body)
}

/// The serial the HID layer reported for the device, if it is usable: a
/// present, non-empty string.
pub fn cached_serial(serial: &Option<String>) -> (r: Option<String>)
    ensures
        match serial {
            Some(s) if s@.len() > 0 => r matches Some(x) && x@ == s@,
            _ => r is None,
        },
{
    match serial {
        Some(s) => {
            if s.as_str().is_empty() {
                None
            } else {
                Some(s.clone())
            }
        },
        None => None,
    }
}

/// The request that reads the device mode.
pub fn device_mode_request(transaction_device: RazerTransactionDevice) -> (r: RazerReport)
    ensures
        is_request(
            r,
            RazerCommandDirection::DeviceToHost,
            RazerCommand::DeviceMode,
            Seq::<u8>::empty(),
            transaction_device,
        ),
{
    let body: Vec<u8> = Vec::new();
    assert(body@ =~= Seq::<u8>::empty());
    RazerReport::new(
        RazerCommandDirection::DeviceToHost,
        RazerCommand::DeviceMode,
        body,
        transaction_device,
    )
}

/// The device mode a reply body carries; an unknown byte is a parse
/// failure.
pub fn parse_device_mode(body: &Vec<u8>) -> (r: Result<DeviceMode, RazerError>)
    requires
        body@.len() == 2,
    ensures
        DeviceMode::spec_from_repr(body@[0]) matches Some(m) ==> r == Ok::<DeviceMode, RazerError>(
            m,
        ),
        DeviceMode::spec_from_repr(body@[0]) is None ==> r == Err::<DeviceMode, RazerError>(
            RazerError::FailedToParse("invalid device mode"),
        ),
{
    match DeviceMode::from_repr(body[0]) {
        Some(mode) => Ok(mode),
        None => Err(RazerError::FailedToParse("invalid device mode")),
    }
}

/// The request that sets the device mode: the mode byte, then a zero.
pub fn set_device_mode_request(
    transaction_device: RazerTransactionDevice,
    mode: DeviceMode,
) -> (r: RazerReport)
    ensures
        is_request(
            r,
            RazerCommandDirection::HostToDevice,
            RazerCommand::DeviceMode,
            seq![mode.spec_value(), 0u8],
            transaction_device,
        ),
{
    let mut body: Vec<u8> = Vec::new();
    body.push(mode.value());
    body.push(0u8);
    assert(body@ =~= seq![mode.spec_value(), 0u8]);
    RazerReport::new(
        RazerCommandDirection::HostToDevice,
        RazerCommand::DeviceMode,
        body,
        transaction_device,
    )
}

/// The request that sets an LED's brightness: storage, LED, percent.
/// A percentage over 100 is a contract violation and is rejected before
/// anything is built.
pub fn set_led_brightness_request(
    transaction_device: RazerTransactionDevice,
    store: RazerStorage,
    led: RazerLed,
    percent: u8,
) -> (r: RazerReport)
    requires
        percent <= 100,
    ensures
        is_request(
            r,
            RazerCommandDirection::HostToDevice,
            RazerCommand::LedBrightness,
            seq![store.spec_value(), led.spec_value(), percent],
            transaction_device,
        ),
{
    let mut body: Vec<u8> = Vec::new();
    body.push(store.value());
    body.push(led.value());
    body.push(percent);
    assert(body@ =~= seq![store.spec_value(), led.spec_value(), percent]);
    RazerReport::new(
        RazerCommandDirection::HostToDevice,
        RazerCommand::LedBrightness,
        body,
        transaction_device,
    )
}

/// The request that reads an LED's brightness: storage, LED.
pub fn get_led_brightness_request(
    transaction_device: RazerTransactionDevice,
    store: RazerStorage,
    led: RazerLed,
) -> (r: RazerReport)
    ensures
        is_request(
            r,
            RazerCommandDirection::DeviceToHost,
            RazerCommand::LedBrightness,
            seq![store.spec_value(), led.spec_value()],
            transaction_device,
        ),
{
    let mut body: Vec<u8> = Vec::new();
    body.push(store.value());
    body.push(led.value());
    assert(body@ =~= seq![store.spec_value(), led.spec_value()]);
    RazerReport::new(
        RazerCommandDirection::DeviceToHost,
        RazerCommand::LedBrightness,
        body,
        transaction_device,
    )
}

/// The brightness an LED-brightness reply body carries, in its third byte.
pub fn parse_led_brightness(body: &Vec<u8>) -> (b: u8)
    requires
        body@.len() == 3,
    ensures
        b == body@[2],
{
    body[2]
}

/// The request that reads the battery charge.
pub fn battery_charge_request(transaction_device: RazerTransactionDevice) -> (r: RazerReport)
    ensures
        is_request(
            r,
            RazerCommandDirection::DeviceToHost,
            RazerCommand::BatteryCharge,
            seq![0u8, 0u8],
            transaction_device,
        ),
{
    let mut body: Vec<u8> = Vec::new();
    body.push(0u8);
    body.push(0u8);
    assert(body@ =~= seq![0u8, 0u8]);
    RazerReport::new(
        RazerCommandDirection::DeviceToHost,
        RazerCommand::BatteryCharge,
        body,
        transaction_device,
    )
}

/// The raw battery charge a reply body carries, in its second byte, scaled
/// 0 to 255.
pub fn parse_battery_charge(body: &Vec<u8>) -> (b: u8)
    requires
        body@.len() == 2,
    ensures
        b == body@[1],
{
    body[1]
}

/// The request that reads the charging status.
pub fn charging_status_request(transaction_device: RazerTransactionDevice) -> (r: RazerReport)
    ensures
        is_request(
            r,
            RazerCommandDirection::DeviceToHost,
            RazerCommand::ChargingStatus,
            seq![0u8, 0u8],
            transaction_device,
        ),
{
    let mut body: Vec<u8> = Vec::new();
    body.push(0u8);
    body.push(0u8);
    assert(body@ =~= seq![0u8, 0u8]);
    RazerReport::new(
        RazerCommandDirection::DeviceToHost,
        RazerCommand::ChargingStatus,
        body,
        transaction_device,
    )
}

/// The charging flag a reply body carries, in its second byte: 1 when
/// charging, 0 when not.
pub fn parse_charging_status(body: &Vec<u8>) -> (b: u8)
    requires
        body@.len() == 2,
    ensures
        b == body@[1],
{
    body[1]
}

/// The request that sets an extended-matrix LED's brightness: storage,
/// LED, percent. A percentage over 100 is a contract violation and is
/// rejected before anything is built.
pub fn set_extended_matrix_brightness_request(
    transaction_device: RazerTransactionDevice,
    store: RazerStorage,
    led: RazerLed,
    percent: u8,
) -> (r: RazerReport)
    requires
        percent <= 100,
    ensures
        is_request(
            r,
            RazerCommandDirection::HostToDevice,
            RazerCommand::ExtendedMatrixBrightness,
            seq![store.spec_value(), led.spec_value(), percent],
            transaction_device,
        ),
{
    let mut body: Vec<u8> = Vec::new();
    body.push(store.value());
    body.push(led.value());
    body.push(percent);
    assert(body@ =~= seq![store.spec_value(), led.spec_value(), percent]);
    RazerReport::new(
        RazerCommandDirection::HostToDevice,
        RazerCommand::ExtendedMatrixBrightness,
        body,
        transaction_device,
    )
}

/// The request that reads an extended-matrix LED's brightness: storage,
/// LED.
pub fn get_extended_matrix_brightness_request(
    transaction_device: RazerTransactionDevice,
    store: RazerStorage,
    led: RazerLed,
) -> (r: RazerReport)
    ensures
        is_request(
            r,
            RazerCommandDirection::DeviceToHost,
            RazerCommand::ExtendedMatrixBrightness,
            seq![store.spec_value(), led.spec_value()],
            transaction_device,
        ),
{
    let mut body: Vec<u8> = Vec::new();
    body.push(store.value());
    body.push(led.value());
    assert(body@ =~= seq![store.spec_value(), led.spec_value()]);
    RazerReport::new(
        RazerCommandDirection::DeviceToHost,
        RazerCommand::ExtendedMatrixBrightness,
        body,
        transaction_device,
    )
}

/// The brightness an extended-matrix reply body carries, in its third
/// byte.
pub fn parse_extended_matrix_brightness(body: &Vec<u8>) -> (b: u8)
    requires
        body@.len() == 3,
    ensures
        b == body@[2],
{
    body[2]
}

/// The request that reads an LED's state: storage, LED.
pub fn get_led_state_request(
    transaction_device: RazerTransactionDevice,
    store: RazerStorage,
    led: RazerLed,
) -> (r: RazerReport)
    ensures
        is_request(
            r,
            RazerCommandDirection::DeviceToHost,
            RazerCommand::LedState,
            seq![store.spec_value(), led.spec_value()],
            transaction_device,
        ),
{
    let mut body: Vec<u8> = Vec::new();
    body.push(store.value());
    body.push(led.value());
    assert(body@ =~= seq![store.spec_value(), led.spec_value()]);
    RazerReport::new(
        RazerCommandDirection::DeviceToHost,
        RazerCommand::LedState,
        body,
        transaction_device,
    )
}

/// The LED state a reply body carries, in its third byte.
pub fn parse_led_state(body: &Vec<u8>) -> (b: u8)
    requires
        body@.len() == 3,
    ensures
        b == body@[2],
{
    body[2]
}

} // verus!
