//! Driver library for Razer input peripherals that speak the proprietary
//! 90-byte HID feature-report control protocol.
//!
//! The crate owns the pure core of the driver: the frame codec (layout and
//! XOR checksum), the closed command catalog, the device registries with
//! their per-product quirks, the discovery filter, the request builders and
//! reply parsers of the typed device API, and the battery bookkeeping that
//! consumers layer on top. The HID transport itself (sending and receiving
//! feature reports on an opened handle) is left to the embedding
//! application.

use vstd::prelude::*;

pub mod battery;
pub mod human_display;
pub mod razer_device;
pub mod razer_keyboard;
pub mod razer_mouse;
pub mod razer_report;

verus! {

/// Every kind of error that might be sent from this library.
#[derive(Debug, Clone, PartialEq)]
pub enum RazerError {
    /// The reply violates a framing expectation of the originating request;
    /// likely a stale reply from a prior request on the same handle.
    MismatchResponse(&'static str),
    /// The device reported a status other than success.
    BadStatus(crate::razer_report::RazerStatus),
    /// A well-formed frame carried an unrecognized byte, or a declared size
    /// over the 80-byte payload limit.
    FailedToParse(&'static str),
    /// A transport-layer failure, carried as the transport's own message.
    HidError(String),
}

/// Result type for razer commands.
pub type RazerResult<T> = Result<T, RazerError>;

/// One interface of the HID enumeration, as the transport reports it: the
/// identifying numbers plus the strings the interface carries.
#[derive(Debug, Clone)]
pub struct DeviceDescriptor {
    pub vendor_id: u16,
    pub product_id: u16,
    pub interface_number: i32,
    pub usage: u16,
    pub usage_page: u16,
    pub product_string: Option<String>,
    pub serial_number: Option<String>,
}

/// One recognized management endpoint: which descriptor it came from,
/// which device it is, and the name and serial chosen for it.
#[derive(Debug, Clone)]
pub struct ScanMatch {
    pub descriptor_index: usize,
    pub kind: razer_device::RazerDeviceType,
    pub name: String,
    pub serial: Option<String>,
}

/// Whether a descriptor passes a product's HID match criteria: each absent
/// criterion accepts, each present one must equal the descriptor's value.
pub open spec fn spec_connect_info_accepts(
    info: razer_device::RazerDeviceConnectInfo,
    d: DeviceDescriptor,
) -> bool {
    &&& (info.interface_number is None || info.interface_number == Some(d.interface_number))
    &&& (info.usage is None || info.usage == Some(d.usage))
    &&& (info.usage_page is None || info.usage_page == Some(d.usage_page))
}

pub fn connect_info_accepts(info: &razer_device::RazerDeviceConnectInfo, d: &DeviceDescriptor) -> (r:
    bool)
    ensures
        r == spec_connect_info_accepts(*info, *d),
{
    let interface_ok = match info.interface_number {
        None => true,
        Some(n) => n == d.interface_number,
    };
    let usage_ok = match info.usage {
        None => true,
        Some(u) => u == d.usage,
    };
    let usage_page_ok = match info.usage_page {
        None => true,
        Some(p) => p == d.usage_page,
    };
    interface_ok && usage_ok && usage_page_ok
}

/// Whether a descriptor is the management endpoint of the given device:
/// the razer vendor id, the product id of that device, and its HID match
/// criteria all accept.
pub open spec fn spec_descriptor_matches(
    d: DeviceDescriptor,
    kind: razer_device::RazerDeviceType,
) -> bool {
    &&& d.vendor_id == razer_device::RAZER_VENDOR_ID
    &&& match kind {
        razer_device::RazerDeviceType::Keyboard(k) => {
            &&& razer_keyboard::RazerKeyboardKind::spec_from_product_id(d.product_id) == Some(k)
            &&& spec_connect_info_accepts(k.spec_connect_info(), d)
        },
        razer_device::RazerDeviceType::Mouse(m) => {
            &&& razer_mouse::RazerMouseKind::spec_from_product_id(d.product_id) == Some(m)
            &&& spec_connect_info_accepts(m.spec_connect_info(), d)
        },
    }
}

/// The matches a single descriptor contributes, in emission order: its
/// keyboard match, if any, then its mouse match, if any.
pub open spec fn spec_scan_one(i: int, d: DeviceDescriptor) -> Seq<(
    int,
    razer_device::RazerDeviceType,
)> {
    let keyboard_part = match razer_keyboard::RazerKeyboardKind::spec_from_product_id(
        d.product_id,
    ) {
        Some(k) if d.vendor_id == razer_device::RAZER_VENDOR_ID && spec_connect_info_accepts(
            k.spec_connect_info(),
            d,
        ) => seq![(i, razer_device::RazerDeviceType::Keyboard(k))],
        _ => Seq::empty(),
    };
    let mouse_part = match razer_mouse::RazerMouseKind::spec_from_product_id(d.product_id) {
        Some(m) if d.vendor_id == razer_device::RAZER_VENDOR_ID && spec_connect_info_accepts(
            m.spec_connect_info(),
            d,
        ) => seq![(i, razer_device::RazerDeviceType::Mouse(m))],
        _ => Seq::empty(),
    };
    keyboard_part + mouse_part
}

/// The matches a whole enumeration contributes, in enumeration order.
pub open spec fn spec_scan(ds: Seq<DeviceDescriptor>) -> Seq<(
    int,
    razer_device::RazerDeviceType,
)>
    decreases ds.len(),
{
    if ds.len() == 0 {
        Seq::empty()
    } else {
        spec_scan(ds.drop_last()) + spec_scan_one(ds.len() - 1, ds.last())
    }
}

/// The name discovery picks for a matched device: the descriptor's product
/// string if present, else the device's own display name.
pub open spec fn spec_device_name(d: DeviceDescriptor, kind: razer_device::RazerDeviceType) -> Seq<
    char,
> {
    match d.product_string {
        Some(s) => s@,
        None => match kind {
            razer_device::RazerDeviceType::Keyboard(k) => k.spec_display_name(),
            razer_device::RazerDeviceType::Mouse(m) => m.spec_display_name(),
        },
    }
}

/// Walks a HID enumeration and filters it down to exactly the management
/// endpoints of recognized devices: razer vendor id, a known product id,
/// and the product's HID match criteria, in enumeration order, with the
/// name and serial each device record carries.
pub fn filter_devices(descriptors: &Vec<DeviceDescriptor>) -> (r: Vec<ScanMatch>)
    ensures
        r@.len() == spec_scan(descriptors@).len(),
        forall|j: int|
            0 <= j < r@.len() ==> {
                &&& r@[j].descriptor_index == spec_scan(descriptors@)[j].0
                &&& r@[j].kind == spec_scan(descriptors@)[j].1
                &&& r@[j].descriptor_index < descriptors@.len()
                &&& spec_descriptor_matches(descriptors@[r@[j].descriptor_index as int], r@[j].kind)
                &&& r@[j].name@ == spec_device_name(
                    descriptors@[r@[j].descriptor_index as int],
                    r@[j].kind,
                )
                &&& match descriptors@[r@[j].descriptor_index as int].serial_number {
                    Some(s) => r@[j].serial matches Some(x) && x@ == s@,
                    None => r@[j].serial is None,
                }
            },
{
    let mut found: Vec<ScanMatch> = Vec::new();
    let mut i: usize = 0;
    proof {
        assert(descriptors@.take(0) =~= Seq::<DeviceDescriptor>::empty());
    }
    while i < descriptors.len()
        invariant
            i <= descriptors@.len(),
            found@.len() == spec_scan(descriptors@.take(i as int)).len(),
            forall|j: int|
                0 <= j < found@.len() ==> {
                    &&& found@[j].descriptor_index == spec_scan(descriptors@.take(i as int))[j].0
                    &&& found@[j].kind == spec_scan(descriptors@.take(i as int))[j].1
                    &&& found@[j].descriptor_index < descriptors@.len()
                    &&& spec_descriptor_matches(
                        descriptors@[found@[j].descriptor_index as int],
                        found@[j].kind,
                    )
                    &&& found@[j].name@ == spec_device_name(
                        descriptors@[found@[j].descriptor_index as int],
                        found@[j].kind,
                    )
                    &&& match descriptors@[found@[j].descriptor_index as int].serial_number {
                        Some(s) => found@[j].serial matches Some(x) && x@ == s@,
                        None => found@[j].serial is None,
                    }
                },
        decreases descriptors@.len() - i,
    {
        let d = &descriptors[i];
        let ghost prev = spec_scan(descriptors@.take(i as int));
        if d.vendor_id == razer_device::RAZER_VENDOR_ID {
            if let Some(valid_device) = razer_keyboard::RazerKeyboardKind::from_repr(d.product_id) {
                if connect_info_accepts(&valid_device.connect_info(), d) {
                    let kind = razer_device::RazerDeviceType::Keyboard(valid_device);
                    let name = match &d.product_string {
                        Some(s) => s.clone(),
                        None => valid_device.display_name(),
                    };
                    let serial = match &d.serial_number {
                        Some(s) => Some(s.clone()),
                        None => None,
                    };
                    found.push(ScanMatch { descriptor_index: i, kind, name, serial });
                }
            }
            if let Some(valid_device) = razer_mouse::RazerMouseKind::from_repr(d.product_id) {
                if connect_info_accepts(&valid_device.connect_info(), d) {
                    let kind = razer_device::RazerDeviceType::Mouse(valid_device);
                    let name = match &d.product_string {
                        Some(s) => s.clone(),
                        None => valid_device.display_name(),
                    };
                    let serial = match &d.serial_number {
                        Some(s) => Some(s.clone()),
                        None => None,
                    };
                    found.push(ScanMatch { descriptor_index: i, kind, name, serial });
                }
            }
        }
        i += 1;
        proof {
            let cur = descriptors@.take(i as int);
            assert(cur.drop_last() =~= descriptors@.take(i as int - 1));
            assert(cur.last() == descriptors@[i as int - 1]);
            assert(spec_scan(cur) == prev + spec_scan_one(i as int - 1, descriptors@[i as int - 1]));
        }
    }
    proof {
        assert(descriptors@.take(descriptors@.len() as int) =~= descriptors@);
    }
    found
}

/// Discovery returns only management endpoints of recognized devices:
/// every match the scan emits points at a descriptor with the razer vendor
/// id whose interface number, usage, and usage page pass the matched
/// product's filter.
pub proof fn lemma_scan_only_matching(ds: Seq<DeviceDescriptor>)
    ensures
        forall|j: int|
            0 <= j < spec_scan(ds).len() ==> {
                &&& 0 <= #[trigger] spec_scan(ds)[j].0 < ds.len()
                &&& spec_descriptor_matches(ds[spec_scan(ds)[j].0], spec_scan(ds)[j].1)
            },
    decreases ds.len(),
{
    if ds.len() > 0 {
        let prefix = ds.drop_last();
        lemma_scan_only_matching(prefix);
        let one = spec_scan_one(ds.len() - 1, ds.last());
        assert(ds.last() == ds[ds.len() - 1]);
        assert forall|j: int| 0 <= j < spec_scan(ds).len() implies {
            &&& 0 <= #[trigger] spec_scan(ds)[j].0 < ds.len()
            &&& spec_descriptor_matches(ds[spec_scan(ds)[j].0], spec_scan(ds)[j].1)
        } by {
            if j < spec_scan(prefix).len() {
                assert(spec_scan(ds)[j] == spec_scan(prefix)[j]);
                assert(prefix[spec_scan(prefix)[j].0] == ds[spec_scan(prefix)[j].0]);
            } else {
                assert(spec_scan(ds)[j] == one[j - spec_scan(prefix).len()]);
            }
        };
    }
}

} // verus!
