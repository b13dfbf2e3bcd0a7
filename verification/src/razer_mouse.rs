//! The closed registry of mice this library can talk to: product ids, HID
//! match criteria, and the per-family transaction quirk.

use crate::razer_device::{RazerDeviceConnectInfo, RazerDeviceKind};
use crate::razer_report::RazerTransactionDevice;
use vstd::prelude::*;

verus! {

/// Every kind of mouse that this library can talk to, keyed by USB product
/// id. Each carries the information on how to connect to its management
/// interface.
#[derive(Debug, Clone, Copy, PartialEq, Eq, Structural)]
pub enum RazerMouseKind {
    MouseDockPro,
    BasiliskV3ProWireless,
    BasiliskV3ProWirelessDongle,
    ViperUltimateWireless,
}

impl RazerMouseKind {
    /// The USB product id of this mouse.
    pub open spec fn spec_product_id(self) -> u16 {
        match self {
            RazerMouseKind::MouseDockPro => 0x00a4,
            RazerMouseKind::BasiliskV3ProWireless => 0x00ab,
            RazerMouseKind::BasiliskV3ProWirelessDongle => 0x00aa,
            RazerMouseKind::ViperUltimateWireless => 0x007b,
        }
    }

    pub fn product_id(self) -> (v: u16)
        ensures
            v == self.spec_product_id(),
    {
        match self {
            RazerMouseKind::MouseDockPro => 0x00a4,
            RazerMouseKind::BasiliskV3ProWireless => 0x00ab,
            RazerMouseKind::BasiliskV3ProWirelessDongle => 0x00aa,
            RazerMouseKind::ViperUltimateWireless => 0x007b,
        }
    }

    /// The mouse a USB product id stands for, if any.
    pub open spec fn spec_from_product_id(v: u16) -> Option<RazerMouseKind> {
        if v == 0x00a4 {
            Some(RazerMouseKind::MouseDockPro)
        } else if v == 0x00ab {
            Some(RazerMouseKind::BasiliskV3ProWireless)
        } else if v == 0x00aa {
            Some(RazerMouseKind::BasiliskV3ProWirelessDongle)
        } else if v == 0x007b {
            Some(RazerMouseKind::ViperUltimateWireless)
        } else {
            None
        }
    }

    pub fn from_repr(v: u16) -> (r: Option<RazerMouseKind>)
        ensures
            r == RazerMouseKind::spec_from_product_id(v),
    {
        match v {
            0x00a4 => Some(RazerMouseKind::MouseDockPro),
            0x00ab => Some(RazerMouseKind::BasiliskV3ProWireless),
            0x00aa => Some(RazerMouseKind::BasiliskV3ProWirelessDongle),
            0x007b => Some(RazerMouseKind::ViperUltimateWireless),
            _ => None,
        }
    }

    /// The HID match criteria of this mouse's management interface.
    pub open spec fn spec_connect_info(self) -> RazerDeviceConnectInfo {
        RazerDeviceConnectInfo {
            interface_number: Some(0),
            usage: Some(2),
            usage_page: Some(1),
        }
    }

    pub fn connect_info(self) -> (c: RazerDeviceConnectInfo)
        ensures
            c == self.spec_connect_info(),
    {
        RazerDeviceConnectInfo { interface_number: Some(0), usage: Some(2), usage_page: Some(1) }
    }

    /// The display name of this mouse, used when the HID layer reports no
    /// product string.
    pub open spec fn spec_display_name(self) -> Seq<char> {
        match self {
            RazerMouseKind::MouseDockPro => "MouseDockPro"@,
            RazerMouseKind::BasiliskV3ProWireless => "BasiliskV3ProWireless"@,
            RazerMouseKind::BasiliskV3ProWirelessDongle => "BasiliskV3ProWirelessDongle"@,
            RazerMouseKind::ViperUltimateWireless => "ViperUltimateWireless"@,
        }
    }

    pub fn display_name(self) -> (s: String)
        ensures
            s@ == self.spec_display_name(),
    {
        let name: &str = match self {
            RazerMouseKind::MouseDockPro => "MouseDockPro",
            RazerMouseKind::BasiliskV3ProWireless => "BasiliskV3ProWireless",
            RazerMouseKind::BasiliskV3ProWirelessDongle => "BasiliskV3ProWirelessDongle",
            RazerMouseKind::ViperUltimateWireless => "ViperUltimateWireless",
        };
        name.to_owned()
    }
}

impl RazerDeviceKind for RazerMouseKind {
    open spec fn spec_transaction_device(&self) -> RazerTransactionDevice {
        RazerTransactionDevice::Seven
    }

    fn get_transaction_device(&self) -> (d: RazerTransactionDevice) {
        RazerTransactionDevice::Seven
    }
}

} // verus!
