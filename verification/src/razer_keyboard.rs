//! The closed registry of keyboards this library can talk to: product ids,
//! HID match criteria, capability predicates, the per-family transaction
//! quirk, and the brightness dispatch that those capabilities drive.

use crate::razer_device::{RazerDeviceConnectInfo, RazerDeviceKind};
use crate::razer_report::{
    RazerCommand, RazerCommandDirection, RazerLed, RazerReport, RazerStorage,
    RazerTransactionDevice,
};
use vstd::prelude::*;

verus! {

/// Every kind of keyboard that this library can talk to, keyed by USB
/// product id. Each carries the information on how to connect to its
/// management interface.
#[derive(Debug, Clone, Copy, PartialEq, Eq, Structural)]
pub enum RazerKeyboardKind {
    BlackwidowUltimate2012,
    BlackwidowStealthEdition,
    Anansi,
    Nostromo,
    Orbweaver,
    BlackwidowUltimate2013,
    BlackwidowStealth,
    BlackwidowTe2014,
    Tartarus,
    DeathstalkerExpert,
    BlackwidowChroma,
    DeathstalkerChroma,
    BladeStealth,
    OrbweaverChroma,
    TartarusChroma,
    BlackwidowChromaTe,
    BladeQhd,
    BladeProLate2016,
    BlackwidowOverwatch,
    BlackwidowUltimate2016,
    BlackwidowXChroma,
    BlackwidowXUltimate,
    BlackwidowXChromaTe,
    OrnataChroma,
    Ornata,
    BladeStealthLate2016,
    BlackwidowChromaV2,
    BladeLate2016,
    BladePro2017,
    HuntsmanElite,
    Huntsman,
    BlackwidowElite,
    CynosaChroma,
    TartarusV2,
    CynosaChromaPro,
    BladeStealthMid2017,
    BladePro2017Fullhd,
    BladeStealthLate2017,
    Blade2018,
    BladePro2019,
    BlackwidowLite,
    BlackwidowEssential,
    BladeStealth2019,
    Blade2019Adv,
    Blade2018Base,
    CynosaLite,
    Blade2018Mercury,
    Blackwidow2019,
    HuntsmanTe,
    BladeMid2019Mercury,
    Blade2019Base,
    BladeStealthLate2019,
    BladeProLate2019,
    BladeStudioEdition2019,
    BlackwidowV3,
    BladeStealthEarly2020,
    Blade15Adv2020,
    BladeEarly2020Base,
    BladeProEarly2020,
    HuntsmanMini,
    BlackwidowV3Mini,
    BladeStealthLate2020,
    BlackwidowV3ProWired,
    BlackwidowV3ProWireless,
    OrnataV2,
    CynosaV2,
    HuntsmanV2Analog,
    HuntsmanMiniJp,
    Book2020,
    HuntsmanV2TKL,
    HuntsmanV2,
    Blade15AdvEarly2021,
    Blade15BaseEarly2021,
    Blade142021,
    BlackwidowV3MiniWireless,
    Blade15AdvMid2021,
    Blade17ProMid2021,
    BlackwidowV3Tk,
}

impl RazerKeyboardKind {
    /// The USB product id of this keyboard.
    pub open spec fn spec_product_id(self) -> u16 {
        match self {
            RazerKeyboardKind::BlackwidowUltimate2012 => 0x010d,
            RazerKeyboardKind::BlackwidowStealthEdition => 0x010e,
            RazerKeyboardKind::Anansi => 0x010f,
            RazerKeyboardKind::Nostromo => 0x0111,
            RazerKeyboardKind::Orbweaver => 0x0113,
            RazerKeyboardKind::BlackwidowUltimate2013 => 0x011a,
            RazerKeyboardKind::BlackwidowStealth => 0x011b,
            RazerKeyboardKind::BlackwidowTe2014 => 0x011c,
            RazerKeyboardKind::Tartarus => 0x0201,
            RazerKeyboardKind::DeathstalkerExpert => 0x0202,
            RazerKeyboardKind::BlackwidowChroma => 0x0203,
            RazerKeyboardKind::DeathstalkerChroma => 0x0204,
            RazerKeyboardKind::BladeStealth => 0x0205,
            RazerKeyboardKind::OrbweaverChroma => 0x0207,
            RazerKeyboardKind::TartarusChroma => 0x0208,
            RazerKeyboardKind::BlackwidowChromaTe => 0x0209,
            RazerKeyboardKind::BladeQhd => 0x020f,
            RazerKeyboardKind::BladeProLate2016 => 0x0210,
            RazerKeyboardKind::BlackwidowOverwatch => 0x0211,
            RazerKeyboardKind::BlackwidowUltimate2016 => 0x0214,
            RazerKeyboardKind::BlackwidowXChroma => 0x0216,
            RazerKeyboardKind::BlackwidowXUltimate => 0x0217,
            RazerKeyboardKind::BlackwidowXChromaTe => 0x021a,
            RazerKeyboardKind::OrnataChroma => 0x021e,
            RazerKeyboardKind::Ornata => 0x021f,
            RazerKeyboardKind::BladeStealthLate2016 => 0x0220,
            RazerKeyboardKind::BlackwidowChromaV2 => 0x0221,
            RazerKeyboardKind::BladeLate2016 => 0x0224,
            RazerKeyboardKind::BladePro2017 => 0x0225,
            RazerKeyboardKind::HuntsmanElite => 0x0226,
            RazerKeyboardKind::Huntsman => 0x0227,
            RazerKeyboardKind::BlackwidowElite => 0x0228,
            RazerKeyboardKind::CynosaChroma => 0x022a,
            RazerKeyboardKind::TartarusV2 => 0x022b,
            RazerKeyboardKind::CynosaChromaPro => 0x022c,
            RazerKeyboardKind::BladeStealthMid2017 => 0x022d,
            RazerKeyboardKind::BladePro2017Fullhd => 0x022f,
            RazerKeyboardKind::BladeStealthLate2017 => 0x0232,
            RazerKeyboardKind::Blade2018 => 0x0233,
            RazerKeyboardKind::BladePro2019 => 0x0234,
            RazerKeyboardKind::BlackwidowLite => 0x0235,
            RazerKeyboardKind::BlackwidowEssential => 0x0237,
            RazerKeyboardKind::BladeStealth2019 => 0x0239,
            RazerKeyboardKind::Blade2019Adv => 0x023a,
            RazerKeyboardKind::Blade2018Base => 0x023b,
            RazerKeyboardKind::CynosaLite => 0x023f,
            RazerKeyboardKind::Blade2018Mercury => 0x0240,
            RazerKeyboardKind::Blackwidow2019 => 0x0241,
            RazerKeyboardKind::HuntsmanTe => 0x0243,
            RazerKeyboardKind::BladeMid2019Mercury => 0x0245,
            RazerKeyboardKind::Blade2019Base => 0x0246,
            RazerKeyboardKind::BladeStealthLate2019 => 0x024a,
            RazerKeyboardKind::BladeProLate2019 => 0x024c,
            RazerKeyboardKind::BladeStudioEdition2019 => 0x024d,
            RazerKeyboardKind::BlackwidowV3 => 0x024e,
            RazerKeyboardKind::BladeStealthEarly2020 => 0x0252,
            RazerKeyboardKind::Blade15Adv2020 => 0x0253,
            RazerKeyboardKind::BladeEarly2020Base => 0x0255,
            RazerKeyboardKind::BladeProEarly2020 => 0x0256,
            RazerKeyboardKind::HuntsmanMini => 0x0257,
            RazerKeyboardKind::BlackwidowV3Mini => 0x0258,
            RazerKeyboardKind::BladeStealthLate2020 => 0x0259,
            RazerKeyboardKind::BlackwidowV3ProWired => 0x025a,
            RazerKeyboardKind::BlackwidowV3ProWireless => 0x025c,
            RazerKeyboardKind::OrnataV2 => 0x025d,
            RazerKeyboardKind::CynosaV2 => 0x025e,
            RazerKeyboardKind::HuntsmanV2Analog => 0x0266,
            RazerKeyboardKind::HuntsmanMiniJp => 0x0269,
            RazerKeyboardKind::Book2020 => 0x026a,
            RazerKeyboardKind::HuntsmanV2TKL => 0x026b,
            RazerKeyboardKind::HuntsmanV2 => 0x026c,
            RazerKeyboardKind::Blade15AdvEarly2021 => 0x026d,
            RazerKeyboardKind::Blade15BaseEarly2021 => 0x026f,
            RazerKeyboardKind::Blade142021 => 0x0270,
            RazerKeyboardKind::BlackwidowV3MiniWireless => 0x0271,
            RazerKeyboardKind::Blade15AdvMid2021 => 0x0276,
            RazerKeyboardKind::Blade17ProMid2021 => 0x0279,
            RazerKeyboardKind::BlackwidowV3Tk => 0x0a24,
        }
    }

    pub fn product_id(self) -> (v: u16)
        ensures
            v == self.spec_product_id(),
    {
        match self {
            RazerKeyboardKind::BlackwidowUltimate2012 => 0x010d,
            RazerKeyboardKind::BlackwidowStealthEdition => 0x010e,
            RazerKeyboardKind::Anansi => 0x010f,
            RazerKeyboardKind::Nostromo => 0x0111,
            RazerKeyboardKind::Orbweaver => 0x0113,
            RazerKeyboardKind::BlackwidowUltimate2013 => 0x011a,
            RazerKeyboardKind::BlackwidowStealth => 0x011b,
            RazerKeyboardKind::BlackwidowTe2014 => 0x011c,
            RazerKeyboardKind::Tartarus => 0x0201,
            RazerKeyboardKind::DeathstalkerExpert => 0x0202,
            RazerKeyboardKind::BlackwidowChroma => 0x0203,
            RazerKeyboardKind::DeathstalkerChroma => 0x0204,
            RazerKeyboardKind::BladeStealth => 0x0205,
            RazerKeyboardKind::OrbweaverChroma => 0x0207,
            RazerKeyboardKind::TartarusChroma => 0x0208,
            RazerKeyboardKind::BlackwidowChromaTe => 0x0209,
            RazerKeyboardKind::BladeQhd => 0x020f,
            RazerKeyboardKind::BladeProLate2016 => 0x0210,
            RazerKeyboardKind::BlackwidowOverwatch => 0x0211,
            RazerKeyboardKind::BlackwidowUltimate2016 => 0x0214,
            RazerKeyboardKind::BlackwidowXChroma => 0x0216,
            RazerKeyboardKind::BlackwidowXUltimate => 0x0217,
            RazerKeyboardKind::BlackwidowXChromaTe => 0x021a,
            RazerKeyboardKind::OrnataChroma => 0x021e,
            RazerKeyboardKind::Ornata => 0x021f,
            RazerKeyboardKind::BladeStealthLate2016 => 0x0220,
            RazerKeyboardKind::BlackwidowChromaV2 => 0x0221,
            RazerKeyboardKind::BladeLate2016 => 0x0224,
            RazerKeyboardKind::BladePro2017 => 0x0225,
            RazerKeyboardKind::HuntsmanElite => 0x0226,
            RazerKeyboardKind::Huntsman => 0x0227,
            RazerKeyboardKind::BlackwidowElite => 0x0228,
            RazerKeyboardKind::CynosaChroma => 0x022a,
            RazerKeyboardKind::TartarusV2 => 0x022b,
            RazerKeyboardKind::CynosaChromaPro => 0x022c,
            RazerKeyboardKind::BladeStealthMid2017 => 0x022d,
            RazerKeyboardKind::BladePro2017Fullhd => 0x022f,
            RazerKeyboardKind::BladeStealthLate2017 => 0x0232,
            RazerKeyboardKind::Blade2018 => 0x0233,
            RazerKeyboardKind::BladePro2019 => 0x0234,
            RazerKeyboardKind::BlackwidowLite => 0x0235,
            RazerKeyboardKind::BlackwidowEssential => 0x0237,
            RazerKeyboardKind::BladeStealth2019 => 0x0239,
            RazerKeyboardKind::Blade2019Adv => 0x023a,
            RazerKeyboardKind::Blade2018Base => 0x023b,
            RazerKeyboardKind::CynosaLite => 0x023f,
            RazerKeyboardKind::Blade2018Mercury => 0x0240,
            RazerKeyboardKind::Blackwidow2019 => 0x0241,
            RazerKeyboardKind::HuntsmanTe => 0x0243,
            RazerKeyboardKind::BladeMid2019Mercury => 0x0245,
            RazerKeyboardKind::Blade2019Base => 0x0246,
            RazerKeyboardKind::BladeStealthLate2019 => 0x024a,
            RazerKeyboardKind::BladeProLate2019 => 0x024c,
            RazerKeyboardKind::BladeStudioEdition2019 => 0x024d,
            RazerKeyboardKind::BlackwidowV3 => 0x024e,
            RazerKeyboardKind::BladeStealthEarly2020 => 0x0252,
            RazerKeyboardKind::Blade15Adv2020 => 0x0253,
            RazerKeyboardKind::BladeEarly2020Base => 0x0255,
            RazerKeyboardKind::BladeProEarly2020 => 0x0256,
            RazerKeyboardKind::HuntsmanMini => 0x0257,
            RazerKeyboardKind::BlackwidowV3Mini => 0x0258,
            RazerKeyboardKind::BladeStealthLate2020 => 0x0259,
            RazerKeyboardKind::BlackwidowV3ProWired => 0x025a,
            RazerKeyboardKind::BlackwidowV3ProWireless => 0x025c,
            RazerKeyboardKind::OrnataV2 => 0x025d,
            RazerKeyboardKind::CynosaV2 => 0x025e,
            RazerKeyboardKind::HuntsmanV2Analog => 0x0266,
            RazerKeyboardKind::HuntsmanMiniJp => 0x0269,
            RazerKeyboardKind::Book2020 => 0x026a,
            RazerKeyboardKind::HuntsmanV2TKL => 0x026b,
            RazerKeyboardKind::HuntsmanV2 => 0x026c,
            RazerKeyboardKind::Blade15AdvEarly2021 => 0x026d,
            RazerKeyboardKind::Blade15BaseEarly2021 => 0x026f,
            RazerKeyboardKind::Blade142021 => 0x0270,
            RazerKeyboardKind::BlackwidowV3MiniWireless => 0x0271,
            RazerKeyboardKind::Blade15AdvMid2021 => 0x0276,
            RazerKeyboardKind::Blade17ProMid2021 => 0x0279,
            RazerKeyboardKind::BlackwidowV3Tk => 0x0a24,
        }
    }

    /// The keyboard a USB product id stands for, if any.
    pub open spec fn spec_from_product_id(v: u16) -> Option<RazerKeyboardKind> {
        if v == 0x010d {
            Some(RazerKeyboardKind::BlackwidowUltimate2012)
        } else if v == 0x010e {
            Some(RazerKeyboardKind::BlackwidowStealthEdition)
        } else if v == 0x010f {
            Some(RazerKeyboardKind::Anansi)
        } else if v == 0x0111 {
            Some(RazerKeyboardKind::Nostromo)
        } else if v == 0x0113 {
            Some(RazerKeyboardKind::Orbweaver)
        } else if v == 0x011a {
            Some(RazerKeyboardKind::BlackwidowUltimate2013)
        } else if v == 0x011b {
            Some(RazerKeyboardKind::BlackwidowStealth)
        } else if v == 0x011c {
            Some(RazerKeyboardKind::BlackwidowTe2014)
        } else if v == 0x0201 {
            Some(RazerKeyboardKind::Tartarus)
        } else if v == 0x0202 {
            Some(RazerKeyboardKind::DeathstalkerExpert)
        } else if v == 0x0203 {
            Some(RazerKeyboardKind::BlackwidowChroma)
        } else if v == 0x0204 {
            Some(RazerKeyboardKind::DeathstalkerChroma)
        } else if v == 0x0205 {
            Some(RazerKeyboardKind::BladeStealth)
        } else if v == 0x0207 {
            Some(RazerKeyboardKind::OrbweaverChroma)
        } else if v == 0x0208 {
            Some(RazerKeyboardKind::TartarusChroma)
        } else if v == 0x0209 {
            Some(RazerKeyboardKind::BlackwidowChromaTe)
        } else if v == 0x020f {
            Some(RazerKeyboardKind::BladeQhd)
        } else if v == 0x0210 {
            Some(RazerKeyboardKind::BladeProLate2016)
        } else if v == 0x0211 {
            Some(RazerKeyboardKind::BlackwidowOverwatch)
        } else if v == 0x0214 {
            Some(RazerKeyboardKind::BlackwidowUltimate2016)
        } else if v == 0x0216 {
            Some(RazerKeyboardKind::BlackwidowXChroma)
        } else if v == 0x0217 {
            Some(RazerKeyboardKind::BlackwidowXUltimate)
        } else if v == 0x021a {
            Some(RazerKeyboardKind::BlackwidowXChromaTe)
        } else if v == 0x021e {
            Some(RazerKeyboardKind::OrnataChroma)
        } else if v == 0x021f {
            Some(RazerKeyboardKind::Ornata)
        } else if v == 0x0220 {
            Some(RazerKeyboardKind::BladeStealthLate2016)
        } else if v == 0x0221 {
            Some(RazerKeyboardKind::BlackwidowChromaV2)
        } else if v == 0x0224 {
            Some(RazerKeyboardKind::BladeLate2016)
        } else if v == 0x0225 {
            Some(RazerKeyboardKind::BladePro2017)
        } else if v == 0x0226 {
            Some(RazerKeyboardKind::HuntsmanElite)
        } else if v == 0x0227 {
            Some(RazerKeyboardKind::Huntsman)
        } else if v == 0x0228 {
            Some(RazerKeyboardKind::BlackwidowElite)
        } else if v == 0x022a {
            Some(RazerKeyboardKind::CynosaChroma)
        } else if v == 0x022b {
            Some(RazerKeyboardKind::TartarusV2)
        } else if v == 0x022c {
            Some(RazerKeyboardKind::CynosaChromaPro)
        } else if v == 0x022d {
            Some(RazerKeyboardKind::BladeStealthMid2017)
        } else if v == 0x022f {
            Some(RazerKeyboardKind::BladePro2017Fullhd)
        } else if v == 0x0232 {
            Some(RazerKeyboardKind::BladeStealthLate2017)
        } else if v == 0x0233 {
            Some(RazerKeyboardKind::Blade2018)
        } else if v == 0x0234 {
            Some(RazerKeyboardKind::BladePro2019)
        } else if v == 0x0235 {
            Some(RazerKeyboardKind::BlackwidowLite)
        } else if v == 0x0237 {
            Some(RazerKeyboardKind::BlackwidowEssential)
        } else if v == 0x0239 {
            Some(RazerKeyboardKind::BladeStealth2019)
        } else if v == 0x023a {
            Some(RazerKeyboardKind::Blade2019Adv)
        } else if v == 0x023b {
            Some(RazerKeyboardKind::Blade2018Base)
        } else if v == 0x023f {
            Some(RazerKeyboardKind::CynosaLite)
        } else if v == 0x0240 {
            Some(RazerKeyboardKind::Blade2018Mercury)
        } else if v == 0x0241 {
            Some(RazerKeyboardKind::Blackwidow2019)
        } else if v == 0x0243 {
            Some(RazerKeyboardKind::HuntsmanTe)
        } else if v == 0x0245 {
            Some(RazerKeyboardKind::BladeMid2019Mercury)
        } else if v == 0x0246 {
            Some(RazerKeyboardKind::Blade2019Base)
        } else if v == 0x024a {
            Some(RazerKeyboardKind::BladeStealthLate2019)
        } else if v == 0x024c {
            Some(RazerKeyboardKind::BladeProLate2019)
        } else if v == 0x024d {
            Some(RazerKeyboardKind::BladeStudioEdition2019)
        } else if v == 0x024e {
            Some(RazerKeyboardKind::BlackwidowV3)
        } else if v == 0x0252 {
            Some(RazerKeyboardKind::BladeStealthEarly2020)
        } else if v == 0x0253 {
            Some(RazerKeyboardKind::Blade15Adv2020)
        } else if v == 0x0255 {
            Some(RazerKeyboardKind::BladeEarly2020Base)
        } else if v == 0x0256 {
            Some(RazerKeyboardKind::BladeProEarly2020)
        } else if v == 0x0257 {
            Some(RazerKeyboardKind::HuntsmanMini)
        } else if v == 0x0258 {
            Some(RazerKeyboardKind::BlackwidowV3Mini)
        } else if v == 0x0259 {
            Some(RazerKeyboardKind::BladeStealthLate2020)
        } else if v == 0x025a {
            Some(RazerKeyboardKind::BlackwidowV3ProWired)
        } else if v == 0x025c {
            Some(RazerKeyboardKind::BlackwidowV3ProWireless)
        } else if v == 0x025d {
            Some(RazerKeyboardKind::OrnataV2)
        } else if v == 0x025e {
            Some(RazerKeyboardKind::CynosaV2)
        } else if v == 0x0266 {
            Some(RazerKeyboardKind::HuntsmanV2Analog)
        } else if v == 0x0269 {
            Some(RazerKeyboardKind::HuntsmanMiniJp)
        } else if v == 0x026a {
            Some(RazerKeyboardKind::Book2020)
        } else if v == 0x026b {
            Some(RazerKeyboardKind::HuntsmanV2TKL)
        } else if v == 0x026c {
            Some(RazerKeyboardKind::HuntsmanV2)
        } else if v == 0x026d {
            Some(RazerKeyboardKind::Blade15AdvEarly2021)
        } else if v == 0x026f {
            Some(RazerKeyboardKind::Blade15BaseEarly2021)
        } else if v == 0x0270 {
            Some(RazerKeyboardKind::Blade142021)
        } else if v == 0x0271 {
            Some(RazerKeyboardKind::BlackwidowV3MiniWireless)
        } else if v == 0x0276 {
            Some(RazerKeyboardKind::Blade15AdvMid2021)
        } else if v == 0x0279 {
            Some(RazerKeyboardKind::Blade17ProMid2021)
        } else if v == 0x0a24 {
            Some(RazerKeyboardKind::BlackwidowV3Tk)
        } else {
            None
        }
    }

    pub fn from_repr(v: u16) -> (r: Option<RazerKeyboardKind>)
        ensures
            r == RazerKeyboardKind::spec_from_product_id(v),
    {
        match v {
            0x010d => Some(RazerKeyboardKind::BlackwidowUltimate2012),
            0x010e => Some(RazerKeyboardKind::BlackwidowStealthEdition),
            0x010f => Some(RazerKeyboardKind::Anansi),
            0x0111 => Some(RazerKeyboardKind::Nostromo),
            0x0113 => Some(RazerKeyboardKind::Orbweaver),
            0x011a => Some(RazerKeyboardKind::BlackwidowUltimate2013),
            0x011b => Some(RazerKeyboardKind::BlackwidowStealth),
            0x011c => Some(RazerKeyboardKind::BlackwidowTe2014),
            0x0201 => Some(RazerKeyboardKind::Tartarus),
            0x0202 => Some(RazerKeyboardKind::DeathstalkerExpert),
            0x0203 => Some(RazerKeyboardKind::BlackwidowChroma),
            0x0204 => Some(RazerKeyboardKind::DeathstalkerChroma),
            0x0205 => Some(RazerKeyboardKind::BladeStealth),
            0x0207 => Some(RazerKeyboardKind::OrbweaverChroma),
            0x0208 => Some(RazerKeyboardKind::TartarusChroma),
            0x0209 => Some(RazerKeyboardKind::BlackwidowChromaTe),
            0x020f => Some(RazerKeyboardKind::BladeQhd),
            0x0210 => Some(RazerKeyboardKind::BladeProLate2016),
            0x0211 => Some(RazerKeyboardKind::BlackwidowOverwatch),
            0x0214 => Some(RazerKeyboardKind::BlackwidowUltimate2016),
            0x0216 => Some(RazerKeyboardKind::BlackwidowXChroma),
            0x0217 => Some(RazerKeyboardKind::BlackwidowXUltimate),
            0x021a => Some(RazerKeyboardKind::BlackwidowXChromaTe),
            0x021e => Some(RazerKeyboardKind::OrnataChroma),
            0x021f => Some(RazerKeyboardKind::Ornata),
            0x0220 => Some(RazerKeyboardKind::BladeStealthLate2016),
            0x0221 => Some(RazerKeyboardKind::BlackwidowChromaV2),
            0x0224 => Some(RazerKeyboardKind::BladeLate2016),
            0x0225 => Some(RazerKeyboardKind::BladePro2017),
            0x0226 => Some(RazerKeyboardKind::HuntsmanElite),
            0x0227 => Some(RazerKeyboardKind::Huntsman),
            0x0228 => Some(RazerKeyboardKind::BlackwidowElite),
            0x022a => Some(RazerKeyboardKind::CynosaChroma),
            0x022b => Some(RazerKeyboardKind::TartarusV2),
            0x022c => Some(RazerKeyboardKind::CynosaChromaPro),
            0x022d => Some(RazerKeyboardKind::BladeStealthMid2017),
            0x022f => Some(RazerKeyboardKind::BladePro2017Fullhd),
            0x0232 => Some(RazerKeyboardKind::BladeStealthLate2017),
            0x0233 => Some(RazerKeyboardKind::Blade2018),
            0x0234 => Some(RazerKeyboardKind::BladePro2019),
            0x0235 => Some(RazerKeyboardKind::BlackwidowLite),
            0x0237 => Some(RazerKeyboardKind::BlackwidowEssential),
            0x0239 => Some(RazerKeyboardKind::BladeStealth2019),
            0x023a => Some(RazerKeyboardKind::Blade2019Adv),
            0x023b => Some(RazerKeyboardKind::Blade2018Base),
            0x023f => Some(RazerKeyboardKind::CynosaLite),
            0x0240 => Some(RazerKeyboardKind::Blade2018Mercury),
            0x0241 => Some(RazerKeyboardKind::Blackwidow2019),
            0x0243 => Some(RazerKeyboardKind::HuntsmanTe),
            0x0245 => Some(RazerKeyboardKind::BladeMid2019Mercury),
            0x0246 => Some(RazerKeyboardKind::Blade2019Base),
            0x024a => Some(RazerKeyboardKind::BladeStealthLate2019),
            0x024c => Some(RazerKeyboardKind::BladeProLate2019),
            0x024d => Some(RazerKeyboardKind::BladeStudioEdition2019),
            0x024e => Some(RazerKeyboardKind::BlackwidowV3),
            0x0252 => Some(RazerKeyboardKind::BladeStealthEarly2020),
            0x0253 => Some(RazerKeyboardKind::Blade15Adv2020),
            0x0255 => Some(RazerKeyboardKind::BladeEarly2020Base),
            0x0256 => Some(RazerKeyboardKind::BladeProEarly2020),
            0x0257 => Some(RazerKeyboardKind::HuntsmanMini),
            0x0258 => Some(RazerKeyboardKind::BlackwidowV3Mini),
            0x0259 => Some(RazerKeyboardKind::BladeStealthLate2020),
            0x025a => Some(RazerKeyboardKind::BlackwidowV3ProWired),
            0x025c => Some(RazerKeyboardKind::BlackwidowV3ProWireless),
            0x025d => Some(RazerKeyboardKind::OrnataV2),
            0x025e => Some(RazerKeyboardKind::CynosaV2),
            0x0266 => Some(RazerKeyboardKind::HuntsmanV2Analog),
            0x0269 => Some(RazerKeyboardKind::HuntsmanMiniJp),
            0x026a => Some(RazerKeyboardKind::Book2020),
            0x026b => Some(RazerKeyboardKind::HuntsmanV2TKL),
            0x026c => Some(RazerKeyboardKind::HuntsmanV2),
            0x026d => Some(RazerKeyboardKind::Blade15AdvEarly2021),
            0x026f => Some(RazerKeyboardKind::Blade15BaseEarly2021),
            0x0270 => Some(RazerKeyboardKind::Blade142021),
            0x0271 => Some(RazerKeyboardKind::BlackwidowV3MiniWireless),
            0x0276 => Some(RazerKeyboardKind::Blade15AdvMid2021),
            0x0279 => Some(RazerKeyboardKind::Blade17ProMid2021),
            0x0a24 => Some(RazerKeyboardKind::BlackwidowV3Tk),
            _ => None,
        }
    }

    /// The HID match criteria of this keyboard's management interface.
    pub open spec fn spec_connect_info(self) -> RazerDeviceConnectInfo {
        match self {
            RazerKeyboardKind::BlackwidowV3
            | RazerKeyboardKind::BlackwidowV3Mini
            | RazerKeyboardKind::BlackwidowV3ProWireless
            | RazerKeyboardKind::HuntsmanV2Analog
            | RazerKeyboardKind::HuntsmanV2TKL
            | RazerKeyboardKind::HuntsmanV2
            | RazerKeyboardKind::BlackwidowV3MiniWireless => (RazerDeviceConnectInfo {
                interface_number: Some(3),
                usage: Some(1),
                usage_page: Some(0x0C),
            }),
            _ => (RazerDeviceConnectInfo {
                interface_number: Some(2),
                usage: Some(2),
                usage_page: Some(1),
            }),
        }
    }

    pub fn connect_info(self) -> (c: RazerDeviceConnectInfo)
        ensures
            c == self.spec_connect_info(),
    {
        match self {
            RazerKeyboardKind::BlackwidowV3
            | RazerKeyboardKind::BlackwidowV3Mini
            | RazerKeyboardKind::BlackwidowV3ProWireless
            | RazerKeyboardKind::HuntsmanV2Analog
            | RazerKeyboardKind::HuntsmanV2TKL
            | RazerKeyboardKind::HuntsmanV2
            | RazerKeyboardKind::BlackwidowV3MiniWireless => RazerDeviceConnectInfo {
                interface_number: Some(3),
                usage: Some(1),
                usage_page: Some(0x0C),
            },
            _ => RazerDeviceConnectInfo {
                interface_number: Some(2),
                usage: Some(2),
                usage_page: Some(1),
            },
        }
    }

    /// The display name of this keyboard, used when the HID layer reports
    /// no product string.
    pub open spec fn spec_display_name(self) -> Seq<char> {
        match self {
            RazerKeyboardKind::BlackwidowUltimate2012 => "BlackwidowUltimate2012"@,
            RazerKeyboardKind::BlackwidowStealthEdition => "BlackwidowStealthEdition"@,
            RazerKeyboardKind::Anansi => "Anansi"@,
            RazerKeyboardKind::Nostromo => "Nostromo"@,
            RazerKeyboardKind::Orbweaver => "Orbweaver"@,
            RazerKeyboardKind::BlackwidowUltimate2013 => "BlackwidowUltimate2013"@,
            RazerKeyboardKind::BlackwidowStealth => "BlackwidowStealth"@,
            RazerKeyboardKind::BlackwidowTe2014 => "BlackwidowTe2014"@,
            RazerKeyboardKind::Tartarus => "Tartarus"@,
            RazerKeyboardKind::DeathstalkerExpert => "DeathstalkerExpert"@,
            RazerKeyboardKind::BlackwidowChroma => "BlackwidowChroma"@,
            RazerKeyboardKind::DeathstalkerChroma => "DeathstalkerChroma"@,
            RazerKeyboardKind::BladeStealth => "BladeStealth"@,
            RazerKeyboardKind::OrbweaverChroma => "OrbweaverChroma"@,
            RazerKeyboardKind::TartarusChroma => "TartarusChroma"@,
            RazerKeyboardKind::BlackwidowChromaTe => "BlackwidowChromaTe"@,
            RazerKeyboardKind::BladeQhd => "BladeQhd"@,
            RazerKeyboardKind::BladeProLate2016 => "BladeProLate2016"@,
            RazerKeyboardKind::BlackwidowOverwatch => "BlackwidowOverwatch"@,
            RazerKeyboardKind::BlackwidowUltimate2016 => "BlackwidowUltimate2016"@,
            RazerKeyboardKind::BlackwidowXChroma => "BlackwidowXChroma"@,
            RazerKeyboardKind::BlackwidowXUltimate => "BlackwidowXUltimate"@,
            RazerKeyboardKind::BlackwidowXChromaTe => "BlackwidowXChromaTe"@,
            RazerKeyboardKind::OrnataChroma => "OrnataChroma"@,
            RazerKeyboardKind::Ornata => "Ornata"@,
            RazerKeyboardKind::BladeStealthLate2016 => "BladeStealthLate2016"@,
            RazerKeyboardKind::BlackwidowChromaV2 => "BlackwidowChromaV2"@,
            RazerKeyboardKind::BladeLate2016 => "BladeLate2016"@,
            RazerKeyboardKind::BladePro2017 => "BladePro2017"@,
            RazerKeyboardKind::HuntsmanElite => "HuntsmanElite"@,
            RazerKeyboardKind::Huntsman => "Huntsman"@,
            RazerKeyboardKind::BlackwidowElite => "BlackwidowElite"@,
            RazerKeyboardKind::CynosaChroma => "CynosaChroma"@,
            RazerKeyboardKind::TartarusV2 => "TartarusV2"@,
            RazerKeyboardKind::CynosaChromaPro => "CynosaChromaPro"@,
            RazerKeyboardKind::BladeStealthMid2017 => "BladeStealthMid2017"@,
            RazerKeyboardKind::BladePro2017Fullhd => "BladePro2017Fullhd"@,
            RazerKeyboardKind::BladeStealthLate2017 => "BladeStealthLate2017"@,
            RazerKeyboardKind::Blade2018 => "Blade2018"@,
            RazerKeyboardKind::BladePro2019 => "BladePro2019"@,
            RazerKeyboardKind::BlackwidowLite => "BlackwidowLite"@,
            RazerKeyboardKind::BlackwidowEssential => "BlackwidowEssential"@,
            RazerKeyboardKind::BladeStealth2019 => "BladeStealth2019"@,
            RazerKeyboardKind::Blade2019Adv => "Blade2019Adv"@,
            RazerKeyboardKind::Blade2018Base => "Blade2018Base"@,
            RazerKeyboardKind::CynosaLite => "CynosaLite"@,
            RazerKeyboardKind::Blade2018Mercury => "Blade2018Mercury"@,
            RazerKeyboardKind::Blackwidow2019 => "Blackwidow2019"@,
            RazerKeyboardKind::HuntsmanTe => "HuntsmanTe"@,
            RazerKeyboardKind::BladeMid2019Mercury => "BladeMid2019Mercury"@,
            RazerKeyboardKind::Blade2019Base => "Blade2019Base"@,
            RazerKeyboardKind::BladeStealthLate2019 => "BladeStealthLate2019"@,
            RazerKeyboardKind::BladeProLate2019 => "BladeProLate2019"@,
            RazerKeyboardKind::BladeStudioEdition2019 => "BladeStudioEdition2019"@,
            RazerKeyboardKind::BlackwidowV3 => "BlackwidowV3"@,
            RazerKeyboardKind::BladeStealthEarly2020 => "BladeStealthEarly2020"@,
            RazerKeyboardKind::Blade15Adv2020 => "Blade15Adv2020"@,
            RazerKeyboardKind::BladeEarly2020Base => "BladeEarly2020Base"@,
            RazerKeyboardKind::BladeProEarly2020 => "BladeProEarly2020"@,
            RazerKeyboardKind::HuntsmanMini => "HuntsmanMini"@,
            RazerKeyboardKind::BlackwidowV3Mini => "BlackwidowV3Mini"@,
            RazerKeyboardKind::BladeStealthLate2020 => "BladeStealthLate2020"@,
            RazerKeyboardKind::BlackwidowV3ProWired => "BlackwidowV3ProWired"@,
            RazerKeyboardKind::BlackwidowV3ProWireless => "BlackwidowV3ProWireless"@,
            RazerKeyboardKind::OrnataV2 => "OrnataV2"@,
            RazerKeyboardKind::CynosaV2 => "CynosaV2"@,
            RazerKeyboardKind::HuntsmanV2Analog => "HuntsmanV2Analog"@,
            RazerKeyboardKind::HuntsmanMiniJp => "HuntsmanMiniJp"@,
            RazerKeyboardKind::Book2020 => "Book2020"@,
            RazerKeyboardKind::HuntsmanV2TKL => "HuntsmanV2TKL"@,
            RazerKeyboardKind::HuntsmanV2 => "HuntsmanV2"@,
            RazerKeyboardKind::Blade15AdvEarly2021 => "Blade15AdvEarly2021"@,
            RazerKeyboardKind::Blade15BaseEarly2021 => "Blade15BaseEarly2021"@,
            RazerKeyboardKind::Blade142021 => "Blade142021"@,
            RazerKeyboardKind::BlackwidowV3MiniWireless => "BlackwidowV3MiniWireless"@,
            RazerKeyboardKind::Blade15AdvMid2021 => "Blade15AdvMid2021"@,
            RazerKeyboardKind::Blade17ProMid2021 => "Blade17ProMid2021"@,
            RazerKeyboardKind::BlackwidowV3Tk => "BlackwidowV3Tk"@,
        }
    }

    pub fn display_name(self) -> (s: String)
        ensures
            s@ == self.spec_display_name(),
    {
        let name: &str = match self {
            RazerKeyboardKind::BlackwidowUltimate2012 => "BlackwidowUltimate2012",
            RazerKeyboardKind::BlackwidowStealthEdition => "BlackwidowStealthEdition",
            RazerKeyboardKind::Anansi => "Anansi",
            RazerKeyboardKind::Nostromo => "Nostromo",
            RazerKeyboardKind::Orbweaver => "Orbweaver",
            RazerKeyboardKind::BlackwidowUltimate2013 => "BlackwidowUltimate2013",
            RazerKeyboardKind::BlackwidowStealth => "BlackwidowStealth",
            RazerKeyboardKind::BlackwidowTe2014 => "BlackwidowTe2014",
            RazerKeyboardKind::Tartarus => "Tartarus",
            RazerKeyboardKind::DeathstalkerExpert => "DeathstalkerExpert",
            RazerKeyboardKind::BlackwidowChroma => "BlackwidowChroma",
            RazerKeyboardKind::DeathstalkerChroma => "DeathstalkerChroma",
            RazerKeyboardKind::BladeStealth => "BladeStealth",
            RazerKeyboardKind::OrbweaverChroma => "OrbweaverChroma",
            RazerKeyboardKind::TartarusChroma => "TartarusChroma",
            RazerKeyboardKind::BlackwidowChromaTe => "BlackwidowChromaTe",
            RazerKeyboardKind::BladeQhd => "BladeQhd",
            RazerKeyboardKind::BladeProLate2016 => "BladeProLate2016",
            RazerKeyboardKind::BlackwidowOverwatch => "BlackwidowOverwatch",
            RazerKeyboardKind::BlackwidowUltimate2016 => "BlackwidowUltimate2016",
            RazerKeyboardKind::BlackwidowXChroma => "BlackwidowXChroma",
            RazerKeyboardKind::BlackwidowXUltimate => "BlackwidowXUltimate",
            RazerKeyboardKind::BlackwidowXChromaTe => "BlackwidowXChromaTe",
            RazerKeyboardKind::OrnataChroma => "OrnataChroma",
            RazerKeyboardKind::Ornata => "Ornata",
            RazerKeyboardKind::BladeStealthLate2016 => "BladeStealthLate2016",
            RazerKeyboardKind::BlackwidowChromaV2 => "BlackwidowChromaV2",
            RazerKeyboardKind::BladeLate2016 => "BladeLate2016",
            RazerKeyboardKind::BladePro2017 => "BladePro2017",
            RazerKeyboardKind::HuntsmanElite => "HuntsmanElite",
            RazerKeyboardKind::Huntsman => "Huntsman",
            RazerKeyboardKind::BlackwidowElite => "BlackwidowElite",
            RazerKeyboardKind::CynosaChroma => "CynosaChroma",
            RazerKeyboardKind::TartarusV2 => "TartarusV2",
            RazerKeyboardKind::CynosaChromaPro => "CynosaChromaPro",
            RazerKeyboardKind::BladeStealthMid2017 => "BladeStealthMid2017",
            RazerKeyboardKind::BladePro2017Fullhd => "BladePro2017Fullhd",
            RazerKeyboardKind::BladeStealthLate2017 => "BladeStealthLate2017",
            RazerKeyboardKind::Blade2018 => "Blade2018",
            RazerKeyboardKind::BladePro2019 => "BladePro2019",
            RazerKeyboardKind::BlackwidowLite => "BlackwidowLite",
            RazerKeyboardKind::BlackwidowEssential => "BlackwidowEssential",
            RazerKeyboardKind::BladeStealth2019 => "BladeStealth2019",
            RazerKeyboardKind::Blade2019Adv => "Blade2019Adv",
            RazerKeyboardKind::Blade2018Base => "Blade2018Base",
            RazerKeyboardKind::CynosaLite => "CynosaLite",
            RazerKeyboardKind::Blade2018Mercury => "Blade2018Mercury",
            RazerKeyboardKind::Blackwidow2019 => "Blackwidow2019",
            RazerKeyboardKind::HuntsmanTe => "HuntsmanTe",
            RazerKeyboardKind::BladeMid2019Mercury => "BladeMid2019Mercury",
            RazerKeyboardKind::Blade2019Base => "Blade2019Base",
            RazerKeyboardKind::BladeStealthLate2019 => "BladeStealthLate2019",
            RazerKeyboardKind::BladeProLate2019 => "BladeProLate2019",
            RazerKeyboardKind::BladeStudioEdition2019 => "BladeStudioEdition2019",
            RazerKeyboardKind::BlackwidowV3 => "BlackwidowV3",
            RazerKeyboardKind::BladeStealthEarly2020 => "BladeStealthEarly2020",
            RazerKeyboardKind::Blade15Adv2020 => "Blade15Adv2020",
            RazerKeyboardKind::BladeEarly2020Base => "BladeEarly2020Base",
            RazerKeyboardKind::BladeProEarly2020 => "BladeProEarly2020",
            RazerKeyboardKind::HuntsmanMini => "HuntsmanMini",
            RazerKeyboardKind::BlackwidowV3Mini => "BlackwidowV3Mini",
            RazerKeyboardKind::BladeStealthLate2020 => "BladeStealthLate2020",
            RazerKeyboardKind::BlackwidowV3ProWired => "BlackwidowV3ProWired",
            RazerKeyboardKind::BlackwidowV3ProWireless => "BlackwidowV3ProWireless",
            RazerKeyboardKind::OrnataV2 => "OrnataV2",
            RazerKeyboardKind::CynosaV2 => "CynosaV2",
            RazerKeyboardKind::HuntsmanV2Analog => "HuntsmanV2Analog",
            RazerKeyboardKind::HuntsmanMiniJp => "HuntsmanMiniJp",
            RazerKeyboardKind::Book2020 => "Book2020",
            RazerKeyboardKind::HuntsmanV2TKL => "HuntsmanV2TKL",
            RazerKeyboardKind::HuntsmanV2 => "HuntsmanV2",
            RazerKeyboardKind::Blade15AdvEarly2021 => "Blade15AdvEarly2021",
            RazerKeyboardKind::Blade15BaseEarly2021 => "Blade15BaseEarly2021",
            RazerKeyboardKind::Blade142021 => "Blade142021",
            RazerKeyboardKind::BlackwidowV3MiniWireless => "BlackwidowV3MiniWireless",
            RazerKeyboardKind::Blade15AdvMid2021 => "Blade15AdvMid2021",
            RazerKeyboardKind::Blade17ProMid2021 => "Blade17ProMid2021",
            RazerKeyboardKind::BlackwidowV3Tk => "BlackwidowV3Tk",
        };
        name.to_owned()
    }

    /// Returns true if the device is a blade laptop.
    pub open spec fn spec_is_blade(self) -> bool {
        match self {
            RazerKeyboardKind::BladeStealth
            | RazerKeyboardKind::BladeStealthLate2016
            | RazerKeyboardKind::BladeProLate2016
            | RazerKeyboardKind::Blade2018
            | RazerKeyboardKind::Blade2018Mercury
            | RazerKeyboardKind::Blade2018Base
            | RazerKeyboardKind::Blade2019Adv
            | RazerKeyboardKind::BladeMid2019Mercury
            | RazerKeyboardKind::BladeStudioEdition2019
            | RazerKeyboardKind::BladeQhd
            | RazerKeyboardKind::BladeLate2016
            | RazerKeyboardKind::BladeStealthMid2017
            | RazerKeyboardKind::BladeStealthLate2017
            | RazerKeyboardKind::BladeStealth2019
            | RazerKeyboardKind::BladePro2017
            | RazerKeyboardKind::BladePro2017Fullhd
            | RazerKeyboardKind::Blade2019Base
            | RazerKeyboardKind::BladeStealthLate2019
            | RazerKeyboardKind::BladePro2019
            | RazerKeyboardKind::BladeProLate2019
            | RazerKeyboardKind::BladeStealthEarly2020
            | RazerKeyboardKind::BladeStealthLate2020
            | RazerKeyboardKind::BladeProEarly2020
            | RazerKeyboardKind::Book2020
            | RazerKeyboardKind::Blade15Adv2020
            | RazerKeyboardKind::BladeEarly2020Base
            | RazerKeyboardKind::Blade15AdvEarly2021
            | RazerKeyboardKind::Blade15AdvMid2021
            | RazerKeyboardKind::Blade15BaseEarly2021
            | RazerKeyboardKind::Blade17ProMid2021
            | RazerKeyboardKind::Blade142021 => true,
            _ => false,
        }
    }

    pub fn is_blade(&self) -> (r: bool)
        ensures
            r == self.spec_is_blade(),
    {
        match self {
            RazerKeyboardKind::BladeStealth
            | RazerKeyboardKind::BladeStealthLate2016
            | RazerKeyboardKind::BladeProLate2016
            | RazerKeyboardKind::Blade2018
            | RazerKeyboardKind::Blade2018Mercury
            | RazerKeyboardKind::Blade2018Base
            | RazerKeyboardKind::Blade2019Adv
            | RazerKeyboardKind::BladeMid2019Mercury
            | RazerKeyboardKind::BladeStudioEdition2019
            | RazerKeyboardKind::BladeQhd
            | RazerKeyboardKind::BladeLate2016
            | RazerKeyboardKind::BladeStealthMid2017
            | RazerKeyboardKind::BladeStealthLate2017
            | RazerKeyboardKind::BladeStealth2019
            | RazerKeyboardKind::BladePro2017
            | RazerKeyboardKind::BladePro2017Fullhd
            | RazerKeyboardKind::Blade2019Base
            | RazerKeyboardKind::BladeStealthLate2019
            | RazerKeyboardKind::BladePro2019
            | RazerKeyboardKind::BladeProLate2019
            | RazerKeyboardKind::BladeStealthEarly2020
            | RazerKeyboardKind::BladeStealthLate2020
            | RazerKeyboardKind::BladeProEarly2020
            | RazerKeyboardKind::Book2020
            | RazerKeyboardKind::Blade15Adv2020
            | RazerKeyboardKind::BladeEarly2020Base
            | RazerKeyboardKind::Blade15AdvEarly2021
            | RazerKeyboardKind::Blade15AdvMid2021
            | RazerKeyboardKind::Blade15BaseEarly2021
            | RazerKeyboardKind::Blade17ProMid2021
            | RazerKeyboardKind::Blade142021 => true,
            _ => false,
        }
    }

    /// Returns true if the keyboard only has a logo LED for programing.
    pub open spec fn spec_is_logo_only(self) -> bool {
        match self {
            RazerKeyboardKind::BlackwidowStealth
            | RazerKeyboardKind::BlackwidowStealthEdition
            | RazerKeyboardKind::BlackwidowUltimate2012
            | RazerKeyboardKind::BlackwidowUltimate2013
            | RazerKeyboardKind::BlackwidowTe2014 => true,
            _ => false,
        }
    }

    pub fn is_logo_only(&self) -> (r: bool)
        ensures
            r == self.spec_is_logo_only(),
    {
        match self {
            RazerKeyboardKind::BlackwidowStealth
            | RazerKeyboardKind::BlackwidowStealthEdition
            | RazerKeyboardKind::BlackwidowUltimate2012
            | RazerKeyboardKind::BlackwidowUltimate2013
            | RazerKeyboardKind::BlackwidowTe2014 => true,
            _ => false,
        }
    }

    /// Returns true if keyboard supports extended matrix LEDs.
    pub open spec fn spec_is_extended_matrix(self) -> bool {
        match self {
            RazerKeyboardKind::TartarusV2
            | RazerKeyboardKind::Ornata
            | RazerKeyboardKind::OrnataChroma
            | RazerKeyboardKind::HuntsmanElite
            | RazerKeyboardKind::HuntsmanTe
            | RazerKeyboardKind::HuntsmanMini
            | RazerKeyboardKind::HuntsmanMiniJp
            | RazerKeyboardKind::Blackwidow2019
            | RazerKeyboardKind::Huntsman
            | RazerKeyboardKind::BlackwidowEssential
            | RazerKeyboardKind::CynosaChroma
            | RazerKeyboardKind::CynosaChromaPro
            | RazerKeyboardKind::CynosaLite
            | RazerKeyboardKind::BlackwidowV3
            | RazerKeyboardKind::BlackwidowV3Tk
            | RazerKeyboardKind::BlackwidowV3ProWired
            | RazerKeyboardKind::BlackwidowElite
            | RazerKeyboardKind::CynosaV2
            | RazerKeyboardKind::OrnataV2
            | RazerKeyboardKind::HuntsmanV2Analog
            | RazerKeyboardKind::BlackwidowV3Mini
            | RazerKeyboardKind::BlackwidowV3MiniWireless => true,
            _ => false,
        }
    }

    pub fn is_extended_matrix(&self) -> (r: bool)
        ensures
            r == self.spec_is_extended_matrix(),
    {
        match self {
            RazerKeyboardKind::TartarusV2
            | RazerKeyboardKind::Ornata
            | RazerKeyboardKind::OrnataChroma
            | RazerKeyboardKind::HuntsmanElite
            | RazerKeyboardKind::HuntsmanTe
            | RazerKeyboardKind::HuntsmanMini
            | RazerKeyboardKind::HuntsmanMiniJp
            | RazerKeyboardKind::Blackwidow2019
            | RazerKeyboardKind::Huntsman
            | RazerKeyboardKind::BlackwidowEssential
            | RazerKeyboardKind::CynosaChroma
            | RazerKeyboardKind::CynosaChromaPro
            | RazerKeyboardKind::CynosaLite
            | RazerKeyboardKind::BlackwidowV3
            | RazerKeyboardKind::BlackwidowV3Tk
            | RazerKeyboardKind::BlackwidowV3ProWired
            | RazerKeyboardKind::BlackwidowElite
            | RazerKeyboardKind::CynosaV2
            | RazerKeyboardKind::OrnataV2
            | RazerKeyboardKind::HuntsmanV2Analog
            | RazerKeyboardKind::BlackwidowV3Mini
            | RazerKeyboardKind::BlackwidowV3MiniWireless => true,
            _ => false,
        }
    }

}

/// The request that sets the brightness of a blade laptop keyboard: a
/// fixed 1, then the percent. A percentage over 100 is a contract
/// violation and is rejected before anything is built.
pub fn set_blade_brightness_request(
    transaction_device: RazerTransactionDevice,
    percent: u8,
) -> (r: RazerReport)
    requires
        percent <= 100,
    ensures
        crate::razer_device::is_request(
            r,
            RazerCommandDirection::HostToDevice,
            RazerCommand::BladeBrightness,
            seq![1u8, percent],
            transaction_device,
        ),
{
    let mut body: Vec<u8> = Vec::new();
    body.push(1u8);
    body.push(percent);
    assert(body@ =~= seq![1u8, percent]);
    RazerReport::new(
        RazerCommandDirection::HostToDevice,
        RazerCommand::BladeBrightness,
        body,
        transaction_device,
    )
}

/// The request that reads the brightness of a blade laptop keyboard.
pub fn get_blade_brightness_request(transaction_device: RazerTransactionDevice) -> (r: RazerReport)
    ensures
        crate::razer_device::is_request(
            r,
            RazerCommandDirection::DeviceToHost,
            RazerCommand::BladeBrightness,
            seq![1u8],
            transaction_device,
        ),
{
    let mut body: Vec<u8> = Vec::new();
    body.push(1u8);
    assert(body@ =~= seq![1u8]);
    RazerReport::new(
        RazerCommandDirection::DeviceToHost,
        RazerCommand::BladeBrightness,
        body,
        transaction_device,
    )
}

/// The brightness a blade reply body carries, in its second byte.
pub fn parse_blade_brightness(body: &Vec<u8>) -> (b: u8)
    requires
        body@.len() == 2,
    ensures
        b == body@[1],
{
    body[1]
}

impl RazerKeyboardKind {
    /// The command a keyboard's brightness is addressed with, following the
    /// capability dispatch: TartarusV2 and extended-matrix keyboards use
    /// the extended-matrix command, logo-only keyboards and the remaining
    /// legacy ones the standard LED command, and blade laptops the blade
    /// command.
    pub open spec fn spec_brightness_command(self) -> RazerCommand {
        if self == RazerKeyboardKind::TartarusV2 {
            RazerCommand::ExtendedMatrixBrightness
        } else if self.spec_is_logo_only() {
            RazerCommand::LedBrightness
        } else if self.spec_is_extended_matrix() {
            RazerCommand::ExtendedMatrixBrightness
        } else if self.spec_is_blade() {
            RazerCommand::BladeBrightness
        } else {
            RazerCommand::LedBrightness
        }
    }

    /// The LED a keyboard's brightness is addressed to, on the non-blade
    /// paths: the zero LED for TartarusV2, the logo for logo-only
    /// keyboards, the backlight otherwise.
    pub open spec fn spec_brightness_led(self) -> RazerLed {
        if self == RazerKeyboardKind::TartarusV2 {
            RazerLed::Zero
        } else if self.spec_is_logo_only() {
            RazerLed::Logo
        } else {
            RazerLed::Backlight
        }
    }

    /// Whether the brightness dispatch lands on the blade path.
    pub open spec fn spec_uses_blade_brightness(self) -> bool {
        &&& self != RazerKeyboardKind::TartarusV2
        &&& !self.spec_is_logo_only()
        &&& !self.spec_is_extended_matrix()
        &&& self.spec_is_blade()
    }

    /// The body of the request that sets this keyboard's brightness; every
    /// non-blade path saves the value to the variable store.
    pub open spec fn spec_set_brightness_body(self, percent: u8) -> Seq<u8> {
        if self.spec_uses_blade_brightness() {
            seq![1u8, percent]
        } else {
            seq![RazerStorage::VarStore.spec_value(), self.spec_brightness_led().spec_value(), percent]
        }
    }

    /// The body of the request that reads this keyboard's brightness.
    pub open spec fn spec_get_brightness_body(self) -> Seq<u8> {
        if self.spec_uses_blade_brightness() {
            seq![1u8]
        } else {
            seq![RazerStorage::VarStore.spec_value(), self.spec_brightness_led().spec_value()]
        }
    }

    /// Where in the reply body this keyboard's brightness stands: the
    /// second byte on the blade path, the third elsewhere.
    pub open spec fn spec_brightness_reply_index(self) -> int {
        if self.spec_uses_blade_brightness() {
            1
        } else {
            2
        }
    }

    /// Builds the request that sets the brightness of the keyboard,
    /// dispatching on what features the keyboard has. A percentage over
    /// 100 is a contract violation and is rejected before anything is
    /// built.
    pub fn set_brightness_request(self, percent: u8) -> (r: RazerReport)
        requires
            percent <= 100,
        ensures
            crate::razer_device::is_request(
                r,
                RazerCommandDirection::HostToDevice,
                self.spec_brightness_command(),
                self.spec_set_brightness_body(percent),
                self.spec_transaction_device(),
            ),
    {
        let transaction_device = self.get_transaction_device();
        if matches!(self, RazerKeyboardKind::TartarusV2) {
            crate::razer_device::set_extended_matrix_brightness_request(
                transaction_device,
                RazerStorage::VarStore,
                RazerLed::Zero,
                percent,
            )
        } else if self.is_logo_only() {
            crate::razer_device::set_led_brightness_request(
                transaction_device,
                RazerStorage::VarStore,
                RazerLed::Logo,
                percent,
            )
        } else if self.is_extended_matrix() {
            crate::razer_device::set_extended_matrix_brightness_request(
                transaction_device,
                RazerStorage::VarStore,
                RazerLed::Backlight,
                percent,
            )
        } else if self.is_blade() {
            set_blade_brightness_request(transaction_device, percent)
        } else {
            crate::razer_device::set_led_brightness_request(
                transaction_device,
                RazerStorage::VarStore,
                RazerLed::Backlight,
                percent,
            )
        }
    }

    /// Builds the request that reads the brightness of the keyboard,
    /// dispatching on what features the keyboard has.
    pub fn get_brightness_request(self) -> (r: RazerReport)
        ensures
            crate::razer_device::is_request(
                r,
                RazerCommandDirection::DeviceToHost,
                self.spec_brightness_command(),
                self.spec_get_brightness_body(),
                self.spec_transaction_device(),
            ),
    {
        let transaction_device = self.get_transaction_device();
        if matches!(self, RazerKeyboardKind::TartarusV2) {
            crate::razer_device::get_extended_matrix_brightness_request(
                transaction_device,
                RazerStorage::VarStore,
                RazerLed::Zero,
            )
        } else if self.is_logo_only() {
            crate::razer_device::get_led_brightness_request(
                transaction_device,
                RazerStorage::VarStore,
                RazerLed::Logo,
            )
        } else if self.is_extended_matrix() {
            crate::razer_device::get_extended_matrix_brightness_request(
                transaction_device,
                RazerStorage::VarStore,
                RazerLed::Backlight,
            )
        } else if self.is_blade() {
            get_blade_brightness_request(transaction_device)
        } else {
            crate::razer_device::get_led_brightness_request(
                transaction_device,
                RazerStorage::VarStore,
                RazerLed::Backlight,
            )
        }
    }

    /// The brightness a reply body carries for this keyboard, read at the
    /// offset its dispatch path uses.
    pub fn parse_brightness(self, body: &Vec<u8>) -> (b: u8)
        requires
            body@.len() == self.spec_brightness_command().spec_reply_size(),
        ensures
            b == body@[self.spec_brightness_reply_index()],
    {
        if matches!(self, RazerKeyboardKind::TartarusV2) {
            body[2]
        } else if self.is_logo_only() {
            body[2]
        } else if self.is_extended_matrix() {
            body[2]
        } else if self.is_blade() {
            body[1]
        } else {
            body[2]
        }
    }
}

/// The reply to a brightness read is always long enough to hold the byte
/// the dispatch path reads from it.
pub proof fn lemma_brightness_reply_in_bounds(kind: RazerKeyboardKind)
    ensures
        kind.spec_brightness_reply_index() < kind.spec_brightness_command().spec_reply_size(),
{
}

impl RazerDeviceKind for RazerKeyboardKind {
    open spec fn spec_transaction_device(&self) -> RazerTransactionDevice {
        match self {
            RazerKeyboardKind::TartarusV2
            | RazerKeyboardKind::BlackwidowElite
            | RazerKeyboardKind::CynosaV2
            | RazerKeyboardKind::OrnataV2
            | RazerKeyboardKind::HuntsmanV2Analog
            | RazerKeyboardKind::BlackwidowV3Mini => RazerTransactionDevice::Zero,
            RazerKeyboardKind::BlackwidowV3MiniWireless => RazerTransactionDevice::Four,
            _ => RazerTransactionDevice::Default,
        }
    }

    fn get_transaction_device(&self) -> (d: RazerTransactionDevice) {
        match self {
            RazerKeyboardKind::TartarusV2
            | RazerKeyboardKind::BlackwidowElite
            | RazerKeyboardKind::CynosaV2
            | RazerKeyboardKind::OrnataV2
            | RazerKeyboardKind::HuntsmanV2Analog
            | RazerKeyboardKind::BlackwidowV3Mini => RazerTransactionDevice::Zero,
            RazerKeyboardKind::BlackwidowV3MiniWireless => RazerTransactionDevice::Four,
            _ => RazerTransactionDevice::Default,
        }
    }
}

} // verus!
