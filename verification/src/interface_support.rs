//! Radio technologies and the raw encodings of interface descriptions.

use vstd::prelude::*;

use crate::interface::{spec_interface_type, InterfaceType, NetworkInterface};

verus! {

/// Radio technology reported for an interface path sample.
#[derive(Debug, Clone, Copy, PartialEq, Eq, Hash, Structural)]
pub enum InterfaceRadioType {
    Unknown,
    WiFiB,
    WiFiA,
    WiFiG,
    WiFiN,
    WiFiAc,
    WiFiAx,
    CellLte,
    CellEndcSub6,
    CellEndcMmw,
    CellNrSaSub6,
    CellNrSaMmw,
    CellWcdma,
    CellGsm,
    CellCdma,
    CellEvdo,
    Other(i32),
}

/// The radio type that a raw radio code stands for.
pub open spec fn spec_radio_type(raw: i32) -> InterfaceRadioType {
    match raw {
        0 => InterfaceRadioType::Unknown,
        1 => InterfaceRadioType::WiFiB,
        2 => InterfaceRadioType::WiFiA,
        3 => InterfaceRadioType::WiFiG,
        4 => InterfaceRadioType::WiFiN,
        5 => InterfaceRadioType::WiFiAc,
        6 => InterfaceRadioType::WiFiAx,
        0x80 => InterfaceRadioType::CellLte,
        0x81 => InterfaceRadioType::CellEndcSub6,
        0x82 => InterfaceRadioType::CellEndcMmw,
        0x83 => InterfaceRadioType::CellNrSaSub6,
        0x84 => InterfaceRadioType::CellNrSaMmw,
        0x85 => InterfaceRadioType::CellWcdma,
        0x86 => InterfaceRadioType::CellGsm,
        0x87 => InterfaceRadioType::CellCdma,
        0x88 => InterfaceRadioType::CellEvdo,
        other => InterfaceRadioType::Other(other),
    }
}

impl InterfaceRadioType {
    /// Decode a raw radio code.
    pub fn from_raw(raw: i32) -> (t: Self)
        ensures
            t == spec_radio_type(raw),
    {
        match raw {
            0 => Self::Unknown,
            1 => Self::WiFiB,
            2 => Self::WiFiA,
            3 => Self::WiFiG,
            4 => Self::WiFiN,
            5 => Self::WiFiAc,
            6 => Self::WiFiAx,
            0x80 => Self::CellLte,
            0x81 => Self::CellEndcSub6,
            0x82 => Self::CellEndcMmw,
            0x83 => Self::CellNrSaSub6,
            0x84 => Self::CellNrSaMmw,
            0x85 => Self::CellWcdma,
            0x86 => Self::CellGsm,
            0x87 => Self::CellCdma,
            0x88 => Self::CellEvdo,
            other => Self::Other(other),
        }
    }
}

/// The raw code of an interface type.
pub open spec fn spec_interface_type_raw(t: InterfaceType) -> i32 {
    match t {
        InterfaceType::Other => 0,
        InterfaceType::WiFi => 1,
        InterfaceType::Cellular => 2,
        InterfaceType::Wired => 3,
        InterfaceType::Loopback => 4,
    }
}

impl InterfaceType {
    /// Encode the interface type as its raw code.
    pub fn as_raw(self) -> (raw: i32)
        ensures
            raw == spec_interface_type_raw(self),
    {
        match self {
            Self::Other => 0,
            Self::WiFi => 1,
            Self::Cellular => 2,
            Self::Wired => 3,
            Self::Loopback => 4,
        }
    }
}

/// Encoding an interface type and decoding the code gives the type back.
pub proof fn lemma_interface_type_round_trip(t: InterfaceType)
    ensures
        spec_interface_type(spec_interface_type_raw(t)) == t,
{
}

/// A raw code between 0 and 4 survives decoding and re-encoding; every other
/// code decodes to `Other`.
pub proof fn lemma_interface_type_raw_round_trip(raw: i32)
    ensures
        0 <= raw <= 4 ==> spec_interface_type_raw(spec_interface_type(raw)) == raw,
        !(0 <= raw <= 4) ==> spec_interface_type(raw) == InterfaceType::Other,
{
}

/// A radio code that names no radio is kept, unchanged, in `Other`; the codes
/// that name a radio are 0 to 6 and 0x80 to 0x88.
pub proof fn lemma_radio_type_unknown_codes_kept(raw: i32)
    ensures
        spec_radio_type(raw) is Other ==> spec_radio_type(raw) == InterfaceRadioType::Other(raw),
        !(spec_radio_type(raw) is Other) ==> (0 <= raw <= 6 || 0x80 <= raw <= 0x88),
{
}

/// Build an interface description from its name, raw type code and index.
pub fn network_interface_from_parts(name: String, interface_type_raw: i32, index: u32) -> (i: NetworkInterface)
    ensures
        i@ == (name@, spec_interface_type(interface_type_raw), index),
{
    NetworkInterface { name, interface_type: InterfaceType::from_raw(interface_type_raw), index }
}

/// The raw codes of `InterfaceRadioType` as the framework defines them: 0 to `Unknown`, 1 to
/// `WiFiB`, 2 to `WiFiA`, 3 to `WiFiG`, 4 to `WiFiN`, 5 to `WiFiAc`, 6 to `WiFiAx`, 0x80 to
/// `CellLte`, 0x81 to `CellEndcSub6`, 0x82 to `CellEndcMmw`, 0x83 to `CellNrSaSub6`, 0x84 to
/// `CellNrSaMmw`, 0x85 to `CellWcdma`, 0x86 to `CellGsm`, 0x87 to `CellCdma`, 0x88 to
/// `CellEvdo`; each named value comes from exactly one code, and every other code is kept,
/// unchanged, in `Other`.
pub proof fn lemma_radio_type_codes(raw: i32)
    ensures
        (spec_radio_type(raw) == InterfaceRadioType::Unknown) <==> raw == 0,
        (spec_radio_type(raw) == InterfaceRadioType::WiFiB) <==> raw == 1,
        (spec_radio_type(raw) == InterfaceRadioType::WiFiA) <==> raw == 2,
        (spec_radio_type(raw) == InterfaceRadioType::WiFiG) <==> raw == 3,
        (spec_radio_type(raw) == InterfaceRadioType::WiFiN) <==> raw == 4,
        (spec_radio_type(raw) == InterfaceRadioType::WiFiAc) <==> raw == 5,
        (spec_radio_type(raw) == InterfaceRadioType::WiFiAx) <==> raw == 6,
        (spec_radio_type(raw) == InterfaceRadioType::CellLte) <==> raw == 0x80,
        (spec_radio_type(raw) == InterfaceRadioType::CellEndcSub6) <==> raw == 0x81,
        (spec_radio_type(raw) == InterfaceRadioType::CellEndcMmw) <==> raw == 0x82,
        (spec_radio_type(raw) == InterfaceRadioType::CellNrSaSub6) <==> raw == 0x83,
        (spec_radio_type(raw) == InterfaceRadioType::CellNrSaMmw) <==> raw == 0x84,
        (spec_radio_type(raw) == InterfaceRadioType::CellWcdma) <==> raw == 0x85,
        (spec_radio_type(raw) == InterfaceRadioType::CellGsm) <==> raw == 0x86,
        (spec_radio_type(raw) == InterfaceRadioType::CellCdma) <==> raw == 0x87,
        (spec_radio_type(raw) == InterfaceRadioType::CellEvdo) <==> raw == 0x88,
        (spec_radio_type(raw) is Other) <==> !(raw == 0 || raw == 1 || raw == 2 || raw == 3 || raw == 4 || raw == 5 || raw == 6 || raw == 0x80 || raw == 0x81 || raw == 0x82 || raw == 0x83 || raw == 0x84 || raw == 0x85 || raw == 0x86 || raw == 0x87 || raw == 0x88),
        !(raw == 0 || raw == 1 || raw == 2 || raw == 3 || raw == 4 || raw == 5 || raw == 6 || raw == 0x80 || raw == 0x81 || raw == 0x82 || raw == 0x83 || raw == 0x84 || raw == 0x85 || raw == 0x86 || raw == 0x87 || raw == 0x88) ==> spec_radio_type(raw) == InterfaceRadioType::Other(raw),
{
}

/// The codes `InterfaceType` values are encoded to, as the framework defines them: `Other` to
/// 0, `WiFi` to 1, `Cellular` to 2, `Wired` to 3, `Loopback` to 4.
pub proof fn lemma_interface_type_raw_codes()
    ensures
        spec_interface_type_raw(InterfaceType::Other) == 0,
        spec_interface_type_raw(InterfaceType::WiFi) == 1,
        spec_interface_type_raw(InterfaceType::Cellular) == 2,
        spec_interface_type_raw(InterfaceType::Wired) == 3,
        spec_interface_type_raw(InterfaceType::Loopback) == 4,
{
}

} // verus!
