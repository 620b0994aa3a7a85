//! IP and TCP option vocabularies and their raw encodings.

use vstd::prelude::*;

verus! {

/// Internet Protocol version preference.
#[derive(Debug, Clone, Copy, PartialEq, Eq, Structural)]
pub enum IpVersion {
    Any,
    V4,
    V6,
    Other(i32),
}

/// The IP version that a raw code stands for.
pub open spec fn spec_ip_version(raw: i32) -> IpVersion {
    match raw {
        0 => IpVersion::Any,
        4 => IpVersion::V4,
        6 => IpVersion::V6,
        other => IpVersion::Other(other),
    }
}

/// The raw code of an IP version.
pub open spec fn spec_ip_version_raw(v: IpVersion) -> i32 {
    match v {
        IpVersion::Any => 0,
        IpVersion::V4 => 4,
        IpVersion::V6 => 6,
        IpVersion::Other(raw) => raw,
    }
}

impl IpVersion {
    /// Decode a raw IP-version code.
    pub fn from_raw(raw: i32) -> (v: Self)
        ensures
            v == spec_ip_version(raw),
    {
        match raw {
            0 => Self::Any,
            4 => Self::V4,
            6 => Self::V6,
            other => Self::Other(other),
        }
    }

    /// Encode the IP version as its raw code.
    pub fn as_raw(self) -> (raw: i32)
        ensures
            raw == spec_ip_version_raw(self),
    {
        match self {
            Self::Any => 0,
            Self::V4 => 4,
            Self::V6 => 6,
            Self::Other(raw) => raw,
        }
    }
}

/// Decoding a raw IP-version code and encoding the result gives the code back.
pub proof fn lemma_ip_version_raw_round_trip(raw: i32)
    ensures
        spec_ip_version_raw(spec_ip_version(raw)) == raw,
{
}

/// Encoding an IP version and decoding the code gives the version back,
/// unless it is an `Other` that carries the code of a named version.
pub proof fn lemma_ip_version_round_trip(v: IpVersion)
    requires
        v matches IpVersion::Other(raw) ==> spec_ip_version(raw) == v,
    ensures
        spec_ip_version(spec_ip_version_raw(v)) == v,
{
}

/// Local-address selection preference for IP connections.
#[derive(Debug, Clone, Copy, PartialEq, Eq, Structural)]
pub enum IpLocalAddressPreference {
    Default,
    Temporary,
    Stable,
    Other(i32),
}

/// The raw code of a local-address preference.
pub open spec fn spec_local_address_preference_raw(p: IpLocalAddressPreference) -> i32 {
    match p {
        IpLocalAddressPreference::Default => 0,
        IpLocalAddressPreference::Temporary => 1,
        IpLocalAddressPreference::Stable => 2,
        IpLocalAddressPreference::Other(raw) => raw,
    }
}

impl IpLocalAddressPreference {
    /// Encode the preference as its raw code.
    pub fn as_raw(self) -> (raw: i32)
        ensures
            raw == spec_local_address_preference_raw(self),
    {
        match self {
            Self::Default => 0,
            Self::Temporary => 1,
            Self::Stable => 2,
            Self::Other(raw) => raw,
        }
    }
}

/// Explicit congestion notification flags for IP metadata.
#[derive(Debug, Clone, Copy, PartialEq, Eq, Structural)]
pub enum IpEcnFlag {
    NonEct,
    Ect0,
    Ect1,
    CongestionExperienced,
    Other(i32),
}

/// The ECN flag that a raw code stands for.
pub open spec fn spec_ecn_flag(raw: i32) -> IpEcnFlag {
    match raw {
        0 => IpEcnFlag::NonEct,
        2 => IpEcnFlag::Ect0,
        1 => IpEcnFlag::Ect1,
        3 => IpEcnFlag::CongestionExperienced,
        other => IpEcnFlag::Other(other),
    }
}

/// The raw code of an ECN flag.
pub open spec fn spec_ecn_flag_raw(f: IpEcnFlag) -> i32 {
    match f {
        IpEcnFlag::NonEct => 0,
        IpEcnFlag::Ect0 => 2,
        IpEcnFlag::Ect1 => 1,
        IpEcnFlag::CongestionExperienced => 3,
        IpEcnFlag::Other(raw) => raw,
    }
}

impl IpEcnFlag {
    /// Decode a raw ECN code.
    pub fn from_raw(raw: i32) -> (f: Self)
        ensures
            f == spec_ecn_flag(raw),
    {
        match raw {
            0 => Self::NonEct,
            2 => Self::Ect0,
            1 => Self::Ect1,
            3 => Self::CongestionExperienced,
            other => Self::Other(other),
        }
    }

    /// Encode the ECN flag as its raw code.
    pub fn as_raw(self) -> (raw: i32)
        ensures
            raw == spec_ecn_flag_raw(self),
    {
        match self {
            Self::NonEct => 0,
            Self::Ect0 => 2,
            Self::Ect1 => 1,
            Self::CongestionExperienced => 3,
            Self::Other(raw) => raw,
        }
    }
}

/// Decoding a raw ECN code and encoding the result gives the code back.
pub proof fn lemma_ecn_flag_raw_round_trip(raw: i32)
    ensures
        spec_ecn_flag_raw(spec_ecn_flag(raw)) == raw,
{
}

/// Encoding an ECN flag and decoding the code gives the flag back, unless it
/// is an `Other` that carries the code of a named flag.
pub proof fn lemma_ecn_flag_round_trip(f: IpEcnFlag)
    requires
        f matches IpEcnFlag::Other(raw) ==> spec_ecn_flag(raw) == f,
    ensures
        spec_ecn_flag(spec_ecn_flag_raw(f)) == f,
{
}

/// Forced MPTCP version for TCP options.
#[derive(Debug, Clone, Copy, PartialEq, Eq, Structural)]
pub enum TcpMultipathVersion {
    Unspecified,
    V0,
    V1,
    Other(i32),
}

/// The raw code of a forced MPTCP version.
pub open spec fn spec_multipath_version_raw(v: TcpMultipathVersion) -> i32 {
    match v {
        TcpMultipathVersion::Unspecified => -1i32,
        TcpMultipathVersion::V0 => 0,
        TcpMultipathVersion::V1 => 1,
        TcpMultipathVersion::Other(raw) => raw,
    }
}

impl TcpMultipathVersion {
    /// Encode the MPTCP version as its raw code.
    pub fn as_raw(self) -> (raw: i32)
        ensures
            raw == spec_multipath_version_raw(self),
    {
        match self {
            Self::Unspecified => -1,
            Self::V0 => 0,
            Self::V1 => 1,
            Self::Other(raw) => raw,
        }
    }
}

/// The raw codes of `IpVersion` as the framework defines them: 0 to `Any`, 4 to `V4`, 6 to
/// `V6`; each named value comes from exactly one code, and every other code is kept, unchanged,
/// in `Other`.
pub proof fn lemma_ip_version_codes(raw: i32)
    ensures
        (spec_ip_version(raw) == IpVersion::Any) <==> raw == 0,
        (spec_ip_version(raw) == IpVersion::V4) <==> raw == 4,
        (spec_ip_version(raw) == IpVersion::V6) <==> raw == 6,
        (spec_ip_version(raw) is Other) <==> !(raw == 0 || raw == 4 || raw == 6),
        !(raw == 0 || raw == 4 || raw == 6) ==> spec_ip_version(raw) == IpVersion::Other(raw),
{
}

/// The codes `IpVersion` values are encoded to, as the framework defines them: `Any` to 0, `V4`
/// to 4, `V6` to 6, and an unnamed code to itself.
pub proof fn lemma_ip_version_raw_codes(raw: i32)
    ensures
        spec_ip_version_raw(IpVersion::Any) == 0,
        spec_ip_version_raw(IpVersion::V4) == 4,
        spec_ip_version_raw(IpVersion::V6) == 6,
        spec_ip_version_raw(IpVersion::Other(raw)) == raw,
{
}

/// The codes `IpLocalAddressPreference` values are encoded to, as the framework defines them:
/// `Default` to 0, `Temporary` to 1, `Stable` to 2, and an unnamed code to itself.
pub proof fn lemma_local_address_preference_raw_codes(raw: i32)
    ensures
        spec_local_address_preference_raw(IpLocalAddressPreference::Default) == 0,
        spec_local_address_preference_raw(IpLocalAddressPreference::Temporary) == 1,
        spec_local_address_preference_raw(IpLocalAddressPreference::Stable) == 2,
        spec_local_address_preference_raw(IpLocalAddressPreference::Other(raw)) == raw,
{
}

/// The raw codes of `IpEcnFlag` as the framework defines them: 0 to `NonEct`, 2 to `Ect0`, 1 to
/// `Ect1`, 3 to `CongestionExperienced`; each named value comes from exactly one code, and
/// every other code is kept, unchanged, in `Other`.
pub proof fn lemma_ecn_flag_codes(raw: i32)
    ensures
        (spec_ecn_flag(raw) == IpEcnFlag::NonEct) <==> raw == 0,
        (spec_ecn_flag(raw) == IpEcnFlag::Ect0) <==> raw == 2,
        (spec_ecn_flag(raw) == IpEcnFlag::Ect1) <==> raw == 1,
        (spec_ecn_flag(raw) == IpEcnFlag::CongestionExperienced) <==> raw == 3,
        (spec_ecn_flag(raw) is Other) <==> !(raw == 0 || raw == 2 || raw == 1 || raw == 3),
        !(raw == 0 || raw == 2 || raw == 1 || raw == 3) ==> spec_ecn_flag(raw) == IpEcnFlag::Other(raw),
{
}

/// The codes `IpEcnFlag` values are encoded to, as the framework defines them: `NonEct` to 0,
/// `Ect0` to 2, `Ect1` to 1, `CongestionExperienced` to 3, and an unnamed code to itself.
pub proof fn lemma_ecn_flag_raw_codes(raw: i32)
    ensures
        spec_ecn_flag_raw(IpEcnFlag::NonEct) == 0,
        spec_ecn_flag_raw(IpEcnFlag::Ect0) == 2,
        spec_ecn_flag_raw(IpEcnFlag::Ect1) == 1,
        spec_ecn_flag_raw(IpEcnFlag::CongestionExperienced) == 3,
        spec_ecn_flag_raw(IpEcnFlag::Other(raw)) == raw,
{
}

/// The codes `TcpMultipathVersion` values are encoded to, as the framework defines them:
/// `Unspecified` to -1i32, `V0` to 0, `V1` to 1, and an unnamed code to itself.
pub proof fn lemma_multipath_version_raw_codes(raw: i32)
    ensures
        spec_multipath_version_raw(TcpMultipathVersion::Unspecified) == -1i32,
        spec_multipath_version_raw(TcpMultipathVersion::V0) == 0,
        spec_multipath_version_raw(TcpMultipathVersion::V1) == 1,
        spec_multipath_version_raw(TcpMultipathVersion::Other(raw)) == raw,
{
}

} // verus!
