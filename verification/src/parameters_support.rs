//! Service-class, multipath and DNS policy vocabularies of connection
//! parameters.

use vstd::prelude::*;

verus! {

/// Connection service class applied to new paths.
#[derive(Debug, Clone, Copy, PartialEq, Eq, Structural)]
pub enum ServiceClass {
    BestEffort,
    Background,
    InteractiveVideo,
    InteractiveVoice,
    ResponsiveData,
    Signaling,
    Unknown(i32),
}

/// The service class that a raw code stands for.
pub open spec fn spec_service_class(raw: i32) -> ServiceClass {
    match raw {
        0 => ServiceClass::BestEffort,
        1 => ServiceClass::Background,
        2 => ServiceClass::InteractiveVideo,
        3 => ServiceClass::InteractiveVoice,
        4 => ServiceClass::ResponsiveData,
        5 => ServiceClass::Signaling,
        other => ServiceClass::Unknown(other),
    }
}

/// The raw code of a service class.
pub open spec fn spec_service_class_raw(c: ServiceClass) -> i32 {
    match c {
        ServiceClass::BestEffort => 0,
        ServiceClass::Background => 1,
        ServiceClass::InteractiveVideo => 2,
        ServiceClass::InteractiveVoice => 3,
        ServiceClass::ResponsiveData => 4,
        ServiceClass::Signaling => 5,
        ServiceClass::Unknown(raw) => raw,
    }
}

impl ServiceClass {
    /// Decode a raw service-class code.
    pub fn from_raw(raw: i32) -> (c: Self)
        ensures
            c == spec_service_class(raw),
    {
        match raw {
            0 => Self::BestEffort,
            1 => Self::Background,
            2 => Self::InteractiveVideo,
            3 => Self::InteractiveVoice,
            4 => Self::ResponsiveData,
            5 => Self::Signaling,
            other => Self::Unknown(other),
        }
    }

    /// Encode the service class as its raw code.
    pub fn as_raw(self) -> (raw: i32)
        ensures
            raw == spec_service_class_raw(self),
    {
        match self {
            Self::BestEffort => 0,
            Self::Background => 1,
            Self::InteractiveVideo => 2,
            Self::InteractiveVoice => 3,
            Self::ResponsiveData => 4,
            Self::Signaling => 5,
            Self::Unknown(raw) => raw,
        }
    }
}

/// Decoding a raw service-class code and encoding the result gives the code back.
pub proof fn lemma_service_class_raw_round_trip(raw: i32)
    ensures
        spec_service_class_raw(spec_service_class(raw)) == raw,
{
}

/// Encoding a service class and decoding the code gives the class back,
/// unless it is an `Unknown` that carries the code of a named class.
pub proof fn lemma_service_class_round_trip(c: ServiceClass)
    requires
        c matches ServiceClass::Unknown(raw) ==> spec_service_class(raw) == c,
    ensures
        spec_service_class(spec_service_class_raw(c)) == c,
{
}

/// Multipath policy applied to new connections.
#[derive(Debug, Clone, Copy, PartialEq, Eq, Structural)]
pub enum MultipathService {
    Disabled,
    Handover,
    Interactive,
    Aggregate,
    Unknown(i32),
}

/// The multipath policy that a raw code stands for.
pub open spec fn spec_multipath_service(raw: i32) -> MultipathService {
    match raw {
        0 => MultipathService::Disabled,
        1 => MultipathService::Handover,
        2 => MultipathService::Interactive,
        3 => MultipathService::Aggregate,
        other => MultipathService::Unknown(other),
    }
}

/// The raw code of a multipath policy.
pub open spec fn spec_multipath_service_raw(m: MultipathService) -> i32 {
    match m {
        MultipathService::Disabled => 0,
        MultipathService::Handover => 1,
        MultipathService::Interactive => 2,
        MultipathService::Aggregate => 3,
        MultipathService::Unknown(raw) => raw,
    }
}

impl MultipathService {
    /// Decode a raw multipath code.
    pub fn from_raw(raw: i32) -> (m: Self)
        ensures
            m == spec_multipath_service(raw),
    {
        match raw {
            0 => Self::Disabled,
            1 => Self::Handover,
            2 => Self::Interactive,
            3 => Self::Aggregate,
            other => Self::Unknown(other),
        }
    }

    /// Encode the multipath policy as its raw code.
    pub fn as_raw(self) -> (raw: i32)
        ensures
            raw == spec_multipath_service_raw(self),
    {
        match self {
            Self::Disabled => 0,
            Self::Handover => 1,
            Self::Interactive => 2,
            Self::Aggregate => 3,
            Self::Unknown(raw) => raw,
        }
    }
}

/// Decoding a raw multipath code and encoding the result gives the code back.
pub proof fn lemma_multipath_service_raw_round_trip(raw: i32)
    ensures
        spec_multipath_service_raw(spec_multipath_service(raw)) == raw,
{
}

/// Encoding a multipath policy and decoding the code gives the policy back,
/// unless it is an `Unknown` that carries the code of a named policy.
pub proof fn lemma_multipath_service_round_trip(m: MultipathService)
    requires
        m matches MultipathService::Unknown(raw) ==> spec_multipath_service(raw) == m,
    ensures
        spec_multipath_service(spec_multipath_service_raw(m)) == m,
{
}

/// Policy controlling whether expired DNS answers may be used.
#[derive(Debug, Clone, Copy, PartialEq, Eq, Structural)]
pub enum ExpiredDnsBehavior {
    Default,
    Allow,
    Prohibit,
    Persistent,
    Unknown(i32),
}

/// The expired-DNS policy that a raw code stands for.
pub open spec fn spec_expired_dns_behavior(raw: i32) -> ExpiredDnsBehavior {
    match raw {
        0 => ExpiredDnsBehavior::Default,
        1 => ExpiredDnsBehavior::Allow,
        2 => ExpiredDnsBehavior::Prohibit,
        3 => ExpiredDnsBehavior::Persistent,
        other => ExpiredDnsBehavior::Unknown(other),
    }
}

/// The raw code of an expired-DNS policy.
pub open spec fn spec_expired_dns_behavior_raw(b: ExpiredDnsBehavior) -> i32 {
    match b {
        ExpiredDnsBehavior::Default => 0,
        ExpiredDnsBehavior::Allow => 1,
        ExpiredDnsBehavior::Prohibit => 2,
        ExpiredDnsBehavior::Persistent => 3,
        ExpiredDnsBehavior::Unknown(raw) => raw,
    }
}

impl ExpiredDnsBehavior {
    /// Decode a raw expired-DNS code.
    pub fn from_raw(raw: i32) -> (b: Self)
        ensures
            b == spec_expired_dns_behavior(raw),
    {
        match raw {
            0 => Self::Default,
            1 => Self::Allow,
            2 => Self::Prohibit,
            3 => Self::Persistent,
            other => Self::Unknown(other),
        }
    }

    /// Encode the expired-DNS policy as its raw code.
    pub fn as_raw(self) -> (raw: i32)
        ensures
            raw == spec_expired_dns_behavior_raw(self),
    {
        match self {
            Self::Default => 0,
            Self::Allow => 1,
            Self::Prohibit => 2,
            Self::Persistent => 3,
            Self::Unknown(raw) => raw,
        }
    }
}

/// Decoding a raw expired-DNS code and encoding the result gives the code back.
pub proof fn lemma_expired_dns_behavior_raw_round_trip(raw: i32)
    ensures
        spec_expired_dns_behavior_raw(spec_expired_dns_behavior(raw)) == raw,
{
}

/// Encoding an expired-DNS policy and decoding the code gives the policy back,
/// unless it is an `Unknown` that carries the code of a named policy.
pub proof fn lemma_expired_dns_behavior_round_trip(b: ExpiredDnsBehavior)
    requires
        b matches ExpiredDnsBehavior::Unknown(raw) ==> spec_expired_dns_behavior(raw) == b,
    ensures
        spec_expired_dns_behavior(spec_expired_dns_behavior_raw(b)) == b,
{
}

/// The raw codes of `ServiceClass` as the framework defines them: 0 to `BestEffort`, 1 to
/// `Background`, 2 to `InteractiveVideo`, 3 to `InteractiveVoice`, 4 to `ResponsiveData`, 5 to
/// `Signaling`; each named value comes from exactly one code, and every other code is kept,
/// unchanged, in `Unknown`.
pub proof fn lemma_service_class_codes(raw: i32)
    ensures
        (spec_service_class(raw) == ServiceClass::BestEffort) <==> raw == 0,
        (spec_service_class(raw) == ServiceClass::Background) <==> raw == 1,
        (spec_service_class(raw) == ServiceClass::InteractiveVideo) <==> raw == 2,
        (spec_service_class(raw) == ServiceClass::InteractiveVoice) <==> raw == 3,
        (spec_service_class(raw) == ServiceClass::ResponsiveData) <==> raw == 4,
        (spec_service_class(raw) == ServiceClass::Signaling) <==> raw == 5,
        (spec_service_class(raw) is Unknown) <==> !(raw == 0 || raw == 1 || raw == 2 || raw == 3 || raw == 4 || raw == 5),
        !(raw == 0 || raw == 1 || raw == 2 || raw == 3 || raw == 4 || raw == 5) ==> spec_service_class(raw) == ServiceClass::Unknown(raw),
{
}

/// The codes `ServiceClass` values are encoded to, as the framework defines them: `BestEffort`
/// to 0, `Background` to 1, `InteractiveVideo` to 2, `InteractiveVoice` to 3, `ResponsiveData`
/// to 4, `Signaling` to 5, and an unnamed code to itself.
pub proof fn lemma_service_class_raw_codes(raw: i32)
    ensures
        spec_service_class_raw(ServiceClass::BestEffort) == 0,
        spec_service_class_raw(ServiceClass::Background) == 1,
        spec_service_class_raw(ServiceClass::InteractiveVideo) == 2,
        spec_service_class_raw(ServiceClass::InteractiveVoice) == 3,
        spec_service_class_raw(ServiceClass::ResponsiveData) == 4,
        spec_service_class_raw(ServiceClass::Signaling) == 5,
        spec_service_class_raw(ServiceClass::Unknown(raw)) == raw,
{
}

/// The raw codes of `MultipathService` as the framework defines them: 0 to `Disabled`, 1 to
/// `Handover`, 2 to `Interactive`, 3 to `Aggregate`; each named value comes from exactly one
/// code, and every other code is kept, unchanged, in `Unknown`.
pub proof fn lemma_multipath_service_codes(raw: i32)
    ensures
        (spec_multipath_service(raw) == MultipathService::Disabled) <==> raw == 0,
        (spec_multipath_service(raw) == MultipathService::Handover) <==> raw == 1,
        (spec_multipath_service(raw) == MultipathService::Interactive) <==> raw == 2,
        (spec_multipath_service(raw) == MultipathService::Aggregate) <==> raw == 3,
        (spec_multipath_service(raw) is Unknown) <==> !(raw == 0 || raw == 1 || raw == 2 || raw == 3),
        !(raw == 0 || raw == 1 || raw == 2 || raw == 3) ==> spec_multipath_service(raw) == MultipathService::Unknown(raw),
{
}

/// The codes `MultipathService` values are encoded to, as the framework defines them:
/// `Disabled` to 0, `Handover` to 1, `Interactive` to 2, `Aggregate` to 3, and an unnamed code
/// to itself.
pub proof fn lemma_multipath_service_raw_codes(raw: i32)
    ensures
        spec_multipath_service_raw(MultipathService::Disabled) == 0,
        spec_multipath_service_raw(MultipathService::Handover) == 1,
        spec_multipath_service_raw(MultipathService::Interactive) == 2,
        spec_multipath_service_raw(MultipathService::Aggregate) == 3,
        spec_multipath_service_raw(MultipathService::Unknown(raw)) == raw,
{
}

/// The raw codes of `ExpiredDnsBehavior` as the framework defines them: 0 to `Default`, 1 to
/// `Allow`, 2 to `Prohibit`, 3 to `Persistent`; each named value comes from exactly one code,
/// and every other code is kept, unchanged, in `Unknown`.
pub proof fn lemma_expired_dns_behavior_codes(raw: i32)
    ensures
        (spec_expired_dns_behavior(raw) == ExpiredDnsBehavior::Default) <==> raw == 0,
        (spec_expired_dns_behavior(raw) == ExpiredDnsBehavior::Allow) <==> raw == 1,
        (spec_expired_dns_behavior(raw) == ExpiredDnsBehavior::Prohibit) <==> raw == 2,
        (spec_expired_dns_behavior(raw) == ExpiredDnsBehavior::Persistent) <==> raw == 3,
        (spec_expired_dns_behavior(raw) is Unknown) <==> !(raw == 0 || raw == 1 || raw == 2 || raw == 3),
        !(raw == 0 || raw == 1 || raw == 2 || raw == 3) ==> spec_expired_dns_behavior(raw) == ExpiredDnsBehavior::Unknown(raw),
{
}

/// The codes `ExpiredDnsBehavior` values are encoded to, as the framework defines them:
/// `Default` to 0, `Allow` to 1, `Prohibit` to 2, `Persistent` to 3, and an unnamed code to
/// itself.
pub proof fn lemma_expired_dns_behavior_raw_codes(raw: i32)
    ensures
        spec_expired_dns_behavior_raw(ExpiredDnsBehavior::Default) == 0,
        spec_expired_dns_behavior_raw(ExpiredDnsBehavior::Allow) == 1,
        spec_expired_dns_behavior_raw(ExpiredDnsBehavior::Prohibit) == 2,
        spec_expired_dns_behavior_raw(ExpiredDnsBehavior::Persistent) == 3,
        spec_expired_dns_behavior_raw(ExpiredDnsBehavior::Unknown(raw)) == raw,
{
}

} // verus!
