//! Kinds of network endpoints.

use vstd::prelude::*;

verus! {

/// The kind of an endpoint.
#[derive(Debug, Clone, Copy, PartialEq, Eq, Structural)]
pub enum EndpointType {
    Invalid,
    Address,
    Host,
    BonjourService,
    Url,
    Unknown(i32),
}

/// The endpoint kind that a raw code stands for.
pub open spec fn spec_endpoint_type(raw: i32) -> EndpointType {
    match raw {
        0 => EndpointType::Invalid,
        1 => EndpointType::Address,
        2 => EndpointType::Host,
        3 => EndpointType::BonjourService,
        4 => EndpointType::Url,
        other => EndpointType::Unknown(other),
    }
}

impl EndpointType {
    /// Decode a raw endpoint-kind code.
    pub fn from_raw(raw: i32) -> (t: Self)
        ensures
            t == spec_endpoint_type(raw),
    {
        match raw {
            0 => Self::Invalid,
            1 => Self::Address,
            2 => Self::Host,
            3 => Self::BonjourService,
            4 => Self::Url,
            other => Self::Unknown(other),
        }
    }
}

/// The raw codes of `EndpointType` as the framework defines them: 0 to `Invalid`, 1 to
/// `Address`, 2 to `Host`, 3 to `BonjourService`, 4 to `Url`; each named value comes from
/// exactly one code, and every other code is kept, unchanged, in `Unknown`.
pub proof fn lemma_endpoint_type_codes(raw: i32)
    ensures
        (spec_endpoint_type(raw) == EndpointType::Invalid) <==> raw == 0,
        (spec_endpoint_type(raw) == EndpointType::Address) <==> raw == 1,
        (spec_endpoint_type(raw) == EndpointType::Host) <==> raw == 2,
        (spec_endpoint_type(raw) == EndpointType::BonjourService) <==> raw == 3,
        (spec_endpoint_type(raw) == EndpointType::Url) <==> raw == 4,
        (spec_endpoint_type(raw) is Unknown) <==> !(raw == 0 || raw == 1 || raw == 2 || raw == 3 || raw == 4),
        !(raw == 0 || raw == 1 || raw == 2 || raw == 3 || raw == 4) ==> spec_endpoint_type(raw) == EndpointType::Unknown(raw),
{
}

} // verus!
