//! Traffic attribution of connection parameters.

use vstd::prelude::*;

verus! {

/// To whom the traffic created with a set of parameters is attributed.
#[derive(Debug, Clone, Copy, PartialEq, Eq, Structural)]
pub enum ParametersAttribution {
    Developer,
    User,
}

/// The attribution that a raw code stands for; every code but 2 is the developer.
pub open spec fn spec_attribution(raw: i32) -> ParametersAttribution {
    match raw {
        2 => ParametersAttribution::User,
        _ => ParametersAttribution::Developer,
    }
}

/// The raw code of an attribution.
pub open spec fn spec_attribution_raw(a: ParametersAttribution) -> i32 {
    match a {
        ParametersAttribution::Developer => 1,
        ParametersAttribution::User => 2,
    }
}

impl ParametersAttribution {
    /// Decode a raw attribution code.
    pub fn from_raw(raw: i32) -> (a: Self)
        ensures
            a == spec_attribution(raw),
    {
        match raw {
            2 => Self::User,
            _ => Self::Developer,
        }
    }

    /// Encode the attribution as its raw code.
    pub fn as_raw(self) -> (raw: i32)
        ensures
            raw == spec_attribution_raw(self),
    {
        match self {
            Self::Developer => 1,
            Self::User => 2,
        }
    }
}

/// Encoding an attribution and decoding the code gives the attribution back.
pub proof fn lemma_attribution_round_trip(a: ParametersAttribution)
    ensures
        spec_attribution(spec_attribution_raw(a)) == a,
{
}

/// The raw codes of `ParametersAttribution` as the framework defines them: 2 to `User`; each
/// named value comes from exactly one code, and every other code decodes to `Developer`.
pub proof fn lemma_attribution_codes(raw: i32)
    ensures
        (spec_attribution(raw) == ParametersAttribution::User) <==> raw == 2,
        (spec_attribution(raw) == ParametersAttribution::Developer) <==> !(raw == 2),
{
}

/// The codes `ParametersAttribution` values are encoded to, as the framework defines them:
/// `Developer` to 1, `User` to 2.
pub proof fn lemma_attribution_raw_codes()
    ensures
        spec_attribution_raw(ParametersAttribution::Developer) == 1,
        spec_attribution_raw(ParametersAttribution::User) == 2,
{
}

} // verus!
