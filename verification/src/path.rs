//! Status vocabularies of path snapshots.

use vstd::prelude::*;

verus! {

/// Whether a path can carry traffic.
#[derive(Debug, Clone, Copy, PartialEq, Eq, Structural)]
pub enum PathStatus {
    Invalid,
    Satisfied,
    Unsatisfied,
    Satisfiable,
    Unknown(i32),
}

/// The path status that a raw code stands for.
pub open spec fn spec_path_status(raw: i32) -> PathStatus {
    match raw {
        0 => PathStatus::Invalid,
        1 => PathStatus::Satisfied,
        2 => PathStatus::Unsatisfied,
        3 => PathStatus::Satisfiable,
        other => PathStatus::Unknown(other),
    }
}

impl PathStatus {
    /// Decode a raw path-status code.
    pub fn from_raw(raw: i32) -> (s: Self)
        ensures
            s == spec_path_status(raw),
    {
        match raw {
            0 => Self::Invalid,
            1 => Self::Satisfied,
            2 => Self::Unsatisfied,
            3 => Self::Satisfiable,
            other => Self::Unknown(other),
        }
    }
}

/// Why a path is unsatisfied.
#[derive(Debug, Clone, Copy, PartialEq, Eq, Structural)]
pub enum PathUnsatisfiedReason {
    NotAvailable,
    CellularDenied,
    WiFiDenied,
    LocalNetworkDenied,
    VpnInactive,
    Unknown(i32),
}

/// The unsatisfied reason that a raw code stands for.
pub open spec fn spec_unsatisfied_reason(raw: i32) -> PathUnsatisfiedReason {
    match raw {
        0 => PathUnsatisfiedReason::NotAvailable,
        1 => PathUnsatisfiedReason::CellularDenied,
        2 => PathUnsatisfiedReason::WiFiDenied,
        3 => PathUnsatisfiedReason::LocalNetworkDenied,
        4 => PathUnsatisfiedReason::VpnInactive,
        other => PathUnsatisfiedReason::Unknown(other),
    }
}

impl PathUnsatisfiedReason {
    /// Decode a raw unsatisfied-reason code.
    pub fn from_raw(raw: i32) -> (r: Self)
        ensures
            r == spec_unsatisfied_reason(raw),
    {
        match raw {
            0 => Self::NotAvailable,
            1 => Self::CellularDenied,
            2 => Self::WiFiDenied,
            3 => Self::LocalNetworkDenied,
            4 => Self::VpnInactive,
            other => Self::Unknown(other),
        }
    }
}

/// Link quality of a path.
#[derive(Debug, Clone, Copy, PartialEq, Eq, Structural)]
pub enum LinkQuality {
    Unknown,
    Minimal,
    Moderate,
    Good,
    Other(i32),
}

/// The link quality that a raw code stands for.
pub open spec fn spec_link_quality(raw: i32) -> LinkQuality {
    match raw {
        0 => LinkQuality::Unknown,
        10 => LinkQuality::Minimal,
        20 => LinkQuality::Moderate,
        30 => LinkQuality::Good,
        other => LinkQuality::Other(other),
    }
}

impl LinkQuality {
    /// Decode a raw link-quality code.
    pub fn from_raw(raw: i32) -> (q: Self)
        ensures
            q == spec_link_quality(raw),
    {
        match raw {
            0 => Self::Unknown,
            10 => Self::Minimal,
            20 => Self::Moderate,
            30 => Self::Good,
            other => Self::Other(other),
        }
    }
}

/// The raw codes of `PathStatus` as the framework defines them: 0 to `Invalid`, 1 to
/// `Satisfied`, 2 to `Unsatisfied`, 3 to `Satisfiable`; each named value comes from exactly one
/// code, and every other code is kept, unchanged, in `Unknown`.
pub proof fn lemma_path_status_codes(raw: i32)
    ensures
        (spec_path_status(raw) == PathStatus::Invalid) <==> raw == 0,
        (spec_path_status(raw) == PathStatus::Satisfied) <==> raw == 1,
        (spec_path_status(raw) == PathStatus::Unsatisfied) <==> raw == 2,
        (spec_path_status(raw) == PathStatus::Satisfiable) <==> raw == 3,
        (spec_path_status(raw) is Unknown) <==> !(raw == 0 || raw == 1 || raw == 2 || raw == 3),
        !(raw == 0 || raw == 1 || raw == 2 || raw == 3) ==> spec_path_status(raw) == PathStatus::Unknown(raw),
{
}

/// The raw codes of `PathUnsatisfiedReason` as the framework defines them: 0 to `NotAvailable`,
/// 1 to `CellularDenied`, 2 to `WiFiDenied`, 3 to `LocalNetworkDenied`, 4 to `VpnInactive`;
/// each named value comes from exactly one code, and every other code is kept, unchanged, in
/// `Unknown`.
pub proof fn lemma_unsatisfied_reason_codes(raw: i32)
    ensures
        (spec_unsatisfied_reason(raw) == PathUnsatisfiedReason::NotAvailable) <==> raw == 0,
        (spec_unsatisfied_reason(raw) == PathUnsatisfiedReason::CellularDenied) <==> raw == 1,
        (spec_unsatisfied_reason(raw) == PathUnsatisfiedReason::WiFiDenied) <==> raw == 2,
        (spec_unsatisfied_reason(raw) == PathUnsatisfiedReason::LocalNetworkDenied) <==> raw == 3,
        (spec_unsatisfied_reason(raw) == PathUnsatisfiedReason::VpnInactive) <==> raw == 4,
        (spec_unsatisfied_reason(raw) is Unknown) <==> !(raw == 0 || raw == 1 || raw == 2 || raw == 3 || raw == 4),
        !(raw == 0 || raw == 1 || raw == 2 || raw == 3 || raw == 4) ==> spec_unsatisfied_reason(raw) == PathUnsatisfiedReason::Unknown(raw),
{
}

/// The raw codes of `LinkQuality` as the framework defines them: 0 to `Unknown`, 10 to
/// `Minimal`, 20 to `Moderate`, 30 to `Good`; each named value comes from exactly one code, and
/// every other code is kept, unchanged, in `Other`.
pub proof fn lemma_link_quality_codes(raw: i32)
    ensures
        (spec_link_quality(raw) == LinkQuality::Unknown) <==> raw == 0,
        (spec_link_quality(raw) == LinkQuality::Minimal) <==> raw == 10,
        (spec_link_quality(raw) == LinkQuality::Moderate) <==> raw == 20,
        (spec_link_quality(raw) == LinkQuality::Good) <==> raw == 30,
        (spec_link_quality(raw) is Other) <==> !(raw == 0 || raw == 10 || raw == 20 || raw == 30),
        !(raw == 0 || raw == 10 || raw == 20 || raw == 30) ==> spec_link_quality(raw) == LinkQuality::Other(raw),
{
}

} // verus!
