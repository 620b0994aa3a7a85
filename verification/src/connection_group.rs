//! Lifecycle states of connection groups.

use vstd::prelude::*;

verus! {

/// Lifecycle state of a connection group.
#[derive(Debug, Clone, Copy, PartialEq, Eq, Structural)]
pub enum ConnectionGroupState {
    Invalid,
    Waiting,
    Ready,
    Failed,
    Cancelled,
}

/// The group state that a raw code stands for; unknown codes are `Invalid`.
pub open spec fn spec_group_state(raw: i32) -> ConnectionGroupState {
    match raw {
        1 => ConnectionGroupState::Waiting,
        2 => ConnectionGroupState::Ready,
        3 => ConnectionGroupState::Failed,
        4 => ConnectionGroupState::Cancelled,
        _ => ConnectionGroupState::Invalid,
    }
}

impl ConnectionGroupState {
    /// Decode a raw group-state code.
    pub fn from_raw(raw: i32) -> (s: Self)
        ensures
            s == spec_group_state(raw),
    {
        match raw {
            1 => Self::Waiting,
            2 => Self::Ready,
            3 => Self::Failed,
            4 => Self::Cancelled,
            _ => Self::Invalid,
        }
    }
}

/// The raw codes of `ConnectionGroupState` as the framework defines them: 1 to `Waiting`, 2 to
/// `Ready`, 3 to `Failed`, 4 to `Cancelled`; each named value comes from exactly one code, and
/// every other code decodes to `Invalid`.
pub proof fn lemma_group_state_codes(raw: i32)
    ensures
        (spec_group_state(raw) == ConnectionGroupState::Waiting) <==> raw == 1,
        (spec_group_state(raw) == ConnectionGroupState::Ready) <==> raw == 2,
        (spec_group_state(raw) == ConnectionGroupState::Failed) <==> raw == 3,
        (spec_group_state(raw) == ConnectionGroupState::Cancelled) <==> raw == 4,
        (spec_group_state(raw) == ConnectionGroupState::Invalid) <==> !(raw == 1 || raw == 2 || raw == 3 || raw == 4),
{
}

} // verus!
