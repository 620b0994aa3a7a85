//! Lifecycle states reported by connection and listener event streams.

use vstd::prelude::*;

verus! {

/// State of a connection.
#[derive(Debug, Clone, Copy, PartialEq, Eq, Structural)]
pub enum ConnectionState {
    Invalid,
    Waiting,
    Preparing,
    Ready,
    Failed,
    Cancelled,
    Unknown(i32),
}

/// The connection state that a raw code stands for.
pub open spec fn spec_connection_state(raw: i32) -> ConnectionState {
    match raw {
        0 => ConnectionState::Invalid,
        1 => ConnectionState::Waiting,
        2 => ConnectionState::Preparing,
        3 => ConnectionState::Ready,
        4 => ConnectionState::Failed,
        5 => ConnectionState::Cancelled,
        other => ConnectionState::Unknown(other),
    }
}

impl ConnectionState {
    /// Decode a raw connection-state code.
    pub fn from_raw(raw: i32) -> (s: Self)
        ensures
            s == spec_connection_state(raw),
    {
        match raw {
            0 => Self::Invalid,
            1 => Self::Waiting,
            2 => Self::Preparing,
            3 => Self::Ready,
            4 => Self::Failed,
            5 => Self::Cancelled,
            other => Self::Unknown(other),
        }
    }
}

/// State of a listener.
#[derive(Debug, Clone, Copy, PartialEq, Eq, Structural)]
pub enum ListenerState {
    Invalid,
    Waiting,
    Ready,
    Failed,
    Cancelled,
    Unknown(i32),
}

/// The listener state that a raw code stands for.
pub open spec fn spec_listener_state(raw: i32) -> ListenerState {
    match raw {
        0 => ListenerState::Invalid,
        1 => ListenerState::Waiting,
        2 => ListenerState::Ready,
        3 => ListenerState::Failed,
        4 => ListenerState::Cancelled,
        other => ListenerState::Unknown(other),
    }
}

impl ListenerState {
    /// Decode a raw listener-state code.
    pub fn from_raw(raw: i32) -> (s: Self)
        ensures
            s == spec_listener_state(raw),
    {
        match raw {
            0 => Self::Invalid,
            1 => Self::Waiting,
            2 => Self::Ready,
            3 => Self::Failed,
            4 => Self::Cancelled,
            other => Self::Unknown(other),
        }
    }
}

/// The raw codes of `ConnectionState` as the framework defines them: 0 to `Invalid`, 1 to
/// `Waiting`, 2 to `Preparing`, 3 to `Ready`, 4 to `Failed`, 5 to `Cancelled`; each named value
/// comes from exactly one code, and every other code is kept, unchanged, in `Unknown`.
pub proof fn lemma_connection_state_codes(raw: i32)
    ensures
        (spec_connection_state(raw) == ConnectionState::Invalid) <==> raw == 0,
        (spec_connection_state(raw) == ConnectionState::Waiting) <==> raw == 1,
        (spec_connection_state(raw) == ConnectionState::Preparing) <==> raw == 2,
        (spec_connection_state(raw) == ConnectionState::Ready) <==> raw == 3,
        (spec_connection_state(raw) == ConnectionState::Failed) <==> raw == 4,
        (spec_connection_state(raw) == ConnectionState::Cancelled) <==> raw == 5,
        (spec_connection_state(raw) is Unknown) <==> !(raw == 0 || raw == 1 || raw == 2 || raw == 3 || raw == 4 || raw == 5),
        !(raw == 0 || raw == 1 || raw == 2 || raw == 3 || raw == 4 || raw == 5) ==> spec_connection_state(raw) == ConnectionState::Unknown(raw),
{
}

/// The raw codes of `ListenerState` as the framework defines them: 0 to `Invalid`, 1 to
/// `Waiting`, 2 to `Ready`, 3 to `Failed`, 4 to `Cancelled`; each named value comes from
/// exactly one code, and every other code is kept, unchanged, in `Unknown`.
pub proof fn lemma_listener_state_codes(raw: i32)
    ensures
        (spec_listener_state(raw) == ListenerState::Invalid) <==> raw == 0,
        (spec_listener_state(raw) == ListenerState::Waiting) <==> raw == 1,
        (spec_listener_state(raw) == ListenerState::Ready) <==> raw == 2,
        (spec_listener_state(raw) == ListenerState::Failed) <==> raw == 3,
        (spec_listener_state(raw) == ListenerState::Cancelled) <==> raw == 4,
        (spec_listener_state(raw) is Unknown) <==> !(raw == 0 || raw == 1 || raw == 2 || raw == 3 || raw == 4),
        !(raw == 0 || raw == 1 || raw == 2 || raw == 3 || raw == 4) ==> spec_listener_state(raw) == ListenerState::Unknown(raw),
{
}

} // verus!
