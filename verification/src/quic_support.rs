//! QUIC stream kinds and application error codes.

use vstd::prelude::*;

verus! {

/// QUIC stream direction or datagram mode.
#[derive(Debug, Clone, Copy, PartialEq, Eq, Structural)]
pub enum QuicStreamType {
    Unknown,
    Bidirectional,
    Unidirectional,
    Datagram,
    Other(i32),
}

/// The stream kind that a raw code stands for.
pub open spec fn spec_stream_type(raw: i32) -> QuicStreamType {
    match raw {
        0 => QuicStreamType::Unknown,
        1 => QuicStreamType::Bidirectional,
        2 => QuicStreamType::Unidirectional,
        3 => QuicStreamType::Datagram,
        other => QuicStreamType::Other(other),
    }
}

impl QuicStreamType {
    /// Decode a raw stream-kind code.
    pub fn from_raw(raw: i32) -> (t: Self)
        ensures
            t == spec_stream_type(raw),
    {
        match raw {
            0 => Self::Unknown,
            1 => Self::Bidirectional,
            2 => Self::Unidirectional,
            3 => Self::Datagram,
            other => Self::Other(other),
        }
    }
}

/// The application error that a raw error code reports: none when the
/// framework reports the largest `u64`, otherwise the code itself.
pub fn application_error_code(raw: u64) -> (e: Option<u64>)
    ensures
        raw == u64::MAX ==> e is None,
        raw != u64::MAX ==> e == Some(raw),
{
    if raw != u64::MAX {
        Some(raw)
    } else {
        None
    }
}

/// The raw codes of `QuicStreamType` as the framework defines them: 0 to `Unknown`, 1 to
/// `Bidirectional`, 2 to `Unidirectional`, 3 to `Datagram`; each named value comes from exactly
/// one code, and every other code is kept, unchanged, in `Other`.
pub proof fn lemma_stream_type_codes(raw: i32)
    ensures
        (spec_stream_type(raw) == QuicStreamType::Unknown) <==> raw == 0,
        (spec_stream_type(raw) == QuicStreamType::Bidirectional) <==> raw == 1,
        (spec_stream_type(raw) == QuicStreamType::Unidirectional) <==> raw == 2,
        (spec_stream_type(raw) == QuicStreamType::Datagram) <==> raw == 3,
        (spec_stream_type(raw) is Other) <==> !(raw == 0 || raw == 1 || raw == 2 || raw == 3),
        !(raw == 0 || raw == 1 || raw == 2 || raw == 3) ==> spec_stream_type(raw) == QuicStreamType::Other(raw),
{
}

} // verus!
