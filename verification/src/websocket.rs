//! WebSocket vocabularies: opcodes, versions, close codes, response statuses,
//! and received messages.

use vstd::prelude::*;

use crate::error::{finish_receive, receive_outcome, NetworkError};

verus! {

/// WebSocket message kind.
#[derive(Debug, Clone, Copy, PartialEq, Eq, Structural)]
pub enum Opcode {
    Text,
    Binary,
    Close,
    Ping,
    Pong,
}

/// The opcode that a raw code stands for; unknown codes are binary data.
pub open spec fn spec_opcode(v: i32) -> Opcode {
    match v {
        1 => Opcode::Text,
        8 => Opcode::Close,
        9 => Opcode::Ping,
        10 => Opcode::Pong,
        _ => Opcode::Binary,
    }
}

/// The raw code of an opcode.
pub open spec fn spec_opcode_raw(o: Opcode) -> i32 {
    match o {
        Opcode::Text => 1,
        Opcode::Binary => 2,
        Opcode::Close => 8,
        Opcode::Ping => 9,
        Opcode::Pong => 10,
    }
}

impl Opcode {
    /// Decode a raw opcode.
    pub fn from_raw(v: i32) -> (o: Self)
        ensures
            o == spec_opcode(v),
    {
        match v {
            1 => Self::Text,
            8 => Self::Close,
            9 => Self::Ping,
            10 => Self::Pong,
            _ => Self::Binary,
        }
    }

    /// Encode the opcode as its raw code.
    pub fn as_raw(self) -> (raw: i32)
        ensures
            raw == spec_opcode_raw(self),
    {
        match self {
            Self::Text => 1,
            Self::Binary => 2,
            Self::Close => 8,
            Self::Ping => 9,
            Self::Pong => 10,
        }
    }
}

/// Encoding an opcode and decoding the code gives the opcode back.
pub proof fn lemma_opcode_round_trip(o: Opcode)
    ensures
        spec_opcode(spec_opcode_raw(o)) == o,
{
}

/// WebSocket protocol version.
#[derive(Debug, Clone, Copy, PartialEq, Eq, Structural)]
pub enum WsVersion {
    Invalid,
    V13,
    Other(i32),
}

/// The WebSocket version that a raw code stands for.
pub open spec fn spec_ws_version(raw: i32) -> WsVersion {
    match raw {
        0 => WsVersion::Invalid,
        1 => WsVersion::V13,
        other => WsVersion::Other(other),
    }
}

/// The raw code of a WebSocket version.
pub open spec fn spec_ws_version_raw(v: WsVersion) -> i32 {
    match v {
        WsVersion::Invalid => 0,
        WsVersion::V13 => 1,
        WsVersion::Other(raw) => raw,
    }
}

impl WsVersion {
    /// Decode a raw version code.
    pub fn from_raw(raw: i32) -> (v: Self)
        ensures
            v == spec_ws_version(raw),
    {
        match raw {
            0 => Self::Invalid,
            1 => Self::V13,
            other => Self::Other(other),
        }
    }

    /// Encode the version as its raw code.
    pub fn as_raw(self) -> (raw: i32)
        ensures
            raw == spec_ws_version_raw(self),
    {
        match self {
            Self::Invalid => 0,
            Self::V13 => 1,
            Self::Other(raw) => raw,
        }
    }
}

/// Decoding a raw version code and encoding the result gives the code back.
pub proof fn lemma_ws_version_raw_round_trip(raw: i32)
    ensures
        spec_ws_version_raw(spec_ws_version(raw)) == raw,
{
}

/// Encoding a version and decoding the code gives the version back, unless it
/// is an `Other` that carries the code of a named version.
pub proof fn lemma_ws_version_round_trip(v: WsVersion)
    requires
        v matches WsVersion::Other(raw) ==> spec_ws_version(raw) == v,
    ensures
        spec_ws_version(spec_ws_version_raw(v)) == v,
{
}

/// WebSocket close code.
#[derive(Debug, Clone, Copy, PartialEq, Eq, Structural)]
pub enum WsCloseCode {
    NormalClosure,
    GoingAway,
    ProtocolError,
    UnsupportedData,
    NoStatusReceived,
    AbnormalClosure,
    InvalidFramePayloadData,
    PolicyViolation,
    MessageTooBig,
    MandatoryExtension,
    InternalServerError,
    TlsHandshake,
    Other(i32),
}

/// The close code that a raw code stands for.
pub open spec fn spec_close_code(raw: i32) -> WsCloseCode {
    match raw {
        1000 => WsCloseCode::NormalClosure,
        1001 => WsCloseCode::GoingAway,
        1002 => WsCloseCode::ProtocolError,
        1003 => WsCloseCode::UnsupportedData,
        1005 => WsCloseCode::NoStatusReceived,
        1006 => WsCloseCode::AbnormalClosure,
        1007 => WsCloseCode::InvalidFramePayloadData,
        1008 => WsCloseCode::PolicyViolation,
        1009 => WsCloseCode::MessageTooBig,
        1010 => WsCloseCode::MandatoryExtension,
        1011 => WsCloseCode::InternalServerError,
        1015 => WsCloseCode::TlsHandshake,
        other => WsCloseCode::Other(other),
    }
}

/// The raw code of a close code.
pub open spec fn spec_close_code_raw(c: WsCloseCode) -> i32 {
    match c {
        WsCloseCode::NormalClosure => 1000,
        WsCloseCode::GoingAway => 1001,
        WsCloseCode::ProtocolError => 1002,
        WsCloseCode::UnsupportedData => 1003,
        WsCloseCode::NoStatusReceived => 1005,
        WsCloseCode::AbnormalClosure => 1006,
        WsCloseCode::InvalidFramePayloadData => 1007,
        WsCloseCode::PolicyViolation => 1008,
        WsCloseCode::MessageTooBig => 1009,
        WsCloseCode::MandatoryExtension => 1010,
        WsCloseCode::InternalServerError => 1011,
        WsCloseCode::TlsHandshake => 1015,
        WsCloseCode::Other(raw) => raw,
    }
}

impl WsCloseCode {
    /// Decode a raw close code.
    pub fn from_raw(raw: i32) -> (c: Self)
        ensures
            c == spec_close_code(raw),
    {
        match raw {
            1000 => Self::NormalClosure,
            1001 => Self::GoingAway,
            1002 => Self::ProtocolError,
            1003 => Self::UnsupportedData,
            1005 => Self::NoStatusReceived,
            1006 => Self::AbnormalClosure,
            1007 => Self::InvalidFramePayloadData,
            1008 => Self::PolicyViolation,
            1009 => Self::MessageTooBig,
            1010 => Self::MandatoryExtension,
            1011 => Self::InternalServerError,
            1015 => Self::TlsHandshake,
            other => Self::Other(other),
        }
    }

    /// Encode the close code as its raw code.
    pub fn as_raw(self) -> (raw: i32)
        ensures
            raw == spec_close_code_raw(self),
    {
        match self {
            Self::NormalClosure => 1000,
            Self::GoingAway => 1001,
            Self::ProtocolError => 1002,
            Self::UnsupportedData => 1003,
            Self::NoStatusReceived => 1005,
            Self::AbnormalClosure => 1006,
            Self::InvalidFramePayloadData => 1007,
            Self::PolicyViolation => 1008,
            Self::MessageTooBig => 1009,
            Self::MandatoryExtension => 1010,
            Self::InternalServerError => 1011,
            Self::TlsHandshake => 1015,
            Self::Other(raw) => raw,
        }
    }
}

/// Decoding a raw close code and encoding the result gives the code back.
pub proof fn lemma_close_code_raw_round_trip(raw: i32)
    ensures
        spec_close_code_raw(spec_close_code(raw)) == raw,
{
}

/// Encoding a close code and decoding it gives the close code back, unless it
/// is an `Other` that carries the code of a named close code.
pub proof fn lemma_close_code_round_trip(c: WsCloseCode)
    requires
        c matches WsCloseCode::Other(raw) ==> spec_close_code(raw) == c,
    ensures
        spec_close_code(spec_close_code_raw(c)) == c,
{
}

/// Status returned from WebSocket client-request handlers.
#[derive(Debug, Clone, Copy, PartialEq, Eq, Structural)]
pub enum WsResponseStatus {
    Invalid,
    Accept,
    Reject,
    Other(i32),
}

/// The response status that a raw code stands for.
pub open spec fn spec_response_status(raw: i32) -> WsResponseStatus {
    match raw {
        0 => WsResponseStatus::Invalid,
        1 => WsResponseStatus::Accept,
        2 => WsResponseStatus::Reject,
        other => WsResponseStatus::Other(other),
    }
}

/// The raw code of a response status.
pub open spec fn spec_response_status_raw(s: WsResponseStatus) -> i32 {
    match s {
        WsResponseStatus::Invalid => 0,
        WsResponseStatus::Accept => 1,
        WsResponseStatus::Reject => 2,
        WsResponseStatus::Other(raw) => raw,
    }
}

impl WsResponseStatus {
    /// Decode a raw response status.
    pub fn from_raw(raw: i32) -> (s: Self)
        ensures
            s == spec_response_status(raw),
    {
        match raw {
            0 => Self::Invalid,
            1 => Self::Accept,
            2 => Self::Reject,
            other => Self::Other(other),
        }
    }

    /// Encode the response status as its raw code.
    pub fn as_raw(self) -> (raw: i32)
        ensures
            raw == spec_response_status_raw(self),
    {
        match self {
            Self::Invalid => 0,
            Self::Accept => 1,
            Self::Reject => 2,
            Self::Other(raw) => raw,
        }
    }
}

/// Decoding a raw response status and encoding the result gives the code back.
pub proof fn lemma_response_status_raw_round_trip(raw: i32)
    ensures
        spec_response_status_raw(spec_response_status(raw)) == raw,
{
}

/// Encoding a response status and decoding it gives the status back, unless
/// it is an `Other` that carries the code of a named status.
pub proof fn lemma_response_status_round_trip(s: WsResponseStatus)
    requires
        s matches WsResponseStatus::Other(raw) ==> spec_response_status(raw) == s,
    ensures
        spec_response_status(spec_response_status_raw(s)) == s,
{
}

/// One received WebSocket message.
#[derive(Debug, Clone, PartialEq, Eq)]
pub struct WsMessage {
    pub opcode: Opcode,
    pub data: Vec<u8>,
}

/// Finish a WebSocket receive call that filled `buf`, returned `n` and
/// reported the raw opcode `op`: a negative count is a status code; otherwise
/// the message holds the first `n` bytes and the decoded opcode.
pub fn finish_ws_receive(buf: Vec<u8>, n: isize, op: i32) -> (r: Result<WsMessage, NetworkError>)
    ensures
        match r {
            Ok(m) => m.opcode == spec_opcode(op) && receive_outcome(buf@, n, Ok(m.data)),
            Err(e) => receive_outcome(buf@, n, Err(e)),
        },
{
    match finish_receive(buf, n) {
        Ok(data) => Ok(WsMessage { opcode: Opcode::from_raw(op), data }),
        Err(e) => Err(e),
    }
}

/// The raw codes of `Opcode` as the framework defines them: 1 to `Text`, 8 to `Close`, 9 to
/// `Ping`, 10 to `Pong`; each named value comes from exactly one code, and every other code
/// decodes to `Binary`.
pub proof fn lemma_opcode_codes(raw: i32)
    ensures
        (spec_opcode(raw) == Opcode::Text) <==> raw == 1,
        (spec_opcode(raw) == Opcode::Close) <==> raw == 8,
        (spec_opcode(raw) == Opcode::Ping) <==> raw == 9,
        (spec_opcode(raw) == Opcode::Pong) <==> raw == 10,
        (spec_opcode(raw) == Opcode::Binary) <==> !(raw == 1 || raw == 8 || raw == 9 || raw == 10),
{
}

/// The codes `Opcode` values are encoded to, as the framework defines them: `Text` to 1,
/// `Binary` to 2, `Close` to 8, `Ping` to 9, `Pong` to 10.
pub proof fn lemma_opcode_raw_codes()
    ensures
        spec_opcode_raw(Opcode::Text) == 1,
        spec_opcode_raw(Opcode::Binary) == 2,
        spec_opcode_raw(Opcode::Close) == 8,
        spec_opcode_raw(Opcode::Ping) == 9,
        spec_opcode_raw(Opcode::Pong) == 10,
{
}

/// The raw codes of `WsVersion` as the framework defines them: 0 to `Invalid`, 1 to `V13`; each
/// named value comes from exactly one code, and every other code is kept, unchanged, in
/// `Other`.
pub proof fn lemma_ws_version_codes(raw: i32)
    ensures
        (spec_ws_version(raw) == WsVersion::Invalid) <==> raw == 0,
        (spec_ws_version(raw) == WsVersion::V13) <==> raw == 1,
        (spec_ws_version(raw) is Other) <==> !(raw == 0 || raw == 1),
        !(raw == 0 || raw == 1) ==> spec_ws_version(raw) == WsVersion::Other(raw),
{
}

/// The codes `WsVersion` values are encoded to, as the framework defines them: `Invalid` to 0,
/// `V13` to 1, and an unnamed code to itself.
pub proof fn lemma_ws_version_raw_codes(raw: i32)
    ensures
        spec_ws_version_raw(WsVersion::Invalid) == 0,
        spec_ws_version_raw(WsVersion::V13) == 1,
        spec_ws_version_raw(WsVersion::Other(raw)) == raw,
{
}

/// The raw codes of `WsCloseCode` as the framework defines them: 1000 to `NormalClosure`, 1001
/// to `GoingAway`, 1002 to `ProtocolError`, 1003 to `UnsupportedData`, 1005 to
/// `NoStatusReceived`, 1006 to `AbnormalClosure`, 1007 to `InvalidFramePayloadData`, 1008 to
/// `PolicyViolation`, 1009 to `MessageTooBig`, 1010 to `MandatoryExtension`, 1011 to
/// `InternalServerError`, 1015 to `TlsHandshake`; each named value comes from exactly one code,
/// and every other code is kept, unchanged, in `Other`.
pub proof fn lemma_close_code_codes(raw: i32)
    ensures
        (spec_close_code(raw) == WsCloseCode::NormalClosure) <==> raw == 1000,
        (spec_close_code(raw) == WsCloseCode::GoingAway) <==> raw == 1001,
        (spec_close_code(raw) == WsCloseCode::ProtocolError) <==> raw == 1002,
        (spec_close_code(raw) == WsCloseCode::UnsupportedData) <==> raw == 1003,
        (spec_close_code(raw) == WsCloseCode::NoStatusReceived) <==> raw == 1005,
        (spec_close_code(raw) == WsCloseCode::AbnormalClosure) <==> raw == 1006,
        (spec_close_code(raw) == WsCloseCode::InvalidFramePayloadData) <==> raw == 1007,
        (spec_close_code(raw) == WsCloseCode::PolicyViolation) <==> raw == 1008,
        (spec_close_code(raw) == WsCloseCode::MessageTooBig) <==> raw == 1009,
        (spec_close_code(raw) == WsCloseCode::MandatoryExtension) <==> raw == 1010,
        (spec_close_code(raw) == WsCloseCode::InternalServerError) <==> raw == 1011,
        (spec_close_code(raw) == WsCloseCode::TlsHandshake) <==> raw == 1015,
        (spec_close_code(raw) is Other) <==> !(raw == 1000 || raw == 1001 || raw == 1002 || raw == 1003 || raw == 1005 || raw == 1006 || raw == 1007 || raw == 1008 || raw == 1009 || raw == 1010 || raw == 1011 || raw == 1015),
        !(raw == 1000 || raw == 1001 || raw == 1002 || raw == 1003 || raw == 1005 || raw == 1006 || raw == 1007 || raw == 1008 || raw == 1009 || raw == 1010 || raw == 1011 || raw == 1015) ==> spec_close_code(raw) == WsCloseCode::Other(raw),
{
}

/// The codes `WsCloseCode` values are encoded to, as the framework defines them:
/// `NormalClosure` to 1000, `GoingAway` to 1001, `ProtocolError` to 1002, `UnsupportedData` to
/// 1003, `NoStatusReceived` to 1005, `AbnormalClosure` to 1006, `InvalidFramePayloadData` to
/// 1007, `PolicyViolation` to 1008, `MessageTooBig` to 1009, `MandatoryExtension` to 1010,
/// `InternalServerError` to 1011, `TlsHandshake` to 1015, and an unnamed code to itself.
pub proof fn lemma_close_code_raw_codes(raw: i32)
    ensures
        spec_close_code_raw(WsCloseCode::NormalClosure) == 1000,
        spec_close_code_raw(WsCloseCode::GoingAway) == 1001,
        spec_close_code_raw(WsCloseCode::ProtocolError) == 1002,
        spec_close_code_raw(WsCloseCode::UnsupportedData) == 1003,
        spec_close_code_raw(WsCloseCode::NoStatusReceived) == 1005,
        spec_close_code_raw(WsCloseCode::AbnormalClosure) == 1006,
        spec_close_code_raw(WsCloseCode::InvalidFramePayloadData) == 1007,
        spec_close_code_raw(WsCloseCode::PolicyViolation) == 1008,
        spec_close_code_raw(WsCloseCode::MessageTooBig) == 1009,
        spec_close_code_raw(WsCloseCode::MandatoryExtension) == 1010,
        spec_close_code_raw(WsCloseCode::InternalServerError) == 1011,
        spec_close_code_raw(WsCloseCode::TlsHandshake) == 1015,
        spec_close_code_raw(WsCloseCode::Other(raw)) == raw,
{
}

/// The raw codes of `WsResponseStatus` as the framework defines them: 0 to `Invalid`, 1 to
/// `Accept`, 2 to `Reject`; each named value comes from exactly one code, and every other code
/// is kept, unchanged, in `Other`.
pub proof fn lemma_response_status_codes(raw: i32)
    ensures
        (spec_response_status(raw) == WsResponseStatus::Invalid) <==> raw == 0,
        (spec_response_status(raw) == WsResponseStatus::Accept) <==> raw == 1,
        (spec_response_status(raw) == WsResponseStatus::Reject) <==> raw == 2,
        (spec_response_status(raw) is Other) <==> !(raw == 0 || raw == 1 || raw == 2),
        !(raw == 0 || raw == 1 || raw == 2) ==> spec_response_status(raw) == WsResponseStatus::Other(raw),
{
}

/// The codes `WsResponseStatus` values are encoded to, as the framework defines them: `Invalid`
/// to 0, `Accept` to 1, `Reject` to 2, and an unnamed code to itself.
pub proof fn lemma_response_status_raw_codes(raw: i32)
    ensures
        spec_response_status_raw(WsResponseStatus::Invalid) == 0,
        spec_response_status_raw(WsResponseStatus::Accept) == 1,
        spec_response_status_raw(WsResponseStatus::Reject) == 2,
        spec_response_status_raw(WsResponseStatus::Other(raw)) == raw,
{
}

} // verus!
