//! Errors raised by the networking layer and the status codes of the shim.

use vstd::prelude::*;
use vstd::string::StringExecFns;

use crate::text::{append_decimal, append_signed_decimal, decimal, signed_decimal};

verus! {

/// Success status returned by the shim.
pub const NW_OK: i32 = 0;
/// The shim rejected an argument.
pub const NW_INVALID_ARG: i32 = -1;
/// A connection could not be established.
pub const NW_CONNECT_FAILED: i32 = -2;
/// Sending failed.
pub const NW_SEND_FAILED: i32 = -3;
/// Receiving failed.
pub const NW_RECV_FAILED: i32 = -4;
/// Listening failed.
pub const NW_LISTEN_FAILED: i32 = -5;
/// The operation was cancelled.
pub const NW_CANCELLED: i32 = -6;
/// The operation timed out.
pub const NW_TIMEOUT: i32 = -7;
/// The requested operation is not available on this system.
pub const NW_UNSUPPORTED: i32 = -8;
/// The Security framework refused the operation.
pub const NW_SECURITY_FAILED: i32 = -9;

/// Failure modes from the shim.
#[derive(Debug, Clone, PartialEq, Eq)]
pub enum NetworkError {
    InvalidArgument(String),
    ConnectFailed,
    SendFailed,
    ReceiveFailed,
    ListenFailed,
    Cancelled,
    Timeout,
    Unknown(i32),
    Unsupported(String),
    Security(i32),
    MessageTooLarge { size: usize, limit: usize },
}

/// The text that describes an error.
pub open spec fn error_message(e: NetworkError) -> Seq<char> {
    match e {
        NetworkError::InvalidArgument(m) => "invalid argument: "@ + m@,
        NetworkError::ConnectFailed => "connect failed"@,
        NetworkError::SendFailed => "send failed"@,
        NetworkError::ReceiveFailed => "receive failed"@,
        NetworkError::ListenFailed => "listen failed"@,
        NetworkError::Cancelled => "operation cancelled"@,
        NetworkError::Timeout => "operation timed out"@,
        NetworkError::Unknown(c) => "unknown shim status "@ + signed_decimal(c as int),
        NetworkError::Unsupported(m) => "unsupported: "@ + m@,
        NetworkError::Security(c) => "security failure, status "@ + signed_decimal(c as int),
        NetworkError::MessageTooLarge { size, limit } => "message of "@ + decimal(size as nat)
            + " bytes exceeds the limit of "@ + decimal(limit as nat) + " bytes"@,
    }
}

impl NetworkError {
    /// Human-readable description of the error.
    pub fn message(&self) -> (s: String)
        ensures
            s@ == error_message(*self),
    {
        match self {
            NetworkError::InvalidArgument(m) => {
                proof { reveal_strlit("invalid argument: "); }
                let mut s = String::from_str("invalid argument: ");
                s.append(m.as_str());
                s
            },
            NetworkError::ConnectFailed => String::from_str("connect failed"),
            NetworkError::SendFailed => String::from_str("send failed"),
            NetworkError::ReceiveFailed => String::from_str("receive failed"),
            NetworkError::ListenFailed => String::from_str("listen failed"),
            NetworkError::Cancelled => String::from_str("operation cancelled"),
            NetworkError::Timeout => String::from_str("operation timed out"),
            NetworkError::Unknown(c) => {
                proof { reveal_strlit("unknown shim status "); }
                let mut s = String::from_str("unknown shim status ");
                append_signed_decimal(&mut s, *c as i64);
                s
            },
            NetworkError::Unsupported(m) => {
                proof { reveal_strlit("unsupported: "); }
                let mut s = String::from_str("unsupported: ");
                s.append(m.as_str());
                s
            },
            NetworkError::Security(c) => {
                proof { reveal_strlit("security failure, status "); }
                let mut s = String::from_str("security failure, status ");
                append_signed_decimal(&mut s, *c as i64);
                s
            },
            NetworkError::MessageTooLarge { size, limit } => {
                proof {
                    reveal_strlit("message of ");
                    reveal_strlit(" bytes exceeds the limit of ");
                    reveal_strlit(" bytes");
                }
                let mut s = String::from_str("message of ");
                append_decimal(&mut s, *size as u64);
                s.append(" bytes exceeds the limit of ");
                append_decimal(&mut s, *limit as u64);
                s.append(" bytes");
                s
            },
        }
    }
}

/// The error that `from_status` gives for a status code.
pub open spec fn status_error(code: i32, e: NetworkError) -> bool {
    if code == NW_INVALID_ARG {
        e matches NetworkError::InvalidArgument(m) && m@ == "shim"@
    } else if code == NW_CONNECT_FAILED {
        e == NetworkError::ConnectFailed
    } else if code == NW_SEND_FAILED {
        e == NetworkError::SendFailed
    } else if code == NW_RECV_FAILED {
        e == NetworkError::ReceiveFailed
    } else if code == NW_LISTEN_FAILED {
        e == NetworkError::ListenFailed
    } else if code == NW_CANCELLED {
        e == NetworkError::Cancelled
    } else if code == NW_TIMEOUT {
        e == NetworkError::Timeout
    } else {
        e == NetworkError::Unknown(code)
    }
}

/// Map a shim status code to the error it stands for.
pub fn from_status(code: i32) -> (e: NetworkError)
    ensures
        status_error(code, e),
{
    if code == NW_INVALID_ARG {
        NetworkError::InvalidArgument("shim".to_owned())
    } else if code == NW_CONNECT_FAILED {
        NetworkError::ConnectFailed
    } else if code == NW_SEND_FAILED {
        NetworkError::SendFailed
    } else if code == NW_RECV_FAILED {
        NetworkError::ReceiveFailed
    } else if code == NW_LISTEN_FAILED {
        NetworkError::ListenFailed
    } else if code == NW_CANCELLED {
        NetworkError::Cancelled
    } else if code == NW_TIMEOUT {
        NetworkError::Timeout
    } else {
        NetworkError::Unknown(code)
    }
}

/// Network.framework error domains.
#[derive(Debug, Clone, Copy, PartialEq, Eq, Structural)]
pub enum ErrorDomain {
    Posix,
    Dns,
    Tls,
    WifiAware,
    Unknown(i32),
}

/// The domain that a raw domain code stands for.
pub open spec fn spec_error_domain(raw: i32) -> ErrorDomain {
    match raw {
        1 => ErrorDomain::Posix,
        2 => ErrorDomain::Dns,
        3 => ErrorDomain::Tls,
        4 => ErrorDomain::WifiAware,
        other => ErrorDomain::Unknown(other),
    }
}

impl ErrorDomain {
    /// Decode a raw domain code.
    pub fn from_raw(raw: i32) -> (d: Self)
        ensures
            d == spec_error_domain(raw),
    {
        match raw {
            1 => Self::Posix,
            2 => Self::Dns,
            3 => Self::Tls,
            4 => Self::WifiAware,
            other => Self::Unknown(other),
        }
    }
}

} // verus!

verus! {

/// Turn a shim status into a result: `Ok` exactly for `NW_OK`, otherwise the
/// error that the status stands for.
pub fn check_status(status: i32) -> (r: Result<(), NetworkError>)
    ensures
        r is Ok <==> status == NW_OK,
        r matches Err(e) ==> status_error(status, e),
{
    if status != NW_OK {
        return Err(from_status(status));
    }
    Ok(())
}

/// The outcome of a call that returns a status and, on success, an object:
/// `Ok` exactly when the status is `NW_OK` and an object came back, otherwise
/// the error that the status stands for.
pub fn check_created(status: i32, has_handle: bool) -> (r: Result<(), NetworkError>)
    ensures
        r is Ok <==> (status == NW_OK && has_handle),
        r matches Err(e) ==> status_error(status, e),
{
    if status != NW_OK || !has_handle {
        return Err(from_status(status));
    }
    Ok(())
}

/// The bytes of a receive call: a negative count is a status code; a
/// non-negative count keeps that many bytes of the buffer.
pub open spec fn receive_outcome(buf: Seq<u8>, n: isize, r: Result<Vec<u8>, NetworkError>) -> bool {
    if n < 0 {
        r matches Err(e) && status_error(#[verifier::truncate] (n as i32), e)
    } else {
        r matches Ok(v) && v@ == buf.take(if n as int <= buf.len() { n as int } else { buf.len() as int })
    }
}

/// Finish a receive call that filled `buf` and returned `n`.
pub fn finish_receive(buf: Vec<u8>, n: isize) -> (r: Result<Vec<u8>, NetworkError>)
    ensures
        receive_outcome(buf@, n, r),
{
    if n < 0 {
        return Err(from_status(#[verifier::truncate] (n as i32)));
    }
    let ghost original = buf@;
    let count = n as usize;
    assert(count as int == n as int);
    let mut buf = buf;
    buf.truncate(count);
    assert(count <= original.len() ==> buf@ == original.take(count as int));
    assert(original.take(original.len() as int) =~= original);
    Ok(buf)
}

/// The error of a datagram receive that returned the negative count `n`
/// after the framework reported a datagram of `size` bytes: a datagram
/// longer than the `max_len` bytes asked for is too large; otherwise the
/// count is a status code.
pub open spec fn datagram_error(n: isize, size: usize, max_len: usize, e: NetworkError) -> bool {
    if size > max_len {
        e == NetworkError::MessageTooLarge { size, limit: max_len }
    } else {
        status_error(#[verifier::truncate] (n as i32), e)
    }
}

/// The error for a failed datagram receive.
pub fn receive_error(n: isize, size: usize, max_len: usize) -> (e: NetworkError)
    ensures
        datagram_error(n, size, max_len, e),
{
    if size > max_len {
        NetworkError::MessageTooLarge { size, limit: max_len }
    } else {
        from_status(#[verifier::truncate] (n as i32))
    }
}

/// The outcome of a datagram receive into `buf`: a negative count fails
/// with `datagram_error`; otherwise the first `n` bytes of the buffer.
pub open spec fn datagram_outcome(
    buf: Seq<u8>,
    n: isize,
    size: usize,
    max_len: usize,
    r: Result<Vec<u8>, NetworkError>,
) -> bool {
    if n < 0 {
        r matches Err(e) && datagram_error(n, size, max_len, e)
    } else {
        receive_outcome(buf, n, r)
    }
}

/// Finish a datagram receive that filled `buf` with at most `max_len`
/// bytes, returned `n` and reported the datagram's size `size`.
pub fn finish_datagram_receive(buf: Vec<u8>, n: isize, size: usize, max_len: usize) -> (r: Result<Vec<u8>, NetworkError>)
    ensures
        datagram_outcome(buf@, n, size, max_len, r),
{
    if n < 0 {
        return Err(receive_error(n, size, max_len));
    }
    finish_receive(buf, n)
}

/// The raw codes of `ErrorDomain` as the framework defines them: 1 to `Posix`, 2 to `Dns`, 3 to
/// `Tls`, 4 to `WifiAware`; each named value comes from exactly one code, and every other code
/// is kept, unchanged, in `Unknown`.
pub proof fn lemma_error_domain_codes(raw: i32)
    ensures
        (spec_error_domain(raw) == ErrorDomain::Posix) <==> raw == 1,
        (spec_error_domain(raw) == ErrorDomain::Dns) <==> raw == 2,
        (spec_error_domain(raw) == ErrorDomain::Tls) <==> raw == 3,
        (spec_error_domain(raw) == ErrorDomain::WifiAware) <==> raw == 4,
        (spec_error_domain(raw) is Unknown) <==> !(raw == 1 || raw == 2 || raw == 3 || raw == 4),
        !(raw == 1 || raw == 2 || raw == 3 || raw == 4) ==> spec_error_domain(raw) == ErrorDomain::Unknown(raw),
{
}

} // verus!
