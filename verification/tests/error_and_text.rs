use networkframework::error::{
    NW_CANCELLED, NW_CONNECT_FAILED, NW_INVALID_ARG, NW_LISTEN_FAILED, NW_OK, NW_RECV_FAILED,
    NW_SEND_FAILED, NW_TIMEOUT,
};
use networkframework::text::append_decimal;
use networkframework::{
    c_string_bytes, c_string_labeled, check_created, check_status, finish_datagram_receive,
    finish_receive, from_status, optional_c_string, receive_error, ErrorDomain, NetworkError,
};

#[test]
fn from_status_maps_every_shim_code() {
    assert_eq!(from_status(NW_INVALID_ARG), NetworkError::InvalidArgument("shim".to_string()));
    assert_eq!(from_status(NW_CONNECT_FAILED), NetworkError::ConnectFailed);
    assert_eq!(from_status(NW_SEND_FAILED), NetworkError::SendFailed);
    assert_eq!(from_status(NW_RECV_FAILED), NetworkError::ReceiveFailed);
    assert_eq!(from_status(NW_LISTEN_FAILED), NetworkError::ListenFailed);
    assert_eq!(from_status(NW_CANCELLED), NetworkError::Cancelled);
    assert_eq!(from_status(NW_TIMEOUT), NetworkError::Timeout);
    assert_eq!(from_status(-42), NetworkError::Unknown(-42));
    assert_eq!(from_status(NW_OK), NetworkError::Unknown(0));
}

#[test]
fn status_checks_accept_only_success() {
    assert_eq!(check_status(NW_OK), Ok(()));
    assert_eq!(check_status(NW_TIMEOUT), Err(NetworkError::Timeout));
    assert_eq!(check_created(NW_OK, true), Ok(()));
    assert_eq!(check_created(NW_OK, false), Err(NetworkError::Unknown(0)));
    assert_eq!(check_created(NW_CONNECT_FAILED, true), Err(NetworkError::ConnectFailed));
}

#[test]
fn finish_receive_truncates_or_reports() {
    let buf = vec![1u8, 2, 3, 4, 5];
    assert_eq!(finish_receive(buf.clone(), 3), Ok(vec![1, 2, 3]));
    assert_eq!(finish_receive(buf.clone(), 0), Ok(vec![]));
    assert_eq!(finish_receive(buf.clone(), 9), Ok(vec![1, 2, 3, 4, 5]));
    assert_eq!(finish_receive(buf, -4), Err(NetworkError::ReceiveFailed));
}

#[test]
fn error_messages_match_their_variants() {
    assert_eq!(NetworkError::InvalidArgument("x".into()).message(), "invalid argument: x");
    assert_eq!(NetworkError::ConnectFailed.message(), "connect failed");
    assert_eq!(NetworkError::SendFailed.message(), "send failed");
    assert_eq!(NetworkError::ReceiveFailed.message(), "receive failed");
    assert_eq!(NetworkError::ListenFailed.message(), "listen failed");
    assert_eq!(NetworkError::Cancelled.message(), "operation cancelled");
    assert_eq!(NetworkError::Timeout.message(), "operation timed out");
    assert_eq!(NetworkError::Unknown(-12).message(), "unknown shim status -12");
    assert_eq!(NetworkError::Unknown(7).message(), "unknown shim status 7");
    assert_eq!(NetworkError::Unknown(i32::MIN).message(), "unknown shim status -2147483648");
    assert_eq!(NetworkError::Unsupported("old os".into()).message(), "unsupported: old os");
    assert_eq!(NetworkError::Security(-25300).message(), "security failure, status -25300");
}

#[test]
fn decimal_rendering_matches_std() {
    for n in [0u64, 7, 10, 99, 1000, 123456789, u64::MAX] {
        let mut s = String::from("n=");
        append_decimal(&mut s, n);
        assert_eq!(s, format!("n={n}"));
    }
}

#[test]
fn error_domains_decode() {
    assert_eq!(ErrorDomain::from_raw(1), ErrorDomain::Posix);
    assert_eq!(ErrorDomain::from_raw(2), ErrorDomain::Dns);
    assert_eq!(ErrorDomain::from_raw(3), ErrorDomain::Tls);
    assert_eq!(ErrorDomain::from_raw(4), ErrorDomain::WifiAware);
    assert_eq!(ErrorDomain::from_raw(0), ErrorDomain::Unknown(0));
}

#[test]
fn c_strings_are_nul_terminated() {
    assert_eq!(c_string_bytes("host", "host"), Ok(b"host\0".to_vec()));
    assert_eq!(c_string_bytes("", "host"), Ok(vec![0]));
    assert_eq!(c_string_bytes("é", "host"), Ok(vec![0xc3, 0xa9, 0]));
}

#[test]
fn interior_nul_is_reported_like_cstring() {
    assert_eq!(
        c_string_bytes("ab\0c\0", "host"),
        Err(NetworkError::InvalidArgument(
            "host NUL byte: nul byte found in provided data at position: 2".into()
        ))
    );
    assert_eq!(
        c_string_labeled("\0", "service_type NUL"),
        Err(NetworkError::InvalidArgument(
            "service_type NUL: nul byte found in provided data at position: 0".into()
        ))
    );
}

#[test]
fn optional_c_strings_keep_absence() {
    assert_eq!(optional_c_string(None, "domain"), Ok(None));
    assert_eq!(optional_c_string(Some("local"), "domain"), Ok(Some(b"local\0".to_vec())));
    assert!(matches!(optional_c_string(Some("a\0"), "domain"), Err(NetworkError::InvalidArgument(m)) if m.starts_with("domain NUL byte: ")));
}

#[test]
fn oversized_datagrams_report_their_size_and_limit() {
    assert_eq!(
        receive_error(-1, 3000, 1500),
        NetworkError::MessageTooLarge { size: 3000, limit: 1500 }
    );
    assert_eq!(receive_error(NW_RECV_FAILED as isize, 100, 1500), NetworkError::ReceiveFailed);
    assert_eq!(
        finish_datagram_receive(vec![7; 1500], -4, 3000, 1500),
        Err(NetworkError::MessageTooLarge { size: 3000, limit: 1500 })
    );
    assert_eq!(finish_datagram_receive(vec![9, 9, 9, 0], 3, 3, 4), Ok(vec![9, 9, 9]));
    assert_eq!(
        NetworkError::MessageTooLarge { size: 3000, limit: 1500 }.message(),
        "message of 3000 bytes exceeds the limit of 1500 bytes"
    );
}
