use networkframework::error::{NW_INVALID_ARG, NW_SECURITY_FAILED, NW_UNSUPPORTED};
use networkframework::tls::{
    application_protocol_c_string, leaf_matches_pins, pkcs12_import_error, pkcs12_import_password,
    secret_c_string, server_name_c_string,
};
use networkframework::{NetworkError, TlsPeer};

#[test]
fn secrets_are_nul_terminated() {
    let secret = secret_c_string("hunter2", "password").unwrap();
    assert_eq!(secret.as_bytes(), b"hunter2\0");
    assert_eq!(
        secret_c_string("a\0b", "password").err().unwrap(),
        NetworkError::InvalidArgument("password contains a NUL byte".into())
    );
}

#[test]
fn pkcs12_inputs_are_checked() {
    assert_eq!(
        pkcs12_import_password(b"", "pw").err().unwrap(),
        NetworkError::InvalidArgument("PKCS#12 data is empty".into())
    );
    assert_eq!(
        pkcs12_import_password(b"der", "p\0w").err().unwrap(),
        NetworkError::InvalidArgument("PKCS#12 password contains a NUL byte".into())
    );
    assert_eq!(pkcs12_import_password(b"der", "pw").unwrap().as_bytes(), b"pw\0");
}

#[test]
fn pkcs12_failures_map_to_errors() {
    assert!(matches!(pkcs12_import_error(NW_UNSUPPORTED, 0), NetworkError::Unsupported(_)));
    assert_eq!(pkcs12_import_error(NW_SECURITY_FAILED, -25264), NetworkError::Security(-25264));
    assert_eq!(
        pkcs12_import_error(NW_INVALID_ARG, 0),
        NetworkError::InvalidArgument("PKCS#12 data could not be read".into())
    );
}

#[test]
fn alpn_names_must_fit_one_byte_length() {
    assert_eq!(application_protocol_c_string("h2"), Ok(b"h2\0".to_vec()));
    let too_long = "x".repeat(256);
    let longest = "x".repeat(255);
    let expected = NetworkError::InvalidArgument("ALPN protocol names must be 1 to 255 bytes".into());
    assert_eq!(application_protocol_c_string(""), Err(expected.clone()));
    assert_eq!(application_protocol_c_string(&too_long), Err(expected));
    assert_eq!(application_protocol_c_string(&longest).unwrap().len(), 256);
    assert_eq!(
        application_protocol_c_string("h\0"),
        Err(NetworkError::InvalidArgument(
            "application protocol NUL byte: nul byte found in provided data at position: 1".into()
        ))
    );
}

#[test]
fn server_names_must_not_be_empty() {
    assert_eq!(server_name_c_string("example.com"), Ok(b"example.com\0".to_vec()));
    assert_eq!(
        server_name_c_string(""),
        Err(NetworkError::InvalidArgument("server name is empty".into()))
    );
}

#[test]
fn peers_expose_leaf_first() {
    let leaf: &[u8] = b"leaf-der";
    let root: &[u8] = b"root-der";
    let digest = [7u8; 32];
    let peer = TlsPeer::new(vec![leaf, root], true, |der: &[u8]| if der == b"leaf-der" { digest } else { [1u8; 32] });
    assert_eq!(peer.certificate_chain(), &[leaf, root]);
    assert_eq!(peer.leaf_certificate(), Some(leaf));
    assert_eq!(peer.leaf_certificate_sha256(), Some(digest));
    assert!(peer.is_trusted_by_system());
    assert!(leaf_matches_pins(&peer, &[[0u8; 32], digest]));
    assert!(!leaf_matches_pins(&peer, &[[0u8; 32]]));
    assert!(!leaf_matches_pins(&peer, &[]));

    let empty = TlsPeer::new(Vec::new(), false, |_: &[u8]| [9u8; 32]);
    assert_eq!(empty.leaf_certificate(), None);
    assert_eq!(empty.leaf_certificate_sha256(), None);
    assert!(!empty.is_trusted_by_system());
    assert!(!leaf_matches_pins(&empty, &[[0u8; 32]]));
}
