//! TLS versions, peer certificate chains and pinning, and the validation of
//! TLS arguments before they reach the framework.

use vstd::prelude::*;
use vstd::string::StringExecFns;
use vstd::string::StringSliceAdditionalSpecFns;
use zeroize::Zeroizing;

use crate::error::{NetworkError, NW_SECURITY_FAILED, NW_UNSUPPORTED};
use crate::text::{c_string_bytes, c_string_outcome, has_nul};

verus! {

/// A secret byte buffer that is wiped from memory when dropped. It holds a
/// `zeroize::Zeroizing` vector, which Verus does not read.
#[verifier::external_body]
pub struct SecretBytes {
    bytes: Zeroizing<Vec<u8>>,
}

/// The bytes held by a secret buffer: those of the vector inside its
/// `Zeroizing` wrapper.
pub uninterp spec fn secret_bytes(s: SecretBytes) -> Seq<u8>;

/// Reads the vector through `Zeroizing`'s `Deref` and borrows it as a slice,
/// which leaves the bytes as they are.
#[verifier::external_body]
fn secret_slice(s: &SecretBytes) -> (b: &[u8])
    ensures
        b@ == secret_bytes(*s),
{
    s.bytes.as_slice()
}

impl SecretBytes {
    /// The bytes of the secret buffer, for handing to C.
    pub fn as_bytes(&self) -> (b: &[u8])
        ensures
            b@ == secret_bytes(*self),
    {
        secret_slice(self)
    }
}

/// Calls `zeroize::Zeroizing::new`, which moves the vector into the wrapper
/// unchanged; the contract says that the buffer holds exactly its bytes.
#[verifier::external_body]
fn secret_from_vec(value: Vec<u8>) -> (s: SecretBytes)
    ensures
        secret_bytes(s) == value@,
{
    SecretBytes { bytes: Zeroizing::new(value) }
}

/// The message for a secret argument `field` that holds a NUL byte.
pub open spec fn secret_nul_message(field: Seq<char>) -> Seq<char> {
    field + " contains a NUL byte"@
}

/// The NUL-terminated bytes of a secret argument, in a buffer that is wiped
/// when dropped; a value holding a NUL byte is an invalid argument named `field`.
pub fn secret_c_string(value: &str, field: &str) -> (r: Result<SecretBytes, NetworkError>)
    ensures
        r is Ok <==> !has_nul(value.spec_bytes()),
        r matches Ok(z) ==> secret_bytes(z) == value.spec_bytes().push(0u8),
        r matches Err(e) ==> e matches NetworkError::InvalidArgument(m) && m@ == secret_nul_message(field@),
{
    let bytes = value.as_bytes();
    let mut i: usize = 0;
    while i < bytes.len()
        invariant
            bytes@ == value.spec_bytes(),
            i <= bytes.len(),
            forall|j: int| 0 <= j < i ==> bytes@[j] != 0,
        decreases bytes.len() - i,
    {
        if bytes[i] == 0 {
            let mut message = String::from_str(field);
            proof { reveal_strlit(" contains a NUL byte"); }
            message.append(" contains a NUL byte");
            return Err(NetworkError::InvalidArgument(message));
        }
        i = i + 1;
    }
    let capacity = if bytes.len() < usize::MAX { bytes.len() + 1 } else { bytes.len() };
    let mut buffer: Vec<u8> = Vec::with_capacity(capacity);
    let mut k: usize = 0;
    while k < bytes.len()
        invariant
            k <= bytes.len(),
            buffer@ == bytes@.take(k as int),
        decreases bytes.len() - k,
    {
        buffer.push(bytes[k]);
        k = k + 1;
        assert(buffer@ =~= bytes@.take(k as int));
    }
    assert(bytes@.take(k as int) =~= bytes@);
    buffer.push(0u8);
    Ok(secret_from_vec(buffer))
}

/// Check the inputs of a PKCS#12 import: the archive must not be empty and
/// the password is turned into a wiped NUL-terminated buffer.
pub fn pkcs12_import_password(data: &[u8], password: &str) -> (r: Result<SecretBytes, NetworkError>)
    ensures
        r is Ok <==> (data@.len() > 0 && !has_nul(password.spec_bytes())),
        r matches Ok(z) ==> secret_bytes(z) == password.spec_bytes().push(0u8),
        r matches Err(e) ==> e matches NetworkError::InvalidArgument(m) && m@ == (if data@.len() == 0 {
            "PKCS#12 data is empty"@
        } else {
            secret_nul_message("PKCS#12 password"@)
        }),
{
    if data.len() == 0 {
        return Err(NetworkError::InvalidArgument(String::from_str("PKCS#12 data is empty")));
    }
    secret_c_string(password, "PKCS#12 password")
}

/// The error for a PKCS#12 import that produced no identity, given the shim
/// status and the Security framework status.
pub open spec fn pkcs12_failure(status: i32, os_status: i32, e: NetworkError) -> bool {
    if status == NW_UNSUPPORTED {
        e matches NetworkError::Unsupported(m)
            && m@ == "importing a PKCS#12 identity without the keychain needs macOS 15 or later"@
    } else if status == NW_SECURITY_FAILED {
        e == NetworkError::Security(os_status)
    } else {
        e matches NetworkError::InvalidArgument(m) && m@ == "PKCS#12 data could not be read"@
    }
}

/// The error for a PKCS#12 import that produced no identity.
pub fn pkcs12_import_error(status: i32, os_status: i32) -> (e: NetworkError)
    ensures
        pkcs12_failure(status, os_status, e),
{
    if status == NW_UNSUPPORTED {
        NetworkError::Unsupported(
            String::from_str("importing a PKCS#12 identity without the keychain needs macOS 15 or later"),
        )
    } else if status == NW_SECURITY_FAILED {
        NetworkError::Security(os_status)
    } else {
        NetworkError::InvalidArgument(String::from_str("PKCS#12 data could not be read"))
    }
}

/// The NUL-terminated bytes of an ALPN protocol name, which must be 1 to 255
/// bytes long and free of NUL bytes.
pub fn application_protocol_c_string(protocol: &str) -> (r: Result<Vec<u8>, NetworkError>)
    ensures
        r is Ok <==> (1 <= protocol.spec_bytes().len() <= 255 && !has_nul(protocol.spec_bytes())),
        !(1 <= protocol.spec_bytes().len() <= 255) ==> (r matches Err(e)
            && e matches NetworkError::InvalidArgument(m) && m@ == "ALPN protocol names must be 1 to 255 bytes"@),
        1 <= protocol.spec_bytes().len() <= 255 ==> c_string_outcome(protocol.spec_bytes(), "application protocol"@, r),
{
    let len = protocol.as_bytes().len();
    if len == 0 || len > 255 {
        return Err(NetworkError::InvalidArgument(String::from_str("ALPN protocol names must be 1 to 255 bytes")));
    }
    c_string_bytes(protocol, "application protocol")
}

/// The NUL-terminated bytes of a TLS server name, which must not be empty and
/// must be free of NUL bytes.
pub fn server_name_c_string(server_name: &str) -> (r: Result<Vec<u8>, NetworkError>)
    ensures
        r is Ok <==> (server_name@.len() > 0 && !has_nul(server_name.spec_bytes())),
        server_name@.len() == 0 ==> (r matches Err(e)
            && e matches NetworkError::InvalidArgument(m) && m@ == "server name is empty"@),
        server_name@.len() > 0 ==> c_string_outcome(server_name.spec_bytes(), "server name"@, r),
{
    if server_name.is_empty() {
        return Err(NetworkError::InvalidArgument(String::from_str("server name is empty")));
    }
    c_string_bytes(server_name, "server name")
}

/// TLS protocol versions.
#[derive(Debug, Clone, Copy, PartialEq, Eq, Hash, Structural)]
pub enum TlsVersion {
    Tls12,
    Tls13,
}

/// The wire code of a TLS version.
pub open spec fn spec_tls_version_raw(v: TlsVersion) -> u16 {
    match v {
        TlsVersion::Tls12 => 0x0303,
        TlsVersion::Tls13 => 0x0304,
    }
}

/// The TLS version that a wire code stands for, if any.
pub open spec fn spec_tls_version(raw: u16) -> Option<TlsVersion> {
    match raw {
        0x0303 => Some(TlsVersion::Tls12),
        0x0304 => Some(TlsVersion::Tls13),
        _ => None,
    }
}

impl TlsVersion {
    /// Encode the version as its wire code.
    pub fn as_raw(self) -> (raw: u16)
        ensures
            raw == spec_tls_version_raw(self),
    {
        match self {
            Self::Tls12 => 0x0303,
            Self::Tls13 => 0x0304,
        }
    }

    /// Decode a wire code; codes of other versions give `None`.
    pub fn from_raw(raw: u16) -> (v: Option<Self>)
        ensures
            v == spec_tls_version(raw),
    {
        match raw {
            0x0303 => Some(Self::Tls12),
            0x0304 => Some(Self::Tls13),
            _ => None,
        }
    }
}

/// Encoding a TLS version and decoding its code gives the version back, and
/// a code decodes to a version only if it is that version's code.
pub proof fn lemma_tls_version_round_trip(v: TlsVersion, raw: u16)
    ensures
        spec_tls_version(spec_tls_version_raw(v)) == Some(v),
        spec_tls_version(raw) == Some(v) ==> spec_tls_version_raw(v) == raw,
{
}

/// The certificates presented by a TLS peer, leaf first, whether the system
/// trust store accepts them, and the SHA-256 digest of the leaf.
#[derive(Debug)]
pub struct TlsPeer<'a> {
    certificates: Vec<&'a [u8]>,
    trusted: bool,
    leaf_sha256: Option<[u8; 32]>,
}

/// The views of a chain of DER certificates.
pub open spec fn chain_view<'a>(chain: Seq<&'a [u8]>) -> Seq<Seq<u8>> {
    chain.map_values(|c: &'a [u8]| c@)
}

impl<'a> TlsPeer<'a> {
    /// A peer carries a leaf digest exactly when its chain is not empty.
    #[verifier::type_invariant]
    spec fn digest_matches_chain(self) -> bool {
        self.leaf_sha256 is Some <==> self.certificates@.len() > 0
    }

    /// The certificate chain, leaf first.
    pub closed spec fn spec_chain(&self) -> Seq<Seq<u8>> {
        chain_view(self.certificates@)
    }

    /// Whether the system trust store accepts the chain.
    pub closed spec fn spec_trusted(&self) -> bool {
        self.trusted
    }

    /// The digest recorded for the leaf certificate.
    pub closed spec fn spec_leaf_sha256(&self) -> Option<Seq<u8>> {
        match self.leaf_sha256 {
            Some(d) => Some(d@),
            None => None,
        }
    }

    /// The digest recorded for the leaf certificate, as an array.
    pub closed spec fn spec_leaf_digest(&self) -> Option<[u8; 32]> {
        self.leaf_sha256
    }

    /// Describe a peer from its chain, leaf first, and its trust verdict; the
    /// leaf certificate, if there is one, is hashed with `sha256`.
    pub fn new<F>(certificates: Vec<&'a [u8]>, trusted: bool, sha256: F) -> (p: Self)
        where
            F: Fn(&'a [u8]) -> [u8; 32],
        requires
            certificates@.len() > 0 ==> sha256.requires((certificates@[0],)),
        ensures
            p.spec_chain() == chain_view(certificates@),
            p.spec_trusted() == trusted,
            certificates@.len() == 0 ==> p.spec_leaf_digest() is None,
            certificates@.len() > 0 ==> (p.spec_leaf_digest() matches Some(d)
                && sha256.ensures((certificates@[0],), d)),
            p.spec_leaf_sha256() == (match p.spec_leaf_digest() {
                Some(d) => Some(d@),
                None => None,
            }),
    {
        let leaf_sha256 = if certificates.len() > 0 {
            Some(sha256(certificates[0]))
        } else {
            None
        };
        TlsPeer { certificates, trusted, leaf_sha256 }
    }

    /// The certificate chain, leaf first.
    pub fn certificate_chain(&self) -> (c: &[&'a [u8]])
        ensures
            chain_view(c@) == self.spec_chain(),
    {
        self.certificates.as_slice()
    }

    /// The leaf certificate, if the chain is not empty.
    pub fn leaf_certificate(&self) -> (c: Option<&'a [u8]>)
        ensures
            self.spec_chain().len() == 0 ==> c is None,
            self.spec_chain().len() > 0 ==> (c matches Some(l) && l@ == self.spec_chain()[0]),
    {
        if self.certificates.len() > 0 {
            Some(self.certificates[0])
        } else {
            None
        }
    }

    /// The SHA-256 digest of the leaf certificate: present exactly when the
    /// chain is not empty.
    pub fn leaf_certificate_sha256(&self) -> (d: Option<[u8; 32]>)
        ensures
            (match d {
                Some(x) => Some(x@),
                None => None,
            }) == self.spec_leaf_sha256(),
            d is Some <==> self.spec_chain().len() > 0,
    {
        proof {
            use_type_invariant(self);
        }
        self.leaf_sha256
    }

    /// Whether the system trust store accepts the chain.
    pub fn is_trusted_by_system(&self) -> (b: bool)
        ensures
            b == self.spec_trusted(),
    {
        self.trusted
    }
}

/// `digest` is one of `pins`.
pub open spec fn pinned(pins: Seq<[u8; 32]>, digest: Seq<u8>) -> bool {
    exists|i: int| 0 <= i < pins.len() && pins[i]@ == digest
}

fn same_digest(a: &[u8; 32], b: &[u8; 32]) -> (r: bool)
    ensures
        r == (a@ == b@),
{
    let mut i: usize = 0;
    while i < 32
        invariant
            i <= 32,
            a@.len() == 32,
            b@.len() == 32,
            forall|j: int| 0 <= j < i ==> a@[j] == b@[j],
        decreases 32 - i,
    {
        if a[i] != b[i] {
            return false;
        }
        i = i + 1;
    }
    assert(a@ =~= b@);
    true
}

/// Whether the peer's leaf certificate has one of the pinned SHA-256 digests;
/// a peer without a leaf certificate matches no pin.
pub fn leaf_matches_pins(peer: &TlsPeer, pins: &[[u8; 32]]) -> (b: bool)
    ensures
        b == (match peer.spec_leaf_sha256() {
            Some(d) => pinned(pins@, d),
            None => false,
        }),
        b == (peer.spec_leaf_sha256() matches Some(d)
            && exists|i: int| 0 <= i < pins@.len() && pins@[i]@ == d),
{
    let leaf_digest = peer.leaf_certificate_sha256();
    match leaf_digest {
        None => false,
        Some(digest) => {
            assert(peer.spec_leaf_sha256() == Some(digest@));
            let mut i: usize = 0;
            while i < pins.len()
                invariant
                    i <= pins@.len(),
                    peer.spec_leaf_sha256() == Some(digest@),
                    forall|j: int| 0 <= j < i ==> pins@[j]@ != digest@,
                decreases pins.len() - i,
            {
                if same_digest(&pins[i], &digest) {
                    assert(pins@[i as int]@ == digest@);
                    assert(pinned(pins@, digest@));
                    return true;
                }
                i = i + 1;
            }
            false
        },
    }
}

/// A digest equal to the pin at any index of the list, first, last or in
/// between, is pinned.
pub proof fn lemma_pinned_at_any_index(pins: Seq<[u8; 32]>, digest: Seq<u8>, i: int)
    requires
        0 <= i < pins.len(),
        pins[i]@ == digest,
    ensures
        pinned(pins, digest),
{
}

/// A digest that equals none of the pins is not pinned; in particular no
/// digest is pinned by an empty list.
pub proof fn lemma_unpinned_without_match(pins: Seq<[u8; 32]>, digest: Seq<u8>)
    requires
        forall|i: int| 0 <= i < pins.len() ==> pins[i]@ != digest,
    ensures
        !pinned(pins, digest),
{
}

/// Adding pins never unpins a digest, and adding pins that do not equal it
/// leaves the answer as it was.
pub proof fn lemma_pins_extended(pins: Seq<[u8; 32]>, more: Seq<[u8; 32]>, digest: Seq<u8>)
    ensures
        pinned(pins, digest) ==> pinned(pins + more, digest),
        (forall|j: int| 0 <= j < more.len() ==> more[j]@ != digest) ==> (pinned(pins + more, digest)
            == pinned(pins, digest)),
{
    if pinned(pins, digest) {
        let i = choose|i: int| 0 <= i < pins.len() && pins[i]@ == digest;
        assert((pins + more)[i] == pins[i]);
    }
    if pinned(pins + more, digest) {
        let i = choose|i: int| 0 <= i < (pins + more).len() && (pins + more)[i]@ == digest;
        if i >= pins.len() {
            assert((pins + more)[i] == more[i - pins.len()]);
        } else {
            assert((pins + more)[i] == pins[i]);
        }
    }
}

/// The TLS versions and their wire codes: TLS 1.2 is 0x0303 and TLS 1.3 is
/// 0x0304, each decoded from exactly its own code; no other code is a version.
pub proof fn lemma_tls_version_codes(raw: u16)
    ensures
        spec_tls_version_raw(TlsVersion::Tls12) == 0x0303,
        spec_tls_version_raw(TlsVersion::Tls13) == 0x0304,
        (spec_tls_version(raw) == Some(TlsVersion::Tls12)) <==> raw == 0x0303,
        (spec_tls_version(raw) == Some(TlsVersion::Tls13)) <==> raw == 0x0304,
        (spec_tls_version(raw) is None) <==> !(raw == 0x0303 || raw == 0x0304),
{
}

} // verus!
