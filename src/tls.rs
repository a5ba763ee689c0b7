//! Loading a server-side TLS identity from PEM text.

use vstd::prelude::*;
use rustls::pki_types::pem::PemObject;
use rustls::pki_types::{CertificateDer, PrivateKeyDer};

verus! {

/// The encoding a private key was found in.
#[derive(Clone, Copy, Debug, PartialEq, Eq, Structural)]
pub enum KeyKind {
    /// An RSA key in PKCS#1 form.
    Pkcs1,
    /// An elliptic-curve key in SEC1 form.
    Sec1,
    /// A key of any algorithm in PKCS#8 form.
    Pkcs8,
}

/// A DER-encoded private key together with its encoding.
#[derive(Clone, Debug)]
pub struct PrivateKey {
    pub kind: KeyKind,
    pub der: Vec<u8>,
}

impl View for PrivateKey {
    type V = (KeyKind, Seq<u8>);

    open spec fn view(&self) -> (KeyKind, Seq<u8>) {
        (self.kind, self.der@)
    }
}

/// Why a TLS identity could not be loaded.
#[derive(Clone, Copy, Debug, PartialEq, Eq, Structural)]
pub enum TlsError {
    /// The certificate text is malformed or could not be read.
    PemParseError,
    /// The certificate text holds no certificate.
    EmptyChain,
    /// The key text holds no private key that can be decoded.
    KeyLoadError,
    /// The TLS layer refused the chain and key together: the key does not
    /// belong to the leaf certificate, or its algorithm is not supported.
    TlsConfigError,
}

#[verifier::external_type_specification]
#[verifier::external_body]
pub struct ExServerConfig(rustls::ServerConfig);

/// The certificates, in order, that PEM text holds; `None` when it is malformed.
pub uninterp spec fn pem_certificates(pem: Seq<u8>) -> Option<Seq<Seq<u8>>>;

/// The first private key that PEM text holds; `None` when there is none.
pub uninterp spec fn pem_private_key(pem: Seq<u8>) -> Option<(KeyKind, Seq<u8>)>;

/// Whether the TLS layer accepts a certificate chain and a key as one
/// server identity.
pub uninterp spec fn single_cert_accepted(chain: Seq<Seq<u8>>, key: (KeyKind, Seq<u8>)) -> bool;

/// Relies on rustls-pki-types' `CertificateDer::pem_slice_iter`, collected:
/// the DER bytes of each CERTIFICATE section in order, or an error when a
/// section is malformed. Text with no bytes holds no section.
#[verifier::external_body]
fn parse_pem_certificates(pem: &[u8]) -> (r: Option<Vec<Vec<u8>>>)
    ensures
        match r {
            Some(v) => pem_certificates(pem@) == Some(v.deep_view()),
            None => pem_certificates(pem@) is None,
        },
        pem@.len() == 0 ==> r is Some && r->Some_0@.len() == 0,
{
    CertificateDer::pem_slice_iter(pem).map(|c| c.map(|c| c.to_vec())).collect::<Result<Vec<_>, _>>().ok()
}

/// Relies on rustls-pki-types' `PrivateKeyDer::from_pem_slice`: the first
/// PKCS#1, SEC1 or PKCS#8 section of the text.
#[verifier::external_body]
fn parse_pem_private_key(pem: &[u8]) -> (r: Option<PrivateKey>)
    ensures
        match r {
            Some(k) => pem_private_key(pem@) == Some(k@),
            None => pem_private_key(pem@) is None,
        },
{
    match PrivateKeyDer::from_pem_slice(pem) {
        Ok(PrivateKeyDer::Pkcs1(k)) => Some(PrivateKey { kind: KeyKind::Pkcs1, der: k.secret_pkcs1_der().to_vec() }),
        Ok(PrivateKeyDer::Sec1(k)) => Some(PrivateKey { kind: KeyKind::Sec1, der: k.secret_sec1_der().to_vec() }),
        Ok(PrivateKeyDer::Pkcs8(k)) => Some(PrivateKey { kind: KeyKind::Pkcs8, der: k.secret_pkcs8_der().to_vec() }),
        _ => None,
    }
}

/// Relies on rustls's `ServerConfig::builder().with_no_client_auth().with_single_cert`:
/// a server configuration that asks no client certificate, built when the
/// key is valid and belongs to the leaf certificate of the chain.
#[verifier::external_body]
fn single_cert_server_config(chain: &Vec<Vec<u8>>, key: &PrivateKey) -> (r: Option<rustls::ServerConfig>)
    ensures
        r is Some == single_cert_accepted(chain.deep_view(), key@),
{
    let certs = chain.iter().map(|c| CertificateDer::from(c.clone())).collect();
    let der = key.der.clone();
    let key_der = match key.kind {
        KeyKind::Pkcs1 => PrivateKeyDer::Pkcs1(der.into()),
        KeyKind::Sec1 => PrivateKeyDer::Sec1(der.into()),
        KeyKind::Pkcs8 => PrivateKeyDer::Pkcs8(der.into()),
    };
    rustls::ServerConfig::builder().with_no_client_auth().with_single_cert(certs, key_der).ok()
}

/// A validated server identity: a non-empty certificate chain, the key that
/// belongs to its leaf, and the TLS configuration built from the two.
pub struct TlsIdentity {
    pub chain: Vec<Vec<u8>>,
    pub key: PrivateKey,
    pub config: rustls::ServerConfig,
}

/// A certificate chain and a key, as values.
pub type Credentials = (Seq<Seq<u8>>, (KeyKind, Seq<u8>));

/// What the parsed certificates and key give before the TLS layer sees them:
/// the chain and key, or the first reason to stop.
pub open spec fn credential_check(
    certs: Option<Seq<Seq<u8>>>,
    key: Option<(KeyKind, Seq<u8>)>,
) -> Result<Credentials, TlsError> {
    match certs {
        None => Err(TlsError::PemParseError),
        Some(chain) => if chain.len() == 0 {
            Err(TlsError::EmptyChain)
        } else {
            match key {
                None => Err(TlsError::KeyLoadError),
                Some(k) => Ok((chain, k)),
            }
        },
    }
}

/// The outcome of loading an identity from certificate text and key text:
/// the chain and key on success, or the reason for failure.
pub open spec fn load_outcome(cert_pem: Seq<u8>, key_pem: Seq<u8>) -> Result<Credentials, TlsError> {
    match credential_check(pem_certificates(cert_pem), pem_private_key(key_pem)) {
        Err(e) => Err(e),
        Ok((chain, key)) => if single_cert_accepted(chain, key) {
            Ok((chain, key))
        } else {
            Err(TlsError::TlsConfigError)
        },
    }
}

/// Parsed certificates, as values.
pub open spec fn parsed_chain_view(certs: Option<Vec<Vec<u8>>>) -> Option<Seq<Seq<u8>>> {
    match certs {
        Some(c) => Some(c.deep_view()),
        None => None,
    }
}

/// A parsed key, as a value.
pub open spec fn parsed_key_view(key: Option<PrivateKey>) -> Option<(KeyKind, Seq<u8>)> {
    match key {
        Some(k) => Some(k@),
        None => None,
    }
}

/// Checks parsed certificates and a parsed key: a parse failure of the
/// certificates, then an empty chain, then a missing key, in that order.
pub fn check_credentials(certs: Option<Vec<Vec<u8>>>, key: Option<PrivateKey>) -> (r: Result<
    (Vec<Vec<u8>>, PrivateKey),
    TlsError,
>)
    ensures
        match r {
            Ok((chain, k)) => credential_check(
                parsed_chain_view(certs),
                parsed_key_view(key),
            ) == Ok::<Credentials, TlsError>((chain.deep_view(), k@)) && chain.len() > 0,
            Err(e) => credential_check(
                parsed_chain_view(certs),
                parsed_key_view(key),
            ) == Err::<Credentials, TlsError>(e),
        },
{
    match certs {
        None => Err(TlsError::PemParseError),
        Some(chain) => {
            if chain.len() == 0 {
                Err(TlsError::EmptyChain)
            } else {
                match key {
                    None => Err(TlsError::KeyLoadError),
                    Some(k) => Ok((chain, k)),
                }
            }
        },
    }
}

/// Loads the server identity from the text of a certificate file and of a
/// key file: every certificate of the first in order, the first key of the
/// second, and a TLS configuration that asks no client certificate.
pub fn load_rustls_config(cert_pem: &[u8], key_pem: &[u8]) -> (r: Result<TlsIdentity, TlsError>)
    ensures
        match r {
            Ok(id) => load_outcome(cert_pem@, key_pem@) == Ok::<Credentials, TlsError>((id.chain.deep_view(), id.key@))
                && id.chain.len() > 0,
            Err(e) => load_outcome(cert_pem@, key_pem@) == Err::<Credentials, TlsError>(e),
        },
        cert_pem@.len() == 0 ==> r matches Err(TlsError::EmptyChain),
{
    let certs = parse_pem_certificates(cert_pem);
    let key = parse_pem_private_key(key_pem);
    match check_credentials(certs, key) {
        Err(e) => Err(e),
        Ok((chain, key)) => match single_cert_server_config(&chain, &key) {
            None => Err(TlsError::TlsConfigError),
            Some(config) => Ok(TlsIdentity { chain, key, config }),
        },
    }
}

/// A certificate text with one or more certificates and a key that the TLS
/// layer accepts with them load to an identity whose chain holds exactly
/// those certificates, so its length is the number of certificates.
pub proof fn lemma_chain_length_is_certificate_count(cert_pem: Seq<u8>, key_pem: Seq<u8>)
    requires
        pem_certificates(cert_pem) is Some,
        pem_certificates(cert_pem)->Some_0.len() >= 1,
        pem_private_key(key_pem) is Some,
        single_cert_accepted(pem_certificates(cert_pem)->Some_0, pem_private_key(key_pem)->Some_0),
    ensures
        load_outcome(cert_pem, key_pem) is Ok,
        load_outcome(cert_pem, key_pem)->Ok_0.0 == pem_certificates(cert_pem)->Some_0,
        load_outcome(cert_pem, key_pem)->Ok_0.0.len() == pem_certificates(cert_pem)->Some_0.len(),
{
}

/// Certificate text that holds no certificate fails with `EmptyChain`,
/// whatever the key text holds: no partial identity comes out.
pub proof fn lemma_no_certificate_is_empty_chain(cert_pem: Seq<u8>, key_pem: Seq<u8>)
    requires
        pem_certificates(cert_pem) == Some(Seq::<Seq<u8>>::empty()),
    ensures
        load_outcome(cert_pem, key_pem) == Err::<Credentials, TlsError>(TlsError::EmptyChain),
{
}

/// A key that the TLS layer refuses together with a well-formed, non-empty
/// chain fails with `TlsConfigError`, and no identity comes out.
pub proof fn lemma_mismatched_key_is_config_error(cert_pem: Seq<u8>, key_pem: Seq<u8>)
    requires
        pem_certificates(cert_pem) is Some,
        pem_certificates(cert_pem)->Some_0.len() >= 1,
        pem_private_key(key_pem) is Some,
        !single_cert_accepted(pem_certificates(cert_pem)->Some_0, pem_private_key(key_pem)->Some_0),
    ensures
        load_outcome(cert_pem, key_pem) == Err::<Credentials, TlsError>(TlsError::TlsConfigError),
{
}

} // verus!
