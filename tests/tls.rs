use rusty_api::tls::{check_credentials, load_rustls_config, KeyKind, PrivateKey, TlsError};

fn self_signed(name: &str) -> rcgen::CertifiedKey {
    rcgen::generate_simple_self_signed(vec![name.to_string()]).unwrap()
}

#[test]
fn chain_length_equals_certificate_count() {
    let leaf = self_signed("localhost");
    let second = self_signed("intermediate.example");
    let third = self_signed("root.example");
    let key_pem = leaf.key_pair.serialize_pem();

    let one = leaf.cert.pem();
    let id = load_rustls_config(one.as_bytes(), key_pem.as_bytes()).ok().unwrap();
    assert_eq!(id.chain.len(), 1);

    let three = format!("{}{}{}", leaf.cert.pem(), second.cert.pem(), third.cert.pem());
    let id = load_rustls_config(three.as_bytes(), key_pem.as_bytes()).ok().unwrap();
    assert_eq!(id.chain.len(), 3);
    assert_eq!(id.chain[0], leaf.cert.der().to_vec());
    assert_eq!(id.chain[1], second.cert.der().to_vec());
    assert_eq!(id.chain[2], third.cert.der().to_vec());
}

#[test]
fn loaded_key_is_decoded_der() {
    let leaf = self_signed("localhost");
    let key_pem = leaf.key_pair.serialize_pem();
    let id = load_rustls_config(leaf.cert.pem().as_bytes(), key_pem.as_bytes()).ok().unwrap();
    assert_eq!(id.key.kind, KeyKind::Pkcs8);
    assert_eq!(id.key.der, leaf.key_pair.serialize_der());
    assert_ne!(id.key.der, key_pem.as_bytes().to_vec());
}

#[test]
fn empty_certificate_file_is_empty_chain() {
    let leaf = self_signed("localhost");
    let key_pem = leaf.key_pair.serialize_pem();
    let r = load_rustls_config(b"", key_pem.as_bytes());
    assert_eq!(r.err(), Some(TlsError::EmptyChain));
}

#[test]
fn certificate_free_file_is_empty_chain() {
    let leaf = self_signed("localhost");
    let key_pem = leaf.key_pair.serialize_pem();
    // A file holding only a key and some prose has no certificate.
    let text = format!("just some notes\n{}", key_pem);
    let r = load_rustls_config(text.as_bytes(), key_pem.as_bytes());
    assert_eq!(r.err(), Some(TlsError::EmptyChain));
}

#[test]
fn malformed_certificate_file_is_pem_parse_error() {
    let leaf = self_signed("localhost");
    let key_pem = leaf.key_pair.serialize_pem();
    let pem = leaf.cert.pem();
    let truncated = pem.replace("-----END CERTIFICATE-----", "");
    let r = load_rustls_config(truncated.as_bytes(), key_pem.as_bytes());
    assert_eq!(r.err(), Some(TlsError::PemParseError));
}

#[test]
fn missing_key_is_key_load_error() {
    let leaf = self_signed("localhost");
    let pem = leaf.cert.pem();
    let r = load_rustls_config(pem.as_bytes(), b"");
    assert_eq!(r.err(), Some(TlsError::KeyLoadError));
    let r = load_rustls_config(pem.as_bytes(), pem.as_bytes());
    assert_eq!(r.err(), Some(TlsError::KeyLoadError));
}

#[test]
fn mismatched_key_is_tls_config_error() {
    let leaf = self_signed("localhost");
    let other = self_signed("other.example");
    let r = load_rustls_config(leaf.cert.pem().as_bytes(), other.key_pair.serialize_pem().as_bytes());
    assert_eq!(r.err(), Some(TlsError::TlsConfigError));
}

#[test]
fn certificate_errors_come_before_key_errors() {
    assert_eq!(load_rustls_config(b"", b"").err(), Some(TlsError::EmptyChain));
    let r = load_rustls_config(b"-----BEGIN CERTIFICATE-----\n", b"");
    assert_eq!(r.err(), Some(TlsError::PemParseError));
}

#[test]
fn check_credentials_orders_failures() {
    let key = PrivateKey { kind: KeyKind::Sec1, der: vec![1, 2, 3] };
    assert_eq!(check_credentials(None, Some(key.clone())).err(), Some(TlsError::PemParseError));
    assert_eq!(check_credentials(None, None).err(), Some(TlsError::PemParseError));
    assert_eq!(check_credentials(Some(vec![]), None).err(), Some(TlsError::EmptyChain));
    assert_eq!(check_credentials(Some(vec![vec![9]]), None).err(), Some(TlsError::KeyLoadError));
    let (chain, k) = check_credentials(Some(vec![vec![9], vec![8, 7]]), Some(key)).ok().unwrap();
    assert_eq!(chain, vec![vec![9], vec![8, 7]]);
    assert_eq!(k.kind, KeyKind::Sec1);
    assert_eq!(k.der, vec![1, 2, 3]);
}
