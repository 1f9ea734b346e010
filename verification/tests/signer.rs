use ink_receipts::signer::{signer_for_mode, HealthStatus, IssuanceMode, LocalSigner, SignerError, SignerProvider};

#[test]
fn demo_signer_health_ok() {
    let s = LocalSigner::new("k1");
    let h = s.health().unwrap();
    assert_eq!(h.status, HealthStatus::Healthy);
}

#[test]
fn demo_signer_signs_digest() {
    let s = LocalSigner::new("k1");
    let digest = b"abc";
    let sig = s.sign_digest("k1", digest).unwrap();
    assert_eq!(sig, vec![3, b'a', b'b', b'c']);
}

#[test]
fn demo_signer_rejects_unknown_key() {
    let s = LocalSigner::new("k1");
    assert!(s.sign_digest("k2", b"x").is_err());
}

#[test]
fn factory_returns_local_for_demo() {
    let boxed = signer_for_mode(IssuanceMode::Demo, None);
    assert!(boxed.health().unwrap().status.is_usable());
}

#[test]
fn unknown_key_error_names_the_key() {
    let s = LocalSigner::new("k1");
    let err = s.key_metadata("other").unwrap_err();
    assert_eq!(err, SignerError::Backend("unknown key other".to_string()));
    assert_eq!(err.message(), "backend error: unknown key other");
}

#[test]
fn production_mode_without_remote_uses_default_endpoint() {
    let s = signer_for_mode(IssuanceMode::Production, None);
    let h = s.health().unwrap();
    assert_eq!(h.detail, "remote signer at https://signer.example.com");
    assert!(s.sign_digest("k", b"d").is_err());
}
