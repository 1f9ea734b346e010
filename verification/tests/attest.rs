use ed25519_dalek::SigningKey;
use ink_receipts::attest::attest_receipt;
use ink_receipts::bounded::{DomainTag, IssuerId, PublicKeyId, SchemaAuthority, SchemaId, SubjectId};
use ink_receipts::signing::Ed25519SigningKey;
use ink_receipts::trust::{verify_receipt, ReceiptStatus, TrustedIssuerKey, VerificationCode, VerificationPolicy};
use ink_receipts::{
    Claim, Digest, Ed25519PublicKey, Error, Evidence, ParentHashes, Policy, PolicyDecision, ReceiptEnvelope, Schema,
    SignatureProfileId, ValidityWindow,
};

fn sealed() -> ReceiptEnvelope {
    let schema = Schema::from_slice(
        SchemaId::from_str("ink.attest.v1").unwrap(),
        SchemaAuthority::from_str("ink").unwrap(),
        DomainTag::from_str("attest").unwrap(),
        1,
        b"{}",
    )
    .unwrap();
    let claim = Claim::from_slice(schema.id, SubjectId::from_str("s").unwrap(), b"c").unwrap();
    let evidence = Evidence::from_slice(schema.id, b"e").unwrap();
    let policy = Policy::from_slice(schema.id, PolicyDecision::Pass, b"p").unwrap();
    ReceiptEnvelope::create(
        schema.id,
        schema.compute_hash().unwrap(),
        schema.authority,
        schema.domain_tag,
        claim.compute_hash().unwrap(),
        IssuerId::from_str("issuer-9").unwrap(),
        3,
        claim.compute_hash().unwrap(),
        evidence.compute_hash().unwrap(),
        policy.compute_hash().unwrap(),
        Digest::new([1u8; 32]),
        ParentHashes::new(),
    )
    .seal()
    .unwrap()
}

fn key(receipt: &ReceiptEnvelope, secret: [u8; 32]) -> TrustedIssuerKey {
    TrustedIssuerKey {
        issuer_id: receipt.issuer_id,
        public_key_id: PublicKeyId::from_str("k-1").unwrap(),
        public_key: Ed25519PublicKey::new(SigningKey::from_bytes(&secret).verifying_key().to_bytes()),
    }
}

#[test]
fn attested_receipt_verifies_under_its_key() {
    let base = sealed();
    let signing = Ed25519SigningKey([5u8; 32]);
    let signed = attest_receipt(base, SignatureProfileId::InkSigEd25519V1, PublicKeyId::from_str("k-1").unwrap(), &signing, None).unwrap();
    let report = verify_receipt(&signed, &[key(&base, [5u8; 32])], VerificationPolicy::default()).unwrap();
    assert_eq!(report.status, ReceiptStatus::SignatureValid);
    assert_eq!(report.code, VerificationCode::SignatureValid);
    assert!(report.core.valid);
    assert_eq!(signed.body_hash, base.body_hash);
}

#[test]
fn attested_receipt_fails_under_another_key() {
    let base = sealed();
    let signing = Ed25519SigningKey([5u8; 32]);
    let signed = attest_receipt(base, SignatureProfileId::InkSigEd25519V1, PublicKeyId::from_str("k-1").unwrap(), &signing, None).unwrap();
    let report = verify_receipt(&signed, &[key(&base, [6u8; 32])], VerificationPolicy::default()).unwrap();
    assert_eq!(report.code, VerificationCode::InvalidSignature);
}

#[test]
fn attestation_refuses_unknown_profiles_and_empty_windows() {
    let base = sealed();
    let signing = Ed25519SigningKey([5u8; 32]);
    let kid = PublicKeyId::from_str("k-1").unwrap();
    assert_eq!(
        attest_receipt(base, SignatureProfileId::Unknown(9), kid, &signing, None).err(),
        Some(Error::UnsupportedSignatureProfile)
    );
    assert_eq!(
        attest_receipt(base, SignatureProfileId::InkSigEd25519V1, kid, &signing, Some(ValidityWindow::new(5, 1))).err(),
        Some(Error::InvalidValidityWindow)
    );
}

#[test]
fn expired_window_is_reported() {
    let base = sealed();
    let signing = Ed25519SigningKey([5u8; 32]);
    let kid = PublicKeyId::from_str("k-1").unwrap();
    let signed = attest_receipt(base, SignatureProfileId::InkSigEd25519V1, kid, &signing, Some(ValidityWindow::new(1, 2))).unwrap();
    let policy = VerificationPolicy { allow_unsigned: true, current_sequence: Some(4) };
    let report = verify_receipt(&signed, &[key(&base, [5u8; 32])], policy).unwrap();
    assert_eq!(report.status, ReceiptStatus::SignatureExpired);
}
