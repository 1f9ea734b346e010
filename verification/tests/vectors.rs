use ink_receipts::canon;
use ink_receipts::trust::{verify_receipt, ReceiptStatus, VerificationCode, VerificationPolicy};
use ink_receipts::vectors::{
    kernel_decode_vectors, kernel_verification_vectors, minimal_receipt_vector, superseded_receipt_vector,
};

#[test]
fn vector_receipt_verifies_and_is_stable() {
    let vector = minimal_receipt_vector();
    let bytes = hex::decode(&vector.canonical_bytes_hex).unwrap();
    let decoded = canon::decode_receipt(&bytes).unwrap();
    let report = verify_receipt(&decoded, &[], VerificationPolicy::default()).unwrap();
    assert!(report.core.valid);
    assert_eq!(hex::encode(decoded.body_hash.0), vector.body_hash_hex);
}

#[test]
fn verification_vectors_match_expected_statuses() {
    for vector in kernel_verification_vectors() {
        let bytes = hex::decode(&vector.receipt_bytes_hex).unwrap();
        let receipt = canon::decode_receipt(&bytes).unwrap();
        let report = verify_receipt(
            &receipt,
            &vector.trusted_keys,
            VerificationPolicy {
                allow_unsigned: vector.allow_unsigned,
                current_sequence: vector.current_sequence,
            },
        )
        .unwrap();
        assert_eq!(report.status, vector.expected_status, "{}", vector.name);
        assert_eq!(report.code, vector.expected_code, "{}", vector.name);
        assert_eq!(report.core.valid, vector.expected_structural_valid, "{}", vector.name);
    }
}

#[test]
fn verification_vectors_come_in_kernel_order() {
    let names: Vec<&str> = kernel_verification_vectors().iter().map(|v| v.name).collect();
    assert_eq!(
        names,
        vec![
            "valid_signed_receipt",
            "valid_unsigned_receipt",
            "missing_signature",
            "invalid_signature",
            "wrong_issuer_key",
            "modified_receipt_body",
            "modified_schema_hash",
            "unsupported_algorithm",
            "noncanonical_signed_payload",
            "signature_from_wrong_domain_separator",
            "expired_attestation",
        ]
    );
    let vectors = kernel_verification_vectors();
    assert_eq!(vectors[0].expected_status, ReceiptStatus::SignatureValid);
    assert_eq!(vectors[10].expected_code, VerificationCode::SignatureExpired);
    assert_eq!(vectors[10].current_sequence, Some(9));
}

#[test]
fn minimal_vector_hashes_match_the_decoded_receipt() {
    let vector = minimal_receipt_vector();
    assert_eq!(vector.name, "minimal_valid_receipt");
    assert!(vector.expected_verify);
    let decoded = canon::decode_receipt(&hex::decode(&vector.canonical_bytes_hex).unwrap()).unwrap();
    assert_eq!(hex::encode(decoded.schema_hash.0), vector.schema_hash_hex);
    assert_eq!(hex::encode(decoded.evidence_hash.0), vector.evidence_hash_hex);
}

#[test]
fn superseded_vector_keeps_the_minimal_bytes() {
    let minimal = minimal_receipt_vector();
    let superseded = superseded_receipt_vector();
    assert_eq!(superseded.name, "superseded_lifecycle");
    assert_eq!(superseded.human_fixture, "receipt with superseded lifecycle");
    assert_eq!(superseded.canonical_bytes_hex, minimal.canonical_bytes_hex);
    assert_eq!(superseded.body_hash_hex, minimal.body_hash_hex);
}

#[test]
fn decode_vectors_are_refused_by_the_decoder() {
    let vectors = kernel_decode_vectors();
    assert_eq!(vectors.len(), 2);
    assert_eq!(vectors[0].name, "truncated_signature");
    assert_eq!(vectors[1].name, "json_signed_artifact_rejected");
    for vector in vectors {
        assert_eq!(vector.expected_error, "DECODE_ERROR");
        let bytes = hex::decode(&vector.receipt_bytes_hex).unwrap();
        assert!(canon::decode_receipt(&bytes).is_err(), "{}", vector.name);
    }
    let minimal = minimal_receipt_vector();
    let truncated = kernel_decode_vectors().remove(0);
    assert_eq!(truncated.receipt_bytes_hex.len() + 2, minimal.canonical_bytes_hex.len());
}
