use ink_receipts::decode::decode_receipt;
use ink_receipts::trust::{verify_receipt as native_verify, VerificationPolicy};
use ink_receipts::vectors::{kernel_decode_vectors, kernel_verification_vectors};
use ink_receipts::wasm::{
    compare_receipts, replay_receipt, verify_bundle, verify_receipt, verify_receipt_with_context,
    verify_receipt_with_trusted_key, verify_receipt_with_trusted_key_and_context,
};

fn answer(status: &str, code: &str, valid: bool) -> String {
    format!("{{\"structural_valid\":{},\"status\":\"{}\",\"code\":\"{}\"}}", valid, status, code)
}

fn error(code: &str) -> String {
    format!("{{\"structural_valid\":false,\"status\":\"error\",\"code\":\"{}\"}}", code)
}

#[test]
fn wasm_receipt_verification_matches_native_statuses() {
    for vector in kernel_verification_vectors() {
        let bytes = hex::decode(&vector.receipt_bytes_hex).unwrap();
        let receipt = decode_receipt(&bytes).unwrap();
        let native = native_verify(
            &receipt,
            &vector.trusted_keys,
            VerificationPolicy { allow_unsigned: vector.allow_unsigned, current_sequence: vector.current_sequence },
        )
        .unwrap();
        let wasm_json = if let Some(trusted_key) = vector.trusted_keys.first() {
            verify_receipt_with_trusted_key_and_context(
                &bytes,
                vector.allow_unsigned,
                vector.current_sequence,
                trusted_key.issuer_id.as_str().unwrap(),
                trusted_key.public_key_id.as_str().unwrap(),
                &hex::encode(trusted_key.public_key.0),
            )
        } else {
            verify_receipt_with_context(&bytes, vector.allow_unsigned, vector.current_sequence)
        };
        assert_eq!(
            wasm_json,
            answer(native.status.as_str(), native.code.as_str(), native.core.valid),
            "{}",
            vector.name
        );
    }
}

#[test]
fn wasm_decode_errors_match_the_vector_contract() {
    for vector in kernel_decode_vectors() {
        let bytes = hex::decode(&vector.receipt_bytes_hex).unwrap();
        assert_eq!(verify_receipt(&bytes), error("DECODE_ERROR"), "{}", vector.name);
        assert!(decode_receipt(&bytes).is_err(), "{}", vector.name);
    }
}

#[test]
fn unusable_trusted_keys_are_refused() {
    let vector = kernel_verification_vectors().remove(0);
    let bytes = hex::decode(&vector.receipt_bytes_hex).unwrap();
    assert_eq!(verify_receipt_with_trusted_key(&bytes, true, "issuer", "key", "zz"), error("INVALID_TRUSTED_KEY"));
    assert_eq!(verify_receipt_with_trusted_key(&bytes, true, "issuer", "key", "00"), error("INVALID_TRUSTED_KEY"));
    let key = "00".repeat(32);
    assert_eq!(verify_receipt_with_trusted_key(&bytes, true, "", "key", &key), error("INVALID_TRUSTED_KEY"));
    assert_eq!(verify_receipt_with_trusted_key(&bytes, true, "issuer", "", &key), error("INVALID_TRUSTED_KEY"));
    let long = "x".repeat(65);
    assert_eq!(verify_receipt_with_trusted_key(&bytes, true, &long, "key", &key), error("INVALID_TRUSTED_KEY"));
}

#[test]
fn bundles_of_whole_hashes_are_valid_and_counted() {
    assert_eq!(verify_bundle(&[7u8; 64]), "{\"valid\":true,\"receipt_count\":2}");
    assert_eq!(verify_bundle(&[]), "{\"valid\":true,\"receipt_count\":0}");
    assert_eq!(verify_bundle(&[7u8; 33]), error("INVALID_BUNDLE_BYTES"));
    assert_eq!(verify_bundle(&vec![1u8; 32 * 100]), "{\"valid\":true,\"receipt_count\":100}");
    assert_eq!(verify_bundle(&vec![1u8; 32 * 101]), error("BUNDLE_TOO_LARGE"));
}

#[test]
fn compare_and_replay_answer_for_decodable_receipts() {
    let vectors = kernel_verification_vectors();
    let bytes = hex::decode(&vectors[0].receipt_bytes_hex).unwrap();
    assert_eq!(
        compare_receipts(&bytes, &bytes),
        "{\"comparable\":true,\"same_hash\":true,\"kind\":\"Unchanged\"}"
    );
    assert_eq!(compare_receipts(&bytes, b"junk"), error("DECODE_ERROR"));
    assert_eq!(replay_receipt(&bytes, b""), "{\"replayable\":true}");
    assert_eq!(replay_receipt(b"junk", b""), error("DECODE_ERROR"));
}
