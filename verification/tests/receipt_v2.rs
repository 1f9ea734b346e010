use base64ct::{Base64UrlUnpadded, Encoding};
use ed25519_dalek::{Signer, SigningKey};
use ink_receipts::receipt_v2::check::{verify_bundle, verify_receipt, verify_receipt_with_registry};
use ink_receipts::receipt_v2::json::{
    DigestJson, IdentityEvidenceJson, IssuerJson, JsonValue, ModelIdentityJson, ModelInvocationJson,
    ModelObservationJson, ModelWaistJson, NormalizationJson, PluginJson, PolicyBindingJson, PolicyFactsJson,
    ProviderRoutingJson, ReceiptJson, RequestedOutputJson, RevocationListJson, RuntimeDeterminismJson,
    RevokedKeyJson, RuntimeIsolationJson, RuntimeJson, SigningJson, TokenUsageJson, TrustAuthorityJson,
    TrustRegistryJson, TrustedIssuerJson,
    VerifyPolicyJson,
};
use ink_receipts::receipt_v2::canonical::canonicalize_without;
use ink_receipts::receipt_v2::normalize::{reason_slots, receipt_payload_from_json};
use ink_receipts::receipt_v2::projection::receipt_digest_for_encoding;
use ink_receipts::receipt_v2::{
    load_revocation_list, load_trust_registry, load_verify_policy, ReceiptV2Error, RECEIPT_ENCODING_TLV_V2,
};

const SECRET: [u8; 32] = [21u8; 32];

fn digest(byte: u8) -> DigestJson {
    DigestJson { algorithm: "sha-256".to_string(), digest: hex::encode([byte; 32]) }
}

fn runtime() -> RuntimeJson {
    RuntimeJson {
        runtime_kind: "deterministic_demo".to_string(),
        execution_topology: "rule_based_local".to_string(),
        replay_strength: "fully_replayable".to_string(),
        determinism: RuntimeDeterminismJson { deterministic: true, seed_bound: true },
        isolation: RuntimeIsolationJson { process_isolated: true },
        provider_routing: ProviderRoutingJson {
            fallbacks_allowed: false,
            provider_pinned: true,
            data_collection_policy: "declared_deny".to_string(),
        },
    }
}

fn public_key_text() -> String {
    Base64UrlUnpadded::encode_string(&SigningKey::from_bytes(&SECRET).verifying_key().to_bytes())
}

fn unsigned_receipt() -> ReceiptJson {
    ReceiptJson {
        schema: "ink.receipt.v2".to_string(),
        receipt_id: "urn:ink:receipt:test-1".to_string(),
        receipt_profile: "thin_waist_v2".to_string(),
        action_id: "urn:ink:action:test-1".to_string(),
        issued_at: 1_780_000_000,
        issuer: IssuerJson {
            name: "Test Issuer".to_string(),
            key_id: "issuer-key-1".to_string(),
            public_key: public_key_text(),
        },
        manifest_hash: digest(1),
        policy: PolicyBindingJson { id: "demo-claims".to_string(), version: "1".to_string(), hash: digest(2) },
        runtime: runtime(),
        model: ModelWaistJson {
            schema: "ink.model-waist.v1".to_string(),
            identity: ModelIdentityJson {
                model_class: "deterministic_demo".to_string(),
                model_ref_hash: digest(3),
                model_slug: "demo".to_string(),
                identity_evidence: IdentityEvidenceJson::Declared,
            },
            invocation: ModelInvocationJson {
                action_hash: digest(4),
                messages_hash: digest(5),
                system_prompt_hash: None,
                tool_spec_hash: None,
                response_schema_hash: None,
                parameters_hash: digest(6),
                requested_output: RequestedOutputJson::FreeText,
            },
            observation: ModelObservationJson {
                output_text_hash: Some(digest(7)),
                structured_output_hash: None,
                provider_metadata_hash: None,
                finish_reason: "stop".to_string(),
                usage: TokenUsageJson { input_tokens: Some(3), output_tokens: Some(4), total_tokens: Some(7) },
            },
            runtime: runtime(),
            plugin: PluginJson {
                plugin_id_hash: digest(8),
                plugin_version_hash: digest(9),
                plugin_api_version: "1".to_string(),
                maintainer_class: "first_party_reference".to_string(),
                normalization: NormalizationJson {
                    input_normalized: true,
                    output_normalized: true,
                    raw_request_preserved: false,
                    raw_response_preserved: false,
                    secrets_redacted: true,
                },
                plugin_manifest_hash: digest(10),
                plugin_id_hint: "demo-plugin".to_string(),
                trust_level: "first_party_reference".to_string(),
            },
        },
        facts: PolicyFactsJson {
            risk_class: "low".to_string(),
            requires_human_review: false,
            binding_effect_present: false,
            provider_fallbacks_allowed: false,
            plugin_trust_level: "first_party_reference".to_string(),
            runtime_kind: "deterministic_demo".to_string(),
            replay_strength: "fully_replayable".to_string(),
            model_class: "deterministic_demo".to_string(),
        },
        decision: "pass".to_string(),
        reason_codes: vec!["RUNTIME_DETERMINISTIC_DEMO".to_string()],
        evidence_summary_hash: digest(11),
        controls_summary_hash: digest(12),
        signing: SigningJson {
            transcript_encoding: RECEIPT_ENCODING_TLV_V2.to_string(),
            payload_hash: digest(0),
            algorithm: "Ed25519".to_string(),
            key_id: "issuer-key-1".to_string(),
            signature: String::new(),
        },
    }
}

fn signed_receipt() -> ReceiptJson {
    let mut receipt = unsigned_receipt();
    let digest = {
        let slots = reason_slots(&receipt);
        let payload = receipt_payload_from_json(&receipt, &slots).unwrap();
        receipt_digest_for_encoding(&payload, RECEIPT_ENCODING_TLV_V2, &JsonValue::Null).unwrap()
    };
    let signature = SigningKey::from_bytes(&SECRET).sign(&digest.0);
    receipt.signing.payload_hash = DigestJson { algorithm: "sha-256".to_string(), digest: hex::encode(digest.0) };
    receipt.signing.signature = Base64UrlUnpadded::encode_string(&signature.to_bytes());
    receipt
}

fn registry(status: &str) -> TrustRegistryJson {
    TrustRegistryJson {
        schema: "ink.trust-registry.v1".to_string(),
        issuers: vec![TrustedIssuerJson {
            key_id: "issuer-key-1".to_string(),
            algorithm: "Ed25519".to_string(),
            public_key: public_key_text(),
            issuer_name: "Test Issuer".to_string(),
            org_name: "Test Org".to_string(),
            status: status.to_string(),
            usage: None,
        }],
        trust_authorities: Vec::new(),
    }
}

fn check_status<'a>(report: &'a ink_receipts::receipt_v2::json::VerificationReportJson, id: &str) -> &'a str {
    report.checks.iter().find(|c| c.id == id).map(|c| c.status.as_str()).unwrap_or("absent")
}

#[test]
fn signed_receipt_with_pinned_key_is_valid() {
    let receipt = signed_receipt();
    let key = public_key_text();
    let report = verify_receipt(&receipt, &JsonValue::Null, None, None, None, None, None, Some(&key)).unwrap();
    assert_eq!(report.status, "valid");
    assert_eq!(report.code, "VALID_RECEIPT");
    assert!(report.signature_valid);
    assert!(report.trusted_issuer);
    assert!(report.policy_accepted);
    assert!(!report.revocation_checked);
    assert_eq!(report.scope, "receipt-only");
    assert_eq!(report.schema, "ink.verification-report.v1");
    assert_eq!(report.verification_engine, "Rust ink-core");
    assert_eq!(check_status(&report, "kernel.projection"), "pass");
    assert_eq!(check_status(&report, "issuer.revocation"), "not_performed");
}

#[test]
fn signed_receipt_with_active_registry_entry_is_valid() {
    let receipt = signed_receipt();
    let registry = registry("active");
    let report = verify_bundle(&receipt, &JsonValue::Null, None, None, Some(&registry), None, None, None).unwrap();
    assert_eq!(report.code, "VALID_RECEIPT");
    assert!(report.trusted_issuer);
}

#[test]
fn registry_entry_that_is_not_active_leaves_issuer_untrusted() {
    let receipt = signed_receipt();
    let registry = registry("retired");
    let report = verify_receipt(&receipt, &JsonValue::Null, None, None, Some(&registry), None, None, None).unwrap();
    assert_eq!(report.status, "invalid");
    assert_eq!(report.code, "UNTRUSTED_ISSUER");
    assert!(report.signature_valid);
    assert!(!report.trusted_issuer);
}

#[test]
fn untrusted_issuer_passes_under_a_policy_that_does_not_require_trust() {
    let receipt = signed_receipt();
    let mut policy = VerifyPolicyJson::host_compatibility();
    policy.require_trusted_issuer = false;
    let report = verify_receipt(&receipt, &JsonValue::Null, None, None, None, None, Some(&policy), None).unwrap();
    assert_eq!(report.code, "VALID_RECEIPT");
    assert!(!report.trusted_issuer);
}

#[test]
fn altered_signature_is_invalid() {
    let mut receipt = signed_receipt();
    let mut bytes = Base64UrlUnpadded::decode_vec(&receipt.signing.signature).unwrap();
    bytes[0] ^= 0x55;
    receipt.signing.signature = Base64UrlUnpadded::encode_string(&bytes);
    let key = public_key_text();
    let report = verify_receipt(&receipt, &JsonValue::Null, None, None, None, None, None, Some(&key)).unwrap();
    assert_eq!(report.code, "INVALID_SIGNATURE");
    assert!(!report.signature_valid);
    assert_eq!(check_status(&report, "receipt.signature"), "fail");
}

#[test]
fn altered_payload_hash_is_reported_first() {
    let mut receipt = signed_receipt();
    receipt.signing.payload_hash = digest(0xEE);
    let key = public_key_text();
    let report = verify_receipt(&receipt, &JsonValue::Null, None, None, None, None, None, Some(&key)).unwrap();
    assert_eq!(report.code, "PAYLOAD_DIGEST_MISMATCH");
    assert_eq!(report.payload_digest_hex, hex::encode([0xEEu8; 32]));
    assert!(!report.signature_valid);
}

#[test]
fn changed_decision_breaks_the_signature() {
    let mut receipt = signed_receipt();
    receipt.decision = "warn".to_string();
    let key = public_key_text();
    let report = verify_receipt(&receipt, &JsonValue::Null, None, None, None, None, None, Some(&key)).unwrap();
    assert_eq!(report.code, "PAYLOAD_DIGEST_MISMATCH");
}

#[test]
fn wrong_receipt_schema_is_refused() {
    let mut receipt = signed_receipt();
    receipt.schema = "ink.receipt.v1".to_string();
    let result = verify_receipt(&receipt, &JsonValue::Null, None, None, None, None, None, None);
    assert_eq!(result, Err(ReceiptV2Error::InvalidInput("expected ink.receipt.v2".to_string())));
}

#[test]
fn conflicting_policy_is_refused_before_the_receipt_is_read() {
    let receipt = unsigned_receipt();
    let mut policy = VerifyPolicyJson::bank_strict();
    policy.allow_verify_only_formats = true;
    let result = verify_receipt(&receipt, &JsonValue::Null, None, None, None, None, Some(&policy), None);
    assert_eq!(
        result,
        Err(ReceiptV2Error::InvalidInput("strict canonical tlv policy cannot allow verify-only formats".to_string()))
    );
    assert!(load_verify_policy(policy).is_err());
    assert!(load_verify_policy(VerifyPolicyJson::bank_strict()).is_ok());
}

#[test]
fn registry_and_revocation_schemas_are_checked() {
    let receipt = signed_receipt();
    let mut bad = registry("active");
    bad.schema = "ink.trust-registry.v3".to_string();
    let result = verify_receipt(&receipt, &JsonValue::Null, None, None, Some(&bad), None, None, None);
    assert_eq!(
        result,
        Err(ReceiptV2Error::InvalidInput("expected ink.trust-registry.v1 or ink.trust-registry.v2".to_string()))
    );
    assert!(load_trust_registry(bad).is_err());
    assert!(load_trust_registry(registry("active")).is_ok());

    let list = RevocationListJson {
        schema: "ink.revocations.v3".to_string(),
        revoked_keys: Vec::new(),
        signing: SigningJson {
            transcript_encoding: "INK-REVOCATION-JSON-V1".to_string(),
            payload_hash: digest(0),
            algorithm: "Ed25519".to_string(),
            key_id: "issuer-key-1".to_string(),
            signature: String::new(),
        },
    };
    let value = JsonValue::Null;
    let result = verify_receipt(&receipt, &JsonValue::Null, None, None, None, Some((&list, &value)), None, None);
    assert_eq!(
        result,
        Err(ReceiptV2Error::InvalidInput("expected ink.revocations.v1 or ink.revocations.v2".to_string()))
    );
    assert!(load_revocation_list(list).is_err());
}

#[test]
fn registry_path_skips_document_schema_checks() {
    let receipt = signed_receipt();
    let mut registry = registry("active");
    registry.schema = "anything".to_string();
    let report = verify_receipt_with_registry(
        &receipt,
        &JsonValue::Null,
        None,
        None,
        Some(&registry),
        None,
        &VerifyPolicyJson::bank_strict(),
        None,
    )
    .unwrap();
    assert_eq!(report.code, "VALID_RECEIPT");
}

#[test]
fn negative_issue_time_is_refused_by_the_projection() {
    let mut receipt = unsigned_receipt();
    receipt.issued_at = -1;
    let result = verify_receipt(&receipt, &JsonValue::Null, None, None, None, None, None, None);
    assert!(result.is_err());
}

fn text(s: &str) -> JsonValue {
    JsonValue::String(s.to_string())
}

fn v2_registry(state: &str, trust_public_key: &str) -> TrustRegistryJson {
    TrustRegistryJson {
        schema: "ink.trust-registry.v2".to_string(),
        issuers: vec![TrustedIssuerJson {
            key_id: "issuer-key-1".to_string(),
            algorithm: "Ed25519".to_string(),
            public_key: public_key_text(),
            issuer_name: "Test Issuer".to_string(),
            org_name: "BLKBX Lab".to_string(),
            status: state.to_string(),
            usage: Some("receipt_signing".to_string()),
        }],
        trust_authorities: vec![TrustAuthorityJson {
            key_id: "trust-authority-v2".to_string(),
            algorithm: "Ed25519".to_string(),
            public_key: trust_public_key.to_string(),
            state: "active".to_string(),
        }],
    }
}

/// A second-version revocation list revoking `revoked`, signed by the trust
/// authority key `trust_secret`, and its JSON value.
fn v2_revocations(revoked: &[&str], trust_secret: &[u8; 32], list_version: &str) -> (RevocationListJson, JsonValue) {
    let keys: Vec<RevokedKeyJson> = revoked
        .iter()
        .map(|k| RevokedKeyJson {
            key_id: k.to_string(),
            reason: "compromised_for_test".to_string(),
            revoked_at: "2026-07-18T00:00:00Z".to_string(),
        })
        .collect();
    let key_values: Vec<JsonValue> = keys
        .iter()
        .map(|k| {
            JsonValue::Object(vec![
                ("key_id".to_string(), text(&k.key_id)),
                ("reason".to_string(), text(&k.reason)),
                ("revoked_at".to_string(), text(&k.revoked_at)),
            ])
        })
        .collect();
    let value = JsonValue::Object(vec![
        ("schema".to_string(), text("ink.revocations.v2")),
        ("list_version".to_string(), text(list_version)),
        ("published_at".to_string(), text("2026-07-18T00:00:00Z")),
        ("revoked_keys".to_string(), JsonValue::Array(key_values)),
    ]);
    let digest = <sha2::Sha256 as sha2::Digest>::digest(canonicalize_without(&value, "signing"));
    let signature = SigningKey::from_bytes(trust_secret).sign(&digest);
    let list = RevocationListJson {
        schema: "ink.revocations.v2".to_string(),
        revoked_keys: keys,
        signing: SigningJson {
            transcript_encoding: "INK-REVOCATION-JSON-V2".to_string(),
            payload_hash: DigestJson { algorithm: "sha-256".to_string(), digest: hex::encode(digest) },
            algorithm: "Ed25519".to_string(),
            key_id: "trust-authority-v2".to_string(),
            signature: Base64UrlUnpadded::encode_string(&signature.to_bytes()),
        },
    };
    (list, value)
}

#[test]
fn retired_v2_trusted_issuer_still_verifies() {
    let receipt = signed_receipt();
    let trust_secret = [9u8; 32];
    let trust_public_key = Base64UrlUnpadded::encode_string(&SigningKey::from_bytes(&trust_secret).verifying_key().to_bytes());
    let registry = v2_registry("retired", &trust_public_key);
    let (list, value) = v2_revocations(&[], &trust_secret, "2026-07-18.1");
    let report =
        verify_receipt(&receipt, &JsonValue::Null, None, None, Some(&registry), Some((&list, &value)), None, None).unwrap();
    assert_eq!(report.status, "valid");
    assert_eq!(report.code, "VALID_RECEIPT");
    assert!(report.trusted_issuer);
    assert!(report.revocation_checked);
}

#[test]
fn revoked_v2_trusted_issuer_fails_verification() {
    let receipt = signed_receipt();
    let trust_secret = [11u8; 32];
    let trust_public_key = Base64UrlUnpadded::encode_string(&SigningKey::from_bytes(&trust_secret).verifying_key().to_bytes());
    let registry = v2_registry("active", &trust_public_key);
    let (list, value) = v2_revocations(&["issuer-key-1"], &trust_secret, "2026-07-18.2");
    let report =
        verify_receipt(&receipt, &JsonValue::Null, None, None, Some(&registry), Some((&list, &value)), None, None).unwrap();
    assert_eq!(report.status, "invalid");
    assert_eq!(report.code, "REVOKED_ISSUER_KEY");
}

#[test]
fn v2_registry_entry_must_sign_receipts_and_not_be_revoked() {
    let receipt = signed_receipt();
    let mut registry = v2_registry("revoked", "unused");
    registry.trust_authorities.clear();
    let report = verify_receipt(&receipt, &JsonValue::Null, None, None, Some(&registry), None, None, None).unwrap();
    assert_eq!(report.code, "UNTRUSTED_ISSUER");
    let mut other_use = v2_registry("active", "unused");
    other_use.issuers[0].usage = Some("registry_signing".to_string());
    let report = verify_receipt(&receipt, &JsonValue::Null, None, None, Some(&other_use), None, None, None).unwrap();
    assert_eq!(report.code, "UNTRUSTED_ISSUER");
    let active = v2_registry("active", "unused");
    let report = verify_receipt(&receipt, &JsonValue::Null, None, None, Some(&active), None, None, None).unwrap();
    assert_eq!(report.code, "VALID_RECEIPT");
}
