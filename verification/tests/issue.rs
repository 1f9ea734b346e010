use base64ct::{Base64UrlUnpadded, Encoding};
use ed25519_dalek::{Signer, SigningKey};
use ink_receipts::host::issue::{
    check_signer_key_id, finish_hosted_receipt, prepare_hosted_receipt, receipt_digest, sign_prepared_receipt, HostedIssuer,
    HostedReceiptIssueRequest,
};
use ink_receipts::host::HostError;
use ink_receipts::receipt_v2::check::verify_receipt;
use ink_receipts::receipt_v2::json::{JsonValue, TrustRegistryJson, TrustedIssuerJson};
use sha2::Digest;

fn signing_key() -> SigningKey {
    SigningKey::from_bytes(&[7u8; 32])
}

fn issuer(demo_backend: bool, receipt_encoding: &str) -> HostedIssuer {
    HostedIssuer {
        issuer_name: "BLKBX Hosted".to_string(),
        key_id: "ed25519:hosted-test".to_string(),
        public_key: signing_key().verifying_key().to_bytes(),
        receipt_encoding: receipt_encoding.to_string(),
        demo_backend,
    }
}

fn text(s: &str) -> JsonValue {
    JsonValue::String(s.to_string())
}

fn request(risk: &str, decision: Option<&str>) -> HostedReceiptIssueRequest {
    HostedReceiptIssueRequest {
        receipt_id: None,
        action_id: "claim-42".to_string(),
        workflow_kind: "claims_review".to_string(),
        schema_key: "claims.review".to_string(),
        schema_version: "2.0.0".to_string(),
        body_json: JsonValue::Object(vec![("amount".to_string(), text("10"))]),
        domain_metadata: JsonValue::Object(vec![
            ("risk_class".to_string(), text(risk)),
            ("requires_human_review".to_string(), JsonValue::Bool(true)),
        ]),
        decision: decision.map(|d| d.to_string()),
        issued_at: Some(1700000000),
        policy_id: None,
        policy_version: None,
    }
}

#[test]
fn hosted_receipt_is_laid_out_from_the_request() {
    let prepared = prepare_hosted_receipt(&request("high", Some("pass")), &issuer(false, "INK-CORE-TLV-V2")).unwrap();
    let body_digest = sha2::Sha256::digest(b"{\"amount\":\"10\"}");
    assert_eq!(
        prepared.receipt.receipt_id,
        format!("urn:ink:receipt:hosted:1700000000:{}", hex::encode(&body_digest[..6]))
    );
    assert_eq!(prepared.receipt.issued_at, 1700000000);
    assert_eq!(prepared.manifest.created_at, "2023-11-14T22:13:20Z");
    assert_eq!(prepared.manifest.artifacts.len(), 2);
    assert_eq!(prepared.manifest.artifacts[0].hash.digest, hex::encode(body_digest));
    assert_eq!(prepared.manifest.artifacts[0].size_bytes, 15);
    assert_eq!(prepared.receipt.decision, "pass");
    assert_eq!(prepared.receipt.reason_codes, vec!["HOSTED_WORKFLOW_ISSUED".to_string()]);
    assert_eq!(prepared.receipt.facts.risk_class, "high");
    assert!(prepared.receipt.facts.requires_human_review);
    assert_eq!(prepared.receipt.policy.id, "HOSTED_WORKFLOW_POLICY");
    assert_eq!(prepared.receipt.policy.version, "1.0.0");
    assert_eq!(
        prepared.receipt.policy.hash.digest,
        hex::encode(sha2::Sha256::digest(b"HOSTED_WORKFLOW_POLICY:1.0.0:claims_review:claims.review"))
    );
    assert_eq!(prepared.receipt.model.plugin.plugin_id_hint, "claims_review");
    assert_eq!(prepared.receipt.signing.signature, "");
    assert_eq!(prepared.receipt.signing.payload_hash.digest, "");
}

#[test]
fn signed_hosted_receipt_verifies_with_the_issuer_key() {
    let prepared = prepare_hosted_receipt(&request("medium", None), &issuer(false, "INK-CORE-TLV-V2")).unwrap();
    assert_eq!(prepared.receipt.decision, "warn");
    let signature = signing_key().sign(&prepared.digest.0).to_bytes();
    let receipt = finish_hosted_receipt(prepared.receipt, &prepared.digest, &signature);
    assert_eq!(receipt.signing.payload_hash.digest, hex::encode(prepared.digest.0));
    let key = Base64UrlUnpadded::encode_string(&signing_key().verifying_key().to_bytes());
    let report = verify_receipt(&receipt, &JsonValue::Null, None, None, None, None, None, Some(&key)).unwrap();
    assert_eq!(report.status, "valid");
    assert_eq!(report.code, "VALID_RECEIPT");
}

#[test]
fn hosted_issuance_refuses_demo_signers_and_verify_only_encodings() {
    let refused = prepare_hosted_receipt(&request("low", None), &issuer(true, "INK-CORE-TLV-V2"));
    assert!(matches!(
        refused,
        Err(HostError::Trust(ref m)) if m == "hosted issuance requires a non-demo signer backend"
    ));
    let legacy = prepare_hosted_receipt(&request("low", None), &issuer(false, "INK-CORE-TRANSCRIPT-V1"));
    assert!(matches!(legacy, Err(HostError::InvalidInput(_))));
}

#[test]
fn hosted_issuance_refuses_unknown_risk_and_decision() {
    let risk = prepare_hosted_receipt(&request("extreme", None), &issuer(false, "INK-CORE-TLV-V2"));
    assert!(matches!(risk, Err(HostError::InvalidInput(ref m)) if m == "unknown risk class extreme"));
    let decision = prepare_hosted_receipt(&request("low", Some("maybe")), &issuer(false, "INK-CORE-TLV-V2"));
    assert!(matches!(decision, Err(HostError::InvalidInput(ref m)) if m == "unknown policy decision maybe"));
}

#[test]
fn signer_key_id_must_be_derived_from_its_public_key() {
    let public_key = signing_key().verifying_key().to_bytes();
    let derived = format!("ed25519:{}", hex::encode(sha2::Sha256::digest(public_key)));
    assert_eq!(check_signer_key_id(&derived, &public_key), Ok(()));
    assert_eq!(
        check_signer_key_id("ed25519:other", &public_key),
        Err(HostError::Trust("signer config key_id ed25519:other does not match the configured public key".to_string()))
    );
}

#[test]
fn locally_signed_prepared_receipt_verifies() {
    let prepared = prepare_hosted_receipt(&request("high", Some("pass")), &issuer(false, "INK-CORE-TLV-V2")).unwrap();
    let digest = prepared.digest;
    let receipt = sign_prepared_receipt(prepared, &[7u8; 32]);
    assert_eq!(receipt.signing.payload_hash.digest, hex::encode(digest.0));
    assert_eq!(receipt.signing.signature, Base64UrlUnpadded::encode_string(&signing_key().sign(&digest.0).to_bytes()));
    let key = Base64UrlUnpadded::encode_string(&signing_key().verifying_key().to_bytes());
    let report = verify_receipt(&receipt, &JsonValue::Null, None, None, None, None, None, Some(&key)).unwrap();
    assert_eq!(report.status, "valid");
}

#[test]
fn receipt_digest_matches_the_prepared_digest_and_refuses_a_broken_model() {
    let prepared = prepare_hosted_receipt(&request("low", None), &issuer(false, "INK-CORE-TLV-V2")).unwrap();
    assert_eq!(receipt_digest(&prepared.receipt).unwrap().0, prepared.digest.0);
    let mut broken = prepared.receipt.clone();
    broken.model.schema = "ink.model-waist.v0".to_string();
    assert_eq!(
        receipt_digest(&broken),
        Err(HostError::InvalidInput("expected ink.model-waist.v1".to_string()))
    );
}

#[test]
fn issued_receipt_verifies_with_its_manifest_and_a_registry() {
    let hosted = issuer(false, "INK-CORE-TLV-V2");
    let prepared = prepare_hosted_receipt(&request("medium", Some("pass")), &hosted).unwrap();
    let manifest = prepared.manifest.clone();
    let receipt = sign_prepared_receipt(prepared, &[7u8; 32]);
    let registry = TrustRegistryJson {
        schema: "ink.trust-registry.v1".to_string(),
        issuers: vec![TrustedIssuerJson {
            key_id: hosted.key_id.clone(),
            algorithm: "Ed25519".to_string(),
            public_key: Base64UrlUnpadded::encode_string(&signing_key().verifying_key().to_bytes()),
            issuer_name: hosted.issuer_name.clone(),
            org_name: "BLKBX".to_string(),
            status: "active".to_string(),
            usage: None,
        }],
        trust_authorities: Vec::new(),
    };
    let report = verify_receipt(&receipt, &JsonValue::Null, Some(&manifest), None, Some(&registry), None, None, None).unwrap();
    assert_eq!(report.status, "valid");
    assert_eq!(report.code, "VALID_RECEIPT");
    assert!(report.trusted_issuer);
    assert_eq!(report.scope, "full-evidence");
}
