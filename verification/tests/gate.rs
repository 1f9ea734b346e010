use base64ct::{Base64UrlUnpadded, Encoding};
use ed25519_dalek::{Signer, SigningKey};
use ink_receipts::host::comparison::{comparison_digest, comparison_signing};
use ink_receipts::host::bundle::{check_bundle_artifacts, check_bundle_binding, check_bundle_manifest};
use ink_receipts::host::gate::{prepare_gate_receipt, GateInput};
use ink_receipts::host::issue::{finish_hosted_receipt, hosted_model_json, HostedIssuer, HostedReceiptIssueRequest};
use ink_receipts::host::{manifest_artifact, new_manifest, ActionJson, HostError, ManifestArtifactSpec};
use ink_receipts::legacy::policy::{Decision, PluginTrustFact, PolicyFacts, RiskClass};
use ink_receipts::model_waist::{ModelClass, ReplayStrength, RuntimeKind};
use ink_receipts::receipt_v2::check::verify_receipt;
use ink_receipts::receipt_v2::json::{DigestJson, JsonValue, ManifestJson, TrustRegistryJson, TrustedIssuerJson};
use ink_receipts::types::TimestampUtc;
use sha2::Digest;

fn signing_key() -> SigningKey {
    SigningKey::from_bytes(&[3u8; 32])
}

fn issuer(demo_backend: bool) -> HostedIssuer {
    HostedIssuer {
        issuer_name: "Gate Issuer".to_string(),
        key_id: "ed25519:gate".to_string(),
        public_key: signing_key().verifying_key().to_bytes(),
        receipt_encoding: "INK-CORE-TLV-V2".to_string(),
        demo_backend,
    }
}

fn spec(kind: &str, path: &str) -> ManifestArtifactSpec {
    ManifestArtifactSpec {
        artifact_type: kind.to_string(),
        path: path.to_string(),
        media_type: "application/json".to_string(),
        schema_id: None,
    }
}

fn manifest() -> ManifestJson {
    new_manifest(
        "action-7",
        "1700000000".to_string(),
        vec![
            manifest_artifact(spec("prompt_text", "prompt.txt"), b"prompt"),
            manifest_artifact(spec("action_json", "action.json"), b"{}"),
            manifest_artifact(spec("model_waist_json", "model.json"), b"model"),
        ],
    )
}

fn gate_input() -> GateInput {
    let request = HostedReceiptIssueRequest {
        receipt_id: None,
        action_id: "action-7".to_string(),
        workflow_kind: "review".to_string(),
        schema_key: "review.v1".to_string(),
        schema_version: "1.0.0".to_string(),
        body_json: JsonValue::Null,
        domain_metadata: JsonValue::Null,
        decision: None,
        issued_at: None,
        policy_id: None,
        policy_version: None,
    };
    GateInput {
        manifest: manifest(),
        model_json: hosted_model_json(&request, b"null", b"null"),
        facts: PolicyFacts {
            risk_class: RiskClass::Medium,
            requires_human_review: false,
            binding_effect_present: false,
            provider_fallbacks_allowed: false,
            plugin_trust_level: PluginTrustFact::FirstPartyReference,
            runtime_kind: RuntimeKind::HostedModelGateway,
            replay_strength: ReplayStrength::DeclaredOnly,
            model_class: ModelClass::HostedApi,
        },
        controls: vec![],
        policy_id: "DEMO_POLICY".to_string(),
        policy_version: "1.0.0".to_string(),
        policy_file: b"{\"schema\":\"ink.policy.v1\"}".to_vec(),
        decision: Decision::Block,
        reason_codes: vec!["RISK_TOO_HIGH".to_string()],
    }
}

#[test]
fn gate_receipt_is_signed_and_verifies() {
    let now = TimestampUtc { unix_seconds: 1700000000, nanos: 42 };
    let prepared = prepare_gate_receipt(gate_input(), &issuer(false), false, now).unwrap();
    assert_eq!(prepared.receipt.receipt_id, "urn:ink:receipt:1700000000-42");
    assert_eq!(prepared.receipt.decision, "fail");
    assert_eq!(prepared.receipt.reason_codes, vec!["RISK_TOO_HIGH".to_string()]);
    assert_eq!(prepared.receipt.action_id, "action-7");
    assert_eq!(
        prepared.receipt.policy.hash.digest,
        hex::encode(sha2::Sha256::digest(b"{\"schema\":\"ink.policy.v1\"}"))
    );
    let signature = signing_key().sign(&prepared.digest.0).to_bytes();
    let receipt = finish_hosted_receipt(prepared.receipt, &prepared.digest, &signature);
    let key = Base64UrlUnpadded::encode_string(&signing_key().verifying_key().to_bytes());
    let report = verify_receipt(&receipt, &JsonValue::Null, Some(&manifest()), None, None, None, None, Some(&key)).unwrap();
    assert_eq!(report.status, "valid");
    assert_eq!(report.code, "VALID_RECEIPT");
}

#[test]
fn gate_needs_consent_for_a_demo_signer() {
    let now = TimestampUtc { unix_seconds: 1, nanos: 0 };
    let refused = prepare_gate_receipt(gate_input(), &issuer(true), false, now);
    assert!(matches!(refused, Err(HostError::Trust(ref m))
        if m == "gate requires explicit demo signer approval when the configured backend is demo_file"));
    assert!(prepare_gate_receipt(gate_input(), &issuer(true), true, now).is_ok());
}

#[test]
fn bundle_manifest_schema_is_checked() {
    assert_eq!(check_bundle_manifest(&manifest()), Ok(()));
    let mut other = manifest();
    other.schema = "ink.manifest.v1".to_string();
    assert_eq!(check_bundle_manifest(&other), Err(HostError::InvalidInput("expected ink.manifest.v2".to_string())));
}

#[test]
fn bundle_artifacts_are_hashed_and_given_their_roles() {
    let contents = vec![b"prompt".to_vec(), b"{}".to_vec(), b"model".to_vec()];
    let roles = check_bundle_artifacts(&manifest(), &contents).unwrap();
    assert_eq!(roles.action, Some(1));
    assert_eq!(roles.model, Some(2));
    assert_eq!(roles.prompt_hash.unwrap().digest, hex::encode(sha2::Sha256::digest(b"prompt")));
    let tampered = vec![b"prompt".to_vec(), b"{ }".to_vec(), b"model".to_vec()];
    assert_eq!(
        check_bundle_artifacts(&manifest(), &tampered).unwrap_err(),
        HostError::InvalidInput("artifact hash mismatch: action.json".to_string())
    );
}

fn action(schema: &str, prompt_digest: &str) -> ActionJson {
    ActionJson {
        schema: schema.to_string(),
        operation: "approve_claim".to_string(),
        risk_class: "high".to_string(),
        human_review_requested: false,
        prompt_hash: DigestJson { algorithm: "sha-256".to_string(), digest: prompt_digest.to_string() },
        scenario_id: "s".to_string(),
        matched_rule_ids: vec![],
    }
}

#[test]
fn bundle_action_must_be_bound_to_the_prompt() {
    let prompt = DigestJson { algorithm: "sha-256".to_string(), digest: "ab".to_string() };
    let model = gate_input().model_json;
    let good = action("ink.action.v1", "ab");
    assert_eq!(check_bundle_binding(Some(&good), Some(&prompt), Some(&model)), Ok(()));
    assert_eq!(
        check_bundle_binding(None, Some(&prompt), Some(&model)),
        Err(HostError::InvalidInput("missing action_json artifact".to_string()))
    );
    assert_eq!(
        check_bundle_binding(Some(&action("ink.action.v0", "ab")), Some(&prompt), Some(&model)),
        Err(HostError::InvalidInput("expected ink.action.v1".to_string()))
    );
    assert_eq!(
        check_bundle_binding(Some(&action("ink.action.v1", "cd")), Some(&prompt), Some(&model)),
        Err(HostError::InvalidInput("prompt/action binding mismatch".to_string()))
    );
    assert_eq!(
        check_bundle_binding(Some(&good), None, Some(&model)),
        Err(HostError::InvalidInput("prompt/action binding mismatch".to_string()))
    );
    assert_eq!(
        check_bundle_binding(Some(&good), Some(&prompt), None),
        Err(HostError::InvalidInput("missing model_waist_json artifact".to_string()))
    );
}

fn tlv(id: u16, value: &[u8]) -> Vec<u8> {
    let mut out = id.to_be_bytes().to_vec();
    out.extend_from_slice(&(value.len() as u32).to_be_bytes());
    out.extend_from_slice(value);
    out
}

#[test]
fn comparison_record_is_signed_over_its_transcript() {
    let digest = comparison_digest("left", "right", true, false, true);
    let mut transcript = tlv(1, b"left");
    transcript.extend(tlv(2, b"right"));
    transcript.extend(tlv(3, &[1]));
    transcript.extend(tlv(4, &[0]));
    transcript.extend(tlv(5, &[1]));
    assert_eq!(digest.0.to_vec(), sha2::Sha256::digest(&transcript).to_vec());
    let signature = signing_key().sign(&digest.0).to_bytes();
    let signing = comparison_signing(&digest, "ed25519:gate", &signature);
    assert_eq!(signing.transcript_encoding, "INK-COMPARISON-CORE-V1");
    assert_eq!(signing.payload_hash.digest, hex::encode(digest.0));
    assert_eq!(signing.signature, Base64UrlUnpadded::encode_string(&signature));
}

#[test]
fn gate_receipt_verifies_with_a_registry_that_trusts_its_key() {
    let now = TimestampUtc { unix_seconds: 1700000100, nanos: 0 };
    let gate_issuer = issuer(false);
    let prepared = prepare_gate_receipt(gate_input(), &gate_issuer, false, now).unwrap();
    let signature = signing_key().sign(&prepared.digest.0).to_bytes();
    let receipt = finish_hosted_receipt(prepared.receipt, &prepared.digest, &signature);
    let registry = TrustRegistryJson {
        schema: "ink.trust-registry.v1".to_string(),
        issuers: vec![TrustedIssuerJson {
            key_id: gate_issuer.key_id.clone(),
            algorithm: "Ed25519".to_string(),
            public_key: Base64UrlUnpadded::encode_string(&signing_key().verifying_key().to_bytes()),
            issuer_name: gate_issuer.issuer_name.clone(),
            org_name: "BLKBX".to_string(),
            status: "active".to_string(),
            usage: None,
        }],
        trust_authorities: Vec::new(),
    };
    let report = verify_receipt(&receipt, &JsonValue::Null, Some(&manifest()), None, Some(&registry), None, None, None).unwrap();
    assert_eq!(report.status, "valid");
    assert_eq!(report.code, "VALID_RECEIPT");
    assert!(report.trusted_issuer);
}
