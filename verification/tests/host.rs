use ink_receipts::controls::{ControlObservation, ControlStatus, ControlType};
use ink_receipts::types::{Sha256Digest, TimestampUtc};
use ink_receipts::host::conditions::{compile_condition, ConditionFile};
use ink_receipts::host::policy::{
    compile_policy, policy_decision_from_public, policy_decision_from_str, PolicyFile, PolicyRuleFile,
};
use ink_receipts::host::{
    ensure_issueable_receipt_encoding, facts_json, key_id_for_public, public_decision, public_model_class,
    public_plugin_trust, public_replay_strength, public_risk_class, public_runtime_kind, receipt_encoding_allows_issuance,
    receipt_encoding_check, receipt_encoding_note, HostError,
};
use ink_receipts::legacy::policy::{
    ConditionNode, ConditionOp, ConditionValue, Decision, PluginTrustFact, PolicyFacts, RiskClass,
};
use ink_receipts::model_waist::{ModelClass, ReplayStrength, RuntimeKind};
use ink_receipts::receipt_v2::normalize::{risk_class_from_str, runtime_kind_from_str};
use ink_receipts::host::{manifest_artifact, new_manifest, ManifestArtifactSpec};
use ink_receipts::host::verify::{is_legacy_v1, report_refusal, verify_legacy_v1_integrity};
use ink_receipts::receipt_v2::json::JsonValue;
use sha2::Digest;

fn leaf(op: ConditionOp, value: ConditionValue) -> ConditionNode {
    ConditionNode { op, left: 0, right: 0, value }
}

#[test]
fn only_canonical_tlv_is_issued() {
    assert!(receipt_encoding_allows_issuance("INK-CORE-TLV-V2"));
    assert!(!receipt_encoding_allows_issuance("INK-CORE-TRANSCRIPT-V1"));
    assert!(ensure_issueable_receipt_encoding("INK-CORE-TLV-V2").is_ok());
    assert_eq!(
        ensure_issueable_receipt_encoding("INK-CORE-JSON-CANONICAL-V1"),
        Err(HostError::InvalidInput(
            "receipt encoding INK-CORE-JSON-CANONICAL-V1 is verify-only compatibility mode; new receipts must use INK-CORE-TLV-V2"
                .to_string()
        ))
    );
    assert_eq!(
        receipt_encoding_note("CBOR"),
        Some("receipt encoding CBOR is unsupported; new receipts must use INK-CORE-TLV-V2".to_string())
    );
    assert_eq!(receipt_encoding_note("INK-CORE-TLV-V2"), None);
}

#[test]
fn encoding_check_reports_status() {
    assert_eq!(receipt_encoding_check("INK-CORE-TLV-V2").status, "ok");
    assert_eq!(receipt_encoding_check("INK-CORE-TRANSCRIPT-V1").status, "verify_only");
    let check = receipt_encoding_check("other");
    assert_eq!(check.name, "receipt_encoding");
    assert_eq!(check.status, "unsupported");
    assert_eq!(check.encoding, "other");
}

#[test]
fn public_names_read_back() {
    for risk in [RiskClass::Low, RiskClass::Medium, RiskClass::High] {
        assert_eq!(risk_class_from_str(public_risk_class(risk)), Ok(risk));
    }
    for kind in [
        RuntimeKind::DeterministicDemo,
        RuntimeKind::LocalOpenWeightModel,
        RuntimeKind::LocalClosedWeightModel,
        RuntimeKind::HostedModelApi,
        RuntimeKind::HostedModelGateway,
        RuntimeKind::ExternalProcess,
        RuntimeKind::ReplayOnly,
    ] {
        assert_eq!(runtime_kind_from_str(public_runtime_kind(kind)), Ok(kind));
    }
    assert_eq!(public_decision(Decision::Block), "fail");
    assert_eq!(public_decision(Decision::Warn), "warn");
    assert_eq!(public_plugin_trust(PluginTrustFact::Untrusted), "untrusted");
    assert_eq!(public_replay_strength(ReplayStrength::DeclaredOnly), "declared_only");
    assert_eq!(public_model_class(ModelClass::HostedApi), "hosted_api");
    assert_eq!(policy_decision_from_public("fail"), Decision::Block);
    assert_eq!(policy_decision_from_public("anything"), Decision::Block);
    assert_eq!(policy_decision_from_str("warn"), Ok(Decision::Warn));
    assert_eq!(
        policy_decision_from_str("maybe"),
        Err(HostError::InvalidInput("unknown policy decision maybe".to_string()))
    );
}

#[test]
fn facts_json_names_every_fact() {
    let facts = PolicyFacts {
        risk_class: RiskClass::High,
        requires_human_review: true,
        binding_effect_present: false,
        provider_fallbacks_allowed: true,
        plugin_trust_level: PluginTrustFact::ThirdPartyTrusted,
        runtime_kind: RuntimeKind::HostedModelApi,
        replay_strength: ReplayStrength::RequestResponseBound,
        model_class: ModelClass::ClosedWeight,
    };
    let json = facts_json(facts);
    assert_eq!(json.risk_class, "high");
    assert_eq!(json.plugin_trust_level, "third_party_trusted");
    assert_eq!(json.runtime_kind, "hosted_model_api");
    assert_eq!(json.replay_strength, "request_response_bound");
    assert_eq!(json.model_class, "closed_weight");
    assert!(json.requires_human_review && json.provider_fallbacks_allowed && !json.binding_effect_present);
}

#[test]
fn key_id_is_hash_of_public_key() {
    let key = [3u8; 32];
    let expected = format!("ed25519:{}", hex::encode(sha2::Sha256::digest(key)));
    assert_eq!(key_id_for_public(&key), expected);
}

#[test]
fn human_review_counts_only_when_approved_or_present() {
    let make = |control_type, status| ControlObservation {
        control_type,
        action_hash: Sha256Digest([1u8; 32]),
        status,
        actor_hash: Sha256Digest([2u8; 32]),
        observed_at: TimestampUtc { unix_seconds: 1, nanos: 0 },
        evidence_hash: None,
    };
    assert!(!ink_receipts::host::has_human_review(&[make(ControlType::HumanReview, ControlStatus::Rejected)]));
    assert!(!ink_receipts::host::has_human_review(&[make(ControlType::Approval, ControlStatus::Approved)]));
    assert!(ink_receipts::host::has_human_review(&[
        make(ControlType::Approval, ControlStatus::Approved),
        make(ControlType::HumanReview, ControlStatus::Present),
    ]));
}

#[test]
fn conditions_compile_after_their_operands() {
    let condition = ConditionFile::All {
        conditions: vec![
            ConditionFile::RiskClassAtLeast { value: "medium".to_string() },
            ConditionFile::ControlAbsent { value: "human_review".to_string() },
            ConditionFile::Not { condition: Box::new(ConditionFile::ProviderFallbacksAllowed { value: true }) },
        ],
    };
    let mut nodes = vec![leaf(ConditionOp::Always, ConditionValue::Empty)];
    let root = compile_condition(&condition, &mut nodes).unwrap();
    assert_eq!(nodes.len(), 8);
    assert_eq!(root, 7);
    assert_eq!(nodes[1], leaf(ConditionOp::RiskClassAtLeast, ConditionValue::RiskClass(RiskClass::Medium)));
    assert_eq!(nodes[2], leaf(ConditionOp::ControlApproved, ConditionValue::ControlType(ControlType::HumanReview)));
    assert_eq!(nodes[3], ConditionNode { op: ConditionOp::Not, left: 2, right: 0, value: ConditionValue::Empty });
    assert_eq!(nodes[4], ConditionNode { op: ConditionOp::And, left: 1, right: 3, value: ConditionValue::Empty });
    assert_eq!(nodes[5], leaf(ConditionOp::ProviderFallbacksAllowed, ConditionValue::Bool(true)));
    assert_eq!(nodes[6], ConditionNode { op: ConditionOp::Not, left: 5, right: 0, value: ConditionValue::Empty });
    assert_eq!(nodes[7], ConditionNode { op: ConditionOp::And, left: 4, right: 6, value: ConditionValue::Empty });
}

#[test]
fn condition_errors_are_invalid_input() {
    let mut nodes = Vec::new();
    assert_eq!(
        compile_condition(&ConditionFile::RuntimeKindEquals { value: "quantum".to_string() }, &mut nodes),
        Err(HostError::InvalidInput("unknown runtime kind quantum".to_string()))
    );
    assert_eq!(
        compile_condition(&ConditionFile::Any { conditions: vec![] }, &mut nodes),
        Err(HostError::InvalidInput("empty condition list".to_string()))
    );
    let mut full = vec![leaf(ConditionOp::Always, ConditionValue::Empty); 256];
    assert_eq!(
        compile_condition(&ConditionFile::Always, &mut full),
        Err(HostError::InvalidInput("too many condition nodes".to_string()))
    );
    assert_eq!(full.len(), 256);
}

fn rule(id: &str, priority: u16, decision: &str, when: ConditionFile) -> PolicyRuleFile {
    PolicyRuleFile {
        id: id.to_string(),
        priority,
        decision: decision.to_string(),
        reason_code: format!("REASON_{}", id.to_uppercase()),
        when,
    }
}

fn policy(rules: Vec<PolicyRuleFile>) -> PolicyFile {
    PolicyFile {
        schema: "ink.policy.v1".to_string(),
        id: "demo-claims".to_string(),
        version: "1".to_string(),
        default_decision: "fail".to_string(),
        rules,
    }
}

#[test]
fn policy_rules_apply_by_descending_priority_then_file_order() {
    let file = policy(vec![
        rule("low", 1, "pass", ConditionFile::Always),
        rule("first", 5, "warn", ConditionFile::RiskClassEquals { value: "high".to_string() }),
        rule("second", 5, "fail", ConditionFile::Always),
        rule("top", 9, "pass", ConditionFile::PluginTrustAtMost { value: "locally_allowed".to_string() }),
    ]);
    let raw = b"{\"schema\":\"ink.policy.v1\"}";
    let compiled = compile_policy(&file, raw).unwrap();
    let priorities: Vec<u16> = compiled.rules.iter().map(|r| r.priority).collect();
    assert_eq!(priorities, vec![9, 5, 5, 1]);
    assert_eq!(compiled.rules[1].effect.decision, Decision::Warn);
    assert_eq!(compiled.rules[2].effect.decision, Decision::Block);
    assert_eq!(&compiled.rules[1].rule_id_hash.0[..], sha2::Sha256::digest(b"first").as_slice());
    assert_eq!(compiled.rules[0].effect.reason, b"REASON_TOP".to_vec());
    assert_eq!(compiled.nodes.len(), 4);
    assert_eq!(compiled.rules[3].root, 3);
    assert_eq!(&compiled.policy_hash.0[..], sha2::Sha256::digest(raw).as_slice());
    assert_eq!(compiled.policy_id, b"demo-claims".to_vec());
    assert_eq!(compiled.default_effect.decision, Decision::Block);
    assert_eq!(compiled.default_effect.reason, b"POLICY_DEFAULT_FAIL".to_vec());
}

#[test]
fn policy_errors() {
    let mut wrong = policy(vec![]);
    wrong.schema = "ink.policy.v0".to_string();
    assert_eq!(
        compile_policy(&wrong, b"").err(),
        Some(HostError::InvalidInput("expected ink.policy.v1".to_string()))
    );
    let bad_decision = policy(vec![rule("r", 1, "maybe", ConditionFile::Always)]);
    assert_eq!(
        compile_policy(&bad_decision, b"").err(),
        Some(HostError::InvalidInput("unknown policy decision maybe".to_string()))
    );
    let bad_reason = PolicyRuleFile {
        id: "r".to_string(),
        priority: 1,
        decision: "pass".to_string(),
        reason_code: "has space".to_string(),
        when: ConditionFile::Always,
    };
    assert!(matches!(compile_policy(&policy(vec![bad_reason]), b""), Err(HostError::Core(_))));
    let mut bad_default = policy(vec![]);
    bad_default.default_decision = "never".to_string();
    assert!(compile_policy(&bad_default, b"").is_err());
    assert!(compile_policy(&policy(vec![]), b"").is_ok());
}

fn legacy_receipt(integrity: Option<JsonValue>) -> JsonValue {
    let mut members = vec![
        ("schema".to_string(), JsonValue::String("ink.receipt.v1".to_string())),
        ("receipt_id".to_string(), JsonValue::String("r1".to_string())),
    ];
    if let Some(seal) = integrity {
        members.push(("integrity".to_string(), seal));
    }
    JsonValue::Object(members)
}

fn legacy_seal(hash: &str, signature: &str) -> JsonValue {
    JsonValue::Object(vec![
        ("hash".to_string(), JsonValue::String(hash.to_string())),
        ("signature".to_string(), JsonValue::String(signature.to_string())),
    ])
}

fn expected_legacy_seal() -> (String, String) {
    let canonical = b"{\"receipt_id\":\"r1\",\"schema\":\"ink.receipt.v1\"}".to_vec();
    let hash = format!("sha256:{}", hex::encode(sha2::Sha256::digest(&canonical)));
    let mut input = canonical.clone();
    input.extend_from_slice(b"dev-secret-key-do-not-use-in-prod");
    let full = hex::encode(sha2::Sha512::digest(&input));
    (hash, format!("dev-signature:{}", &full[..64]))
}

#[test]
fn legacy_v1_receipt_with_its_seal_is_valid() {
    let (hash, signature) = expected_legacy_seal();
    let receipt = legacy_receipt(Some(legacy_seal(&hash, &signature)));
    assert!(is_legacy_v1(&receipt));
    assert_eq!(verify_legacy_v1_integrity(&receipt), Ok(true));
}

#[test]
fn legacy_v1_receipt_with_a_wrong_seal_is_not_valid() {
    let (hash, signature) = expected_legacy_seal();
    let bad_signature = legacy_receipt(Some(legacy_seal(&hash, "dev-signature:00")));
    assert_eq!(verify_legacy_v1_integrity(&bad_signature), Ok(false));
    let bad_hash = legacy_receipt(Some(legacy_seal("sha256:00", &signature)));
    assert_eq!(verify_legacy_v1_integrity(&bad_hash), Ok(false));
}

#[test]
fn legacy_v1_receipt_without_a_seal_is_refused() {
    let receipt = legacy_receipt(None);
    assert_eq!(
        verify_legacy_v1_integrity(&receipt),
        Err(HostError::InvalidInput("legacy receipt missing integrity".to_string()))
    );
    let not_object = legacy_receipt(Some(JsonValue::String("seal".to_string())));
    assert!(matches!(verify_legacy_v1_integrity(&not_object), Err(HostError::InvalidInput(_))));
}

#[test]
fn only_first_version_receipts_are_legacy() {
    let v2 = JsonValue::Object(vec![("schema".to_string(), JsonValue::String("ink.receipt.v2".to_string()))]);
    assert!(!is_legacy_v1(&v2));
    assert!(!is_legacy_v1(&JsonValue::Null));
}

#[test]
fn host_refuses_revoked_unknown_and_untrusted_reports() {
    assert_eq!(
        report_refusal("REVOKED_ISSUER_KEY", "k1"),
        Some(HostError::Trust("trusted key k1 is revoked".to_string()))
    );
    assert_eq!(
        report_refusal("UNTRUSTED_ISSUER", "k1"),
        Some(HostError::Trust("unknown trusted key k1".to_string()))
    );
    assert_eq!(
        report_refusal("REVOCATION_LIST_INVALID_SIGNATURE", "k1"),
        Some(HostError::Trust("REVOCATION_LIST_INVALID_SIGNATURE".to_string()))
    );
    assert_eq!(report_refusal("VALID_RECEIPT", "k1"), None);
    assert_eq!(report_refusal("PAYLOAD_HASH_MISMATCH", "k1"), None);
}

#[test]
fn manifest_artifact_records_size_hash_and_schema() {
    let spec = ManifestArtifactSpec {
        artifact_type: "model_output".to_string(),
        path: "out/answer.json".to_string(),
        media_type: "application/json".to_string(),
        schema_id: Some("answer.v1".to_string()),
    };
    let entry = manifest_artifact(spec, b"abc");
    assert_eq!(entry.artifact_type, "model_output");
    assert_eq!(entry.path, "out/answer.json");
    assert_eq!(entry.size_bytes, 3);
    assert_eq!(entry.hash.algorithm, "sha-256");
    assert_eq!(entry.hash.digest, "ba7816bf8f01cfea414140de5dae2223b00361a396177a9cb410ff61f20015ad");
    let schema = entry.schema.clone().unwrap();
    assert_eq!(schema.id, "answer.v1");
    assert_eq!(schema.version, "1.0.0");
    let bare = manifest_artifact(
        ManifestArtifactSpec {
            artifact_type: "log".to_string(),
            path: "log.txt".to_string(),
            media_type: "text/plain".to_string(),
            schema_id: None,
        },
        b"",
    );
    assert!(bare.schema.is_none());
    assert_eq!(bare.size_bytes, 0);
    let manifest = new_manifest("action-1", "1700000000".to_string(), vec![entry, bare]);
    assert_eq!(manifest.schema, "ink.manifest.v2");
    assert_eq!(manifest.action_id, "action-1");
    assert_eq!(manifest.created_at, "1700000000");
    assert_eq!(manifest.artifacts.len(), 2);
}
