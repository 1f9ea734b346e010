use vstd::prelude::*;

verus! {

/// A digest as JSON: its algorithm and lowercase hex text.
#[derive(Clone, Debug, PartialEq, Eq)]
pub struct DigestJson {
    pub algorithm: String,
    pub digest: String,
}

/// A schema reference.
#[derive(Clone, Debug, PartialEq, Eq)]
pub struct SchemaJson {
    pub id: String,
    pub version: String,
}

/// One artifact of a manifest.
#[derive(Clone, Debug, PartialEq, Eq)]
pub struct ManifestArtifactJson {
    pub artifact_type: String,
    pub path: String,
    pub media_type: String,
    pub size_bytes: u64,
    pub hash: DigestJson,
    pub schema: Option<SchemaJson>,
}

/// The manifest of an action's artifacts.
#[derive(Clone, Debug, PartialEq, Eq)]
pub struct ManifestJson {
    pub schema: String,
    pub action_id: String,
    pub created_at: String,
    pub artifacts: Vec<ManifestArtifactJson>,
}

/// A file of control observations.
#[derive(Clone, Debug, PartialEq, Eq)]
pub struct ControlsFile {
    pub schema: String,
    pub observations: Vec<ControlObservationJson>,
}

/// One control observation.
#[derive(Clone, Debug, PartialEq, Eq)]
pub struct ControlObservationJson {
    pub control_type: String,
    pub action_hash: String,
    pub status: String,
    pub actor_hash: String,
    pub observed_at: i64,
    pub evidence_hash: Option<DigestJson>,
}

/// The model waist of a receipt.
#[derive(Clone, Debug, PartialEq, Eq)]
pub struct ModelWaistJson {
    pub schema: String,
    pub identity: ModelIdentityJson,
    pub invocation: ModelInvocationJson,
    pub observation: ModelObservationJson,
    pub runtime: RuntimeJson,
    pub plugin: PluginJson,
}

/// Which model ran.
#[derive(Clone, Debug, PartialEq, Eq)]
pub struct ModelIdentityJson {
    pub model_class: String,
    pub model_ref_hash: DigestJson,
    pub model_slug: String,
    pub identity_evidence: IdentityEvidenceJson,
}

/// What the model was asked.
#[derive(Clone, Debug, PartialEq, Eq)]
pub struct ModelInvocationJson {
    pub action_hash: DigestJson,
    pub messages_hash: DigestJson,
    pub system_prompt_hash: Option<DigestJson>,
    pub tool_spec_hash: Option<DigestJson>,
    pub response_schema_hash: Option<DigestJson>,
    pub parameters_hash: DigestJson,
    pub requested_output: RequestedOutputJson,
}

/// What the model returned.
#[derive(Clone, Debug, PartialEq, Eq)]
pub struct ModelObservationJson {
    pub output_text_hash: Option<DigestJson>,
    pub structured_output_hash: Option<DigestJson>,
    pub provider_metadata_hash: Option<DigestJson>,
    pub finish_reason: String,
    pub usage: TokenUsageJson,
}

/// Reported token counts.
#[derive(Clone, Debug, PartialEq, Eq)]
pub struct TokenUsageJson {
    pub input_tokens: Option<u32>,
    pub output_tokens: Option<u32>,
    pub total_tokens: Option<u32>,
}

/// Where and how the model ran.
#[derive(Clone, Debug, PartialEq, Eq)]
pub struct RuntimeJson {
    pub runtime_kind: String,
    pub execution_topology: String,
    pub replay_strength: String,
    pub determinism: RuntimeDeterminismJson,
    pub isolation: RuntimeIsolationJson,
    pub provider_routing: ProviderRoutingJson,
}

/// Whether the run was deterministic and seed-bound.
#[derive(Clone, Debug, PartialEq, Eq)]
pub struct RuntimeDeterminismJson {
    pub deterministic: bool,
    pub seed_bound: bool,
}

/// Whether the run was process-isolated.
#[derive(Clone, Debug, PartialEq, Eq)]
pub struct RuntimeIsolationJson {
    pub process_isolated: bool,
}

/// How requests were routed.
#[derive(Clone, Debug, PartialEq, Eq)]
pub struct ProviderRoutingJson {
    pub fallbacks_allowed: bool,
    pub provider_pinned: bool,
    pub data_collection_policy: String,
}

/// The plugin that connected to the model.
#[derive(Clone, Debug, PartialEq, Eq)]
pub struct PluginJson {
    pub plugin_id_hash: DigestJson,
    pub plugin_version_hash: DigestJson,
    pub plugin_api_version: String,
    pub maintainer_class: String,
    pub normalization: NormalizationJson,
    pub plugin_manifest_hash: DigestJson,
    pub plugin_id_hint: String,
    pub trust_level: String,
}

/// How the plugin treated its traffic.
#[derive(Clone, Debug, PartialEq, Eq)]
pub struct NormalizationJson {
    pub input_normalized: bool,
    pub output_normalized: bool,
    pub raw_request_preserved: bool,
    pub raw_response_preserved: bool,
    pub secrets_redacted: bool,
}

/// A signed receipt, version two.
#[derive(Clone, Debug, PartialEq, Eq)]
pub struct ReceiptJson {
    pub schema: String,
    pub receipt_id: String,
    pub receipt_profile: String,
    pub action_id: String,
    pub issued_at: i64,
    pub issuer: IssuerJson,
    pub manifest_hash: DigestJson,
    pub policy: PolicyBindingJson,
    pub runtime: RuntimeJson,
    pub model: ModelWaistJson,
    pub facts: PolicyFactsJson,
    pub decision: String,
    pub reason_codes: Vec<String>,
    pub evidence_summary_hash: DigestJson,
    pub controls_summary_hash: DigestJson,
    pub signing: SigningJson,
}

/// The issuer of a receipt.
#[derive(Clone, Debug, PartialEq, Eq)]
pub struct IssuerJson {
    pub name: String,
    pub key_id: String,
    pub public_key: String,
}

/// The policy a receipt was decided under.
#[derive(Clone, Debug, PartialEq, Eq)]
pub struct PolicyBindingJson {
    pub id: String,
    pub version: String,
    pub hash: DigestJson,
}

/// The policy facts of a receipt.
#[derive(Clone, Debug, PartialEq, Eq)]
pub struct PolicyFactsJson {
    pub risk_class: String,
    pub requires_human_review: bool,
    pub binding_effect_present: bool,
    pub provider_fallbacks_allowed: bool,
    pub plugin_trust_level: String,
    pub runtime_kind: String,
    pub replay_strength: String,
    pub model_class: String,
}

/// How a document was signed.
#[derive(Clone, Debug, PartialEq, Eq)]
pub struct SigningJson {
    pub transcript_encoding: String,
    pub payload_hash: DigestJson,
    pub algorithm: String,
    pub key_id: String,
    pub signature: String,
}

/// The issuers a verifier trusts, and, in a registry of the second version,
/// the authorities whose keys sign trust documents.
#[derive(Clone, Debug, PartialEq, Eq)]
pub struct TrustRegistryJson {
    pub schema: String,
    pub issuers: Vec<TrustedIssuerJson>,
    pub trust_authorities: Vec<TrustAuthorityJson>,
}

/// One trusted issuer key: its status (the first version) or state (the
/// second), and, in the second version, what the key is used for.
#[derive(Clone, Debug, PartialEq, Eq)]
pub struct TrustedIssuerJson {
    pub key_id: String,
    pub algorithm: String,
    pub public_key: String,
    pub issuer_name: String,
    pub org_name: String,
    pub status: String,
    pub usage: Option<String>,
}

/// A key that signs trust documents.
#[derive(Clone, Debug, PartialEq, Eq)]
pub struct TrustAuthorityJson {
    pub key_id: String,
    pub algorithm: String,
    pub public_key: String,
    pub state: String,
}

/// A signed list of revoked keys.
#[derive(Clone, Debug, PartialEq, Eq)]
pub struct RevocationListJson {
    pub schema: String,
    pub revoked_keys: Vec<RevokedKeyJson>,
    pub signing: SigningJson,
}

/// One revoked key.
#[derive(Clone, Debug, PartialEq, Eq)]
pub struct RevokedKeyJson {
    pub key_id: String,
    pub reason: String,
    pub revoked_at: String,
}

/// What a verifier requires of a receipt.
#[derive(Clone, Debug, PartialEq, Eq)]
pub struct VerifyPolicyJson {
    pub schema: String,
    pub policy_id: String,
    pub require_canonical_tlv_v2: bool,
    pub allow_verify_only_formats: bool,
    pub require_trusted_issuer: bool,
    pub require_revocation_check: bool,
    pub require_manifest_hash_match_when_manifest_present: bool,
    pub require_evidence_summary_match_when_manifest_present: bool,
    pub require_controls_summary_match_when_controls_present: bool,
    pub allow_network: bool,
}

/// One check of a verification report.
#[derive(Clone, Debug, PartialEq, Eq)]
pub struct VerificationCheck {
    pub id: String,
    pub status: String,
    pub reason_code: String,
}

/// The report of a receipt verification.
#[derive(Clone, Debug, PartialEq, Eq)]
pub struct VerificationReportJson {
    pub schema: String,
    pub status: String,
    pub code: String,
    pub transcript_encoding: String,
    pub receipt_profile: String,
    pub issuer: String,
    pub key_id: String,
    pub payload_digest_alg: String,
    pub payload_digest_hex: String,
    pub signature_valid: bool,
    pub trusted_issuer: bool,
    pub revocation_checked: bool,
    pub revocation_ok: bool,
    pub policy_accepted: bool,
    pub verification_engine: String,
    pub network_required: bool,
    pub scope: String,
    pub checks: Vec<VerificationCheck>,
}

/// How a model's identity was established.
#[derive(Clone, Debug, PartialEq, Eq)]
pub enum IdentityEvidenceJson {
    Declared,
    ProviderDeclared { provider_model_id_hash: DigestJson },
    LocalFilesHashed { weights_hash: DigestJson, tokenizer_hash: Option<DigestJson>, config_hash: Option<DigestJson> },
    ContainerHashed { image_hash: DigestJson },
}

/// The form of output the model was asked for.
#[derive(Clone, Debug, PartialEq, Eq)]
pub enum RequestedOutputJson {
    FreeText,
    JsonSchema { schema_hash: DigestJson },
    ToolCall { tool_spec_hash: DigestJson },
}

/// A JSON value, with numbers kept as the text that `serde_json` prints.
#[derive(Debug)]
pub enum JsonValue {
    Null,
    Bool(bool),
    Number(String),
    String(String),
    Array(Vec<JsonValue>),
    Object(Vec<(String, JsonValue)>),
}

} // verus!
