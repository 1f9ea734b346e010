//! Issuing a receipt for a hosted workflow: the manifest of its body and
//! metadata, the declared model waist of the hosted gateway, the facts and
//! decision, and the receipt whose transcript digest the signer signs.
use vstd::prelude::*;
use vstd::string::StringSliceAdditionalSpecFns;
use vstd::utf8::encode_utf8;
use crate::codec::hex_lower;
use crate::crypto::{base64url_decode_spec, ed25519_public_spec, ed25519_sign_spec, ed25519_verify_spec, sha256_spec};
use crate::host::policy::{policy_decision_from_str, policy_decision_of};
use crate::host::verify::{find_member, member_value};
use crate::host::{
    encoding_note, ensure_issueable_receipt_encoding, facts_json, host_error, public_decision, public_decision_name,
    HostError,
};
use crate::legacy::policy::{Decision, PluginTrustFact, PolicyFacts, ReasonCodeSlot, RiskClass};
use crate::legacy::receipt::{payload_error, v2_transcript, ReceiptPayload};
use crate::model_waist::{ModelClass, ReplayStrength, RuntimeKind};
use crate::proofmail::{decimal, decimal_text};
use crate::receipt_v2::check::digest_json;
use crate::receipt_v2::hashing::{controls_transcript, evidence_transcript, manifest_hash_spec};
use crate::receipt_v2::json::{
    DigestJson, IdentityEvidenceJson, IssuerJson, JsonValue, ManifestArtifactJson, ManifestJson, ModelIdentityJson,
    ModelInvocationJson, ModelObservationJson, ModelWaistJson, NormalizationJson, PluginJson, PolicyBindingJson,
    ProviderRoutingJson, ReceiptJson, RequestedOutputJson, RuntimeDeterminismJson, RuntimeIsolationJson, RuntimeJson,
    SchemaJson, SigningJson, TokenUsageJson,
};
use crate::receipt_v2::normalize::{payload_matches, risk_class_of};
use crate::receipt_v2::{owned_text, RECEIPT_ENCODING_TLV_V2};
use crate::text::concat;
use crate::types::Sha256Digest;

verus! {

/// A request to issue a receipt for a hosted workflow.
#[derive(Debug)]
pub struct HostedReceiptIssueRequest {
    pub receipt_id: Option<String>,
    pub action_id: String,
    pub workflow_kind: String,
    pub schema_key: String,
    pub schema_version: String,
    pub body_json: JsonValue,
    pub domain_metadata: JsonValue,
    pub decision: Option<String>,
    pub issued_at: Option<i64>,
    pub policy_id: Option<String>,
    pub policy_version: Option<String>,
}

/// The signer a host issues with, as far as issuing needs it: its issuer
/// name, key identifier and public key, the encoding it signs, and whether it
/// is the demonstration backend, which needs explicit consent.
#[derive(Clone, Debug)]
pub struct HostedIssuer {
    pub issuer_name: String,
    pub key_id: String,
    pub public_key: [u8; 32],
    pub receipt_encoding: String,
    pub demo_backend: bool,
}

/// A hosted receipt before its signature: the receipt with an empty payload
/// hash and signature, its manifest and manifest hash, and the digest to sign.
#[derive(Debug)]
pub struct PreparedHostedReceipt {
    pub receipt: ReceiptJson,
    pub manifest: ManifestJson,
    pub manifest_hash: Sha256Digest,
    pub digest: Sha256Digest,
}

/// The reason code of a hosted receipt.
pub const HOSTED_REASON_CODE: &'static str = "HOSTED_WORKFLOW_ISSUED";
/// The policy a hosted receipt names when the request names none.
pub const HOSTED_POLICY_ID: &'static str = "HOSTED_WORKFLOW_POLICY";
/// The policy version a hosted receipt names when the request names none.
pub const HOSTED_POLICY_VERSION: &'static str = "1.0.0";

/// The message of a refused demonstration signer.
pub open spec fn demo_refusal_text() -> Seq<char> {
    "hosted issuance requires a non-demo signer backend"@
}

/// Whether `d` is the JSON form of the SHA-256 digest of `bytes`.
pub open spec fn digest_of(d: DigestJson, bytes: Seq<u8>) -> bool {
    &&& d.algorithm@ == "sha-256"@
    &&& d.digest@ == hex_lower(sha256_spec(bytes))
}

fn digest_json_of(bytes: &[u8]) -> (r: DigestJson)
    ensures
        digest_of(r, bytes@),
{
    digest_json(&crate::digest::sha256(bytes))
}

/// The text of a signed number.
pub open spec fn signed_decimal(n: int) -> Seq<char> {
    if n < 0 { "-"@ + decimal((-n) as nat) } else { decimal(n as nat) }
}

fn signed_decimal_text(n: i64) -> (r: String)
    ensures
        r@ == signed_decimal(n as int),
{
    if n < 0 {
        let magnitude: i128 = -(n as i128);
        let digits = decimal_text(magnitude as u64);
        concat("-", digits.as_str())
    } else {
        decimal_text(n as u64)
    }
}

/// The runtime of the hosted gateway: remote, declared only, not
/// deterministic, process isolated, pinned to its provider without fallbacks.
pub open spec fn hosted_runtime_ok(rt: RuntimeJson) -> bool {
    &&& rt.runtime_kind@ == "hosted_model_gateway"@
    &&& rt.execution_topology@ == "remote_gateway"@
    &&& rt.replay_strength@ == "declared_only"@
    &&& !rt.determinism.deterministic && !rt.determinism.seed_bound
    &&& rt.isolation.process_isolated
    &&& !rt.provider_routing.fallbacks_allowed
    &&& rt.provider_routing.provider_pinned
    &&& rt.provider_routing.data_collection_policy@ == "declared_deny"@
}

fn hosted_runtime() -> (r: RuntimeJson)
    ensures
        hosted_runtime_ok(r),
{
    RuntimeJson {
        runtime_kind: owned_text("hosted_model_gateway"),
        execution_topology: owned_text("remote_gateway"),
        replay_strength: owned_text("declared_only"),
        determinism: RuntimeDeterminismJson { deterministic: false, seed_bound: false },
        isolation: RuntimeIsolationJson { process_isolated: true },
        provider_routing: ProviderRoutingJson {
            fallbacks_allowed: false,
            provider_pinned: true,
            data_collection_policy: owned_text("declared_deny"),
        },
    }
}

/// The model waist a hosted receipt declares: a hosted API behind the gateway,
/// whose messages are the workflow body and whose parameters are the domain
/// metadata, answering in the workflow's schema, through the first-party
/// workflow plugin.
#[verifier::opaque]
pub open spec fn hosted_model_ok(m: ModelWaistJson, request: HostedReceiptIssueRequest, body: Seq<u8>, metadata: Seq<u8>) -> bool {
    &&& m.schema@ == "ink.model-waist.v1"@
    &&& m.identity.model_class@ == "hosted_api"@
    &&& digest_of(m.identity.model_ref_hash, "blkbx-lab:hosted-workflow".spec_bytes())
    &&& m.identity.model_slug@ == "hosted-workflow"@
    &&& m.identity.identity_evidence == IdentityEvidenceJson::Declared
    &&& digest_of(m.invocation.action_hash, encode_utf8(request.action_id@))
    &&& digest_of(m.invocation.messages_hash, body)
    &&& m.invocation.system_prompt_hash is None
    &&& m.invocation.tool_spec_hash is None
    &&& (m.invocation.response_schema_hash matches Some(d) && digest_of(d, encode_utf8(request.schema_key@)))
    &&& digest_of(m.invocation.parameters_hash, metadata)
    &&& (m.invocation.requested_output matches RequestedOutputJson::JsonSchema { schema_hash }
        && digest_of(schema_hash, encode_utf8(request.schema_key@)))
    &&& m.observation.output_text_hash is None
    &&& (m.observation.structured_output_hash matches Some(d) && digest_of(d, body))
    &&& (m.observation.provider_metadata_hash matches Some(d) && digest_of(d, metadata))
    &&& m.observation.finish_reason@ == "stop"@
    &&& m.observation.usage.input_tokens is None
    &&& m.observation.usage.output_tokens is None
    &&& m.observation.usage.total_tokens is None
    &&& hosted_runtime_ok(m.runtime)
    &&& digest_of(m.plugin.plugin_id_hash, encode_utf8(request.workflow_kind@))
    &&& digest_of(m.plugin.plugin_version_hash, encode_utf8(request.schema_version@))
    &&& m.plugin.plugin_api_version@ == "v1"@
    &&& m.plugin.maintainer_class@ == "first_party_reference"@
    &&& m.plugin.normalization.input_normalized && m.plugin.normalization.output_normalized
    &&& m.plugin.normalization.raw_request_preserved && !m.plugin.normalization.raw_response_preserved
    &&& m.plugin.normalization.secrets_redacted
    &&& digest_of(m.plugin.plugin_manifest_hash, "blkbx-lab:hosted-workflow-plugin".spec_bytes())
    &&& m.plugin.plugin_id_hint@ == request.workflow_kind@
    &&& m.plugin.trust_level@ == "first_party_reference"@
}

/// The model waist of a hosted receipt, from the canonical bytes of its body
/// and metadata.
pub fn hosted_model_json(request: &HostedReceiptIssueRequest, body_bytes: &[u8], metadata_bytes: &[u8]) -> (r: ModelWaistJson)
    ensures
        hosted_model_ok(r, *request, body_bytes@, metadata_bytes@),
{
    reveal(hosted_model_ok);
    ModelWaistJson {
        schema: owned_text("ink.model-waist.v1"),
        identity: ModelIdentityJson {
            model_class: owned_text("hosted_api"),
            model_ref_hash: digest_json_of("blkbx-lab:hosted-workflow".as_bytes()),
            model_slug: owned_text("hosted-workflow"),
            identity_evidence: IdentityEvidenceJson::Declared,
        },
        invocation: ModelInvocationJson {
            action_hash: digest_json_of(request.action_id.as_str().as_bytes()),
            messages_hash: digest_json_of(body_bytes),
            system_prompt_hash: None,
            tool_spec_hash: None,
            response_schema_hash: Some(digest_json_of(request.schema_key.as_str().as_bytes())),
            parameters_hash: digest_json_of(metadata_bytes),
            requested_output: RequestedOutputJson::JsonSchema {
                schema_hash: digest_json_of(request.schema_key.as_str().as_bytes()),
            },
        },
        observation: ModelObservationJson {
            output_text_hash: None,
            structured_output_hash: Some(digest_json_of(body_bytes)),
            provider_metadata_hash: Some(digest_json_of(metadata_bytes)),
            finish_reason: owned_text("stop"),
            usage: TokenUsageJson { input_tokens: None, output_tokens: None, total_tokens: None },
        },
        runtime: hosted_runtime(),
        plugin: PluginJson {
            plugin_id_hash: digest_json_of(request.workflow_kind.as_str().as_bytes()),
            plugin_version_hash: digest_json_of(request.schema_version.as_str().as_bytes()),
            plugin_api_version: owned_text("v1"),
            maintainer_class: owned_text("first_party_reference"),
            normalization: NormalizationJson {
                input_normalized: true,
                output_normalized: true,
                raw_request_preserved: true,
                raw_response_preserved: false,
                secrets_redacted: true,
            },
            plugin_manifest_hash: digest_json_of("blkbx-lab:hosted-workflow-plugin".as_bytes()),
            plugin_id_hint: request.workflow_kind.clone(),
            trust_level: owned_text("first_party_reference"),
        },
    }
}

/// The manifest of a hosted receipt: the workflow body, under the request's
/// schema, and the domain metadata, as JSON artifacts.
#[verifier::opaque]
pub open spec fn hosted_manifest_ok(m: ManifestJson, request: HostedReceiptIssueRequest, created_at: Seq<char>, body: Seq<u8>, metadata: Seq<u8>) -> bool {
    &&& m.schema@ == crate::receipt_v2::MANIFEST_SCHEMA_V2@
    &&& m.action_id@ == request.action_id@
    &&& m.created_at@ == created_at
    &&& m.artifacts@.len() == 2
    &&& m.artifacts@[0].artifact_type@ == "workflow_body_json"@
    &&& m.artifacts@[0].path@ == "workflow-body.json"@
    &&& m.artifacts@[0].media_type@ == "application/json"@
    &&& m.artifacts@[0].size_bytes == body.len()
    &&& digest_of(m.artifacts@[0].hash, body)
    &&& (m.artifacts@[0].schema matches Some(s) && s.id@ == request.schema_key@ && s.version@ == request.schema_version@)
    &&& m.artifacts@[1].artifact_type@ == "domain_metadata_json"@
    &&& m.artifacts@[1].path@ == "domain-metadata.json"@
    &&& m.artifacts@[1].media_type@ == "application/json"@
    &&& m.artifacts@[1].size_bytes == metadata.len()
    &&& digest_of(m.artifacts@[1].hash, metadata)
    &&& m.artifacts@[1].schema is None
}

fn hosted_manifest(request: &HostedReceiptIssueRequest, created_at: String, body_bytes: &[u8], metadata_bytes: &[u8]) -> (r: ManifestJson)
    ensures
        hosted_manifest_ok(r, *request, created_at@, body_bytes@, metadata_bytes@),
        r.created_at == created_at,
{
    reveal(hosted_manifest_ok);
    let body = ManifestArtifactJson {
        artifact_type: owned_text("workflow_body_json"),
        path: owned_text("workflow-body.json"),
        media_type: owned_text("application/json"),
        size_bytes: body_bytes.len() as u64,
        hash: digest_json_of(body_bytes),
        schema: Some(SchemaJson { id: request.schema_key.clone(), version: request.schema_version.clone() }),
    };
    let metadata = ManifestArtifactJson {
        artifact_type: owned_text("domain_metadata_json"),
        path: owned_text("domain-metadata.json"),
        media_type: owned_text("application/json"),
        size_bytes: metadata_bytes.len() as u64,
        hash: digest_json_of(metadata_bytes),
        schema: None,
    };
    let artifacts = vec![body, metadata];
    ManifestJson {
        schema: owned_text(crate::receipt_v2::MANIFEST_SCHEMA_V2),
        action_id: request.action_id.clone(),
        created_at,
        artifacts,
    }
}

/// The text of a member of a JSON object, where it is a string.
pub open spec fn metadata_text(v: JsonValue, key: Seq<char>) -> Option<Seq<char>> {
    match v {
        JsonValue::Object(ms) => match member_value(ms@, key) {
            Some(JsonValue::String(s)) => Some(s@),
            _ => None,
        },
        _ => None,
    }
}

/// The flag of a member of a JSON object, where it is a boolean.
pub open spec fn metadata_flag(v: JsonValue, key: Seq<char>) -> Option<bool> {
    match v {
        JsonValue::Object(ms) => match member_value(ms@, key) {
            Some(JsonValue::Bool(b)) => Some(b),
            _ => None,
        },
        _ => None,
    }
}

fn metadata_str<'a>(v: &'a JsonValue, key: &str) -> (r: Option<&'a str>)
    ensures
        metadata_text(*v, key@) matches Some(t) ==> (r matches Some(s) && s@ == t),
        metadata_text(*v, key@) is None ==> r is None,
{
    match v {
        JsonValue::Object(ms) => match find_member(ms, key) {
            Some(JsonValue::String(s)) => Some(s.as_str()),
            _ => None,
        },
        _ => None,
    }
}

fn metadata_bool(v: &JsonValue, key: &str) -> (r: Option<bool>)
    ensures
        r == metadata_flag(*v, key@),
{
    match v {
        JsonValue::Object(ms) => match find_member(ms, key) {
            Some(JsonValue::Bool(b)) => Some(*b),
            _ => None,
        },
        _ => None,
    }
}

/// The risk class a hosted request's metadata names: its `risk_class` text,
/// `medium` where it names none.
pub open spec fn hosted_risk_text(metadata: JsonValue) -> Seq<char> {
    match metadata_text(metadata, "risk_class"@) {
        Some(t) => t,
        None => "medium"@,
    }
}

/// The facts of a hosted receipt: the metadata's risk class and review flag
/// (no review where it says nothing), no binding effect, no provider
/// fallbacks, the first-party plugin and the hosted gateway's runtime and
/// model class.
pub open spec fn hosted_facts(metadata: JsonValue, risk: RiskClass) -> PolicyFacts {
    PolicyFacts {
        risk_class: risk,
        requires_human_review: match metadata_flag(metadata, "requires_human_review"@) {
            Some(b) => b,
            None => false,
        },
        binding_effect_present: false,
        provider_fallbacks_allowed: false,
        plugin_trust_level: PluginTrustFact::FirstPartyReference,
        runtime_kind: RuntimeKind::HostedModelGateway,
        replay_strength: ReplayStrength::DeclaredOnly,
        model_class: ModelClass::HostedApi,
    }
}

/// The decision a hosted request asks for: its own, `warn` where it names none.
pub open spec fn hosted_decision_text(request: HostedReceiptIssueRequest) -> Seq<char> {
    match request.decision {
        Some(d) => d@,
        None => "warn"@,
    }
}

/// The policy a hosted receipt names, its version, and the text whose hash
/// binds them to the workflow and its schema.
pub open spec fn hosted_policy_id(request: HostedReceiptIssueRequest) -> Seq<char> {
    match request.policy_id {
        Some(p) => p@,
        None => HOSTED_POLICY_ID@,
    }
}

pub open spec fn hosted_policy_version(request: HostedReceiptIssueRequest) -> Seq<char> {
    match request.policy_version {
        Some(p) => p@,
        None => HOSTED_POLICY_VERSION@,
    }
}

pub open spec fn hosted_policy_text(request: HostedReceiptIssueRequest) -> Seq<char> {
    hosted_policy_id(request) + ":"@ + hosted_policy_version(request) + ":"@ + request.workflow_kind@ + ":"@ + request.schema_key@
}

/// The identifier of a hosted receipt: the request's, else
/// `urn:ink:receipt:hosted:`, the issue time, `:` and the hex text of the first
/// six bytes of the body's digest.
pub open spec fn hosted_receipt_id(request: HostedReceiptIssueRequest, issued_at: i64, body: Seq<u8>) -> Seq<char> {
    match request.receipt_id {
        Some(id) => id@,
        None => "urn:ink:receipt:hosted:"@ + signed_decimal(issued_at as int) + ":"@
            + hex_lower(sha256_spec(body).subrange(0, 6)),
    }
}

fn hosted_receipt_id_text(request: &HostedReceiptIssueRequest, issued_at: i64, body_bytes: &[u8]) -> (r: String)
    ensures
        r@ == hosted_receipt_id(*request, issued_at, body_bytes@),
{
    match &request.receipt_id {
        Some(id) => id.clone(),
        None => {
            let digest = crate::digest::sha256(body_bytes);
            let head: &[u8] = &digest.0.as_slice()[0..6];
            assert(head@ =~= sha256_spec(body_bytes@).subrange(0, 6));
            let hex = crate::codec::hex_encode(head);
            let time = signed_decimal_text(issued_at);
            let a = concat("urn:ink:receipt:hosted:", time.as_str());
            let b = concat(a.as_str(), ":");
            concat(b.as_str(), hex.as_str())
        },
    }
}

/// Whether `rc` is the unsigned receipt of a hosted workflow: every field as
/// the request, the issuer and the computed hashes give it, with one reason
/// code and an empty payload hash and signature under the issuer's encoding.
#[verifier::opaque]
pub open spec fn hosted_receipt_ok(
    rc: ReceiptJson,
    request: HostedReceiptIssueRequest,
    issuer: HostedIssuer,
    issued_at: i64,
    facts: PolicyFacts,
    decision: Decision,
    manifest: ManifestJson,
    body: Seq<u8>,
    metadata: Seq<u8>,
) -> bool {
    &&& rc.schema@ == crate::receipt_v2::RECEIPT_SCHEMA_V2@
    &&& rc.receipt_id@ == hosted_receipt_id(request, issued_at, body)
    &&& rc.receipt_profile@ == crate::receipt_v2::RECEIPT_PROFILE@
    &&& rc.action_id@ == request.action_id@
    &&& rc.issued_at == issued_at
    &&& rc.issuer.name@ == issuer.issuer_name@
    &&& rc.issuer.key_id@ == issuer.key_id@
    &&& base64url_decode_spec(rc.issuer.public_key@) == Some(issuer.public_key@)
    &&& rc.manifest_hash.algorithm@ == "sha-256"@
    &&& rc.manifest_hash.digest@ == hex_lower(manifest_hash_spec(manifest))
    &&& rc.policy.id@ == hosted_policy_id(request)
    &&& rc.policy.version@ == hosted_policy_version(request)
    &&& digest_of(rc.policy.hash, encode_utf8(hosted_policy_text(request)))
    &&& hosted_runtime_ok(rc.runtime)
    &&& hosted_model_ok(rc.model, request, body, metadata)
    &&& risk_class_of(rc.facts.risk_class@) == Some(facts.risk_class)
    &&& rc.facts.requires_human_review == facts.requires_human_review
    &&& rc.facts.binding_effect_present == facts.binding_effect_present
    &&& rc.facts.provider_fallbacks_allowed == facts.provider_fallbacks_allowed
    &&& rc.decision@ == public_decision_name(decision)
    &&& rc.reason_codes@.len() == 1
    &&& rc.reason_codes@[0]@ == HOSTED_REASON_CODE@
    &&& rc.evidence_summary_hash.algorithm@ == "sha-256"@
    &&& rc.evidence_summary_hash.digest@ == hex_lower(sha256_spec(evidence_transcript(Seq::empty(), manifest.artifacts@)))
    &&& rc.controls_summary_hash.algorithm@ == "sha-256"@
    &&& rc.controls_summary_hash.digest@ == hex_lower(sha256_spec(controls_transcript(Seq::empty(), Seq::empty())))
    &&& rc.signing.transcript_encoding@ == issuer.receipt_encoding@
    &&& rc.signing.payload_hash.algorithm@ == "sha-256"@
    &&& rc.signing.payload_hash.digest@ == Seq::<char>::empty()
    &&& rc.signing.algorithm@ == "Ed25519"@
    &&& rc.signing.key_id@ == issuer.key_id@
    &&& rc.signing.signature@ == Seq::<char>::empty()
}

/// Whether a receipt reads as a valid payload, its reasons the bytes of its
/// reason codes, whose transcript has the SHA-256 digest `digest`.
#[verifier::opaque]
pub open spec fn reads_with_digest(receipt: ReceiptJson, digest: Seq<u8>) -> bool {
    exists|pl: ReceiptPayload| #[trigger] payload_matches(pl, receipt, pl.reasons@)
        && crate::receipt_v2::check::slots_match(pl.reasons@, receipt.reason_codes@)
        && payload_error(pl) is None
        && digest == sha256_spec(v2_transcript(Seq::empty(), pl))
}

/// Whether `p` is what preparing a hosted receipt gives: the manifest, its
/// hash, the unsigned receipt, and the digest of the transcript of the
/// payload read from that receipt.
#[verifier::opaque]
pub open spec fn prepared_ok(
    p: PreparedHostedReceipt,
    request: HostedReceiptIssueRequest,
    issuer: HostedIssuer,
    body: Seq<u8>,
    metadata: Seq<u8>,
) -> bool {
    &&& hosted_manifest_ok(p.manifest, request, p.manifest.created_at@, body, metadata)
    &&& (request.issued_at matches Some(t) ==> p.receipt.issued_at == t)
    &&& (crate::clock::rfc3339_seconds_spec(p.receipt.issued_at) matches Some(t) ==> p.manifest.created_at@ == t)
    &&& p.manifest_hash@ == manifest_hash_spec(p.manifest)
    &&& risk_class_of(hosted_risk_text(request.domain_metadata)) is Some
    &&& policy_decision_of(hosted_decision_text(request)) is Some
    &&& hosted_receipt_ok(
        p.receipt, request, issuer, p.receipt.issued_at,
        hosted_facts(request.domain_metadata, risk_class_of(hosted_risk_text(request.domain_metadata))->Some_0),
        policy_decision_of(hosted_decision_text(request))->Some_0,
        p.manifest, body, metadata,
    )
    &&& reads_with_digest(p.receipt, p.digest@)
}

proof fn lemma_prepared(
    p: PreparedHostedReceipt,
    request: HostedReceiptIssueRequest,
    issuer: HostedIssuer,
    body: Seq<u8>,
    metadata: Seq<u8>,
    risk: RiskClass,
    decision: Decision,
)
    requires
        hosted_manifest_ok(p.manifest, request, p.manifest.created_at@, body, metadata),
        request.issued_at matches Some(t) ==> p.receipt.issued_at == t,
        crate::clock::rfc3339_seconds_spec(p.receipt.issued_at) matches Some(t) ==> p.manifest.created_at@ == t,
        p.manifest_hash@ == manifest_hash_spec(p.manifest),
        risk_class_of(hosted_risk_text(request.domain_metadata)) == Some(risk),
        policy_decision_of(hosted_decision_text(request)) == Some(decision),
        hosted_receipt_ok(p.receipt, request, issuer, p.receipt.issued_at, hosted_facts(request.domain_metadata, risk), decision, p.manifest, body, metadata),
        reads_with_digest(p.receipt, p.digest@),
    ensures
        prepared_ok(p, request, issuer, body, metadata),
{
    reveal(prepared_ok);
}

/// The unsigned receipt of a hosted workflow from its computed parts.
#[verifier::spinoff_prover]
fn build_hosted_receipt(
    request: &HostedReceiptIssueRequest,
    issuer: &HostedIssuer,
    issued_at: i64,
    manifest: &ManifestJson,
    manifest_hash: &Sha256Digest,
    evidence_summary_hash: &Sha256Digest,
    controls_summary_hash: &Sha256Digest,
    receipt_id: String,
    model_json: ModelWaistJson,
    facts: PolicyFacts,
    decision: Decision,
    body_bytes: &[u8],
    metadata_bytes: &[u8],
) -> (r: ReceiptJson)
    requires
        manifest_hash@ == manifest_hash_spec(*manifest),
        evidence_summary_hash@ == sha256_spec(evidence_transcript(Seq::empty(), manifest.artifacts@)),
        controls_summary_hash@ == sha256_spec(controls_transcript(Seq::empty(), Seq::empty())),
        receipt_id@ == hosted_receipt_id(*request, issued_at, body_bytes@),
        hosted_model_ok(model_json, *request, body_bytes@, metadata_bytes@),
    ensures
        hosted_receipt_ok(r, *request, *issuer, issued_at, facts, decision, *manifest, body_bytes@, metadata_bytes@),
        r.issued_at == issued_at,
{
    reveal(hosted_receipt_ok);
    let policy_id = match &request.policy_id {
        Some(p) => p.clone(),
        None => owned_text(HOSTED_POLICY_ID),
    };
    let policy_version = match &request.policy_version {
        Some(p) => p.clone(),
        None => owned_text(HOSTED_POLICY_VERSION),
    };
    let a = concat(policy_id.as_str(), ":");
    let b = concat(a.as_str(), policy_version.as_str());
    let c = concat(b.as_str(), ":");
    let d = concat(c.as_str(), request.workflow_kind.as_str());
    let e = concat(d.as_str(), ":");
    let policy_text = concat(e.as_str(), request.schema_key.as_str());
    ReceiptJson {
        schema: owned_text(crate::receipt_v2::RECEIPT_SCHEMA_V2),
        receipt_id,
        receipt_profile: owned_text(crate::receipt_v2::RECEIPT_PROFILE),
        action_id: request.action_id.clone(),
        issued_at,
        issuer: IssuerJson {
            name: issuer.issuer_name.clone(),
            key_id: issuer.key_id.clone(),
            public_key: crate::crypto::base64url_encode(issuer.public_key.as_slice()),
        },
        manifest_hash: digest_json(&manifest_hash),
        policy: PolicyBindingJson { id: policy_id, version: policy_version, hash: digest_json_of(policy_text.as_str().as_bytes()) },
        runtime: hosted_runtime(),
        model: model_json,
        facts: facts_json(facts),
        decision: owned_text(public_decision(decision)),
        reason_codes: vec![owned_text(HOSTED_REASON_CODE)],
        evidence_summary_hash: digest_json(&evidence_summary_hash),
        controls_summary_hash: digest_json(&controls_summary_hash),
        signing: SigningJson {
            transcript_encoding: issuer.receipt_encoding.clone(),
            payload_hash: DigestJson { algorithm: owned_text("sha-256"), digest: String::new() },
            algorithm: owned_text("Ed25519"),
            key_id: issuer.key_id.clone(),
            signature: String::new(),
        },
    }
}

/// What computing the transcript digest of a receipt gives: the failure of
/// reading its model, of checking the model, of reading its other fields, or
/// of checking the payload it reads as (with its reason codes as reasons), in
/// that order; otherwise the digest of that payload's transcript.
pub open spec fn digest_outcome(r: Result<Sha256Digest, HostError>, receipt: ReceiptJson) -> bool {
    match crate::receipt_v2::normalize::model_json_error(receipt.model) {
        Some(e) => r matches Err(x) && crate::host::host_error_is(x, e),
        None => forall|w: crate::model_waist::ModelWaist|
            #[trigger] crate::receipt_v2::normalize::model_matches(w, receipt.model) ==> match crate::model_waist::model_error(w) {
                Some(e) => r == Err::<Sha256Digest, HostError>(HostError::Core(e)),
                None => match crate::receipt_v2::normalize::after_model_error(receipt) {
                    Some(e) => r matches Err(x) && crate::host::host_error_is(x, e),
                    None => forall|p: ReceiptPayload|
                        #[trigger] payload_matches(p, receipt, p.reasons@)
                            && crate::receipt_v2::check::slots_match(p.reasons@, receipt.reason_codes@)
                        ==> match payload_error(p) {
                            Some(e) => r == Err::<Sha256Digest, HostError>(HostError::Core(e)),
                            None => r matches Ok(d) && d@ == sha256_spec(v2_transcript(Seq::empty(), p)),
                        },
                },
            },
    }
}

proof fn lemma_digest_outcome(
    pr: crate::receipt_v2::Result<ReceiptPayload>,
    r: Result<Sha256Digest, HostError>,
    receipt: ReceiptJson,
    slots: Seq<ReasonCodeSlot>,
)
    requires
        crate::receipt_v2::check::slots_match(slots, receipt.reason_codes@),
        crate::receipt_v2::check::read_outcome(pr, receipt, slots),
        pr matches Err(e) ==> (r matches Err(x) && crate::host::host_error_is(x, e@)),
        pr matches Ok(pl) ==> r matches Ok(d) && d@ == sha256_spec(v2_transcript(Seq::empty(), pl)),
    ensures
        digest_outcome(r, receipt),
{
    if crate::receipt_v2::normalize::model_json_error(receipt.model) is None {
        assert forall|w: crate::model_waist::ModelWaist|
            #[trigger] crate::receipt_v2::normalize::model_matches(w, receipt.model) implies match crate::model_waist::model_error(w) {
                Some(e) => r == Err::<Sha256Digest, HostError>(HostError::Core(e)),
                None => match crate::receipt_v2::normalize::after_model_error(receipt) {
                    Some(e) => r matches Err(x) && crate::host::host_error_is(x, e),
                    None => forall|p: ReceiptPayload|
                        #[trigger] payload_matches(p, receipt, p.reasons@)
                            && crate::receipt_v2::check::slots_match(p.reasons@, receipt.reason_codes@)
                        ==> match payload_error(p) {
                            Some(e) => r == Err::<Sha256Digest, HostError>(HostError::Core(e)),
                            None => r matches Ok(d) && d@ == sha256_spec(v2_transcript(Seq::empty(), p)),
                        },
                },
            } by {
            if crate::model_waist::model_error(w) is None && crate::receipt_v2::normalize::after_model_error(receipt) is None {
                assert forall|p: ReceiptPayload|
                    #[trigger] payload_matches(p, receipt, p.reasons@)
                        && crate::receipt_v2::check::slots_match(p.reasons@, receipt.reason_codes@)
                    implies match payload_error(p) {
                        Some(e) => r == Err::<Sha256Digest, HostError>(HostError::Core(e)),
                        None => r matches Ok(d) && d@ == sha256_spec(v2_transcript(Seq::empty(), p)),
                    } by {
                    crate::receipt_v2::check::lemma_slots_equal(p.reasons@, slots, receipt.reason_codes@);
                    assert(payload_matches(p, receipt, slots));
                    if let Ok(pl) = pr {
                        crate::receipt_v2::projection::lemma_digest_determined(
                            p, pl, receipt, slots, RECEIPT_ENCODING_TLV_V2@, crate::receipt_v2::json::JsonValue::Null);
                    }
                }
            }
        }
    }
}

/// The transcript digest of the payload a receipt reads as.
pub fn receipt_digest(receipt: &ReceiptJson) -> (r: Result<Sha256Digest, HostError>)
    ensures
        digest_outcome(r, *receipt),
        r matches Ok(d) ==> reads_with_digest(*receipt, d@),
{
    let slots = crate::receipt_v2::normalize::reason_slots(receipt);
    proof {
        assert(crate::receipt_v2::check::slots_match(slots@, receipt.reason_codes@));
    }
    let pr = crate::receipt_v2::normalize::receipt_payload_from_json(receipt, slots.as_slice());
    proof {
        assert(crate::receipt_v2::check::read_outcome(pr, *receipt, slots@));
    }
    let payload = match pr {
        Ok(p) => p,
        Err(e) => {
            let r = Err(host_error(e));
            proof { lemma_digest_outcome(pr, r, *receipt, slots@); }
            return r;
        },
    };
    let digest = match crate::legacy::receipt::receipt_transcript_hash(&payload) {
        Ok(d) => d,
        Err(e) => return Err(HostError::Core(e)),
    };
    proof {
        assert(payload.reasons@ == slots@);
        assert(crate::receipt_v2::check::slots_match(payload.reasons@, receipt.reason_codes@));
        reveal(reads_with_digest);
        lemma_digest_outcome(pr, Ok::<Sha256Digest, HostError>(digest), *receipt, slots@);
    }
    Ok(digest)
}

/// Whether `r` is what computing the digest of the hosted receipt `rc`, with
/// manifest `m`, gives: the prepared receipt is `rc` and `m` with that digest,
/// or the failure of reading `rc` as a valid payload.
pub open spec fn prepared_digest_outcome(r: Result<PreparedHostedReceipt, HostError>, rc: ReceiptJson, m: ManifestJson) -> bool {
    match r {
        Ok(p) => p.receipt == rc && p.manifest == m && digest_outcome(Ok(p.digest), rc),
        Err(x) => digest_outcome(Err(x), rc),
    }
}

/// How preparing a hosted receipt ends once its manifest `m` is hashed and its
/// model read: an unknown risk class in the metadata, then an unknown
/// decision, are refused; otherwise it is what computing the digest of the
/// hosted receipt gives.
pub open spec fn hosted_tail_outcome(
    r: Result<PreparedHostedReceipt, HostError>,
    request: HostedReceiptIssueRequest,
    issuer: HostedIssuer,
    issued_at: i64,
    m: ManifestJson,
    body: Seq<u8>,
    metadata: Seq<u8>,
) -> bool {
    match risk_class_of(hosted_risk_text(request.domain_metadata)) {
        None => r matches Err(HostError::InvalidInput(s)) && s@ == "unknown risk class "@ + hosted_risk_text(request.domain_metadata),
        Some(risk) => match policy_decision_of(hosted_decision_text(request)) {
            None => r matches Err(HostError::InvalidInput(s)) && s@ == "unknown policy decision "@ + hosted_decision_text(request),
            Some(decision) => exists|rc: ReceiptJson| #[trigger] hosted_receipt_ok(
                rc, request, issuer, issued_at, hosted_facts(request.domain_metadata, risk), decision, m, body, metadata,
            ) && prepared_digest_outcome(r, rc, m),
        },
    }
}

/// How preparing a hosted receipt at `issued_at`, with manifest time
/// `created_at`, ends: the failure of hashing the hosted manifest, of reading
/// or checking the hosted model, then as `hosted_tail_outcome` says.
pub open spec fn hosted_outcome(
    r: Result<PreparedHostedReceipt, HostError>,
    request: HostedReceiptIssueRequest,
    issuer: HostedIssuer,
    issued_at: i64,
    created_at: Seq<char>,
    body: Seq<u8>,
    metadata: Seq<u8>,
) -> bool {
    exists|m: ManifestJson| #[trigger] hosted_manifest_ok(m, request, created_at, body, metadata) && match crate::receipt_v2::hashing::manifest_error(m) {
        Some(e) => r matches Err(x) && crate::host::host_error_is(x, e),
        None => exists|mj: ModelWaistJson| #[trigger] hosted_model_ok(mj, request, body, metadata)
            && match crate::receipt_v2::normalize::model_json_error(mj) {
                Some(e) => r matches Err(x) && crate::host::host_error_is(x, e),
                None => forall|w: crate::model_waist::ModelWaist|
                    #[trigger] crate::receipt_v2::normalize::model_matches(w, mj) ==> match crate::model_waist::model_error(w) {
                        Some(k) => r == Err::<PreparedHostedReceipt, HostError>(HostError::Core(k)),
                        None => hosted_tail_outcome(r, request, issuer, issued_at, m, body, metadata),
                    },
            },
    }
}

/// The hash of a manifest and the summary hash of its evidence.
fn manifest_hashes(manifest: &ManifestJson) -> (r: Result<(Sha256Digest, Sha256Digest), HostError>)
    ensures
        crate::receipt_v2::hashing::manifest_error(*manifest) matches Some(e)
            ==> (r matches Err(x) && crate::host::host_error_is(x, e)),
        crate::receipt_v2::hashing::manifest_error(*manifest) is None ==> r is Ok,
        r matches Ok((m, e)) ==> m@ == manifest_hash_spec(*manifest)
            && e@ == sha256_spec(evidence_transcript(Seq::empty(), manifest.artifacts@)),
{
    let manifest_hash = match crate::receipt_v2::hashing::hash_manifest(manifest) {
        Ok(d) => d,
        Err(e) => return Err(host_error(e)),
    };
    let evidence_summary_hash = match crate::receipt_v2::hashing::hash_evidence_summary(manifest) {
        Ok(d) => d,
        Err(e) => return Err(host_error(e)),
    };
    Ok((manifest_hash, evidence_summary_hash))
}

/// Reads a model waist as the receipt kernel does, keeping only its failure.
fn check_model(model: &ModelWaistJson) -> (r: Result<(), HostError>)
    ensures
        crate::receipt_v2::normalize::model_json_error(*model) matches Some(e)
            ==> (r matches Err(x) && crate::host::host_error_is(x, e)),
        crate::receipt_v2::normalize::model_json_error(*model) is None
            ==> forall|w: crate::model_waist::ModelWaist| #[trigger] crate::receipt_v2::normalize::model_matches(w, *model) ==> {
                &&& crate::model_waist::model_error(w) matches Some(k) ==> r == Err::<(), HostError>(HostError::Core(k))
                &&& crate::model_waist::model_error(w) is None ==> r is Ok
            },
        r is Ok ==> crate::receipt_v2::normalize::model_json_error(*model) is None
            && exists|w: crate::model_waist::ModelWaist| #[trigger] crate::receipt_v2::normalize::model_matches(w, *model)
                && crate::model_waist::model_error(w) is None,
{
    match crate::receipt_v2::normalize::normalize_model(model) {
        Ok(_) => Ok(()),
        Err(e) => Err(host_error(e)),
    }
}

fn assemble_prepared(
    request: &HostedReceiptIssueRequest,
    issuer: &HostedIssuer,
    issued_at: i64,
    manifest: ManifestJson,
    manifest_hash: Sha256Digest,
    evidence_summary_hash: Sha256Digest,
    controls_summary_hash: Sha256Digest,
    receipt_id: String,
    model_json: ModelWaistJson,
    risk_class: RiskClass,
    decision: Decision,
    body_bytes: Vec<u8>,
    metadata_bytes: Vec<u8>,
) -> (r: Result<PreparedHostedReceipt, HostError>)
    requires
        request.issued_at matches Some(t) ==> issued_at == t,
        crate::clock::rfc3339_seconds_spec(issued_at) matches Some(t) ==> manifest.created_at@ == t,
        hosted_manifest_ok(manifest, *request, manifest.created_at@, body_bytes@, metadata_bytes@),
        manifest_hash@ == manifest_hash_spec(manifest),
        evidence_summary_hash@ == sha256_spec(evidence_transcript(Seq::empty(), manifest.artifacts@)),
        controls_summary_hash@ == sha256_spec(controls_transcript(Seq::empty(), Seq::empty())),
        receipt_id@ == hosted_receipt_id(*request, issued_at, body_bytes@),
        hosted_model_ok(model_json, *request, body_bytes@, metadata_bytes@),
        risk_class_of(hosted_risk_text(request.domain_metadata)) == Some(risk_class),
        policy_decision_of(hosted_decision_text(*request)) == Some(decision),
        crate::receipt_v2::hashing::manifest_error(manifest) is None,
    ensures
        r matches Ok(p) ==> prepared_ok(p, *request, *issuer, body_bytes@, metadata_bytes@),
        r matches Ok(p) ==> digest_outcome(Ok(p.digest), p.receipt)
            && crate::receipt_v2::hashing::manifest_error(p.manifest) is None
            && p.receipt.issued_at == issued_at,
        exists|rc: ReceiptJson| #[trigger] hosted_receipt_ok(
            rc, *request, *issuer, issued_at, hosted_facts(request.domain_metadata, risk_class), decision, manifest,
            body_bytes@, metadata_bytes@,
        ) && prepared_digest_outcome(r, rc, manifest),
{
    let ghost original_manifest = manifest;
    let facts = PolicyFacts {
        risk_class,
        requires_human_review: match metadata_bool(&request.domain_metadata, "requires_human_review") {
            Some(b) => b,
            None => false,
        },
        binding_effect_present: false,
        provider_fallbacks_allowed: false,
        plugin_trust_level: PluginTrustFact::FirstPartyReference,
        runtime_kind: RuntimeKind::HostedModelGateway,
        replay_strength: ReplayStrength::DeclaredOnly,
        model_class: ModelClass::HostedApi,
    };
    let receipt = build_hosted_receipt(
        request, issuer, issued_at, &manifest, &manifest_hash, &evidence_summary_hash, &controls_summary_hash,
        receipt_id, model_json, facts, decision, body_bytes.as_slice(), metadata_bytes.as_slice(),
    );
    assert(facts == hosted_facts(request.domain_metadata, risk_class));
    let digest = match receipt_digest(&receipt) {
        Ok(d) => d,
        Err(x) => {
            let r = Err(x);
            assert(prepared_digest_outcome(r, receipt, original_manifest));
            return r;
        },
    };
    let ghost built = receipt;
    let prepared = PreparedHostedReceipt { receipt, manifest, manifest_hash, digest };
    proof {
        lemma_prepared(prepared, *request, *issuer, body_bytes@, metadata_bytes@, risk_class, decision);
    }
    let r = Ok(prepared);
    assert(prepared_digest_outcome(r, built, original_manifest));
    r
}

/// A hosted model that fails to read or check ends preparation with that failure.
proof fn lemma_model_failure_outcome(
    r: Result<PreparedHostedReceipt, HostError>,
    c: Result<(), HostError>,
    x: HostError,
    mj: ModelWaistJson,
    m: ManifestJson,
    request: HostedReceiptIssueRequest,
    issuer: HostedIssuer,
    issued_at: i64,
    body: Seq<u8>,
    metadata: Seq<u8>,
)
    requires
        hosted_manifest_ok(m, request, m.created_at@, body, metadata),
        crate::receipt_v2::hashing::manifest_error(m) is None,
        hosted_model_ok(mj, request, body, metadata),
        c == Err::<(), HostError>(x),
        r == Err::<PreparedHostedReceipt, HostError>(x),
        crate::receipt_v2::normalize::model_json_error(mj) matches Some(e)
            ==> (c matches Err(y) && crate::host::host_error_is(y, e)),
        crate::receipt_v2::normalize::model_json_error(mj) is None
            ==> forall|w: crate::model_waist::ModelWaist| #[trigger] crate::receipt_v2::normalize::model_matches(w, mj) ==> {
                &&& crate::model_waist::model_error(w) matches Some(k) ==> c == Err::<(), HostError>(HostError::Core(k))
                &&& crate::model_waist::model_error(w) is None ==> c is Ok
            },
    ensures
        hosted_outcome(r, request, issuer, issued_at, m.created_at@, body, metadata),
{
    if crate::receipt_v2::normalize::model_json_error(mj) is None {
        assert forall|w: crate::model_waist::ModelWaist| #[trigger] crate::receipt_v2::normalize::model_matches(w, mj)
            implies match crate::model_waist::model_error(w) {
                Some(k) => r == Err::<PreparedHostedReceipt, HostError>(HostError::Core(k)),
                None => hosted_tail_outcome(r, request, issuer, issued_at, m, body, metadata),
            } by {
        }
    }
}

/// Once the hosted model reads and passes its checks, preparation ends as
/// `hosted_tail_outcome` says.
proof fn lemma_model_passed_outcome(
    r: Result<PreparedHostedReceipt, HostError>,
    mj: ModelWaistJson,
    m: ManifestJson,
    request: HostedReceiptIssueRequest,
    issuer: HostedIssuer,
    issued_at: i64,
    body: Seq<u8>,
    metadata: Seq<u8>,
)
    requires
        hosted_manifest_ok(m, request, m.created_at@, body, metadata),
        crate::receipt_v2::hashing::manifest_error(m) is None,
        hosted_model_ok(mj, request, body, metadata),
        crate::receipt_v2::normalize::model_json_error(mj) is None,
        exists|w: crate::model_waist::ModelWaist| #[trigger] crate::receipt_v2::normalize::model_matches(w, mj)
            && crate::model_waist::model_error(w) is None,
        hosted_tail_outcome(r, request, issuer, issued_at, m, body, metadata),
    ensures
        hosted_outcome(r, request, issuer, issued_at, m.created_at@, body, metadata),
{
    let w0 = choose|w: crate::model_waist::ModelWaist| #[trigger] crate::receipt_v2::normalize::model_matches(w, mj)
        && crate::model_waist::model_error(w) is None;
    assert forall|w: crate::model_waist::ModelWaist| #[trigger] crate::receipt_v2::normalize::model_matches(w, mj)
        implies crate::model_waist::model_error(w) is None by {
        crate::receipt_v2::normalize::lemma_model_error_determined(w, w0, mj);
    }
}

fn prepare_from_parts(
    request: &HostedReceiptIssueRequest,
    issuer: &HostedIssuer,
    issued_at: i64,
    created_at: String,
    body_bytes: Vec<u8>,
    metadata_bytes: Vec<u8>,
) -> (r: Result<PreparedHostedReceipt, HostError>)
    requires
        request.issued_at matches Some(t) ==> issued_at == t,
        crate::clock::rfc3339_seconds_spec(issued_at) matches Some(t) ==> created_at@ == t,
    ensures
        r matches Ok(p) ==> prepared_ok(p, *request, *issuer, body_bytes@, metadata_bytes@),
        r matches Ok(p) ==> digest_outcome(Ok(p.digest), p.receipt)
            && crate::receipt_v2::hashing::manifest_error(p.manifest) is None
            && p.receipt.issued_at == issued_at,
        hosted_outcome(r, *request, *issuer, issued_at, created_at@, body_bytes@, metadata_bytes@),
{
    let ghost created = created_at@;
    let manifest = hosted_manifest(request, created_at, body_bytes.as_slice(), metadata_bytes.as_slice());
    let (manifest_hash, evidence_summary_hash) = match manifest_hashes(&manifest) {
        Ok(h) => h,
        Err(x) => {
            let r = Err(x);
            assert(hosted_manifest_ok(manifest, *request, created, body_bytes@, metadata_bytes@));
            return r;
        },
    };
    let no_controls: Vec<crate::controls::ControlObservation> = Vec::new();
    let controls_summary_hash = crate::receipt_v2::hashing::hash_controls_summary(no_controls.as_slice());
    let receipt_id = hosted_receipt_id_text(request, issued_at, body_bytes.as_slice());
    let model_json = hosted_model_json(request, body_bytes.as_slice(), metadata_bytes.as_slice());
    proof {
        assert(hosted_manifest_ok(manifest, *request, created, body_bytes@, metadata_bytes@));
        assert(hosted_model_ok(model_json, *request, body_bytes@, metadata_bytes@));
    }
    let checked = check_model(&model_json);
    match checked {
        Ok(()) => {},
        Err(x) => {
            let r = Err(x);
            proof {
                lemma_model_failure_outcome(r, checked, x, model_json, manifest, *request, *issuer, issued_at, body_bytes@, metadata_bytes@);
            }
            return r;
        },
    }
    let risk_text: &str = match metadata_str(&request.domain_metadata, "risk_class") {
        Some(t) => t,
        None => "medium",
    };
    let risk_class = match crate::receipt_v2::normalize::risk_class_from_str(risk_text) {
        Ok(c) => c,
        Err(e) => {
            let r = Err(host_error(e));
            proof {
                assert(hosted_tail_outcome(r, *request, *issuer, issued_at, manifest, body_bytes@, metadata_bytes@));
                lemma_model_passed_outcome(r, model_json, manifest, *request, *issuer, issued_at, body_bytes@, metadata_bytes@);
            }
            return r;
        },
    };
    let decision_text: &str = match &request.decision {
        Some(d) => d.as_str(),
        None => "warn",
    };
    let decision = match policy_decision_from_str(decision_text) {
        Ok(d) => d,
        Err(x) => {
            let r = Err(x);
            proof {
                assert(hosted_tail_outcome(r, *request, *issuer, issued_at, manifest, body_bytes@, metadata_bytes@));
                lemma_model_passed_outcome(r, model_json, manifest, *request, *issuer, issued_at, body_bytes@, metadata_bytes@);
            }
            return r;
        },
    };
    proof {
        assert(no_controls@ =~= Seq::<crate::controls::ControlObservation>::empty());
    }
    let ghost m = manifest;
    let r = assemble_prepared(
        request, issuer, issued_at, manifest, manifest_hash, evidence_summary_hash, controls_summary_hash,
        receipt_id, model_json, risk_class, decision, body_bytes, metadata_bytes,
    );
    proof {
        assert(hosted_tail_outcome(r, *request, *issuer, issued_at, m, body_bytes@, metadata_bytes@));
        lemma_model_passed_outcome(r, model_json, m, *request, *issuer, issued_at, body_bytes@, metadata_bytes@);
    }
    r
}

/// Prepares the receipt of a hosted workflow for signing. A demonstration
/// signer is refused, and so is an encoding the host does not issue. The body
/// and metadata are hashed in canonical JSON; the time is the request's, else
/// now; the metadata's risk class and the requested decision must be known;
/// the receipt must then read back as a valid payload, whose transcript digest
/// is what the issuer signs.
#[verifier::spinoff_prover]
pub fn prepare_hosted_receipt(request: &HostedReceiptIssueRequest, issuer: &HostedIssuer) -> (r: Result<PreparedHostedReceipt, HostError>)
    ensures
        issuer.demo_backend ==> (r matches Err(HostError::Trust(m)) && m@ == demo_refusal_text()),
        !issuer.demo_backend && issuer.receipt_encoding@ != RECEIPT_ENCODING_TLV_V2@
            ==> (r matches Err(HostError::InvalidInput(m)) && Some(m@) == encoding_note(issuer.receipt_encoding@)),
        r matches Ok(p) ==> !issuer.demo_backend && issuer.receipt_encoding@ == RECEIPT_ENCODING_TLV_V2@
            && prepared_ok(p, *request, *issuer,
                crate::receipt_v2::canonical::canonical(request.body_json),
                crate::receipt_v2::canonical::canonical(request.domain_metadata)),
        r matches Ok(p) ==> digest_outcome(Ok(p.digest), p.receipt)
            && crate::receipt_v2::hashing::manifest_error(p.manifest) is None
            && (request.issued_at is None ==> p.receipt.issued_at >= 0),
        !issuer.demo_backend && issuer.receipt_encoding@ == RECEIPT_ENCODING_TLV_V2@
            ==> exists|t: i64, c: Seq<char>|
                (request.issued_at matches Some(x) ==> t == x)
                && (crate::clock::rfc3339_seconds_spec(t) matches Some(s) ==> c == s)
                && #[trigger] hosted_outcome(r, *request, *issuer, t, c,
                    crate::receipt_v2::canonical::canonical(request.body_json),
                    crate::receipt_v2::canonical::canonical(request.domain_metadata)),
{
    if issuer.demo_backend {
        return Err(HostError::Trust(owned_text("hosted issuance requires a non-demo signer backend")));
    }
    ensure_issueable_receipt_encoding(issuer.receipt_encoding.as_str())?;
    let issued_at: i64 = match request.issued_at {
        Some(t) => t,
        None => {
            let now = crate::clock::unix_now_secs();
            if now > i64::MAX as u64 { i64::MAX } else { now as i64 }
        },
    };
    let created_at = match crate::clock::rfc3339_seconds(issued_at) {
        Some(t) => t,
        None => crate::clock::now_rfc3339_seconds(),
    };
    let body_bytes = crate::receipt_v2::canonical::canonicalize_legacy(&request.body_json);
    let metadata_bytes = crate::receipt_v2::canonical::canonicalize_legacy(&request.domain_metadata);
    let ghost c = created_at@;
    let r = prepare_from_parts(request, issuer, issued_at, created_at, body_bytes, metadata_bytes);
    assert(hosted_outcome(r, *request, *issuer, issued_at, c,
        crate::receipt_v2::canonical::canonical(request.body_json),
        crate::receipt_v2::canonical::canonical(request.domain_metadata)));
    r
}

/// Whether `signed` is `unsigned` with its payload hash and signature set.
pub open spec fn signed_as(signed: ReceiptJson, unsigned: ReceiptJson, digest: Seq<u8>, signature: Seq<u8>) -> bool {
    &&& signed == (ReceiptJson { signing: signed.signing, ..unsigned })
    &&& signed.signing.transcript_encoding == unsigned.signing.transcript_encoding
    &&& signed.signing.algorithm == unsigned.signing.algorithm
    &&& signed.signing.key_id == unsigned.signing.key_id
    &&& signed.signing.payload_hash.algorithm@ == "sha-256"@
    &&& signed.signing.payload_hash.digest@ == hex_lower(digest)
    &&& base64url_decode_spec(signed.signing.signature@) == Some(signature)
}

/// Sets a prepared receipt's payload hash to its digest and its signature to
/// the Base64 text of `signature`.
pub fn finish_hosted_receipt(receipt: ReceiptJson, digest: &Sha256Digest, signature: &[u8; 64]) -> (r: ReceiptJson)
    ensures
        signed_as(r, receipt, digest@, signature@),
{
    let mut signed = receipt;
    signed.signing.payload_hash = digest_json(digest);
    signed.signing.signature = crate::crypto::base64url_encode(signature.as_slice());
    signed
}

/// Signs a prepared hosted receipt with a local Ed25519 secret key: the
/// signature is over the prepared digest, and the receipt is finished with it.
pub fn sign_prepared_receipt(prepared: PreparedHostedReceipt, secret_key: &[u8; 32]) -> (r: ReceiptJson)
    ensures
        signed_as(r, prepared.receipt, prepared.digest@, ed25519_sign_spec(secret_key@, prepared.digest@)),
        ed25519_verify_spec(ed25519_public_spec(secret_key@), prepared.digest@, ed25519_sign_spec(secret_key@, prepared.digest@)),
        ed25519_sign_spec(secret_key@, prepared.digest@).len() == 64,
{
    let signature = crate::crypto::ed25519_sign(secret_key, prepared.digest.0.as_slice());
    finish_hosted_receipt(prepared.receipt, &prepared.digest, &signature)
}

/// The message of a signer whose configured key identifier is not the one its
/// public key gives.
pub open spec fn key_id_mismatch_text(configured: Seq<char>) -> Seq<char> {
    "signer config key_id "@ + configured + " does not match the configured public key"@
}

/// Checks that a signer's configured key identifier is the one the host
/// derives from its public key.
pub fn check_signer_key_id(configured: &str, public_key: &[u8; 32]) -> (r: Result<(), HostError>)
    ensures
        configured@ == "ed25519:"@ + hex_lower(sha256_spec(public_key@)) ==> r is Ok,
        configured@ != "ed25519:"@ + hex_lower(sha256_spec(public_key@))
            ==> (r matches Err(HostError::Trust(m)) && m@ == key_id_mismatch_text(configured@)),
{
    let derived = crate::host::key_id_for_public(public_key);
    if crate::bytes::str_eq(configured, derived.as_str()) {
        Ok(())
    } else {
        let head = concat("signer config key_id ", configured);
        Err(HostError::Trust(concat(head.as_str(), " does not match the configured public key")))
    }
}

} // verus!
