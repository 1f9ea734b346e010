//! The host's logic around receipts: which encodings it issues, the names it
//! writes for kernel values, and the policies it compiles.
pub mod conditions;
pub mod policy;
pub mod verify;
pub mod issue;
pub mod issued;
pub mod trust_files;
pub mod bundle;
pub mod gate;
pub mod comparison;
pub mod remote;

use vstd::prelude::*;
use crate::bytes::str_eq;
use crate::controls::{ControlObservation, ControlStatus, ControlType};
use crate::error::Error;
use crate::legacy::policy::{Decision, PluginTrustFact, PolicyFacts, RiskClass};
use crate::legacy::receipt::plugin_trust_fact_spec;
use crate::model_waist::{ModelClass, ModelWaist, PluginTrustLevel, ReplayStrength, RuntimeKind};
use crate::receipt_v2::json::{DigestJson, ManifestArtifactJson, ManifestJson, PolicyFactsJson, SchemaJson};
use crate::receipt_v2::normalize::{
    model_class_of, plugin_trust_of, replay_strength_of, risk_class_from_str, risk_class_of, runtime_kind_of,
};
use crate::receipt_v2::{
    owned_text, ReceiptV2Error, RECEIPT_ENCODING_JSON_CANONICAL_V1, RECEIPT_ENCODING_TLV_V1_LEGACY,
    RECEIPT_ENCODING_TLV_V2,
};
use crate::text::concat;

verus! {

/// Why a host operation failed.
#[derive(Clone, Debug, PartialEq, Eq)]
pub enum HostError {
    /// A JSON document could not be read; the parser's message.
    Json(String),
    /// The receipt kernel refused a value.
    Core(Error),
    /// An input is not what the host accepts.
    InvalidInput(String),
    /// A path leaves the directory it must stay in.
    UnsafePath(String),
    /// A trust check failed.
    Trust(String),
}

/// Whether the host error `h` is the verification error `e`, kind and message.
pub open spec fn host_error_is(h: HostError, e: crate::receipt_v2::ErrorView) -> bool {
    match e {
        crate::receipt_v2::ErrorView::Json(m) => h matches HostError::Json(s) && s@ == m,
        crate::receipt_v2::ErrorView::Core(k) => h == HostError::Core(k),
        crate::receipt_v2::ErrorView::InvalidInput(m) => h matches HostError::InvalidInput(s) && s@ == m,
        crate::receipt_v2::ErrorView::Trust(m) => h matches HostError::Trust(s) && s@ == m,
    }
}

/// The host error for a verification error: each kind of error keeps its
/// kind and its message.
pub fn host_error(e: ReceiptV2Error) -> (r: HostError)
    ensures
        e matches ReceiptV2Error::Core(k) ==> r == HostError::Core(k),
        e matches ReceiptV2Error::InvalidInput(m) ==> r == HostError::InvalidInput(m),
        e matches ReceiptV2Error::Json(m) ==> r == HostError::Json(m),
        e matches ReceiptV2Error::Trust(m) ==> r == HostError::Trust(m),
        host_error_is(r, e@),
{
    match e {
        ReceiptV2Error::Core(k) => HostError::Core(k),
        ReceiptV2Error::InvalidInput(m) => HostError::InvalidInput(m),
        ReceiptV2Error::Json(m) => HostError::Json(m),
        ReceiptV2Error::Trust(m) => HostError::Trust(m),
    }
}

/// Whether the host issues new receipts in `encoding`: only the canonical
/// TLV encoding.
pub fn receipt_encoding_allows_issuance(encoding: &str) -> (r: bool)
    ensures
        r == (encoding@ == RECEIPT_ENCODING_TLV_V2@),
{
    str_eq(encoding, RECEIPT_ENCODING_TLV_V2)
}

/// Whether `encoding` is one the host still verifies but no longer issues.
pub open spec fn verify_only_encoding(encoding: Seq<char>) -> bool {
    encoding == RECEIPT_ENCODING_TLV_V1_LEGACY@ || encoding == RECEIPT_ENCODING_JSON_CANONICAL_V1@
}

/// The standing of a receipt encoding: `ok` for the canonical encoding,
/// `verify_only` for the older ones, `unsupported` for any other.
pub open spec fn encoding_status(encoding: Seq<char>) -> Seq<char> {
    if encoding == RECEIPT_ENCODING_TLV_V2@ {
        "ok"@
    } else if verify_only_encoding(encoding) {
        "verify_only"@
    } else {
        "unsupported"@
    }
}

/// A readiness check of the host: its name, status and the encoding checked.
#[derive(Clone, Debug, PartialEq, Eq)]
pub struct EncodingCheck {
    pub name: String,
    pub status: String,
    pub encoding: String,
}

/// The `receipt_encoding` check of an encoding.
pub fn receipt_encoding_check(encoding: &str) -> (r: EncodingCheck)
    ensures
        r.name@ == "receipt_encoding"@,
        r.status@ == encoding_status(encoding@),
        r.encoding@ == encoding@,
{
    let status = if str_eq(encoding, RECEIPT_ENCODING_TLV_V2) {
        "ok"
    } else if str_eq(encoding, RECEIPT_ENCODING_TLV_V1_LEGACY) || str_eq(encoding, RECEIPT_ENCODING_JSON_CANONICAL_V1) {
        "verify_only"
    } else {
        "unsupported"
    };
    EncodingCheck { name: owned_text("receipt_encoding"), status: owned_text(status), encoding: owned_text(encoding) }
}

/// The note the host gives on an encoding it does not issue.
pub open spec fn encoding_note(encoding: Seq<char>) -> Option<Seq<char>> {
    if encoding == RECEIPT_ENCODING_TLV_V2@ {
        None
    } else if verify_only_encoding(encoding) {
        Some("receipt encoding "@ + encoding + " is verify-only compatibility mode; new receipts must use "@ + RECEIPT_ENCODING_TLV_V2@)
    } else {
        Some("receipt encoding "@ + encoding + " is unsupported; new receipts must use "@ + RECEIPT_ENCODING_TLV_V2@)
    }
}

/// The note on an encoding the host does not issue; none for the canonical
/// encoding.
pub fn receipt_encoding_note(encoding: &str) -> (r: Option<String>)
    ensures
        match encoding_note(encoding@) {
            Some(n) => r matches Some(s) && s@ == n,
            None => r is None,
        },
{
    if str_eq(encoding, RECEIPT_ENCODING_TLV_V2) {
        return None;
    }
    let head = concat("receipt encoding ", encoding);
    let middle = if str_eq(encoding, RECEIPT_ENCODING_TLV_V1_LEGACY) || str_eq(encoding, RECEIPT_ENCODING_JSON_CANONICAL_V1) {
        concat(head.as_str(), " is verify-only compatibility mode; new receipts must use ")
    } else {
        concat(head.as_str(), " is unsupported; new receipts must use ")
    };
    Some(concat(middle.as_str(), RECEIPT_ENCODING_TLV_V2))
}

/// Refuses an encoding the host does not issue, with the note on it.
pub fn ensure_issueable_receipt_encoding(encoding: &str) -> (r: Result<(), HostError>)
    ensures
        encoding@ == RECEIPT_ENCODING_TLV_V2@ ==> r is Ok,
        encoding@ != RECEIPT_ENCODING_TLV_V2@ ==> (r matches Err(HostError::InvalidInput(m)) && Some(m@) == encoding_note(encoding@)),
{
    if receipt_encoding_allows_issuance(encoding) {
        return Ok(());
    }
    match receipt_encoding_note(encoding) {
        Some(note) => Err(HostError::InvalidInput(note)),
        None => Err(HostError::InvalidInput(concat("new receipts must use ", RECEIPT_ENCODING_TLV_V2))),
    }
}

/// The public name of a decision: escalations and blocks both read `fail`.
pub open spec fn public_decision_name(d: Decision) -> Seq<char> {
    match d {
        Decision::Pass => "pass"@,
        Decision::Warn => "warn"@,
        Decision::Block => "fail"@,
    }
}

/// The public name of a decision.
pub fn public_decision(value: Decision) -> (r: &'static str)
    ensures
        r@ == public_decision_name(value),
{
    match value {
        Decision::Pass => "pass",
        Decision::Warn => "warn",
        Decision::Block => "fail",
    }
}

/// The public name of a risk class.
pub fn public_risk_class(value: RiskClass) -> (r: &'static str)
    ensures
        risk_class_of(r@) == Some(value),
{
    proof {
        reveal_strlit("low");
        assert("low"@.len() == 3);
        reveal_strlit("medium");
        assert("medium"@.len() == 6);
        reveal_strlit("high");
        assert("high"@.len() == 4);
    }
    match value {
        RiskClass::Low => "low",
        RiskClass::Medium => "medium",
        RiskClass::High => "high",
    }
}

/// The public name of a plugin trust fact.
pub fn public_plugin_trust(value: PluginTrustFact) -> (r: &'static str)
    ensures
        plugin_trust_fact_spec(plugin_trust_of(r@)->Some_0) == value,
{
    proof {
        reveal_strlit("untrusted");
        assert("untrusted"@.len() == 9);
        reveal_strlit("locally_allowed");
        assert("locally_allowed"@.len() == 15);
        reveal_strlit("first_party_reference");
        assert("first_party_reference"@.len() == 21);
        reveal_strlit("third_party_trusted");
        assert("third_party_trusted"@.len() == 19);
        reveal_strlit("reproducibly_built");
        assert("reproducibly_built"@.len() == 18);
    }
    match value {
        PluginTrustFact::Untrusted => "untrusted",
        PluginTrustFact::LocallyAllowed => "locally_allowed",
        PluginTrustFact::FirstPartyReference => "first_party_reference",
        PluginTrustFact::ThirdPartyTrusted => "third_party_trusted",
        PluginTrustFact::ReproduciblyBuilt => "reproducibly_built",
    }
}

/// The public name of a runtime kind.
pub fn public_runtime_kind(value: RuntimeKind) -> (r: &'static str)
    ensures
        runtime_kind_of(r@) == Some(value),
{
    proof {
        reveal_strlit("deterministic_demo");
        assert("deterministic_demo"@.len() == 18);
        reveal_strlit("local_open_weight_model");
        assert("local_open_weight_model"@.len() == 23);
        reveal_strlit("local_closed_weight_model");
        assert("local_closed_weight_model"@.len() == 25);
        reveal_strlit("hosted_model_api");
        assert("hosted_model_api"@.len() == 16);
        reveal_strlit("hosted_model_gateway");
        assert("hosted_model_gateway"@.len() == 20);
        reveal_strlit("external_process");
        assert("external_process"@.len() == 16);
        reveal_strlit("replay_only");
        assert("replay_only"@.len() == 11);
        assert("external_process"@[0] != "hosted_model_api"@[0]);
    }
    match value {
        RuntimeKind::DeterministicDemo => "deterministic_demo",
        RuntimeKind::LocalOpenWeightModel => "local_open_weight_model",
        RuntimeKind::LocalClosedWeightModel => "local_closed_weight_model",
        RuntimeKind::HostedModelApi => "hosted_model_api",
        RuntimeKind::HostedModelGateway => "hosted_model_gateway",
        RuntimeKind::ExternalProcess => "external_process",
        RuntimeKind::ReplayOnly => "replay_only",
    }
}

/// The public name of a replay strength.
pub fn public_replay_strength(value: ReplayStrength) -> (r: &'static str)
    ensures
        replay_strength_of(r@) == Some(value),
{
    proof {
        reveal_strlit("fully_replayable");
        assert("fully_replayable"@.len() == 16);
        reveal_strlit("input_weights_config_bound");
        assert("input_weights_config_bound"@.len() == 26);
        reveal_strlit("request_response_bound");
        assert("request_response_bound"@.len() == 22);
        reveal_strlit("declared_only");
        assert("declared_only"@.len() == 13);
        reveal_strlit("not_replayable");
        assert("not_replayable"@.len() == 14);
    }
    match value {
        ReplayStrength::FullyReplayable => "fully_replayable",
        ReplayStrength::InputWeightsConfigBound => "input_weights_config_bound",
        ReplayStrength::RequestResponseBound => "request_response_bound",
        ReplayStrength::DeclaredOnly => "declared_only",
        ReplayStrength::NotReplayable => "not_replayable",
    }
}

/// The public name of a model class.
pub fn public_model_class(value: ModelClass) -> (r: &'static str)
    ensures
        model_class_of(r@) == Some(value),
{
    proof {
        reveal_strlit("open_weight");
        assert("open_weight"@.len() == 11);
        reveal_strlit("closed_weight");
        assert("closed_weight"@.len() == 13);
        reveal_strlit("hosted_api");
        assert("hosted_api"@.len() == 10);
        reveal_strlit("replay");
        assert("replay"@.len() == 6);
        reveal_strlit("deterministic_demo");
        assert("deterministic_demo"@.len() == 18);
    }
    match value {
        ModelClass::OpenWeight => "open_weight",
        ModelClass::ClosedWeight => "closed_weight",
        ModelClass::HostedApi => "hosted_api",
        ModelClass::Replay => "replay",
        ModelClass::DeterministicDemo => "deterministic_demo",
    }
}

/// The public form of policy facts: each value by its public name.
pub fn facts_json(facts: PolicyFacts) -> (r: PolicyFactsJson)
    ensures
        risk_class_of(r.risk_class@) == Some(facts.risk_class),
        r.requires_human_review == facts.requires_human_review,
        r.binding_effect_present == facts.binding_effect_present,
        r.provider_fallbacks_allowed == facts.provider_fallbacks_allowed,
        plugin_trust_fact_spec(plugin_trust_of(r.plugin_trust_level@)->Some_0) == facts.plugin_trust_level,
        runtime_kind_of(r.runtime_kind@) == Some(facts.runtime_kind),
        replay_strength_of(r.replay_strength@) == Some(facts.replay_strength),
        model_class_of(r.model_class@) == Some(facts.model_class),
{
    PolicyFactsJson {
        risk_class: owned_text(public_risk_class(facts.risk_class)),
        requires_human_review: facts.requires_human_review,
        binding_effect_present: facts.binding_effect_present,
        provider_fallbacks_allowed: facts.provider_fallbacks_allowed,
        plugin_trust_level: owned_text(public_plugin_trust(facts.plugin_trust_level)),
        runtime_kind: owned_text(public_runtime_kind(facts.runtime_kind)),
        replay_strength: owned_text(public_replay_strength(facts.replay_strength)),
        model_class: owned_text(public_model_class(facts.model_class)),
    }
}

/// Whether an observation shows a human review that was approved or present.
pub open spec fn is_human_review(o: ControlObservation) -> bool {
    o.control_type == ControlType::HumanReview && (o.status == ControlStatus::Approved || o.status == ControlStatus::Present)
}

/// Whether any observation shows an approved or present human review.
pub fn has_human_review(controls: &[ControlObservation]) -> (r: bool)
    ensures
        r == exists|i: int| 0 <= i < controls@.len() && #[trigger] is_human_review(controls@[i]),
{
    let mut i: usize = 0;
    while i < controls.len()
        invariant
            i <= controls@.len(),
            forall|j: int| 0 <= j < i ==> !#[trigger] is_human_review(controls@[j]),
        decreases controls@.len() - i,
    {
        let c = &controls[i];
        let approved = match c.status {
            ControlStatus::Approved | ControlStatus::Present => true,
            _ => false,
        };
        if c.control_type == ControlType::HumanReview && approved {
            assert(is_human_review(controls@[i as int]));
            return true;
        }
        i = i + 1;
    }
    false
}

/// The action a bundle is about, as its `action_json` artifact states it.
#[derive(Clone, Debug)]
pub struct ActionJson {
    pub schema: String,
    pub operation: String,
    pub risk_class: String,
    pub human_review_requested: bool,
    pub prompt_hash: DigestJson,
    pub scenario_id: String,
    pub matched_rule_ids: Vec<String>,
}

/// The policy facts of an action on a model run: the action's risk class,
/// human review required for high risk, a binding effect for claim
/// approvals, and the fallbacks, plugin trust, runtime, replay strength and
/// model class of the run.
pub open spec fn action_facts_of(action: ActionJson, model: ModelWaist, risk: RiskClass) -> PolicyFacts {
    PolicyFacts {
        risk_class: risk,
        requires_human_review: risk == RiskClass::High,
        binding_effect_present: action.operation@ == "approve_claim"@,
        provider_fallbacks_allowed: model.runtime.provider_routing.fallbacks_allowed,
        plugin_trust_level: plugin_trust_fact_spec(model.plugin.trust_level),
        runtime_kind: model.runtime.runtime_kind,
        replay_strength: model.runtime.replay_strength,
        model_class: model.identity.model_class,
    }
}

/// The policy facts of an action on a model run; an unknown risk class is
/// refused.
pub fn action_facts(action: &ActionJson, model: &ModelWaist) -> (r: Result<PolicyFacts, HostError>)
    ensures
        risk_class_of(action.risk_class@) matches Some(risk) ==> r == Ok::<PolicyFacts, HostError>(action_facts_of(*action, *model, risk)),
        risk_class_of(action.risk_class@) is None ==> (r matches Err(HostError::InvalidInput(m))
            && m@ == "unknown risk class "@ + action.risk_class@),
{
    let risk_class = match risk_class_from_str(action.risk_class.as_str()) {
        Ok(v) => v,
        Err(e) => return Err(host_error(e)),
    };
    let plugin_trust_level = match model.plugin.trust_level {
        PluginTrustLevel::Untrusted => PluginTrustFact::Untrusted,
        PluginTrustLevel::LocallyAllowed => PluginTrustFact::LocallyAllowed,
        PluginTrustLevel::FirstPartyReference => PluginTrustFact::FirstPartyReference,
        PluginTrustLevel::ThirdPartyTrusted => PluginTrustFact::ThirdPartyTrusted,
        PluginTrustLevel::ReproduciblyBuilt => PluginTrustFact::ReproduciblyBuilt,
    };
    Ok(PolicyFacts {
        risk_class,
        requires_human_review: risk_class == RiskClass::High,
        binding_effect_present: str_eq(action.operation.as_str(), "approve_claim"),
        provider_fallbacks_allowed: model.runtime.provider_routing.fallbacks_allowed,
        plugin_trust_level,
        runtime_kind: model.runtime.runtime_kind,
        replay_strength: model.runtime.replay_strength,
        model_class: model.identity.model_class,
    })
}

/// The key identifier the host derives from a public key: `ed25519:` and the
/// lowercase hex text of the key's SHA-256 digest.
pub fn key_id_for_public(public_key: &[u8; 32]) -> (r: String)
    ensures
        r@ == "ed25519:"@ + crate::codec::hex_lower(crate::crypto::sha256_spec(public_key@)),
{
    let digest = crate::digest::sha256(public_key.as_slice());
    let hex = crate::codec::hex_encode(digest.0.as_slice());
    concat("ed25519:", hex.as_str())
}

/// An artifact to list in a manifest, as the caller describes it: its type,
/// its path under the bundle directory, its media type and an optional schema.
#[derive(Clone, Debug)]
pub struct ManifestArtifactSpec {
    pub artifact_type: String,
    pub path: String,
    pub media_type: String,
    pub schema_id: Option<String>,
}

/// The version the host gives the schema of a listed artifact.
pub const ARTIFACT_SCHEMA_VERSION: &'static str = "1.0.0";

/// The manifest entry of an artifact whose file holds `bytes`: the spec's
/// type, path and media type, the file's size and SHA-256 digest, and the
/// schema the spec names, at version `1.0.0`.
pub fn manifest_artifact(spec: ManifestArtifactSpec, bytes: &[u8]) -> (r: ManifestArtifactJson)
    ensures
        r.artifact_type == spec.artifact_type,
        r.path == spec.path,
        r.media_type == spec.media_type,
        r.size_bytes == bytes@.len(),
        r.hash.algorithm@ == "sha-256"@,
        r.hash.digest@ == crate::codec::hex_lower(crate::crypto::sha256_spec(bytes@)),
        spec.schema_id is None ==> r.schema is None,
        spec.schema_id matches Some(id) ==> (r.schema matches Some(s) && s.id == id && s.version@ == ARTIFACT_SCHEMA_VERSION@),
{
    let digest = crate::digest::sha256(bytes);
    let schema = match spec.schema_id {
        Some(id) => Some(SchemaJson { id, version: owned_text(ARTIFACT_SCHEMA_VERSION) }),
        None => None,
    };
    ManifestArtifactJson {
        artifact_type: spec.artifact_type,
        path: spec.path,
        media_type: spec.media_type,
        size_bytes: bytes.len() as u64,
        hash: crate::receipt_v2::check::digest_json(&digest),
        schema,
    }
}

/// The manifest of an action: the manifest schema, the action, the creation
/// time as given, and the artifacts in order.
pub fn new_manifest(action_id: &str, created_at: String, artifacts: Vec<ManifestArtifactJson>) -> (r: ManifestJson)
    ensures
        r.schema@ == crate::receipt_v2::MANIFEST_SCHEMA_V2@,
        r.action_id@ == action_id@,
        r.created_at == created_at,
        r.artifacts@ == artifacts@,
{
    ManifestJson {
        schema: owned_text(crate::receipt_v2::MANIFEST_SCHEMA_V2),
        action_id: owned_text(action_id),
        created_at,
        artifacts,
    }
}

} // verus!
