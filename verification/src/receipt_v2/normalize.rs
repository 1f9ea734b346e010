use vstd::prelude::*;
use vstd::string::StringSliceAdditionalSpecFns;
use crate::bytes::str_eq;
use crate::codec::hex_decode_spec;
use crate::controls::{ControlStatus, ControlType};
use crate::legacy::policy::{Decision, PluginTrustFact, RiskClass};
use crate::legacy::receipt::plugin_trust_fact_spec;
use crate::manifest::{ArtifactType, MediaType};
use crate::model_waist::{
    DataCollectionPolicy, ExecutionTopology, FinishReason, MaintainerClass, ModelClass,
    PluginTrustLevel, ReplayStrength, RuntimeKind,
};
use crate::receipt_v2::json::{
    DigestJson, IdentityEvidenceJson, ModelIdentityJson, ModelInvocationJson, ModelObservationJson,
    ModelWaistJson, PluginJson, RequestedOutputJson, RuntimeJson,
};
use crate::limits::{MAX_MODEL_SLUG_LEN, MAX_PLUGIN_ID_HINT_LEN};
use crate::model_waist::{
    model_error, DeterminismClaim, IdentityEvidence, IsolationClaim, ModelIdentityClaim,
    ModelInvocationClaim, ModelObservationClaim, ModelWaist, NormalizationClaim, PluginApiVersion,
    PluginClaim, ProviderRoutingClaim, RequestedOutput, RuntimeClaim, TokenUsage,
};
use crate::receipt_v2::or_else;
use crate::types::{identifier_error, non_nul_error, BoundedBytes, TimestampUtc};
use crate::legacy::policy::{PolicyFacts, ReasonCodeSlot};
use crate::legacy::receipt::{
    payload_error, IssuerClaim, PolicyBinding, ReceiptPayload, ReceiptProfile, ReceiptSchemaVersion,
};
use crate::limits::{MAX_ID_LEN, MAX_ISSUER_NAME_LEN, MAX_POLICY_ID_LEN, MAX_POLICY_VERSION_LEN};
use crate::receipt_v2::json::{PolicyFactsJson, ReceiptJson};
use crate::kernel::Ed25519PublicKey;
use crate::crypto::base64url_decode_spec;
use crate::receipt_v2::{fails_as, ErrorView, ReceiptV2Error, Result};
use crate::text::concat;
use crate::types::Sha256Digest;

verus! {

/// The model class a name stands for
pub open spec fn model_class_of(s: Seq<char>) -> Option<ModelClass> {
    if s == "open_weight"@ {
        Some(ModelClass::OpenWeight)
    } else if s == "closed_weight"@ {
        Some(ModelClass::ClosedWeight)
    } else if s == "hosted_api"@ {
        Some(ModelClass::HostedApi)
    } else if s == "replay"@ {
        Some(ModelClass::Replay)
    } else if s == "deterministic_demo"@ {
        Some(ModelClass::DeterministicDemo)
    } else {
        None
    }
}

/// The model class a name stands for; other text is refused.
pub fn model_class_from_str(value: &str) -> (r: Result<ModelClass>)
    ensures
        model_class_of(value@) matches Some(v) ==> r == Ok::<ModelClass, ReceiptV2Error>(v),
        model_class_of(value@) is None ==> (r matches Err(ReceiptV2Error::InvalidInput(m)) && m@ == "unknown model class "@ + value@),
{
    if str_eq(value, "open_weight") {
        return Ok(ModelClass::OpenWeight);
    }
    if str_eq(value, "closed_weight") {
        return Ok(ModelClass::ClosedWeight);
    }
    if str_eq(value, "hosted_api") {
        return Ok(ModelClass::HostedApi);
    }
    if str_eq(value, "replay") {
        return Ok(ModelClass::Replay);
    }
    if str_eq(value, "deterministic_demo") {
        return Ok(ModelClass::DeterministicDemo);
    }
    Err(ReceiptV2Error::InvalidInput(concat("unknown model class ", value)))
}

/// The runtime kind a name stands for
pub open spec fn runtime_kind_of(s: Seq<char>) -> Option<RuntimeKind> {
    if s == "deterministic_demo"@ {
        Some(RuntimeKind::DeterministicDemo)
    } else if s == "local_open_weight_model"@ {
        Some(RuntimeKind::LocalOpenWeightModel)
    } else if s == "local_closed_weight_model"@ {
        Some(RuntimeKind::LocalClosedWeightModel)
    } else if s == "hosted_model_api"@ {
        Some(RuntimeKind::HostedModelApi)
    } else if s == "hosted_model_gateway"@ {
        Some(RuntimeKind::HostedModelGateway)
    } else if s == "external_process"@ {
        Some(RuntimeKind::ExternalProcess)
    } else if s == "replay_only"@ {
        Some(RuntimeKind::ReplayOnly)
    } else {
        None
    }
}

/// The runtime kind a name stands for; other text is refused.
pub fn runtime_kind_from_str(value: &str) -> (r: Result<RuntimeKind>)
    ensures
        runtime_kind_of(value@) matches Some(v) ==> r == Ok::<RuntimeKind, ReceiptV2Error>(v),
        runtime_kind_of(value@) is None ==> (r matches Err(ReceiptV2Error::InvalidInput(m)) && m@ == "unknown runtime kind "@ + value@),
{
    if str_eq(value, "deterministic_demo") {
        return Ok(RuntimeKind::DeterministicDemo);
    }
    if str_eq(value, "local_open_weight_model") {
        return Ok(RuntimeKind::LocalOpenWeightModel);
    }
    if str_eq(value, "local_closed_weight_model") {
        return Ok(RuntimeKind::LocalClosedWeightModel);
    }
    if str_eq(value, "hosted_model_api") {
        return Ok(RuntimeKind::HostedModelApi);
    }
    if str_eq(value, "hosted_model_gateway") {
        return Ok(RuntimeKind::HostedModelGateway);
    }
    if str_eq(value, "external_process") {
        return Ok(RuntimeKind::ExternalProcess);
    }
    if str_eq(value, "replay_only") {
        return Ok(RuntimeKind::ReplayOnly);
    }
    Err(ReceiptV2Error::InvalidInput(concat("unknown runtime kind ", value)))
}

/// The execution topology a name stands for
pub open spec fn execution_topology_of(s: Seq<char>) -> Option<ExecutionTopology> {
    if s == "rule_based_local"@ {
        Some(ExecutionTopology::RuleBasedLocal)
    } else if s == "local_process"@ {
        Some(ExecutionTopology::LocalProcess)
    } else if s == "local_container"@ {
        Some(ExecutionTopology::LocalContainer)
    } else if s == "remote_provider"@ {
        Some(ExecutionTopology::RemoteProvider)
    } else if s == "remote_gateway"@ {
        Some(ExecutionTopology::RemoteGateway)
    } else if s == "external_subprocess"@ {
        Some(ExecutionTopology::ExternalSubprocess)
    } else if s == "replay_file"@ {
        Some(ExecutionTopology::ReplayFile)
    } else {
        None
    }
}

/// The execution topology a name stands for; other text is refused.
pub fn execution_topology_from_str(value: &str) -> (r: Result<ExecutionTopology>)
    ensures
        execution_topology_of(value@) matches Some(v) ==> r == Ok::<ExecutionTopology, ReceiptV2Error>(v),
        execution_topology_of(value@) is None ==> (r matches Err(ReceiptV2Error::InvalidInput(m)) && m@ == "unknown execution topology "@ + value@),
{
    if str_eq(value, "rule_based_local") {
        return Ok(ExecutionTopology::RuleBasedLocal);
    }
    if str_eq(value, "local_process") {
        return Ok(ExecutionTopology::LocalProcess);
    }
    if str_eq(value, "local_container") {
        return Ok(ExecutionTopology::LocalContainer);
    }
    if str_eq(value, "remote_provider") {
        return Ok(ExecutionTopology::RemoteProvider);
    }
    if str_eq(value, "remote_gateway") {
        return Ok(ExecutionTopology::RemoteGateway);
    }
    if str_eq(value, "external_subprocess") {
        return Ok(ExecutionTopology::ExternalSubprocess);
    }
    if str_eq(value, "replay_file") {
        return Ok(ExecutionTopology::ReplayFile);
    }
    Err(ReceiptV2Error::InvalidInput(concat("unknown execution topology ", value)))
}

/// The replay strength a name stands for
pub open spec fn replay_strength_of(s: Seq<char>) -> Option<ReplayStrength> {
    if s == "fully_replayable"@ {
        Some(ReplayStrength::FullyReplayable)
    } else if s == "input_weights_config_bound"@ {
        Some(ReplayStrength::InputWeightsConfigBound)
    } else if s == "request_response_bound"@ {
        Some(ReplayStrength::RequestResponseBound)
    } else if s == "declared_only"@ {
        Some(ReplayStrength::DeclaredOnly)
    } else if s == "not_replayable"@ {
        Some(ReplayStrength::NotReplayable)
    } else {
        None
    }
}

/// The replay strength a name stands for; other text is refused.
pub fn replay_strength_from_str(value: &str) -> (r: Result<ReplayStrength>)
    ensures
        replay_strength_of(value@) matches Some(v) ==> r == Ok::<ReplayStrength, ReceiptV2Error>(v),
        replay_strength_of(value@) is None ==> (r matches Err(ReceiptV2Error::InvalidInput(m)) && m@ == "unknown replay strength "@ + value@),
{
    if str_eq(value, "fully_replayable") {
        return Ok(ReplayStrength::FullyReplayable);
    }
    if str_eq(value, "input_weights_config_bound") {
        return Ok(ReplayStrength::InputWeightsConfigBound);
    }
    if str_eq(value, "request_response_bound") {
        return Ok(ReplayStrength::RequestResponseBound);
    }
    if str_eq(value, "declared_only") {
        return Ok(ReplayStrength::DeclaredOnly);
    }
    if str_eq(value, "not_replayable") {
        return Ok(ReplayStrength::NotReplayable);
    }
    Err(ReceiptV2Error::InvalidInput(concat("unknown replay strength ", value)))
}

/// The risk class a name stands for; `critical` counts as high
pub open spec fn risk_class_of(s: Seq<char>) -> Option<RiskClass> {
    if s == "low"@ {
        Some(RiskClass::Low)
    } else if s == "medium"@ {
        Some(RiskClass::Medium)
    } else if s == "high"@ {
        Some(RiskClass::High)
    } else if s == "critical"@ {
        Some(RiskClass::High)
    } else {
        None
    }
}

/// The risk class a name stands for; `critical` counts as high; other text is refused.
pub fn risk_class_from_str(value: &str) -> (r: Result<RiskClass>)
    ensures
        risk_class_of(value@) matches Some(v) ==> r == Ok::<RiskClass, ReceiptV2Error>(v),
        risk_class_of(value@) is None ==> (r matches Err(ReceiptV2Error::InvalidInput(m)) && m@ == "unknown risk class "@ + value@),
{
    if str_eq(value, "low") {
        return Ok(RiskClass::Low);
    }
    if str_eq(value, "medium") {
        return Ok(RiskClass::Medium);
    }
    if str_eq(value, "high") {
        return Ok(RiskClass::High);
    }
    if str_eq(value, "critical") {
        return Ok(RiskClass::High);
    }
    Err(ReceiptV2Error::InvalidInput(concat("unknown risk class ", value)))
}

/// The control type a name stands for
pub open spec fn control_type_of(s: Seq<char>) -> Option<ControlType> {
    if s == "human_review"@ {
        Some(ControlType::HumanReview)
    } else if s == "approval"@ {
        Some(ControlType::Approval)
    } else if s == "dual_control"@ {
        Some(ControlType::DualControl)
    } else if s == "policy_exception"@ {
        Some(ControlType::PolicyException)
    } else if s == "supervisor_override"@ {
        Some(ControlType::SupervisorOverride)
    } else if s == "external_audit"@ {
        Some(ControlType::ExternalAudit)
    } else {
        None
    }
}

/// The control type a name stands for; other text is refused.
pub fn control_type_from_str(value: &str) -> (r: Result<ControlType>)
    ensures
        control_type_of(value@) matches Some(v) ==> r == Ok::<ControlType, ReceiptV2Error>(v),
        control_type_of(value@) is None ==> (r matches Err(ReceiptV2Error::InvalidInput(m)) && m@ == "unknown control type "@ + value@),
{
    if str_eq(value, "human_review") {
        return Ok(ControlType::HumanReview);
    }
    if str_eq(value, "approval") {
        return Ok(ControlType::Approval);
    }
    if str_eq(value, "dual_control") {
        return Ok(ControlType::DualControl);
    }
    if str_eq(value, "policy_exception") {
        return Ok(ControlType::PolicyException);
    }
    if str_eq(value, "supervisor_override") {
        return Ok(ControlType::SupervisorOverride);
    }
    if str_eq(value, "external_audit") {
        return Ok(ControlType::ExternalAudit);
    }
    Err(ReceiptV2Error::InvalidInput(concat("unknown control type ", value)))
}

/// The control status a name stands for
pub open spec fn control_status_of(s: Seq<char>) -> Option<ControlStatus> {
    if s == "present"@ {
        Some(ControlStatus::Present)
    } else if s == "approved"@ {
        Some(ControlStatus::Approved)
    } else if s == "rejected"@ {
        Some(ControlStatus::Rejected)
    } else if s == "expired"@ {
        Some(ControlStatus::Expired)
    } else if s == "invalid"@ {
        Some(ControlStatus::Invalid)
    } else {
        None
    }
}

/// The control status a name stands for; other text is refused.
pub fn control_status_from_str(value: &str) -> (r: Result<ControlStatus>)
    ensures
        control_status_of(value@) matches Some(v) ==> r == Ok::<ControlStatus, ReceiptV2Error>(v),
        control_status_of(value@) is None ==> (r matches Err(ReceiptV2Error::InvalidInput(m)) && m@ == "unknown control status "@ + value@),
{
    if str_eq(value, "present") {
        return Ok(ControlStatus::Present);
    }
    if str_eq(value, "approved") {
        return Ok(ControlStatus::Approved);
    }
    if str_eq(value, "rejected") {
        return Ok(ControlStatus::Rejected);
    }
    if str_eq(value, "expired") {
        return Ok(ControlStatus::Expired);
    }
    if str_eq(value, "invalid") {
        return Ok(ControlStatus::Invalid);
    }
    Err(ReceiptV2Error::InvalidInput(concat("unknown control status ", value)))
}

/// The media type a name stands for
pub open spec fn media_type_of(s: Seq<char>) -> Option<MediaType> {
    if s == "application/json"@ {
        Some(MediaType::ApplicationJson)
    } else if s == "text/plain; charset=utf-8"@ {
        Some(MediaType::TextPlain)
    } else if s == "application/yaml"@ {
        Some(MediaType::ApplicationYaml)
    } else if s == "application/octet-stream"@ {
        Some(MediaType::ApplicationOctetStream)
    } else {
        None
    }
}

/// The media type a name stands for; other text is refused.
pub fn media_type_from_str(value: &str) -> (r: Result<MediaType>)
    ensures
        media_type_of(value@) matches Some(v) ==> r == Ok::<MediaType, ReceiptV2Error>(v),
        media_type_of(value@) is None ==> (r matches Err(ReceiptV2Error::InvalidInput(m)) && m@ == "unknown media type "@ + value@),
{
    if str_eq(value, "application/json") {
        return Ok(MediaType::ApplicationJson);
    }
    if str_eq(value, "text/plain; charset=utf-8") {
        return Ok(MediaType::TextPlain);
    }
    if str_eq(value, "application/yaml") {
        return Ok(MediaType::ApplicationYaml);
    }
    if str_eq(value, "application/octet-stream") {
        return Ok(MediaType::ApplicationOctetStream);
    }
    Err(ReceiptV2Error::InvalidInput(concat("unknown media type ", value)))
}

/// The data collection policy a name stands for, unknown for any other name
pub open spec fn data_collection_of(s: Seq<char>) -> Option<DataCollectionPolicy> {
    if s == "declared_allow"@ {
        Some(DataCollectionPolicy::DeclaredAllow)
    } else if s == "declared_deny"@ {
        Some(DataCollectionPolicy::DeclaredDeny)
    } else {
        Some(DataCollectionPolicy::Unknown)
    }
}

/// The data collection policy a name stands for, unknown for any other name
pub fn data_collection_from_str(value: &str) -> (r: DataCollectionPolicy)
    ensures
        Some(r) == data_collection_of(value@),
{
    if str_eq(value, "declared_allow") {
        return DataCollectionPolicy::DeclaredAllow;
    }
    if str_eq(value, "declared_deny") {
        return DataCollectionPolicy::DeclaredDeny;
    }
    DataCollectionPolicy::Unknown
}

/// The maintainer class a name stands for, unknown for any other name
pub open spec fn maintainer_class_of(s: Seq<char>) -> Option<MaintainerClass> {
    if s == "first_party_reference"@ {
        Some(MaintainerClass::FirstPartyReference)
    } else if s == "third_party"@ {
        Some(MaintainerClass::ThirdParty)
    } else if s == "user_local"@ {
        Some(MaintainerClass::UserLocal)
    } else {
        Some(MaintainerClass::Unknown)
    }
}

/// The maintainer class a name stands for, unknown for any other name
pub fn maintainer_class_from_str(value: &str) -> (r: MaintainerClass)
    ensures
        Some(r) == maintainer_class_of(value@),
{
    if str_eq(value, "first_party_reference") {
        return MaintainerClass::FirstPartyReference;
    }
    if str_eq(value, "third_party") {
        return MaintainerClass::ThirdParty;
    }
    if str_eq(value, "user_local") {
        return MaintainerClass::UserLocal;
    }
    MaintainerClass::Unknown
}

/// The plugin trust level a name stands for, untrusted for any other name
pub open spec fn plugin_trust_of(s: Seq<char>) -> Option<PluginTrustLevel> {
    if s == "locally_allowed"@ {
        Some(PluginTrustLevel::LocallyAllowed)
    } else if s == "third_party_trusted"@ {
        Some(PluginTrustLevel::ThirdPartyTrusted)
    } else if s == "reproducibly_built"@ {
        Some(PluginTrustLevel::ReproduciblyBuilt)
    } else if s == "first_party_reference"@ {
        Some(PluginTrustLevel::FirstPartyReference)
    } else {
        Some(PluginTrustLevel::Untrusted)
    }
}

/// The plugin trust level a name stands for, untrusted for any other name
pub fn plugin_trust_from_str(value: &str) -> (r: PluginTrustLevel)
    ensures
        Some(r) == plugin_trust_of(value@),
{
    if str_eq(value, "locally_allowed") {
        return PluginTrustLevel::LocallyAllowed;
    }
    if str_eq(value, "third_party_trusted") {
        return PluginTrustLevel::ThirdPartyTrusted;
    }
    if str_eq(value, "reproducibly_built") {
        return PluginTrustLevel::ReproduciblyBuilt;
    }
    if str_eq(value, "first_party_reference") {
        return PluginTrustLevel::FirstPartyReference;
    }
    PluginTrustLevel::Untrusted
}

/// The finish reason a name stands for, unknown for any other name
pub open spec fn finish_reason_of(s: Seq<char>) -> Option<FinishReason> {
    if s == "stop"@ {
        Some(FinishReason::Stop)
    } else if s == "length"@ {
        Some(FinishReason::Length)
    } else if s == "tool_call"@ {
        Some(FinishReason::ToolCall)
    } else if s == "content_filter"@ {
        Some(FinishReason::ContentFilter)
    } else if s == "error"@ {
        Some(FinishReason::Error)
    } else {
        Some(FinishReason::Unknown)
    }
}

/// The finish reason a name stands for, unknown for any other name
pub fn finish_reason_from_str(value: &str) -> (r: FinishReason)
    ensures
        Some(r) == finish_reason_of(value@),
{
    if str_eq(value, "stop") {
        return FinishReason::Stop;
    }
    if str_eq(value, "length") {
        return FinishReason::Length;
    }
    if str_eq(value, "tool_call") {
        return FinishReason::ToolCall;
    }
    if str_eq(value, "content_filter") {
        return FinishReason::ContentFilter;
    }
    if str_eq(value, "error") {
        return FinishReason::Error;
    }
    FinishReason::Unknown
}

/// The artifact type a name stands for, other for any other name
pub open spec fn artifact_type_of(s: Seq<char>) -> Option<ArtifactType> {
    if s == "action_json"@ {
        Some(ArtifactType::ActionProposal)
    } else if s == "prompt_text"@ {
        Some(ArtifactType::Prompt)
    } else if s == "controls_json"@ {
        Some(ArtifactType::ControlSet)
    } else if s == "policy_json"@ {
        Some(ArtifactType::PolicySpec)
    } else if s == "policy_compilation_json"@ {
        Some(ArtifactType::PolicyCompilation)
    } else {
        Some(ArtifactType::Other)
    }
}

/// The artifact type a name stands for, other for any other name
pub fn artifact_type_from_str_total(value: &str) -> (r: ArtifactType)
    ensures
        Some(r) == artifact_type_of(value@),
{
    if str_eq(value, "action_json") {
        return ArtifactType::ActionProposal;
    }
    if str_eq(value, "prompt_text") {
        return ArtifactType::Prompt;
    }
    if str_eq(value, "controls_json") {
        return ArtifactType::ControlSet;
    }
    if str_eq(value, "policy_json") {
        return ArtifactType::PolicySpec;
    }
    if str_eq(value, "policy_compilation_json") {
        return ArtifactType::PolicyCompilation;
    }
    ArtifactType::Other
}

/// The decision a public decision name stands for, block for any other name
pub open spec fn decision_of(s: Seq<char>) -> Option<Decision> {
    if s == "pass"@ {
        Some(Decision::Pass)
    } else if s == "warn"@ {
        Some(Decision::Warn)
    } else {
        Some(Decision::Block)
    }
}

/// The decision a public decision name stands for, block for any other name
pub fn policy_decision_from_public(value: &str) -> (r: Decision)
    ensures
        Some(r) == decision_of(value@),
{
    if str_eq(value, "pass") {
        return Decision::Pass;
    }
    if str_eq(value, "warn") {
        return Decision::Warn;
    }
    Decision::Block
}

/// The artifact type a name stands for; every name is accepted.
pub fn artifact_type_from_str(value: &str) -> (r: Result<ArtifactType>)
    ensures
        r == Ok::<ArtifactType, ReceiptV2Error>(artifact_type_of(value@)->Some_0),
{
    Ok(artifact_type_from_str_total(value))
}

/// The plugin trust fact of the plugin trust level a name stands for.
pub fn plugin_trust_fact_from_str(value: &str) -> (r: Result<PluginTrustFact>)
    ensures
        r == Ok::<PluginTrustFact, ReceiptV2Error>(plugin_trust_fact_spec(plugin_trust_of(value@)->Some_0)),
{
    let level = plugin_trust_from_str(value);
    Ok(match level {
        PluginTrustLevel::Untrusted => PluginTrustFact::Untrusted,
        PluginTrustLevel::LocallyAllowed => PluginTrustFact::LocallyAllowed,
        PluginTrustLevel::FirstPartyReference => PluginTrustFact::FirstPartyReference,
        PluginTrustLevel::ThirdPartyTrusted => PluginTrustFact::ThirdPartyTrusted,
        PluginTrustLevel::ReproduciblyBuilt => PluginTrustFact::ReproduciblyBuilt,
    })
}

/// The 32 bytes that hexadecimal digest text decodes to, if it decodes to 32.
pub open spec fn digest_of_text(s: Seq<char>) -> Option<Seq<u8>> {
    match hex_decode_spec(vstd::utf8::encode_utf8(s)) {
        Some(b) => if b.len() == 32 { Some(b) } else { None },
        None => None,
    }
}

/// The failure, if any, of reading digest text.
pub open spec fn hex_digest_error(s: Seq<char>) -> Option<ErrorView> {
    if digest_of_text(s) is Some {
        None
    } else {
        Some(ErrorView::InvalidInput("invalid digest "@ + s))
    }
}

/// A digest from hexadecimal text; text that does not decode to 32 bytes is
/// refused.
pub fn parse_hex_digest(value: &str) -> (r: Result<Sha256Digest>)
    ensures
        digest_of_text(value@) matches Some(b) ==> (r matches Ok(d) && d@ == b),
        fails_as(r, hex_digest_error(value@)),
{
    let bytes = match crate::codec::hex_decode(value) {
        Some(b) => b,
        None => return Err(ReceiptV2Error::InvalidInput(concat("invalid digest ", value))),
    };
    if bytes.len() != 32 {
        return Err(ReceiptV2Error::InvalidInput(concat("invalid digest ", value)));
    }
    let mut out = [0u8; 32];
    let mut i: usize = 0;
    while i < 32
        invariant
            i <= 32,
            bytes@.len() == 32,
            forall|j: int| 0 <= j < i ==> out@[j] == bytes@[j],
        decreases 32 - i,
    {
        out[i] = bytes[i];
        i = i + 1;
    }
    assert(out@ =~= bytes@);
    Ok(Sha256Digest(out))
}

/// Whether a digest is the one a JSON digest's text decodes to.
pub open spec fn digest_is(d: Sha256Digest, j: DigestJson) -> bool {
    digest_of_text(j.digest@) == Some(d@)
}

/// The failure, if any, of reading a JSON digest.
pub open spec fn digest_error(j: DigestJson) -> Option<ErrorView> {
    hex_digest_error(j.digest@)
}

/// A digest from its JSON form; only the hexadecimal text is read.
pub fn parse_digest(value: &DigestJson) -> (r: Result<Sha256Digest>)
    ensures
        r matches Ok(d) ==> digest_is(d, *value),
        fails_as(r, digest_error(*value)),
{
    parse_hex_digest(value.digest.as_str())
}

/// Whether an optional digest is what an optional JSON digest decodes to.
pub open spec fn opt_digest_is(d: Option<Sha256Digest>, j: Option<DigestJson>) -> bool {
    match (d, j) {
        (None, None) => true,
        (Some(x), Some(y)) => digest_is(x, y),
        _ => false,
    }
}

/// The failure, if any, of reading an optional JSON digest.
pub open spec fn opt_digest_error(j: Option<DigestJson>) -> Option<ErrorView> {
    match j {
        Some(d) => digest_error(d),
        None => None,
    }
}

/// An optional digest from its JSON form.
pub fn parse_opt_digest(value: &Option<DigestJson>) -> (r: Result<Option<Sha256Digest>>)
    ensures
        r matches Ok(d) ==> opt_digest_is(d, *value),
        fails_as(r, opt_digest_error(*value)),
{
    match value {
        Some(d) => {
            let v = parse_digest(d)?;
            Ok(Some(v))
        },
        None => Ok(None),
    }
}

/// The failure, if any, of reading text as a bounded value of at most `max`
/// bytes.
pub open spec fn bounded_error(s: Seq<char>, max: nat) -> Option<ErrorView> {
    match non_nul_error(vstd::utf8::encode_utf8(s), max) {
        Some(e) => Some(ErrorView::Core(e)),
        None => None,
    }
}

/// Whether identity evidence is what its JSON form states.
pub open spec fn evidence_matches(e: IdentityEvidence, j: IdentityEvidenceJson) -> bool {
    match (e, j) {
        (IdentityEvidence::Declared, IdentityEvidenceJson::Declared) => true,
        (
            IdentityEvidence::ProviderDeclared { provider_model_id_hash: a },
            IdentityEvidenceJson::ProviderDeclared { provider_model_id_hash: b },
        ) => digest_is(a, b),
        (
            IdentityEvidence::LocalFilesHashed { weights_hash: w, tokenizer_hash: t, config_hash: c },
            IdentityEvidenceJson::LocalFilesHashed { weights_hash: w2, tokenizer_hash: t2, config_hash: c2 },
        ) => digest_is(w, w2) && opt_digest_is(t, t2) && opt_digest_is(c, c2),
        (IdentityEvidence::ContainerHashed { image_hash: a }, IdentityEvidenceJson::ContainerHashed { image_hash: b }) => digest_is(a, b),
        _ => false,
    }
}

/// The failure, if any, of reading identity evidence.
pub open spec fn evidence_error(j: IdentityEvidenceJson) -> Option<ErrorView> {
    match j {
        IdentityEvidenceJson::Declared => None,
        IdentityEvidenceJson::ProviderDeclared { provider_model_id_hash } => digest_error(provider_model_id_hash),
        IdentityEvidenceJson::LocalFilesHashed { weights_hash, tokenizer_hash, config_hash } => or_else(
            digest_error(weights_hash),
            or_else(opt_digest_error(tokenizer_hash), opt_digest_error(config_hash)),
        ),
        IdentityEvidenceJson::ContainerHashed { image_hash } => digest_error(image_hash),
    }
}

fn normalize_evidence(j: &IdentityEvidenceJson) -> (r: Result<IdentityEvidence>)
    ensures
        r matches Ok(e) ==> evidence_matches(e, *j),
        fails_as(r, evidence_error(*j)),
{
    match j {
        IdentityEvidenceJson::Declared => Ok(IdentityEvidence::Declared),
        IdentityEvidenceJson::ProviderDeclared { provider_model_id_hash } => {
            let d = parse_digest(provider_model_id_hash)?;
            Ok(IdentityEvidence::ProviderDeclared { provider_model_id_hash: d })
        },
        IdentityEvidenceJson::LocalFilesHashed { weights_hash, tokenizer_hash, config_hash } => {
            let w = parse_digest(weights_hash)?;
            let t = parse_opt_digest(tokenizer_hash)?;
            let c = parse_opt_digest(config_hash)?;
            Ok(IdentityEvidence::LocalFilesHashed { weights_hash: w, tokenizer_hash: t, config_hash: c })
        },
        IdentityEvidenceJson::ContainerHashed { image_hash } => {
            let d = parse_digest(image_hash)?;
            Ok(IdentityEvidence::ContainerHashed { image_hash: d })
        },
    }
}

/// The failure, if any, of reading a name that must be known.
pub open spec fn name_error<T>(known: Option<T>, prefix: Seq<char>, s: Seq<char>) -> Option<ErrorView> {
    if known is Some { None } else { Some(ErrorView::InvalidInput(prefix + s)) }
}

/// Whether an identity claim is what its JSON form states.
pub open spec fn identity_matches(c: ModelIdentityClaim, j: ModelIdentityJson) -> bool {
    &&& model_class_of(j.model_class@) == Some(c.model_class)
    &&& digest_is(c.model_ref_hash, j.model_ref_hash)
    &&& c.model_slug@ == vstd::utf8::encode_utf8(j.model_slug@)
    &&& evidence_matches(c.identity_evidence, j.identity_evidence)
}

/// The failure, if any, of reading an identity claim, in field order.
pub open spec fn identity_error(j: ModelIdentityJson) -> Option<ErrorView> {
    or_else(
        name_error(model_class_of(j.model_class@), "unknown model class "@, j.model_class@),
        or_else(
            digest_error(j.model_ref_hash),
            or_else(bounded_error(j.model_slug@, MAX_MODEL_SLUG_LEN as nat), evidence_error(j.identity_evidence)),
        ),
    )
}

fn bounded_text<'a, const N: usize>(text: &'a String) -> (r: Result<BoundedBytes<'a, N>>)
    ensures
        r matches Ok(b) ==> b@ == vstd::utf8::encode_utf8(text@),
        fails_as(r, bounded_error(text@, N as nat)),
{
    let s: &str = text.as_str();
    match BoundedBytes::<N>::new(s.as_bytes()) {
        Ok(b) => Ok(b),
        Err(e) => Err(ReceiptV2Error::Core(e)),
    }
}

fn normalize_identity<'a>(j: &'a ModelIdentityJson) -> (r: Result<ModelIdentityClaim<'a>>)
    ensures
        r matches Ok(c) ==> identity_matches(c, *j),
        fails_as(r, identity_error(*j)),
{
    let model_class = model_class_from_str(j.model_class.as_str())?;
    let model_ref_hash = parse_digest(&j.model_ref_hash)?;
    let model_slug = bounded_text::<MAX_MODEL_SLUG_LEN>(&j.model_slug)?;
    let identity_evidence = normalize_evidence(&j.identity_evidence)?;
    Ok(ModelIdentityClaim { model_class, model_ref_hash, model_slug, identity_evidence })
}

/// Whether a requested output is what its JSON form states.
pub open spec fn requested_matches(o: RequestedOutput, j: RequestedOutputJson) -> bool {
    match (o, j) {
        (RequestedOutput::FreeText, RequestedOutputJson::FreeText) => true,
        (RequestedOutput::JsonSchema { schema_hash: a }, RequestedOutputJson::JsonSchema { schema_hash: b }) => digest_is(a, b),
        (RequestedOutput::ToolCall { tool_spec_hash: a }, RequestedOutputJson::ToolCall { tool_spec_hash: b }) => digest_is(a, b),
        _ => false,
    }
}

/// The failure, if any, of reading a requested output.
pub open spec fn requested_error(j: RequestedOutputJson) -> Option<ErrorView> {
    match j {
        RequestedOutputJson::FreeText => None,
        RequestedOutputJson::JsonSchema { schema_hash } => digest_error(schema_hash),
        RequestedOutputJson::ToolCall { tool_spec_hash } => digest_error(tool_spec_hash),
    }
}

fn normalize_requested(j: &RequestedOutputJson) -> (r: Result<RequestedOutput>)
    ensures
        r matches Ok(o) ==> requested_matches(o, *j),
        fails_as(r, requested_error(*j)),
{
    match j {
        RequestedOutputJson::FreeText => Ok(RequestedOutput::FreeText),
        RequestedOutputJson::JsonSchema { schema_hash } => {
            let d = parse_digest(schema_hash)?;
            Ok(RequestedOutput::JsonSchema { schema_hash: d })
        },
        RequestedOutputJson::ToolCall { tool_spec_hash } => {
            let d = parse_digest(tool_spec_hash)?;
            Ok(RequestedOutput::ToolCall { tool_spec_hash: d })
        },
    }
}

/// Whether an invocation claim is what its JSON form states.
pub open spec fn invocation_matches(c: ModelInvocationClaim, j: ModelInvocationJson) -> bool {
    &&& digest_is(c.action_hash, j.action_hash)
    &&& digest_is(c.messages_hash, j.messages_hash)
    &&& opt_digest_is(c.system_prompt_hash, j.system_prompt_hash)
    &&& opt_digest_is(c.tool_spec_hash, j.tool_spec_hash)
    &&& opt_digest_is(c.response_schema_hash, j.response_schema_hash)
    &&& digest_is(c.parameters_hash, j.parameters_hash)
    &&& requested_matches(c.requested_output, j.requested_output)
}

/// The failure, if any, of reading an invocation claim, in field order.
pub open spec fn invocation_error(j: ModelInvocationJson) -> Option<ErrorView> {
    or_else(digest_error(j.action_hash), or_else(digest_error(j.messages_hash), or_else(
        opt_digest_error(j.system_prompt_hash),
        or_else(opt_digest_error(j.tool_spec_hash), or_else(
            opt_digest_error(j.response_schema_hash),
            or_else(digest_error(j.parameters_hash), requested_error(j.requested_output)),
        )),
    )))
}

fn normalize_invocation(j: &ModelInvocationJson) -> (r: Result<ModelInvocationClaim>)
    ensures
        r matches Ok(c) ==> invocation_matches(c, *j),
        fails_as(r, invocation_error(*j)),
{
    let action_hash = parse_digest(&j.action_hash)?;
    let messages_hash = parse_digest(&j.messages_hash)?;
    let system_prompt_hash = parse_opt_digest(&j.system_prompt_hash)?;
    let tool_spec_hash = parse_opt_digest(&j.tool_spec_hash)?;
    let response_schema_hash = parse_opt_digest(&j.response_schema_hash)?;
    let parameters_hash = parse_digest(&j.parameters_hash)?;
    let requested_output = normalize_requested(&j.requested_output)?;
    Ok(ModelInvocationClaim {
        action_hash,
        messages_hash,
        system_prompt_hash,
        tool_spec_hash,
        response_schema_hash,
        parameters_hash,
        requested_output,
    })
}

/// Whether an observation claim is what its JSON form states.
pub open spec fn observation_matches(c: ModelObservationClaim, j: ModelObservationJson) -> bool {
    &&& opt_digest_is(c.output_text_hash, j.output_text_hash)
    &&& opt_digest_is(c.structured_output_hash, j.structured_output_hash)
    &&& opt_digest_is(c.provider_metadata_hash, j.provider_metadata_hash)
    &&& finish_reason_of(j.finish_reason@) == Some(c.finish_reason)
    &&& c.usage == TokenUsage {
        input_tokens: j.usage.input_tokens,
        output_tokens: j.usage.output_tokens,
        total_tokens: j.usage.total_tokens,
    }
}

/// The failure, if any, of reading an observation claim, in field order.
pub open spec fn observation_error(j: ModelObservationJson) -> Option<ErrorView> {
    or_else(
        opt_digest_error(j.output_text_hash),
        or_else(opt_digest_error(j.structured_output_hash), opt_digest_error(j.provider_metadata_hash)),
    )
}

fn normalize_observation(j: &ModelObservationJson) -> (r: Result<ModelObservationClaim>)
    ensures
        r matches Ok(c) ==> observation_matches(c, *j),
        fails_as(r, observation_error(*j)),
{
    let output_text_hash = parse_opt_digest(&j.output_text_hash)?;
    let structured_output_hash = parse_opt_digest(&j.structured_output_hash)?;
    let provider_metadata_hash = parse_opt_digest(&j.provider_metadata_hash)?;
    Ok(ModelObservationClaim {
        output_text_hash,
        structured_output_hash,
        provider_metadata_hash,
        finish_reason: finish_reason_from_str(j.finish_reason.as_str()),
        usage: TokenUsage {
            input_tokens: j.usage.input_tokens,
            output_tokens: j.usage.output_tokens,
            total_tokens: j.usage.total_tokens,
        },
    })
}

/// Whether a runtime claim is what its JSON form states.
pub open spec fn runtime_matches(c: RuntimeClaim, j: RuntimeJson) -> bool {
    &&& runtime_kind_of(j.runtime_kind@) == Some(c.runtime_kind)
    &&& execution_topology_of(j.execution_topology@) == Some(c.execution_topology)
    &&& replay_strength_of(j.replay_strength@) == Some(c.replay_strength)
    &&& c.determinism == DeterminismClaim { deterministic: j.determinism.deterministic, seed_bound: j.determinism.seed_bound }
    &&& c.isolation == IsolationClaim { process_isolated: j.isolation.process_isolated }
    &&& c.provider_routing.fallbacks_allowed == j.provider_routing.fallbacks_allowed
    &&& c.provider_routing.provider_pinned == j.provider_routing.provider_pinned
    &&& data_collection_of(j.provider_routing.data_collection_policy@) == Some(c.provider_routing.data_collection_policy)
}

/// The failure, if any, of reading a runtime claim, in field order.
pub open spec fn runtime_error(j: RuntimeJson) -> Option<ErrorView> {
    or_else(
        name_error(runtime_kind_of(j.runtime_kind@), "unknown runtime kind "@, j.runtime_kind@),
        or_else(
            name_error(execution_topology_of(j.execution_topology@), "unknown execution topology "@, j.execution_topology@),
            name_error(replay_strength_of(j.replay_strength@), "unknown replay strength "@, j.replay_strength@),
        ),
    )
}

/// The runtime claim that a JSON runtime states.
pub fn normalize_runtime(j: &RuntimeJson) -> (r: Result<RuntimeClaim>)
    ensures
        r matches Ok(c) ==> runtime_matches(c, *j),
        fails_as(r, runtime_error(*j)),
{
    let runtime_kind = runtime_kind_from_str(j.runtime_kind.as_str())?;
    let execution_topology = execution_topology_from_str(j.execution_topology.as_str())?;
    let replay_strength = replay_strength_from_str(j.replay_strength.as_str())?;
    Ok(RuntimeClaim {
        runtime_kind,
        execution_topology,
        replay_strength,
        determinism: DeterminismClaim { deterministic: j.determinism.deterministic, seed_bound: j.determinism.seed_bound },
        isolation: IsolationClaim { process_isolated: j.isolation.process_isolated },
        provider_routing: ProviderRoutingClaim {
            fallbacks_allowed: j.provider_routing.fallbacks_allowed,
            provider_pinned: j.provider_routing.provider_pinned,
            data_collection_policy: data_collection_from_str(j.provider_routing.data_collection_policy.as_str()),
        },
    })
}

/// Whether a plugin claim is what its JSON form states.
pub open spec fn plugin_matches(c: PluginClaim, j: PluginJson) -> bool {
    &&& digest_is(c.plugin_id_hash, j.plugin_id_hash)
    &&& digest_is(c.plugin_version_hash, j.plugin_version_hash)
    &&& c.plugin_api_version == PluginApiVersion::V1
    &&& maintainer_class_of(j.maintainer_class@) == Some(c.maintainer_class)
    &&& c.normalization == NormalizationClaim {
        input_normalized: j.normalization.input_normalized,
        output_normalized: j.normalization.output_normalized,
        raw_request_preserved: j.normalization.raw_request_preserved,
        raw_response_preserved: j.normalization.raw_response_preserved,
        secrets_redacted: j.normalization.secrets_redacted,
    }
    &&& digest_is(c.plugin_manifest_hash, j.plugin_manifest_hash)
    &&& c.plugin_id_hint@ == vstd::utf8::encode_utf8(j.plugin_id_hint@)
    &&& plugin_trust_of(j.trust_level@) == Some(c.trust_level)
}

/// The failure, if any, of reading a plugin claim, in field order.
pub open spec fn plugin_error(j: PluginJson) -> Option<ErrorView> {
    or_else(digest_error(j.plugin_id_hash), or_else(
        digest_error(j.plugin_version_hash),
        or_else(digest_error(j.plugin_manifest_hash), bounded_error(j.plugin_id_hint@, MAX_PLUGIN_ID_HINT_LEN as nat)),
    ))
}

fn normalize_plugin<'a>(j: &'a PluginJson) -> (r: Result<PluginClaim<'a>>)
    ensures
        r matches Ok(c) ==> plugin_matches(c, *j),
        fails_as(r, plugin_error(*j)),
{
    let plugin_id_hash = parse_digest(&j.plugin_id_hash)?;
    let plugin_version_hash = parse_digest(&j.plugin_version_hash)?;
    let maintainer_class = maintainer_class_from_str(j.maintainer_class.as_str());
    let plugin_manifest_hash = parse_digest(&j.plugin_manifest_hash)?;
    let plugin_id_hint = bounded_text::<MAX_PLUGIN_ID_HINT_LEN>(&j.plugin_id_hint)?;
    Ok(PluginClaim {
        plugin_id_hash,
        plugin_version_hash,
        plugin_api_version: PluginApiVersion::V1,
        maintainer_class,
        normalization: NormalizationClaim {
            input_normalized: j.normalization.input_normalized,
            output_normalized: j.normalization.output_normalized,
            raw_request_preserved: j.normalization.raw_request_preserved,
            raw_response_preserved: j.normalization.raw_response_preserved,
            secrets_redacted: j.normalization.secrets_redacted,
        },
        plugin_manifest_hash,
        plugin_id_hint,
        trust_level: plugin_trust_from_str(j.trust_level.as_str()),
    })
}

/// Whether a model waist is what its JSON form states.
pub open spec fn model_matches(w: ModelWaist, j: ModelWaistJson) -> bool {
    &&& identity_matches(w.identity, j.identity)
    &&& invocation_matches(w.invocation, j.invocation)
    &&& observation_matches(w.observation, j.observation)
    &&& runtime_matches(w.runtime, j.runtime)
    &&& plugin_matches(w.plugin, j.plugin)
}

/// `ink.model-waist.v1`
pub const MODEL_WAIST_SCHEMA_V1: &'static str = "ink.model-waist.v1";

/// The failure, if any, of reading a model waist before its checks: a wrong
/// schema, then each part in field order.
pub open spec fn model_json_error(j: ModelWaistJson) -> Option<ErrorView> {
    if j.schema@ != MODEL_WAIST_SCHEMA_V1@ {
        Some(ErrorView::InvalidInput("expected "@ + MODEL_WAIST_SCHEMA_V1@))
    } else {
        or_else(identity_error(j.identity), or_else(invocation_error(j.invocation), or_else(
            observation_error(j.observation),
            or_else(runtime_error(j.runtime), plugin_error(j.plugin)),
        )))
    }
}

pub proof fn lemma_model_error_determined(w: ModelWaist, w2: ModelWaist, j: ModelWaistJson)
    requires
        model_matches(w, j),
        model_matches(w2, j),
    ensures
        model_error(w) == model_error(w2),
{
}

/// The model waist that a JSON model waist states, which must then pass its
/// checks: every digest must be 32 bytes of hexadecimal text, every name known,
/// the slug and plugin hint within their bounds.
pub fn normalize_model<'a>(json_model: &'a ModelWaistJson) -> (r: Result<ModelWaist<'a>>)
    ensures
        model_json_error(*json_model) matches Some(e) ==> (r matches Err(x) && x@ == e),
        model_json_error(*json_model) is None ==> forall|w: ModelWaist| #[trigger] model_matches(w, *json_model) ==> {
            &&& model_error(w) matches Some(e) ==> r == Err::<ModelWaist, ReceiptV2Error>(ReceiptV2Error::Core(e))
            &&& model_error(w) is None ==> r is Ok
        },
        r matches Ok(w) ==> model_matches(w, *json_model) && model_error(w) is None,
{
    if !str_eq(json_model.schema.as_str(), MODEL_WAIST_SCHEMA_V1) {
        return Err(crate::receipt_v2::expected_schema(MODEL_WAIST_SCHEMA_V1));
    }
    let identity = normalize_identity(&json_model.identity)?;
    let invocation = normalize_invocation(&json_model.invocation)?;
    let observation = normalize_observation(&json_model.observation)?;
    let runtime = normalize_runtime(&json_model.runtime)?;
    let plugin = normalize_plugin(&json_model.plugin)?;
    let model = ModelWaist { identity, invocation, observation, runtime, plugin };
    proof {
        assert forall|w: ModelWaist| #[trigger] model_matches(w, *json_model) implies model_error(w) == model_error(model) by {
            lemma_model_error_determined(w, model, *json_model);
        }
    }
    match model.validate() {
        Ok(()) => Ok(model),
        Err(e) => Err(ReceiptV2Error::Core(e)),
    }
}

/// The failure, if any, of reading text as an identifier of at most `max` bytes.
pub open spec fn id_error(s: Seq<char>, max: nat) -> Option<ErrorView> {
    match identifier_error(vstd::utf8::encode_utf8(s), max) {
        Some(e) => Some(ErrorView::Core(e)),
        None => None,
    }
}

fn identifier_text<'a, const N: usize>(text: &'a String) -> (r: Result<BoundedBytes<'a, N>>)
    ensures
        r matches Ok(b) ==> b@ == vstd::utf8::encode_utf8(text@),
        fails_as(r, id_error(text@, N as nat)),
{
    let s: &str = text.as_str();
    match BoundedBytes::<N>::new_identifier(s.as_bytes()) {
        Ok(b) => Ok(b),
        Err(e) => Err(ReceiptV2Error::Core(e)),
    }
}

/// The bytes that URL-safe Base64 text decodes to, if it decodes to `n` bytes.
pub open spec fn fixed_of(s: Seq<char>, n: nat) -> Option<Seq<u8>> {
    match base64url_decode_spec(s) {
        Some(b) => if b.len() == n { Some(b) } else { None },
        None => None,
    }
}

/// The failure, if any, of decoding Base64 text to `n` bytes.
pub open spec fn fixed_error(s: Seq<char>, n: nat) -> Option<ErrorView> {
    match base64url_decode_spec(s) {
        None => Some(ErrorView::InvalidInput("invalid base64"@)),
        Some(b) => if b.len() == n { None } else { Some(ErrorView::InvalidInput("invalid fixed length"@)) },
    }
}

/// Exactly `N` bytes from unpadded URL-safe Base64 text.
pub fn decode_fixed<const N: usize>(value: &str) -> (r: Result<[u8; N]>)
    ensures
        r matches Ok(a) ==> fixed_of(value@, N as nat) == Some(a@),
        fails_as(r, fixed_error(value@, N as nat)),
{
    let bytes = match crate::crypto::base64url_decode(value) {
        Some(b) => b,
        None => return Err(ReceiptV2Error::InvalidInput(crate::receipt_v2::owned_text("invalid base64"))),
    };
    if bytes.len() != N {
        return Err(ReceiptV2Error::InvalidInput(crate::receipt_v2::owned_text("invalid fixed length")));
    }
    let mut out = [0u8; N];
    let mut i: usize = 0;
    while i < N
        invariant
            i <= N,
            bytes@.len() == N,
            out@.len() == N,
            forall|j: int| 0 <= j < i ==> out@[j] == bytes@[j],
        decreases N - i,
    {
        out[i] = bytes[i];
        i = i + 1;
    }
    assert(out@ =~= bytes@);
    Ok(out)
}

/// The policy facts a receipt states, where every name is known.
pub open spec fn facts_of(f: PolicyFactsJson) -> PolicyFacts {
    PolicyFacts {
        risk_class: risk_class_of(f.risk_class@)->Some_0,
        requires_human_review: f.requires_human_review,
        binding_effect_present: f.binding_effect_present,
        provider_fallbacks_allowed: f.provider_fallbacks_allowed,
        plugin_trust_level: plugin_trust_fact_spec(plugin_trust_of(f.plugin_trust_level@)->Some_0),
        runtime_kind: runtime_kind_of(f.runtime_kind@)->Some_0,
        replay_strength: replay_strength_of(f.replay_strength@)->Some_0,
        model_class: model_class_of(f.model_class@)->Some_0,
    }
}

/// The failure, if any, of reading policy facts, in field order.
pub open spec fn facts_error(f: PolicyFactsJson) -> Option<ErrorView> {
    or_else(name_error(risk_class_of(f.risk_class@), "unknown risk class "@, f.risk_class@), or_else(
        name_error(runtime_kind_of(f.runtime_kind@), "unknown runtime kind "@, f.runtime_kind@),
        or_else(
            name_error(replay_strength_of(f.replay_strength@), "unknown replay strength "@, f.replay_strength@),
            name_error(model_class_of(f.model_class@), "unknown model class "@, f.model_class@),
        ),
    ))
}

fn normalize_facts(f: &PolicyFactsJson) -> (r: Result<PolicyFacts>)
    ensures
        r matches Ok(x) ==> x == facts_of(*f),
        fails_as(r, facts_error(*f)),
{
    let risk_class = risk_class_from_str(f.risk_class.as_str())?;
    let plugin_trust_level = plugin_trust_fact_from_str(f.plugin_trust_level.as_str())?;
    let runtime_kind = runtime_kind_from_str(f.runtime_kind.as_str())?;
    let replay_strength = replay_strength_from_str(f.replay_strength.as_str())?;
    let model_class = model_class_from_str(f.model_class.as_str())?;
    Ok(PolicyFacts {
        risk_class,
        requires_human_review: f.requires_human_review,
        binding_effect_present: f.binding_effect_present,
        provider_fallbacks_allowed: f.provider_fallbacks_allowed,
        plugin_trust_level,
        runtime_kind,
        replay_strength,
        model_class,
    })
}

/// The message of a receipt whose runtime disagrees with its model's runtime.
pub open spec fn projection_mismatch() -> ErrorView {
    ErrorView::InvalidInput("receipt runtime projection does not match model runtime"@)
}

/// The failure, if any, of the receipt's runtime summary against the model's
/// runtime: each of kind, topology and replay strength is read and compared in
/// turn.
pub open spec fn projection_error(r: ReceiptJson) -> Option<ErrorView> {
    let m = r.model.runtime;
    match runtime_kind_of(r.runtime.runtime_kind@) {
        None => Some(ErrorView::InvalidInput("unknown runtime kind "@ + r.runtime.runtime_kind@)),
        Some(k) => if Some(k) != runtime_kind_of(m.runtime_kind@) {
            Some(projection_mismatch())
        } else {
            match execution_topology_of(r.runtime.execution_topology@) {
                None => Some(ErrorView::InvalidInput("unknown execution topology "@ + r.runtime.execution_topology@)),
                Some(t) => if Some(t) != execution_topology_of(m.execution_topology@) {
                    Some(projection_mismatch())
                } else {
                    match replay_strength_of(r.runtime.replay_strength@) {
                        None => Some(ErrorView::InvalidInput("unknown replay strength "@ + r.runtime.replay_strength@)),
                        Some(x) => if Some(x) != replay_strength_of(m.replay_strength@) {
                            Some(projection_mismatch())
                        } else {
                            None
                        },
                    }
                },
            }
        },
    }
}

fn check_projection(r: &ReceiptJson, model: &RuntimeClaim) -> (res: Result<()>)
    requires
        runtime_matches(*model, r.model.runtime),
    ensures
        fails_as(res, projection_error(*r)),
{
    let kind = runtime_kind_from_str(r.runtime.runtime_kind.as_str())?;
    if kind != model.runtime_kind {
        return Err(ReceiptV2Error::InvalidInput(crate::receipt_v2::owned_text("receipt runtime projection does not match model runtime")));
    }
    let topology = execution_topology_from_str(r.runtime.execution_topology.as_str())?;
    if topology != model.execution_topology {
        return Err(ReceiptV2Error::InvalidInput(crate::receipt_v2::owned_text("receipt runtime projection does not match model runtime")));
    }
    let strength = replay_strength_from_str(r.runtime.replay_strength.as_str())?;
    if strength != model.replay_strength {
        return Err(ReceiptV2Error::InvalidInput(crate::receipt_v2::owned_text("receipt runtime projection does not match model runtime")));
    }
    Ok(())
}

/// The failure, if any, of reading the receipt's identifiers, issuer, policy and
/// summary digests, in field order.
pub open spec fn fields_error(r: ReceiptJson) -> Option<ErrorView> {
    or_else(id_error(r.receipt_id@, MAX_ID_LEN as nat), or_else(id_error(r.action_id@, MAX_ID_LEN as nat), or_else(
        bounded_error(r.issuer.name@, MAX_ISSUER_NAME_LEN as nat),
        or_else(id_error(r.issuer.key_id@, MAX_ID_LEN as nat), or_else(
            fixed_error(r.issuer.public_key@, 32),
            or_else(digest_error(r.manifest_hash), or_else(
                bounded_error(r.policy.id@, MAX_POLICY_ID_LEN as nat),
                or_else(bounded_error(r.policy.version@, MAX_POLICY_VERSION_LEN as nat), or_else(
                    digest_error(r.policy.hash),
                    or_else(digest_error(r.evidence_summary_hash), digest_error(r.controls_summary_hash)),
                )),
            )),
        )),
    )))
}

/// The reason slots of a receipt: one per reason code, each the code's bytes.
pub fn reason_slots<'a>(receipt: &'a ReceiptJson) -> (r: Vec<ReasonCodeSlot<'a>>)
    ensures
        r@.len() == receipt.reason_codes@.len(),
        forall|i: int| 0 <= i < r@.len() ==> #[trigger] r@[i].bytes@ == vstd::utf8::encode_utf8(receipt.reason_codes@[i]@),
{
    let mut slots: Vec<ReasonCodeSlot<'a>> = Vec::new();
    let mut i: usize = 0;
    while i < receipt.reason_codes.len()
        invariant
            i <= receipt.reason_codes@.len(),
            slots@.len() == i,
            forall|j: int| 0 <= j < i ==> #[trigger] slots@[j].bytes@ == vstd::utf8::encode_utf8(receipt.reason_codes@[j]@),
        decreases receipt.reason_codes@.len() - i,
    {
        let code: &str = receipt.reason_codes[i].as_str();
        slots.push(ReasonCodeSlot { bytes: code.as_bytes() });
        i = i + 1;
    }
    slots
}

/// Whether a payload is what a JSON receipt states, with `slots` as its reasons.
pub open spec fn payload_matches(p: ReceiptPayload, r: ReceiptJson, slots: Seq<ReasonCodeSlot>) -> bool {
    &&& p.schema_version == ReceiptSchemaVersion::V2
    &&& p.receipt_profile == ReceiptProfile::ThinWaistV2
    &&& p.receipt_id@ == vstd::utf8::encode_utf8(r.receipt_id@)
    &&& p.action_id@ == vstd::utf8::encode_utf8(r.action_id@)
    &&& p.issued_at == TimestampUtc { unix_seconds: r.issued_at, nanos: 0 }
    &&& p.issuer.name@ == vstd::utf8::encode_utf8(r.issuer.name@)
    &&& p.issuer.key_id@ == vstd::utf8::encode_utf8(r.issuer.key_id@)
    &&& fixed_of(r.issuer.public_key@, 32) == Some(p.issuer.public_key.0@)
    &&& digest_is(p.manifest_hash, r.manifest_hash)
    &&& p.policy.policy_id@ == vstd::utf8::encode_utf8(r.policy.id@)
    &&& p.policy.policy_version@ == vstd::utf8::encode_utf8(r.policy.version@)
    &&& digest_is(p.policy.policy_hash, r.policy.hash)
    &&& model_matches(p.model, r.model)
    &&& p.facts == facts_of(r.facts)
    &&& decision_of(r.decision@) == Some(p.decision)
    &&& p.reasons@ == slots
    &&& digest_is(p.evidence_summary_hash, r.evidence_summary_hash)
    &&& digest_is(p.controls_summary_hash, r.controls_summary_hash)
}

/// The failure, if any, of reading a receipt once its model is read and
/// checked: its facts, its runtime summary, then its other fields.
pub open spec fn after_model_error(r: ReceiptJson) -> Option<ErrorView> {
    or_else(facts_error(r.facts), or_else(projection_error(r), fields_error(r)))
}

pub proof fn lemma_payload_error_determined(p: ReceiptPayload, p2: ReceiptPayload, r: ReceiptJson, slots: Seq<ReasonCodeSlot>)
    requires
        payload_matches(p, r, slots),
        payload_matches(p2, r, slots),
    ensures
        payload_error(p) == payload_error(p2),
{
    lemma_model_error_determined(p.model, p2.model, r.model);
}

proof fn lemma_opt_digest_determined(a: Option<Sha256Digest>, b: Option<Sha256Digest>, j: Option<DigestJson>)
    requires
        opt_digest_is(a, j),
        opt_digest_is(b, j),
    ensures
        crate::legacy::receipt::opt_digest_bytes(a) == crate::legacy::receipt::opt_digest_bytes(b),
{
}

proof fn lemma_model_head_determined(w: ModelWaist, w2: ModelWaist, j: ModelWaistJson, prefix: Seq<u8>)
    requires
        model_matches(w, j),
        model_matches(w2, j),
    ensures
        crate::legacy::receipt::model_head_transcript(prefix, w) == crate::legacy::receipt::model_head_transcript(prefix, w2),
{
    lemma_opt_digest_determined(w.invocation.system_prompt_hash, w2.invocation.system_prompt_hash, j.invocation.system_prompt_hash);
    lemma_opt_digest_determined(w.invocation.tool_spec_hash, w2.invocation.tool_spec_hash, j.invocation.tool_spec_hash);
    lemma_opt_digest_determined(w.invocation.response_schema_hash, w2.invocation.response_schema_hash, j.invocation.response_schema_hash);
    match (w.identity.identity_evidence, w2.identity.identity_evidence) {
        (IdentityEvidence::LocalFilesHashed { tokenizer_hash: t, config_hash: c, .. },
         IdentityEvidence::LocalFilesHashed { tokenizer_hash: t2, config_hash: c2, .. }) => {
            match j.identity.identity_evidence {
                IdentityEvidenceJson::LocalFilesHashed { tokenizer_hash: tj, config_hash: cj, .. } => {
                    lemma_opt_digest_determined(t, t2, tj);
                    lemma_opt_digest_determined(c, c2, cj);
                },
                _ => {},
            }
        },
        _ => {},
    }
}

/// Two model waists read from one JSON model waist have the same transcript,
/// and the same runtime transcript.
pub proof fn lemma_model_transcript_determined(w: ModelWaist, w2: ModelWaist, j: ModelWaistJson)
    requires
        model_matches(w, j),
        model_matches(w2, j),
    ensures
        crate::legacy::receipt::model_hash_spec(w) == crate::legacy::receipt::model_hash_spec(w2),
        w.runtime == w2.runtime,
{
    lemma_model_head_determined(w, w2, j, Seq::empty());
    lemma_opt_digest_determined(w.observation.output_text_hash, w2.observation.output_text_hash, j.observation.output_text_hash);
    lemma_opt_digest_determined(w.observation.structured_output_hash, w2.observation.structured_output_hash, j.observation.structured_output_hash);
    lemma_opt_digest_determined(w.observation.provider_metadata_hash, w2.observation.provider_metadata_hash, j.observation.provider_metadata_hash);
    assert(w.runtime == w2.runtime);
    assert(crate::legacy::receipt::plugin_transcript(Seq::empty(), w.plugin) == crate::legacy::receipt::plugin_transcript(Seq::empty(), w2.plugin));
    assert(crate::legacy::receipt::model_transcript(Seq::empty(), w) == crate::legacy::receipt::model_transcript(Seq::empty(), w2));
}

fn payload_fields<'a>(receipt: &'a ReceiptJson, model: ModelWaist<'a>, facts: PolicyFacts, slots: &'a [ReasonCodeSlot<'a>]) -> (r: Result<ReceiptPayload<'a>>)
    requires
        model_matches(model, receipt.model),
        facts == facts_of(receipt.facts),
    ensures
        r matches Ok(p) ==> payload_matches(p, *receipt, slots@),
        fails_as(r, fields_error(*receipt)),
{
    let receipt_id = identifier_text::<MAX_ID_LEN>(&receipt.receipt_id)?;
    let action_id = identifier_text::<MAX_ID_LEN>(&receipt.action_id)?;
    let issued_at = TimestampUtc { unix_seconds: receipt.issued_at, nanos: 0 };
    let name = bounded_text::<MAX_ISSUER_NAME_LEN>(&receipt.issuer.name)?;
    let key_id = identifier_text::<MAX_ID_LEN>(&receipt.issuer.key_id)?;
    let public_key = decode_fixed::<32>(receipt.issuer.public_key.as_str())?;
    let manifest_hash = parse_digest(&receipt.manifest_hash)?;
    let policy_id = bounded_text::<MAX_POLICY_ID_LEN>(&receipt.policy.id)?;
    let policy_version = bounded_text::<MAX_POLICY_VERSION_LEN>(&receipt.policy.version)?;
    let policy_hash = parse_digest(&receipt.policy.hash)?;
    let evidence_summary_hash = parse_digest(&receipt.evidence_summary_hash)?;
    let controls_summary_hash = parse_digest(&receipt.controls_summary_hash)?;
    Ok(ReceiptPayload {
        schema_version: ReceiptSchemaVersion::V2,
        receipt_id,
        receipt_profile: ReceiptProfile::ThinWaistV2,
        action_id,
        issued_at,
        issuer: IssuerClaim { name, key_id, public_key: Ed25519PublicKey(public_key) },
        manifest_hash,
        policy: PolicyBinding { policy_id, policy_version, policy_hash },
        model,
        facts,
        decision: policy_decision_from_public(receipt.decision.as_str()),
        reasons: slots,
        evidence_summary_hash,
        controls_summary_hash,
    })
}

/// The payload a JSON receipt states, with `slots` as its reasons; the model,
/// facts, runtime summary and fields are read in turn, and the payload must then
/// pass its checks.
pub fn receipt_payload_from_json<'a>(receipt: &'a ReceiptJson, slots: &'a [ReasonCodeSlot<'a>]) -> (r: Result<ReceiptPayload<'a>>)
    ensures
        model_json_error(receipt.model) matches Some(e) ==> (r matches Err(x) && x@ == e),
        model_json_error(receipt.model) is None ==> forall|w: ModelWaist| #[trigger] model_matches(w, receipt.model) ==> {
            &&& model_error(w) matches Some(e) ==> r == Err::<ReceiptPayload, ReceiptV2Error>(ReceiptV2Error::Core(e))
            &&& (model_error(w) is None && after_model_error(*receipt) is Some) ==> fails_as(r, after_model_error(*receipt))
            &&& model_error(w) is None && after_model_error(*receipt) is None ==> forall|p: ReceiptPayload|
                #[trigger] payload_matches(p, *receipt, slots@) ==> {
                    &&& payload_error(p) matches Some(e) ==> r == Err::<ReceiptPayload, ReceiptV2Error>(ReceiptV2Error::Core(e))
                    &&& payload_error(p) is None ==> r is Ok
                }
        },
        r matches Ok(p) ==> payload_matches(p, *receipt, slots@) && payload_error(p) is None,
{
    let model = normalize_model(&receipt.model)?;
    assert(model_matches(model, receipt.model));
    let facts = normalize_facts(&receipt.facts)?;
    check_projection(receipt, &model.runtime)?;
    let payload = payload_fields(receipt, model, facts, slots)?;
    proof {
        assert forall|p: ReceiptPayload| #[trigger] payload_matches(p, *receipt, slots@) implies payload_error(p) == payload_error(payload) by {
            lemma_payload_error_determined(p, payload, *receipt, slots@);
        }
    }
    match payload.validate() {
        Ok(()) => Ok(payload),
        Err(e) => Err(ReceiptV2Error::Core(e)),
    }
}

} // verus!
