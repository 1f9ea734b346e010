use vstd::prelude::*;
use crate::error::{Error, Result};
use crate::limits::{MAX_MODEL_SLUG_LEN, MAX_PLUGIN_ID_HINT_LEN};
use crate::types::{BoundedBytes, Sha256Digest};

verus! {

/// What kind of model produced an output.
#[derive(Clone, Copy, Debug, PartialEq, Eq, Structural)]
pub enum ModelClass {
    OpenWeight,
    ClosedWeight,
    HostedApi,
    Replay,
    DeterministicDemo,
}

/// The number that stands for a model class in transcripts.
pub open spec fn model_class_code(v: ModelClass) -> u8 {
    match v {
        ModelClass::OpenWeight => 0,
        ModelClass::ClosedWeight => 1,
        ModelClass::HostedApi => 2,
        ModelClass::Replay => 3,
        ModelClass::DeterministicDemo => 4,
    }
}

impl ModelClass {
    /// The number that stands for this value in transcripts.
    pub fn as_u8(self) -> (r: u8)
        ensures
            r == model_class_code(self),
    {
        match self {
            ModelClass::OpenWeight => 0,
            ModelClass::ClosedWeight => 1,
            ModelClass::HostedApi => 2,
            ModelClass::Replay => 3,
            ModelClass::DeterministicDemo => 4,
        }
    }
}

/// Why a model stopped producing output.
#[derive(Clone, Copy, Debug, PartialEq, Eq, Structural)]
pub enum FinishReason {
    Stop,
    Length,
    ToolCall,
    ContentFilter,
    Error,
    Unknown,
}

/// The number that stands for a finish reason in transcripts.
pub open spec fn finish_reason_code(v: FinishReason) -> u8 {
    match v {
        FinishReason::Stop => 0,
        FinishReason::Length => 1,
        FinishReason::ToolCall => 2,
        FinishReason::ContentFilter => 3,
        FinishReason::Error => 4,
        FinishReason::Unknown => 5,
    }
}

impl FinishReason {
    /// The number that stands for this value in transcripts.
    pub fn as_u8(self) -> (r: u8)
        ensures
            r == finish_reason_code(self),
    {
        match self {
            FinishReason::Stop => 0,
            FinishReason::Length => 1,
            FinishReason::ToolCall => 2,
            FinishReason::ContentFilter => 3,
            FinishReason::Error => 4,
            FinishReason::Unknown => 5,
        }
    }
}

/// Where and how a model ran.
#[derive(Clone, Copy, Debug, PartialEq, Eq, Structural)]
pub enum RuntimeKind {
    DeterministicDemo,
    LocalOpenWeightModel,
    LocalClosedWeightModel,
    HostedModelApi,
    HostedModelGateway,
    ExternalProcess,
    ReplayOnly,
}

/// The number that stands for a runtime kind in transcripts.
pub open spec fn runtime_kind_code(v: RuntimeKind) -> u8 {
    match v {
        RuntimeKind::DeterministicDemo => 0,
        RuntimeKind::LocalOpenWeightModel => 1,
        RuntimeKind::LocalClosedWeightModel => 2,
        RuntimeKind::HostedModelApi => 3,
        RuntimeKind::HostedModelGateway => 4,
        RuntimeKind::ExternalProcess => 5,
        RuntimeKind::ReplayOnly => 6,
    }
}

impl RuntimeKind {
    /// The number that stands for this value in transcripts.
    pub fn as_u8(self) -> (r: u8)
        ensures
            r == runtime_kind_code(self),
    {
        match self {
            RuntimeKind::DeterministicDemo => 0,
            RuntimeKind::LocalOpenWeightModel => 1,
            RuntimeKind::LocalClosedWeightModel => 2,
            RuntimeKind::HostedModelApi => 3,
            RuntimeKind::HostedModelGateway => 4,
            RuntimeKind::ExternalProcess => 5,
            RuntimeKind::ReplayOnly => 6,
        }
    }
}

/// The shape of the execution that ran a model.
#[derive(Clone, Copy, Debug, PartialEq, Eq, Structural)]
pub enum ExecutionTopology {
    RuleBasedLocal,
    LocalProcess,
    LocalContainer,
    RemoteProvider,
    RemoteGateway,
    ExternalSubprocess,
    ReplayFile,
}

/// The number that stands for a execution topology in transcripts.
pub open spec fn execution_topology_code(v: ExecutionTopology) -> u8 {
    match v {
        ExecutionTopology::RuleBasedLocal => 0,
        ExecutionTopology::LocalProcess => 1,
        ExecutionTopology::LocalContainer => 2,
        ExecutionTopology::RemoteProvider => 3,
        ExecutionTopology::RemoteGateway => 4,
        ExecutionTopology::ExternalSubprocess => 5,
        ExecutionTopology::ReplayFile => 6,
    }
}

impl ExecutionTopology {
    /// The number that stands for this value in transcripts.
    pub fn as_u8(self) -> (r: u8)
        ensures
            r == execution_topology_code(self),
    {
        match self {
            ExecutionTopology::RuleBasedLocal => 0,
            ExecutionTopology::LocalProcess => 1,
            ExecutionTopology::LocalContainer => 2,
            ExecutionTopology::RemoteProvider => 3,
            ExecutionTopology::RemoteGateway => 4,
            ExecutionTopology::ExternalSubprocess => 5,
            ExecutionTopology::ReplayFile => 6,
        }
    }
}

/// How far a model run can be replayed, strongest first.
#[derive(Clone, Copy, Debug, PartialEq, Eq, Structural)]
pub enum ReplayStrength {
    FullyReplayable,
    InputWeightsConfigBound,
    RequestResponseBound,
    DeclaredOnly,
    NotReplayable,
}

/// The number that stands for a replay strength in transcripts.
pub open spec fn replay_strength_code(v: ReplayStrength) -> u8 {
    match v {
        ReplayStrength::FullyReplayable => 0,
        ReplayStrength::InputWeightsConfigBound => 1,
        ReplayStrength::RequestResponseBound => 2,
        ReplayStrength::DeclaredOnly => 3,
        ReplayStrength::NotReplayable => 4,
    }
}

impl ReplayStrength {
    /// The number that stands for this value in transcripts.
    pub fn as_u8(self) -> (r: u8)
        ensures
            r == replay_strength_code(self),
    {
        match self {
            ReplayStrength::FullyReplayable => 0,
            ReplayStrength::InputWeightsConfigBound => 1,
            ReplayStrength::RequestResponseBound => 2,
            ReplayStrength::DeclaredOnly => 3,
            ReplayStrength::NotReplayable => 4,
        }
    }
}

/// Who maintains a plugin.
#[derive(Clone, Copy, Debug, PartialEq, Eq, Structural)]
pub enum MaintainerClass {
    FirstPartyReference,
    ThirdParty,
    UserLocal,
    Unknown,
}

/// The number that stands for a maintainer class in transcripts.
pub open spec fn maintainer_class_code(v: MaintainerClass) -> u8 {
    match v {
        MaintainerClass::FirstPartyReference => 0,
        MaintainerClass::ThirdParty => 1,
        MaintainerClass::UserLocal => 2,
        MaintainerClass::Unknown => 3,
    }
}

impl MaintainerClass {
    /// The number that stands for this value in transcripts.
    pub fn as_u8(self) -> (r: u8)
        ensures
            r == maintainer_class_code(self),
    {
        match self {
            MaintainerClass::FirstPartyReference => 0,
            MaintainerClass::ThirdParty => 1,
            MaintainerClass::UserLocal => 2,
            MaintainerClass::Unknown => 3,
        }
    }
}

/// How far a plugin is trusted.
#[derive(Clone, Copy, Debug, PartialEq, Eq, Structural)]
pub enum PluginTrustLevel {
    Untrusted,
    LocallyAllowed,
    FirstPartyReference,
    ThirdPartyTrusted,
    ReproduciblyBuilt,
}

/// The number that stands for a plugin trust level in transcripts.
pub open spec fn plugin_trust_level_code(v: PluginTrustLevel) -> u8 {
    match v {
        PluginTrustLevel::Untrusted => 0,
        PluginTrustLevel::LocallyAllowed => 1,
        PluginTrustLevel::FirstPartyReference => 2,
        PluginTrustLevel::ThirdPartyTrusted => 3,
        PluginTrustLevel::ReproduciblyBuilt => 4,
    }
}

impl PluginTrustLevel {
    /// The number that stands for this value in transcripts.
    pub fn as_u8(self) -> (r: u8)
        ensures
            r == plugin_trust_level_code(self),
    {
        match self {
            PluginTrustLevel::Untrusted => 0,
            PluginTrustLevel::LocallyAllowed => 1,
            PluginTrustLevel::FirstPartyReference => 2,
            PluginTrustLevel::ThirdPartyTrusted => 3,
            PluginTrustLevel::ReproduciblyBuilt => 4,
        }
    }
}

/// Whether a provider may collect the data it is sent.
#[derive(Clone, Copy, Debug, PartialEq, Eq, Structural)]
pub enum DataCollectionPolicy {
    DeclaredAllow,
    DeclaredDeny,
    Unknown,
}

/// The version of the plugin interface.
#[derive(Clone, Copy, Debug, PartialEq, Eq, Structural)]
pub enum PluginApiVersion {
    V1,
}

/// How a model's identity was established.
#[derive(Clone, Copy, Debug)]
pub enum IdentityEvidence {
    Declared,
    ProviderDeclared { provider_model_id_hash: Sha256Digest },
    LocalFilesHashed { weights_hash: Sha256Digest, tokenizer_hash: Option<Sha256Digest>, config_hash: Option<Sha256Digest> },
    ContainerHashed { image_hash: Sha256Digest },
}

/// The form of output a model was asked for.
#[derive(Clone, Copy, Debug)]
pub enum RequestedOutput {
    FreeText,
    JsonSchema { schema_hash: Sha256Digest },
    ToolCall { tool_spec_hash: Sha256Digest },
}

/// Which model ran.
#[derive(Clone, Copy, Debug)]
pub struct ModelIdentityClaim<'a> {
    pub model_class: ModelClass,
    pub model_ref_hash: Sha256Digest,
    pub model_slug: BoundedBytes<'a, MAX_MODEL_SLUG_LEN>,
    pub identity_evidence: IdentityEvidence,
}

/// What the model was asked.
#[derive(Clone, Copy, Debug)]
pub struct ModelInvocationClaim {
    pub action_hash: Sha256Digest,
    pub messages_hash: Sha256Digest,
    pub system_prompt_hash: Option<Sha256Digest>,
    pub tool_spec_hash: Option<Sha256Digest>,
    pub response_schema_hash: Option<Sha256Digest>,
    pub parameters_hash: Sha256Digest,
    pub requested_output: RequestedOutput,
}

/// Whether an optional digest is present and equal to `d`.
pub open spec fn opt_digest_is(o: Option<Sha256Digest>, d: Sha256Digest) -> bool {
    o matches Some(v) && v@ == d@
}

/// Whether the requested output agrees with the invocation: a JSON schema
/// output names the response schema, and a tool call names the tool
/// specification.
pub open spec fn invocation_ok(i: ModelInvocationClaim) -> bool {
    match i.requested_output {
        RequestedOutput::FreeText => true,
        RequestedOutput::JsonSchema { schema_hash } => opt_digest_is(i.response_schema_hash, schema_hash),
        RequestedOutput::ToolCall { tool_spec_hash } => opt_digest_is(i.tool_spec_hash, tool_spec_hash),
    }
}

fn opt_digest_eq(o: Option<Sha256Digest>, d: Sha256Digest) -> (r: bool)
    ensures
        r == opt_digest_is(o, d),
{
    match o {
        Some(v) => v == d,
        None => false,
    }
}

impl ModelInvocationClaim {
    /// Checks that the requested output agrees with the invocation.
    pub fn validate(&self) -> (r: Result<()>)
        ensures
            invocation_ok(*self) ==> r is Ok,
            !invocation_ok(*self) ==> r == Err::<(), Error>(Error::InvalidRequestedOutputShape),
    {
        let ok = match self.requested_output {
            RequestedOutput::FreeText => true,
            RequestedOutput::JsonSchema { schema_hash } => opt_digest_eq(self.response_schema_hash, schema_hash),
            RequestedOutput::ToolCall { tool_spec_hash } => opt_digest_eq(self.tool_spec_hash, tool_spec_hash),
        };
        if ok {
            Ok(())
        } else {
            Err(Error::InvalidRequestedOutputShape)
        }
    }
}

/// Token counts a provider reported.
#[derive(Clone, Copy, Debug, PartialEq, Eq, Structural)]
pub struct TokenUsage {
    pub input_tokens: Option<u32>,
    pub output_tokens: Option<u32>,
    pub total_tokens: Option<u32>,
}

/// Whether the reported counts agree: where all three are present, the input
/// and output counts, added with saturation at `u32::MAX`, do not exceed the
/// total.
pub open spec fn usage_ok(u: TokenUsage) -> bool {
    match (u.input_tokens, u.output_tokens, u.total_tokens) {
        (Some(i), Some(o), Some(t)) => (if i + o > u32::MAX { u32::MAX as int } else { i + o }) <= t,
        _ => true,
    }
}

impl TokenUsage {
    /// Checks that the reported counts agree.
    pub fn validate(&self) -> (r: Result<()>)
        ensures
            usage_ok(*self) ==> r is Ok,
            !usage_ok(*self) ==> r == Err::<(), Error>(Error::InvalidTokenUsageTotals),
    {
        match (self.input_tokens, self.output_tokens, self.total_tokens) {
            (Some(input), Some(output), Some(total)) => {
                if input.saturating_add(output) > total {
                    return Err(Error::InvalidTokenUsageTotals);
                }
                Ok(())
            },
            _ => Ok(()),
        }
    }
}

/// What the model returned.
#[derive(Clone, Copy, Debug)]
pub struct ModelObservationClaim {
    pub output_text_hash: Option<Sha256Digest>,
    pub structured_output_hash: Option<Sha256Digest>,
    pub provider_metadata_hash: Option<Sha256Digest>,
    pub finish_reason: FinishReason,
    pub usage: TokenUsage,
}

impl ModelObservationClaim {
    /// Checks the token counts.
    pub fn validate(&self) -> (r: Result<()>)
        ensures
            usage_ok(self.usage) ==> r is Ok,
            !usage_ok(self.usage) ==> r == Err::<(), Error>(Error::InvalidTokenUsageTotals),
    {
        self.usage.validate()
    }
}

/// Whether a run was deterministic and bound to a seed.
#[derive(Clone, Copy, Debug, PartialEq, Eq, Structural)]
pub struct DeterminismClaim {
    pub deterministic: bool,
    pub seed_bound: bool,
}

/// Whether a run was isolated in its own process.
#[derive(Clone, Copy, Debug, PartialEq, Eq, Structural)]
pub struct IsolationClaim {
    pub process_isolated: bool,
}

/// How requests were routed to providers.
#[derive(Clone, Copy, Debug, PartialEq, Eq, Structural)]
pub struct ProviderRoutingClaim {
    pub fallbacks_allowed: bool,
    pub provider_pinned: bool,
    pub data_collection_policy: DataCollectionPolicy,
}

/// Where and how a model ran.
#[derive(Clone, Copy, Debug, PartialEq, Eq, Structural)]
pub struct RuntimeClaim {
    pub runtime_kind: RuntimeKind,
    pub execution_topology: ExecutionTopology,
    pub replay_strength: ReplayStrength,
    pub determinism: DeterminismClaim,
    pub isolation: IsolationClaim,
    pub provider_routing: ProviderRoutingClaim,
}

/// Whether a runtime kind and topology fit together.
pub open spec fn topology_fits(kind: RuntimeKind, t: ExecutionTopology) -> bool {
    match kind {
        RuntimeKind::DeterministicDemo => t == ExecutionTopology::RuleBasedLocal,
        RuntimeKind::LocalOpenWeightModel => t == ExecutionTopology::LocalProcess || t == ExecutionTopology::LocalContainer,
        RuntimeKind::LocalClosedWeightModel => t == ExecutionTopology::LocalProcess || t == ExecutionTopology::LocalContainer,
        RuntimeKind::HostedModelApi => t == ExecutionTopology::RemoteProvider,
        RuntimeKind::HostedModelGateway => t == ExecutionTopology::RemoteGateway,
        RuntimeKind::ExternalProcess => t == ExecutionTopology::ExternalSubprocess,
        RuntimeKind::ReplayOnly => t == ExecutionTopology::ReplayFile,
    }
}

/// Whether a runtime claim is well shaped: a seed is bound only to a
/// deterministic run, the topology fits the kind, and a deterministic demo is
/// fully replayable, deterministic and seed-bound.
pub open spec fn runtime_ok(r: RuntimeClaim) -> bool {
    &&& !(r.determinism.seed_bound && !r.determinism.deterministic)
    &&& topology_fits(r.runtime_kind, r.execution_topology)
    &&& (r.runtime_kind == RuntimeKind::DeterministicDemo ==> r.replay_strength == ReplayStrength::FullyReplayable
        && r.determinism.deterministic && r.determinism.seed_bound)
}

impl RuntimeClaim {
    /// Checks the shape of the runtime claim.
    pub fn validate(&self) -> (r: Result<()>)
        ensures
            runtime_ok(*self) ==> r is Ok,
            !runtime_ok(*self) ==> r == Err::<(), Error>(Error::InvalidRuntimeShape),
    {
        if self.determinism.seed_bound && !self.determinism.deterministic {
            return Err(Error::InvalidRuntimeShape);
        }
        let t = self.execution_topology;
        let ok = match self.runtime_kind {
            RuntimeKind::DeterministicDemo => t == ExecutionTopology::RuleBasedLocal
                && self.replay_strength == ReplayStrength::FullyReplayable && self.determinism.deterministic
                && self.determinism.seed_bound,
            RuntimeKind::LocalOpenWeightModel | RuntimeKind::LocalClosedWeightModel => t
                == ExecutionTopology::LocalProcess || t == ExecutionTopology::LocalContainer,
            RuntimeKind::HostedModelApi => t == ExecutionTopology::RemoteProvider,
            RuntimeKind::HostedModelGateway => t == ExecutionTopology::RemoteGateway,
            RuntimeKind::ExternalProcess => t == ExecutionTopology::ExternalSubprocess,
            RuntimeKind::ReplayOnly => t == ExecutionTopology::ReplayFile,
        };
        if !ok {
            return Err(Error::InvalidRuntimeShape);
        }
        Ok(())
    }
}

/// How a plugin treated what passed through it.
#[derive(Clone, Copy, Debug, PartialEq, Eq, Structural)]
pub struct NormalizationClaim {
    pub input_normalized: bool,
    pub output_normalized: bool,
    pub raw_request_preserved: bool,
    pub raw_response_preserved: bool,
    pub secrets_redacted: bool,
}

/// The plugin that connected to the model.
#[derive(Clone, Copy, Debug)]
pub struct PluginClaim<'a> {
    pub plugin_id_hash: Sha256Digest,
    pub plugin_version_hash: Sha256Digest,
    pub plugin_api_version: PluginApiVersion,
    pub maintainer_class: MaintainerClass,
    pub normalization: NormalizationClaim,
    pub plugin_manifest_hash: Sha256Digest,
    pub plugin_id_hint: BoundedBytes<'a, MAX_PLUGIN_ID_HINT_LEN>,
    pub trust_level: PluginTrustLevel,
}

/// Everything a receipt records of a model run.
#[derive(Clone, Copy, Debug)]
pub struct ModelWaist<'a> {
    pub identity: ModelIdentityClaim<'a>,
    pub invocation: ModelInvocationClaim,
    pub observation: ModelObservationClaim,
    pub runtime: RuntimeClaim,
    pub plugin: PluginClaim<'a>,
}

/// Whether the model class agrees with the runtime: a deterministic demo is
/// declared and runs as a fully replayable, deterministic, seed-bound demo, and
/// a replay runs replay-only.
pub open spec fn model_shape_ok(m: ModelWaist) -> bool {
    match m.identity.model_class {
        ModelClass::DeterministicDemo => {
            &&& m.identity.identity_evidence is Declared
            &&& m.runtime.runtime_kind == RuntimeKind::DeterministicDemo
            &&& m.runtime.execution_topology == ExecutionTopology::RuleBasedLocal
            &&& m.runtime.replay_strength == ReplayStrength::FullyReplayable
            &&& m.runtime.determinism.deterministic
            &&& m.runtime.determinism.seed_bound
        },
        ModelClass::Replay => m.runtime.runtime_kind == RuntimeKind::ReplayOnly,
        _ => true,
    }
}

/// The failure, if any, of a model waist: the runtime, the invocation, the
/// token counts and the model's shape, checked in that order.
pub open spec fn model_error(m: ModelWaist) -> Option<Error> {
    if !runtime_ok(m.runtime) {
        Some(Error::InvalidRuntimeShape)
    } else if !invocation_ok(m.invocation) {
        Some(Error::InvalidRequestedOutputShape)
    } else if !usage_ok(m.observation.usage) {
        Some(Error::InvalidTokenUsageTotals)
    } else if !model_shape_ok(m) {
        Some(Error::InvalidModelShape)
    } else {
        None
    }
}

impl<'a> ModelWaist<'a> {
    /// Checks the runtime, the invocation, the token counts and the model's shape.
    pub fn validate(&self) -> (r: Result<()>)
        ensures
            model_error(*self) matches Some(e) ==> r == Err::<(), Error>(e),
            model_error(*self) is None ==> r is Ok,
    {
        self.runtime.validate()?;
        self.invocation.validate()?;
        self.observation.validate()?;
        let ok = match self.identity.model_class {
            ModelClass::DeterministicDemo => {
                let declared = match self.identity.identity_evidence {
                    IdentityEvidence::Declared => true,
                    _ => false,
                };
                declared && self.runtime.runtime_kind == RuntimeKind::DeterministicDemo
                    && self.runtime.execution_topology == ExecutionTopology::RuleBasedLocal
                    && self.runtime.replay_strength == ReplayStrength::FullyReplayable
                    && self.runtime.determinism.deterministic && self.runtime.determinism.seed_bound
            },
            ModelClass::Replay => self.runtime.runtime_kind == RuntimeKind::ReplayOnly,
            _ => true,
        };
        if !ok {
            return Err(Error::InvalidModelShape);
        }
        Ok(())
    }
}

} // verus!
