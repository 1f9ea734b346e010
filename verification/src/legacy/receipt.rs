use vstd::prelude::*;
use crate::bytes::be32;
use crate::crypto::sha256_spec;
use crate::digest::{
    be_i64, bool_byte, tlv, write_bool_field, write_i64_field, write_tlv, write_u32_field,
    write_u8_field, Sha256Sink, TranscriptSink,
};
use crate::domain::{
    FACTS_DOMAIN, MODEL_WAIST_DOMAIN, RECEIPT_TRANSCRIPT_LEGACY_V1_DOMAIN,
    RECEIPT_TRANSCRIPT_TLV_V2_DOMAIN, RUNTIME_DOMAIN,
};
use crate::error::{Error, Result};
use crate::field_ids;
use crate::legacy::policy::{
    decision_code, plugin_trust_fact_code, risk_class_code, Decision, EvaluationOut,
    PluginTrustFact, PolicyFacts, ReasonCodeSlot,
};
use crate::limits::{MAX_ISSUER_NAME_LEN, MAX_POLICY_ID_LEN, MAX_POLICY_VERSION_LEN, MAX_REASONS, MAX_REASON_CODE_LEN};
use crate::model_waist::{
    execution_topology_code, finish_reason_code, maintainer_class_code, model_class_code,
    model_error, plugin_trust_level_code, replay_strength_code, runtime_kind_code,
    DataCollectionPolicy, IdentityEvidence, ModelWaist, PluginClaim, PluginTrustLevel,
    RequestedOutput, RuntimeClaim,
};
use crate::types::{identifier_error, ActionId, BoundedBytes, Ed25519PublicKey, KeyId, ReceiptId, Sha256Digest, TimestampUtc, NANOS_PER_SECOND};

verus! {

/// The schema version of a receipt payload.
#[derive(Clone, Copy, Debug, PartialEq, Eq, Structural)]
pub enum ReceiptSchemaVersion {
    V2,
}

impl ReceiptSchemaVersion {
    /// The number that stands for the version in transcripts: two.
    pub fn as_u8(self) -> (r: u8)
        ensures
            r == 2,
    {
        2
    }
}

/// The profile of a receipt payload.
#[derive(Clone, Copy, Debug, PartialEq, Eq, Structural)]
pub enum ReceiptProfile {
    ThinWaistV2,
}

impl ReceiptProfile {
    /// The number that stands for the profile in transcripts: one.
    pub fn as_u8(self) -> (r: u8)
        ensures
            r == 1,
    {
        1
    }
}

/// Who issued a receipt, and the key they sign with.
#[derive(Clone, Copy, Debug)]
pub struct IssuerClaim<'a> {
    pub name: BoundedBytes<'a, MAX_ISSUER_NAME_LEN>,
    pub key_id: KeyId<'a>,
    pub public_key: Ed25519PublicKey,
}

/// The policy a receipt was decided under.
#[derive(Clone, Copy, Debug)]
pub struct PolicyBinding<'a> {
    pub policy_id: BoundedBytes<'a, MAX_POLICY_ID_LEN>,
    pub policy_version: BoundedBytes<'a, MAX_POLICY_VERSION_LEN>,
    pub policy_hash: Sha256Digest,
}

/// Everything a signed receipt states.
#[derive(Clone, Copy, Debug)]
pub struct ReceiptPayload<'a> {
    pub schema_version: ReceiptSchemaVersion,
    pub receipt_id: ReceiptId<'a>,
    pub receipt_profile: ReceiptProfile,
    pub action_id: ActionId<'a>,
    pub issued_at: TimestampUtc,
    pub issuer: IssuerClaim<'a>,
    pub manifest_hash: Sha256Digest,
    pub policy: PolicyBinding<'a>,
    pub model: ModelWaist<'a>,
    pub facts: PolicyFacts,
    pub decision: Decision,
    pub reasons: &'a [ReasonCodeSlot<'a>],
    pub evidence_summary_hash: Sha256Digest,
    pub controls_summary_hash: Sha256Digest,
}

/// What an issuer supplies to build a receipt payload, before the policy
/// decision.
#[derive(Clone, Copy, Debug)]
pub struct ReceiptInput<'a> {
    pub receipt_id: ReceiptId<'a>,
    pub action_id: ActionId<'a>,
    pub issued_at: TimestampUtc,
    pub issuer: IssuerClaim<'a>,
    pub manifest_hash: Sha256Digest,
    pub policy: PolicyBinding<'a>,
    pub model: ModelWaist<'a>,
    pub facts: PolicyFacts,
    pub evidence_summary_hash: Sha256Digest,
    pub controls_summary_hash: Sha256Digest,
}

/// The policy fact that stands for a plugin trust level.
pub open spec fn plugin_trust_fact_spec(level: PluginTrustLevel) -> PluginTrustFact {
    match level {
        PluginTrustLevel::Untrusted => PluginTrustFact::Untrusted,
        PluginTrustLevel::LocallyAllowed => PluginTrustFact::LocallyAllowed,
        PluginTrustLevel::FirstPartyReference => PluginTrustFact::FirstPartyReference,
        PluginTrustLevel::ThirdPartyTrusted => PluginTrustFact::ThirdPartyTrusted,
        PluginTrustLevel::ReproduciblyBuilt => PluginTrustFact::ReproduciblyBuilt,
    }
}

fn plugin_trust_fact(level: PluginTrustLevel) -> (r: PluginTrustFact)
    ensures
        r == plugin_trust_fact_spec(level),
{
    match level {
        PluginTrustLevel::Untrusted => PluginTrustFact::Untrusted,
        PluginTrustLevel::LocallyAllowed => PluginTrustFact::LocallyAllowed,
        PluginTrustLevel::FirstPartyReference => PluginTrustFact::FirstPartyReference,
        PluginTrustLevel::ThirdPartyTrusted => PluginTrustFact::ThirdPartyTrusted,
        PluginTrustLevel::ReproduciblyBuilt => PluginTrustFact::ReproduciblyBuilt,
    }
}

/// Whether the policy facts repeat what the model waist states of the
/// runtime, replay strength, model class and plugin trust.
pub open spec fn facts_match_model(facts: PolicyFacts, model: ModelWaist) -> bool {
    &&& facts.runtime_kind == model.runtime.runtime_kind
    &&& facts.replay_strength == model.runtime.replay_strength
    &&& facts.model_class == model.identity.model_class
    &&& facts.plugin_trust_level == plugin_trust_fact_spec(model.plugin.trust_level)
}

/// The failure, if any, of an input: its timestamp, its model waist, and the
/// agreement of its facts with the model, checked in that order.
pub open spec fn input_error(issued_at: TimestampUtc, model: ModelWaist, facts: PolicyFacts) -> Option<Error> {
    if issued_at.nanos >= NANOS_PER_SECOND {
        Some(Error::InvalidTimestamp)
    } else if model_error(model) is Some {
        model_error(model)
    } else if !facts_match_model(facts, model) {
        Some(Error::InconsistentReceiptPayload)
    } else {
        None
    }
}

/// The first failing reason code, if any.
pub open spec fn reasons_error(rs: Seq<ReasonCodeSlot>) -> Option<Error>
    decreases rs.len(),
{
    if rs.len() == 0 {
        None
    } else {
        match identifier_error(rs[0].bytes@, MAX_REASON_CODE_LEN as nat) {
            Some(e) => Some(e),
            None => reasons_error(rs.drop_first()),
        }
    }
}

/// The failure, if any, of a payload made of these parts: the checks of an
/// input, then the reason codes: at least one, at most `MAX_REASONS`, each a
/// valid code.
pub open spec fn payload_parts_error(issued_at: TimestampUtc, model: ModelWaist, facts: PolicyFacts, reasons: Seq<ReasonCodeSlot>) -> Option<Error> {
    if input_error(issued_at, model, facts) is Some {
        input_error(issued_at, model, facts)
    } else if reasons.len() == 0 {
        Some(Error::EmptyValue)
    } else if reasons.len() > MAX_REASONS {
        Some(Error::TooManyReasons)
    } else {
        reasons_error(reasons)
    }
}

/// The failure, if any, of a payload.
pub open spec fn payload_error(p: ReceiptPayload) -> Option<Error> {
    payload_parts_error(p.issued_at, p.model, p.facts, p.reasons@)
}

proof fn lemma_reasons_valid(rs: Seq<ReasonCodeSlot>)
    requires
        reasons_error(rs) is None,
    ensures
        forall|i: int| 0 <= i < rs.len() ==> #[trigger] identifier_error(rs[i].bytes@, MAX_REASON_CODE_LEN as nat) is None,
    decreases rs.len(),
{
    if rs.len() > 0 {
        lemma_reasons_valid(rs.drop_first());
        assert forall|i: int| 0 <= i < rs.len() implies #[trigger] identifier_error(rs[i].bytes@, MAX_REASON_CODE_LEN as nat) is None by {
            if i > 0 {
                assert(rs[i] == rs.drop_first()[i - 1]);
            }
        }
    }
}

fn check_input(issued_at: &TimestampUtc, model: &ModelWaist, facts: &PolicyFacts) -> (r: Result<()>)
    ensures
        input_error(*issued_at, *model, *facts) matches Some(e) ==> r == Err::<(), Error>(e),
        input_error(*issued_at, *model, *facts) is None ==> r is Ok,
{
    issued_at.validate()?;
    model.validate()?;
    if facts.runtime_kind != model.runtime.runtime_kind || facts.replay_strength != model.runtime.replay_strength
        || facts.model_class != model.identity.model_class
        || facts.plugin_trust_level != plugin_trust_fact(model.plugin.trust_level)
    {
        return Err(Error::InconsistentReceiptPayload);
    }
    Ok(())
}

impl<'a> ReceiptInput<'a> {
    /// Checks the timestamp, the model waist, and that the facts repeat what the
    /// model states.
    pub fn validate(&self) -> (r: Result<()>)
        ensures
            input_error(self.issued_at, self.model, self.facts) matches Some(e) ==> r == Err::<(), Error>(e),
            input_error(self.issued_at, self.model, self.facts) is None ==> r is Ok,
    {
        check_input(&self.issued_at, &self.model, &self.facts)
    }
}

fn check_reasons(reasons: &[ReasonCodeSlot]) -> (r: Result<()>)
    ensures
        reasons_error(reasons@) matches Some(e) ==> r == Err::<(), Error>(e),
        reasons_error(reasons@) is None ==> r is Ok,
{
    let mut i: usize = 0;
    assert(reasons@.subrange(0, reasons@.len() as int) =~= reasons@);
    while i < reasons.len()
        invariant
            i <= reasons@.len(),
            reasons_error(reasons@) == reasons_error(reasons@.subrange(i as int, reasons@.len() as int)),
        decreases reasons@.len() - i,
    {
        let ghost rest = reasons@.subrange(i as int, reasons@.len() as int);
        assert(rest[0] == reasons@[i as int]);
        assert(rest.drop_first() =~= reasons@.subrange(i + 1, reasons@.len() as int));
        BoundedBytes::<MAX_REASON_CODE_LEN>::new_reason_code(reasons[i].bytes)?;
        i = i + 1;
    }
    assert(reasons@.subrange(reasons@.len() as int, reasons@.len() as int) =~= Seq::<ReasonCodeSlot>::empty());
    Ok(())
}

impl<'a> ReceiptPayload<'a> {
    /// Checks the payload as an input, then its reason codes.
    pub fn validate(&self) -> (r: Result<()>)
        ensures
            payload_error(*self) matches Some(e) ==> r == Err::<(), Error>(e),
            payload_error(*self) is None ==> r is Ok,
    {
        check_input(&self.issued_at, &self.model, &self.facts)?;
        if self.reasons.len() == 0 {
            return Err(Error::EmptyValue);
        }
        if self.reasons.len() > MAX_REASONS {
            return Err(Error::TooManyReasons);
        }
        check_reasons(self.reasons)
    }
}

/// The payload that an input and a policy evaluation make.
pub open spec fn payload_of<'a>(input: ReceiptInput<'a>, decision: Decision, reasons: &'a [ReasonCodeSlot<'a>]) -> ReceiptPayload<'a> {
    ReceiptPayload {
        schema_version: ReceiptSchemaVersion::V2,
        receipt_id: input.receipt_id,
        receipt_profile: ReceiptProfile::ThinWaistV2,
        action_id: input.action_id,
        issued_at: input.issued_at,
        issuer: input.issuer,
        manifest_hash: input.manifest_hash,
        policy: input.policy,
        model: input.model,
        facts: input.facts,
        decision,
        reasons,
        evidence_summary_hash: input.evidence_summary_hash,
        controls_summary_hash: input.controls_summary_hash,
    }
}

/// Builds the payload of an input and a policy evaluation, and checks it.
pub fn build_receipt_payload<'a>(input: ReceiptInput<'a>, evaluation: &'a EvaluationOut<'a>) -> (r: Result<ReceiptPayload<'a>>)
    ensures
        payload_parts_error(input.issued_at, input.model, input.facts, evaluation.reasons@) matches Some(e)
            ==> r == Err::<ReceiptPayload<'a>, Error>(e),
        payload_parts_error(input.issued_at, input.model, input.facts, evaluation.reasons@) is None
            ==> (r matches Ok(p) && p == payload_of(input, evaluation.decision, p.reasons)
            && p.reasons@ == evaluation.reasons@),
{
    input.validate()?;
    let reasons = evaluation.reasons.as_slice();
    let payload = ReceiptPayload {
        schema_version: ReceiptSchemaVersion::V2,
        receipt_id: input.receipt_id,
        receipt_profile: ReceiptProfile::ThinWaistV2,
        action_id: input.action_id,
        issued_at: input.issued_at,
        issuer: input.issuer,
        manifest_hash: input.manifest_hash,
        policy: input.policy,
        model: input.model,
        facts: input.facts,
        decision: evaluation.decision,
        reasons,
        evidence_summary_hash: input.evidence_summary_hash,
        controls_summary_hash: input.controls_summary_hash,
    };
    payload.validate()?;
    Ok(payload)
}

/// `prefix` followed by a digest field.
pub open spec fn digest_field(prefix: Seq<u8>, field_id: u16, d: Sha256Digest) -> Seq<u8> {
    prefix + tlv(field_id, d@)
}

/// The value of an optional digest field: the digest, or nothing.
pub open spec fn opt_digest_bytes(d: Option<Sha256Digest>) -> Seq<u8> {
    match d {
        Some(v) => v@,
        None => Seq::empty(),
    }
}

fn write_digest_field<S: TranscriptSink>(sink: &mut S, field_id: u16, digest: Sha256Digest)
    ensures
        final(sink).transcript() == old(sink).transcript() + tlv(field_id, digest@),
{
    let _ = write_tlv(sink, field_id, digest.0.as_slice());
}

fn write_optional_digest_field<S: TranscriptSink>(sink: &mut S, field_id: u16, digest: Option<Sha256Digest>)
    ensures
        final(sink).transcript() == old(sink).transcript() + tlv(field_id, opt_digest_bytes(digest)),
{
    match digest {
        Some(value) => write_digest_field(sink, field_id, value),
        None => {
            let empty: [u8; 0] = [];
            assert(empty@ =~= Seq::<u8>::empty());
            let _ = write_tlv(sink, field_id, empty.as_slice());
        },
    }
}

/// The number that stands for a data collection policy in transcripts.
pub open spec fn data_collection_code(p: DataCollectionPolicy) -> u8 {
    match p {
        DataCollectionPolicy::DeclaredAllow => 1,
        DataCollectionPolicy::DeclaredDeny => 2,
        DataCollectionPolicy::Unknown => 3,
    }
}

/// The runtime claim transcript after `prefix`.
pub open spec fn runtime_transcript(prefix: Seq<u8>, r: RuntimeClaim) -> Seq<u8> {
    prefix + tlv(1, RUNTIME_DOMAIN@) + tlv(2, seq![runtime_kind_code(r.runtime_kind)])
        + tlv(3, seq![execution_topology_code(r.execution_topology)])
        + tlv(4, seq![replay_strength_code(r.replay_strength)])
        + tlv(5, seq![bool_byte(r.determinism.deterministic)])
        + tlv(6, seq![bool_byte(r.determinism.seed_bound)])
        + tlv(7, seq![bool_byte(r.isolation.process_isolated)])
        + tlv(8, seq![bool_byte(r.provider_routing.fallbacks_allowed)])
        + tlv(9, seq![bool_byte(r.provider_routing.provider_pinned)])
        + tlv(10, seq![data_collection_code(r.provider_routing.data_collection_policy)])
}

/// The hash of a runtime claim.
pub fn runtime_claim_hash(runtime: RuntimeClaim) -> (r: Sha256Digest)
    ensures
        r@ == sha256_spec(runtime_transcript(Seq::empty(), runtime)),
{
    let mut sink = Sha256Sink::new();
    let _ = write_tlv(&mut sink, field_ids::runtime_claim::DOMAIN, RUNTIME_DOMAIN.as_slice());
    write_u8_field(&mut sink, field_ids::runtime_claim::RUNTIME_KIND, runtime.runtime_kind.as_u8());
    write_u8_field(&mut sink, field_ids::runtime_claim::EXECUTION_TOPOLOGY, runtime.execution_topology.as_u8());
    write_u8_field(&mut sink, field_ids::runtime_claim::REPLAY_STRENGTH, runtime.replay_strength.as_u8());
    write_bool_field(&mut sink, field_ids::runtime_claim::DETERMINISTIC, runtime.determinism.deterministic);
    write_bool_field(&mut sink, field_ids::runtime_claim::SEED_BOUND, runtime.determinism.seed_bound);
    write_bool_field(&mut sink, field_ids::runtime_claim::PROCESS_ISOLATED, runtime.isolation.process_isolated);
    write_bool_field(&mut sink, field_ids::runtime_claim::FALLBACKS_ALLOWED, runtime.provider_routing.fallbacks_allowed);
    write_bool_field(&mut sink, field_ids::runtime_claim::PROVIDER_PINNED, runtime.provider_routing.provider_pinned);
    let policy: u8 = match runtime.provider_routing.data_collection_policy {
        DataCollectionPolicy::DeclaredAllow => 1,
        DataCollectionPolicy::DeclaredDeny => 2,
        DataCollectionPolicy::Unknown => 3,
    };
    write_u8_field(&mut sink, field_ids::runtime_claim::DATA_COLLECTION_POLICY, policy);
    sink.finalize()
}

/// The plugin claim transcript after `prefix`.
pub open spec fn plugin_transcript(prefix: Seq<u8>, p: PluginClaim) -> Seq<u8> {
    prefix + tlv(1, p.plugin_id_hash@) + tlv(2, p.plugin_version_hash@) + tlv(3, seq![1u8])
        + tlv(4, seq![maintainer_class_code(p.maintainer_class)])
        + tlv(5, seq![bool_byte(p.normalization.input_normalized)])
        + tlv(6, seq![bool_byte(p.normalization.output_normalized)])
        + tlv(7, seq![bool_byte(p.normalization.raw_request_preserved)])
        + tlv(8, seq![bool_byte(p.normalization.raw_response_preserved)])
        + tlv(9, seq![bool_byte(p.normalization.secrets_redacted)])
        + tlv(10, p.plugin_manifest_hash@)
        + tlv(11, p.plugin_id_hint@)
        + tlv(12, seq![plugin_trust_level_code(p.trust_level)])
}

fn hash_plugin(plugin: PluginClaim) -> (r: Sha256Digest)
    ensures
        r@ == sha256_spec(plugin_transcript(Seq::empty(), plugin)),
{
    let mut sink = Sha256Sink::new();
    write_digest_field(&mut sink, field_ids::plugin_claim::PLUGIN_ID_HASH, plugin.plugin_id_hash);
    write_digest_field(&mut sink, field_ids::plugin_claim::PLUGIN_VERSION_HASH, plugin.plugin_version_hash);
    write_u8_field(&mut sink, field_ids::plugin_claim::PLUGIN_API_VERSION, 1);
    write_u8_field(&mut sink, field_ids::plugin_claim::MAINTAINER_CLASS, plugin.maintainer_class.as_u8());
    write_bool_field(&mut sink, field_ids::plugin_claim::INPUT_NORMALIZED, plugin.normalization.input_normalized);
    write_bool_field(&mut sink, field_ids::plugin_claim::OUTPUT_NORMALIZED, plugin.normalization.output_normalized);
    write_bool_field(&mut sink, field_ids::plugin_claim::RAW_REQUEST_PRESERVED, plugin.normalization.raw_request_preserved);
    write_bool_field(&mut sink, field_ids::plugin_claim::RAW_RESPONSE_PRESERVED, plugin.normalization.raw_response_preserved);
    write_bool_field(&mut sink, field_ids::plugin_claim::SECRETS_REDACTED, plugin.normalization.secrets_redacted);
    write_digest_field(&mut sink, field_ids::plugin_claim::PLUGIN_MANIFEST_HASH, plugin.plugin_manifest_hash);
    let hint = plugin.plugin_id_hint.as_bytes();
    let _ = write_tlv(&mut sink, field_ids::plugin_claim::PLUGIN_ID_HINT, hint);
    write_u8_field(&mut sink, field_ids::plugin_claim::TRUST_LEVEL, plugin.trust_level.as_u8());
    sink.finalize()
}

/// The policy facts transcript after `prefix`.
pub open spec fn facts_transcript(prefix: Seq<u8>, f: PolicyFacts) -> Seq<u8> {
    prefix + tlv(1, FACTS_DOMAIN@) + tlv(2, seq![risk_class_code(f.risk_class)])
        + tlv(3, seq![bool_byte(f.requires_human_review)])
        + tlv(4, seq![bool_byte(f.binding_effect_present)])
        + tlv(5, seq![bool_byte(f.provider_fallbacks_allowed)])
        + tlv(6, seq![plugin_trust_fact_code(f.plugin_trust_level)])
        + tlv(7, seq![runtime_kind_code(f.runtime_kind)])
        + tlv(8, seq![replay_strength_code(f.replay_strength)])
        + tlv(9, seq![model_class_code(f.model_class)])
}

/// The hash of a set of policy facts.
pub fn policy_facts_hash(facts: PolicyFacts) -> (r: Sha256Digest)
    ensures
        r@ == sha256_spec(facts_transcript(Seq::empty(), facts)),
{
    let mut sink = Sha256Sink::new();
    let _ = write_tlv(&mut sink, field_ids::policy_facts::DOMAIN, FACTS_DOMAIN.as_slice());
    write_u8_field(&mut sink, field_ids::policy_facts::RISK_CLASS, facts.risk_class.as_u8());
    write_bool_field(&mut sink, field_ids::policy_facts::REQUIRES_HUMAN_REVIEW, facts.requires_human_review);
    write_bool_field(&mut sink, field_ids::policy_facts::BINDING_EFFECT_PRESENT, facts.binding_effect_present);
    write_bool_field(&mut sink, field_ids::policy_facts::PROVIDER_FALLBACKS_ALLOWED, facts.provider_fallbacks_allowed);
    write_u8_field(&mut sink, field_ids::policy_facts::PLUGIN_TRUST_LEVEL, facts.plugin_trust_level.as_u8());
    write_u8_field(&mut sink, field_ids::policy_facts::RUNTIME_KIND, facts.runtime_kind.as_u8());
    write_u8_field(&mut sink, field_ids::policy_facts::REPLAY_STRENGTH, facts.replay_strength.as_u8());
    write_u8_field(&mut sink, field_ids::policy_facts::MODEL_CLASS, facts.model_class.as_u8());
    sink.finalize()
}

/// The identity evidence fields after `prefix`: its kind, then the digests it
/// names.
pub open spec fn evidence_transcript(prefix: Seq<u8>, e: IdentityEvidence) -> Seq<u8> {
    match e {
        IdentityEvidence::Declared => prefix + tlv(5, seq![1u8]),
        IdentityEvidence::ProviderDeclared { provider_model_id_hash } => prefix + tlv(5, seq![2u8])
            + tlv(6, provider_model_id_hash@),
        IdentityEvidence::LocalFilesHashed { weights_hash, tokenizer_hash, config_hash } => prefix + tlv(5, seq![3u8])
            + tlv(6, weights_hash@) + tlv(7, opt_digest_bytes(tokenizer_hash)) + tlv(8, opt_digest_bytes(config_hash)),
        IdentityEvidence::ContainerHashed { image_hash } => prefix + tlv(5, seq![4u8]) + tlv(6, image_hash@),
    }
}

/// The requested output fields after `prefix`: its kind, then the digest it
/// names.
pub open spec fn requested_output_transcript(prefix: Seq<u8>, o: RequestedOutput) -> Seq<u8> {
    match o {
        RequestedOutput::FreeText => prefix + tlv(15, seq![1u8]),
        RequestedOutput::JsonSchema { schema_hash } => prefix + tlv(15, seq![2u8]) + tlv(16, schema_hash@),
        RequestedOutput::ToolCall { tool_spec_hash } => prefix + tlv(15, seq![3u8]) + tlv(16, tool_spec_hash@),
    }
}

/// A token count, or zero where none was reported.
pub open spec fn count_or_zero(c: Option<u32>) -> u32 {
    match c {
        Some(v) => v,
        None => 0,
    }
}

/// The identity and invocation part of the model waist transcript after `prefix`.
pub open spec fn model_head_transcript(prefix: Seq<u8>, m: ModelWaist) -> Seq<u8> {
    requested_output_transcript(
        evidence_transcript(
            prefix + tlv(1, MODEL_WAIST_DOMAIN@) + tlv(2, seq![model_class_code(m.identity.model_class)])
                + tlv(3, m.identity.model_ref_hash@) + tlv(4, m.identity.model_slug@),
            m.identity.identity_evidence,
        ) + tlv(9, m.invocation.action_hash@) + tlv(10, m.invocation.messages_hash@)
            + tlv(11, opt_digest_bytes(m.invocation.system_prompt_hash))
            + tlv(12, opt_digest_bytes(m.invocation.tool_spec_hash))
            + tlv(13, opt_digest_bytes(m.invocation.response_schema_hash))
            + tlv(14, m.invocation.parameters_hash@),
        m.invocation.requested_output,
    )
}

/// The model waist transcript after `prefix`.
pub open spec fn model_transcript(prefix: Seq<u8>, m: ModelWaist) -> Seq<u8> {
    model_head_transcript(prefix, m) + tlv(17, opt_digest_bytes(m.observation.output_text_hash))
        + tlv(18, opt_digest_bytes(m.observation.structured_output_hash))
        + tlv(19, opt_digest_bytes(m.observation.provider_metadata_hash))
        + tlv(20, seq![finish_reason_code(m.observation.finish_reason)])
        + tlv(21, be32(count_or_zero(m.observation.usage.input_tokens)))
        + tlv(22, be32(count_or_zero(m.observation.usage.output_tokens)))
        + tlv(23, be32(count_or_zero(m.observation.usage.total_tokens)))
        + tlv(24, sha256_spec(runtime_transcript(Seq::empty(), m.runtime)))
        + tlv(25, sha256_spec(plugin_transcript(Seq::empty(), m.plugin)))
}

/// The hash of a model waist's transcript.
pub open spec fn model_hash_spec(m: ModelWaist) -> Seq<u8> {
    sha256_spec(model_transcript(Seq::empty(), m))
}

fn write_identity_evidence<S: TranscriptSink>(sink: &mut S, evidence: IdentityEvidence)
    ensures
        final(sink).transcript() == evidence_transcript(old(sink).transcript(), evidence),
{
    match evidence {
        IdentityEvidence::Declared => {
            write_u8_field(sink, field_ids::model_waist::IDENTITY_EVIDENCE_KIND, 1);
        },
        IdentityEvidence::ProviderDeclared { provider_model_id_hash } => {
            write_u8_field(sink, field_ids::model_waist::IDENTITY_EVIDENCE_KIND, 2);
            write_digest_field(sink, field_ids::model_waist::IDENTITY_EVIDENCE_DIGEST_A, provider_model_id_hash);
        },
        IdentityEvidence::LocalFilesHashed { weights_hash, tokenizer_hash, config_hash } => {
            write_u8_field(sink, field_ids::model_waist::IDENTITY_EVIDENCE_KIND, 3);
            write_digest_field(sink, field_ids::model_waist::IDENTITY_EVIDENCE_DIGEST_A, weights_hash);
            write_optional_digest_field(sink, field_ids::model_waist::IDENTITY_EVIDENCE_DIGEST_B, tokenizer_hash);
            write_optional_digest_field(sink, field_ids::model_waist::IDENTITY_EVIDENCE_DIGEST_C, config_hash);
        },
        IdentityEvidence::ContainerHashed { image_hash } => {
            write_u8_field(sink, field_ids::model_waist::IDENTITY_EVIDENCE_KIND, 4);
            write_digest_field(sink, field_ids::model_waist::IDENTITY_EVIDENCE_DIGEST_A, image_hash);
        },
    }
}

fn write_requested_output<S: TranscriptSink>(sink: &mut S, output: RequestedOutput)
    ensures
        final(sink).transcript() == requested_output_transcript(old(sink).transcript(), output),
{
    match output {
        RequestedOutput::FreeText => {
            write_u8_field(sink, field_ids::model_waist::REQUESTED_OUTPUT_KIND, 1);
        },
        RequestedOutput::JsonSchema { schema_hash } => {
            write_u8_field(sink, field_ids::model_waist::REQUESTED_OUTPUT_KIND, 2);
            write_digest_field(sink, field_ids::model_waist::REQUESTED_OUTPUT_DIGEST, schema_hash);
        },
        RequestedOutput::ToolCall { tool_spec_hash } => {
            write_u8_field(sink, field_ids::model_waist::REQUESTED_OUTPUT_KIND, 3);
            write_digest_field(sink, field_ids::model_waist::REQUESTED_OUTPUT_DIGEST, tool_spec_hash);
        },
    }
}

fn write_model_head<S: TranscriptSink>(sink: &mut S, model: &ModelWaist)
    ensures
        final(sink).transcript() == model_head_transcript(old(sink).transcript(), *model),
{
    let _ = write_tlv(sink, field_ids::model_waist::DOMAIN, MODEL_WAIST_DOMAIN.as_slice());
    write_u8_field(sink, field_ids::model_waist::MODEL_CLASS, model.identity.model_class.as_u8());
    write_digest_field(sink, field_ids::model_waist::MODEL_REF_HASH, model.identity.model_ref_hash);
    let slug = model.identity.model_slug.as_bytes();
    let _ = write_tlv(sink, field_ids::model_waist::MODEL_SLUG, slug);
    write_identity_evidence(sink, model.identity.identity_evidence);
    write_digest_field(sink, field_ids::model_waist::ACTION_HASH, model.invocation.action_hash);
    write_digest_field(sink, field_ids::model_waist::MESSAGES_HASH, model.invocation.messages_hash);
    write_optional_digest_field(sink, field_ids::model_waist::SYSTEM_PROMPT_HASH, model.invocation.system_prompt_hash);
    write_optional_digest_field(sink, field_ids::model_waist::TOOL_SPEC_HASH, model.invocation.tool_spec_hash);
    write_optional_digest_field(sink, field_ids::model_waist::RESPONSE_SCHEMA_HASH, model.invocation.response_schema_hash);
    write_digest_field(sink, field_ids::model_waist::PARAMETERS_HASH, model.invocation.parameters_hash);
    write_requested_output(sink, model.invocation.requested_output);
}

fn token_count(c: Option<u32>) -> (r: u32)
    ensures
        r == count_or_zero(c),
{
    match c {
        Some(v) => v,
        None => 0,
    }
}

/// The hash of a model waist; a waist that fails its checks is refused.
pub fn model_waist_hash(model: ModelWaist) -> (r: Result<Sha256Digest>)
    ensures
        model_error(model) matches Some(e) ==> r == Err::<Sha256Digest, Error>(e),
        model_error(model) is None ==> (r matches Ok(d) && d@ == model_hash_spec(model)),
{
    model.validate()?;
    let mut sink = Sha256Sink::new();
    write_model_head(&mut sink, &model);
    write_optional_digest_field(&mut sink, field_ids::model_waist::OUTPUT_TEXT_HASH, model.observation.output_text_hash);
    write_optional_digest_field(&mut sink, field_ids::model_waist::STRUCTURED_OUTPUT_HASH, model.observation.structured_output_hash);
    write_optional_digest_field(&mut sink, field_ids::model_waist::PROVIDER_METADATA_HASH, model.observation.provider_metadata_hash);
    write_u8_field(&mut sink, field_ids::model_waist::FINISH_REASON, model.observation.finish_reason.as_u8());
    write_u32_field(&mut sink, field_ids::model_waist::INPUT_TOKENS, token_count(model.observation.usage.input_tokens));
    write_u32_field(&mut sink, field_ids::model_waist::OUTPUT_TOKENS, token_count(model.observation.usage.output_tokens));
    write_u32_field(&mut sink, field_ids::model_waist::TOTAL_TOKENS, token_count(model.observation.usage.total_tokens));
    write_digest_field(&mut sink, field_ids::model_waist::RUNTIME_HASH, runtime_claim_hash(model.runtime));
    write_digest_field(&mut sink, field_ids::model_waist::PLUGIN_HASH, hash_plugin(model.plugin));
    Ok(sink.finalize())
}

/// The fields of a payload that both receipt transcripts open with, after
/// `prefix`: every field up to the decision, under identifiers 1 to 18 in both.
pub open spec fn payload_head_transcript(prefix: Seq<u8>, domain: Seq<u8>, p: ReceiptPayload) -> Seq<u8> {
    prefix + tlv(1, domain) + tlv(2, seq![2u8]) + tlv(3, p.receipt_id@) + tlv(4, seq![1u8])
        + tlv(5, p.action_id@) + tlv(6, be_i64(p.issued_at.unix_seconds)) + tlv(7, be32(p.issued_at.nanos))
        + tlv(8, p.issuer.name@) + tlv(9, p.issuer.key_id@) + tlv(10, p.issuer.public_key.0@)
        + tlv(11, p.manifest_hash@) + tlv(12, p.policy.policy_id@) + tlv(13, p.policy.policy_version@)
        + tlv(14, p.policy.policy_hash@)
        + tlv(15, sha256_spec(runtime_transcript(Seq::empty(), p.model.runtime)))
        + tlv(16, model_hash_spec(p.model))
        + tlv(17, sha256_spec(facts_transcript(Seq::empty(), p.facts)))
        + tlv(18, seq![decision_code(p.decision)])
}

/// The legacy reason fields after `prefix`: each reason under field 19.
pub open spec fn legacy_reasons_transcript(prefix: Seq<u8>, rs: Seq<ReasonCodeSlot>) -> Seq<u8>
    decreases rs.len(),
{
    if rs.len() == 0 {
        prefix
    } else {
        legacy_reasons_transcript(prefix, rs.drop_last()) + tlv(19, rs.last().bytes@)
    }
}

/// The reason fields of the second transcript after `prefix`: the reason at
/// position `i` under field `20 + i`.
pub open spec fn v2_reasons_transcript(prefix: Seq<u8>, rs: Seq<ReasonCodeSlot>) -> Seq<u8>
    decreases rs.len(),
{
    if rs.len() == 0 {
        prefix
    } else {
        v2_reasons_transcript(prefix, rs.drop_last()) + tlv((20 + rs.len() - 1) as u16, rs.last().bytes@)
    }
}

/// The legacy receipt transcript after `prefix`.
pub open spec fn legacy_transcript(prefix: Seq<u8>, p: ReceiptPayload) -> Seq<u8> {
    legacy_reasons_transcript(
        payload_head_transcript(prefix, RECEIPT_TRANSCRIPT_LEGACY_V1_DOMAIN@, p),
        p.reasons@,
    ) + tlv(20, p.evidence_summary_hash@) + tlv(21, p.controls_summary_hash@)
}

/// The receipt transcript, version two, after `prefix`: the reason count comes
/// before the reasons.
pub open spec fn v2_transcript(prefix: Seq<u8>, p: ReceiptPayload) -> Seq<u8> {
    v2_reasons_transcript(
        payload_head_transcript(prefix, RECEIPT_TRANSCRIPT_TLV_V2_DOMAIN@, p) + tlv(19, seq![p.reasons@.len() as u8]),
        p.reasons@,
    ) + tlv(52, p.evidence_summary_hash@) + tlv(53, p.controls_summary_hash@)
}

fn write_payload_head<S: TranscriptSink>(sink: &mut S, domain: &[u8], payload: &ReceiptPayload)
    requires
        domain@.len() <= 64,
        model_error(payload.model) is None,
    ensures
        final(sink).transcript() == payload_head_transcript(old(sink).transcript(), domain@, *payload),
{
    let _ = write_tlv(sink, 1, domain);
    write_u8_field(sink, 2, payload.schema_version.as_u8());
    let _ = write_tlv(sink, 3, payload.receipt_id.as_bytes());
    write_u8_field(sink, 4, payload.receipt_profile.as_u8());
    let _ = write_tlv(sink, 5, payload.action_id.as_bytes());
    write_i64_field(sink, 6, payload.issued_at.unix_seconds);
    write_u32_field(sink, 7, payload.issued_at.nanos);
    let _ = write_tlv(sink, 8, payload.issuer.name.as_bytes());
    let _ = write_tlv(sink, 9, payload.issuer.key_id.as_bytes());
    let _ = write_tlv(sink, 10, payload.issuer.public_key.0.as_slice());
    write_digest_field(sink, 11, payload.manifest_hash);
    let _ = write_tlv(sink, 12, payload.policy.policy_id.as_bytes());
    let _ = write_tlv(sink, 13, payload.policy.policy_version.as_bytes());
    write_digest_field(sink, 14, payload.policy.policy_hash);
    write_digest_field(sink, 15, runtime_claim_hash(payload.model.runtime));
    let model_hash = match model_waist_hash(payload.model) {
        Ok(d) => d,
        Err(_) => Sha256Digest::zero(),
    };
    write_digest_field(sink, 16, model_hash);
    write_digest_field(sink, 17, policy_facts_hash(payload.facts));
    write_u8_field(sink, 18, payload.decision.as_u8());
}

fn write_legacy_reasons<S: TranscriptSink>(sink: &mut S, reasons: &[ReasonCodeSlot])
    requires
        forall|j: int| 0 <= j < reasons@.len() ==> #[trigger] identifier_error(reasons@[j].bytes@, MAX_REASON_CODE_LEN as nat) is None,
    ensures
        final(sink).transcript() == legacy_reasons_transcript(old(sink).transcript(), reasons@),
{
    let ghost head = sink.transcript();
    let mut i: usize = 0;
    assert(reasons@.subrange(0, 0) =~= Seq::<ReasonCodeSlot>::empty());
    while i < reasons.len()
        invariant
            i <= reasons@.len(),
            forall|j: int| 0 <= j < reasons@.len() ==> #[trigger] identifier_error(reasons@[j].bytes@, MAX_REASON_CODE_LEN as nat) is None,
            sink.transcript() == legacy_reasons_transcript(head, reasons@.subrange(0, i as int)),
        decreases reasons@.len() - i,
    {
        proof {
            let next = reasons@.subrange(0, i + 1);
            assert(next.drop_last() =~= reasons@.subrange(0, i as int));
            assert(next.last() == reasons@[i as int]);
            assert(identifier_error(reasons@[i as int].bytes@, MAX_REASON_CODE_LEN as nat) is None);
        }
        let _ = write_tlv(sink, field_ids::receipt_tlv_legacy_v1::REASON, reasons[i].bytes);
        i = i + 1;
    }
    assert(reasons@.subrange(0, reasons@.len() as int) =~= reasons@);
}

fn write_v2_reasons<S: TranscriptSink>(sink: &mut S, reasons: &[ReasonCodeSlot])
    requires
        reasons@.len() <= MAX_REASONS,
        forall|j: int| 0 <= j < reasons@.len() ==> #[trigger] identifier_error(reasons@[j].bytes@, MAX_REASON_CODE_LEN as nat) is None,
    ensures
        final(sink).transcript() == v2_reasons_transcript(old(sink).transcript(), reasons@),
{
    let ghost head = sink.transcript();
    let mut i: usize = 0;
    assert(reasons@.subrange(0, 0) =~= Seq::<ReasonCodeSlot>::empty());
    while i < reasons.len()
        invariant
            i <= reasons@.len(),
            reasons@.len() <= MAX_REASONS,
            forall|j: int| 0 <= j < reasons@.len() ==> #[trigger] identifier_error(reasons@[j].bytes@, MAX_REASON_CODE_LEN as nat) is None,
            sink.transcript() == v2_reasons_transcript(head, reasons@.subrange(0, i as int)),
        decreases reasons@.len() - i,
    {
        proof {
            let next = reasons@.subrange(0, i + 1);
            assert(next.drop_last() =~= reasons@.subrange(0, i as int));
            assert(next.last() == reasons@[i as int]);
            assert(identifier_error(reasons@[i as int].bytes@, MAX_REASON_CODE_LEN as nat) is None);
        }
        let field_id: u16 = field_ids::receipt_tlv_v2::REASON_BASE + (i as u16);
        let _ = write_tlv(sink, field_id, reasons[i].bytes);
        i = i + 1;
    }
    assert(reasons@.subrange(0, reasons@.len() as int) =~= reasons@);
}

/// Writes the legacy receipt transcript of a payload; a payload that fails its
/// checks is refused and nothing is written.
pub fn write_receipt_transcript_legacy_v1<S: TranscriptSink>(payload: &ReceiptPayload, sink: &mut S) -> (r: Result<()>)
    ensures
        payload_error(*payload) matches Some(e) ==> r == Err::<(), Error>(e)
            && final(sink).transcript() == old(sink).transcript(),
        payload_error(*payload) is None ==> r is Ok
            && final(sink).transcript() == legacy_transcript(old(sink).transcript(), *payload),
{
    payload.validate()?;
    proof {
        lemma_reasons_valid(payload.reasons@);
    }
    write_payload_head(sink, RECEIPT_TRANSCRIPT_LEGACY_V1_DOMAIN.as_slice(), payload);
    write_legacy_reasons(sink, payload.reasons);
    write_digest_field(sink, field_ids::receipt_tlv_legacy_v1::EVIDENCE_SUMMARY_HASH, payload.evidence_summary_hash);
    write_digest_field(sink, field_ids::receipt_tlv_legacy_v1::CONTROLS_SUMMARY_HASH, payload.controls_summary_hash);
    Ok(())
}

/// Writes the receipt transcript, version two, of a payload; a payload that
/// fails its checks is refused and nothing is written.
pub fn write_receipt_transcript<S: TranscriptSink>(payload: &ReceiptPayload, sink: &mut S) -> (r: Result<()>)
    ensures
        payload_error(*payload) matches Some(e) ==> r == Err::<(), Error>(e)
            && final(sink).transcript() == old(sink).transcript(),
        payload_error(*payload) is None ==> r is Ok
            && final(sink).transcript() == v2_transcript(old(sink).transcript(), *payload),
{
    payload.validate()?;
    proof {
        lemma_reasons_valid(payload.reasons@);
    }
    write_payload_head(sink, RECEIPT_TRANSCRIPT_TLV_V2_DOMAIN.as_slice(), payload);
    write_u8_field(sink, field_ids::receipt_tlv_v2::REASON_COUNT, payload.reasons.len() as u8);
    write_v2_reasons(sink, payload.reasons);
    write_digest_field(sink, field_ids::receipt_tlv_v2::EVIDENCE_SUMMARY_HASH, payload.evidence_summary_hash);
    write_digest_field(sink, field_ids::receipt_tlv_v2::CONTROLS_SUMMARY_HASH, payload.controls_summary_hash);
    Ok(())
}

/// The hash of a payload's legacy transcript.
pub fn receipt_transcript_hash_legacy_v1(payload: &ReceiptPayload) -> (r: Result<Sha256Digest>)
    ensures
        payload_error(*payload) matches Some(e) ==> r == Err::<Sha256Digest, Error>(e),
        payload_error(*payload) is None ==> (r matches Ok(d) && d@ == sha256_spec(legacy_transcript(Seq::empty(), *payload))),
{
    let mut sink = Sha256Sink::new();
    write_receipt_transcript_legacy_v1(payload, &mut sink)?;
    Ok(sink.finalize())
}

/// The hash of a payload's transcript, version two: the hash that issuers sign.
pub fn receipt_transcript_hash(payload: &ReceiptPayload) -> (r: Result<Sha256Digest>)
    ensures
        payload_error(*payload) matches Some(e) ==> r == Err::<Sha256Digest, Error>(e),
        payload_error(*payload) is None ==> (r matches Ok(d) && d@ == sha256_spec(v2_transcript(Seq::empty(), *payload))),
{
    let mut sink = Sha256Sink::new();
    write_receipt_transcript(payload, &mut sink)?;
    Ok(sink.finalize())
}

} // verus!
