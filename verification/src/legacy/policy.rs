use vstd::prelude::*;
use crate::limits::MAX_REASONS;
use crate::controls::ControlType;
use crate::model_waist::{ModelClass, ReplayStrength, RuntimeKind};
use crate::types::Sha256Digest;

verus! {

/// How much harm an action could do.
#[derive(Clone, Copy, Debug, PartialEq, Eq, Structural)]
pub enum RiskClass {
    Low,
    Medium,
    High,
}

/// The number that stands for a risk class in transcripts.
pub open spec fn risk_class_code(v: RiskClass) -> u8 {
    match v {
        RiskClass::Low => 0,
        RiskClass::Medium => 1,
        RiskClass::High => 2,
    }
}

impl RiskClass {
    /// The number that stands for this value in transcripts.
    pub fn as_u8(self) -> (r: u8)
        ensures
            r == risk_class_code(self),
    {
        match self {
            RiskClass::Low => 0,
            RiskClass::Medium => 1,
            RiskClass::High => 2,
        }
    }
}

/// How far the plugin behind a model run is trusted, as a policy sees it.
#[derive(Clone, Copy, Debug, PartialEq, Eq, Structural)]
pub enum PluginTrustFact {
    Untrusted,
    LocallyAllowed,
    FirstPartyReference,
    ThirdPartyTrusted,
    ReproduciblyBuilt,
}

/// The number that stands for a plugin trust fact in transcripts.
pub open spec fn plugin_trust_fact_code(v: PluginTrustFact) -> u8 {
    match v {
        PluginTrustFact::Untrusted => 0,
        PluginTrustFact::LocallyAllowed => 1,
        PluginTrustFact::FirstPartyReference => 2,
        PluginTrustFact::ThirdPartyTrusted => 3,
        PluginTrustFact::ReproduciblyBuilt => 4,
    }
}

impl PluginTrustFact {
    /// The number that stands for this value in transcripts.
    pub fn as_u8(self) -> (r: u8)
        ensures
            r == plugin_trust_fact_code(self),
    {
        match self {
            PluginTrustFact::Untrusted => 0,
            PluginTrustFact::LocallyAllowed => 1,
            PluginTrustFact::FirstPartyReference => 2,
            PluginTrustFact::ThirdPartyTrusted => 3,
            PluginTrustFact::ReproduciblyBuilt => 4,
        }
    }
}

/// What a policy decided about an action.
#[derive(Clone, Copy, Debug, PartialEq, Eq, Structural)]
pub enum Decision {
    Pass,
    Warn,
    Block,
}

/// The number that stands for a decision in transcripts.
pub open spec fn decision_code(v: Decision) -> u8 {
    match v {
        Decision::Pass => 1,
        Decision::Warn => 2,
        Decision::Block => 3,
    }
}

impl Decision {
    /// The number that stands for this value in transcripts.
    pub fn as_u8(self) -> (r: u8)
        ensures
            r == decision_code(self),
    {
        match self {
            Decision::Pass => 1,
            Decision::Warn => 2,
            Decision::Block => 3,
        }
    }
}

/// The facts about an action that a policy decides on.
#[derive(Clone, Copy, Debug, PartialEq, Eq, Structural)]
pub struct PolicyFacts {
    pub risk_class: RiskClass,
    pub requires_human_review: bool,
    pub binding_effect_present: bool,
    pub provider_fallbacks_allowed: bool,
    pub plugin_trust_level: PluginTrustFact,
    pub runtime_kind: RuntimeKind,
    pub replay_strength: ReplayStrength,
    pub model_class: ModelClass,
}

/// One reason code a policy gave.
#[derive(Clone, Copy, Debug)]
pub struct ReasonCodeSlot<'a> {
    pub bytes: &'a [u8],
}

/// The reason codes a policy evaluation has written, at most `MAX_REASONS`.
#[derive(Clone, Debug)]
pub struct ReasonWriter<'a> {
    slots: Vec<ReasonCodeSlot<'a>>,
}

impl<'a> View for ReasonWriter<'a> {
    type V = Seq<ReasonCodeSlot<'a>>;

    closed spec fn view(&self) -> Seq<ReasonCodeSlot<'a>> {
        self.slots@
    }
}

impl<'a> ReasonWriter<'a> {
    /// No reasons.
    pub fn new() -> (r: Self)
        ensures
            r@ == Seq::<ReasonCodeSlot<'a>>::empty(),
    {
        ReasonWriter { slots: Vec::new() }
    }

    /// Appends a reason; once `MAX_REASONS` are written further reasons are
    /// refused and the writer is left as it was.
    pub fn push(&mut self, slot: ReasonCodeSlot<'a>) -> (r: bool)
        ensures
            r == (old(self)@.len() < MAX_REASONS),
            r ==> final(self)@ == old(self)@.push(slot),
            !r ==> final(self)@ == old(self)@,
    {
        if self.slots.len() >= MAX_REASONS {
            return false;
        }
        self.slots.push(slot);
        true
    }

    /// The reasons in the order written.
    pub fn as_slice(&self) -> (r: &[ReasonCodeSlot<'a>])
        ensures
            r@ == self@,
    {
        self.slots.as_slice()
    }
}

/// What a policy evaluation produced: a decision and its reasons.
#[derive(Clone, Debug)]
pub struct EvaluationOut<'a> {
    pub decision: Decision,
    pub reasons: ReasonWriter<'a>,
}

/// What a node of a compiled condition tests.
#[derive(Clone, Copy, Debug, PartialEq, Eq, Structural)]
pub enum ConditionOp {
    Always,
    RuntimeKindEquals,
    RiskClassEquals,
    RiskClassAtLeast,
    ProviderFallbacksAllowed,
    ControlApproved,
    PluginTrustLevelAtMost,
    And,
    Or,
    Not,
}

/// The value a node of a compiled condition compares against.
#[derive(Clone, Copy, Debug, PartialEq, Eq, Structural)]
pub enum ConditionValue {
    Empty,
    RuntimeKind(RuntimeKind),
    RiskClass(RiskClass),
    Bool(bool),
    ControlType(ControlType),
    PluginTrust(PluginTrustFact),
}

/// One node of a compiled condition: its test, the indices of its operands
/// (for `And`, `Or` and `Not`) and its value.
#[derive(Clone, Copy, Debug, PartialEq, Eq, Structural)]
pub struct ConditionNode {
    pub op: ConditionOp,
    pub left: u16,
    pub right: u16,
    pub value: ConditionValue,
}

/// What a rule decides when its condition holds, and the reason it gives.
#[derive(Clone, Debug)]
pub struct RuleEffect {
    pub decision: Decision,
    pub reason: Vec<u8>,
}

/// A rule of a compiled policy: the hash of its identifier, its priority, the
/// root node of its condition and its effect.
#[derive(Clone, Debug)]
pub struct CompiledRule {
    pub rule_id_hash: Sha256Digest,
    pub priority: u16,
    pub root: u16,
    pub effect: RuleEffect,
}

/// A compiled policy: its identity, the hash of its source, the condition
/// nodes its rules share, its rules by descending priority and the effect when
/// no rule applies.
#[derive(Clone, Debug)]
pub struct CompiledPolicy {
    pub policy_id: Vec<u8>,
    pub policy_version: Vec<u8>,
    pub policy_hash: Sha256Digest,
    pub nodes: Vec<ConditionNode>,
    pub rules: Vec<CompiledRule>,
    pub default_effect: RuleEffect,
}

} // verus!
