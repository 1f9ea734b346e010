use vstd::prelude::*;
use crate::bounded::{ContentBytes, PolicyId, SchemaId};
use crate::crypto::sha256_spec;
use crate::error::{Error, Result};
use crate::hash::{labeled_preimage, slices_view};
use crate::kernel::{Digest, MAX_POLICY_LEN};

verus! {

/// `policy`, the label of a policy hash and the identifier every policy carries.
pub const POLICY_LABEL: [u8; 6] = [112u8, 111u8, 108u8, 105u8, 99u8, 121u8];

/// The decision a policy reached.
#[derive(Clone, Copy, Debug, PartialEq, Eq, Structural)]
pub enum PolicyDecision {
    Pass,
    Fail,
    Warn,
    Review,
    Unknown,
}

/// The wire code of a decision.
pub open spec fn decision_code(d: PolicyDecision) -> u8 {
    match d {
        PolicyDecision::Pass => 1,
        PolicyDecision::Fail => 2,
        PolicyDecision::Warn => 3,
        PolicyDecision::Review => 4,
        PolicyDecision::Unknown => 5,
    }
}

/// The decision with a given wire code, if any.
pub open spec fn decision_from_code(v: u8) -> Option<PolicyDecision> {
    if v == 1 {
        Some(PolicyDecision::Pass)
    } else if v == 2 {
        Some(PolicyDecision::Fail)
    } else if v == 3 {
        Some(PolicyDecision::Warn)
    } else if v == 4 {
        Some(PolicyDecision::Review)
    } else if v == 5 {
        Some(PolicyDecision::Unknown)
    } else {
        None
    }
}

/// Every decision's wire code reads back as that decision.
pub proof fn lemma_decision_code_roundtrip(d: PolicyDecision)
    ensures
        decision_from_code(decision_code(d)) == Some(d),
{
}

impl PolicyDecision {
    /// The decision with wire code `value`.
    pub fn from_u8(value: u8) -> (r: Option<Self>)
        ensures
            r == decision_from_code(value),
    {
        match value {
            1u8 => Some(PolicyDecision::Pass),
            2u8 => Some(PolicyDecision::Fail),
            3u8 => Some(PolicyDecision::Warn),
            4u8 => Some(PolicyDecision::Review),
            5u8 => Some(PolicyDecision::Unknown),
            _ => None,
        }
    }

    /// The wire code of the decision.
    pub fn as_u8(self) -> (r: u8)
        ensures
            r == decision_code(self),
    {
        match self {
            PolicyDecision::Pass => 1,
            PolicyDecision::Fail => 2,
            PolicyDecision::Warn => 3,
            PolicyDecision::Review => 4,
            PolicyDecision::Unknown => 5,
        }
    }
}

/// The hash of a policy: its schema identifier, decision code (one byte) and
/// content, hashed under the label `policy`.
pub open spec fn policy_hash_spec(schema_id: Seq<u8>, decision: PolicyDecision, content: Seq<u8>) -> Seq<u8> {
    sha256_spec(labeled_preimage(POLICY_LABEL@, seq![schema_id, seq![decision_code(decision)], content]))
}

/// A policy and the decision it reached.
#[derive(Clone, Debug)]
pub struct Policy {
    pub id: PolicyId,
    pub schema_id: SchemaId,
    pub decision: PolicyDecision,
    pub content: ContentBytes<MAX_POLICY_LEN>,
}

impl Policy {
    /// An empty policy whose decision is unknown.
    pub fn new() -> (r: Self)
        ensures
            r.id@ == Seq::<u8>::empty(),
            r.schema_id@ == Seq::<u8>::empty(),
            r.decision == PolicyDecision::Unknown,
            r.content@ == Seq::<u8>::empty(),
    {
        Policy { id: PolicyId::new(), schema_id: SchemaId::new(), decision: PolicyDecision::Unknown, content: ContentBytes::new() }
    }

    /// A policy with identifier `policy`; the content must hold one to
    /// `MAX_POLICY_LEN` bytes.
    pub fn from_slice(schema_id: SchemaId, decision: PolicyDecision, content: &[u8]) -> (r: Result<Self>)
        ensures
            content@.len() == 0 ==> r == Err::<Self, Error>(Error::EmptyValue),
            content@.len() > MAX_POLICY_LEN ==> r == Err::<Self, Error>(Error::ValueTooLong),
            0 < content@.len() <= MAX_POLICY_LEN ==> (r matches Ok(p) && p.id@ == POLICY_LABEL@
                && p.schema_id == schema_id && p.decision == decision && p.content@ == content@),
    {
        let mut policy = Self::new();
        policy.id = PolicyId::from_bytes(POLICY_LABEL.as_slice())?;
        policy.schema_id = schema_id;
        policy.decision = decision;
        policy.set_content(content)?;
        Ok(policy)
    }

    /// Replaces the content; on an empty or over-long content the policy is left
    /// as it was.
    pub fn set_content(&mut self, content: &[u8]) -> (r: Result<()>)
        ensures
            content@.len() == 0 ==> r == Err::<(), Error>(Error::EmptyValue),
            content@.len() > MAX_POLICY_LEN ==> r == Err::<(), Error>(Error::ValueTooLong),
            r is Ok <==> 0 < content@.len() <= MAX_POLICY_LEN,
            r is Ok ==> final(self).content@ == content@,
            r is Err ==> final(self).content@ == old(self).content@,
            final(self).id == old(self).id,
            final(self).schema_id == old(self).schema_id,
            final(self).decision == old(self).decision,
    {
        let copy = ContentBytes::from_slice(content)?;
        self.content = copy;
        Ok(())
    }

    /// The policy content.
    pub fn content(&self) -> (r: &[u8])
        ensures
            r@ == self.content@,
    {
        self.content.as_slice()
    }

    /// The policy hash.
    pub fn compute_hash(&self) -> (r: Result<Digest>)
        ensures
            r matches Ok(d) && d@ == policy_hash_spec(self.schema_id@, self.decision, self.content@),
    {
        let decision: [u8; 1] = [self.decision.as_u8()];
        let parts: [&[u8]; 3] = [self.schema_id.as_bytes(), decision.as_slice(), self.content()];
        assert(decision@ =~= seq![decision_code(self.decision)]);
        assert(slices_view(parts@) =~= seq![self.schema_id@, seq![decision_code(self.decision)], self.content@]);
        crate::hash::hash_many_labeled(POLICY_LABEL.as_slice(), parts.as_slice())
    }
}

impl Default for Policy {
    fn default() -> (r: Self)
        ensures
            r.id@ == Seq::<u8>::empty(),
            r.schema_id@ == Seq::<u8>::empty(),
            r.decision == PolicyDecision::Unknown,
            r.content@ == Seq::<u8>::empty(),
    {
        Self::new()
    }
}

/// What a receipt records of its policy.
#[derive(Clone, Copy, Debug)]
pub struct PolicyCommitment {
    pub policy_id: PolicyId,
    pub policy_hash: Digest,
    pub schema_hash: Digest,
}

/// The policy hash covers the decision: two policies with the same schema and
/// content but different decisions hash different messages, so their hashes
/// differ unless SHA-256 collides.
pub proof fn law_policy_hash_binds_decision(schema_id: Seq<u8>, d1: PolicyDecision, d2: PolicyDecision, content: Seq<u8>)
    requires
        d1 != d2,
    ensures
        exists|m1: Seq<u8>, m2: Seq<u8>| m1 != m2
            && policy_hash_spec(schema_id, d1, content) == sha256_spec(m1)
            && policy_hash_spec(schema_id, d2, content) == sha256_spec(m2),
{
    let a = seq![schema_id, seq![decision_code(d1)], content];
    let b = seq![schema_id, seq![decision_code(d2)], content];
    assert(a[1] != b[1]) by {
        assert(a[1][0] != b[1][0]);
    }
    crate::hash::lemma_labeled_preimage_distinct(POLICY_LABEL@, a, b);
    let m1 = labeled_preimage(POLICY_LABEL@, a);
    let m2 = labeled_preimage(POLICY_LABEL@, b);
    assert(policy_hash_spec(schema_id, d1, content) == sha256_spec(m1));
    assert(policy_hash_spec(schema_id, d2, content) == sha256_spec(m2));
}

/// The policy hash covers the schema, the decision and the content: two
/// policies that differ in any of them (schema and content no longer than a
/// four-byte length can say) hash different messages.
pub proof fn law_policy_hash_binds_policy(
    s1: Seq<u8>, d1: PolicyDecision, c1: Seq<u8>,
    s2: Seq<u8>, d2: PolicyDecision, c2: Seq<u8>,
)
    requires
        s1.len() <= u32::MAX,
        c1.len() <= u32::MAX,
        s2.len() <= u32::MAX,
        c2.len() <= u32::MAX,
        s1 != s2 || d1 != d2 || c1 != c2,
    ensures
        exists|m1: Seq<u8>, m2: Seq<u8>| m1 != m2
            && policy_hash_spec(s1, d1, c1) == sha256_spec(m1)
            && policy_hash_spec(s2, d2, c2) == sha256_spec(m2),
{
    let a = seq![s1, seq![decision_code(d1)], c1];
    let b = seq![s2, seq![decision_code(d2)], c2];
    if a == b {
        assert(a[0] == b[0] && a[2] == b[2]);
        assert(a[1][0] == b[1][0]);
        lemma_decision_code_roundtrip(d1);
        lemma_decision_code_roundtrip(d2);
    }
    crate::hash::lemma_labeled_preimage_injective(POLICY_LABEL@, a, b);
    let m1 = labeled_preimage(POLICY_LABEL@, a);
    let m2 = labeled_preimage(POLICY_LABEL@, b);
    assert(policy_hash_spec(s1, d1, c1) == sha256_spec(m1));
    assert(policy_hash_spec(s2, d2, c2) == sha256_spec(m2));
}

} // verus!
