use vstd::prelude::*;
use crate::claim::{claim_hash_spec, Claim};
use crate::error::{Error, Result};
use crate::event::{trace_hash_spec, TraceEvent, MAX_TRACE_EVENTS};
use crate::evidence::{evidence_hash_spec, Evidence};
use crate::policy::{policy_hash_spec, Policy};
use crate::receipt::ReceiptEnvelope;

verus! {

/// Which of a receipt's commitments the replayed inputs reproduce.
#[derive(Clone, Copy, Debug, PartialEq, Eq, Structural)]
pub struct ReplayReport {
    pub valid: bool,
    pub claim_match: bool,
    pub evidence_match: bool,
    pub policy_match: bool,
    pub trace_match: bool,
}

/// Recomputes the claim, evidence, policy and trace hashes and compares each
/// with what the receipt committed to; traces over `MAX_TRACE_EVENTS` events
/// are refused.
pub fn replay_receipt(
    receipt: &ReceiptEnvelope,
    claim: &Claim,
    evidence: &Evidence,
    policy: &Policy,
    trace_events: &[TraceEvent],
) -> (r: Result<ReplayReport>)
    ensures
        trace_events@.len() > MAX_TRACE_EVENTS ==> r == Err::<ReplayReport, Error>(Error::ValueTooLong),
        trace_events@.len() <= MAX_TRACE_EVENTS ==> (r matches Ok(rep) && {
            &&& rep.claim_match == (claim_hash_spec(claim.schema_id@, claim.subject_id@, claim.content@) == receipt.claim_hash@)
            &&& rep.evidence_match == (evidence_hash_spec(evidence.schema_id@, evidence.content@) == receipt.evidence_hash@)
            &&& rep.policy_match == (policy_hash_spec(policy.schema_id@, policy.decision, policy.content@) == receipt.policy_hash@)
            &&& rep.trace_match == (trace_hash_spec(trace_events@) == receipt.trace_hash@)
            &&& rep.valid == (rep.claim_match && rep.evidence_match && rep.policy_match && rep.trace_match)
        }),
{
    let claim_match = claim.compute_hash()? == receipt.claim_hash;
    let evidence_match = evidence.compute_hash()? == receipt.evidence_hash;
    let policy_match = policy.compute_hash()? == receipt.policy_hash;
    let trace_match = crate::event::trace_hash(trace_events)? == receipt.trace_hash;
    Ok(ReplayReport {
        valid: claim_match && evidence_match && policy_match && trace_match,
        claim_match,
        evidence_match,
        policy_match,
        trace_match,
    })
}

} // verus!
