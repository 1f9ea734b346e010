//! The receipt the host's gate issues for an evidence bundle once its policy
//! has been evaluated: the bundle's manifest, model waist, facts and controls,
//! the policy's identity and the hash of its file, and the evaluation's
//! decision and reason codes.
use vstd::prelude::*;
use crate::codec::hex_lower;
use crate::controls::ControlObservation;
use crate::crypto::{base64url_decode_spec, sha256_spec};
use crate::host::issue::{digest_of, reads_with_digest, signed_decimal, HostedIssuer};
use crate::host::{encoding_note, ensure_issueable_receipt_encoding, facts_json, host_error, public_decision, public_decision_name, HostError};
use crate::legacy::policy::{Decision, PolicyFacts};
use crate::proofmail::{decimal, decimal_text};
use crate::receipt_v2::check::digest_json;
use crate::receipt_v2::hashing::{controls_transcript, evidence_transcript, manifest_hash_spec};
use crate::receipt_v2::json::{
    DigestJson, IssuerJson, ManifestJson, ModelWaistJson, PolicyBindingJson, ProviderRoutingJson, ReceiptJson,
    RuntimeDeterminismJson, RuntimeIsolationJson, RuntimeJson, SigningJson,
};
use crate::receipt_v2::normalize::risk_class_of;
use crate::receipt_v2::{owned_text, RECEIPT_ENCODING_TLV_V2};
use crate::text::concat;
use crate::types::{Sha256Digest, TimestampUtc};

verus! {

/// The message of a demonstration signer used without consent.
pub open spec fn demo_consent_text() -> Seq<char> {
    "gate requires explicit demo signer approval when the configured backend is demo_file"@
}

/// Whether two runtimes state the same values.
pub open spec fn same_runtime(a: RuntimeJson, b: RuntimeJson) -> bool {
    &&& a.runtime_kind@ == b.runtime_kind@
    &&& a.execution_topology@ == b.execution_topology@
    &&& a.replay_strength@ == b.replay_strength@
    &&& a.determinism == b.determinism
    &&& a.isolation == b.isolation
    &&& a.provider_routing.fallbacks_allowed == b.provider_routing.fallbacks_allowed
    &&& a.provider_routing.provider_pinned == b.provider_routing.provider_pinned
    &&& a.provider_routing.data_collection_policy@ == b.provider_routing.data_collection_policy@
}

fn copy_runtime(rt: &RuntimeJson) -> (r: RuntimeJson)
    ensures
        same_runtime(r, *rt),
{
    RuntimeJson {
        runtime_kind: owned_text(rt.runtime_kind.as_str()),
        execution_topology: owned_text(rt.execution_topology.as_str()),
        replay_strength: owned_text(rt.replay_strength.as_str()),
        determinism: RuntimeDeterminismJson {
            deterministic: rt.determinism.deterministic,
            seed_bound: rt.determinism.seed_bound,
        },
        isolation: RuntimeIsolationJson { process_isolated: rt.isolation.process_isolated },
        provider_routing: ProviderRoutingJson {
            fallbacks_allowed: rt.provider_routing.fallbacks_allowed,
            provider_pinned: rt.provider_routing.provider_pinned,
            data_collection_policy: owned_text(rt.provider_routing.data_collection_policy.as_str()),
        },
    }
}

/// The identifier of a gate receipt issued at `now`: `urn:ink:receipt:`, the
/// seconds, `-` and the nanoseconds.
pub open spec fn gate_receipt_id(now: TimestampUtc) -> Seq<char> {
    "urn:ink:receipt:"@ + signed_decimal(now.unix_seconds as int) + "-"@ + decimal(now.nanos as nat)
}

fn gate_receipt_id_text(now: TimestampUtc) -> (r: String)
    ensures
        r@ == gate_receipt_id(now),
{
    let seconds = if now.unix_seconds < 0 {
        let magnitude: i128 = -(now.unix_seconds as i128);
        let digits = decimal_text(magnitude as u64);
        concat("-", digits.as_str())
    } else {
        decimal_text(now.unix_seconds as u64)
    };
    let nanos = decimal_text(now.nanos as u64);
    let a = concat("urn:ink:receipt:", seconds.as_str());
    let b = concat(a.as_str(), "-");
    concat(b.as_str(), nanos.as_str())
}

/// The inputs of a gate decision: the bundle's manifest, model waist, facts and
/// controls, the policy's identity and file, and the evaluation's decision and
/// reason codes.
#[derive(Debug)]
pub struct GateInput {
    pub manifest: ManifestJson,
    pub model_json: ModelWaistJson,
    pub facts: PolicyFacts,
    pub controls: Vec<ControlObservation>,
    pub policy_id: String,
    pub policy_version: String,
    pub policy_file: Vec<u8>,
    pub decision: Decision,
    pub reason_codes: Vec<String>,
}

/// Whether `rc` is the unsigned gate receipt of the input, issued by `issuer`
/// at `now`.
#[verifier::opaque]
pub open spec fn gate_receipt_ok(rc: ReceiptJson, input: GateInput, issuer: HostedIssuer, now: TimestampUtc) -> bool {
    &&& rc.schema@ == crate::receipt_v2::RECEIPT_SCHEMA_V2@
    &&& rc.receipt_id@ == gate_receipt_id(now)
    &&& rc.receipt_profile@ == crate::receipt_v2::RECEIPT_PROFILE@
    &&& rc.action_id@ == input.manifest.action_id@
    &&& rc.issued_at == now.unix_seconds
    &&& rc.issuer.name@ == issuer.issuer_name@
    &&& rc.issuer.key_id@ == issuer.key_id@
    &&& base64url_decode_spec(rc.issuer.public_key@) == Some(issuer.public_key@)
    &&& rc.manifest_hash.algorithm@ == "sha-256"@
    &&& rc.manifest_hash.digest@ == hex_lower(manifest_hash_spec(input.manifest))
    &&& rc.policy.id@ == input.policy_id@
    &&& rc.policy.version@ == input.policy_version@
    &&& digest_of(rc.policy.hash, input.policy_file@)
    &&& same_runtime(rc.runtime, input.model_json.runtime)
    &&& rc.model == input.model_json
    &&& risk_class_of(rc.facts.risk_class@) == Some(input.facts.risk_class)
    &&& rc.facts.requires_human_review == input.facts.requires_human_review
    &&& rc.facts.binding_effect_present == input.facts.binding_effect_present
    &&& rc.facts.provider_fallbacks_allowed == input.facts.provider_fallbacks_allowed
    &&& rc.decision@ == public_decision_name(input.decision)
    &&& rc.reason_codes == input.reason_codes
    &&& rc.evidence_summary_hash.algorithm@ == "sha-256"@
    &&& rc.evidence_summary_hash.digest@ == hex_lower(sha256_spec(evidence_transcript(Seq::empty(), input.manifest.artifacts@)))
    &&& rc.controls_summary_hash.algorithm@ == "sha-256"@
    &&& rc.controls_summary_hash.digest@ == hex_lower(sha256_spec(controls_transcript(Seq::empty(), input.controls@)))
    &&& rc.signing.transcript_encoding@ == issuer.receipt_encoding@
    &&& rc.signing.payload_hash.algorithm@ == "sha-256"@
    &&& rc.signing.payload_hash.digest@ == Seq::<char>::empty()
    &&& rc.signing.algorithm@ == "Ed25519"@
    &&& rc.signing.key_id@ == issuer.key_id@
    &&& rc.signing.signature@ == Seq::<char>::empty()
}

/// A gate receipt before its signature, with the digest to sign.
#[derive(Debug)]
pub struct PreparedGateReceipt {
    pub receipt: ReceiptJson,
    pub digest: Sha256Digest,
}

fn build_gate_receipt(
    input: GateInput,
    issuer: &HostedIssuer,
    now: TimestampUtc,
    manifest_hash: &Sha256Digest,
    evidence_summary_hash: &Sha256Digest,
    controls_summary_hash: &Sha256Digest,
) -> (r: ReceiptJson)
    requires
        manifest_hash@ == manifest_hash_spec(input.manifest),
        evidence_summary_hash@ == sha256_spec(evidence_transcript(Seq::empty(), input.manifest.artifacts@)),
        controls_summary_hash@ == sha256_spec(controls_transcript(Seq::empty(), input.controls@)),
    ensures
        gate_receipt_ok(r, input, *issuer, now),
{
    reveal(gate_receipt_ok);
    let receipt_id = gate_receipt_id_text(now);
    let runtime = copy_runtime(&input.model_json.runtime);
    let policy_hash = crate::digest::sha256(input.policy_file.as_slice());
    ReceiptJson {
        schema: owned_text(crate::receipt_v2::RECEIPT_SCHEMA_V2),
        receipt_id,
        receipt_profile: owned_text(crate::receipt_v2::RECEIPT_PROFILE),
        action_id: owned_text(input.manifest.action_id.as_str()),
        issued_at: now.unix_seconds,
        issuer: IssuerJson {
            name: owned_text(issuer.issuer_name.as_str()),
            key_id: owned_text(issuer.key_id.as_str()),
            public_key: crate::crypto::base64url_encode(issuer.public_key.as_slice()),
        },
        manifest_hash: digest_json(manifest_hash),
        policy: PolicyBindingJson { id: input.policy_id, version: input.policy_version, hash: digest_json(&policy_hash) },
        runtime,
        model: input.model_json,
        facts: facts_json(input.facts),
        decision: owned_text(public_decision(input.decision)),
        reason_codes: input.reason_codes,
        evidence_summary_hash: digest_json(evidence_summary_hash),
        controls_summary_hash: digest_json(controls_summary_hash),
        signing: SigningJson {
            transcript_encoding: owned_text(issuer.receipt_encoding.as_str()),
            payload_hash: DigestJson { algorithm: owned_text("sha-256"), digest: String::new() },
            algorithm: owned_text("Ed25519"),
            key_id: owned_text(issuer.key_id.as_str()),
            signature: String::new(),
        },
    }
}

fn gate_hashes(input: &GateInput) -> (r: Result<(Sha256Digest, Sha256Digest, Sha256Digest), HostError>)
    ensures
        crate::receipt_v2::hashing::manifest_error(input.manifest) matches Some(e)
            ==> (r matches Err(x) && crate::host::host_error_is(x, e)),
        crate::receipt_v2::hashing::manifest_error(input.manifest) is None ==> r is Ok,
        r matches Ok((m, e, c)) ==> m@ == manifest_hash_spec(input.manifest)
            && e@ == sha256_spec(evidence_transcript(Seq::empty(), input.manifest.artifacts@))
            && c@ == sha256_spec(controls_transcript(Seq::empty(), input.controls@)),
{
    let manifest_hash = match crate::receipt_v2::hashing::hash_manifest(&input.manifest) {
        Ok(d) => d,
        Err(e) => return Err(host_error(e)),
    };
    let evidence_summary_hash = match crate::receipt_v2::hashing::hash_evidence_summary(&input.manifest) {
        Ok(d) => d,
        Err(e) => return Err(host_error(e)),
    };
    let controls_summary_hash = crate::receipt_v2::hashing::hash_controls_summary(input.controls.as_slice());
    Ok((manifest_hash, evidence_summary_hash, controls_summary_hash))
}

/// Whether `p` is the prepared gate receipt of the input: the receipt as
/// `gate_receipt_ok` states it, and the digest of the payload it reads as.
pub open spec fn prepared_gate_ok(p: PreparedGateReceipt, input: GateInput, issuer: HostedIssuer, now: TimestampUtc) -> bool {
    &&& gate_receipt_ok(p.receipt, input, issuer, now)
    &&& reads_with_digest(p.receipt, p.digest@)
}

/// Whether `r` matches the transcript digest of the receipt `rc`: the
/// prepared receipt is `rc` with its digest, or the failure of reading `rc`
/// as a valid payload.
pub open spec fn gate_digest_outcome(r: Result<PreparedGateReceipt, HostError>, rc: ReceiptJson) -> bool {
    match r {
        Ok(p) => p.receipt == rc && crate::host::issue::digest_outcome(Ok(p.digest), rc),
        Err(x) => crate::host::issue::digest_outcome(Err(x), rc),
    }
}

/// Prepares the receipt of a gate decision from the evaluation of its policy. A demonstration
/// signer needs the caller's explicit consent, and the signer's encoding must
/// be one the host issues; the receipt must then read back as a valid
/// payload, whose transcript digest is what the issuer signs.
pub fn prepare_gate_receipt(input: GateInput, issuer: &HostedIssuer, demo_signer: bool, now: TimestampUtc) -> (r: Result<PreparedGateReceipt, HostError>)
    ensures
        issuer.demo_backend && !demo_signer ==> (r matches Err(HostError::Trust(m)) && m@ == demo_consent_text()),
        !(issuer.demo_backend && !demo_signer) && issuer.receipt_encoding@ != RECEIPT_ENCODING_TLV_V2@
            ==> (r matches Err(HostError::InvalidInput(m)) && Some(m@) == encoding_note(issuer.receipt_encoding@)),
        !(issuer.demo_backend && !demo_signer) && issuer.receipt_encoding@ == RECEIPT_ENCODING_TLV_V2@
            ==> (crate::receipt_v2::hashing::manifest_error(input.manifest) matches Some(e)
            ==> (r matches Err(x) && crate::host::host_error_is(x, e))),
        !(issuer.demo_backend && !demo_signer) && issuer.receipt_encoding@ == RECEIPT_ENCODING_TLV_V2@
            && crate::receipt_v2::hashing::manifest_error(input.manifest) is None
            ==> exists|rc: ReceiptJson| #[trigger] gate_receipt_ok(rc, input, *issuer, now) && gate_digest_outcome(r, rc),
        r matches Ok(p) ==> !(issuer.demo_backend && !demo_signer) && issuer.receipt_encoding@ == RECEIPT_ENCODING_TLV_V2@
            && prepared_gate_ok(p, input, *issuer, now),
{
    if issuer.demo_backend && !demo_signer {
        return Err(HostError::Trust(owned_text(
            "gate requires explicit demo signer approval when the configured backend is demo_file",
        )));
    }
    ensure_issueable_receipt_encoding(issuer.receipt_encoding.as_str())?;
    let (manifest_hash, evidence_summary_hash, controls_summary_hash) = gate_hashes(&input)?;
    let ghost original = input;
    let receipt = build_gate_receipt(input, issuer, now, &manifest_hash, &evidence_summary_hash, &controls_summary_hash);
    let digest = match crate::host::issue::receipt_digest(&receipt) {
        Ok(d) => d,
        Err(x) => {
            let r = Err(x);
            assert(gate_digest_outcome(r, receipt));
            assert(gate_receipt_ok(receipt, original, *issuer, now));
            return r;
        },
    };
    let r = Ok(PreparedGateReceipt { receipt, digest });
    assert(gate_digest_outcome(r, receipt));
    r
}

} // verus!
