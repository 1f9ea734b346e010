use vstd::prelude::*;
use vstd::string::StringSliceAdditionalSpecFns;
use crate::bounded::{DomainTag, IssuerId, SchemaAuthority, SchemaId};
use crate::codec::hex_lower;
use crate::crypto::sha256_spec;
use crate::error::Error;
use crate::hash::{labeled_preimage, slices_view};
use crate::kernel::{Digest, ParentHashes};
use crate::legacy::receipt::{payload_error, v2_transcript, ReceiptPayload};
use crate::lifecycle::LifecycleState;
use crate::receipt::ReceiptEnvelope;
use crate::receipt_v2::canonical::{canonical_without, canonicalize_without, utf8};
use crate::receipt_v2::json::{JsonValue, ReceiptJson};
use crate::receipt_v2::{ErrorView, ReceiptV2Error, Result, RECEIPT_ENCODING_JSON_CANONICAL_V1, RECEIPT_ENCODING_TLV_V1_LEGACY, RECEIPT_ENCODING_TLV_V2};
use crate::types::Sha256Digest;
use crate::verify::{core_report_ok, verify_receipt_error};

verus! {

/// `ink.receipt.v2`, the schema identifier of projected receipts.
pub const PROJECTION_SCHEMA_ID: [u8; 14] = [105u8, 110u8, 107u8, 46u8, 114u8, 101u8, 99u8, 101u8, 105u8, 112u8, 116u8, 46u8, 118u8, 50u8];
/// `ink-host`, the schema authority of projected receipts.
pub const PROJECTION_AUTHORITY: [u8; 8] = [105u8, 110u8, 107u8, 45u8, 104u8, 111u8, 115u8, 116u8];
/// `compat-v2`, the domain tag of projected receipts.
pub const PROJECTION_DOMAIN: [u8; 9] = [99u8, 111u8, 109u8, 112u8, 97u8, 116u8, 45u8, 118u8, 50u8];
/// `issuer:`, the prefix of projected issuer identifiers.
pub const PROJECTION_ISSUER_PREFIX: [u8; 7] = [105u8, 115u8, 115u8, 117u8, 101u8, 114u8, 58u8];
/// `compat-v2.claim`, the label of projected claim hashes.
pub const PROJECTION_CLAIM_LABEL: [u8; 15] = [99u8, 111u8, 109u8, 112u8, 97u8, 116u8, 45u8, 118u8, 50u8, 46u8, 99u8, 108u8, 97u8, 105u8, 109u8];

/// The issuer identifier a key projects to: `issuer:` and the hex text of the
/// first sixteen bytes of the key identifier's hash.
pub open spec fn projected_issuer(key_id: Seq<char>) -> Seq<u8> {
    PROJECTION_ISSUER_PREFIX@ + utf8(hex_lower(sha256_spec(utf8(key_id)).subrange(0, 16)))
}

/// The issuer identifier of a receipt's kernel projection.
pub fn kernel_projection_issuer_id(key_id: &str) -> (r: Result<IssuerId>)
    ensures
        r matches Ok(id) && id@ == projected_issuer(key_id@) && id@.len() == 39,
{
    let key_hash = crate::digest::sha256(key_id.as_bytes());
    let hex = crate::codec::hex_encode(&key_hash.0.as_slice()[0..16]);
    let hex_text: &str = hex.as_str();
    let mut compact: Vec<u8> = crate::bytes::to_vec(PROJECTION_ISSUER_PREFIX.as_slice());
    crate::bytes::push_slice(&mut compact, hex_text.as_bytes());
    proof {
        crate::codec::lemma_hex_lower_ascii(key_hash@.subrange(0, 16));
        vstd::utf8::is_ascii_chars_encode_utf8(hex@);
        assert(key_hash.0@.subrange(0, 16) =~= key_hash@.subrange(0, 16));
    }
    assert(compact@.len() == 39);
    match IssuerId::from_bytes(compact.as_slice()) {
        Ok(id) => Ok(id),
        Err(e) => Err(ReceiptV2Error::Core(e)),
    }
}

/// The parts of a receipt's projected claim: its action identifier, decision,
/// risk class and policy identifier, then its reason codes.
pub open spec fn claim_parts(receipt: ReceiptJson) -> Seq<Seq<u8>> {
    seq![utf8(receipt.action_id@), utf8(receipt.decision@), utf8(receipt.facts.risk_class@), utf8(receipt.policy.id@)]
        + receipt.reason_codes@.map_values(|c: String| utf8(c@))
}

/// The claim hash of a receipt's kernel projection.
pub fn kernel_projection_claim_hash(receipt: &ReceiptJson) -> (r: Result<Digest>)
    ensures
        r matches Ok(d) && d@ == sha256_spec(labeled_preimage(PROJECTION_CLAIM_LABEL@, claim_parts(*receipt))),
{
    let mut parts: Vec<&[u8]> = Vec::new();
    let action: &str = receipt.action_id.as_str();
    parts.push(action.as_bytes());
    let decision: &str = receipt.decision.as_str();
    parts.push(decision.as_bytes());
    let risk: &str = receipt.facts.risk_class.as_str();
    parts.push(risk.as_bytes());
    let policy: &str = receipt.policy.id.as_str();
    parts.push(policy.as_bytes());
    let codes = &receipt.reason_codes;
    let mut i: usize = 0;
    assert(slices_view(parts@) =~= seq![utf8(receipt.action_id@), utf8(receipt.decision@), utf8(receipt.facts.risk_class@), utf8(receipt.policy.id@)]
        + codes@.subrange(0, 0).map_values(|c: String| utf8(c@)));
    while i < codes.len()
        invariant
            i <= codes@.len(),
            codes@ == receipt.reason_codes@,
            parts@.len() == 4 + i,
            slices_view(parts@) == seq![utf8(receipt.action_id@), utf8(receipt.decision@), utf8(receipt.facts.risk_class@), utf8(receipt.policy.id@)]
                + codes@.subrange(0, i as int).map_values(|c: String| utf8(c@)),
        decreases codes@.len() - i,
    {
        let code: &str = codes[i].as_str();
        let ghost prev = slices_view(parts@);
        let ghost head = seq![utf8(receipt.action_id@), utf8(receipt.decision@), utf8(receipt.facts.risk_class@), utf8(receipt.policy.id@)];
        let bytes = code.as_bytes();
        parts.push(bytes);
        proof {
            assert(slices_view(parts@) =~= prev.push(utf8(codes@[i as int]@)));
            assert(codes@.subrange(0, i + 1).map_values(|c: String| utf8(c@))
                =~= codes@.subrange(0, i as int).map_values(|c: String| utf8(c@)).push(utf8(codes@[i as int]@)));
            assert(slices_view(parts@) =~= head + codes@.subrange(0, i + 1).map_values(|c: String| utf8(c@)));
        }
        i = i + 1;
    }
    assert(codes@.subrange(0, codes@.len() as int) =~= codes@);
    assert(slices_view(parts@) =~= claim_parts(*receipt));
    match crate::hash::hash_many_labeled(PROJECTION_CLAIM_LABEL.as_slice(), parts.as_slice()) {
        Ok(d) => Ok(d),
        Err(e) => Err(ReceiptV2Error::Core(e)),
    }
}

/// The digest a receipt's signature covers under its transcript encoding: the
/// hash of the second or the legacy transcript of its payload, or of the
/// canonical JSON of the receipt without its signing block.
pub open spec fn receipt_digest_spec(p: ReceiptPayload, encoding: Seq<char>, value: JsonValue) -> core::result::Result<Seq<u8>, ErrorView> {
    if encoding == RECEIPT_ENCODING_TLV_V2@ {
        match payload_error(p) {
            Some(e) => Err(ErrorView::Core(e)),
            None => Ok(sha256_spec(v2_transcript(Seq::empty(), p))),
        }
    } else if encoding == RECEIPT_ENCODING_TLV_V1_LEGACY@ {
        match payload_error(p) {
            Some(e) => Err(ErrorView::Core(e)),
            None => Ok(sha256_spec(crate::legacy::receipt::legacy_transcript(Seq::empty(), p))),
        }
    } else if encoding == RECEIPT_ENCODING_JSON_CANONICAL_V1@ {
        Ok(sha256_spec(canonical_without(value, "signing"@)))
    } else {
        Err(ErrorView::InvalidInput("unsupported receipt transcript encoding "@ + encoding))
    }
}

/// Two payloads read from one receipt give the same digest under any encoding.
pub proof fn lemma_digest_determined(
    p: ReceiptPayload,
    p2: ReceiptPayload,
    r: ReceiptJson,
    slots: Seq<crate::legacy::policy::ReasonCodeSlot>,
    encoding: Seq<char>,
    value: JsonValue,
)
    requires
        crate::receipt_v2::normalize::payload_matches(p, r, slots),
        crate::receipt_v2::normalize::payload_matches(p2, r, slots),
    ensures
        receipt_digest_spec(p, encoding, value) == receipt_digest_spec(p2, encoding, value),
        v2_transcript(Seq::empty(), p) == v2_transcript(Seq::empty(), p2),
{
    crate::receipt_v2::normalize::lemma_payload_error_determined(p, p2, r, slots);
    crate::receipt_v2::normalize::lemma_model_transcript_determined(p.model, p2.model, r.model);
    assert(crate::legacy::receipt::facts_transcript(Seq::empty(), p.facts) == crate::legacy::receipt::facts_transcript(Seq::empty(), p2.facts));
    assert(crate::legacy::receipt::payload_head_transcript(Seq::empty(), crate::domain::RECEIPT_TRANSCRIPT_TLV_V2_DOMAIN@, p)
        == crate::legacy::receipt::payload_head_transcript(Seq::empty(), crate::domain::RECEIPT_TRANSCRIPT_TLV_V2_DOMAIN@, p2));
    assert(crate::legacy::receipt::payload_head_transcript(Seq::empty(), crate::domain::RECEIPT_TRANSCRIPT_LEGACY_V1_DOMAIN@, p)
        == crate::legacy::receipt::payload_head_transcript(Seq::empty(), crate::domain::RECEIPT_TRANSCRIPT_LEGACY_V1_DOMAIN@, p2));
    assert(v2_transcript(Seq::empty(), p) == v2_transcript(Seq::empty(), p2));
    assert(crate::legacy::receipt::legacy_transcript(Seq::empty(), p) == crate::legacy::receipt::legacy_transcript(Seq::empty(), p2));
}

/// The digest a receipt's signature covers, under the encoding it names;
/// `receipt_value` is the receipt as a JSON value.
pub fn receipt_digest_for_encoding(payload: &ReceiptPayload, encoding: &str, receipt_value: &JsonValue) -> (r: Result<Sha256Digest>)
    ensures
        match receipt_digest_spec(*payload, encoding@, *receipt_value) {
            Ok(d) => r matches Ok(x) && x@ == d,
            Err(e) => r matches Err(x) && x@ == e,
        },
{
    if crate::bytes::str_eq(encoding, RECEIPT_ENCODING_TLV_V2) {
        match crate::legacy::receipt::receipt_transcript_hash(payload) {
            Ok(d) => Ok(d),
            Err(e) => Err(ReceiptV2Error::Core(e)),
        }
    } else if crate::bytes::str_eq(encoding, RECEIPT_ENCODING_TLV_V1_LEGACY) {
        match crate::legacy::receipt::receipt_transcript_hash_legacy_v1(payload) {
            Ok(d) => Ok(d),
            Err(e) => Err(ReceiptV2Error::Core(e)),
        }
    } else if crate::bytes::str_eq(encoding, RECEIPT_ENCODING_JSON_CANONICAL_V1) {
        let canonical = canonicalize_without(receipt_value, "signing");
        Ok(crate::digest::sha256(canonical.as_slice()))
    } else {
        Err(ReceiptV2Error::InvalidInput(crate::text::concat("unsupported receipt transcript encoding ", encoding)))
    }
}

pub proof fn lemma_small_body(v: crate::receipt::ReceiptView)
    requires
        v.schema_id.len() <= 64,
        v.schema_authority.len() <= 64,
        v.domain_tag.len() <= 32,
        v.issuer_id.len() <= 64,
        v.schema_hash.len() == 32,
        v.subject_hash.len() == 32,
        v.claim_hash.len() == 32,
        v.evidence_hash.len() == 32,
        v.policy_hash.len() == 32,
        v.trace_hash.len() == 32,
        v.parent_hashes.len() == 0,
    ensures
        crate::canon::body_enc(v).len() <= 512,
{
    assert(v.parent_hashes.flatten() =~= Seq::<u8>::empty());
}

/// The kernel receipt a receipt projects to, before sealing.
pub open spec fn projection_fields_ok(k: ReceiptEnvelope, receipt: ReceiptJson, p: ReceiptPayload) -> bool {
    &&& k@.schema_id == PROJECTION_SCHEMA_ID@
    &&& k@.schema_hash == sha256_spec(utf8(crate::receipt_v2::RECEIPT_SCHEMA_V2@))
    &&& k@.schema_authority == PROJECTION_AUTHORITY@
    &&& k@.domain_tag == PROJECTION_DOMAIN@
    &&& k@.subject_hash == p.model.invocation.action_hash@
    &&& k@.issuer_id == projected_issuer(receipt.signing.key_id@)
    &&& k@.issuer_id.len() == 39
    &&& k@.sequence == receipt.issued_at as u64
    &&& k@.claim_hash == sha256_spec(labeled_preimage(PROJECTION_CLAIM_LABEL@, claim_parts(receipt)))
    &&& k@.evidence_hash == p.evidence_summary_hash@
    &&& k@.policy_hash == p.policy.policy_hash@
    &&& k@.trace_hash == sha256_spec(v2_transcript(Seq::empty(), p))
    &&& k@.parent_hashes == Seq::<Seq<u8>>::empty()
    &&& k@.lifecycle_state == LifecycleState::Sealed
    &&& k@.attestation is None
    &&& k@.sealed_hash is None
    &&& k@.body_hash == sha256_spec(crate::canon::body_enc(k@))
}

/// The sealed kernel receipt a receipt projects to: its schema, the receipt
/// schema's hash, the host authority and domain, the action hash as subject,
/// an issuer derived from the signing key, the issue time as sequence, the
/// projected claim hash, the evidence and policy hashes and the transcript hash.
/// A negative issue time is refused.
#[verifier::rlimit(50)]
pub fn project_v2_receipt_to_kernel(receipt: &ReceiptJson, payload: &ReceiptPayload) -> (r: Result<ReceiptEnvelope>)
    requires
        payload_error(*payload) is None,
    ensures
        receipt.issued_at < 0 ==> (r matches Err(ReceiptV2Error::InvalidInput(m)) && m@ == "receipt issued_at must be non-negative"@),
        receipt.issued_at >= 0 ==> (r matches Ok(k) && projection_fields_ok(k, *receipt, *payload)),
{
    let schema_id = match SchemaId::from_bytes(PROJECTION_SCHEMA_ID.as_slice()) {
        Ok(v) => v,
        Err(e) => return Err(ReceiptV2Error::Core(e)),
    };
    let schema_authority = match SchemaAuthority::from_bytes(PROJECTION_AUTHORITY.as_slice()) {
        Ok(v) => v,
        Err(e) => return Err(ReceiptV2Error::Core(e)),
    };
    let domain_tag = match DomainTag::from_bytes(PROJECTION_DOMAIN.as_slice()) {
        Ok(v) => v,
        Err(e) => return Err(ReceiptV2Error::Core(e)),
    };
    let issuer_id = kernel_projection_issuer_id(receipt.signing.key_id.as_str())?;
    if receipt.issued_at < 0 {
        return Err(ReceiptV2Error::InvalidInput(crate::receipt_v2::owned_text("receipt issued_at must be non-negative")));
    }
    let sequence = receipt.issued_at as u64;
    let claim_hash = kernel_projection_claim_hash(receipt)?;
    let trace = match crate::legacy::receipt::receipt_transcript_hash(payload) {
        Ok(d) => d,
        Err(e) => return Err(ReceiptV2Error::Core(e)),
    };
    let schema_text: &str = crate::receipt_v2::RECEIPT_SCHEMA_V2;
    let schema_hash = crate::digest::sha256(schema_text.as_bytes());
    let created = ReceiptEnvelope::create(
        schema_id,
        Digest(schema_hash.0),
        schema_authority,
        domain_tag,
        Digest(payload.model.invocation.action_hash.0),
        issuer_id,
        sequence,
        claim_hash,
        Digest(payload.evidence_summary_hash.0),
        Digest(payload.policy.policy_hash.0),
        Digest(trace.0),
        ParentHashes::new(),
    );
    proof {
        let sealed_body = crate::receipt::ReceiptView { lifecycle_state: LifecycleState::Sealed, ..created@ };
        lemma_small_body(sealed_body);
    }
    match created.seal() {
        Ok(k) => {
            assert(crate::canon::body_enc(k@) =~= crate::canon::body_enc(crate::receipt::ReceiptView { lifecycle_state: LifecycleState::Sealed, ..created@ }));
            Ok(k)
        },
        Err(e) => Err(ReceiptV2Error::Core(e)),
    }
}

/// The kernel projection of a receipt passes every check of the kernel.
pub proof fn lemma_projection_verifies(k: ReceiptEnvelope, receipt: ReceiptJson, p: ReceiptPayload, rep: crate::verify::VerificationReport)
    requires
        projection_fields_ok(k, receipt, p),
        k@.issuer_id.len() <= 64,
    ensures
        !verify_receipt_error(k@),
        core_report_ok(rep, k@) ==> rep.valid,
{
    lemma_small_body(k@);
}

} // verus!
