//! What a receipt the host issues, for a hosted workflow or a gate decision,
//! gives when it is verified.
use vstd::prelude::*;
use crate::codec::hex_lower;
use crate::crypto::{base64url_decode_spec, ed25519_key_valid, ed25519_public_spec, ed25519_sign_spec, ed25519_verify_spec, sha256_spec};
use crate::host::issue::{
    digest_outcome, hosted_manifest_ok, hosted_receipt_ok, prepared_ok, reads_with_digest, signed_as, HostedIssuer,
    HostedReceiptIssueRequest, PreparedHostedReceipt,
};
use crate::host::gate::{gate_receipt_ok, prepared_gate_ok, GateInput, PreparedGateReceipt};
use crate::legacy::receipt::{payload_error, v2_transcript, ReceiptPayload};
use crate::model_waist::{model_error, ModelWaist};
use crate::receipt_v2::canonical::canonical;
use crate::receipt_v2::check::{
    checks_error, documents_error, registry_issuer, report_code, report_ok, slots_match, verification_ok,
    verification_outcome, verifies_as,
};
use crate::receipt_v2::hashing::{evidence_transcript, manifest_error, manifest_hash_spec};
use crate::receipt_v2::json::{JsonValue, ManifestJson, ReceiptJson, TrustRegistryJson, VerificationReportJson, VerifyPolicyJson};
use crate::receipt_v2::normalize::{after_model_error, digest_of_text, model_json_error, model_matches, payload_matches};
use crate::receipt_v2::projection::receipt_digest_spec;
use crate::receipt_v2::{RECEIPT_ENCODING_TLV_V2, RECEIPT_SCHEMA_V2};
use crate::types::{Sha256Digest, TimestampUtc};

verus! {

/// Hex text that reads as a 32-byte digest reads as the bytes it was written
/// from.
proof fn lemma_digest_text(b: Seq<u8>)
    requires
        digest_of_text(hex_lower(b)) is Some,
    ensures
        digest_of_text(hex_lower(b)) == Some(b),
{
    crate::codec::lemma_hex_round_trip(b);
}

/// The facts about a prepared receipt that its verification reads.
proof fn lemma_prepared_facts(
    request: HostedReceiptIssueRequest,
    issuer: HostedIssuer,
    p: PreparedHostedReceipt,
    body: Seq<u8>,
    metadata: Seq<u8>,
)
    requires
        prepared_ok(p, request, issuer, body, metadata),
    ensures
        p.receipt.schema@ == RECEIPT_SCHEMA_V2@,
        p.receipt.issuer.name@ == issuer.issuer_name@,
        p.receipt.signing.key_id@ == issuer.key_id@,
        p.receipt.signing.transcript_encoding@ == issuer.receipt_encoding@,
        p.receipt.signing.algorithm@ == "Ed25519"@,
        base64url_decode_spec(p.receipt.issuer.public_key@) == Some(issuer.public_key@),
        p.receipt.manifest_hash.digest@ == hex_lower(manifest_hash_spec(p.manifest)),
        p.receipt.evidence_summary_hash.digest@ == hex_lower(sha256_spec(evidence_transcript(Seq::empty(), p.manifest.artifacts@))),
        p.manifest.schema@ == crate::receipt_v2::MANIFEST_SCHEMA_V2@,
        p.manifest_hash@ == manifest_hash_spec(p.manifest),
        reads_with_digest(p.receipt, p.digest@),
{
    reveal(prepared_ok);
    reveal(hosted_receipt_ok);
    reveal(hosted_manifest_ok);
}

/// A payload that a receipt reads back as, with the digest it was prepared
/// with.
proof fn lemma_read_back<'a>(receipt: ReceiptJson, digest: Seq<u8>) -> (pl: ReceiptPayload<'a>)
    requires
        reads_with_digest(receipt, digest),
    ensures
        payload_matches(pl, receipt, pl.reasons@),
        slots_match(pl.reasons@, receipt.reason_codes@),
        payload_error(pl) is None,
        digest == sha256_spec(v2_transcript(Seq::empty(), pl)),
{
    reveal(reads_with_digest);
    choose|pl: ReceiptPayload<'a>| #[trigger] payload_matches(pl, receipt, pl.reasons@)
        && slots_match(pl.reasons@, receipt.reason_codes@)
        && payload_error(pl) is None
        && digest == sha256_spec(v2_transcript(Seq::empty(), pl))
}

/// What a successful digest computation says of the receipt: its model reads
/// and passes its checks, and every payload it reads as passes its checks and
/// has a transcript with that digest. Where some payload is read from it, its
/// other fields read too.
proof fn lemma_digest_ok(d: Sha256Digest, receipt: ReceiptJson, pl0: ReceiptPayload)
    requires
        digest_outcome(Ok(d), receipt),
        payload_matches(pl0, receipt, pl0.reasons@),
    ensures
        model_json_error(receipt.model) is None,
        forall|w: ModelWaist| #[trigger] model_matches(w, receipt.model) ==> model_error(w) is None,
        after_model_error(receipt) is None,
        forall|p: ReceiptPayload|
            #[trigger] payload_matches(p, receipt, p.reasons@) && slots_match(p.reasons@, receipt.reason_codes@)
            ==> payload_error(p) is None && d@ == sha256_spec(v2_transcript(Seq::empty(), p)),
{
    assert(model_matches(pl0.model, receipt.model));
}

/// The report flags of a verification of the signed receipt: every check
/// passes.
proof fn lemma_report_valid(
    rep: VerificationReportJson,
    signed: ReceiptJson,
    unsigned: ReceiptJson,
    receipt_value: JsonValue,
    manifest: ManifestJson,
    digest: Seq<u8>,
    registry: TrustRegistryJson,
    q: VerifyPolicyJson,
    signature: Seq<u8>,
    public_key: Seq<u8>,
)
    requires
        signed == (ReceiptJson { signing: signed.signing, ..unsigned }),
        signed.signing.transcript_encoding@ == RECEIPT_ENCODING_TLV_V2@,
        signed.signing.algorithm@ == "Ed25519"@,
        signed.signing.payload_hash.algorithm@ == "sha-256"@,
        signed.signing.payload_hash.digest@ == hex_lower(digest),
        base64url_decode_spec(signed.signing.signature@) == Some(signature),
        signature.len() == 64,
        ed25519_key_valid(public_key),
        ed25519_verify_spec(public_key, digest, signature),
        public_key.len() == 32,
        registry_issuer(Some(registry), signed.signing.key_id@, Some(signed.issuer.name@)) matches Some(e)
            && base64url_decode_spec(e.public_key@) == Some(public_key),
        signed.manifest_hash.digest@ == hex_lower(manifest_hash_spec(manifest)),
        signed.evidence_summary_hash.digest@ == hex_lower(sha256_spec(evidence_transcript(Seq::empty(), manifest.artifacts@))),
        after_model_error(signed) is None,
        forall|p: ReceiptPayload|
            #[trigger] payload_matches(p, signed, p.reasons@) && slots_match(p.reasons@, signed.reason_codes@)
            ==> payload_error(p) is None && digest == sha256_spec(v2_transcript(Seq::empty(), p)),
        !q.require_revocation_check,
        verifies_as(rep, signed, receipt_value, Some(&manifest), None, Some(&registry), None, q, None),
    ensures
        rep.status@ == "valid"@,
        rep.code@ == "VALID_RECEIPT"@,
{
    reveal(verifies_as);
    let (c, pl) = choose|c: crate::receipt_v2::check::CheckResults, pl: ReceiptPayload| #[trigger] verification_ok(
        rep, c, pl, signed, receipt_value, Some(&manifest), None, Some(&registry), None, q, None,
    );
    assert(verification_ok(rep, c, pl, signed, receipt_value, Some(&manifest), None, Some(&registry), None, q, None));
    assert(payload_matches(pl, signed, pl.reasons@) && slots_match(pl.reasons@, signed.reason_codes@));
    assert(receipt_digest_spec(pl, signed.signing.transcript_encoding@, receipt_value)
        == Ok::<Seq<u8>, crate::receipt_v2::ErrorView>(digest));
    let e = registry_issuer(Some(registry), signed.signing.key_id@, Some(signed.issuer.name@))->Some_0;
    assert(crate::receipt_v2::normalize::fixed_of(e.public_key@, 32) == Some(public_key));
    assert(crate::receipt_v2::normalize::fixed_of(signed.signing.signature@, 64) == Some(signature));
    assert(c.payload_hash_valid);
    assert(c.signature_valid);
    assert(c.trusted_issuer);
    assert(crate::receipt_v2::normalize::digest_error(signed.manifest_hash) is None);
    assert(crate::receipt_v2::normalize::digest_error(signed.evidence_summary_hash) is None);
    lemma_digest_text(manifest_hash_spec(manifest));
    lemma_digest_text(sha256_spec(evidence_transcript(Seq::empty(), manifest.artifacts@)));
    assert(c.manifest_hash_valid);
    assert(c.evidence_summary_valid);
    assert(!c.revocation@.checked);
    assert(report_code(c, q, signed.signing.transcript_encoding@) == "VALID_RECEIPT"@);
    reveal(report_ok);
}

/// A signed receipt verifies as valid against its manifest and a registry that
/// trusts its key with `public_key`, where the unsigned receipt reads back with
/// `digest`, names the manifest's hashes and the second TLV transcript, and
/// the signature over `digest` verifies under `public_key`.
proof fn lemma_signed_receipt_verifies(
    unsigned: ReceiptJson,
    manifest: ManifestJson,
    digest: Sha256Digest,
    issuer_key: Seq<u8>,
    signature: Seq<u8>,
    public_key: Seq<u8>,
    signed: ReceiptJson,
    receipt_value: JsonValue,
    registry: TrustRegistryJson,
)
    requires
        unsigned.schema@ == RECEIPT_SCHEMA_V2@,
        unsigned.signing.transcript_encoding@ == RECEIPT_ENCODING_TLV_V2@,
        unsigned.signing.algorithm@ == "Ed25519"@,
        unsigned.issued_at >= 0,
        base64url_decode_spec(unsigned.issuer.public_key@) == Some(issuer_key),
        issuer_key.len() == 32,
        unsigned.manifest_hash.digest@ == hex_lower(manifest_hash_spec(manifest)),
        unsigned.evidence_summary_hash.digest@ == hex_lower(sha256_spec(evidence_transcript(Seq::empty(), manifest.artifacts@))),
        manifest.schema@ == crate::receipt_v2::MANIFEST_SCHEMA_V2@,
        manifest_error(manifest) is None,
        reads_with_digest(unsigned, digest@),
        digest_outcome(Ok(digest), unsigned),
        signed_as(signed, unsigned, digest@, signature),
        signature.len() == 64,
        ed25519_key_valid(public_key),
        ed25519_verify_spec(public_key, digest@, signature),
        public_key.len() == 32,
        crate::receipt_v2::registry_schema_known(registry.schema@),
        registry_issuer(Some(registry), unsigned.signing.key_id@, Some(unsigned.issuer.name@)) matches Some(e)
            && base64url_decode_spec(e.public_key@) == Some(public_key),
    ensures
        documents_error(None, Some(&registry), None) is None,
        forall|q: VerifyPolicyJson| crate::receipt_v2::verify_policy_error(q) is None
            ==> #[trigger] documents_error(Some(&q), Some(&registry), None) is None,
        signed.schema@ == RECEIPT_SCHEMA_V2@,
        forall|r: crate::receipt_v2::Result<VerificationReportJson>|
            #[trigger] verification_outcome(r, signed, receipt_value, Some(&manifest), None, Some(&registry), None, None)
            ==> r is Ok,
        forall|rep: VerificationReportJson, q: VerifyPolicyJson|
            !q.require_revocation_check
            && #[trigger] verifies_as(rep, signed, receipt_value, Some(&manifest), None, Some(&registry), None, q, None)
            ==> rep.status@ == "valid"@ && rep.code@ == "VALID_RECEIPT"@,
{
    let pl0 = lemma_read_back(unsigned, digest@);
    lemma_digest_ok(digest, unsigned, pl0);
    assert(signed.model == unsigned.model);
    assert(signed.reason_codes == unsigned.reason_codes);
    assert(after_model_error(signed) == after_model_error(unsigned));
    assert forall|p: ReceiptPayload, s: Seq<crate::legacy::policy::ReasonCodeSlot>|
        #[trigger] payload_matches(p, signed, s) == payload_matches(p, unsigned, s) by {}
    assert(payload_matches(pl0, signed, pl0.reasons@));
    assert forall|r: crate::receipt_v2::Result<VerificationReportJson>|
        #[trigger] verification_outcome(r, signed, receipt_value, Some(&manifest), None, Some(&registry), None, None)
        implies r is Ok by {
        assert(model_matches(pl0.model, signed.model));
        assert(checks_error(signed, receipt_value, pl0, Some(&manifest), None, Some(&registry), None, None) is None);
    }
    assert forall|rep: VerificationReportJson, q: VerifyPolicyJson|
        !q.require_revocation_check
        && #[trigger] verifies_as(rep, signed, receipt_value, Some(&manifest), None, Some(&registry), None, q, None)
        implies rep.status@ == "valid"@ && rep.code@ == "VALID_RECEIPT"@ by {
        lemma_report_valid(rep, signed, unsigned, receipt_value, manifest, digest@, registry, q, signature, public_key);
    }
}

/// A receipt that the host prepares for an issuer whose encoding is the second
/// TLV transcript, and then signs with a secret key, passes verification
/// against its own manifest and a trust registry that lists the issuer's key
/// identifier and name with the public key of that secret key: the documents
/// are accepted, the verification succeeds, and under any policy that does not
/// ask for a revocation check its report is `valid` with code `VALID_RECEIPT`.
/// The premises are what `prepare_hosted_receipt` and `sign_prepared_receipt`
/// state of their results, with a time of issue that is not before the epoch.
pub proof fn law_issued_receipt_verifies(
    request: HostedReceiptIssueRequest,
    issuer: HostedIssuer,
    prepared: PreparedHostedReceipt,
    secret_key: [u8; 32],
    public_key: [u8; 32],
    signed: ReceiptJson,
    receipt_value: JsonValue,
    registry: TrustRegistryJson,
)
    requires
        issuer.receipt_encoding@ == RECEIPT_ENCODING_TLV_V2@,
        prepared_ok(prepared, request, issuer, canonical(request.body_json), canonical(request.domain_metadata)),
        digest_outcome(Ok(prepared.digest), prepared.receipt),
        manifest_error(prepared.manifest) is None,
        prepared.receipt.issued_at >= 0,
        signed_as(signed, prepared.receipt, prepared.digest@, ed25519_sign_spec(secret_key@, prepared.digest@)),
        ed25519_verify_spec(ed25519_public_spec(secret_key@), prepared.digest@, ed25519_sign_spec(secret_key@, prepared.digest@)),
        ed25519_sign_spec(secret_key@, prepared.digest@).len() == 64,
        public_key@ == ed25519_public_spec(secret_key@),
        ed25519_key_valid(public_key@),
        crate::receipt_v2::registry_schema_known(registry.schema@),
        registry_issuer(Some(registry), issuer.key_id@, Some(issuer.issuer_name@)) matches Some(e)
            && base64url_decode_spec(e.public_key@) == Some(public_key@),
    ensures
        documents_error(None, Some(&registry), None) is None,
        forall|q: VerifyPolicyJson| crate::receipt_v2::verify_policy_error(q) is None
            ==> #[trigger] documents_error(Some(&q), Some(&registry), None) is None,
        signed.schema@ == RECEIPT_SCHEMA_V2@,
        forall|r: crate::receipt_v2::Result<VerificationReportJson>|
            #[trigger] verification_outcome(r, signed, receipt_value, Some(&prepared.manifest), None, Some(&registry), None, None)
            ==> r is Ok,
        forall|rep: VerificationReportJson, q: VerifyPolicyJson|
            !q.require_revocation_check
            && #[trigger] verifies_as(rep, signed, receipt_value, Some(&prepared.manifest), None, Some(&registry), None, q, None)
            ==> rep.status@ == "valid"@ && rep.code@ == "VALID_RECEIPT"@,
{
    lemma_prepared_facts(request, issuer, prepared, canonical(request.body_json), canonical(request.domain_metadata));
    lemma_signed_receipt_verifies(
        prepared.receipt, prepared.manifest, prepared.digest, issuer.public_key@,
        ed25519_sign_spec(secret_key@, prepared.digest@), public_key@, signed, receipt_value, registry,
    );
}

/// The receipt of a gate decision that the host prepares for an issuer whose
/// encoding is the second TLV transcript, and then signs with a secret key,
/// is accepted by verification against the decision's manifest and a trust
/// registry that lists the issuer's key identifier and name with the public
/// key of that secret key: the documents are accepted, the verification
/// succeeds, and under any policy that does not ask for a revocation check its
/// report is `valid` with code `VALID_RECEIPT`. The premises are what
/// `prepare_gate_receipt` and `finish_hosted_receipt` state of their results,
/// with a manifest of the second schema and a time not before the epoch.
pub proof fn law_gate_receipt_verifies(
    input: GateInput,
    issuer: HostedIssuer,
    now: TimestampUtc,
    prepared: PreparedGateReceipt,
    secret_key: [u8; 32],
    public_key: [u8; 32],
    signed: ReceiptJson,
    receipt_value: JsonValue,
    registry: TrustRegistryJson,
)
    requires
        issuer.receipt_encoding@ == RECEIPT_ENCODING_TLV_V2@,
        prepared_gate_ok(prepared, input, issuer, now),
        digest_outcome(Ok(prepared.digest), prepared.receipt),
        manifest_error(input.manifest) is None,
        input.manifest.schema@ == crate::receipt_v2::MANIFEST_SCHEMA_V2@,
        now.unix_seconds >= 0,
        signed_as(signed, prepared.receipt, prepared.digest@, ed25519_sign_spec(secret_key@, prepared.digest@)),
        ed25519_verify_spec(ed25519_public_spec(secret_key@), prepared.digest@, ed25519_sign_spec(secret_key@, prepared.digest@)),
        ed25519_sign_spec(secret_key@, prepared.digest@).len() == 64,
        public_key@ == ed25519_public_spec(secret_key@),
        ed25519_key_valid(public_key@),
        crate::receipt_v2::registry_schema_known(registry.schema@),
        registry_issuer(Some(registry), issuer.key_id@, Some(issuer.issuer_name@)) matches Some(e)
            && base64url_decode_spec(e.public_key@) == Some(public_key@),
    ensures
        documents_error(None, Some(&registry), None) is None,
        forall|q: VerifyPolicyJson| crate::receipt_v2::verify_policy_error(q) is None
            ==> #[trigger] documents_error(Some(&q), Some(&registry), None) is None,
        signed.schema@ == RECEIPT_SCHEMA_V2@,
        forall|r: crate::receipt_v2::Result<VerificationReportJson>|
            #[trigger] verification_outcome(r, signed, receipt_value, Some(&input.manifest), None, Some(&registry), None, None)
            ==> r is Ok,
        forall|rep: VerificationReportJson, q: VerifyPolicyJson|
            !q.require_revocation_check
            && #[trigger] verifies_as(rep, signed, receipt_value, Some(&input.manifest), None, Some(&registry), None, q, None)
            ==> rep.status@ == "valid"@ && rep.code@ == "VALID_RECEIPT"@,
{
    reveal(gate_receipt_ok);
    lemma_signed_receipt_verifies(
        prepared.receipt, input.manifest, prepared.digest, issuer.public_key@,
        ed25519_sign_spec(secret_key@, prepared.digest@), public_key@, signed, receipt_value, registry,
    );
}

} // verus!
