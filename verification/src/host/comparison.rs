//! The signed record of a comparison of two receipts: which receipts, and
//! whether their decisions, actions and manifests match.
use vstd::prelude::*;
use vstd::string::StringSliceAdditionalSpecFns;
use crate::codec::hex_lower;
use crate::crypto::{base64url_decode_spec, sha256_spec};
use crate::digest::{bool_byte, tlv, write_tlv, write_u8_field, Sha256Sink, TranscriptSink};
use crate::limits::MAX_TLV_VALUE_LEN;
use crate::receipt_v2::check::digest_json;
use crate::receipt_v2::json::SigningJson;
use crate::receipt_v2::owned_text;
use crate::types::Sha256Digest;

verus! {

/// The encoding that signs a comparison record.
pub const COMPARISON_ENCODING_V1: &'static str = "INK-COMPARISON-CORE-V1";

/// A field of a comparison transcript; a value too long for a field leaves
/// nothing.
pub open spec fn field_or_nothing(field_id: u16, value: Seq<u8>) -> Seq<u8> {
    if value.len() > MAX_TLV_VALUE_LEN { Seq::empty() } else { tlv(field_id, value) }
}

/// The transcript of a comparison: the two receipt identifiers, then the
/// decision, action and manifest matches as one-byte flags.
pub open spec fn comparison_transcript(left: Seq<u8>, right: Seq<u8>, decision_match: bool, action_match: bool, manifest_match: bool) -> Seq<u8> {
    field_or_nothing(1, left) + field_or_nothing(2, right) + tlv(3, seq![bool_byte(decision_match)])
        + tlv(4, seq![bool_byte(action_match)]) + tlv(5, seq![bool_byte(manifest_match)])
}

/// The digest a comparison record's signature covers.
pub fn comparison_digest(
    left_receipt_id: &str,
    right_receipt_id: &str,
    decision_match: bool,
    action_match: bool,
    manifest_match: bool,
) -> (r: Sha256Digest)
    ensures
        r@ == sha256_spec(comparison_transcript(
            left_receipt_id.spec_bytes(), right_receipt_id.spec_bytes(), decision_match, action_match, manifest_match,
        )),
{
    let mut sink = Sha256Sink::new();
    let _ = write_tlv(&mut sink, 1, left_receipt_id.as_bytes());
    let _ = write_tlv(&mut sink, 2, right_receipt_id.as_bytes());
    write_u8_field(&mut sink, 3, if decision_match { 1 } else { 0 });
    write_u8_field(&mut sink, 4, if action_match { 1 } else { 0 });
    write_u8_field(&mut sink, 5, if manifest_match { 1 } else { 0 });
    proof {
        let l = left_receipt_id.spec_bytes();
        let r = right_receipt_id.spec_bytes();
        assert(Seq::<u8>::empty() + field_or_nothing(1, l) =~= field_or_nothing(1, l));
        assert(sink.transcript() =~= comparison_transcript(l, r, decision_match, action_match, manifest_match));
    }
    sink.finalize()
}

/// The signing block of a comparison record signed by `key_id`.
pub fn comparison_signing(digest: &Sha256Digest, key_id: &str, signature: &[u8; 64]) -> (r: SigningJson)
    ensures
        r.transcript_encoding@ == COMPARISON_ENCODING_V1@,
        r.payload_hash.algorithm@ == "sha-256"@,
        r.payload_hash.digest@ == hex_lower(digest@),
        r.algorithm@ == "Ed25519"@,
        r.key_id@ == key_id@,
        base64url_decode_spec(r.signature@) == Some(signature@),
{
    SigningJson {
        transcript_encoding: owned_text(COMPARISON_ENCODING_V1),
        payload_hash: digest_json(digest),
        algorithm: owned_text("Ed25519"),
        key_id: owned_text(key_id),
        signature: crate::crypto::base64url_encode(signature.as_slice()),
    }
}

} // verus!
