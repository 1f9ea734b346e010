use vstd::prelude::*;
use crate::crypto::sha256_spec;
use crate::error::{Error, Result};
use crate::legacy::receipt::{payload_error, receipt_transcript_hash, v2_transcript, ReceiptPayload};
use crate::signing::{digest_signature_ok, verify_receipt_signature_for_digest};
use crate::types::{Ed25519PublicKey, Ed25519Signature, Sha256Digest};

verus! {

/// Why a signed payload was accepted or not.
#[derive(Clone, Copy, Debug, PartialEq, Eq, Structural)]
pub enum VerificationReason {
    Valid,
    InvalidSignature,
}

/// What checking a signed payload found.
#[derive(Clone, Copy, Debug)]
pub struct VerificationOut {
    pub valid: bool,
    pub payload_hash: Sha256Digest,
    pub reason: VerificationReason,
}

/// Checks a payload's signature under a trusted key and records the outcome in
/// `out`; a payload that fails its checks is refused and `out` is left as it
/// was.
pub fn verify_receipt(
    payload: &ReceiptPayload,
    signature: &Ed25519Signature,
    trusted_public_key: &Ed25519PublicKey,
    out: &mut VerificationOut,
) -> (r: Result<()>)
    ensures
        payload_error(*payload) matches Some(e) ==> r == Err::<(), Error>(e) && *final(out) == *old(out),
        payload_error(*payload) is None ==> ({
            let digest = sha256_spec(v2_transcript(Seq::empty(), *payload));
            &&& r is Ok
            &&& final(out).payload_hash@ == digest
            &&& final(out).valid == digest_signature_ok(digest, *signature, *trusted_public_key)
            &&& final(out).reason == (if final(out).valid { VerificationReason::Valid } else { VerificationReason::InvalidSignature })
        }),
{
    let payload_hash = receipt_transcript_hash(payload)?;
    out.payload_hash = payload_hash;
    match verify_receipt_signature_for_digest(&payload_hash, signature, trusted_public_key) {
        Ok(()) => {
            out.valid = true;
            out.reason = VerificationReason::Valid;
        },
        Err(_) => {
            out.valid = false;
            out.reason = VerificationReason::InvalidSignature;
        },
    }
    Ok(())
}

} // verus!
