use vstd::prelude::*;
use crate::crypto::{ed25519_key_valid, ed25519_sign_spec, ed25519_verify_spec, sha256_spec};
use crate::error::{Error, Result};
use crate::legacy::receipt::{payload_error, receipt_transcript_hash, v2_transcript, ReceiptPayload};
use crate::types::{Ed25519PublicKey, Ed25519Signature, Sha256Digest};

verus! {

/// Something that signs the 32-byte digest of a receipt transcript.
pub trait ReceiptSigner {
    /// A signature over `digest`, or the reason there is none.
    fn sign_digest(&self, digest: &[u8; 32]) -> Result<Ed25519Signature>;
}

/// An Ed25519 secret key held in memory.
#[derive(Clone, Copy, Debug)]
pub struct Ed25519SigningKey(pub [u8; 32]);

impl ReceiptSigner for Ed25519SigningKey {
    fn sign_digest(&self, digest: &[u8; 32]) -> (r: Result<Ed25519Signature>)
        ensures
            r matches Ok(s) && s.0@ == ed25519_sign_spec(self.0@, digest@),
    {
        Ok(Ed25519Signature(crate::crypto::ed25519_sign(&self.0, digest.as_slice())))
    }
}

/// Signs the hash of a payload's transcript; a payload that fails its checks
/// is refused before the signer is asked.
pub fn sign_receipt_payload<S: ReceiptSigner>(payload: &ReceiptPayload, signer: &S) -> (r: Result<Ed25519Signature>)
    ensures
        payload_error(*payload) matches Some(e) ==> r == Err::<Ed25519Signature, Error>(e),
        payload_error(*payload) is None ==> exists|d: [u8; 32]|
            d@ == sha256_spec(v2_transcript(Seq::empty(), *payload))
            && #[trigger] call_ensures(S::sign_digest, (signer, &d), r),
{
    let digest = receipt_transcript_hash(payload)?;
    let sign = S::sign_digest;
    let r = sign(signer, &digest.0);
    assert(call_ensures(S::sign_digest, (signer, &digest.0), r));
    r
}

/// Whether `signature` is a valid signature over `digest` under a valid key.
pub open spec fn digest_signature_ok(digest: Seq<u8>, signature: Ed25519Signature, public_key: Ed25519PublicKey) -> bool {
    ed25519_key_valid(public_key.0@) && ed25519_verify_spec(public_key.0@, digest, signature.0@)
}

/// Checks a signature over the hash of a payload's transcript.
pub fn verify_receipt_signature(payload: &ReceiptPayload, signature: &Ed25519Signature, public_key: &Ed25519PublicKey) -> (r: Result<()>)
    ensures
        payload_error(*payload) matches Some(e) ==> r == Err::<(), Error>(e),
        payload_error(*payload) is None ==> ({
            let digest = sha256_spec(v2_transcript(Seq::empty(), *payload));
            &&& (r is Ok <==> digest_signature_ok(digest, *signature, *public_key))
            &&& (r is Err ==> r == Err::<(), Error>(Error::SignatureError))
        }),
{
    let digest = receipt_transcript_hash(payload)?;
    verify_receipt_signature_for_digest(&digest, signature, public_key)
}

/// Checks a signature over a digest; an invalid key or a bad signature are
/// both a signature error.
pub fn verify_receipt_signature_for_digest(digest: &Sha256Digest, signature: &Ed25519Signature, public_key: &Ed25519PublicKey) -> (r: Result<()>)
    ensures
        r is Ok <==> digest_signature_ok(digest@, *signature, *public_key),
        r is Err ==> r == Err::<(), Error>(Error::SignatureError),
{
    match crate::crypto::ed25519_verify(&public_key.0, digest.0.as_slice(), &signature.0) {
        Some(true) => Ok(()),
        _ => Err(Error::SignatureError),
    }
}

} // verus!
