//! Attesting receipts: signing a receipt's signed message with an Ed25519 key
//! and binding the attestation to the receipt.
use vstd::prelude::*;
use crate::bounded::PublicKeyId;
use crate::canon::{attestation_enc, body_enc, signed_message};
use crate::crypto::{ed25519_key_valid, ed25519_public_spec, ed25519_sign_spec, ed25519_verify_spec, sha256_spec};
use crate::error::{Error, Result};
use crate::kernel::{Ed25519Signature, SignatureProfileId};
use crate::laws::attested_view;
use crate::receipt::{
    body_hash_limit, sealed_hash_limit, window_ok, AttestationEnvelope, AttestationView, ReceiptEnvelope,
    ReceiptView, ValidityWindow,
};
use crate::signing::Ed25519SigningKey;
use crate::trust::{expired, first_trusted_key, trust_outcome, ReceiptStatus, TrustedIssuerKey, VerificationCode, VerificationPolicy};

verus! {

/// The attestation that signing `v` under `profile_id` with the secret key
/// `secret` gives: the receipt's issuer and sequence, the key identifier, the
/// hash of the receipt's signed message and the signature over that hash.
pub open spec fn attestation_for(
    v: ReceiptView,
    profile_id: SignatureProfileId,
    public_key_id: Seq<u8>,
    secret: Seq<u8>,
    validity_window: Option<ValidityWindow>,
) -> AttestationView {
    let hash = sha256_spec(signed_message(v, profile_id));
    AttestationView {
        profile_id,
        issuer_id: v.issuer_id,
        public_key_id,
        signature: ed25519_sign_spec(secret, hash),
        signed_message_hash: hash,
        sequence: v.sequence,
        validity_window,
    }
}

/// The length of the encoding of an Ed25519 attestation naming an issuer of
/// `issuer_len` bytes and a key identifier of `key_len` bytes, with `window`.
pub open spec fn attestation_enc_len(issuer_len: nat, key_len: nat, window: Option<ValidityWindow>) -> nat {
    2 + (1 + issuer_len) + (1 + key_len) + 32 + 8 + (if window is Some { 17nat } else { 1nat }) + 64
}

/// An attestation with a 32-byte hash and a 64-byte signature encodes in
/// `attestation_enc_len` bytes.
pub proof fn lemma_attestation_enc_len(a: AttestationView)
    requires
        a.signed_message_hash.len() == 32,
        a.signature.len() == 64,
    ensures
        attestation_enc(Some(a)).len() == attestation_enc_len(a.issuer_id.len(), a.public_key_id.len(), a.validity_window),
{
}

/// Signs `receipt` under `profile_id` with `signing_key` and attaches the
/// attestation, with the optional validity window. Only the Ed25519 profile
/// can sign; the body must fit the kernel's hash limit, the window must not be
/// empty, and body, hash and attestation must fit the sealed hash limit.
pub fn attest_receipt(
    receipt: ReceiptEnvelope,
    profile_id: SignatureProfileId,
    public_key_id: PublicKeyId,
    signing_key: &Ed25519SigningKey,
    validity_window: Option<ValidityWindow>,
) -> (r: Result<ReceiptEnvelope>)
    ensures
        ({
            let a = attestation_for(receipt@, profile_id, public_key_id@, signing_key.0@, validity_window);
            let body = body_enc(receipt@);
            &&& profile_id != SignatureProfileId::InkSigEd25519V1 ==> r == Err::<ReceiptEnvelope, Error>(Error::UnsupportedSignatureProfile)
            &&& profile_id == SignatureProfileId::InkSigEd25519V1 && body.len() > body_hash_limit()
                ==> r == Err::<ReceiptEnvelope, Error>(Error::BufferTooSmall)
            &&& profile_id == SignatureProfileId::InkSigEd25519V1 && body.len() <= body_hash_limit() && !window_ok(validity_window)
                ==> r == Err::<ReceiptEnvelope, Error>(Error::InvalidValidityWindow)
            &&& profile_id == SignatureProfileId::InkSigEd25519V1 && body.len() <= body_hash_limit() && window_ok(validity_window)
                && body.len() + 32 + attestation_enc_len(receipt@.issuer_id.len(), public_key_id@.len(), validity_window) > sealed_hash_limit()
                ==> r == Err::<ReceiptEnvelope, Error>(Error::BufferTooSmall)
            &&& profile_id == SignatureProfileId::InkSigEd25519V1 && body.len() <= body_hash_limit() && window_ok(validity_window)
                && body.len() + 32 + attestation_enc_len(receipt@.issuer_id.len(), public_key_id@.len(), validity_window) <= sealed_hash_limit()
                ==> (r matches Ok(s) && s@ == attested_view(receipt@, a))
            &&& r is Ok ==> ed25519_verify_spec(ed25519_public_spec(signing_key.0@), a.signed_message_hash, a.signature)
        }),
{
    let signed_message_hash = crate::canon::compute_signed_message_hash(&receipt, profile_id)?;
    let signature = crate::crypto::ed25519_sign(&signing_key.0, signed_message_hash.0.as_slice());
    let attestation = AttestationEnvelope {
        profile_id,
        issuer_id: receipt.issuer_id,
        public_key_id,
        signature: Ed25519Signature::new(signature),
        signed_message_hash,
        sequence: receipt.sequence,
        validity_window,
    };
    assert(attestation@ == attestation_for(receipt@, profile_id, public_key_id@, signing_key.0@, validity_window));
    proof {
        lemma_attestation_enc_len(attestation@);
    }
    receipt.with_attestation(attestation)
}

/// A receipt attested with a secret key is reported as validly signed by a
/// verifier whose first trusted key for the issuer and key identifier is the
/// matching public key, unless the policy finds the attestation expired.
pub proof fn lemma_attested_receipt_verifies(
    v: ReceiptView,
    public_key_id: Seq<u8>,
    secret: Seq<u8>,
    validity_window: Option<ValidityWindow>,
    keys: Seq<TrustedIssuerKey>,
    policy: VerificationPolicy,
)
    requires
        ({
            let a = attestation_for(v, SignatureProfileId::InkSigEd25519V1, public_key_id, secret, validity_window);
            &&& !expired(policy, validity_window)
            &&& first_trusted_key(keys, a) matches Some(k) && k.public_key.0@ == ed25519_public_spec(secret)
                && ed25519_key_valid(k.public_key.0@)
            &&& ed25519_verify_spec(ed25519_public_spec(secret), a.signed_message_hash, a.signature)
        }),
    ensures
        trust_outcome(
            attested_view(v, attestation_for(v, SignatureProfileId::InkSigEd25519V1, public_key_id, secret, validity_window)),
            keys,
            policy,
        ) == Ok::<(ReceiptStatus, VerificationCode), crate::trust::VerificationError>((
            ReceiptStatus::SignatureValid,
            VerificationCode::SignatureValid,
        )),
{
    let a = attestation_for(v, SignatureProfileId::InkSigEd25519V1, public_key_id, secret, validity_window);
    let w = attested_view(v, a);
    assert(body_enc(w) =~= body_enc(v));
    assert(signed_message(w, a.profile_id) =~= signed_message(v, a.profile_id));
}

} // verus!
