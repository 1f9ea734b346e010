use vstd::prelude::*;
use crate::bundle::bundle_root_spec;
use crate::canon::{attestation_enc, body_enc, sealed_preimage, signed_message};
use crate::crypto::{ed25519_key_valid, ed25519_verify_spec, sha256_spec};
use crate::kernel::SignatureProfileId;
use crate::lifecycle::LifecycleState;
use crate::receipt::{
    attestation_binding_error, body_hash_limit, sealed_hash_limit, AttestationView, ReceiptView,
};
use crate::trust::{expired, first_trusted_key, trust_outcome, ReceiptStatus, TrustedIssuerKey, VerificationCode, VerificationPolicy};
use crate::verify::{
    bundle_report_ok, core_report_ok, schema_ok, verify_receipt_error, BundleVerificationReport,
    VerificationReport,
};

verus! {

/// The receipt that sealing `v` gives, where its body fits the hash limit.
pub open spec fn sealed_view(v: ReceiptView) -> ReceiptView {
    let sealed_body = ReceiptView { lifecycle_state: LifecycleState::Sealed, ..v };
    ReceiptView { body_hash: sha256_spec(body_enc(sealed_body)), sealed_hash: None, ..sealed_body }
}

/// The receipt that attaching `a` to `v` gives, where it fits the limits.
pub open spec fn attested_view(v: ReceiptView, a: AttestationView) -> ReceiptView {
    ReceiptView {
        body_hash: sha256_spec(body_enc(v)),
        attestation: Some(a),
        sealed_hash: Some(sha256_spec(sealed_preimage(v, a))),
        ..v
    }
}

/// A sealed receipt without an attestation passes every check of the kernel
/// but the schema check, which it passes exactly when its schema fields are
/// set.
pub proof fn lemma_sealed_receipt_verifies(v: ReceiptView, rep: VerificationReport)
    requires
        v.attestation is None,
        body_enc(ReceiptView { lifecycle_state: LifecycleState::Sealed, ..v }).len() <= body_hash_limit(),
        core_report_ok(rep, sealed_view(v)),
    ensures
        !verify_receipt_error(sealed_view(v)),
        rep.body_hash_valid,
        rep.sealed_hash_valid,
        rep.lifecycle_valid,
        rep.valid == schema_ok(v),
{
    let s = sealed_view(v);
    let sealed_body = ReceiptView { lifecycle_state: LifecycleState::Sealed, ..v };
    assert(body_enc(s) =~= body_enc(sealed_body));
}

/// Attaching an attestation keeps the body hash that the body gives and makes
/// the sealed hash agree with the attestation, so both hash checks pass.
pub proof fn lemma_attested_receipt_hashes_verify(v: ReceiptView, a: AttestationView, rep: VerificationReport)
    requires
        attestation_binding_error(a, v) is None,
        body_enc(v).len() <= body_hash_limit(),
        body_enc(v).len() + 32 + attestation_enc(Some(a)).len() <= sealed_hash_limit(),
        core_report_ok(rep, attested_view(v, a)),
    ensures
        !verify_receipt_error(attested_view(v, a)),
        rep.body_hash_valid,
        rep.sealed_hash_valid,
        rep.hash_valid,
        rep.attestation_present,
{
    let w = attested_view(v, a);
    assert(body_enc(w) =~= body_enc(v));
    assert(sealed_preimage(w, a) =~= sealed_preimage(v, a));
}

/// A bundle whose root is the root of its receipt hashes verifies.
pub proof fn lemma_sealed_bundle_verifies(hashes: Seq<Seq<u8>>, rep: BundleVerificationReport)
    requires
        bundle_report_ok(rep, bundle_root_spec(hashes), hashes),
    ensures
        rep.valid,
        rep.root_valid,
{
}

/// A receipt is reported as validly signed only when it carries an attestation
/// of the supported profile, within its window, whose issuer and key are
/// trusted, whose signed hash is the hash of the receipt's signed message, and
/// whose signature verifies under the trusted key.
pub proof fn lemma_signature_valid_is_sound(v: ReceiptView, keys: Seq<TrustedIssuerKey>, policy: VerificationPolicy)
    requires
        trust_outcome(v, keys, policy) matches Ok((status, _)) && status == ReceiptStatus::SignatureValid,
    ensures
        v.attestation matches Some(a) && {
            &&& a.profile_id == SignatureProfileId::InkSigEd25519V1
            &&& !expired(policy, a.validity_window)
            &&& a.signed_message_hash == sha256_spec(signed_message(v, a.profile_id))
            &&& first_trusted_key(keys, a) matches Some(k) && ed25519_key_valid(k.public_key.0@)
                && ed25519_verify_spec(k.public_key.0@, a.signed_message_hash, a.signature)
        },
{
}

/// A receipt whose attestation meets every condition above is reported as
/// validly signed.
pub proof fn lemma_signature_valid_is_complete(v: ReceiptView, keys: Seq<TrustedIssuerKey>, policy: VerificationPolicy)
    requires
        v.attestation matches Some(a) && {
            &&& a.profile_id == SignatureProfileId::InkSigEd25519V1
            &&& !expired(policy, a.validity_window)
            &&& a.signed_message_hash == sha256_spec(signed_message(v, a.profile_id))
            &&& first_trusted_key(keys, a) matches Some(k) && ed25519_key_valid(k.public_key.0@)
                && ed25519_verify_spec(k.public_key.0@, a.signed_message_hash, a.signature)
        },
    ensures
        trust_outcome(v, keys, policy) == Ok::<(ReceiptStatus, VerificationCode), crate::trust::VerificationError>((
            ReceiptStatus::SignatureValid,
            VerificationCode::SignatureValid,
        )),
{
}

/// An unsigned receipt is never reported as signed: it is structurally valid
/// when the policy allows unsigned receipts and missing its signature
/// otherwise.
pub proof fn lemma_unsigned_receipt_outcome(v: ReceiptView, keys: Seq<TrustedIssuerKey>, policy: VerificationPolicy)
    requires
        v.attestation is None,
    ensures
        policy.allow_unsigned ==> trust_outcome(v, keys, policy) == Ok::<(ReceiptStatus, VerificationCode), crate::trust::VerificationError>((
            ReceiptStatus::StructuralValidUnsigned,
            VerificationCode::StructuralValidUnsigned,
        )),
        !policy.allow_unsigned ==> trust_outcome(v, keys, policy) == Ok::<(ReceiptStatus, VerificationCode), crate::trust::VerificationError>((
            ReceiptStatus::SignatureMissing,
            VerificationCode::SignatureMissing,
        )),
{
}

/// Whatever receipts are added to a new bundle, one `add_receipt` at a time,
/// it holds the first `MAX_BUNDLE_SIZE` of them in the order they were added,
/// duplicates kept; the adds past that size are refused and change nothing.
/// (Sealing then keeps them, as `Bundle::seal` states.)
pub proof fn law_bundle_keeps_added_order(adds: Seq<Seq<u8>>)
    ensures
        adds.len() <= crate::kernel::MAX_BUNDLE_SIZE ==> crate::bundle::bundle_after_adds(adds) == adds,
        adds.len() > crate::kernel::MAX_BUNDLE_SIZE
            ==> crate::bundle::bundle_after_adds(adds) == adds.take(crate::kernel::MAX_BUNDLE_SIZE as int),
    decreases adds.len(),
{
    if adds.len() > 0 {
        let init = adds.drop_last();
        law_bundle_keeps_added_order(init);
        if adds.len() <= crate::kernel::MAX_BUNDLE_SIZE {
            assert(init.push(adds.last()) =~= adds);
        } else if init.len() == crate::kernel::MAX_BUNDLE_SIZE {
            assert(init.take(crate::kernel::MAX_BUNDLE_SIZE as int) =~= init);
            assert(adds.take(crate::kernel::MAX_BUNDLE_SIZE as int) =~= init);
        } else {
            assert(adds.take(crate::kernel::MAX_BUNDLE_SIZE as int) =~= init.take(crate::kernel::MAX_BUNDLE_SIZE as int));
        }
    }
}

/// After any sequence of `set_content` calls, an event's content is the
/// argument of the last call that was accepted, or the content it started
/// with if none was; it never exceeds `MAX_TRACE_EVENT_LEN` bytes when it
/// started within that bound.
pub proof fn law_event_content_is_last_accepted(c: Seq<u8>, xs: Seq<Seq<u8>>)
    ensures
        (forall|i: int| 0 <= i < xs.len() ==> !crate::event::content_accepted(#[trigger] xs[i]))
            ==> crate::event::content_after(c, xs) == c,
        forall|i: int| 0 <= i < xs.len() && crate::event::content_accepted(#[trigger] xs[i])
            && (forall|j: int| i < j < xs.len() ==> !crate::event::content_accepted(#[trigger] xs[j]))
            ==> crate::event::content_after(c, xs) == xs[i],
        c.len() <= crate::kernel::MAX_TRACE_EVENT_LEN
            ==> crate::event::content_after(c, xs).len() <= crate::kernel::MAX_TRACE_EVENT_LEN,
    decreases xs.len(),
{
    if xs.len() > 0 {
        let init = xs.drop_last();
        law_event_content_is_last_accepted(c, init);
        assert forall|i: int| 0 <= i < init.len() implies #[trigger] init[i] == xs[i] by {}
        let n = xs.len() - 1;
        assert(xs[n] == xs.last());
        assert forall|i: int| 0 <= i < xs.len() && crate::event::content_accepted(#[trigger] xs[i])
            && (forall|j: int| i < j < xs.len() ==> !crate::event::content_accepted(#[trigger] xs[j]))
            implies crate::event::content_after(c, xs) == xs[i] by {
            if i < n {
                assert(!crate::event::content_accepted(xs[n]));
                assert(crate::event::content_accepted(init[i]));
                assert forall|j: int| i < j < init.len() implies !crate::event::content_accepted(#[trigger] init[j]) by {
                    assert(init[j] == xs[j]);
                }
            }
        }
        if forall|i: int| 0 <= i < xs.len() ==> !crate::event::content_accepted(#[trigger] xs[i]) {
            assert(!crate::event::content_accepted(xs[n]));
            assert forall|i: int| 0 <= i < init.len() implies !crate::event::content_accepted(#[trigger] init[i]) by {
                assert(init[i] == xs[i]);
            }
        }
    }
}

} // verus!
