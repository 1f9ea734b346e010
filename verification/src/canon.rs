use vstd::prelude::*;
pub use crate::decode::decode_receipt;
use crate::bytes::{be32, be64, push_be32, push_be64, push_slice};
use crate::crypto::sha256_spec;
use crate::error::{Error, Result};
use crate::kernel::{
    profile_code, profile_name, Digest, ParentHashes, SignatureProfileId, SignedMessageHash,
    SIGNING_DOMAIN_SEPARATOR,
};
use crate::lifecycle::lifecycle_code;
use crate::receipt::{
    AttestationEnvelope, AttestationView, ReceiptEnvelope, ReceiptView, ValidityWindow,
};

verus! {

/// `INKR`, the first four bytes of every encoded receipt.
pub const RECEIPT_MAGIC: [u8; 4] = [73u8, 78u8, 75u8, 82u8];

/// A byte string after its length as one byte.
pub open spec fn bounded_enc(b: Seq<u8>) -> Seq<u8> {
    seq![b.len() as u8] + b
}

/// The parent count as one byte, then the parents' bytes.
pub open spec fn parents_enc(p: Seq<Seq<u8>>) -> Seq<u8> {
    seq![p.len() as u8] + p.flatten()
}

/// The canonical encoding of a receipt body.
pub open spec fn body_enc(v: ReceiptView) -> Seq<u8> {
    RECEIPT_MAGIC@ + be32(v.version) + bounded_enc(v.schema_id) + v.schema_hash + bounded_enc(
        v.schema_authority,
    ) + bounded_enc(v.domain_tag) + v.subject_hash + bounded_enc(v.issuer_id) + be64(v.sequence)
        + v.claim_hash + v.evidence_hash + v.policy_hash + v.trace_hash + parents_enc(
        v.parent_hashes,
    ) + seq![lifecycle_code(v.lifecycle_state)]
}

/// A validity window: a zero byte where there is none, else a one byte and the
/// two bounds.
pub open spec fn window_enc(w: Option<ValidityWindow>) -> Seq<u8> {
    match w {
        Some(win) => seq![1u8] + be64(win.not_before_sequence) + be64(win.not_after_sequence),
        None => seq![0u8],
    }
}

/// An attestation: a zero byte where there is none, else a one byte and its fields.
pub open spec fn attestation_enc(a: Option<AttestationView>) -> Seq<u8> {
    match a {
        Some(att) => seq![1u8, profile_code(att.profile_id)] + bounded_enc(att.issuer_id)
            + bounded_enc(att.public_key_id) + att.signed_message_hash + be64(att.sequence)
            + window_enc(att.validity_window) + att.signature,
        None => seq![0u8],
    }
}

/// An optional digest: a zero byte where there is none, else a one byte and the digest.
pub open spec fn opt_digest_enc(d: Option<Seq<u8>>) -> Seq<u8> {
    match d {
        Some(v) => seq![1u8] + v,
        None => seq![0u8],
    }
}

/// The canonical encoding of a whole receipt.
pub open spec fn receipt_enc(v: ReceiptView) -> Seq<u8> {
    body_enc(v) + v.body_hash + attestation_enc(v.attestation) + opt_digest_enc(v.sealed_hash)
}

/// What the sealed hash of a receipt attested with `a` covers.
pub open spec fn sealed_preimage(v: ReceiptView, a: AttestationView) -> Seq<u8> {
    body_enc(v) + sha256_spec(body_enc(v)) + attestation_enc(Some(a))
}

/// The message that an attestation under profile `p` signs.
pub open spec fn signed_message(v: ReceiptView, p: SignatureProfileId) -> Seq<u8> {
    SIGNING_DOMAIN_SEPARATOR@ + be32(v.version) + bounded_enc(profile_name(p)) + sha256_spec(
        body_enc(v),
    ) + v.schema_hash + bounded_enc(v.issuer_id) + be64(v.sequence)
}

fn push_bounded(out: &mut Vec<u8>, bytes: &[u8])
    requires
        bytes@.len() <= 255,
    ensures
        final(out)@ == old(out)@ + bounded_enc(bytes@),
{
    out.push(bytes.len() as u8);
    push_slice(out, bytes);
    assert(final(out)@ =~= old(out)@ + bounded_enc(bytes@));
}

fn push_digest(out: &mut Vec<u8>, digest: &Digest)
    ensures
        final(out)@ == old(out)@ + digest@,
{
    push_slice(out, digest.0.as_slice());
}

fn push_parents(out: &mut Vec<u8>, parents: &ParentHashes)
    ensures
        final(out)@ == old(out)@ + parents_enc(parents@),
{
    let slice = parents.as_slice();
    let n = parents.len();
    out.push(n as u8);
    let ghost start = out@;
    let ghost all = slice@.map_values(|d: Digest| d@);
    let mut i: usize = 0;
    while i < slice.len()
        invariant
            i <= slice@.len(),
            all == slice@.map_values(|d: Digest| d@),
            out@ == start + all.subrange(0, i as int).flatten(),
        decreases slice@.len() - i,
    {
        push_slice(out, slice[i].0.as_slice());
        proof {
            let prev = all.subrange(0, i as int);
            let next = all.subrange(0, i + 1);
            assert(next =~= prev.push(all[i as int]));
            prev.lemma_flatten_push(all[i as int]);
        }
        i = i + 1;
    }
    assert(all.subrange(0, slice@.len() as int) =~= all);
    assert(final(out)@ =~= old(out)@ + parents_enc(parents@));
}

fn body_bytes(receipt: &ReceiptEnvelope) -> (r: Vec<u8>)
    ensures
        r@ == body_enc(receipt@),
{
    let mut out: Vec<u8> = Vec::new();
    push_slice(&mut out, RECEIPT_MAGIC.as_slice());
    push_be32(&mut out, receipt.version);
    let _ = receipt.schema_id.len();
    push_bounded(&mut out, receipt.schema_id.as_bytes());
    push_digest(&mut out, &receipt.schema_hash);
    let _ = receipt.schema_authority.len();
    push_bounded(&mut out, receipt.schema_authority.as_bytes());
    let _ = receipt.domain_tag.len();
    push_bounded(&mut out, receipt.domain_tag.as_bytes());
    push_digest(&mut out, &receipt.subject_hash);
    let _ = receipt.issuer_id.len();
    push_bounded(&mut out, receipt.issuer_id.as_bytes());
    push_be64(&mut out, receipt.sequence);
    push_digest(&mut out, &receipt.claim_hash);
    push_digest(&mut out, &receipt.evidence_hash);
    push_digest(&mut out, &receipt.policy_hash);
    push_digest(&mut out, &receipt.trace_hash);
    push_parents(&mut out, &receipt.parent_hashes);
    out.push(receipt.lifecycle_state.as_u8());
    assert(out@ =~= body_enc(receipt@));
    out
}

fn push_window(out: &mut Vec<u8>, window: Option<ValidityWindow>)
    ensures
        final(out)@ == old(out)@ + window_enc(window),
{
    match window {
        Some(w) => {
            out.push(1u8);
            push_be64(out, w.not_before_sequence);
            push_be64(out, w.not_after_sequence);
        },
        None => {
            out.push(0u8);
        },
    }
    assert(final(out)@ =~= old(out)@ + window_enc(window));
}

fn push_attestation(out: &mut Vec<u8>, attestation: &Option<AttestationEnvelope>)
    ensures
        final(out)@ == old(out)@ + attestation_enc(crate::receipt::attestation_view(*attestation)),
{
    match attestation {
        Some(a) => {
            out.push(1u8);
            out.push(a.profile_id.as_u8());
            let _ = a.issuer_id.len();
            push_bounded(out, a.issuer_id.as_bytes());
            let _ = a.public_key_id.len();
            push_bounded(out, a.public_key_id.as_bytes());
            push_digest(out, &a.signed_message_hash);
            push_be64(out, a.sequence);
            push_window(out, a.validity_window);
            push_slice(out, a.signature.0.as_slice());
        },
        None => {
            out.push(0u8);
        },
    }
    assert(final(out)@ =~= old(out)@ + attestation_enc(crate::receipt::attestation_view(*attestation)));
}

fn push_optional_digest(out: &mut Vec<u8>, digest: &Option<Digest>)
    ensures
        final(out)@ == old(out)@ + opt_digest_enc(crate::receipt::digest_view(*digest)),
{
    match digest {
        Some(d) => {
            out.push(1u8);
            push_digest(out, d);
        },
        None => {
            out.push(0u8);
        },
    }
    assert(final(out)@ =~= old(out)@ + opt_digest_enc(crate::receipt::digest_view(*digest)));
}

fn receipt_bytes(receipt: &ReceiptEnvelope) -> (r: Vec<u8>)
    ensures
        r@ == receipt_enc(receipt@),
{
    let mut out = body_bytes(receipt);
    push_digest(&mut out, &receipt.body_hash);
    push_attestation(&mut out, &receipt.attestation);
    push_optional_digest(&mut out, &receipt.sealed_hash);
    assert(out@ =~= receipt_enc(receipt@));
    out
}

fn copy_prefix(out: &mut [u8], data: &[u8])
    requires
        old(out)@.len() >= data@.len(),
    ensures
        final(out)@ == data@ + old(out)@.subrange(data@.len() as int, old(out)@.len() as int),
{
    let ghost original = out@;
    let mut i: usize = 0;
    while i < data.len()
        invariant
            i <= data@.len(),
            data@.len() <= original.len(),
            out@.len() == original.len(),
            forall|j: int| 0 <= j < i ==> out@[j] == data@[j],
            forall|j: int| i <= j < original.len() ==> out@[j] == original[j],
        decreases data@.len() - i,
    {
        out[i] = data[i];
        i = i + 1;
    }
    assert(out@ =~= data@ + original.subrange(data@.len() as int, original.len() as int));
}

/// The length of a receipt's canonical encoding.
pub fn encoded_receipt_len(receipt: &ReceiptEnvelope) -> (r: usize)
    ensures
        r == receipt_enc(receipt@).len(),
{
    let bytes = receipt_bytes(receipt);
    bytes.len()
}

/// Writes the receipt's canonical encoding at the start of `out` and returns its
/// length; where `out` is too short it is left as it was.
pub fn encode_receipt(receipt: &ReceiptEnvelope, out: &mut [u8]) -> (r: Result<usize>)
    ensures
        old(out)@.len() < receipt_enc(receipt@).len() ==> r == Err::<usize, Error>(Error::BufferTooSmall)
            && final(out)@ == old(out)@,
        old(out)@.len() >= receipt_enc(receipt@).len() ==> r == Ok::<usize, Error>(receipt_enc(receipt@).len() as usize)
            && final(out)@ == receipt_enc(receipt@) + old(out)@.subrange(
            receipt_enc(receipt@).len() as int,
            old(out)@.len() as int,
        ),
{
    let bytes = receipt_bytes(receipt);
    if out.len() < bytes.len() {
        return Err(Error::BufferTooSmall);
    }
    copy_prefix(out, bytes.as_slice());
    Ok(bytes.len())
}

/// Writes the canonical encoding of the receipt's body at the start of `out`
/// and returns its length; where `out` is too short it is left as it was.
pub fn encode_receipt_body(receipt: &ReceiptEnvelope, out: &mut [u8]) -> (r: Result<usize>)
    ensures
        old(out)@.len() < body_enc(receipt@).len() ==> r == Err::<usize, Error>(Error::BufferTooSmall)
            && final(out)@ == old(out)@,
        old(out)@.len() >= body_enc(receipt@).len() ==> r == Ok::<usize, Error>(body_enc(receipt@).len() as usize)
            && final(out)@ == body_enc(receipt@) + old(out)@.subrange(
            body_enc(receipt@).len() as int,
            old(out)@.len() as int,
        ),
{
    let bytes = body_bytes(receipt);
    if out.len() < bytes.len() {
        return Err(Error::BufferTooSmall);
    }
    copy_prefix(out, bytes.as_slice());
    Ok(bytes.len())
}

/// The SHA-256 hash of the receipt's body; bodies over 512 bytes are refused.
pub fn compute_receipt_body_hash(receipt: &ReceiptEnvelope) -> (r: Result<Digest>)
    ensures
        body_enc(receipt@).len() > 512 ==> r == Err::<Digest, Error>(Error::BufferTooSmall),
        body_enc(receipt@).len() <= 512 ==> (r matches Ok(d) && d@ == sha256_spec(body_enc(receipt@))),
{
    let bytes = body_bytes(receipt);
    if bytes.len() > 512 {
        return Err(Error::BufferTooSmall);
    }
    crate::hash::hash_bytes(crate::kernel::HashAlgorithm::Sha256, bytes.as_slice())
}

fn signed_message_bytes(receipt: &ReceiptEnvelope, profile_id: SignatureProfileId) -> (r: Result<Vec<u8>>)
    ensures
        profile_id != SignatureProfileId::InkSigEd25519V1 ==> r == Err::<Vec<u8>, Error>(Error::UnsupportedSignatureProfile),
        profile_id == SignatureProfileId::InkSigEd25519V1 && body_enc(receipt@).len() > 512 ==> r == Err::<Vec<u8>, Error>(Error::BufferTooSmall),
        profile_id == SignatureProfileId::InkSigEd25519V1 && body_enc(receipt@).len() <= 512 ==> (r matches Ok(v) && v@ == signed_message(receipt@, profile_id)),
        r matches Ok(v) ==> v@.len() <= 256,
{
    if !profile_id.is_supported() {
        return Err(Error::UnsupportedSignatureProfile);
    }
    let body_hash = compute_receipt_body_hash(receipt)?;
    let mut out: Vec<u8> = Vec::new();
    push_slice(&mut out, SIGNING_DOMAIN_SEPARATOR.as_slice());
    push_be32(&mut out, receipt.version);
    let name = profile_id.as_bytes();
    push_bounded(&mut out, name.as_slice());
    push_digest(&mut out, &body_hash);
    push_digest(&mut out, &receipt.schema_hash);
    let _ = receipt.issuer_id.len();
    push_bounded(&mut out, receipt.issuer_id.as_bytes());
    push_be64(&mut out, receipt.sequence);
    assert(out@ =~= signed_message(receipt@, profile_id));
    assert(out@.len() <= 256);
    Ok(out)
}

/// The SHA-256 hash of the message that an attestation under `profile_id` signs.
pub fn compute_signed_message_hash(receipt: &ReceiptEnvelope, profile_id: SignatureProfileId) -> (r: Result<SignedMessageHash>)
    ensures
        profile_id != SignatureProfileId::InkSigEd25519V1 ==> r == Err::<Digest, Error>(Error::UnsupportedSignatureProfile),
        profile_id == SignatureProfileId::InkSigEd25519V1 && body_enc(receipt@).len() > 512 ==> r == Err::<Digest, Error>(Error::BufferTooSmall),
        profile_id == SignatureProfileId::InkSigEd25519V1 && body_enc(receipt@).len() <= 512 ==> (r matches Ok(d) && d@ == sha256_spec(signed_message(receipt@, profile_id))),
{
    let bytes = signed_message_bytes(receipt, profile_id)?;
    if bytes.len() > 256 {
        return Err(Error::BufferTooSmall);
    }
    crate::hash::hash_bytes(crate::kernel::HashAlgorithm::Sha256, bytes.as_slice())
}

/// The SHA-256 hash of the receipt's body, its computed body hash and its
/// attestation. Receipts without an attestation are refused, as are bodies over
/// 512 bytes and preimages over 768 bytes.
pub fn compute_sealed_receipt_hash(receipt: &ReceiptEnvelope) -> (r: Result<Digest>)
    ensures
        receipt.attestation is None ==> r == Err::<Digest, Error>(Error::MissingSignature),
        receipt.attestation matches Some(a) ==> ({
            let body = body_enc(receipt@);
            &&& body.len() > 512 ==> r == Err::<Digest, Error>(Error::BufferTooSmall)
            &&& body.len() <= 512 && body.len() + 32 + attestation_enc(Some(a@)).len() > 768
                ==> r == Err::<Digest, Error>(Error::BufferTooSmall)
            &&& body.len() <= 512 && body.len() + 32 + attestation_enc(Some(a@)).len() <= 768
                ==> (r matches Ok(d) && d@ == sha256_spec(sealed_preimage(receipt@, a@)))
        }),
{
    if receipt.attestation.is_none() {
        return Err(Error::MissingSignature);
    }
    let mut buf = body_bytes(receipt);
    let body_hash = compute_receipt_body_hash(receipt)?;
    push_digest(&mut buf, &body_hash);
    push_attestation(&mut buf, &receipt.attestation);
    if buf.len() > 768 {
        return Err(Error::BufferTooSmall);
    }
    crate::hash::hash_bytes(crate::kernel::HashAlgorithm::Sha256, buf.as_slice())
}

/// Writes the message that an attestation under `profile_id` signs at the start
/// of `out` and returns its length.
pub fn encode_signed_message(receipt: &ReceiptEnvelope, profile_id: SignatureProfileId, out: &mut [u8]) -> (r: Result<usize>)
    ensures
        profile_id != SignatureProfileId::InkSigEd25519V1 ==> r == Err::<usize, Error>(Error::UnsupportedSignatureProfile)
            && final(out)@ == old(out)@,
        profile_id == SignatureProfileId::InkSigEd25519V1 && body_enc(receipt@).len() > 512
            ==> r == Err::<usize, Error>(Error::BufferTooSmall) && final(out)@ == old(out)@,
        profile_id == SignatureProfileId::InkSigEd25519V1 && body_enc(receipt@).len() <= 512
            && old(out)@.len() < signed_message(receipt@, profile_id).len()
            ==> r == Err::<usize, Error>(Error::BufferTooSmall) && final(out)@ == old(out)@,
        profile_id == SignatureProfileId::InkSigEd25519V1 && body_enc(receipt@).len() <= 512
            && old(out)@.len() >= signed_message(receipt@, profile_id).len()
            ==> r == Ok::<usize, Error>(signed_message(receipt@, profile_id).len() as usize)
            && final(out)@ == signed_message(receipt@, profile_id) + old(out)@.subrange(
            signed_message(receipt@, profile_id).len() as int,
            old(out)@.len() as int,
        ),
{
    let bytes = signed_message_bytes(receipt, profile_id)?;
    if out.len() < bytes.len() {
        return Err(Error::BufferTooSmall);
    }
    copy_prefix(out, bytes.as_slice());
    Ok(bytes.len())
}

} // verus!
