use vstd::prelude::*;
use crate::bundle::{bundle_root_spec, Bundle};
use crate::canon::{attestation_enc, body_enc, sealed_preimage};
use crate::crypto::sha256_spec;
use crate::error::{Error, Result};
use crate::kernel::Digest;
use crate::lifecycle::LifecycleState;
use crate::receipt::{ReceiptEnvelope, ReceiptView};

verus! {

/// What checking one receipt found.
#[derive(Clone, Copy, Debug)]
pub struct VerificationReport {
    pub valid: bool,
    pub hash_valid: bool,
    pub body_hash_valid: bool,
    pub sealed_hash_valid: bool,
    pub schema_valid: bool,
    pub lifecycle_valid: bool,
    pub attestation_present: bool,
    pub computed_hash: Digest,
}

/// What checking a bundle found.
#[derive(Clone, Copy, Debug)]
pub struct BundleVerificationReport {
    pub valid: bool,
    pub root_valid: bool,
    pub receipt_count: u8,
    pub computed_root: Digest,
}

/// Whether the sealed hash agrees with the attestation: none without one, and
/// the hash of the sealed preimage with one.
pub open spec fn sealed_hash_ok(v: ReceiptView) -> bool {
    match v.attestation {
        None => v.sealed_hash is None,
        Some(a) => v.sealed_hash == Some(sha256_spec(sealed_preimage(v, a))),
    }
}

/// Whether the schema identifier, authority and domain tag are all set.
pub open spec fn schema_ok(v: ReceiptView) -> bool {
    v.schema_id.len() > 0 && v.schema_authority.len() > 0 && v.domain_tag.len() > 0
}

/// Whether checking the receipt fails: a body over 512 bytes, or an attested
/// receipt with a sealed hash whose preimage exceeds 768 bytes.
pub open spec fn verify_receipt_error(v: ReceiptView) -> bool {
    ||| body_enc(v).len() > 512
    ||| (v.attestation matches Some(a) && v.sealed_hash is Some
        && body_enc(v).len() + 32 + attestation_enc(Some(a)).len() > 768)
}

/// What the kernel reports of a receipt whose checks could run.
pub open spec fn core_report_ok(rep: VerificationReport, v: ReceiptView) -> bool {
    &&& rep.computed_hash@ == sha256_spec(body_enc(v))
    &&& rep.body_hash_valid == (v.body_hash == sha256_spec(body_enc(v)))
    &&& rep.sealed_hash_valid == sealed_hash_ok(v)
    &&& rep.hash_valid == (rep.body_hash_valid && rep.sealed_hash_valid)
    &&& rep.schema_valid == schema_ok(v)
    &&& rep.lifecycle_valid == (v.lifecycle_state != LifecycleState::Draft)
    &&& rep.attestation_present == (v.attestation is Some)
    &&& rep.valid == (rep.hash_valid && rep.schema_valid && rep.lifecycle_valid)
}

/// What the kernel reports of a bundle with the given root and hashes.
pub open spec fn bundle_report_ok(rep: BundleVerificationReport, root: Seq<u8>, hashes: Seq<Seq<u8>>) -> bool {
    &&& rep.computed_root@ == bundle_root_spec(hashes)
    &&& rep.root_valid == (root == bundle_root_spec(hashes))
    &&& rep.valid == rep.root_valid
    &&& rep.receipt_count == hashes.len()
}

/// Checks a receipt: its body hash, its sealed hash, that its schema fields are
/// set and that it has left the draft state.
pub fn verify_receipt(receipt: &ReceiptEnvelope) -> (r: Result<VerificationReport>)
    ensures
        verify_receipt_error(receipt@) ==> r == Err::<VerificationReport, Error>(Error::BufferTooSmall),
        !verify_receipt_error(receipt@) ==> (r matches Ok(rep) && core_report_ok(rep, receipt@)),
{
    let computed_hash = crate::canon::compute_receipt_body_hash(receipt)?;
    let body_hash_valid = computed_hash == receipt.body_hash;
    let sealed_hash_valid = match (&receipt.attestation, &receipt.sealed_hash) {
        (None, None) => true,
        (None, Some(_)) => false,
        (Some(_), None) => false,
        (Some(_), Some(sealed)) => {
            let expected = crate::canon::compute_sealed_receipt_hash(receipt)?;
            expected == *sealed
        },
    };
    let schema_valid = !receipt.schema_id.is_empty() && !receipt.schema_authority.is_empty()
        && !receipt.domain_tag.is_empty();
    let lifecycle_valid = receipt.lifecycle_state != LifecycleState::Draft;
    let hash_valid = body_hash_valid && sealed_hash_valid;
    Ok(VerificationReport {
        valid: hash_valid && schema_valid && lifecycle_valid,
        hash_valid,
        body_hash_valid,
        sealed_hash_valid,
        schema_valid,
        lifecycle_valid,
        attestation_present: receipt.attestation.is_some(),
        computed_hash,
    })
}

/// Checks that a bundle's root is the root of its receipt hashes.
pub fn verify_bundle(bundle: &Bundle) -> (r: Result<BundleVerificationReport>)
    ensures
        r matches Ok(rep) && bundle_report_ok(rep, bundle.root_hash@, bundle.receipt_hashes@),
{
    let computed_root = bundle.compute_root()?;
    let root_valid = computed_root == bundle.root_hash;
    let count = bundle.receipts().len();
    Ok(BundleVerificationReport { valid: root_valid, root_valid, receipt_count: count as u8, computed_root })
}

} // verus!
