use vstd::prelude::*;
use crate::bounded::{DomainTag, IssuerId, PublicKeyId, SchemaAuthority, SchemaId};
use crate::canon::{attestation_enc, body_enc, sealed_preimage};
use crate::crypto::sha256_spec;
use crate::error::{Error, Result};
use crate::kernel::{Digest, ParentHashes, SignatureBytes, SignatureProfileId, SignedMessageHash};
use crate::lifecycle::LifecycleState;

verus! {

/// The range of sequence numbers in which an attestation holds.
#[derive(Clone, Copy, Debug, PartialEq, Eq, Structural)]
pub struct ValidityWindow {
    pub not_before_sequence: u64,
    pub not_after_sequence: u64,
}

impl ValidityWindow {
    /// A window from `not_before_sequence` to `not_after_sequence`, both included.
    pub fn new(not_before_sequence: u64, not_after_sequence: u64) -> (r: Self)
        ensures
            r.not_before_sequence == not_before_sequence,
            r.not_after_sequence == not_after_sequence,
    {
        ValidityWindow { not_before_sequence, not_after_sequence }
    }

    /// Whether `sequence` lies inside the window.
    pub fn contains(self, sequence: u64) -> (r: bool)
        ensures
            r == (self.not_before_sequence <= sequence <= self.not_after_sequence),
    {
        sequence >= self.not_before_sequence && sequence <= self.not_after_sequence
    }

    /// Whether the window is not empty.
    pub fn is_valid(self) -> (r: bool)
        ensures
            r == (self.not_before_sequence <= self.not_after_sequence),
    {
        self.not_before_sequence <= self.not_after_sequence
    }
}

/// Whether a receipt carries an attestation.
#[derive(Clone, Copy, Debug, PartialEq, Eq, Structural)]
pub enum AttestationStatus {
    Missing,
    Present,
}

/// A signature over a receipt, with the identity of its signer.
#[derive(Clone, Copy, Debug)]
pub struct AttestationEnvelope {
    pub profile_id: SignatureProfileId,
    pub issuer_id: IssuerId,
    pub public_key_id: PublicKeyId,
    pub signature: SignatureBytes,
    pub signed_message_hash: SignedMessageHash,
    pub sequence: u64,
    pub validity_window: Option<ValidityWindow>,
}

/// An attestation as plain values.
pub struct AttestationView {
    pub profile_id: SignatureProfileId,
    pub issuer_id: Seq<u8>,
    pub public_key_id: Seq<u8>,
    pub signature: Seq<u8>,
    pub signed_message_hash: Seq<u8>,
    pub sequence: u64,
    pub validity_window: Option<ValidityWindow>,
}

impl View for AttestationEnvelope {
    type V = AttestationView;

    open spec fn view(&self) -> AttestationView {
        AttestationView {
            profile_id: self.profile_id,
            issuer_id: self.issuer_id@,
            public_key_id: self.public_key_id@,
            signature: self.signature.0@,
            signed_message_hash: self.signed_message_hash@,
            sequence: self.sequence,
            validity_window: self.validity_window,
        }
    }
}

/// The attestation's view, where there is one.
pub open spec fn attestation_view(a: Option<AttestationEnvelope>) -> Option<AttestationView> {
    match a {
        Some(v) => Some(v@),
        None => None,
    }
}

/// A digest's bytes, where there is one.
pub open spec fn digest_view(d: Option<Digest>) -> Option<Seq<u8>> {
    match d {
        Some(v) => Some(v@),
        None => None,
    }
}

/// Whether a validity window is absent or non-empty.
pub open spec fn window_ok(w: Option<ValidityWindow>) -> bool {
    match w {
        Some(win) => win.not_before_sequence <= win.not_after_sequence,
        None => true,
    }
}

/// The failure, if any, of binding `a` to the receipt `r`.
pub open spec fn attestation_binding_error(a: AttestationView, r: ReceiptView) -> Option<Error> {
    if a.issuer_id != r.issuer_id || a.sequence != r.sequence {
        Some(Error::InvalidAttestationBinding)
    } else if !window_ok(a.validity_window) {
        Some(Error::InvalidValidityWindow)
    } else {
        None
    }
}

impl AttestationEnvelope {
    /// Checks that the attestation names the receipt's issuer and sequence and
    /// that its validity window, if any, is not empty.
    pub fn validate(&self, receipt: &ReceiptEnvelope) -> (r: Result<()>)
        ensures
            r == (match attestation_binding_error(self@, receipt@) {
                Some(e) => Err::<(), Error>(e),
                None => Ok(()),
            }),
    {
        if !self.issuer_id.same_as(&receipt.issuer_id) || self.sequence != receipt.sequence {
            return Err(Error::InvalidAttestationBinding);
        }
        let window_invalid = match self.validity_window {
            Some(window) => !window.is_valid(),
            None => false,
        };
        if window_invalid {
            return Err(Error::InvalidValidityWindow);
        }
        Ok(())
    }
}

/// A receipt: the commitments an issuer makes about one subject.
#[derive(Clone, Copy, Debug)]
pub struct ReceiptEnvelope {
    pub version: u32,
    pub schema_id: SchemaId,
    pub schema_hash: Digest,
    pub schema_authority: SchemaAuthority,
    pub domain_tag: DomainTag,
    pub subject_hash: Digest,
    pub issuer_id: IssuerId,
    pub sequence: u64,
    pub claim_hash: Digest,
    pub evidence_hash: Digest,
    pub policy_hash: Digest,
    pub trace_hash: Digest,
    pub parent_hashes: ParentHashes,
    pub lifecycle_state: LifecycleState,
    pub body_hash: Digest,
    pub sealed_hash: Option<Digest>,
    pub attestation: Option<AttestationEnvelope>,
}

/// A receipt as plain values.
pub struct ReceiptView {
    pub version: u32,
    pub schema_id: Seq<u8>,
    pub schema_hash: Seq<u8>,
    pub schema_authority: Seq<u8>,
    pub domain_tag: Seq<u8>,
    pub subject_hash: Seq<u8>,
    pub issuer_id: Seq<u8>,
    pub sequence: u64,
    pub claim_hash: Seq<u8>,
    pub evidence_hash: Seq<u8>,
    pub policy_hash: Seq<u8>,
    pub trace_hash: Seq<u8>,
    pub parent_hashes: Seq<Seq<u8>>,
    pub lifecycle_state: LifecycleState,
    pub body_hash: Seq<u8>,
    pub sealed_hash: Option<Seq<u8>>,
    pub attestation: Option<AttestationView>,
}

impl View for ReceiptEnvelope {
    type V = ReceiptView;

    open spec fn view(&self) -> ReceiptView {
        ReceiptView {
            version: self.version,
            schema_id: self.schema_id@,
            schema_hash: self.schema_hash@,
            schema_authority: self.schema_authority@,
            domain_tag: self.domain_tag@,
            subject_hash: self.subject_hash@,
            issuer_id: self.issuer_id@,
            sequence: self.sequence,
            claim_hash: self.claim_hash@,
            evidence_hash: self.evidence_hash@,
            policy_hash: self.policy_hash@,
            trace_hash: self.trace_hash@,
            parent_hashes: self.parent_hashes@,
            lifecycle_state: self.lifecycle_state,
            body_hash: self.body_hash@,
            sealed_hash: digest_view(self.sealed_hash),
            attestation: attestation_view(self.attestation),
        }
    }
}

/// The all-zero digest's bytes.
pub open spec fn zero_digest() -> Seq<u8> {
    Seq::new(32, |i: int| 0u8)
}

/// Whether `v` keeps every field of `r` that make up the receipt body, with the
/// body-independent parts left aside.
pub open spec fn same_body_fields(v: ReceiptView, r: ReceiptView) -> bool {
    &&& v.version == r.version
    &&& v.schema_id == r.schema_id
    &&& v.schema_hash == r.schema_hash
    &&& v.schema_authority == r.schema_authority
    &&& v.domain_tag == r.domain_tag
    &&& v.subject_hash == r.subject_hash
    &&& v.issuer_id == r.issuer_id
    &&& v.sequence == r.sequence
    &&& v.claim_hash == r.claim_hash
    &&& v.evidence_hash == r.evidence_hash
    &&& v.policy_hash == r.policy_hash
    &&& v.trace_hash == r.trace_hash
    &&& v.parent_hashes == r.parent_hashes
}

/// The largest body that the kernel hashes, in bytes.
pub open spec fn body_hash_limit() -> nat {
    512
}

/// The largest body, digest and attestation that the sealed hash covers, in bytes.
pub open spec fn sealed_hash_limit() -> nat {
    768
}

impl ReceiptEnvelope {
    /// An empty draft receipt of the current kernel version.
    pub fn new() -> (r: Self)
        ensures
            r@.version == crate::kernel::KERNEL_VERSION,
            r@.schema_id.len() == 0,
            r@.schema_authority.len() == 0,
            r@.domain_tag.len() == 0,
            r@.issuer_id.len() == 0,
            r@.schema_hash == zero_digest(),
            r@.subject_hash == zero_digest(),
            r@.claim_hash == zero_digest(),
            r@.evidence_hash == zero_digest(),
            r@.policy_hash == zero_digest(),
            r@.trace_hash == zero_digest(),
            r@.body_hash == zero_digest(),
            r@.sequence == 0,
            r@.parent_hashes.len() == 0,
            r@.lifecycle_state == LifecycleState::Draft,
            r@.sealed_hash is None,
            r@.attestation is None,
    {
        ReceiptEnvelope {
            version: crate::kernel::KERNEL_VERSION,
            schema_id: SchemaId::new(),
            schema_hash: Digest::zero(),
            schema_authority: SchemaAuthority::new(),
            domain_tag: DomainTag::new(),
            subject_hash: Digest::zero(),
            issuer_id: IssuerId::new(),
            sequence: 0,
            claim_hash: Digest::zero(),
            evidence_hash: Digest::zero(),
            policy_hash: Digest::zero(),
            trace_hash: Digest::zero(),
            parent_hashes: ParentHashes::new(),
            lifecycle_state: LifecycleState::Draft,
            body_hash: Digest::zero(),
            sealed_hash: None,
            attestation: None,
        }
    }

    /// An observed receipt with the given commitments and no hashes yet.
    pub fn create(
        schema_id: SchemaId,
        schema_hash: Digest,
        schema_authority: SchemaAuthority,
        domain_tag: DomainTag,
        subject_hash: Digest,
        issuer_id: IssuerId,
        sequence: u64,
        claim_hash: Digest,
        evidence_hash: Digest,
        policy_hash: Digest,
        trace_hash: Digest,
        parent_hashes: ParentHashes,
    ) -> (r: Self)
        ensures
            r.version == crate::kernel::KERNEL_VERSION,
            r.schema_id == schema_id,
            r.schema_hash == schema_hash,
            r.schema_authority == schema_authority,
            r.domain_tag == domain_tag,
            r.subject_hash == subject_hash,
            r.issuer_id == issuer_id,
            r.sequence == sequence,
            r.claim_hash == claim_hash,
            r.evidence_hash == evidence_hash,
            r.policy_hash == policy_hash,
            r.trace_hash == trace_hash,
            r.parent_hashes == parent_hashes,
            r.lifecycle_state == LifecycleState::Observed,
            r@.body_hash == zero_digest(),
            r.sealed_hash is None,
            r.attestation is None,
    {
        let mut receipt = Self::new();
        receipt.schema_id = schema_id;
        receipt.schema_hash = schema_hash;
        receipt.schema_authority = schema_authority;
        receipt.domain_tag = domain_tag;
        receipt.subject_hash = subject_hash;
        receipt.issuer_id = issuer_id;
        receipt.sequence = sequence;
        receipt.claim_hash = claim_hash;
        receipt.evidence_hash = evidence_hash;
        receipt.policy_hash = policy_hash;
        receipt.trace_hash = trace_hash;
        receipt.parent_hashes = parent_hashes;
        receipt.lifecycle_state = LifecycleState::Observed;
        receipt
    }

    /// Seals the receipt: its lifecycle becomes `Sealed`, its body hash is
    /// computed, and any sealed hash is cleared. A body over 512 bytes is refused.
    pub fn seal(self) -> (r: Result<Self>)
        ensures
            ({
                let sealed_body = ReceiptView { lifecycle_state: LifecycleState::Sealed, ..self@ };
                &&& body_enc(sealed_body).len() > body_hash_limit() ==> r == Err::<Self, Error>(Error::BufferTooSmall)
                &&& body_enc(sealed_body).len() <= body_hash_limit() ==> (r matches Ok(s) && s@ == ReceiptView {
                    body_hash: sha256_spec(body_enc(sealed_body)),
                    sealed_hash: None,
                    ..sealed_body
                })
            }),
    {
        let mut receipt = self;
        receipt.lifecycle_state = LifecycleState::Sealed;
        let body_hash = crate::canon::compute_receipt_body_hash(&receipt)?;
        receipt.body_hash = body_hash;
        receipt.sealed_hash = None;
        Ok(receipt)
    }

    /// Attaches an attestation bound to this receipt, recomputing the body hash
    /// and computing the sealed hash over body, body hash and attestation.
    pub fn with_attestation(self, attestation: AttestationEnvelope) -> (r: Result<Self>)
        ensures
            ({
                let body = body_enc(self@);
                let attested = ReceiptView {
                    body_hash: sha256_spec(body),
                    attestation: Some(attestation@),
                    ..self@
                };
                &&& attestation_binding_error(attestation@, self@) matches Some(e) ==> r == Err::<Self, Error>(e)
                &&& attestation_binding_error(attestation@, self@) is None && body.len() > body_hash_limit()
                    ==> r == Err::<Self, Error>(Error::BufferTooSmall)
                &&& attestation_binding_error(attestation@, self@) is None && body.len() <= body_hash_limit()
                    && body.len() + 32 + attestation_enc(Some(attestation@)).len() > sealed_hash_limit()
                    ==> r == Err::<Self, Error>(Error::BufferTooSmall)
                &&& attestation_binding_error(attestation@, self@) is None && body.len() <= body_hash_limit()
                    && body.len() + 32 + attestation_enc(Some(attestation@)).len() <= sealed_hash_limit()
                    ==> (r matches Ok(s) && s@ == ReceiptView {
                        sealed_hash: Some(sha256_spec(sealed_preimage(self@, attestation@))),
                        ..attested
                    })
            }),
    {
        attestation.validate(&self)?;
        let mut receipt = self;
        let body_hash = crate::canon::compute_receipt_body_hash(&receipt)?;
        receipt.body_hash = body_hash;
        receipt.attestation = Some(attestation);
        let sealed = crate::canon::compute_sealed_receipt_hash(&receipt)?;
        receipt.sealed_hash = Some(sealed);
        Ok(receipt)
    }
}

impl Default for ReceiptEnvelope {
    fn default() -> (r: Self)
        ensures
            r@.version == crate::kernel::KERNEL_VERSION,
            r@.schema_id.len() == 0,
            r@.schema_authority.len() == 0,
            r@.domain_tag.len() == 0,
            r@.issuer_id.len() == 0,
            r@.schema_hash == zero_digest(),
            r@.subject_hash == zero_digest(),
            r@.claim_hash == zero_digest(),
            r@.evidence_hash == zero_digest(),
            r@.policy_hash == zero_digest(),
            r@.trace_hash == zero_digest(),
            r@.body_hash == zero_digest(),
            r@.sequence == 0,
            r@.parent_hashes.len() == 0,
            r@.lifecycle_state == LifecycleState::Draft,
            r@.sealed_hash is None,
            r@.attestation is None,
    {
        Self::new()
    }
}

} // verus!
