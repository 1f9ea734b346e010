use vstd::prelude::*;
use crate::bounded::{ContentBytes, EvidenceId, SchemaId};
use crate::crypto::sha256_spec;
use crate::error::{Error, Result};
use crate::hash::{labeled_preimage, slices_view};
use crate::kernel::{Digest, MAX_EVIDENCE_LEN};

verus! {

/// `evidence`, the label of an evidence hash and the identifier all evidence
/// carries.
pub const EVIDENCE_LABEL: [u8; 8] = [101u8, 118u8, 105u8, 100u8, 101u8, 110u8, 99u8, 101u8];

/// The hash of evidence: its schema identifier and content, hashed under the
/// label `evidence`.
pub open spec fn evidence_hash_spec(schema_id: Seq<u8>, content: Seq<u8>) -> Seq<u8> {
    sha256_spec(labeled_preimage(EVIDENCE_LABEL@, seq![schema_id, content]))
}

/// Evidence offered under a schema.
#[derive(Clone, Debug)]
pub struct Evidence {
    pub id: EvidenceId,
    pub schema_id: SchemaId,
    pub content: ContentBytes<MAX_EVIDENCE_LEN>,
}

impl Evidence {
    /// Empty evidence.
    pub fn new() -> (r: Self)
        ensures
            r.id@ == Seq::<u8>::empty(),
            r.schema_id@ == Seq::<u8>::empty(),
            r.content@ == Seq::<u8>::empty(),
    {
        Evidence { id: EvidenceId::new(), schema_id: SchemaId::new(), content: ContentBytes::new() }
    }

    /// Evidence with identifier `evidence`; the content must hold one to
    /// `MAX_EVIDENCE_LEN` bytes.
    pub fn from_slice(schema_id: SchemaId, content: &[u8]) -> (r: Result<Self>)
        ensures
            content@.len() == 0 ==> r == Err::<Self, Error>(Error::EmptyValue),
            content@.len() > MAX_EVIDENCE_LEN ==> r == Err::<Self, Error>(Error::ValueTooLong),
            0 < content@.len() <= MAX_EVIDENCE_LEN ==> (r matches Ok(e) && e.id@ == EVIDENCE_LABEL@
                && e.schema_id == schema_id && e.content@ == content@),
    {
        let mut evidence = Self::new();
        evidence.id = EvidenceId::from_bytes(EVIDENCE_LABEL.as_slice())?;
        evidence.schema_id = schema_id;
        evidence.set_content(content)?;
        Ok(evidence)
    }

    /// Replaces the content; on an empty or over-long content the evidence is
    /// left as it was.
    pub fn set_content(&mut self, content: &[u8]) -> (r: Result<()>)
        ensures
            content@.len() == 0 ==> r == Err::<(), Error>(Error::EmptyValue),
            content@.len() > MAX_EVIDENCE_LEN ==> r == Err::<(), Error>(Error::ValueTooLong),
            r is Ok <==> 0 < content@.len() <= MAX_EVIDENCE_LEN,
            r is Ok ==> final(self).content@ == content@,
            r is Err ==> final(self).content@ == old(self).content@,
            final(self).id == old(self).id,
            final(self).schema_id == old(self).schema_id,
    {
        let copy = ContentBytes::from_slice(content)?;
        self.content = copy;
        Ok(())
    }

    /// The evidence content.
    pub fn content(&self) -> (r: &[u8])
        ensures
            r@ == self.content@,
    {
        self.content.as_slice()
    }

    /// The evidence hash.
    pub fn compute_hash(&self) -> (r: Result<Digest>)
        ensures
            r matches Ok(d) && d@ == evidence_hash_spec(self.schema_id@, self.content@),
    {
        let parts: [&[u8]; 2] = [self.schema_id.as_bytes(), self.content()];
        assert(slices_view(parts@) =~= seq![self.schema_id@, self.content@]);
        crate::hash::hash_many_labeled(EVIDENCE_LABEL.as_slice(), parts.as_slice())
    }
}

impl Default for Evidence {
    fn default() -> (r: Self)
        ensures
            r.id@ == Seq::<u8>::empty(),
            r.schema_id@ == Seq::<u8>::empty(),
            r.content@ == Seq::<u8>::empty(),
    {
        Self::new()
    }
}

/// What a receipt records of its evidence.
#[derive(Clone, Copy, Debug)]
pub struct EvidenceCommitment {
    pub evidence_id: EvidenceId,
    pub evidence_hash: Digest,
    pub schema_hash: Digest,
}

} // verus!
