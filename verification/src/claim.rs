use vstd::prelude::*;
use crate::bounded::{ContentBytes, ClaimId, SchemaId, SubjectId};
use crate::crypto::sha256_spec;
use crate::error::{Error, Result};
use crate::hash::{labeled_preimage, slices_view};
use crate::kernel::{Digest, MAX_CLAIM_LEN};

verus! {

/// `claim`, the label of a claim hash and the identifier every claim carries.
pub const CLAIM_LABEL: [u8; 5] = [99u8, 108u8, 97u8, 105u8, 109u8];

/// The hash of a claim: its schema identifier, subject identifier and content,
/// hashed under the label `claim`.
pub open spec fn claim_hash_spec(schema_id: Seq<u8>, subject_id: Seq<u8>, content: Seq<u8>) -> Seq<u8> {
    sha256_spec(labeled_preimage(CLAIM_LABEL@, seq![schema_id, subject_id, content]))
}

/// A claim about a subject, made under a schema.
#[derive(Clone, Debug)]
pub struct Claim {
    pub id: ClaimId,
    pub schema_id: SchemaId,
    pub subject_id: SubjectId,
    pub content: ContentBytes<MAX_CLAIM_LEN>,
}

impl Claim {
    /// An empty claim.
    pub fn new() -> (r: Self)
        ensures
            r.id@ == Seq::<u8>::empty(),
            r.schema_id@ == Seq::<u8>::empty(),
            r.subject_id@ == Seq::<u8>::empty(),
            r.content@ == Seq::<u8>::empty(),
    {
        Claim { id: ClaimId::new(), schema_id: SchemaId::new(), subject_id: SubjectId::new(), content: ContentBytes::new() }
    }

    /// A claim with identifier `claim`; the content must hold one to
    /// `MAX_CLAIM_LEN` bytes.
    pub fn from_slice(schema_id: SchemaId, subject_id: SubjectId, content: &[u8]) -> (r: Result<Self>)
        ensures
            content@.len() == 0 ==> r == Err::<Self, Error>(Error::EmptyValue),
            content@.len() > MAX_CLAIM_LEN ==> r == Err::<Self, Error>(Error::ValueTooLong),
            0 < content@.len() <= MAX_CLAIM_LEN ==> (r matches Ok(c) && c.id@ == CLAIM_LABEL@
                && c.schema_id == schema_id && c.subject_id == subject_id && c.content@ == content@),
    {
        let mut claim = Self::new();
        claim.id = ClaimId::from_bytes(CLAIM_LABEL.as_slice())?;
        claim.schema_id = schema_id;
        claim.subject_id = subject_id;
        claim.set_content(content)?;
        Ok(claim)
    }

    /// Replaces the content; on an empty or over-long content the claim is left
    /// as it was.
    pub fn set_content(&mut self, content: &[u8]) -> (r: Result<()>)
        ensures
            content@.len() == 0 ==> r == Err::<(), Error>(Error::EmptyValue),
            content@.len() > MAX_CLAIM_LEN ==> r == Err::<(), Error>(Error::ValueTooLong),
            r is Ok <==> 0 < content@.len() <= MAX_CLAIM_LEN,
            r is Ok ==> final(self).content@ == content@,
            r is Err ==> final(self).content@ == old(self).content@,
            final(self).id == old(self).id,
            final(self).schema_id == old(self).schema_id,
            final(self).subject_id == old(self).subject_id,
    {
        let copy = ContentBytes::from_slice(content)?;
        self.content = copy;
        Ok(())
    }

    /// The claim content.
    pub fn content(&self) -> (r: &[u8])
        ensures
            r@ == self.content@,
    {
        self.content.as_slice()
    }

    /// The claim hash.
    pub fn compute_hash(&self) -> (r: Result<Digest>)
        ensures
            r matches Ok(d) && d@ == claim_hash_spec(self.schema_id@, self.subject_id@, self.content@),
    {
        let parts: [&[u8]; 3] = [self.schema_id.as_bytes(), self.subject_id.as_bytes(), self.content()];
        assert(slices_view(parts@) =~= seq![self.schema_id@, self.subject_id@, self.content@]);
        crate::hash::hash_many_labeled(CLAIM_LABEL.as_slice(), parts.as_slice())
    }
}

impl Default for Claim {
    fn default() -> (r: Self)
        ensures
            r.id@ == Seq::<u8>::empty(),
            r.schema_id@ == Seq::<u8>::empty(),
            r.subject_id@ == Seq::<u8>::empty(),
            r.content@ == Seq::<u8>::empty(),
    {
        Self::new()
    }
}

/// What a receipt records of its claim.
#[derive(Clone, Copy, Debug)]
pub struct ClaimCommitment {
    pub schema_id: SchemaId,
    pub claim_hash: Digest,
    pub subject_hash: Digest,
}

} // verus!
