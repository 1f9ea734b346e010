use vstd::prelude::*;
use crate::bounded::{ContentBytes, DomainTag, SchemaAuthority, SchemaId};
use crate::bytes::be32;
use crate::crypto::sha256_spec;
use crate::error::{Error, Result};
use crate::hash::{labeled_preimage, slices_view};
use crate::kernel::{Digest, KERNEL_VERSION, MAX_POLICY_LEN};

verus! {

/// `schema`, the label of a schema hash.
pub const SCHEMA_LABEL: [u8; 6] = [115u8, 99u8, 104u8, 101u8, 109u8, 97u8];

/// The hash of a schema: its identifier, authority, domain tag, version (four
/// big-endian bytes) and content, hashed under the label `schema`.
pub open spec fn schema_hash_spec(id: Seq<u8>, authority: Seq<u8>, domain_tag: Seq<u8>, version: u32, content: Seq<u8>) -> Seq<u8> {
    sha256_spec(labeled_preimage(SCHEMA_LABEL@, seq![id, authority, domain_tag, be32(version), content]))
}

/// A schema: the document that claims, evidence and policies refer to.
#[derive(Clone, Debug)]
pub struct Schema {
    pub id: SchemaId,
    pub authority: SchemaAuthority,
    pub domain_tag: DomainTag,
    pub version: u32,
    pub content: ContentBytes<MAX_POLICY_LEN>,
}

impl Schema {
    /// The schema document.
    pub open spec fn content_view(self) -> Seq<u8> {
        self.content@
    }

    /// An empty schema of the current kernel version.
    pub fn new() -> (r: Self)
        ensures
            r.id@ == Seq::<u8>::empty(),
            r.authority@ == Seq::<u8>::empty(),
            r.domain_tag@ == Seq::<u8>::empty(),
            r.version == KERNEL_VERSION,
            r.content_view() == Seq::<u8>::empty(),
    {
        Schema {
            id: SchemaId::new(),
            authority: SchemaAuthority::new(),
            domain_tag: DomainTag::new(),
            version: KERNEL_VERSION,
            content: ContentBytes::new(),
        }
    }

    /// A schema with the given fields; the content must hold one to
    /// `MAX_POLICY_LEN` bytes.
    pub fn from_slice(id: SchemaId, authority: SchemaAuthority, domain_tag: DomainTag, version: u32, content: &[u8]) -> (r: Result<Self>)
        ensures
            content@.len() == 0 ==> r == Err::<Self, Error>(Error::EmptyValue),
            content@.len() > MAX_POLICY_LEN ==> r == Err::<Self, Error>(Error::ValueTooLong),
            0 < content@.len() <= MAX_POLICY_LEN ==> (r matches Ok(s) && s.id == id && s.authority == authority
                && s.domain_tag == domain_tag && s.version == version && s.content_view() == content@),
    {
        let mut schema = Self::new();
        schema.id = id;
        schema.authority = authority;
        schema.domain_tag = domain_tag;
        schema.version = version;
        schema.set_content(content)?;
        Ok(schema)
    }

    /// Replaces the content; on an empty or over-long content the schema is left
    /// as it was.
    pub fn set_content(&mut self, content: &[u8]) -> (r: Result<()>)
        ensures
            content@.len() == 0 ==> r == Err::<(), Error>(Error::EmptyValue),
            content@.len() > MAX_POLICY_LEN ==> r == Err::<(), Error>(Error::ValueTooLong),
            r is Ok <==> 0 < content@.len() <= MAX_POLICY_LEN,
            r is Ok ==> final(self).content_view() == content@,
            r is Err ==> final(self).content_view() == old(self).content_view(),
            final(self).id == old(self).id,
            final(self).authority == old(self).authority,
            final(self).domain_tag == old(self).domain_tag,
            final(self).version == old(self).version,
    {
        let copy = ContentBytes::from_slice(content)?;
        self.content = copy;
        Ok(())
    }

    /// The schema document.
    pub fn content(&self) -> (r: &[u8])
        ensures
            r@ == self.content_view(),
    {
        self.content.as_slice()
    }

    /// The schema hash.
    pub fn compute_hash(&self) -> (r: Result<Digest>)
        ensures
            r matches Ok(d) && d@ == schema_hash_spec(self.id@, self.authority@, self.domain_tag@, self.version, self.content_view()),
    {
        let mut version: Vec<u8> = Vec::new();
        crate::bytes::push_be32(&mut version, self.version);
        let parts: [&[u8]; 5] = [self.id.as_bytes(), self.authority.as_bytes(), self.domain_tag.as_bytes(), version.as_slice(), self.content()];
        assert(slices_view(parts@) =~= seq![self.id@, self.authority@, self.domain_tag@, be32(self.version), self.content_view()]);
        crate::hash::hash_many_labeled(SCHEMA_LABEL.as_slice(), parts.as_slice())
    }
}

impl Default for Schema {
    fn default() -> (r: Self)
        ensures
            r.id@ == Seq::<u8>::empty(),
            r.authority@ == Seq::<u8>::empty(),
            r.domain_tag@ == Seq::<u8>::empty(),
            r.version == KERNEL_VERSION,
            r.content_view() == Seq::<u8>::empty(),
    {
        Self::new()
    }
}

/// What a receipt records of its schema.
#[derive(Clone, Copy, Debug)]
pub struct SchemaCommitment {
    pub schema_id: SchemaId,
    pub schema_hash: Digest,
    pub authority: SchemaAuthority,
    pub domain_tag: DomainTag,
}

} // verus!
