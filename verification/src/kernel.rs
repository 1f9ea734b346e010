use vstd::prelude::*;
use crate::error::{Error, Result};

verus! {

/// Version of the receipt kernel that new receipts carry.
pub const KERNEL_VERSION: u32 = 1;
/// Most parent hashes a receipt may name.
pub const MAX_PARENT_HASHES: usize = 5;
/// Size of a digest in bytes.
pub const DIGEST_SIZE: usize = 32;
pub const MAX_SCHEMA_ID_LEN: usize = 64;
pub const MAX_SCHEMA_AUTHORITY_LEN: usize = 64;
pub const MAX_DOMAIN_TAG_LEN: usize = 32;
pub const MAX_ISSUER_ID_LEN: usize = 64;
pub const MAX_SUBJECT_ID_LEN: usize = 64;
pub const MAX_CLAIM_LEN: usize = 1024;
pub const MAX_EVIDENCE_LEN: usize = 4096;
pub const MAX_POLICY_LEN: usize = 2048;
pub const MAX_TRACE_EVENT_LEN: usize = 1024;
pub const MAX_BUNDLE_SIZE: usize = 100;

/// Domain separator that opens every signed message: `INK-RECEIPT-SIGNATURE-V1`.
pub const SIGNING_DOMAIN_SEPARATOR: [u8; 24] = [
    73u8, 78u8, 75u8, 45u8, 82u8, 69u8, 67u8, 69u8, 73u8, 80u8, 84u8, 45u8, 83u8, 73u8, 71u8,
    78u8, 65u8, 84u8, 85u8, 82u8, 69u8, 45u8, 86u8, 49u8,
];

/// Profile name of the Ed25519 signature profile: `ink-sig-ed25519-v1`.
pub const PROFILE_ED25519_V1_NAME: [u8; 18] = [
    105u8, 110u8, 107u8, 45u8, 115u8, 105u8, 103u8, 45u8, 101u8, 100u8, 50u8, 53u8, 53u8, 49u8,
    57u8, 45u8, 118u8, 49u8,
];

/// Profile name given to every profile this kernel does not know: `unknown`.
pub const PROFILE_UNKNOWN_NAME: [u8; 7] = [117u8, 110u8, 107u8, 110u8, 111u8, 119u8, 110u8];

/// Hash algorithms a receipt may name.
#[derive(Clone, Copy, Debug, PartialEq, Eq, Structural)]
pub enum HashAlgorithm {
    Sha256,
}

impl HashAlgorithm {
    /// The algorithm with wire code `value`.
    pub fn from_u8(value: u8) -> (r: Option<Self>)
        ensures
            r == (if value == 1 { Some(HashAlgorithm::Sha256) } else { None::<HashAlgorithm> }),
    {
        match value {
            1u8 => Some(HashAlgorithm::Sha256),
            _ => None,
        }
    }
}

/// Signature algorithms a receipt may name.
#[derive(Clone, Copy, Debug, PartialEq, Eq, Structural)]
pub enum SignatureAlgorithm {
    Ed25519,
}

impl SignatureAlgorithm {
    /// The algorithm with wire code `value`.
    pub fn from_u8(value: u8) -> (r: Option<Self>)
        ensures
            r == (if value == 1 { Some(SignatureAlgorithm::Ed25519) } else { None::<SignatureAlgorithm> }),
    {
        match value {
            1u8 => Some(SignatureAlgorithm::Ed25519),
            _ => None,
        }
    }
}

/// Signature profiles an attestation may name.
#[derive(Clone, Copy, Debug, PartialEq, Eq, Structural)]
pub enum SignatureProfileId {
    InkSigEd25519V1,
    Unknown(u8),
}

/// The wire code of a signature profile.
pub open spec fn profile_code(p: SignatureProfileId) -> u8 {
    match p {
        SignatureProfileId::InkSigEd25519V1 => 1,
        SignatureProfileId::Unknown(v) => v,
    }
}

/// The profile a wire code names.
pub open spec fn profile_from_code(v: u8) -> SignatureProfileId {
    if v == 1 {
        SignatureProfileId::InkSigEd25519V1
    } else {
        SignatureProfileId::Unknown(v)
    }
}

/// The profile name that signed messages carry.
pub open spec fn profile_name(p: SignatureProfileId) -> Seq<u8> {
    match p {
        SignatureProfileId::InkSigEd25519V1 => PROFILE_ED25519_V1_NAME@,
        SignatureProfileId::Unknown(_) => PROFILE_UNKNOWN_NAME@,
    }
}

/// A profile is canonical when its wire code reads back as itself.
pub open spec fn profile_canonical(p: SignatureProfileId) -> bool {
    profile_from_code(profile_code(p)) == p
}

impl SignatureProfileId {
    /// The profile with wire code `value`.
    pub fn from_u8(value: u8) -> (r: Self)
        ensures
            r == profile_from_code(value),
    {
        if value == 1 {
            SignatureProfileId::InkSigEd25519V1
        } else {
            SignatureProfileId::Unknown(value)
        }
    }

    /// The wire code of the profile.
    pub fn as_u8(self) -> (r: u8)
        ensures
            r == profile_code(self),
    {
        match self {
            SignatureProfileId::InkSigEd25519V1 => 1,
            SignatureProfileId::Unknown(v) => v,
        }
    }

    /// Whether this kernel can check signatures of the profile.
    pub fn is_supported(self) -> (r: bool)
        ensures
            r == (self == SignatureProfileId::InkSigEd25519V1),
    {
        match self {
            SignatureProfileId::InkSigEd25519V1 => true,
            SignatureProfileId::Unknown(_) => false,
        }
    }

    /// The profile name that signed messages carry.
    pub fn as_bytes(self) -> (r: Vec<u8>)
        ensures
            r@ == profile_name(self),
    {
        match self {
            SignatureProfileId::InkSigEd25519V1 => crate::bytes::to_vec(PROFILE_ED25519_V1_NAME.as_slice()),
            SignatureProfileId::Unknown(_) => crate::bytes::to_vec(PROFILE_UNKNOWN_NAME.as_slice()),
        }
    }
}

/// A 32-byte digest.
#[derive(Clone, Copy, Debug, Eq)]
pub struct Digest(pub [u8; 32]);

impl PartialEq for Digest {
    fn eq(&self, other: &Self) -> (r: bool) {
        crate::bytes::bytes_eq(self.0.as_slice(), other.0.as_slice())
    }
}

impl vstd::std_specs::cmp::PartialEqSpecImpl for Digest {
    open spec fn obeys_eq_spec() -> bool {
        true
    }

    open spec fn eq_spec(&self, other: &Self) -> bool {
        self.0@ == other.0@
    }
}

impl View for Digest {
    type V = Seq<u8>;

    open spec fn view(&self) -> Seq<u8> {
        self.0@
    }
}

/// The hash that an attestation signs.
pub type SignedMessageHash = Digest;

impl Digest {
    /// Wraps 32 bytes.
    pub fn new(bytes: [u8; 32]) -> (r: Self)
        ensures
            r.0 == bytes,
    {
        Digest(bytes)
    }

    /// The all-zero digest.
    pub fn zero() -> (r: Self)
        ensures
            r@ == Seq::new(32, |i: int| 0u8),
    {
        let r = Digest([0u8; 32]);
        assert(r@ =~= Seq::new(32, |i: int| 0u8));
        r
    }

    /// The digest's bytes.
    pub fn as_bytes(&self) -> (r: &[u8; 32])
        ensures
            r@ == self@,
    {
        &self.0
    }
}

impl Default for Digest {
    fn default() -> (r: Self)
        ensures
            r@ == Seq::new(32, |i: int| 0u8),
    {
        Digest::zero()
    }
}

/// Up to five parent receipt hashes.
#[derive(Clone, Copy, Debug)]
pub struct ParentHashes {
    hashes: [Digest; 5],
    count: u8,
}

impl View for ParentHashes {
    type V = Seq<Seq<u8>>;

    closed spec fn view(&self) -> Seq<Seq<u8>> {
        self.hashes@.subrange(0, self.count as int).map_values(|d: Digest| d@)
    }
}

impl ParentHashes {
    #[verifier::type_invariant]
    closed spec fn inv(self) -> bool {
        self.count <= 5
    }

    /// No parents.
    pub fn new() -> (r: Self)
        ensures
            r@ == Seq::<Seq<u8>>::empty(),
    {
        let r = ParentHashes { hashes: [Digest([0u8; 32]); 5], count: 0 };
        assert(r@ =~= Seq::<Seq<u8>>::empty());
        r
    }

    /// Appends a parent; a sixth parent is refused and leaves the list as it was.
    pub fn push(&mut self, hash: Digest) -> (r: Result<()>)
        ensures
            old(self)@.len() >= 5 ==> r == Err::<(), Error>(Error::TooManyParents) && final(self)@ == old(self)@,
            old(self)@.len() < 5 ==> r is Ok && final(self)@ == old(self)@.push(hash@),
    {
        proof {
            use_type_invariant(&*self);
        }
        if self.count >= 5 {
            return Err(Error::TooManyParents);
        }
        let ghost before = self@;
        let idx = self.count as usize;
        let mut hashes = self.hashes;
        hashes[idx] = hash;
        let new_count = self.count + 1;
        *self = ParentHashes { hashes, count: new_count };
        assert(self@ =~= before.push(hash@));
        Ok(())
    }

    /// The parents in order.
    pub fn as_slice(&self) -> (r: &[Digest])
        ensures
            r@.map_values(|d: Digest| d@) == self@,
    {
        proof {
            use_type_invariant(self);
        }
        let all: &[Digest] = self.hashes.as_slice();
        let n = self.count as usize;
        &all[0..n]
    }

    /// The number of parents, at most five.
    pub fn len(&self) -> (r: usize)
        ensures
            r == self@.len(),
            r <= 5,
    {
        proof {
            use_type_invariant(self);
        }
        self.count as usize
    }

    /// Whether there are no parents.
    pub fn is_empty(&self) -> (r: bool)
        ensures
            r == (self@.len() == 0),
    {
        self.len() == 0
    }

    /// Whether two parent lists hold the same hashes in the same order.
    pub fn same_as(&self, other: &Self) -> (r: bool)
        ensures
            r == (self@ == other@),
    {
        let a = self.as_slice();
        let b = other.as_slice();
        if a.len() != b.len() {
            assert(self@.len() != other@.len());
            return false;
        }
        let mut i: usize = 0;
        while i < a.len()
            invariant
                i <= a@.len(),
                a@.len() == b@.len(),
                a@.map_values(|d: Digest| d@) == self@,
                b@.map_values(|d: Digest| d@) == other@,
                forall|j: int| 0 <= j < i ==> a@[j]@ == b@[j]@,
            decreases a@.len() - i,
        {
            if !crate::bytes::bytes_eq(a[i].0.as_slice(), b[i].0.as_slice()) {
                assert(self@[i as int] != other@[i as int]);
                return false;
            }
            i = i + 1;
        }
        assert(self@ =~= other@);
        true
    }
}

impl Default for ParentHashes {
    fn default() -> (r: Self)
        ensures
            r@ == Seq::<Seq<u8>>::empty(),
    {
        ParentHashes::new()
    }
}

/// An Ed25519 public key.
#[derive(Clone, Copy, Debug, Eq)]
pub struct Ed25519PublicKey(pub [u8; 32]);

impl PartialEq for Ed25519PublicKey {
    fn eq(&self, other: &Self) -> (r: bool) {
        crate::bytes::bytes_eq(self.0.as_slice(), other.0.as_slice())
    }
}

impl vstd::std_specs::cmp::PartialEqSpecImpl for Ed25519PublicKey {
    open spec fn obeys_eq_spec() -> bool {
        true
    }

    open spec fn eq_spec(&self, other: &Self) -> bool {
        self.0@ == other.0@
    }
}

impl Ed25519PublicKey {
    /// Wraps 32 bytes.
    pub fn new(bytes: [u8; 32]) -> (r: Self)
        ensures
            r.0 == bytes,
    {
        Ed25519PublicKey(bytes)
    }
}

/// An Ed25519 signature.
#[derive(Clone, Copy, Debug, Eq)]
pub struct Ed25519Signature(pub [u8; 64]);

impl PartialEq for Ed25519Signature {
    fn eq(&self, other: &Self) -> (r: bool) {
        crate::bytes::bytes_eq(self.0.as_slice(), other.0.as_slice())
    }
}

impl vstd::std_specs::cmp::PartialEqSpecImpl for Ed25519Signature {
    open spec fn obeys_eq_spec() -> bool {
        true
    }

    open spec fn eq_spec(&self, other: &Self) -> bool {
        self.0@ == other.0@
    }
}

/// The signature bytes an attestation carries.
pub type SignatureBytes = Ed25519Signature;

impl Ed25519Signature {
    /// Wraps 64 bytes.
    pub fn new(bytes: [u8; 64]) -> (r: Self)
        ensures
            r.0 == bytes,
    {
        Ed25519Signature(bytes)
    }
}

} // verus!
