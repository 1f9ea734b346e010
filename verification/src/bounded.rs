use vstd::prelude::*;
use vstd::string::StringSliceAdditionalSpecFns;
use crate::error::{Error, Result};

verus! {

/// A non-empty byte string of at most `N` bytes, stored inline so that the
/// types that hold it stay `Copy`.
#[derive(Clone, Copy, Debug)]
pub struct BoundedString<const N: usize> {
    bytes: [u8; N],
    len: u8,
}

/// Schema identifier.
pub type SchemaId = BoundedString<64>;
/// Schema authority.
pub type SchemaAuthority = BoundedString<64>;
/// Domain tag.
pub type DomainTag = BoundedString<32>;
/// Issuer identifier.
pub type IssuerId = BoundedString<64>;
/// Public key identifier.
pub type PublicKeyId = BoundedString<64>;
/// Subject identifier.
pub type SubjectId = BoundedString<64>;
/// Claim identifier.
pub type ClaimId = BoundedString<64>;
/// Evidence identifier.
pub type EvidenceId = BoundedString<64>;
/// Policy identifier.
pub type PolicyId = BoundedString<64>;
/// Trace identifier.
pub type TraceId = BoundedString<64>;
/// Bundle identifier.
pub type BundleId = BoundedString<64>;

impl<const N: usize> View for BoundedString<N> {
    type V = Seq<u8>;

    closed spec fn view(&self) -> Seq<u8> {
        self.bytes@.subrange(0, self.len as int)
    }
}

impl<const N: usize> BoundedString<N> {
    #[verifier::type_invariant]
    closed spec fn inv(self) -> bool {
        self.len as int <= N
    }

    /// The number of stored bytes, which never exceeds `N`.
    pub fn len(&self) -> (r: usize)
        ensures
            r == self@.len(),
            r <= N,
    {
        proof {
            use_type_invariant(self);
        }
        self.len as usize
    }

    /// The empty string.
    pub fn new() -> (r: Self)
        ensures
            r@ == Seq::<u8>::empty(),
    {
        let r = BoundedString { bytes: [0u8; N], len: 0 };
        assert(r@ =~= Seq::<u8>::empty());
        r
    }

    /// Copies `value`'s bytes; empty or over-long values are refused.
    pub fn from_str(value: &str) -> (r: Result<Self>)
        requires
            N <= 255,
        ensures
            value.spec_bytes().len() == 0 ==> r == Err::<Self, Error>(Error::EmptyValue),
            0 < value.spec_bytes().len() && value.spec_bytes().len() > N ==> r == Err::<Self, Error>(Error::ValueTooLong),
            0 < value.spec_bytes().len() <= N ==> (r matches Ok(s) && s@ == value.spec_bytes()),
    {
        Self::from_bytes(value.as_bytes())
    }

    /// Copies `bytes`; empty or over-long values are refused.
    pub fn from_bytes(bytes: &[u8]) -> (r: Result<Self>)
        requires
            N <= 255,
        ensures
            bytes@.len() == 0 ==> r == Err::<Self, Error>(Error::EmptyValue),
            0 < bytes@.len() && bytes@.len() > N ==> r == Err::<Self, Error>(Error::ValueTooLong),
            0 < bytes@.len() <= N ==> (r matches Ok(s) && s@ == bytes@),
    {
        if bytes.len() == 0 {
            return Err(Error::EmptyValue);
        }
        if bytes.len() > N {
            return Err(Error::ValueTooLong);
        }
        let mut buf = [0u8; N];
        let mut i: usize = 0;
        while i < bytes.len()
            invariant
                i <= bytes@.len(),
                bytes@.len() <= N,
                buf@.len() == N,
                forall|j: int| 0 <= j < i ==> buf@[j] == bytes@[j],
            decreases bytes@.len() - i,
        {
            buf[i] = bytes[i];
            i = i + 1;
        }
        let r = BoundedString { bytes: buf, len: bytes.len() as u8 };
        assert(r@ =~= bytes@);
        Ok(r)
    }

    /// The stored bytes.
    pub fn as_bytes(&self) -> (r: &[u8])
        ensures
            r@ == self@,
    {
        proof {
            use_type_invariant(self);
        }
        let all: &[u8] = self.bytes.as_slice();
        let n = self.len as usize;
        &all[0..n]
    }

    /// The stored bytes as text; bytes that are not UTF-8 are refused.
    pub fn as_str(&self) -> (r: Result<&str>)
        ensures
            r is Ok <==> vstd::utf8::valid_utf8(self@),
            r matches Ok(s) ==> s.spec_bytes() == self@,
            r is Err ==> r == Err::<&str, Error>(Error::InvalidUtf8),
    {
        match crate::crypto::utf8_str(self.as_bytes()) {
            Some(s) => Ok(s),
            None => Err(Error::InvalidUtf8),
        }
    }

    /// Whether the string is empty.
    pub fn is_empty(&self) -> (r: bool)
        ensures
            r == (self@.len() == 0),
    {
        proof {
            use_type_invariant(self);
        }
        self.len == 0
    }

    /// Whether two strings hold the same bytes.
    pub fn same_as(&self, other: &Self) -> (r: bool)
        ensures
            r == (self@ == other@),
    {
        crate::bytes::bytes_eq(self.as_bytes(), other.as_bytes())
    }
}

impl<const N: usize> Default for BoundedString<N> {
    fn default() -> (r: Self)
        ensures
            r@ == Seq::<u8>::empty(),
    {
        Self::new()
    }
}

/// A byte string of at most `N` bytes held on the heap; empty until content is
/// set.
#[derive(Debug)]
pub struct ContentBytes<const N: usize> {
    bytes: Vec<u8>,
}

impl<const N: usize> View for ContentBytes<N> {
    type V = Seq<u8>;

    closed spec fn view(&self) -> Seq<u8> {
        self.bytes@
    }
}

impl<const N: usize> ContentBytes<N> {
    #[verifier::type_invariant]
    closed spec fn inv(self) -> bool {
        self.bytes@.len() <= N
    }

    /// No content.
    pub fn new() -> (r: Self)
        ensures
            r@ == Seq::<u8>::empty(),
    {
        ContentBytes { bytes: Vec::new() }
    }

    /// A copy of `content`, which must hold one to `N` bytes.
    pub fn from_slice(content: &[u8]) -> (r: Result<Self>)
        ensures
            content@.len() == 0 ==> r == Err::<Self, Error>(Error::EmptyValue),
            0 < content@.len() && content@.len() > N ==> r == Err::<Self, Error>(Error::ValueTooLong),
            0 < content@.len() <= N ==> (r matches Ok(c) && c@ == content@),
    {
        let bytes = crate::bytes::bounded_copy(content, N)?;
        Ok(ContentBytes { bytes })
    }

    /// The stored bytes.
    pub fn as_slice(&self) -> (r: &[u8])
        ensures
            r@ == self@,
    {
        self.bytes.as_slice()
    }

    /// The number of stored bytes, which never exceeds `N`.
    pub fn len(&self) -> (r: usize)
        ensures
            r == self@.len(),
            r <= N,
    {
        proof {
            use_type_invariant(self);
        }
        self.bytes.len()
    }
}

impl<const N: usize> Clone for ContentBytes<N> {
    fn clone(&self) -> (r: Self)
        ensures
            r@ == self@,
    {
        proof {
            use_type_invariant(self);
        }
        let bytes = crate::bytes::to_vec(self.bytes.as_slice());
        ContentBytes { bytes }
    }
}

} // verus!
