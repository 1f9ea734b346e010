use vstd::prelude::*;
use vstd::string::StringSliceAdditionalSpecFns;
use crate::error::{Error, Result};
use crate::limits::{MAX_ID_LEN, MAX_POLICY_ID_LEN, MAX_REASON_CODE_LEN};

pub use crate::kernel::{Ed25519PublicKey, Ed25519Signature};

verus! {

/// A SHA-256 digest.
#[derive(Clone, Copy, Debug, Eq)]
pub struct Sha256Digest(pub [u8; 32]);

impl PartialEq for Sha256Digest {
    fn eq(&self, other: &Self) -> (r: bool) {
        crate::bytes::bytes_eq(self.0.as_slice(), other.0.as_slice())
    }
}

impl vstd::std_specs::cmp::PartialEqSpecImpl for Sha256Digest {
    open spec fn obeys_eq_spec() -> bool {
        true
    }

    open spec fn eq_spec(&self, other: &Self) -> bool {
        self.0@ == other.0@
    }
}

impl View for Sha256Digest {
    type V = Seq<u8>;

    open spec fn view(&self) -> Seq<u8> {
        self.0@
    }
}

impl Sha256Digest {
    /// The all-zero digest.
    pub fn zero() -> (r: Self)
        ensures
            r@ == Seq::new(32, |i: int| 0u8),
    {
        let r = Sha256Digest([0u8; 32]);
        assert(r@ =~= Seq::new(32, |i: int| 0u8));
        r
    }
}

/// A moment in UTC: whole seconds since the Unix epoch and a nanosecond part.
#[derive(Clone, Copy, Debug, PartialEq, Eq, Structural)]
pub struct TimestampUtc {
    pub unix_seconds: i64,
    pub nanos: u32,
}

/// The most nanoseconds a timestamp's fractional part may hold, plus one.
pub const NANOS_PER_SECOND: u32 = 1000000000;

impl TimestampUtc {
    /// A timestamp; a nanosecond part of a full second or more is refused.
    pub fn new(unix_seconds: i64, nanos: u32) -> (r: Result<Self>)
        ensures
            nanos >= NANOS_PER_SECOND ==> r == Err::<Self, Error>(Error::InvalidTimestamp),
            nanos < NANOS_PER_SECOND ==> r == Ok::<Self, Error>(TimestampUtc { unix_seconds, nanos }),
    {
        let timestamp = TimestampUtc { unix_seconds, nanos };
        timestamp.validate()?;
        Ok(timestamp)
    }

    /// Checks that the nanosecond part is under a full second.
    pub fn validate(&self) -> (r: Result<()>)
        ensures
            self.nanos >= NANOS_PER_SECOND ==> r == Err::<(), Error>(Error::InvalidTimestamp),
            self.nanos < NANOS_PER_SECOND ==> r is Ok,
    {
        if self.nanos >= NANOS_PER_SECOND {
            return Err(Error::InvalidTimestamp);
        }
        Ok(())
    }
}

/// An ASCII letter or digit, or one of `-`, `_`, `.`, `:` and `/`.
pub open spec fn identifier_byte(b: u8) -> bool {
    ||| (48 <= b <= 57)
    ||| (65 <= b <= 90)
    ||| (97 <= b <= 122)
    ||| b == 45u8
    ||| b == 95u8
    ||| b == 46u8
    ||| b == 58u8
    ||| b == 47u8
}

/// Whether every byte of `s` is an identifier byte.
pub open spec fn all_identifier_bytes(s: Seq<u8>) -> bool {
    forall|i: int| 0 <= i < s.len() ==> #[trigger] identifier_byte(s[i])
}

/// The failure, if any, of a bounded value: empty, over `max` bytes, or holding
/// a NUL byte, tested in that order.
pub open spec fn non_nul_error(s: Seq<u8>, max: nat) -> Option<Error> {
    if s.len() == 0 {
        Some(Error::EmptyValue)
    } else if s.len() > max {
        Some(Error::ValueTooLong)
    } else if s.contains(0u8) {
        Some(Error::ContainsNul)
    } else {
        None
    }
}

/// The failure, if any, of a bounded identifier: the checks of a bounded value,
/// then a byte outside the identifier class.
pub open spec fn identifier_error(s: Seq<u8>, max: nat) -> Option<Error> {
    match non_nul_error(s, max) {
        Some(e) => Some(e),
        None => if all_identifier_bytes(s) { None } else { Some(Error::InvalidByteClass) },
    }
}

/// Whether `byte` may appear in an identifier.
pub fn is_identifier_byte(byte: u8) -> (r: bool)
    ensures
        r == identifier_byte(byte),
{
    (byte >= 48 && byte <= 57) || (byte >= 65 && byte <= 90) || (byte >= 97 && byte <= 122) || byte == 45
        || byte == 95 || byte == 46 || byte == 58 || byte == 47
}

/// Whether `byte` may appear in a reason code; the same class as identifiers.
pub fn is_reason_code_byte(byte: u8) -> (r: bool)
    ensures
        r == identifier_byte(byte),
{
    is_identifier_byte(byte)
}

fn validate_non_nul(bytes: &[u8], max_len: usize) -> (r: Result<()>)
    ensures
        r matches Err(e) ==> non_nul_error(bytes@, max_len as nat) == Some(e),
        r is Ok ==> non_nul_error(bytes@, max_len as nat) is None,
{
    if bytes.len() == 0 {
        return Err(Error::EmptyValue);
    }
    if bytes.len() > max_len {
        return Err(Error::ValueTooLong);
    }
    if crate::bytes::contains_byte(bytes, 0) {
        return Err(Error::ContainsNul);
    }
    Ok(())
}

fn all_identifier(bytes: &[u8]) -> (r: bool)
    ensures
        r == all_identifier_bytes(bytes@),
{
    let mut i: usize = 0;
    while i < bytes.len()
        invariant
            i <= bytes@.len(),
            forall|j: int| 0 <= j < i ==> #[trigger] identifier_byte(bytes@[j]),
        decreases bytes@.len() - i,
    {
        if !is_identifier_byte(bytes[i]) {
            return false;
        }
        i = i + 1;
    }
    true
}

/// A borrowed byte string of one to `N` bytes with no NUL byte.
#[derive(Clone, Copy, Debug)]
pub struct BoundedBytes<'a, const N: usize> {
    bytes: &'a [u8],
}

impl<'a, const N: usize> View for BoundedBytes<'a, N> {
    type V = Seq<u8>;

    closed spec fn view(&self) -> Seq<u8> {
        self.bytes@
    }
}

/// An action identifier.
pub type ActionId<'a> = BoundedBytes<'a, MAX_ID_LEN>;
/// A receipt identifier.
pub type ReceiptId<'a> = BoundedBytes<'a, MAX_ID_LEN>;
/// A policy identifier.
pub type PolicyId<'a> = BoundedBytes<'a, MAX_POLICY_ID_LEN>;
/// A key identifier.
pub type KeyId<'a> = BoundedBytes<'a, MAX_ID_LEN>;
/// A reason code.
pub type ReasonCode<'a> = BoundedBytes<'a, MAX_REASON_CODE_LEN>;

impl<'a, const N: usize> BoundedBytes<'a, N> {
    #[verifier::type_invariant]
    closed spec fn inv(self) -> bool {
        non_nul_error(self.bytes@, N as nat) is None
    }

    /// Wraps `bytes` when they are non-empty, at most `N` bytes and free of NUL.
    pub fn new(bytes: &'a [u8]) -> (r: Result<Self>)
        ensures
            non_nul_error(bytes@, N as nat) matches Some(e) ==> r == Err::<Self, Error>(e),
            non_nul_error(bytes@, N as nat) is None ==> (r matches Ok(v) && v@ == bytes@),
    {
        validate_non_nul(bytes, N)?;
        Ok(BoundedBytes { bytes })
    }

    /// Wraps an identifier: the checks of `new`, then every byte an ASCII letter
    /// or digit or one of `-`, `_`, `.`, `:` and `/`.
    pub fn new_identifier(bytes: &'a [u8]) -> (r: Result<Self>)
        ensures
            identifier_error(bytes@, N as nat) matches Some(e) ==> r == Err::<Self, Error>(e),
            identifier_error(bytes@, N as nat) is None ==> (r matches Ok(v) && v@ == bytes@),
    {
        validate_non_nul(bytes, N)?;
        if !all_identifier(bytes) {
            return Err(Error::InvalidByteClass);
        }
        Ok(BoundedBytes { bytes })
    }

    /// Wraps a reason code, under the same rules as an identifier.
    pub fn new_reason_code(bytes: &'a [u8]) -> (r: Result<Self>)
        ensures
            identifier_error(bytes@, N as nat) matches Some(e) ==> r == Err::<Self, Error>(e),
            identifier_error(bytes@, N as nat) is None ==> (r matches Ok(v) && v@ == bytes@),
    {
        Self::new_identifier(bytes)
    }

    /// The wrapped bytes.
    pub fn as_bytes(&self) -> (r: &'a [u8])
        ensures
            r@ == self@,
            non_nul_error(r@, N as nat) is None,
    {
        proof {
            use_type_invariant(self);
        }
        self.bytes
    }

    /// The wrapped bytes as text; bytes that are not UTF-8 are refused.
    pub fn as_str(&self) -> (r: Result<&'a str>)
        ensures
            r is Ok <==> vstd::utf8::valid_utf8(self@),
            r matches Ok(s) ==> s.spec_bytes() == self@,
            r is Err ==> r == Err::<&str, Error>(Error::InvalidUtf8),
    {
        match crate::crypto::utf8_str(self.bytes) {
            Some(s) => Ok(s),
            None => Err(Error::InvalidUtf8),
        }
    }
}

} // verus!
