use vstd::prelude::*;
use crate::error::{Error, Result};
use vstd::string::StringSliceAdditionalSpecFns;

verus! {

/// Big-endian bytes of a 16-bit value.
pub open spec fn be16(v: u16) -> Seq<u8> {
    seq![(v >> 8u16) as u8, v as u8]
}

/// Big-endian bytes of a 32-bit value.
pub open spec fn be32(v: u32) -> Seq<u8> {
    seq![(v >> 24u32) as u8, (v >> 16u32) as u8, (v >> 8u32) as u8, v as u8]
}

/// Big-endian bytes of a 64-bit value.
pub open spec fn be64(v: u64) -> Seq<u8> {
    seq![
        (v >> 56u64) as u8,
        (v >> 48u64) as u8,
        (v >> 40u64) as u8,
        (v >> 32u64) as u8,
        (v >> 24u64) as u8,
        (v >> 16u64) as u8,
        (v >> 8u64) as u8,
        v as u8,
    ]
}

/// The 32-bit value whose big-endian bytes are `b[0..4]`.
pub open spec fn from_be32(b0: u8, b1: u8, b2: u8, b3: u8) -> u32 {
    ((b0 as u32) << 24u32) | ((b1 as u32) << 16u32) | ((b2 as u32) << 8u32) | (b3 as u32)
}

/// The 64-bit value whose big-endian bytes are `b0..b7`.
pub open spec fn from_be64(b0: u8, b1: u8, b2: u8, b3: u8, b4: u8, b5: u8, b6: u8, b7: u8) -> u64 {
    ((b0 as u64) << 56u64) | ((b1 as u64) << 48u64) | ((b2 as u64) << 40u64) | ((b3 as u64)
        << 32u64) | ((b4 as u64) << 24u64) | ((b5 as u64) << 16u64) | ((b6 as u64) << 8u64) | (
    b7 as u64)
}

/// Reading back the big-endian bytes of a 32-bit value gives the value.
pub proof fn lemma_be32_roundtrip(v: u32)
    ensures
        from_be32(be32(v)[0], be32(v)[1], be32(v)[2], be32(v)[3]) == v,
{
    assert(((((v >> 24u32) as u8) as u32) << 24u32) | ((((v >> 16u32) as u8) as u32) << 16u32)
        | ((((v >> 8u32) as u8) as u32) << 8u32) | ((v as u8) as u32) == v) by (bit_vector);
}

/// Four bytes read as a 32-bit value encode back to themselves.
pub proof fn lemma_be32_bytes(b0: u8, b1: u8, b2: u8, b3: u8)
    ensures
        be32(from_be32(b0, b1, b2, b3)) == seq![b0, b1, b2, b3],
{
    let v = from_be32(b0, b1, b2, b3);
    assert(((((b0 as u32) << 24u32) | ((b1 as u32) << 16u32) | ((b2 as u32) << 8u32) | (b3 as u32))
        >> 24u32) as u8 == b0) by (bit_vector);
    assert(((((b0 as u32) << 24u32) | ((b1 as u32) << 16u32) | ((b2 as u32) << 8u32) | (b3 as u32))
        >> 16u32) as u8 == b1) by (bit_vector);
    assert(((((b0 as u32) << 24u32) | ((b1 as u32) << 16u32) | ((b2 as u32) << 8u32) | (b3 as u32))
        >> 8u32) as u8 == b2) by (bit_vector);
    assert((((b0 as u32) << 24u32) | ((b1 as u32) << 16u32) | ((b2 as u32) << 8u32) | (b3 as u32))
        as u8 == b3) by (bit_vector);
    assert(be32(v) =~= seq![b0, b1, b2, b3]);
}

/// Reading back the big-endian bytes of a 64-bit value gives the value.
pub proof fn lemma_be64_roundtrip(v: u64)
    ensures
        from_be64(
            be64(v)[0],
            be64(v)[1],
            be64(v)[2],
            be64(v)[3],
            be64(v)[4],
            be64(v)[5],
            be64(v)[6],
            be64(v)[7],
        ) == v,
{
    assert(((((v >> 56u64) as u8) as u64) << 56u64) | ((((v >> 48u64) as u8) as u64) << 48u64)
        | ((((v >> 40u64) as u8) as u64) << 40u64) | ((((v >> 32u64) as u8) as u64) << 32u64)
        | ((((v >> 24u64) as u8) as u64) << 24u64) | ((((v >> 16u64) as u8) as u64) << 16u64)
        | ((((v >> 8u64) as u8) as u64) << 8u64) | ((v as u8) as u64) == v) by (bit_vector);
}

/// Eight bytes read as a 64-bit value encode back to themselves.
pub proof fn lemma_be64_bytes(b0: u8, b1: u8, b2: u8, b3: u8, b4: u8, b5: u8, b6: u8, b7: u8)
    ensures
        be64(from_be64(b0, b1, b2, b3, b4, b5, b6, b7)) == seq![b0, b1, b2, b3, b4, b5, b6, b7],
{
    let v = from_be64(b0, b1, b2, b3, b4, b5, b6, b7);
    assert(v == ((b0 as u64) << 56u64) | ((b1 as u64) << 48u64) | ((b2 as u64) << 40u64) | ((
    b3 as u64) << 32u64) | ((b4 as u64) << 24u64) | ((b5 as u64) << 16u64) | ((b6 as u64) << 8u64)
        | (b7 as u64));
    assert((v >> 56u64) as u8 == b0 && (v >> 48u64) as u8 == b1 && (v >> 40u64) as u8 == b2 && (v
        >> 32u64) as u8 == b3 && (v >> 24u64) as u8 == b4 && (v >> 16u64) as u8 == b5 && (v
        >> 8u64) as u8 == b6 && v as u8 == b7) by (bit_vector)
        requires
            v == ((b0 as u64) << 56u64) | ((b1 as u64) << 48u64) | ((b2 as u64) << 40u64) | ((
            b3 as u64) << 32u64) | ((b4 as u64) << 24u64) | ((b5 as u64) << 16u64) | ((b6 as u64)
                << 8u64) | (b7 as u64),
    ;
    assert(be64(v) =~= seq![b0, b1, b2, b3, b4, b5, b6, b7]);
}

/// Appends `bytes` to `out`.
pub fn push_slice(out: &mut Vec<u8>, bytes: &[u8])
    ensures
        final(out)@ == old(out)@ + bytes@,
{
    out.extend_from_slice(bytes);
}

/// Appends the big-endian bytes of a 16-bit value.
pub fn push_be16(out: &mut Vec<u8>, v: u16)
    ensures
        final(out)@ == old(out)@ + be16(v),
{
    out.push((v >> 8u16) as u8);
    out.push(v as u8);
    assert(final(out)@ =~= old(out)@ + be16(v));
}

/// Appends the big-endian bytes of a 32-bit value.
pub fn push_be32(out: &mut Vec<u8>, v: u32)
    ensures
        final(out)@ == old(out)@ + be32(v),
{
    out.push((v >> 24u32) as u8);
    out.push((v >> 16u32) as u8);
    out.push((v >> 8u32) as u8);
    out.push(v as u8);
    assert(final(out)@ =~= old(out)@ + be32(v));
}

/// Appends the big-endian bytes of a 64-bit value.
pub fn push_be64(out: &mut Vec<u8>, v: u64)
    ensures
        final(out)@ == old(out)@ + be64(v),
{
    out.push((v >> 56u64) as u8);
    out.push((v >> 48u64) as u8);
    out.push((v >> 40u64) as u8);
    out.push((v >> 32u64) as u8);
    out.push((v >> 24u64) as u8);
    out.push((v >> 16u64) as u8);
    out.push((v >> 8u64) as u8);
    out.push(v as u8);
    assert(final(out)@ =~= old(out)@ + be64(v));
}

/// Whether two byte strings are equal.
pub fn bytes_eq(a: &[u8], b: &[u8]) -> (r: bool)
    ensures
        r == (a@ == b@),
{
    if a.len() != b.len() {
        return false;
    }
    let mut i: usize = 0;
    while i < a.len()
        invariant
            i <= a@.len(),
            a@.len() == b@.len(),
            forall|j: int| 0 <= j < i ==> a@[j] == b@[j],
        decreases a@.len() - i,
    {
        if a[i] != b[i] {
            return false;
        }
        i = i + 1;
    }
    assert(a@ =~= b@);
    true
}

/// Whether two strings are equal.
pub fn str_eq(a: &str, b: &str) -> (r: bool)
    ensures
        r == (a@ == b@),
{
    let r = bytes_eq(a.as_bytes(), b.as_bytes());
    proof {
        vstd::utf8::encode_utf8_decode_utf8(a@);
        vstd::utf8::encode_utf8_decode_utf8(b@);
    }
    r
}

/// Copies a byte slice into a fresh vector.
pub fn to_vec(bytes: &[u8]) -> (r: Vec<u8>)
    ensures
        r@ == bytes@,
{
    let mut out: Vec<u8> = Vec::new();
    out.extend_from_slice(bytes);
    out
}

/// Whether `byte` occurs in `bytes`.
pub fn contains_byte(bytes: &[u8], byte: u8) -> (r: bool)
    ensures
        r == bytes@.contains(byte),
{
    let mut i: usize = 0;
    while i < bytes.len()
        invariant
            i <= bytes@.len(),
            forall|j: int| 0 <= j < i ==> bytes@[j] != byte,
        decreases bytes@.len() - i,
    {
        if bytes[i] == byte {
            assert(bytes@[i as int] == byte);
            return true;
        }
        i = i + 1;
    }
    false
}

/// Copies `content` when it holds one to `max` bytes; refuses it otherwise.
pub fn bounded_copy(content: &[u8], max: usize) -> (r: Result<Vec<u8>>)
    ensures
        content@.len() == 0 ==> r == Err::<Vec<u8>, Error>(Error::EmptyValue),
        0 < content@.len() && content@.len() > max ==> r == Err::<Vec<u8>, Error>(Error::ValueTooLong),
        0 < content@.len() <= max ==> (r matches Ok(v) && v@ == content@),
{
    if content.len() == 0 {
        return Err(Error::EmptyValue);
    }
    if content.len() > max {
        return Err(Error::ValueTooLong);
    }
    Ok(to_vec(content))
}

} // verus!
