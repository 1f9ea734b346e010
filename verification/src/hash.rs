use vstd::prelude::*;
use crate::bytes::{be16, be32};
use crate::crypto::sha256_spec;
use crate::error::{Error, Result};
use crate::kernel::{Digest, HashAlgorithm};

verus! {

/// The hash algorithm the kernel uses unless told otherwise.
pub const DEFAULT_HASH_ALGORITHM: HashAlgorithm = HashAlgorithm::Sha256;

/// `INK-V1`, the prefix of every labeled hash.
pub const LABEL_PREFIX: [u8; 6] = [73u8, 78u8, 75u8, 45u8, 86u8, 49u8];

/// Each part prefixed by its length as four big-endian bytes.
pub open spec fn length_prefixed(parts: Seq<Seq<u8>>) -> Seq<u8>
    decreases parts.len(),
{
    if parts.len() == 0 {
        Seq::empty()
    } else {
        length_prefixed(parts.drop_last()) + be32(parts.last().len() as u32) + parts.last()
    }
}

/// The bytes that a labeled hash covers.
pub open spec fn labeled_preimage(label: Seq<u8>, parts: Seq<Seq<u8>>) -> Seq<u8> {
    LABEL_PREFIX@ + be16(label.len() as u16) + label + length_prefixed(parts)
}

/// The views of a slice of byte slices.
pub open spec fn slices_view(parts: Seq<&[u8]>) -> Seq<Seq<u8>> {
    parts.map_values(|p: &[u8]| p@)
}

/// Hashes `data` with `algorithm`.
pub fn hash_bytes(algorithm: HashAlgorithm, data: &[u8]) -> (r: Result<Digest>)
    ensures
        r matches Ok(d) && d@ == sha256_spec(data@),
{
    match algorithm {
        HashAlgorithm::Sha256 => Ok(Digest(crate::crypto::sha256_digest(data))),
    }
}

/// Hashes `data` under `label`, as the single part of a labeled hash whose own
/// label is `hash_labeled` and whose parts are the prefix, the label's length,
/// the label, the data's length and the data.
pub fn hash_labeled(label: &[u8], data: &[u8]) -> (r: Result<Digest>)
    ensures
        r matches Ok(d) && d@ == sha256_spec(labeled_preimage(
            HASH_LABELED_LABEL@,
            seq![LABEL_PREFIX@, be16(label@.len() as u16), label@, be32(data@.len() as u32), data@],
        )),
{
    let mut label_len: Vec<u8> = Vec::new();
    crate::bytes::push_be16(&mut label_len, label.len() as u16);
    let mut data_len: Vec<u8> = Vec::new();
    crate::bytes::push_be32(&mut data_len, data.len() as u32);
    let parts: [&[u8]; 5] = [LABEL_PREFIX.as_slice(), label_len.as_slice(), label, data_len.as_slice(), data];
    let r = hash_many_labeled(HASH_LABELED_LABEL.as_slice(), parts.as_slice());
    assert(slices_view(parts@) =~= seq![LABEL_PREFIX@, be16(label@.len() as u16), label@, be32(data@.len() as u32), data@]);
    r
}

/// `hash_labeled`, the label under which `hash_labeled` hashes.
pub const HASH_LABELED_LABEL: [u8; 12] = [104u8, 97u8, 115u8, 104u8, 95u8, 108u8, 97u8, 98u8, 101u8, 108u8, 101u8, 100u8];

/// Hashes `parts` under `label`: the prefix `INK-V1`, the label's length as two
/// big-endian bytes, the label, then each part after its length as four
/// big-endian bytes.
pub fn hash_many_labeled(label: &[u8], parts: &[&[u8]]) -> (r: Result<Digest>)
    ensures
        r matches Ok(d) && d@ == sha256_spec(labeled_preimage(label@, slices_view(parts@))),
{
    let mut buf: Vec<u8> = Vec::new();
    crate::bytes::push_slice(&mut buf, LABEL_PREFIX.as_slice());
    crate::bytes::push_be16(&mut buf, label.len() as u16);
    crate::bytes::push_slice(&mut buf, label);
    let ghost head = buf@;
    let mut i: usize = 0;
    while i < parts.len()
        invariant
            i <= parts@.len(),
            head == LABEL_PREFIX@ + be16(label@.len() as u16) + label@,
            buf@ == head + length_prefixed(slices_view(parts@).subrange(0, i as int)),
        decreases parts@.len() - i,
    {
        let part: &[u8] = parts[i];
        crate::bytes::push_be32(&mut buf, part.len() as u32);
        crate::bytes::push_slice(&mut buf, part);
        proof {
            let prev = slices_view(parts@).subrange(0, i as int);
            let next = slices_view(parts@).subrange(0, i + 1);
            assert(next.drop_last() =~= prev);
            assert(next.last() == part@);
            assert(buf@ =~= head + length_prefixed(next));
        }
        i = i + 1;
    }
    assert(slices_view(parts@).subrange(0, parts@.len() as int) =~= slices_view(parts@));
    let digest = crate::crypto::sha256_digest(buf.as_slice());
    Ok(Digest(digest))
}

/// Parts of the same lengths, one by one, are written in the same number of
/// bytes.
pub proof fn lemma_length_prefixed_same_len(a: Seq<Seq<u8>>, b: Seq<Seq<u8>>)
    requires
        a.len() == b.len(),
        forall|j: int| 0 <= j < a.len() ==> (#[trigger] a[j]).len() == b[j].len(),
    ensures
        length_prefixed(a).len() == length_prefixed(b).len(),
    decreases a.len(),
{
    if a.len() > 0 {
        lemma_length_prefixed_same_len(a.drop_last(), b.drop_last());
        assert(a.last().len() == b.last().len());
    }
}

/// Parts of `n` bytes each are written in `4 + n` bytes each.
pub proof fn lemma_length_prefixed_fixed_len(a: Seq<Seq<u8>>, n: nat)
    requires
        forall|j: int| 0 <= j < a.len() ==> (#[trigger] a[j]).len() == n,
    ensures
        length_prefixed(a).len() == a.len() * (4 + n),
    decreases a.len(),
{
    if a.len() > 0 {
        lemma_length_prefixed_fixed_len(a.drop_last(), n);
        assert(a.last().len() == n);
        assert((a.len() - 1) * (4 + n) + (4 + n) == a.len() * (4 + n)) by (nonlinear_arith);
    }
}

/// Two different lists of parts, whose parts have the same lengths one by
/// one, are written as different bytes.
pub proof fn lemma_length_prefixed_distinct(a: Seq<Seq<u8>>, b: Seq<Seq<u8>>)
    requires
        a.len() == b.len(),
        forall|j: int| 0 <= j < a.len() ==> (#[trigger] a[j]).len() == b[j].len(),
        a != b,
    ensures
        length_prefixed(a) != length_prefixed(b),
    decreases a.len(),
{
    if a.len() == 0 {
        assert(a =~= b);
    } else {
        let pa = length_prefixed(a.drop_last());
        let pb = length_prefixed(b.drop_last());
        lemma_length_prefixed_same_len(a.drop_last(), b.drop_last());
        let x = a.last();
        let y = b.last();
        assert(x.len() == y.len());
        let la = length_prefixed(a);
        let lb = length_prefixed(b);
        assert(la == pa + be32(x.len() as u32) + x);
        assert(lb == pb + be32(y.len() as u32) + y);
        if x != y {
            let k: int = pa.len() as int + 4;
            assert(la.subrange(k, k + x.len() as int) =~= x);
            assert(lb.subrange(k, k + y.len() as int) =~= y);
        } else {
            if a.drop_last() == b.drop_last() {
                assert(a =~= b) by {
                    assert forall|j: int| 0 <= j < a.len() implies a[j] == b[j] by {
                        if j < a.len() - 1 {
                            assert(a.drop_last()[j] == b.drop_last()[j]);
                        }
                    }
                }
            }
            lemma_length_prefixed_distinct(a.drop_last(), b.drop_last());
            assert(la.subrange(0, pa.len() as int) =~= pa);
            assert(lb.subrange(0, pb.len() as int) =~= pb);
        }
    }
}

/// Two labeled preimages under one label are the same bytes only where the
/// written parts are.
pub proof fn lemma_labeled_preimage_parts(label: Seq<u8>, a: Seq<Seq<u8>>, b: Seq<Seq<u8>>)
    requires
        labeled_preimage(label, a) == labeled_preimage(label, b),
    ensures
        length_prefixed(a) == length_prefixed(b),
{
    let head = LABEL_PREFIX@ + be16(label.len() as u16) + label;
    let pa = labeled_preimage(label, a);
    let pb = labeled_preimage(label, b);
    assert(pa == head + length_prefixed(a));
    assert(pb == head + length_prefixed(b));
    assert(pa.subrange(head.len() as int, pa.len() as int) =~= length_prefixed(a));
    assert(pb.subrange(head.len() as int, pb.len() as int) =~= length_prefixed(b));
}

/// Under one label, two different lists of parts whose parts have the same
/// lengths one by one give different preimages.
pub proof fn lemma_labeled_preimage_distinct(label: Seq<u8>, a: Seq<Seq<u8>>, b: Seq<Seq<u8>>)
    requires
        a.len() == b.len(),
        forall|j: int| 0 <= j < a.len() ==> (#[trigger] a[j]).len() == b[j].len(),
        a != b,
    ensures
        labeled_preimage(label, a) != labeled_preimage(label, b),
{
    lemma_length_prefixed_distinct(a, b);
    if labeled_preimage(label, a) == labeled_preimage(label, b) {
        lemma_labeled_preimage_parts(label, a, b);
    }
}

/// Under one label, two different lists of parts of `n` bytes each give
/// different preimages, whether or not they hold as many parts.
pub proof fn lemma_labeled_preimage_distinct_fixed(label: Seq<u8>, a: Seq<Seq<u8>>, b: Seq<Seq<u8>>, n: nat)
    requires
        forall|j: int| 0 <= j < a.len() ==> (#[trigger] a[j]).len() == n,
        forall|j: int| 0 <= j < b.len() ==> (#[trigger] b[j]).len() == n,
        a != b,
    ensures
        labeled_preimage(label, a) != labeled_preimage(label, b),
{
    if a.len() == b.len() {
        lemma_labeled_preimage_distinct(label, a, b);
    } else {
        lemma_length_prefixed_fixed_len(a, n);
        lemma_length_prefixed_fixed_len(b, n);
        if a.len() < b.len() {
            assert(a.len() * (4 + n) < b.len() * (4 + n)) by (nonlinear_arith)
                requires a.len() < b.len();
        } else {
            assert(b.len() * (4 + n) < a.len() * (4 + n)) by (nonlinear_arith)
                requires b.len() < a.len();
        }
        if labeled_preimage(label, a) == labeled_preimage(label, b) {
            lemma_labeled_preimage_parts(label, a, b);
        }
    }
}

/// The parts written from the front: the first part's length and bytes, then
/// the rest.
pub proof fn lemma_length_prefixed_front(a: Seq<Seq<u8>>)
    requires
        a.len() > 0,
    ensures
        length_prefixed(a) == be32(a[0].len() as u32) + a[0] + length_prefixed(a.drop_first()),
    decreases a.len(),
{
    if a.len() == 1 {
        assert(a.drop_last() =~= Seq::<Seq<u8>>::empty());
        assert(a.drop_first() =~= Seq::<Seq<u8>>::empty());
        assert(length_prefixed(a) =~= be32(a[0].len() as u32) + a[0] + length_prefixed(a.drop_first()));
    } else {
        let t = be32(a.last().len() as u32) + a.last();
        lemma_length_prefixed_front(a.drop_last());
        assert(a.drop_last().drop_first() =~= a.drop_first().drop_last());
        assert(a.drop_first().last() == a.last());
        assert(a.drop_last()[0] == a[0]);
        assert(length_prefixed(a.drop_first()) == length_prefixed(a.drop_first().drop_last()) + t);
        assert(length_prefixed(a) == length_prefixed(a.drop_last()) + t);
        assert(length_prefixed(a) =~= be32(a[0].len() as u32) + a[0] + length_prefixed(a.drop_first()));
    }
}

/// Four big-endian bytes determine the value they were written from.
proof fn lemma_be32_injective(v: u32, w: u32)
    requires
        be32(v) == be32(w),
    ensures
        v == w,
{
    crate::bytes::lemma_be32_roundtrip(v);
    crate::bytes::lemma_be32_roundtrip(w);
}

/// The written parts determine the parts, when no part is longer than a
/// four-byte length can say.
pub proof fn lemma_length_prefixed_injective(a: Seq<Seq<u8>>, b: Seq<Seq<u8>>)
    requires
        forall|j: int| 0 <= j < a.len() ==> (#[trigger] a[j]).len() <= u32::MAX,
        forall|j: int| 0 <= j < b.len() ==> (#[trigger] b[j]).len() <= u32::MAX,
        length_prefixed(a) == length_prefixed(b),
    ensures
        a == b,
    decreases a.len(),
{
    if a.len() == 0 {
        assert(length_prefixed(a).len() == 0);
        if b.len() > 0 {
            lemma_length_prefixed_front(b);
            assert(length_prefixed(b).len() >= 4);
        }
        assert(a =~= b);
    } else {
        lemma_length_prefixed_front(a);
        if b.len() == 0 {
            assert(length_prefixed(b).len() == 0);
        } else {
            lemma_length_prefixed_front(b);
            let la = length_prefixed(a);
            let n: int = a[0].len() as int;
            let m: int = b[0].len() as int;
            assert(la.subrange(0, 4) =~= be32(a[0].len() as u32));
            assert(la.subrange(0, 4) =~= be32(b[0].len() as u32));
            lemma_be32_injective(a[0].len() as u32, b[0].len() as u32);
            assert(a[0].len() <= u32::MAX && b[0].len() <= u32::MAX);
            assert(n == m);
            assert(la.subrange(4, 4 + n) =~= a[0]);
            assert(la.subrange(4, 4 + n) =~= b[0]);
            assert(la.subrange(4 + n, la.len() as int) =~= length_prefixed(a.drop_first()));
            assert(la.subrange(4 + n, la.len() as int) =~= length_prefixed(b.drop_first()));
            lemma_length_prefixed_injective(a.drop_first(), b.drop_first());
            assert(a =~= b) by {
                assert forall|j: int| 0 <= j < a.len() implies a[j] == b[j] by {
                    if j > 0 {
                        assert(a.drop_first()[j - 1] == b.drop_first()[j - 1]);
                    }
                }
            }
        }
    }
}

/// Under one label, different lists of parts, none longer than a four-byte
/// length can say, give different preimages.
pub proof fn lemma_labeled_preimage_injective(label: Seq<u8>, a: Seq<Seq<u8>>, b: Seq<Seq<u8>>)
    requires
        forall|j: int| 0 <= j < a.len() ==> (#[trigger] a[j]).len() <= u32::MAX,
        forall|j: int| 0 <= j < b.len() ==> (#[trigger] b[j]).len() <= u32::MAX,
        a != b,
    ensures
        labeled_preimage(label, a) != labeled_preimage(label, b),
{
    if labeled_preimage(label, a) == labeled_preimage(label, b) {
        lemma_labeled_preimage_parts(label, a, b);
        lemma_length_prefixed_injective(a, b);
    }
}

} // verus!
