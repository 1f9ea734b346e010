use vstd::prelude::*;
use crate::bytes::{be16, be32, be64};
use crate::crypto::sha256_spec;
use crate::error::{Error, Result};
use crate::limits::MAX_TLV_VALUE_LEN;
use crate::types::Sha256Digest;

verus! {

/// Something that takes the bytes of a transcript in order.
pub trait TranscriptSink {
    /// Every byte written so far.
    spec fn transcript(&self) -> Seq<u8>;

    /// Appends `bytes`.
    fn update(&mut self, bytes: &[u8])
        ensures
            final(self).transcript() == old(self).transcript() + bytes@;
}

/// Collects a transcript and hashes it with SHA-256 when finalized.
#[derive(Debug)]
pub struct Sha256Sink {
    buffer: Vec<u8>,
}

impl Sha256Sink {
    /// A sink that has taken nothing.
    pub fn new() -> (r: Self)
        ensures
            r.transcript() == Seq::<u8>::empty(),
    {
        Sha256Sink { buffer: Vec::new() }
    }

    /// The SHA-256 digest of everything written.
    pub fn finalize(self) -> (r: Sha256Digest)
        ensures
            r@ == sha256_spec(self.transcript()),
    {
        Sha256Digest(crate::crypto::sha256_digest(self.buffer.as_slice()))
    }
}

impl Default for Sha256Sink {
    fn default() -> (r: Self)
        ensures
            r.transcript() == Seq::<u8>::empty(),
    {
        Sha256Sink::new()
    }
}

impl TranscriptSink for Sha256Sink {
    closed spec fn transcript(&self) -> Seq<u8> {
        self.buffer@
    }

    fn update(&mut self, bytes: &[u8]) {
        self.buffer.extend_from_slice(bytes);
    }
}

impl TranscriptSink for Vec<u8> {
    open spec fn transcript(&self) -> Seq<u8> {
        self@
    }

    fn update(&mut self, bytes: &[u8]) {
        self.extend_from_slice(bytes);
    }
}

/// A hasher fed in pieces: its digest is that of everything fed since it was
/// made or last reset.
#[derive(Debug)]
pub struct StreamingHasher {
    buffer: Vec<u8>,
}

impl View for StreamingHasher {
    type V = Seq<u8>;

    closed spec fn view(&self) -> Seq<u8> {
        self.buffer@
    }
}

impl StreamingHasher {
    /// A hasher that has been fed nothing.
    pub fn new() -> (r: Self)
        ensures
            r@ == Seq::<u8>::empty(),
    {
        StreamingHasher { buffer: Vec::new() }
    }

    /// Feeds more data.
    pub fn update(&mut self, data: &[u8])
        ensures
            final(self)@ == old(self)@ + data@,
    {
        self.buffer.extend_from_slice(data);
    }

    /// The SHA-256 digest of everything fed.
    pub fn finalize(self) -> (r: Sha256Digest)
        ensures
            r@ == sha256_spec(self@),
    {
        Sha256Digest(crate::crypto::sha256_digest(self.buffer.as_slice()))
    }

    /// The SHA-256 digest of everything fed so far; the hasher can be fed on.
    pub fn current_hash(&self) -> (r: Sha256Digest)
        ensures
            r@ == sha256_spec(self@),
    {
        Sha256Digest(crate::crypto::sha256_digest(self.buffer.as_slice()))
    }

    /// Forgets everything fed.
    pub fn reset(&mut self)
        ensures
            final(self)@ == Seq::<u8>::empty(),
    {
        self.buffer.clear();
    }
}

/// The SHA-256 digest of `bytes`.
pub fn sha256(bytes: &[u8]) -> (r: Sha256Digest)
    ensures
        r@ == sha256_spec(bytes@),
{
    let mut sink = Sha256Sink::new();
    sink.update(bytes);
    assert(Seq::<u8>::empty() + bytes@ =~= bytes@);
    sink.finalize()
}

/// A field of a transcript: its identifier as two big-endian bytes, the value's
/// length as four big-endian bytes, and the value.
pub open spec fn tlv(field_id: u16, value: Seq<u8>) -> Seq<u8> {
    be16(field_id) + be32(value.len() as u32) + value
}

/// Writes one field; a value over `MAX_TLV_VALUE_LEN` bytes is refused and
/// nothing is written.
pub fn write_tlv<S: TranscriptSink>(sink: &mut S, field_id: u16, value: &[u8]) -> (r: Result<()>)
    ensures
        value@.len() > MAX_TLV_VALUE_LEN ==> r == Err::<(), Error>(Error::TlvValueTooLarge)
            && final(sink).transcript() == old(sink).transcript(),
        value@.len() <= MAX_TLV_VALUE_LEN ==> r is Ok
            && final(sink).transcript() == old(sink).transcript() + tlv(field_id, value@),
{
    if value.len() > MAX_TLV_VALUE_LEN {
        return Err(Error::TlvValueTooLarge);
    }
    let mut id_bytes: Vec<u8> = Vec::new();
    crate::bytes::push_be16(&mut id_bytes, field_id);
    let mut len_bytes: Vec<u8> = Vec::new();
    crate::bytes::push_be32(&mut len_bytes, value.len() as u32);
    sink.update(id_bytes.as_slice());
    sink.update(len_bytes.as_slice());
    sink.update(value);
    assert(Seq::<u8>::empty() + be16(field_id) =~= be16(field_id));
    assert(Seq::<u8>::empty() + be32(value@.len() as u32) =~= be32(value@.len() as u32));
    assert(old(sink).transcript() + be16(field_id) + be32(value@.len() as u32) + value@
        =~= old(sink).transcript() + tlv(field_id, value@));
    Ok(())
}

/// Writes a one-byte field.
pub fn write_u8_field<S: TranscriptSink>(sink: &mut S, field_id: u16, value: u8)
    ensures
        final(sink).transcript() == old(sink).transcript() + tlv(field_id, seq![value]),
{
    let bytes: [u8; 1] = [value];
    assert(bytes@ =~= seq![value]);
    let _ = write_tlv(sink, field_id, bytes.as_slice());
}

/// The byte that stands for a flag: one when set, zero otherwise.
pub open spec fn bool_byte(value: bool) -> u8 {
    if value { 1 } else { 0 }
}

/// Writes a flag as a one-byte field.
pub fn write_bool_field<S: TranscriptSink>(sink: &mut S, field_id: u16, value: bool)
    ensures
        final(sink).transcript() == old(sink).transcript() + tlv(field_id, seq![bool_byte(value)]),
{
    write_u8_field(sink, field_id, if value { 1 } else { 0 });
}

/// Writes a 32-bit value as a four-byte big-endian field.
pub fn write_u32_field<S: TranscriptSink>(sink: &mut S, field_id: u16, value: u32)
    ensures
        final(sink).transcript() == old(sink).transcript() + tlv(field_id, be32(value)),
{
    let mut bytes: Vec<u8> = Vec::new();
    crate::bytes::push_be32(&mut bytes, value);
    assert(bytes@ =~= be32(value));
    let _ = write_tlv(sink, field_id, bytes.as_slice());
}

/// The big-endian two's complement bytes of a signed 64-bit value.
pub open spec fn be_i64(value: i64) -> Seq<u8> {
    be64(value as u64)
}

/// Writes a signed 64-bit value as an eight-byte big-endian field.
pub fn write_i64_field<S: TranscriptSink>(sink: &mut S, field_id: u16, value: i64)
    ensures
        final(sink).transcript() == old(sink).transcript() + tlv(field_id, be_i64(value)),
{
    let mut bytes: Vec<u8> = Vec::new();
    crate::bytes::push_be64(&mut bytes, value as u64);
    assert(bytes@ =~= be_i64(value));
    let _ = write_tlv(sink, field_id, bytes.as_slice());
}

/// The SHA-256 digest of each input, in the order of the inputs. The digests
/// are independent of one another.
pub fn parallel_sha256(bytes: &[&[u8]]) -> (r: Vec<Sha256Digest>)
    ensures
        r@.len() == bytes@.len(),
        forall|i: int| 0 <= i < bytes@.len() ==> (#[trigger] r@[i])@ == sha256_spec(bytes@[i]@),
{
    let mut out: Vec<Sha256Digest> = Vec::new();
    let mut i: usize = 0;
    while i < bytes.len()
        invariant
            i <= bytes@.len(),
            out@.len() == i,
            forall|j: int| 0 <= j < i ==> (#[trigger] out@[j])@ == sha256_spec(bytes@[j]@),
        decreases bytes@.len() - i,
    {
        out.push(sha256(bytes[i]));
        i = i + 1;
    }
    out
}

/// Hashes batches of inputs, in chunks of `chunk_size`, on one thread or
/// several; the digests are the same either way.
#[derive(Debug)]
pub struct BatchHasher {
    pub chunk_size: usize,
    pub parallel: bool,
}

impl BatchHasher {
    /// A batch hasher with the given chunk size and mode.
    pub fn new(chunk_size: usize, parallel: bool) -> (r: Self)
        ensures
            r.chunk_size == chunk_size,
            r.parallel == parallel,
    {
        BatchHasher { chunk_size, parallel }
    }

    /// The SHA-256 digest of each input, in the order of the inputs.
    pub fn hash_batch(&self, inputs: &[&[u8]]) -> (r: Vec<Sha256Digest>)
        ensures
            r@.len() == inputs@.len(),
            forall|i: int| 0 <= i < inputs@.len() ==> (#[trigger] r@[i])@ == sha256_spec(inputs@[i]@),
    {
        parallel_sha256(inputs)
    }
}

/// An input held by a `HashCache`: its digest, its bytes, and how often it
/// has been looked up since it was cached.
#[derive(Debug)]
pub struct CachedInput {
    digest: Sha256Digest,
    data: Vec<u8>,
    count: usize,
}

/// A cached input as plain values: digest, bytes, look-ups.
pub type CachedView = (Seq<u8>, Seq<u8>, nat);

/// Whether some entry has the digest `d`.
pub open spec fn cached(v: Seq<CachedView>, d: Seq<u8>) -> bool {
    exists|i: int| 0 <= i < v.len() && (#[trigger] v[i]).0 == d
}

/// The index of the entry with digest `d`, where there is one.
pub open spec fn cached_index(v: Seq<CachedView>, d: Seq<u8>) -> int {
    choose|i: int| 0 <= i < v.len() && (#[trigger] v[i]).0 == d
}

/// The entries with `e` cached: it replaces the entry with its digest, or
/// comes last.
pub open spec fn upsert(v: Seq<CachedView>, e: CachedView) -> Seq<CachedView> {
    if cached(v, e.0) {
        v.update(cached_index(v, e.0), e)
    } else {
        v.push(e)
    }
}

/// Whether entry `k` has been looked up no more often than any other.
pub open spec fn least_used(v: Seq<CachedView>, k: int) -> bool {
    &&& 0 <= k < v.len()
    &&& forall|j: int| 0 <= j < v.len() ==> v[k].2 <= (#[trigger] v[j]).2
}

/// Holds the inputs whose digests were computed, up to a maximum number; when
/// full, inserting evicts an input looked up least often.
#[derive(Debug)]
pub struct HashCache {
    entries: Vec<CachedInput>,
    max_size: usize,
}

impl View for HashCache {
    type V = Seq<CachedView>;

    closed spec fn view(&self) -> Seq<CachedView> {
        self.entries@.map_values(|e: CachedInput| (e.digest@, e.data@, e.count as nat))
    }
}

impl HashCache {
    /// The number of inputs at which inserting first evicts one.
    pub closed spec fn max_size(&self) -> nat {
        self.max_size as nat
    }

    /// No two entries share a digest.
    pub closed spec fn well_formed(&self) -> bool {
        forall|i: int, j: int| 0 <= i < j < self.entries@.len()
            ==> (#[trigger] self.entries@[i]).digest@ != (#[trigger] self.entries@[j]).digest@
    }

    /// An empty cache for up to `max_size` inputs.
    pub fn new(max_size: usize) -> (r: Self)
        ensures
            r.well_formed(),
            r@ == Seq::<CachedView>::empty(),
            r.max_size() == max_size,
    {
        let r = HashCache { entries: Vec::new(), max_size };
        assert(r@ =~= Seq::<CachedView>::empty());
        r
    }

    fn position(&self, digest: &Sha256Digest) -> (r: Option<usize>)
        requires
            self.well_formed(),
        ensures
            r is None <==> !cached(self@, digest@),
            r matches Some(i) ==> i < self@.len() && self@[i as int].0 == digest@ && cached_index(self@, digest@) == i,
    {
        let mut i: usize = 0;
        while i < self.entries.len()
            invariant
                i <= self.entries@.len(),
                self.well_formed(),
                forall|j: int| 0 <= j < i ==> (#[trigger] self.entries@[j]).digest@ != digest@,
            decreases self.entries@.len() - i,
        {
            if self.entries[i].digest == *digest {
                proof {
                    assert(self@[i as int].0 == digest@);
                    let c = cached_index(self@, digest@);
                    assert(self@[c].0 == digest@);
                    if c != i as int {
                        if c < i as int {
                            assert(self.entries@[c].digest@ != digest@);
                        } else {
                            assert(self.entries@[i as int].digest@ != self.entries@[c].digest@);
                        }
                    }
                }
                return Some(i);
            }
            i = i + 1;
        }
        proof {
            assert forall|j: int| 0 <= j < self@.len() implies (#[trigger] self@[j]).0 != digest@ by {
                assert(self.entries@[j].digest@ != digest@);
            }
        }
        None
    }

    fn least_used_index(&self) -> (k: usize)
        requires
            self@.len() > 0,
        ensures
            least_used(self@, k as int),
    {
        let mut best: usize = 0;
        let mut i: usize = 1;
        while i < self.entries.len()
            invariant
                1 <= i <= self.entries@.len(),
                best < i,
                forall|j: int| 0 <= j < i ==> self.entries@[best as int].count <= (#[trigger] self.entries@[j]).count,
            decreases self.entries@.len() - i,
        {
            if self.entries[i].count < self.entries[best].count {
                best = i;
            }
            i = i + 1;
        }
        proof {
            assert forall|j: int| 0 <= j < self@.len() implies self@[best as int].2 <= (#[trigger] self@[j]).2 by {
                assert(self.entries@[best as int].count <= self.entries@[j].count);
            }
        }
        best
    }

    /// Caches `data` under its digest, which it returns, with one look-up,
    /// in place of an entry with the same digest. When the cache already holds
    /// `max_size` inputs or more, one of those looked up least often is evicted
    /// first.
    pub fn insert(&mut self, data: &[u8]) -> (r: Sha256Digest)
        requires
            old(self).well_formed(),
        ensures
            final(self).well_formed(),
            final(self).max_size() == old(self).max_size(),
            r@ == sha256_spec(data@),
            old(self)@.len() >= old(self).max_size() && old(self)@.len() > 0 ==> exists|k: int|
                #[trigger] least_used(old(self)@, k) && final(self)@ == upsert(old(self)@.remove(k), (r@, data@, 1nat)),
            !(old(self)@.len() >= old(self).max_size() && old(self)@.len() > 0)
                ==> final(self)@ == upsert(old(self)@, (r@, data@, 1nat)),
    {
        let digest = sha256(data);
        let ghost before = self@;
        if self.entries.len() >= self.max_size && self.entries.len() > 0 {
            let k = self.least_used_index();
            let ghost old_entries = self.entries@;
            self.entries.remove(k);
            proof {
                assert(self@ =~= before.remove(k as int));
                assert forall|x: int, y: int| 0 <= x < y < self.entries@.len()
                    implies (#[trigger] self.entries@[x]).digest@ != (#[trigger] self.entries@[y]).digest@ by {
                    let ox = if x < k as int { x } else { x + 1 };
                    let oy = if y < k as int { y } else { y + 1 };
                    assert(self.entries@[x] == old_entries[ox]);
                    assert(self.entries@[y] == old_entries[oy]);
                    assert(old_entries[ox].digest@ != old_entries[oy].digest@);
                }
                assert(least_used(before, k as int));
            }
        }
        let ghost mid = self@;
        let entry = CachedInput { digest, data: vstd::slice::slice_to_vec(data), count: 1 };
        match self.position(&digest) {
            Some(i) => {
                let ghost mid_entries = self.entries@;
                self.entries.set(i, entry);
                proof {
                    assert(self@ =~= mid.update(i as int, (digest@, data@, 1nat)));
                    assert forall|x: int, y: int| 0 <= x < y < self.entries@.len()
                        implies (#[trigger] self.entries@[x]).digest@ != (#[trigger] self.entries@[y]).digest@ by {
                        if x != i as int && y != i as int {
                            assert(mid_entries[x].digest@ != mid_entries[y].digest@);
                        } else if x == i as int {
                            assert(mid_entries[x].digest@ != mid_entries[y].digest@);
                        } else {
                            assert(mid_entries[x].digest@ != mid_entries[y].digest@);
                        }
                    }
                }
            },
            None => {
                let ghost mid_entries = self.entries@;
                self.entries.push(entry);
                proof {
                    assert(self@ =~= mid.push((digest@, data@, 1nat)));
                    assert forall|x: int, y: int| 0 <= x < y < self.entries@.len()
                        implies (#[trigger] self.entries@[x]).digest@ != (#[trigger] self.entries@[y]).digest@ by {
                        if y < mid_entries.len() {
                            assert(mid_entries[x].digest@ != mid_entries[y].digest@);
                        } else {
                            assert(mid[x].0 != digest@);
                        }
                    }
                }
            },
        }
        digest
    }

    /// Empties the cache.
    pub fn clear(&mut self)
        ensures
            final(self).well_formed(),
            final(self).max_size() == old(self).max_size(),
            final(self)@ == Seq::<CachedView>::empty(),
    {
        self.entries.clear();
        assert(self@ =~= Seq::<CachedView>::empty());
    }

    /// The digest of `data` where the cache holds it, counting the look-up;
    /// `None` otherwise. A count already at the largest `usize` is left out.
    pub fn get(&mut self, data: &[u8]) -> (r: Option<Sha256Digest>)
        requires
            old(self).well_formed(),
            forall|i: int| 0 <= i < old(self)@.len() ==> (#[trigger] old(self)@[i]).2 < usize::MAX,
        ensures
            final(self).well_formed(),
            final(self).max_size() == old(self).max_size(),
            r is Some <==> cached(old(self)@, sha256_spec(data@)),
            r matches Some(d) ==> d@ == sha256_spec(data@),
            final(self)@.len() == old(self)@.len(),
            forall|i: int| 0 <= i < old(self)@.len() ==> #[trigger] final(self)@[i] == if old(self)@[i].0 == sha256_spec(data@) {
                (old(self)@[i].0, old(self)@[i].1, old(self)@[i].2 + 1)
            } else {
                old(self)@[i]
            },
    {
        let digest = sha256(data);
        match self.position(&digest) {
            Some(i) => {
                let ghost before = self@;
                assert(before[i as int].2 < usize::MAX);
                let count = self.entries[i].count;
                self.entries[i].count = count + 1;
                proof {
                    assert forall|j: int| 0 <= j < before.len() implies #[trigger] self@[j] == if before[j].0 == digest@ {
                        (before[j].0, before[j].1, before[j].2 + 1)
                    } else {
                        before[j]
                    } by {
                        if j != i as int {
                            assert(self.entries@[j] == old(self).entries@[j]);
                            if j < i as int {
                                assert(old(self).entries@[j].digest@ != old(self).entries@[i as int].digest@);
                            } else {
                                assert(old(self).entries@[i as int].digest@ != old(self).entries@[j].digest@);
                            }
                        }
                    }
                    assert forall|x: int, y: int| 0 <= x < y < self.entries@.len()
                        implies (#[trigger] self.entries@[x]).digest@ != (#[trigger] self.entries@[y]).digest@ by {
                        assert(self.entries@[x].digest@ == old(self).entries@[x].digest@);
                        assert(self.entries@[y].digest@ == old(self).entries@[y].digest@);
                        assert(old(self).entries@[x].digest@ != old(self).entries@[y].digest@);
                    }
                }
                Some(digest)
            },
            None => {
                proof {
                    assert forall|j: int| 0 <= j < old(self)@.len() implies old(self)@[j].0 != sha256_spec(data@) by {
                        if old(self)@[j].0 == sha256_spec(data@) {
                            assert(cached(old(self)@, sha256_spec(data@)));
                        }
                    }
                }
                None
            },
        }
    }
}

} // verus!
