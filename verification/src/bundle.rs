use vstd::prelude::*;
use crate::crypto::sha256_spec;
use crate::error::{Error, Result};
use crate::hash::{labeled_preimage, slices_view};
use crate::kernel::{Digest, MAX_BUNDLE_SIZE};

verus! {

/// `bundle`, the label of a bundle root.
pub const BUNDLE_LABEL: [u8; 6] = [98u8, 117u8, 110u8, 100u8, 108u8, 101u8];

/// The root of a bundle: its receipt hashes, in order, hashed under the label
/// `bundle`.
pub open spec fn bundle_root_spec(hashes: Seq<Seq<u8>>) -> Seq<u8> {
    sha256_spec(labeled_preimage(BUNDLE_LABEL@, hashes))
}

/// The views of a sequence of digests.
pub open spec fn digests_view(ds: Seq<Digest>) -> Seq<Seq<u8>> {
    ds.map_values(|d: Digest| d@)
}

/// The receipt hashes after one `add_receipt` of `h`: appended while the
/// bundle holds fewer than `MAX_BUNDLE_SIZE`, else unchanged.
pub open spec fn bundle_add_step(hashes: Seq<Seq<u8>>, h: Seq<u8>) -> Seq<Seq<u8>> {
    if hashes.len() < MAX_BUNDLE_SIZE { hashes.push(h) } else { hashes }
}

/// The receipt hashes of a new bundle after `add_receipt` of each of `adds`, in turn.
pub open spec fn bundle_after_adds(adds: Seq<Seq<u8>>) -> Seq<Seq<u8>>
    decreases adds.len(),
{
    if adds.len() == 0 {
        Seq::empty()
    } else {
        bundle_add_step(bundle_after_adds(adds.drop_last()), adds.last())
    }
}

/// The receipt hashes of a bundle: at most `MAX_BUNDLE_SIZE`, in the order
/// they were added.
#[derive(Debug)]
pub struct ReceiptHashes {
    hashes: Vec<Digest>,
}

impl View for ReceiptHashes {
    type V = Seq<Seq<u8>>;

    closed spec fn view(&self) -> Seq<Seq<u8>> {
        digests_view(self.hashes@)
    }
}

impl ReceiptHashes {
    #[verifier::type_invariant]
    closed spec fn inv(self) -> bool {
        self.hashes@.len() <= MAX_BUNDLE_SIZE
    }

    /// The hashes in order.
    pub fn as_slice(&self) -> (r: &[Digest])
        ensures
            digests_view(r@) == self@,
            r@.len() <= MAX_BUNDLE_SIZE,
    {
        proof {
            use_type_invariant(self);
        }
        self.hashes.as_slice()
    }
}

impl Clone for ReceiptHashes {
    fn clone(&self) -> (r: Self)
        ensures
            r@ == self@,
    {
        proof {
            use_type_invariant(self);
        }
        ReceiptHashes { hashes: copy_digests(self.hashes.as_slice()) }
    }
}

/// A copy of a list of digests.
pub fn copy_digests(ds: &[Digest]) -> (r: Vec<Digest>)
    ensures
        r@ == ds@,
{
    let mut out: Vec<Digest> = Vec::new();
    let mut i: usize = 0;
    while i < ds.len()
        invariant
            i <= ds@.len(),
            out@ == ds@.subrange(0, i as int),
        decreases ds@.len() - i,
    {
        out.push(ds[i]);
        i = i + 1;
        assert(out@ =~= ds@.subrange(0, i as int));
    }
    assert(ds@.subrange(0, ds@.len() as int) =~= ds@);
    out
}

/// A set of receipt hashes sealed under one root hash.
#[derive(Clone, Debug)]
pub struct Bundle {
    pub root_hash: Digest,
    pub receipt_hashes: ReceiptHashes,
}

impl Bundle {
    /// An empty bundle with a zero root.
    pub fn new() -> (r: Self)
        ensures
            r.root_hash@ == crate::receipt::zero_digest(),
            r.receipt_hashes@ == Seq::<Seq<u8>>::empty(),
    {
        let r = Bundle { root_hash: Digest::zero(), receipt_hashes: ReceiptHashes { hashes: Vec::new() } };
        assert(r.receipt_hashes@ =~= Seq::<Seq<u8>>::empty());
        r
    }

    /// Appends a receipt hash; the hundred-and-first is refused and leaves the
    /// bundle as it was.
    pub fn add_receipt(&mut self, receipt_hash: Digest) -> (r: Result<()>)
        ensures
            old(self).receipt_hashes@.len() >= MAX_BUNDLE_SIZE ==> r == Err::<(), Error>(Error::BundleTooLarge)
                && final(self).receipt_hashes@ == old(self).receipt_hashes@,
            old(self).receipt_hashes@.len() < MAX_BUNDLE_SIZE ==> r is Ok
                && final(self).receipt_hashes@ == old(self).receipt_hashes@.push(receipt_hash@),
            final(self).receipt_hashes@ == bundle_add_step(old(self).receipt_hashes@, receipt_hash@),
            final(self).root_hash == old(self).root_hash,
    {
        proof {
            use_type_invariant(&self.receipt_hashes);
        }
        if self.receipt_hashes.hashes.len() >= MAX_BUNDLE_SIZE {
            return Err(Error::BundleTooLarge);
        }
        let mut hashes = copy_digests(self.receipt_hashes.hashes.as_slice());
        let ghost before = self.receipt_hashes.hashes@;
        hashes.push(receipt_hash);
        self.receipt_hashes = ReceiptHashes { hashes };
        assert(digests_view(before.push(receipt_hash)) =~= digests_view(before).push(receipt_hash@));
        Ok(())
    }

    /// The receipt hashes in order.
    pub fn receipts(&self) -> (r: &[Digest])
        ensures
            digests_view(r@) == self.receipt_hashes@,
            r@.len() <= MAX_BUNDLE_SIZE,
    {
        self.receipt_hashes.as_slice()
    }

    /// The bundle with its root set to the root of its receipt hashes.
    pub fn seal(self) -> (r: Result<Self>)
        ensures
            r matches Ok(b) && b.receipt_hashes@ == self.receipt_hashes@
                && b.root_hash@ == bundle_root_spec(self.receipt_hashes@),
    {
        let root = self.compute_root()?;
        let mut sealed = self;
        sealed.root_hash = root;
        Ok(sealed)
    }

    /// The root of the bundle's receipt hashes.
    pub fn compute_root(&self) -> (r: Result<Digest>)
        ensures
            r matches Ok(d) && d@ == bundle_root_spec(self.receipt_hashes@),
    {
        let hashes = self.receipts();
        let mut parts: Vec<&[u8]> = Vec::new();
        let mut i: usize = 0;
        while i < hashes.len()
            invariant
                i <= hashes@.len(),
                parts@.len() == i,
                forall|j: int| 0 <= j < i ==> #[trigger] parts@[j]@ == hashes@[j]@,
            decreases hashes@.len() - i,
        {
            parts.push(hashes[i].0.as_slice());
            i = i + 1;
        }
        assert(slices_view(parts@) =~= digests_view(hashes@));
        crate::hash::hash_many_labeled(BUNDLE_LABEL.as_slice(), parts.as_slice())
    }
}

impl Default for Bundle {
    fn default() -> (r: Self)
        ensures
            r.root_hash@ == crate::receipt::zero_digest(),
            r.receipt_hashes@ == Seq::<Seq<u8>>::empty(),
    {
        Bundle::new()
    }
}

/// How two bundles differ.
#[derive(Clone, Copy, Debug, PartialEq, Eq, Structural)]
pub struct BundleDiff {
    pub added_count: u8,
    pub removed_count: u8,
    pub reordered: bool,
}

/// The bundle root covers every receipt hash, in order: two different lists
/// of 32-byte receipt hashes (one changed, added, dropped or moved) give roots
/// over different messages, so the roots differ unless SHA-256 collides.
pub proof fn law_bundle_root_binds_hashes(h1: Seq<Seq<u8>>, h2: Seq<Seq<u8>>)
    requires
        forall|j: int| 0 <= j < h1.len() ==> (#[trigger] h1[j]).len() == 32,
        forall|j: int| 0 <= j < h2.len() ==> (#[trigger] h2[j]).len() == 32,
        h1 != h2,
    ensures
        exists|m1: Seq<u8>, m2: Seq<u8>| m1 != m2
            && bundle_root_spec(h1) == sha256_spec(m1)
            && bundle_root_spec(h2) == sha256_spec(m2),
{
    crate::hash::lemma_labeled_preimage_distinct_fixed(BUNDLE_LABEL@, h1, h2, 32);
    let m1 = labeled_preimage(BUNDLE_LABEL@, h1);
    let m2 = labeled_preimage(BUNDLE_LABEL@, h2);
    assert(bundle_root_spec(h1) == sha256_spec(m1));
    assert(bundle_root_spec(h2) == sha256_spec(m2));
}

} // verus!
