use ink_receipts::digest::{parallel_sha256, sha256, BatchHasher, HashCache, StreamingHasher};
use sha2::Digest;

fn hex(bytes: &[u8]) -> String {
    bytes.iter().map(|b| format!("{:02x}", b)).collect()
}

#[test]
fn sha256_of_abc_is_the_standard_digest() {
    assert_eq!(
        hex(&sha256(b"abc").0),
        "ba7816bf8f01cfea414140de5dae2223b00361a396177a9cb410ff61f20015ad"
    );
}

#[test]
fn parallel_sha256_keeps_the_order_of_inputs() {
    let inputs: Vec<&[u8]> = vec![b"abc", b"", b"abc"];
    let digests = parallel_sha256(&inputs);
    assert_eq!(digests.len(), 3);
    assert_eq!(digests[0], sha256(b"abc"));
    assert_eq!(digests[1], sha256(b""));
    assert_eq!(digests[2], digests[0]);
    assert_eq!(
        hex(&digests[1].0),
        "e3b0c44298fc1c149afbf4c8996fb92427ae41e4649b934ca495991b7852b855"
    );
}

#[test]
fn hash_cache_finds_only_what_was_inserted() {
    let mut cache = HashCache::new(4);
    assert_eq!(cache.get(b"one"), None);
    let d = cache.insert(b"one");
    assert_eq!(d, sha256(b"one"));
    assert_eq!(cache.get(b"one"), Some(d));
    assert_eq!(cache.get(b"two"), None);
}

#[test]
fn hash_cache_evicts_the_least_used_input_when_full() {
    let mut cache = HashCache::new(2);
    cache.insert(b"a");
    cache.insert(b"b");
    assert!(cache.get(b"a").is_some());
    cache.insert(b"c");
    assert_eq!(cache.get(b"b"), None);
    assert!(cache.get(b"a").is_some());
    assert!(cache.get(b"c").is_some());
}

#[test]
fn hash_cache_clear_forgets_everything() {
    let mut cache = HashCache::new(2);
    cache.insert(b"a");
    cache.clear();
    assert_eq!(cache.get(b"a"), None);
}

#[test]
fn streaming_hasher_digests_everything_fed() {
    let mut hasher = StreamingHasher::new();
    assert_eq!(hasher.current_hash().0, sha2::Sha256::digest(b"").as_slice());
    hasher.update(b"ab");
    hasher.update(b"c");
    assert_eq!(hasher.current_hash().0, sha2::Sha256::digest(b"abc").as_slice());
    hasher.update(b"d");
    assert_eq!(hasher.finalize().0, sha2::Sha256::digest(b"abcd").as_slice());

    let mut again = StreamingHasher::new();
    again.update(b"discarded");
    again.reset();
    again.update(b"abc");
    assert_eq!(again.finalize().0, sha256(b"abc").0);
}

#[test]
fn batch_hasher_digests_each_input_in_order() {
    let inputs: Vec<&[u8]> = vec![b"abc", b"", b"abcd"];
    for parallel in [false, true] {
        let hasher = BatchHasher::new(2, parallel);
        let out = hasher.hash_batch(&inputs);
        assert_eq!(out.len(), 3);
        for (digest, input) in out.iter().zip(inputs.iter()) {
            assert_eq!(digest.0, sha256(input).0);
        }
    }
}
