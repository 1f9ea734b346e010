use ink_receipts::proofmail::packet::{compute_packet_hash, create_packet_manifest, PacketManifest};
use ink_receipts::proofmail::store::PacketRecords;
use ink_receipts::receipt_v2::json::JsonValue;

#[test]
fn test_in_memory_stores() {
    let mut packet_store: PacketRecords<PacketManifest> = PacketRecords::new();

    let receipt = JsonValue::Object(vec![("receipt_id".to_string(), JsonValue::String("test".to_string()))]);
    let receipt_bytes = br#"{"receipt_id":"test"}"#;
    let attachments = vec![("test.txt".to_string(), b"test".to_vec())];
    let mut packet = create_packet_manifest("issuer", &receipt, receipt_bytes, &attachments);
    packet.integrity.hash = compute_packet_hash(b"manifest", b"recipients", receipt_bytes, &attachments);
    let packet_id = packet.packet_id.clone();
    let hash = packet.integrity.hash.clone();

    // Store packet
    let stored_id = packet_store.store(packet_id.clone(), packet, hash.clone());
    assert_eq!(stored_id, packet_id);

    // Verify hash
    assert_eq!(packet_store.get_hash(&packet_id), Some(hash.as_str()));

    // Retrieve packet
    let retrieved = packet_store.get(&packet_id).unwrap();
    assert_eq!(retrieved.packet_id, packet_id);
    assert!(packet_store.get("urn:proofmail:packet:missing").is_none());
}

#[test]
fn storing_again_under_an_identifier_replaces_the_packet() {
    let mut store: PacketRecords<u32> = PacketRecords::new();
    store.store("a".to_string(), 1, "h1".to_string());
    store.store("b".to_string(), 2, "h2".to_string());
    store.store("a".to_string(), 3, "h3".to_string());
    assert_eq!(store.get("a"), Some(&3));
    assert_eq!(store.get_hash("a"), Some("h3"));
    assert_eq!(store.get("b"), Some(&2));
    assert_eq!(store.get_hash("c"), None);
}
