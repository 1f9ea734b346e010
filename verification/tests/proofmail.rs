use ink_receipts::proofmail::delivery::{
    build_email_body, deliver_packet, email_subject, status_from_entries, EmailAdapter, SmtpAdapter,
    TransactionalEmailAdapter,
};
use ink_receipts::proofmail::packet::{compute_packet_hash, create_packet_manifest, packet_manifest, packet_receipt_id};
use ink_receipts::proofmail::{
    decimal_text, AuditStore, DeliveryAuditEntry, DeliveryStatus, EmailError, InMemoryAuditStore, Recipient,
    RecipientRole, TransactionalProvider,
};
use ink_receipts::receipt_v2::json::JsonValue;
use sha2::Digest;

fn receipt(id: &str) -> JsonValue {
    JsonValue::Object(vec![
        ("schema".to_string(), JsonValue::String("ink.receipt.v2".to_string())),
        ("receipt_id".to_string(), JsonValue::String(id.to_string())),
    ])
}

fn recipient(id: &str, email: &str) -> Recipient {
    Recipient {
        recipient_id: id.to_string(),
        email: email.to_string(),
        name: None,
        role: RecipientRole::PrimaryReviewer,
        delivery_status: DeliveryStatus::Pending,
    }
}

fn sha_text(data: &[u8]) -> String {
    format!("sha256:{}", hex::encode(sha2::Sha256::digest(data)))
}

#[test]
fn test_create_packet() {
    let receipt = receipt("urn:ink:receipt:test-123");
    let attachments = vec![("evidence.pdf".to_string(), b"fake pdf content".to_vec())];
    let manifest = create_packet_manifest("test-issuer", &receipt, b"{}", &attachments);
    assert_eq!(manifest.schema, "proofmail.packet.v1");
    assert_eq!(manifest.receipt_id, "urn:ink:receipt:test-123");
    assert_eq!(manifest.attachments.len(), 1);
    assert_eq!(manifest.attachments[0].content_type, "application/pdf");
    assert_eq!(manifest.attachments[0].size_bytes, 16);
    assert_eq!(manifest.attachments[0].sha256, sha_text(b"fake pdf content"));
    assert!(manifest.packet_id.starts_with(&format!("urn:proofmail:packet:{}:", manifest.created_at)));
    let hash = compute_packet_hash(b"manifest", b"recipients", b"{}", &attachments);
    assert!(!hash.is_empty());
}

#[test]
fn test_packet_integrity_hash_is_stable_for_the_packet() {
    let attachments = vec![
        ("b.txt".to_string(), b"content b".to_vec()),
        ("a.txt".to_string(), b"content a".to_vec()),
    ];
    let first = compute_packet_hash(b"m", b"r", b"x", &attachments);
    assert_eq!(first, compute_packet_hash(b"m", b"r", b"x", &attachments));
    let mut tampered = attachments.clone();
    tampered.push(("c.txt".to_string(), b"content c".to_vec()));
    assert_ne!(first, compute_packet_hash(b"m", b"r", b"x", &tampered));
    assert_eq!(first, sha_text(b"mrxcontent acontent b"));
}

#[test]
fn attachments_are_listed_by_name() {
    let attachments = vec![
        ("zeta.json".to_string(), b"{}".to_vec()),
        ("alpha.txt".to_string(), b"hello".to_vec()),
        ("Beta.yaml".to_string(), b"a: 1".to_vec()),
    ];
    let manifest = packet_manifest(1700000000, "abc", "issuer", &receipt("r-1"), b"{\"receipt_id\":\"r-1\"}", &attachments);
    let names: Vec<&str> = manifest.attachments.iter().map(|a| a.name.as_str()).collect();
    assert_eq!(names, vec!["Beta.yaml", "alpha.txt", "zeta.json"]);
    assert_eq!(manifest.packet_id, "urn:proofmail:packet:1700000000:abc");
    assert_eq!(manifest.created_at, 1700000000);
    assert_eq!(manifest.receipt_hash, sha_text(b"{\"receipt_id\":\"r-1\"}"));
    assert_eq!(manifest.integrity.algorithm, "sha256");
    assert_eq!(manifest.integrity.hash, "");
}

#[test]
fn receipt_id_falls_back_to_unknown() {
    assert_eq!(packet_receipt_id(&receipt("x-1")), "x-1");
    assert_eq!(packet_receipt_id(&JsonValue::Null), "unknown");
    assert_eq!(
        packet_receipt_id(&JsonValue::Object(vec![("receipt_id".to_string(), JsonValue::Number("7".to_string()))])),
        "unknown"
    );
}

#[test]
fn decimal_text_writes_numbers() {
    assert_eq!(decimal_text(0), "0");
    assert_eq!(decimal_text(7), "7");
    assert_eq!(decimal_text(1234567890), "1234567890");
    assert_eq!(decimal_text(u64::MAX), u64::MAX.to_string());
}

fn entry(packet: &str, recipient: &str, timestamp: u64, status: DeliveryStatus) -> DeliveryAuditEntry {
    DeliveryAuditEntry {
        audit_id: format!("audit-{recipient}-{timestamp}"),
        packet_id: packet.to_string(),
        recipient_id: recipient.to_string(),
        timestamp,
        attempt: 1,
        status,
        smtp_response: None,
        error: None,
        message_id: None,
    }
}

#[test]
fn in_memory_audit_store_returns_what_was_appended() {
    let mut store = InMemoryAuditStore::new();
    store.append(&entry("p1", "a", 1, DeliveryStatus::Pending)).unwrap();
    store.append(&entry("p2", "a", 2, DeliveryStatus::Pending)).unwrap();
    store.append(&entry("p1", "b", 3, DeliveryStatus::Sent)).unwrap();
    let for_p1 = store.get_for_packet("p1").unwrap();
    assert_eq!(for_p1.len(), 2);
    assert_eq!(for_p1[0].recipient_id, "a");
    assert_eq!(for_p1[1].status, DeliveryStatus::Sent);
    let for_a = store.get_for_recipient("a").unwrap();
    assert_eq!(for_a.len(), 2);
    assert_eq!(for_a[1].packet_id, "p2");
    assert!(store.get_for_packet("p3").unwrap().is_empty());
}

#[test]
fn send_status_keeps_latest_status_per_recipient() {
    let entries = vec![
        entry("p", "a", 1, DeliveryStatus::Pending),
        entry("p", "b", 1, DeliveryStatus::Pending),
        entry("p", "a", 2, DeliveryStatus::Delivered),
        entry("p", "b", 2, DeliveryStatus::Bounced),
        entry("p", "c", 0, DeliveryStatus::Sent),
    ];
    let status = status_from_entries("p", &entries, 99).unwrap();
    assert_eq!(status.total_recipients, 2);
    assert_eq!(status.sent_count, 1);
    assert_eq!(status.delivered_count, 1);
    assert_eq!(status.failed_count, 1);
    assert_eq!(status.pending_count, 0);
    assert_eq!(status.last_updated, 99);
    assert_eq!(
        status.recipient_statuses,
        vec![("a".to_string(), DeliveryStatus::Delivered), ("b".to_string(), DeliveryStatus::Bounced)]
    );
    assert!(status_from_entries("p", &Vec::new(), 1).is_none());
}

struct RefusingAdapter;

impl EmailAdapter for RefusingAdapter {
    fn send(
        &self,
        _to: &[String],
        _subject: &str,
        _body: &str,
        _attachments: &[ink_receipts::proofmail::EmailAttachment],
    ) -> Result<ink_receipts::proofmail::EmailSendResult, EmailError> {
        Err(EmailError::Connection("refused".to_string()))
    }

    fn health(&self) -> Result<ink_receipts::proofmail::AdapterHealth, EmailError> {
        Err(EmailError::Config("none".to_string()))
    }
}

fn smtp() -> SmtpAdapter {
    SmtpAdapter {
        host: "mail.example".to_string(),
        port: 587,
        username: "u".to_string(),
        password: "SECRET-REDACTED".to_string(),
        use_tls: true,
        timeout_seconds: 5,
    }
}

#[test]
fn delivering_records_each_attempt() {
    let manifest = packet_manifest(1700000000, "abc", "issuer", &receipt("r-9"), b"{}", &[]);
    let recipients = vec![recipient("rec-1", "a@example.com"), recipient("rec-2", "b@example.com")];
    let mut audit = InMemoryAuditStore::new();
    let status = deliver_packet(&smtp(), &mut audit, &manifest, &recipients, &[]).unwrap();
    assert_eq!(status.total_recipients, 2);
    assert_eq!(status.sent_count, 2);
    assert_eq!(status.pending_count, 0);
    let trail = audit.get_for_packet(&manifest.packet_id).unwrap();
    assert_eq!(trail.len(), 4);
    assert_eq!(trail[0].status, DeliveryStatus::Pending);
    assert_eq!(trail[1].status, DeliveryStatus::Sent);
    assert!(trail[1].message_id.as_ref().unwrap().ends_with("@proofmail.local>"));
    assert_eq!(trail[1].smtp_response.as_ref().unwrap().code, 250);

    let mut audit = InMemoryAuditStore::new();
    let status = deliver_packet(&RefusingAdapter, &mut audit, &manifest, &recipients, &[]).unwrap();
    assert_eq!(status.failed_count, 2);
    assert_eq!(status.sent_count, 0);
    let trail = audit.get_for_recipient("rec-2").unwrap();
    assert_eq!(trail[1].status, DeliveryStatus::Failed);
    assert_eq!(trail[1].error.as_deref(), Some("Connection error: refused"));
}

#[test]
fn mail_text_names_the_packet() {
    let manifest = packet_manifest(0, "abc", "issuer", &receipt("r-5"), b"{}", &[]);
    assert_eq!(email_subject(&manifest), "MAND8 Verification Packet: r-5");
    let body = build_email_body(&manifest);
    assert!(body.starts_with("MAND8 Verification Packet Delivery\n\nPacket ID: urn:proofmail:packet:0:abc\n"));
    assert!(body.contains("Created: 1970-01-01T00:00:00+00:00\n"));
    assert!(body.contains("Attachments: 0\n"));
    assert!(body.ends_with("ProofMail service.\n"));
}

#[test]
fn adapters_report_health() {
    assert_eq!(smtp().health().unwrap().detail, "SMTP adapter for mail.example:587");
    let transactional = TransactionalEmailAdapter {
        provider: TransactionalProvider::AmazonSes,
        api_key: "SECRET-REDACTED".to_string(),
        from_email: "f@example.com".to_string(),
        from_name: "F".to_string(),
        timeout_seconds: 3,
    };
    assert_eq!(transactional.health().unwrap().detail, "Transactional adapter: AmazonSes");
    let sent = transactional.send(&["x@example.com".to_string()], "s", "b", &[]).unwrap();
    assert_eq!(sent.accepted_recipients, vec!["x@example.com".to_string()]);
    assert!(sent.rejected_recipients.is_empty());
}

#[test]
fn delivering_to_nobody_sends_nothing() {
    let manifest = packet_manifest(1700000000, "abc", "issuer", &receipt("r-0"), b"{}", &[]);
    let mut audit = InMemoryAuditStore::new();
    let status = deliver_packet(&RefusingAdapter, &mut audit, &manifest, &[], &[]).unwrap();
    assert_eq!(status.packet_id, manifest.packet_id);
    assert_eq!(status.total_recipients, 0);
    assert_eq!(status.sent_count, 0);
    assert_eq!(status.failed_count, 0);
    assert_eq!(status.pending_count, 0);
    assert!(status.recipient_statuses.is_empty());
    assert!(audit.get_for_packet(&manifest.packet_id).unwrap().is_empty());
}

struct RecordingAdapter {
    sent: std::cell::RefCell<Vec<(Vec<String>, String, String)>>,
}

impl EmailAdapter for RecordingAdapter {
    fn send(
        &self,
        to: &[String],
        subject: &str,
        body: &str,
        _attachments: &[ink_receipts::proofmail::EmailAttachment],
    ) -> Result<ink_receipts::proofmail::EmailSendResult, EmailError> {
        self.sent.borrow_mut().push((to.to_vec(), subject.to_string(), body.to_string()));
        smtp().send(to, subject, body, &[])
    }

    fn health(&self) -> Result<ink_receipts::proofmail::AdapterHealth, EmailError> {
        smtp().health()
    }
}

#[test]
fn delivery_mails_each_recipient_the_packet_subject_and_body() {
    let manifest = packet_manifest(1700000000, "abc", "issuer", &receipt("r-7"), b"{}", &[]);
    let recipients = vec![recipient("rec-1", "a@example.com"), recipient("rec-2", "b@example.com")];
    let adapter = RecordingAdapter { sent: std::cell::RefCell::new(Vec::new()) };
    let mut audit = InMemoryAuditStore::new();
    let status = deliver_packet(&adapter, &mut audit, &manifest, &recipients, &[]).unwrap();
    assert_eq!(status.sent_count, 2);
    let sent = adapter.sent.borrow();
    assert_eq!(sent.len(), 2);
    assert_eq!(sent[0].0, vec!["a@example.com".to_string()]);
    assert_eq!(sent[1].0, vec!["b@example.com".to_string()]);
    assert_eq!(sent[0].1, "MAND8 Verification Packet: r-7");
    assert_eq!(sent[0].1, email_subject(&manifest));
    assert_eq!(sent[1].2, build_email_body(&manifest));
}
