//! ProofMail: delivering receipts and their evidence as hashed packets, with
//! an append-only audit trail of every delivery attempt.
pub mod packet;
pub mod delivery;
pub mod store;

use vstd::prelude::*;
use crate::receipt_v2::owned_text;
use crate::text::concat;

verus! {

/// `proofmail.packet.v1`
pub const PACKET_SCHEMA_V1: &'static str = "proofmail.packet.v1";
/// `proofmail.recipients.v1`
pub const RECIPIENTS_SCHEMA_V1: &'static str = "proofmail.recipients.v1";

/// The role of a recipient in the review of a packet.
#[derive(Clone, Debug, PartialEq, Eq)]
pub enum RecipientRole {
    PrimaryReviewer,
    SecondaryReviewer,
    ComplianceOfficer,
    Auditor,
    Regulator,
    Other(String),
}

/// Where the delivery of a packet to a recipient stands.
#[derive(Clone, Copy, Debug, PartialEq, Eq, Structural)]
pub enum DeliveryStatus {
    Pending,
    Sent,
    Delivered,
    Opened,
    Failed,
    Bounced,
}

/// One recipient of a packet.
#[derive(Clone, Debug)]
pub struct Recipient {
    pub recipient_id: String,
    pub email: String,
    pub name: Option<String>,
    pub role: RecipientRole,
    pub delivery_status: DeliveryStatus,
}

/// How the content of the mail is protected.
#[derive(Clone, Debug)]
pub enum EncryptionPolicy {
    NoEncryption,
    TlsOnly,
    Pgp { key_id: String },
    Smime { cert_path: String },
}

/// The response of a mail server.
#[derive(Clone, Debug)]
pub struct SmtpResponse {
    pub code: u16,
    pub message: String,
    pub server: String,
}

/// One record of the audit trail: an attempt to deliver a packet to a
/// recipient and how it went.
#[derive(Debug)]
pub struct DeliveryAuditEntry {
    pub audit_id: String,
    pub packet_id: String,
    pub recipient_id: String,
    pub timestamp: u64,
    pub attempt: u32,
    pub status: DeliveryStatus,
    pub smtp_response: Option<SmtpResponse>,
    pub error: Option<String>,
    pub message_id: Option<String>,
}

fn copy_text(s: &String) -> (r: String)
    ensures
        r == *s,
{
    s.clone()
}

fn copy_optional_text(s: &Option<String>) -> (r: Option<String>)
    ensures
        r == *s,
{
    match s {
        Some(t) => Some(copy_text(t)),
        None => None,
    }
}

impl DeliveryAuditEntry {
    /// An equal entry.
    pub fn duplicate(&self) -> (r: Self)
        ensures
            r == *self,
    {
        DeliveryAuditEntry {
            audit_id: copy_text(&self.audit_id),
            packet_id: copy_text(&self.packet_id),
            recipient_id: copy_text(&self.recipient_id),
            timestamp: self.timestamp,
            attempt: self.attempt,
            status: self.status,
            smtp_response: match &self.smtp_response {
                Some(s) => Some(SmtpResponse { code: s.code, message: copy_text(&s.message), server: copy_text(&s.server) }),
                None => None,
            },
            error: copy_optional_text(&self.error),
            message_id: copy_optional_text(&self.message_id),
        }
    }
}

/// A file sent with the mail.
#[derive(Clone, Debug)]
pub struct EmailAttachment {
    pub filename: String,
    pub content_type: String,
    pub data: Vec<u8>,
}

/// What a mail backend reports of a send.
#[derive(Clone, Debug)]
pub struct EmailSendResult {
    pub message_id: String,
    pub accepted_recipients: Vec<String>,
    pub rejected_recipients: Vec<String>,
}

/// The health of a mail backend.
#[derive(Clone, Debug)]
pub struct AdapterHealth {
    pub healthy: bool,
    pub latency_ms: u64,
    pub detail: String,
}

/// Why a mail backend failed.
#[derive(Clone, Debug, PartialEq, Eq)]
pub enum EmailError {
    Smtp(String),
    Connection(String),
    Auth(String),
    InvalidRecipient(String),
    Attachment(String),
    Config(String),
}

impl EmailError {
    /// The error's message: its kind and detail.
    pub fn message(&self) -> (r: String)
        ensures
            r@ == match self {
                EmailError::Smtp(m) => "SMTP error: "@ + m@,
                EmailError::Connection(m) => "Connection error: "@ + m@,
                EmailError::Auth(m) => "Authentication error: "@ + m@,
                EmailError::InvalidRecipient(m) => "Invalid recipient: "@ + m@,
                EmailError::Attachment(m) => "Attachment error: "@ + m@,
                EmailError::Config(m) => "Configuration error: "@ + m@,
            },
    {
        match self {
            EmailError::Smtp(m) => concat("SMTP error: ", m.as_str()),
            EmailError::Connection(m) => concat("Connection error: ", m.as_str()),
            EmailError::Auth(m) => concat("Authentication error: ", m.as_str()),
            EmailError::InvalidRecipient(m) => concat("Invalid recipient: ", m.as_str()),
            EmailError::Attachment(m) => concat("Attachment error: ", m.as_str()),
            EmailError::Config(m) => concat("Configuration error: ", m.as_str()),
        }
    }
}

/// Why the audit store failed.
#[derive(Clone, Debug, PartialEq, Eq)]
pub enum AuditError {
    Storage(String),
    NotFound(String),
}

impl AuditError {
    /// The error's message: its kind and detail.
    pub fn message(&self) -> (r: String)
        ensures
            r@ == match self {
                AuditError::Storage(m) => "Storage error: "@ + m@,
                AuditError::NotFound(m) => "Not found: "@ + m@,
            },
    {
        match self {
            AuditError::Storage(m) => concat("Storage error: ", m.as_str()),
            AuditError::NotFound(m) => concat("Not found: ", m.as_str()),
        }
    }
}

/// Why the packet store failed.
#[derive(Clone, Debug, PartialEq, Eq)]
pub enum PacketError {
    Storage(String),
    NotFound(String),
    HashMismatch(String),
}

impl PacketError {
    /// The error's message: its kind and detail.
    pub fn message(&self) -> (r: String)
        ensures
            r@ == match self {
                PacketError::Storage(m) => "Storage error: "@ + m@,
                PacketError::NotFound(m) => "Not found: "@ + m@,
                PacketError::HashMismatch(m) => "Hash mismatch: "@ + m@,
            },
    {
        match self {
            PacketError::Storage(m) => concat("Storage error: ", m.as_str()),
            PacketError::NotFound(m) => concat("Not found: ", m.as_str()),
            PacketError::HashMismatch(m) => concat("Hash mismatch: ", m.as_str()),
        }
    }
}

/// The transactional mail services a packet can be sent through.
#[derive(Clone, Copy, Debug, PartialEq, Eq, Structural)]
pub enum TransactionalProvider {
    SendGrid,
    Mailgun,
    AmazonSes,
    Postmark,
    Resend,
}

/// The name of a transactional mail service.
pub open spec fn provider_name(p: TransactionalProvider) -> Seq<char> {
    match p {
        TransactionalProvider::SendGrid => "SendGrid"@,
        TransactionalProvider::Mailgun => "Mailgun"@,
        TransactionalProvider::AmazonSes => "AmazonSes"@,
        TransactionalProvider::Postmark => "Postmark"@,
        TransactionalProvider::Resend => "Resend"@,
    }
}

impl TransactionalProvider {
    /// The provider's name.
    pub fn name(self) -> (r: &'static str)
        ensures
            r@ == provider_name(self),
    {
        match self {
            TransactionalProvider::SendGrid => "SendGrid",
            TransactionalProvider::Mailgun => "Mailgun",
            TransactionalProvider::AmazonSes => "AmazonSes",
            TransactionalProvider::Postmark => "Postmark",
            TransactionalProvider::Resend => "Resend",
        }
    }
}

/// A store of audit entries that only grows.
pub trait AuditStore {
    /// Records an entry.
    fn append(&mut self, entry: &DeliveryAuditEntry) -> Result<(), AuditError>;

    /// The entries recorded for a packet, in the order recorded.
    fn get_for_packet(&self, packet_id: &str) -> Result<Vec<DeliveryAuditEntry>, AuditError>;

    /// The entries recorded for a recipient, in the order recorded.
    fn get_for_recipient(&self, recipient_id: &str) -> Result<Vec<DeliveryAuditEntry>, AuditError>;
}

/// An audit store held in memory.
pub struct InMemoryAuditStore {
    entries: Vec<DeliveryAuditEntry>,
}

impl View for InMemoryAuditStore {
    type V = Seq<DeliveryAuditEntry>;

    closed spec fn view(&self) -> Seq<DeliveryAuditEntry> {
        self.entries@
    }
}

/// The entries of `entries` for `packet_id`, in order.
pub open spec fn entries_for_packet(entries: Seq<DeliveryAuditEntry>, packet_id: Seq<char>) -> Seq<DeliveryAuditEntry> {
    entries.filter(|e: DeliveryAuditEntry| e.packet_id@ == packet_id)
}

/// The entries of `entries` for `recipient_id`, in order.
pub open spec fn entries_for_recipient(entries: Seq<DeliveryAuditEntry>, recipient_id: Seq<char>) -> Seq<DeliveryAuditEntry> {
    entries.filter(|e: DeliveryAuditEntry| e.recipient_id@ == recipient_id)
}

impl InMemoryAuditStore {
    /// An empty store.
    pub fn new() -> (r: Self)
        ensures
            r@ == Seq::<DeliveryAuditEntry>::empty(),
    {
        InMemoryAuditStore { entries: Vec::new() }
    }
}

impl AuditStore for InMemoryAuditStore {
    fn append(&mut self, entry: &DeliveryAuditEntry) -> (r: Result<(), AuditError>)
        ensures
            r is Ok,
            final(self)@ == old(self)@.push(*entry),
    {
        let copy = entry.duplicate();
        self.entries.push(copy);
        Ok(())
    }

    fn get_for_packet(&self, packet_id: &str) -> (r: Result<Vec<DeliveryAuditEntry>, AuditError>)
        ensures
            r matches Ok(v) && v@ == entries_for_packet(self@, packet_id@),
    {
        let ghost pred = |e: DeliveryAuditEntry| e.packet_id@ == packet_id@;
        let mut out: Vec<DeliveryAuditEntry> = Vec::new();
        let mut i: usize = 0;
        assert(self.entries@.take(0) =~= Seq::<DeliveryAuditEntry>::empty());
        proof {
            reveal(Seq::filter);
        }
        while i < self.entries.len()
            invariant
                i <= self.entries@.len(),
                pred == (|e: DeliveryAuditEntry| e.packet_id@ == packet_id@),
                out@ == self.entries@.take(i as int).filter(pred),
            decreases self.entries@.len() - i,
        {
            let e = &self.entries[i];
            proof {
                assert(self.entries@.take(i + 1) =~= self.entries@.take(i as int).push(self.entries@[i as int]));
                self.entries@.take(i as int).lemma_filter_push(self.entries@[i as int], pred);
            }
            if crate::bytes::str_eq(e.packet_id.as_str(), packet_id) {
                out.push(e.duplicate());
            }
            i = i + 1;
        }
        assert(self.entries@.take(self.entries@.len() as int) =~= self.entries@);
        Ok(out)
    }

    fn get_for_recipient(&self, recipient_id: &str) -> (r: Result<Vec<DeliveryAuditEntry>, AuditError>)
        ensures
            r matches Ok(v) && v@ == entries_for_recipient(self@, recipient_id@),
    {
        let ghost pred = |e: DeliveryAuditEntry| e.recipient_id@ == recipient_id@;
        let mut out: Vec<DeliveryAuditEntry> = Vec::new();
        let mut i: usize = 0;
        assert(self.entries@.take(0) =~= Seq::<DeliveryAuditEntry>::empty());
        proof {
            reveal(Seq::filter);
        }
        while i < self.entries.len()
            invariant
                i <= self.entries@.len(),
                pred == (|e: DeliveryAuditEntry| e.recipient_id@ == recipient_id@),
                out@ == self.entries@.take(i as int).filter(pred),
            decreases self.entries@.len() - i,
        {
            let e = &self.entries[i];
            proof {
                assert(self.entries@.take(i + 1) =~= self.entries@.take(i as int).push(self.entries@[i as int]));
                self.entries@.take(i as int).lemma_filter_push(self.entries@[i as int], pred);
            }
            if crate::bytes::str_eq(e.recipient_id.as_str(), recipient_id) {
                out.push(e.duplicate());
            }
            i = i + 1;
        }
        assert(self.entries@.take(self.entries@.len() as int) =~= self.entries@);
        Ok(out)
    }
}

/// The text of a number in decimal.
pub open spec fn decimal(n: nat) -> Seq<char>
    decreases n,
{
    if n < 10 {
        seq![digit_char(n)]
    } else {
        decimal(n / 10).push(digit_char(n % 10))
    }
}

/// The decimal digit for `d`, below ten.
pub open spec fn digit_char(d: nat) -> char {
    (48 + d) as char
}

fn digit_text(d: u8) -> (r: &'static str)
    requires
        d < 10,
    ensures
        r@ == seq![digit_char(d as nat)],
{
    proof {
        reveal_strlit("0");
        reveal_strlit("1");
        reveal_strlit("2");
        reveal_strlit("3");
        reveal_strlit("4");
        reveal_strlit("5");
        reveal_strlit("6");
        reveal_strlit("7");
        reveal_strlit("8");
        reveal_strlit("9");
    }
    let r = if d == 0 {
        "0"
    } else if d == 1 {
        "1"
    } else if d == 2 {
        "2"
    } else if d == 3 {
        "3"
    } else if d == 4 {
        "4"
    } else if d == 5 {
        "5"
    } else if d == 6 {
        "6"
    } else if d == 7 {
        "7"
    } else if d == 8 {
        "8"
    } else {
        "9"
    };
    assert(r@ =~= seq![digit_char(d as nat)]);
    r
}

/// The decimal text of a number.
pub fn decimal_text(n: u64) -> (r: String)
    ensures
        r@ == decimal(n as nat),
{
    let mut digits: Vec<u8> = Vec::new();
    let mut rest: u64 = n;
    assert(decimal(n as nat) =~= decimal(rest as nat) + digits@.reverse().map_values(|d: u8| digit_char(d as nat)));
    loop
        invariant_except_break
            rest <= n,
            forall|j: int| 0 <= j < digits@.len() ==> #[trigger] digits@[j] < 10,
            decimal(n as nat) == decimal(rest as nat) + digits@.reverse().map_values(|d: u8| digit_char(d as nat)),
        ensures
            forall|j: int| 0 <= j < digits@.len() ==> #[trigger] digits@[j] < 10,
            decimal(n as nat) == digits@.reverse().map_values(|d: u8| digit_char(d as nat)),
        decreases rest,
    {
        let d = (rest % 10) as u8;
        let ghost before = digits@;
        digits.push(d);
        proof {
            assert(digits@.reverse() =~= seq![d] + before.reverse());
            assert(digits@.reverse().map_values(|x: u8| digit_char(x as nat))
                =~= seq![digit_char(d as nat)] + before.reverse().map_values(|x: u8| digit_char(x as nat)));
        }
        if rest < 10 {
            assert(decimal(rest as nat) =~= seq![digit_char(d as nat)]);
            assert(decimal(n as nat) =~= digits@.reverse().map_values(|x: u8| digit_char(x as nat)));
            break;
        }
        proof {
            assert(decimal(rest as nat) == decimal((rest / 10) as nat).push(digit_char(d as nat)));
            assert(decimal((rest / 10) as nat).push(digit_char(d as nat)) + before.reverse().map_values(|x: u8| digit_char(x as nat))
                =~= decimal((rest / 10) as nat) + digits@.reverse().map_values(|x: u8| digit_char(x as nat)));
        }
        rest = rest / 10;
    }
    let ghost chars = digits@.reverse().map_values(|x: u8| digit_char(x as nat));
    let mut out = String::new();
    let mut i: usize = digits.len();
    while i > 0
        invariant
            i <= digits@.len(),
            forall|j: int| 0 <= j < digits@.len() ==> #[trigger] digits@[j] < 10,
            chars == digits@.reverse().map_values(|x: u8| digit_char(x as nat)),
            out@ == chars.subrange(0, digits@.len() - i),
        decreases i,
    {
        i = i - 1;
        let text = digit_text(digits[i]);
        crate::text::push_str(&mut out, text);
        assert(chars[digits@.len() - 1 - i] == digit_char(digits@[i as int] as nat));
        assert(out@ =~= chars.subrange(0, digits@.len() - i));
    }
    assert(chars.subrange(0, digits@.len() as int) =~= chars);
    out
}

} // verus!
