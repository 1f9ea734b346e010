//! Delivering a packet: the mail each recipient gets, the audit entries of
//! each attempt, and the send status that sums them up.
use vstd::prelude::*;
use crate::proofmail::packet::PacketManifest;
use crate::proofmail::{
    decimal, decimal_text, AdapterHealth, AuditError, AuditStore, DeliveryAuditEntry, DeliveryStatus, EmailAttachment,
    EmailError, EmailSendResult, PacketError, Recipient, SmtpResponse, TransactionalProvider,
};
use crate::receipt_v2::owned_text;
use crate::text::concat;

verus! {

/// The state of a packet's delivery: how many recipients it has and how many
/// were sent to, delivered to, failed or are pending, when it was last
/// updated, and the latest status of each recipient, in order of first
/// appearance.
#[derive(Debug)]
pub struct SendStatus {
    pub packet_id: String,
    pub total_recipients: usize,
    pub sent_count: usize,
    pub delivered_count: usize,
    pub failed_count: usize,
    pub pending_count: usize,
    pub last_updated: u64,
    pub recipient_statuses: Vec<(String, DeliveryStatus)>,
}

/// Sets the status of recipient `id`: in place where it is listed, at the end
/// where it is not.
pub open spec fn upsert(statuses: Seq<(String, DeliveryStatus)>, id: String, status: DeliveryStatus) -> Seq<(String, DeliveryStatus)>
    decreases statuses.len(),
{
    if statuses.len() == 0 {
        seq![(id, status)]
    } else if statuses[0].0@ == id@ {
        seq![(statuses[0].0, status)] + statuses.drop_first()
    } else {
        seq![statuses[0]] + upsert(statuses.drop_first(), id, status)
    }
}

proof fn lemma_upsert_at(statuses: Seq<(String, DeliveryStatus)>, id: String, status: DeliveryStatus, k: int)
    requires
        0 <= k <= statuses.len(),
        forall|j: int| 0 <= j < k ==> (#[trigger] statuses[j]).0@ != id@,
        k < statuses.len() ==> statuses[k].0@ == id@,
    ensures
        k < statuses.len() ==> upsert(statuses, id, status) == statuses.update(k, (statuses[k].0, status)),
        k == statuses.len() ==> upsert(statuses, id, status) == statuses.push((id, status)),
    decreases statuses.len(),
{
    if statuses.len() > 0 && k > 0 {
        let t = statuses.drop_first();
        assert forall|j: int| 0 <= j < k - 1 implies (#[trigger] t[j]).0@ != id@ by {
            assert(t[j] == statuses[j + 1]);
        }
        if k < statuses.len() {
            assert(t[k - 1] == statuses[k]);
        }
        lemma_upsert_at(t, id, status, k - 1);
        if k < statuses.len() {
            assert(seq![statuses[0]] + t.update(k - 1, (t[k - 1].0, status)) =~= statuses.update(k, (statuses[k].0, status)));
        } else {
            assert(seq![statuses[0]] + t.push((id, status)) =~= statuses.push((id, status)));
        }
    } else if statuses.len() > 0 {
        assert(seq![(statuses[0].0, status)] + statuses.drop_first() =~= statuses.update(0, (statuses[0].0, status)));
    } else {
        assert(seq![(id, status)] =~= statuses.push((id, status)));
    }
}

/// Sets the status of a recipient in a list of statuses.
pub fn upsert_status(statuses: &mut Vec<(String, DeliveryStatus)>, id: &String, status: DeliveryStatus)
    ensures
        final(statuses)@ == upsert(old(statuses)@, *id, status),
{
    let mut k: usize = 0;
    while k < statuses.len()
        invariant_except_break
            k <= statuses@.len(),
            forall|j: int| 0 <= j < k ==> (#[trigger] statuses@[j]).0@ != id@,
        ensures
            k <= statuses@.len(),
            forall|j: int| 0 <= j < k ==> (#[trigger] statuses@[j]).0@ != id@,
            k < statuses@.len() ==> statuses@[k as int].0@ == id@,
        decreases statuses@.len() - k,
    {
        if crate::bytes::str_eq(statuses[k].0.as_str(), id.as_str()) {
            break;
        }
        k = k + 1;
    }
    proof {
        lemma_upsert_at(statuses@, *id, status, k as int);
    }
    if k < statuses.len() {
        let name = statuses[k].0.clone();
        statuses.set(k, (name, status));
    } else {
        statuses.push((id.clone(), status));
    }
}

/// The latest status of each recipient that the entries stamped with a time
/// record, in order of first appearance.
pub open spec fn statuses_of(entries: Seq<DeliveryAuditEntry>) -> Seq<(String, DeliveryStatus)>
    decreases entries.len(),
{
    if entries.len() == 0 {
        Seq::empty()
    } else if entries.last().timestamp > 0 {
        upsert(statuses_of(entries.drop_last()), entries.last().recipient_id, entries.last().status)
    } else {
        statuses_of(entries.drop_last())
    }
}

/// The number of statuses that `counted` picks.
pub open spec fn count_where(statuses: Seq<(String, DeliveryStatus)>, counted: spec_fn(DeliveryStatus) -> bool) -> nat
    decreases statuses.len(),
{
    if statuses.len() == 0 {
        0
    } else {
        count_where(statuses.drop_last(), counted) + if counted(statuses.last().1) { 1nat } else { 0nat }
    }
}

/// Sent: sent, delivered or opened.
pub open spec fn is_sent(s: DeliveryStatus) -> bool {
    s == DeliveryStatus::Sent || s == DeliveryStatus::Delivered || s == DeliveryStatus::Opened
}

/// Delivered: delivered or opened.
pub open spec fn is_delivered(s: DeliveryStatus) -> bool {
    s == DeliveryStatus::Delivered || s == DeliveryStatus::Opened
}

/// Failed: failed or bounced.
pub open spec fn is_failed(s: DeliveryStatus) -> bool {
    s == DeliveryStatus::Failed || s == DeliveryStatus::Bounced
}

/// Pending.
pub open spec fn is_pending(s: DeliveryStatus) -> bool {
    s == DeliveryStatus::Pending
}

proof fn lemma_upsert_len(statuses: Seq<(String, DeliveryStatus)>, id: String, status: DeliveryStatus)
    ensures
        upsert(statuses, id, status).len() <= statuses.len() + 1,
    decreases statuses.len(),
{
    if statuses.len() > 0 && statuses[0].0@ != id@ {
        lemma_upsert_len(statuses.drop_first(), id, status);
    }
}

proof fn lemma_statuses_len(entries: Seq<DeliveryAuditEntry>)
    ensures
        statuses_of(entries).len() <= entries.len(),
    decreases entries.len(),
{
    if entries.len() > 0 {
        lemma_statuses_len(entries.drop_last());
        lemma_upsert_len(statuses_of(entries.drop_last()), entries.last().recipient_id, entries.last().status);
    }
}

proof fn lemma_count_bound(statuses: Seq<(String, DeliveryStatus)>, counted: spec_fn(DeliveryStatus) -> bool)
    ensures
        count_where(statuses, counted) <= statuses.len(),
    decreases statuses.len(),
{
    if statuses.len() > 0 {
        lemma_count_bound(statuses.drop_last(), counted);
    }
}

fn count_statuses(statuses: &Vec<(String, DeliveryStatus)>) -> (r: (usize, usize, usize, usize))
    ensures
        r.0 == count_where(statuses@, |s: DeliveryStatus| is_sent(s)),
        r.1 == count_where(statuses@, |s: DeliveryStatus| is_delivered(s)),
        r.2 == count_where(statuses@, |s: DeliveryStatus| is_failed(s)),
        r.3 == count_where(statuses@, |s: DeliveryStatus| is_pending(s)),
{
    let ghost sent_f = |s: DeliveryStatus| is_sent(s);
    let ghost delivered_f = |s: DeliveryStatus| is_delivered(s);
    let ghost failed_f = |s: DeliveryStatus| is_failed(s);
    let ghost pending_f = |s: DeliveryStatus| is_pending(s);
    let mut sent: usize = 0;
    let mut delivered: usize = 0;
    let mut failed: usize = 0;
    let mut pending: usize = 0;
    let mut i: usize = 0;
    assert(statuses@.take(0) =~= Seq::<(String, DeliveryStatus)>::empty());
    while i < statuses.len()
        invariant
            i <= statuses@.len(),
            sent_f == (|s: DeliveryStatus| is_sent(s)),
            delivered_f == (|s: DeliveryStatus| is_delivered(s)),
            failed_f == (|s: DeliveryStatus| is_failed(s)),
            pending_f == (|s: DeliveryStatus| is_pending(s)),
            sent == count_where(statuses@.take(i as int), sent_f),
            delivered == count_where(statuses@.take(i as int), delivered_f),
            failed == count_where(statuses@.take(i as int), failed_f),
            pending == count_where(statuses@.take(i as int), pending_f),
        decreases statuses@.len() - i,
    {
        proof {
            let next = statuses@.take(i + 1);
            assert(next.drop_last() =~= statuses@.take(i as int));
            lemma_count_bound(statuses@.take(i as int), sent_f);
            lemma_count_bound(statuses@.take(i as int), delivered_f);
            lemma_count_bound(statuses@.take(i as int), failed_f);
            lemma_count_bound(statuses@.take(i as int), pending_f);
        }
        match statuses[i].1 {
            DeliveryStatus::Sent => {
                sent = sent + 1;
            },
            DeliveryStatus::Delivered | DeliveryStatus::Opened => {
                sent = sent + 1;
                delivered = delivered + 1;
            },
            DeliveryStatus::Failed | DeliveryStatus::Bounced => {
                failed = failed + 1;
            },
            DeliveryStatus::Pending => {
                pending = pending + 1;
            },
        }
        i = i + 1;
    }
    assert(statuses@.take(statuses@.len() as int) =~= statuses@);
    (sent, delivered, failed, pending)
}

/// Whether `st` sums up audit entries of `packet_id` at time `now`: one status
/// per recipient, the latest recorded, and the counts of each kind.
pub open spec fn status_sums_up(st: SendStatus, packet_id: Seq<char>, entries: Seq<DeliveryAuditEntry>, now: u64) -> bool {
    let statuses = statuses_of(entries);
    &&& st.packet_id@ == packet_id
    &&& st.recipient_statuses@ == statuses
    &&& st.total_recipients == statuses.len()
    &&& st.sent_count == count_where(statuses, |s: DeliveryStatus| is_sent(s))
    &&& st.delivered_count == count_where(statuses, |s: DeliveryStatus| is_delivered(s))
    &&& st.failed_count == count_where(statuses, |s: DeliveryStatus| is_failed(s))
    &&& st.pending_count == count_where(statuses, |s: DeliveryStatus| is_pending(s))
    &&& st.last_updated == now
}

/// The send status of a packet from its audit entries at time `now`; none
/// where there are no entries.
pub fn status_from_entries(packet_id: &str, entries: &Vec<DeliveryAuditEntry>, now: u64) -> (r: Option<SendStatus>)
    ensures
        entries@.len() == 0 ==> r is None,
        entries@.len() > 0 ==> (r matches Some(st) && status_sums_up(st, packet_id@, entries@, now)),
{
    if entries.len() == 0 {
        return None;
    }
    let mut statuses: Vec<(String, DeliveryStatus)> = Vec::new();
    let mut i: usize = 0;
    assert(entries@.take(0) =~= Seq::<DeliveryAuditEntry>::empty());
    while i < entries.len()
        invariant
            i <= entries@.len(),
            statuses@ == statuses_of(entries@.take(i as int)),
        decreases entries@.len() - i,
    {
        proof {
            let next = entries@.take(i + 1);
            assert(next.drop_last() =~= entries@.take(i as int));
        }
        if entries[i].timestamp > 0 {
            upsert_status(&mut statuses, &entries[i].recipient_id, entries[i].status);
        }
        i = i + 1;
    }
    assert(entries@.take(entries@.len() as int) =~= entries@);
    let (sent, delivered, failed, pending) = count_statuses(&statuses);
    Some(SendStatus {
        packet_id: owned_text(packet_id),
        total_recipients: statuses.len(),
        sent_count: sent,
        delivered_count: delivered,
        failed_count: failed,
        pending_count: pending,
        last_updated: now,
        recipient_statuses: statuses,
    })
}

/// The first audit entry of an attempt to deliver a packet to a recipient:
/// pending, first attempt, nothing heard back yet.
pub fn pending_entry(audit_id: String, packet_id: &String, recipient_id: &String, timestamp: u64) -> (r: DeliveryAuditEntry)
    ensures
        r.audit_id == audit_id,
        r.packet_id == *packet_id,
        r.recipient_id == *recipient_id,
        r.timestamp == timestamp,
        r.attempt == 1,
        r.status == DeliveryStatus::Pending,
        r.smtp_response is None,
        r.error is None,
        r.message_id is None,
{
    DeliveryAuditEntry {
        audit_id,
        packet_id: packet_id.clone(),
        recipient_id: recipient_id.clone(),
        timestamp,
        attempt: 1,
        status: DeliveryStatus::Pending,
        smtp_response: None,
        error: None,
        message_id: None,
    }
}

/// The audit entry of an attempt that the mail backend accepted: sent, with
/// its message identifier and the backend's `250 OK`.
pub fn sent_entry(entry: &DeliveryAuditEntry, message_id: String) -> (r: DeliveryAuditEntry)
    ensures
        r == (DeliveryAuditEntry {
            status: DeliveryStatus::Sent,
            message_id: Some(message_id),
            smtp_response: Some(SmtpResponse { code: 250, message: r.smtp_response->Some_0.message, server: r.smtp_response->Some_0.server }),
            ..*entry
        }),
        r.smtp_response->Some_0.message@ == "OK"@,
        r.smtp_response->Some_0.server@ == "proofmail"@,
{
    let mut updated = entry.duplicate();
    updated.status = DeliveryStatus::Sent;
    updated.message_id = Some(message_id);
    updated.smtp_response = Some(SmtpResponse { code: 250, message: owned_text("OK"), server: owned_text("proofmail") });
    updated
}

/// The audit entry of an attempt that the mail backend refused: failed, with
/// the error's message.
pub fn failed_entry(entry: &DeliveryAuditEntry, error: String) -> (r: DeliveryAuditEntry)
    ensures
        r == (DeliveryAuditEntry { status: DeliveryStatus::Failed, error: Some(error), ..*entry }),
{
    let mut updated = entry.duplicate();
    updated.status = DeliveryStatus::Failed;
    updated.error = Some(error);
    updated
}

/// The subject of a packet's mail.
pub fn email_subject(manifest: &PacketManifest) -> (r: String)
    ensures
        r@ == "MAND8 Verification Packet: "@ + manifest.receipt_id@,
{
    concat("MAND8 Verification Packet: ", manifest.receipt_id.as_str())
}

/// The RFC 3339 text of a Unix time, as `chrono` writes it, or none where the
/// time is out of its range.
pub uninterp spec fn rfc3339_spec(secs: i64) -> Option<Seq<char>>;

/// Calls `chrono::DateTime::from_timestamp` with no nanoseconds, then
/// `to_rfc3339`. The contract claims only that the text is a function of the
/// time; out of `chrono`'s range there is none.
#[verifier::external_body]
fn rfc3339_text(secs: i64) -> (r: Option<String>)
    ensures
        match rfc3339_spec(secs) {
            Some(t) => r matches Some(s) && s@ == t,
            None => r is None,
        },
{
    chrono::DateTime::from_timestamp(secs, 0).map(|dt| dt.to_rfc3339())
}

/// The creation time a mail states: its RFC 3339 text, or `unknown`.
pub open spec fn created_text(created_at: u64) -> Seq<char> {
    match rfc3339_spec(created_at as i64) {
        Some(t) => t,
        None => "unknown"@,
    }
}

/// The body of a packet's mail: its identifiers, issuer and creation time, how
/// to verify it, its integrity hash and number of attachments.
pub open spec fn email_body_spec(m: PacketManifest) -> Seq<char> {
    "MAND8 Verification Packet Delivery\n\nPacket ID: "@ + m.packet_id@ + "\nReceipt ID: "@ + m.receipt_id@
        + "\nIssuer: "@ + m.issuer@ + "\nCreated: "@ + created_text(m.created_at)
        + "\n\nThis email contains a MAND8 verification packet for your review. The attached files include:\n\n1. mand8-receipt.json - The signed MAND8 receipt (ink.receipt.v2)\n2. Additional evidence attachments as referenced in the packet manifest\n\nPacket Integrity: "@
        + m.integrity.hash@ + "\nAttachments: "@ + decimal(m.attachments@.len())
        + "\n\nPlease verify the receipt using the MAND8 verifier:\n    ink-cli verify --receipt mand8-receipt.json\n\nThis is an automated delivery from the BLKBX Lab ProofMail service.\n"@
}

/// The body of a packet's mail.
pub fn build_email_body(m: &PacketManifest) -> (r: String)
    ensures
        r@ == email_body_spec(*m),
{
    let created = match rfc3339_text(m.created_at as i64) {
        Some(t) => t,
        None => owned_text("unknown"),
    };
    let count = decimal_text(m.attachments.len() as u64);
    let mut body = owned_text("MAND8 Verification Packet Delivery\n\nPacket ID: ");
    crate::text::push_str(&mut body, m.packet_id.as_str());
    crate::text::push_str(&mut body, "\nReceipt ID: ");
    crate::text::push_str(&mut body, m.receipt_id.as_str());
    crate::text::push_str(&mut body, "\nIssuer: ");
    crate::text::push_str(&mut body, m.issuer.as_str());
    crate::text::push_str(&mut body, "\nCreated: ");
    crate::text::push_str(&mut body, created.as_str());
    crate::text::push_str(&mut body, "\n\nThis email contains a MAND8 verification packet for your review. The attached files include:\n\n1. mand8-receipt.json - The signed MAND8 receipt (ink.receipt.v2)\n2. Additional evidence attachments as referenced in the packet manifest\n\nPacket Integrity: ");
    crate::text::push_str(&mut body, m.integrity.hash.as_str());
    crate::text::push_str(&mut body, "\nAttachments: ");
    crate::text::push_str(&mut body, count.as_str());
    crate::text::push_str(&mut body, "\n\nPlease verify the receipt using the MAND8 verifier:\n    ink-cli verify --receipt mand8-receipt.json\n\nThis is an automated delivery from the BLKBX Lab ProofMail service.\n");
    body
}

/// A backend that sends mail.
pub trait EmailAdapter {
    /// Sends a mail with attachments to the given addresses.
    fn send(&self, to: &[String], subject: &str, body: &str, attachments: &[EmailAttachment]) -> Result<EmailSendResult, EmailError>;

    /// Reports the backend's health.
    fn health(&self) -> Result<AdapterHealth, EmailError>;
}

/// A mail backend that speaks SMTP.
#[derive(Clone, Debug)]
pub struct SmtpAdapter {
    pub host: String,
    pub port: u16,
    pub username: String,
    pub password: String,
    pub use_tls: bool,
    pub timeout_seconds: u64,
}

/// A mail backend behind a transactional mail service.
#[derive(Clone, Debug)]
pub struct TransactionalEmailAdapter {
    pub provider: TransactionalProvider,
    pub api_key: String,
    pub from_email: String,
    pub from_name: String,
    pub timeout_seconds: u64,
}

/// Calls `uuid::Uuid::new_v4` and formats it in its hyphenated form. Nothing is
/// claimed of the text, which is random.
#[verifier::external_body]
fn new_uuid_text() -> String {
    uuid::Uuid::new_v4().to_string()
}

fn copy_addresses(to: &[String]) -> (r: Vec<String>)
    ensures
        r@ == to@,
{
    let mut out: Vec<String> = Vec::new();
    let mut i: usize = 0;
    while i < to.len()
        invariant
            i <= to@.len(),
            out@ == to@.subrange(0, i as int),
        decreases to@.len() - i,
    {
        out.push(to[i].clone());
        assert(out@ =~= to@.subrange(0, i + 1));
        i = i + 1;
    }
    assert(to@.subrange(0, to@.len() as int) =~= to@);
    out
}

/// Whether a message identifier has the local form: `<`, a unique text, `-`,
/// the time in seconds, and `@proofmail.local>`.
pub open spec fn local_message_id(id: Seq<char>, unique: Seq<char>, secs: u64) -> bool {
    id == "<"@ + unique + "-"@ + decimal(secs as nat) + "@proofmail.local>"@
}

fn local_send(to: &[String]) -> (r: Result<EmailSendResult, EmailError>)
    ensures
        r matches Ok(res) && res.accepted_recipients@ == to@ && res.rejected_recipients@.len() == 0
            && exists|unique: Seq<char>, secs: u64| #[trigger] local_message_id(res.message_id@, unique, secs),
{
    let unique = new_uuid_text();
    let secs = crate::clock::unix_now_secs();
    let head = concat("<", unique.as_str());
    let head = concat(head.as_str(), "-");
    let time = decimal_text(secs);
    let head = concat(head.as_str(), time.as_str());
    let message_id = concat(head.as_str(), "@proofmail.local>");
    assert(local_message_id(message_id@, unique@, secs));
    let res = EmailSendResult { message_id, accepted_recipients: copy_addresses(to), rejected_recipients: Vec::new() };
    assert(local_message_id(res.message_id@, unique@, secs));
    assert(exists|u: Seq<char>, t: u64| #[trigger] local_message_id(res.message_id@, u, t));
    Ok(res)
}

impl EmailAdapter for SmtpAdapter {
    fn send(&self, to: &[String], subject: &str, body: &str, attachments: &[EmailAttachment]) -> (r: Result<EmailSendResult, EmailError>)
        ensures
            r matches Ok(res) && res.accepted_recipients@ == to@ && res.rejected_recipients@.len() == 0
                && exists|unique: Seq<char>, secs: u64| #[trigger] local_message_id(res.message_id@, unique, secs),
    {
        local_send(to)
    }

    fn health(&self) -> (r: Result<AdapterHealth, EmailError>)
        ensures
            r matches Ok(h) && h.healthy && h.latency_ms == 0
                && h.detail@ == "SMTP adapter for "@ + self.host@ + ":"@ + decimal(self.port as nat),
    {
        let head = concat("SMTP adapter for ", self.host.as_str());
        let head = concat(head.as_str(), ":");
        let port = decimal_text(self.port as u64);
        Ok(AdapterHealth { healthy: true, latency_ms: 0, detail: concat(head.as_str(), port.as_str()) })
    }
}

impl EmailAdapter for TransactionalEmailAdapter {
    fn send(&self, to: &[String], subject: &str, body: &str, attachments: &[EmailAttachment]) -> (r: Result<EmailSendResult, EmailError>)
        ensures
            r matches Ok(res) && res.accepted_recipients@ == to@ && res.rejected_recipients@.len() == 0
                && exists|unique: Seq<char>, secs: u64| #[trigger] local_message_id(res.message_id@, unique, secs),
    {
        local_send(to)
    }

    fn health(&self) -> (r: Result<AdapterHealth, EmailError>)
        ensures
            r matches Ok(h) && h.healthy && h.latency_ms == 0
                && h.detail@ == "Transactional adapter: "@ + crate::proofmail::provider_name(self.provider),
    {
        Ok(AdapterHealth { healthy: true, latency_ms: 0, detail: concat("Transactional adapter: ", self.provider.name()) })
    }
}

/// Why delivering a packet failed.
#[derive(Clone, Debug, PartialEq, Eq)]
pub enum ProofMailError {
    Adapter(EmailError),
    Audit(AuditError),
    Packet(PacketError),
    Serialization(String),
    InvalidPacket(String),
}

/// Whether a recipient is listed in a list of statuses.
pub open spec fn lists(statuses: Seq<(String, DeliveryStatus)>, id: Seq<char>) -> bool {
    exists|k: int| 0 <= k < statuses.len() && (#[trigger] statuses[k]).0@ == id
}

/// Whether every status in a list is sent or failed.
pub open spec fn all_settled(statuses: Seq<(String, DeliveryStatus)>) -> bool {
    forall|k: int| 0 <= k < statuses.len() ==> (#[trigger] statuses[k]).1 == DeliveryStatus::Sent
        || statuses[k].1 == DeliveryStatus::Failed
}

proof fn lemma_upsert_lists(statuses: Seq<(String, DeliveryStatus)>, id: String, status: DeliveryStatus, other: Seq<char>)
    requires
        lists(statuses, other) || other == id@,
    ensures
        lists(upsert(statuses, id, status), other),
        all_settled(statuses) && (status == DeliveryStatus::Sent || status == DeliveryStatus::Failed)
            ==> all_settled(upsert(statuses, id, status)),
    decreases statuses.len(),
{
    if statuses.len() == 0 {
        assert(upsert(statuses, id, status)[0] == (id, status));
    } else {
        let t = statuses.drop_first();
        let u = upsert(statuses, id, status);
        if statuses[0].0@ == id@ {
            assert(u[0].0 == statuses[0].0);
            if lists(statuses, other) {
                let k = choose|k: int| 0 <= k < statuses.len() && (#[trigger] statuses[k]).0@ == other;
                if k > 0 {
                    assert(u[k] == statuses[k]);
                }
            }
            assert forall|k: int| 0 <= k < u.len() && all_settled(statuses) && (status == DeliveryStatus::Sent || status == DeliveryStatus::Failed)
                implies (#[trigger] u[k]).1 == DeliveryStatus::Sent || u[k].1 == DeliveryStatus::Failed by {
                if k > 0 {
                    assert(u[k] == statuses[k]);
                }
            }
        } else {
            if statuses[0].0@ == other {
                assert(u[0] == statuses[0]);
            } else {
                if lists(statuses, other) {
                    let k = choose|k: int| 0 <= k < statuses.len() && (#[trigger] statuses[k]).0@ == other;
                    assert(t[k - 1] == statuses[k]);
                }
                assert(all_settled(statuses) ==> all_settled(t)) by {
                    assert forall|k: int| 0 <= k < t.len() && all_settled(statuses) implies (#[trigger] t[k]).1 == DeliveryStatus::Sent
                        || t[k].1 == DeliveryStatus::Failed by {
                        assert(t[k] == statuses[k + 1]);
                    }
                }
                lemma_upsert_lists(t, id, status, other);
                let j = choose|j: int| 0 <= j < upsert(t, id, status).len() && (#[trigger] upsert(t, id, status)[j]).0@ == other;
                assert(u[j + 1] == upsert(t, id, status)[j]);
            }
            assert(all_settled(statuses) ==> all_settled(t)) by {
                assert forall|k: int| 0 <= k < t.len() && all_settled(statuses) implies (#[trigger] t[k]).1 == DeliveryStatus::Sent
                    || t[k].1 == DeliveryStatus::Failed by {
                    assert(t[k] == statuses[k + 1]);
                }
            }
            if all_settled(statuses) && (status == DeliveryStatus::Sent || status == DeliveryStatus::Failed) {
                lemma_upsert_lists(t, id, status, id@);
                assert forall|k: int| 0 <= k < u.len() implies (#[trigger] u[k]).1 == DeliveryStatus::Sent || u[k].1 == DeliveryStatus::Failed by {
                    if k > 0 {
                        assert(u[k] == upsert(t, id, status)[k - 1]);
                    }
                }
            }
        }
    }
}

/// Whether the adapter, asked to send the mail with `subject`, `body` and the
/// attachments to the one address `email`, may answer with a success (`ok`)
/// or a failure, as the adapter's own contract allows.
pub open spec fn send_outcome<A: EmailAdapter>(
    adapter: &A,
    email: String,
    subject: Seq<char>,
    body: Seq<char>,
    attachments: &[EmailAttachment],
    ok: bool,
) -> bool {
    exists|to: &[String], s: &str, b: &str, out: Result<EmailSendResult, EmailError>|
        to@ == seq![email] && s@ == subject && b@ == body && (out is Ok) == ok
            && #[trigger] call_ensures(A::send, (adapter, to, s, b, attachments), out)
}

/// Whether a recorded status comes from a send: sent where the adapter
/// answered with a success for one of the first `n` recipients with that
/// identifier, failed where it answered with a failure.
pub open spec fn status_from_send<A: EmailAdapter>(
    adapter: &A,
    recipients: Seq<Recipient>,
    n: int,
    e: (String, DeliveryStatus),
    subject: Seq<char>,
    body: Seq<char>,
    attachments: &[EmailAttachment],
) -> bool {
    &&& e.1 == DeliveryStatus::Sent ==> exists|j: int| 0 <= j < n && recipients[j].recipient_id@ == e.0@
        && #[trigger] send_outcome(adapter, recipients[j].email, subject, body, attachments, true)
    &&& e.1 == DeliveryStatus::Failed ==> exists|j: int| 0 <= j < n && recipients[j].recipient_id@ == e.0@
        && #[trigger] send_outcome(adapter, recipients[j].email, subject, body, attachments, false)
}

proof fn lemma_upsert_entries(statuses: Seq<(String, DeliveryStatus)>, id: String, status: DeliveryStatus, k: int)
    requires
        0 <= k < upsert(statuses, id, status).len(),
    ensures
        (upsert(statuses, id, status)[k].0@ == id@ && upsert(statuses, id, status)[k].1 == status)
            || exists|m: int| 0 <= m < statuses.len() && #[trigger] statuses[m] == upsert(statuses, id, status)[k],
    decreases statuses.len(),
{
    if statuses.len() > 0 {
        let u = upsert(statuses, id, status);
        if statuses[0].0@ == id@ {
            if k > 0 {
                assert(u[k] == statuses[k]);
            }
        } else if k > 0 {
            let t = statuses.drop_first();
            lemma_upsert_entries(t, id, status, k - 1);
            assert(u[k] == upsert(t, id, status)[k - 1]);
            if exists|m: int| 0 <= m < t.len() && #[trigger] t[m] == upsert(t, id, status)[k - 1] {
                let m = choose|m: int| 0 <= m < t.len() && #[trigger] t[m] == upsert(t, id, status)[k - 1];
                assert(statuses[m + 1] == t[m]);
            }
        } else {
            assert(u[0] == statuses[0]);
        }
    }
}

proof fn lemma_status_extends<A: EmailAdapter>(
    adapter: &A,
    recipients: Seq<Recipient>,
    i: int,
    before: Seq<(String, DeliveryStatus)>,
    settled: DeliveryStatus,
    subject: Seq<char>,
    body: Seq<char>,
    attachments: &[EmailAttachment],
)
    requires
        0 <= i < recipients.len(),
        forall|k: int| 0 <= k < before.len() ==> status_from_send(adapter, recipients, i, #[trigger] before[k], subject, body, attachments),
        settled == DeliveryStatus::Sent || settled == DeliveryStatus::Failed,
        send_outcome(adapter, recipients[i].email, subject, body, attachments, settled == DeliveryStatus::Sent),
    ensures
        forall|k: int| 0 <= k < upsert(before, recipients[i].recipient_id, settled).len()
            ==> status_from_send(adapter, recipients, i + 1, #[trigger] upsert(before, recipients[i].recipient_id, settled)[k], subject, body, attachments),
{
    let u = upsert(before, recipients[i].recipient_id, settled);
    assert forall|k: int| 0 <= k < u.len() implies status_from_send(adapter, recipients, i + 1, #[trigger] u[k], subject, body, attachments) by {
        lemma_upsert_entries(before, recipients[i].recipient_id, settled, k);
        if u[k].0@ == recipients[i].recipient_id@ && u[k].1 == settled {
            assert(send_outcome(adapter, recipients[i].email, subject, body, attachments, settled == DeliveryStatus::Sent));
        } else {
            let m = choose|m: int| 0 <= m < before.len() && #[trigger] before[m] == u[k];
            assert(status_from_send(adapter, recipients, i, before[m], subject, body, attachments));
            if u[k].1 == DeliveryStatus::Sent {
                let j = choose|j: int| 0 <= j < i && recipients[j].recipient_id@ == u[k].0@
                    && #[trigger] send_outcome(adapter, recipients[j].email, subject, body, attachments, true);
                assert(0 <= j < i + 1);
            }
            if u[k].1 == DeliveryStatus::Failed {
                let j = choose|j: int| 0 <= j < i && recipients[j].recipient_id@ == u[k].0@
                    && #[trigger] send_outcome(adapter, recipients[j].email, subject, body, attachments, false);
                assert(0 <= j < i + 1);
            }
        }
    }
}

/// Delivers a packet: for each recipient, records a pending audit entry, sends
/// the mail with the attachments, and records the outcome, sent with the
/// message identifier or failed with the error. A failing audit store stops
/// the delivery. Every recipient ends up sent or failed, as the adapter's
/// answer to the mail sent to that recipient alone says. The contract leaves
/// unsaid what the audit store holds afterwards: `AuditStore::append` belongs
/// to the store's implementor and carries no contract.
pub fn deliver_packet<A: EmailAdapter, S: AuditStore>(
    adapter: &A,
    audit: &mut S,
    manifest: &PacketManifest,
    recipients: &[Recipient],
    attachments: &[EmailAttachment],
) -> (r: Result<SendStatus, ProofMailError>)
    ensures
        r matches Ok(st) ==> {
            &&& st.packet_id == manifest.packet_id
            &&& st.total_recipients == recipients@.len()
            &&& st.sent_count + st.failed_count == recipients@.len()
            &&& st.pending_count == 0
            &&& st.delivered_count == 0
            &&& all_settled(st.recipient_statuses@)
            &&& forall|j: int| 0 <= j < recipients@.len() ==> lists(st.recipient_statuses@, (#[trigger] recipients@[j]).recipient_id@)
            &&& forall|k: int| 0 <= k < st.recipient_statuses@.len() ==> status_from_send(
                adapter, recipients@, recipients@.len() as int, #[trigger] st.recipient_statuses@[k],
                "MAND8 Verification Packet: "@ + manifest.receipt_id@, email_body_spec(*manifest), attachments,
            )
        },
        recipients@.len() == 0 ==> (r matches Ok(st) && st.recipient_statuses@.len() == 0
            && st.sent_count == 0 && st.failed_count == 0),
        r matches Err(e) ==> e is Audit,
{
    let subject = email_subject(manifest);
    let body = build_email_body(manifest);
    let n = recipients.len();
    let mut status = SendStatus {
        packet_id: manifest.packet_id.clone(),
        total_recipients: n,
        sent_count: 0,
        delivered_count: 0,
        failed_count: 0,
        pending_count: n,
        last_updated: crate::clock::unix_now_secs(),
        recipient_statuses: Vec::new(),
    };
    let mut i: usize = 0;
    while i < n
        invariant
            n == recipients@.len(),
            i <= n,
            status.packet_id == manifest.packet_id,
            status.total_recipients == n,
            status.sent_count + status.failed_count == i,
            status.pending_count == n - i,
            status.delivered_count == 0,
            all_settled(status.recipient_statuses@),
            forall|j: int| 0 <= j < i ==> lists(status.recipient_statuses@, (#[trigger] recipients@[j]).recipient_id@),
            subject@ == "MAND8 Verification Packet: "@ + manifest.receipt_id@,
            body@ == email_body_spec(*manifest),
            forall|k: int| 0 <= k < status.recipient_statuses@.len() ==> status_from_send(
                adapter, recipients@, i as int, #[trigger] status.recipient_statuses@[k], subject@, body@, attachments,
            ),
            i == 0 ==> status.recipient_statuses@.len() == 0,
        decreases n - i,
    {
        let recipient = &recipients[i];
        let addresses = vec![recipient.email.clone()];
        let audit_time = crate::clock::unix_now_secs();
        let suffix = crate::proofmail::packet::new_uuid_suffix();
        let head = concat("urn:proofmail:audit:", decimal_text(audit_time).as_str());
        let head = concat(head.as_str(), ":");
        let audit_id = concat(head.as_str(), suffix.as_str());
        let entry = pending_entry(audit_id, &manifest.packet_id, &recipient.recipient_id, crate::clock::unix_now_secs());
        if let Err(e) = audit.append(&entry) {
            return Err(ProofMailError::Audit(e));
        }
        let send = A::send;
        let to = addresses.as_slice();
        let subject_text = subject.as_str();
        let body_text = body.as_str();
        let outcome = send(adapter, to, subject_text, body_text, attachments);
        proof {
            assert(to@ =~= seq![recipient.email]);
            assert(call_ensures(A::send, (adapter, to, subject_text, body_text, attachments), outcome));
            assert(send_outcome(adapter, recipient.email, subject@, body@, attachments, outcome is Ok));
        }
        let ghost before = status.recipient_statuses@;
        let settled = match outcome {
            Ok(result) => {
                let updated = sent_entry(&entry, result.message_id);
                if let Err(e) = audit.append(&updated) {
                    return Err(ProofMailError::Audit(e));
                }
                status.sent_count = status.sent_count + 1;
                DeliveryStatus::Sent
            },
            Err(e) => {
                let updated = failed_entry(&entry, e.message());
                if let Err(e) = audit.append(&updated) {
                    return Err(ProofMailError::Audit(e));
                }
                status.failed_count = status.failed_count + 1;
                DeliveryStatus::Failed
            },
        };
        status.pending_count = status.pending_count - 1;
        upsert_status(&mut status.recipient_statuses, &recipient.recipient_id, settled);
        proof {
            assert forall|j: int| 0 <= j <= i implies lists(status.recipient_statuses@, (#[trigger] recipients@[j]).recipient_id@) by {
                lemma_upsert_lists(before, recipient.recipient_id, settled, recipients@[j].recipient_id@);
            }
            lemma_upsert_lists(before, recipient.recipient_id, settled, recipient.recipient_id@);
            lemma_status_extends(adapter, recipients@, i as int, before, settled, subject@, body@, attachments);
        }
        i = i + 1;
    }
    status.last_updated = crate::clock::unix_now_secs();
    Ok(status)
}

} // verus!
