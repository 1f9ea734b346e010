//! Packets: the manifest of a receipt and its attachments, each named by its
//! SHA-256 hash, and the integrity hash over the whole packet.
use vstd::prelude::*;
use crate::codec::hex_lower;
use crate::crypto::sha256_spec;
use crate::proofmail::{decimal, decimal_text, PACKET_SCHEMA_V1};
use crate::receipt_v2::canonical::bytes_lt;
use crate::receipt_v2::json::JsonValue;
use crate::receipt_v2::owned_text;
use crate::text::concat;

verus! {

/// An attachment of a packet: its name, media type, size and hash.
#[derive(Clone, Debug)]
pub struct AttachmentRef {
    pub name: String,
    pub content_type: String,
    pub size_bytes: u64,
    pub sha256: String,
}

/// The integrity hash of a packet and its algorithm.
#[derive(Clone, Debug)]
pub struct PacketIntegrity {
    pub algorithm: String,
    pub hash: String,
}

/// The manifest of a packet: what it carries and how it is hashed.
#[derive(Clone, Debug)]
pub struct PacketManifest {
    pub packet_id: String,
    pub schema: String,
    pub created_at: u64,
    pub issuer: String,
    pub receipt_id: String,
    pub receipt_hash: String,
    pub attachments: Vec<AttachmentRef>,
    pub integrity: PacketIntegrity,
}

/// The media type `mime_guess` gives a file name by its extension,
/// `application/octet-stream` where it knows none.
pub uninterp spec fn content_type_spec(name: Seq<char>) -> Seq<char>;

/// Calls `mime_guess::from_path` on the name, then `first_or_octet_stream`.
/// The contract claims only that the media type is a function of the name,
/// which the crate computes from the name's extension without disk access.
#[verifier::external_body]
fn guess_content_type(name: &str) -> (r: String)
    ensures
        r@ == content_type_spec(name@),
{
    mime_guess::from_path(name).first_or_octet_stream().to_string()
}

/// `sha256:` followed by the lowercase hex text of the SHA-256 digest of
/// `data`.
pub open spec fn sha256_text(data: Seq<u8>) -> Seq<char> {
    "sha256:"@ + hex_lower(sha256_spec(data))
}

/// The hash text of some bytes.
pub fn hash_text(data: &[u8]) -> (r: String)
    ensures
        r@ == sha256_text(data@),
{
    let digest = crate::digest::sha256(data);
    let hex = crate::codec::hex_encode(digest.0.as_slice());
    concat("sha256:", hex.as_str())
}

/// The bytes of a name.
pub open spec fn name_bytes(name: Seq<char>) -> Seq<u8> {
    vstd::utf8::encode_utf8(name)
}

/// Inserts an attachment into attachments sorted by name, after the
/// attachments whose names do not sort after its own.
pub open spec fn insert_by_name(a: (String, Vec<u8>), sorted: Seq<(String, Vec<u8>)>) -> Seq<(String, Vec<u8>)>
    decreases sorted.len(),
{
    if sorted.len() == 0 {
        seq![a]
    } else if bytes_lt(name_bytes(a.0@), name_bytes(sorted[0].0@)) {
        seq![a] + sorted
    } else {
        seq![sorted[0]] + insert_by_name(a, sorted.drop_first())
    }
}

/// Attachments sorted by the bytes of their names, attachments of equal name
/// kept in their order.
pub open spec fn sort_by_name(attachments: Seq<(String, Vec<u8>)>) -> Seq<(String, Vec<u8>)>
    decreases attachments.len(),
{
    if attachments.len() == 0 {
        Seq::empty()
    } else {
        insert_by_name(attachments.last(), sort_by_name(attachments.drop_last()))
    }
}

/// The contents of attachments, one after another.
pub open spec fn joined_data(attachments: Seq<(String, Vec<u8>)>) -> Seq<u8>
    decreases attachments.len(),
{
    if attachments.len() == 0 {
        Seq::empty()
    } else {
        joined_data(attachments.drop_last()) + attachments.last().1@
    }
}

proof fn lemma_insert_by_name_at(a: (String, Vec<u8>), s: Seq<(String, Vec<u8>)>, k: int)
    requires
        0 <= k <= s.len(),
        forall|j: int| 0 <= j < k ==> !bytes_lt(name_bytes(a.0@), name_bytes(#[trigger] s[j].0@)),
        k < s.len() ==> bytes_lt(name_bytes(a.0@), name_bytes(s[k].0@)),
    ensures
        insert_by_name(a, s) == s.subrange(0, k) + seq![a] + s.subrange(k, s.len() as int),
    decreases s.len(),
{
    if s.len() == 0 {
        assert(seq![a] =~= s.subrange(0, k) + seq![a] + s.subrange(k, s.len() as int));
    } else if k == 0 {
        assert(seq![a] + s =~= s.subrange(0, k) + seq![a] + s.subrange(k, s.len() as int));
    } else {
        let t = s.drop_first();
        assert forall|j: int| 0 <= j < k - 1 implies !bytes_lt(name_bytes(a.0@), name_bytes(#[trigger] t[j].0@)) by {
            assert(t[j] == s[j + 1]);
        }
        if k < s.len() {
            assert(t[k - 1] == s[k]);
        }
        lemma_insert_by_name_at(a, t, k - 1);
        assert(seq![s[0]] + (t.subrange(0, k - 1) + seq![a] + t.subrange(k - 1, t.len() as int))
            =~= s.subrange(0, k) + seq![a] + s.subrange(k, s.len() as int));
    }
}

fn copy_attachment(a: &(String, Vec<u8>)) -> (r: (String, Vec<u8>))
    ensures
        r.0 == a.0,
        r.1@ == a.1@,
{
    (a.0.clone(), crate::bytes::to_vec(a.1.as_slice()))
}

/// Whether two lists of attachments agree in names and contents.
pub open spec fn same_attachments(a: Seq<(String, Vec<u8>)>, b: Seq<(String, Vec<u8>)>) -> bool {
    &&& a.len() == b.len()
    &&& forall|i: int| 0 <= i < a.len() ==> #[trigger] a[i].0 == b[i].0 && a[i].1@ == b[i].1@
}

proof fn lemma_same_insert(a: (String, Vec<u8>), b: (String, Vec<u8>), s: Seq<(String, Vec<u8>)>, t: Seq<(String, Vec<u8>)>)
    requires
        a.0 == b.0 && a.1@ == b.1@,
        same_attachments(s, t),
    ensures
        same_attachments(insert_by_name(a, s), insert_by_name(b, t)),
    decreases s.len(),
{
    if s.len() > 0 {
        assert(s[0].0 == t[0].0);
        if !bytes_lt(name_bytes(a.0@), name_bytes(s[0].0@)) {
            assert(same_attachments(s.drop_first(), t.drop_first())) by {
                assert forall|i: int| 0 <= i < s.drop_first().len() implies #[trigger] s.drop_first()[i].0 == t.drop_first()[i].0
                    && s.drop_first()[i].1@ == t.drop_first()[i].1@ by {
                    assert(s.drop_first()[i] == s[i + 1] && t.drop_first()[i] == t[i + 1]);
                }
            }
            lemma_same_insert(a, b, s.drop_first(), t.drop_first());
            let x = insert_by_name(a, s);
            let y = insert_by_name(b, t);
            assert forall|i: int| 0 <= i < x.len() implies #[trigger] x[i].0 == y[i].0 && x[i].1@ == y[i].1@ by {
                if i > 0 {
                    assert(x[i] == insert_by_name(a, s.drop_first())[i - 1]);
                    assert(y[i] == insert_by_name(b, t.drop_first())[i - 1]);
                }
            }
        } else {
            let x = insert_by_name(a, s);
            let y = insert_by_name(b, t);
            assert forall|i: int| 0 <= i < x.len() implies #[trigger] x[i].0 == y[i].0 && x[i].1@ == y[i].1@ by {
                if i > 0 {
                    assert(x[i] == s[i - 1] && y[i] == t[i - 1]);
                }
            }
        }
    }
}

/// Attachments sorted by the bytes of their names.
pub fn sorted_attachments(attachments: &[(String, Vec<u8>)]) -> (r: Vec<(String, Vec<u8>)>)
    ensures
        same_attachments(r@, sort_by_name(attachments@)),
{
    let mut sorted: Vec<(String, Vec<u8>)> = Vec::new();
    let mut i: usize = 0;
    assert(attachments@.subrange(0, 0) =~= Seq::<(String, Vec<u8>)>::empty());
    while i < attachments.len()
        invariant
            i <= attachments@.len(),
            same_attachments(sorted@, sort_by_name(attachments@.subrange(0, i as int))),
        decreases attachments@.len() - i,
    {
        let entry = copy_attachment(&attachments[i]);
        let ghost target = sort_by_name(attachments@.subrange(0, i as int));
        let key = entry.0.as_str().as_bytes();
        let mut k: usize = 0;
        while k < sorted.len()
            invariant_except_break
                k <= sorted@.len(),
                key@ == name_bytes(entry.0@),
                forall|j: int| 0 <= j < k ==> !bytes_lt(name_bytes(entry.0@), name_bytes(#[trigger] sorted@[j].0@)),
            ensures
                k <= sorted@.len(),
                forall|j: int| 0 <= j < k ==> !bytes_lt(name_bytes(entry.0@), name_bytes(#[trigger] sorted@[j].0@)),
                k < sorted@.len() ==> bytes_lt(name_bytes(entry.0@), name_bytes(sorted@[k as int].0@)),
            decreases sorted@.len() - k,
        {
            let less = crate::receipt_v2::canonical::bytes_less(key, sorted[k].0.as_str().as_bytes());
            if less {
                break;
            }
            k = k + 1;
        }
        let ghost before = sorted@;
        proof {
            lemma_insert_by_name_at(entry, before, k as int);
            assert forall|j: int| 0 <= j < k implies !bytes_lt(name_bytes(entry.0@), name_bytes(#[trigger] target[j].0@)) by {
                assert(sorted@[j].0 == target[j].0);
            }
            if k < sorted@.len() {
                assert(sorted@[k as int].0 == target[k as int].0);
            }
            lemma_insert_by_name_at(entry, target, k as int);
        }
        sorted.insert(k, entry);
        proof {
            let next = attachments@.subrange(0, i + 1);
            assert(next.drop_last() =~= attachments@.subrange(0, i as int));
            assert(next.last() == attachments@[i as int]);
            lemma_same_insert(entry, attachments@[i as int], before, target);
            assert(sorted@ =~= before.subrange(0, k as int) + seq![entry] + before.subrange(k as int, before.len() as int));
            let x = insert_by_name(entry, target);
            assert forall|j: int| 0 <= j < sorted@.len() implies #[trigger] sorted@[j].0 == x[j].0 && sorted@[j].1@ == x[j].1@ by {
                if j < k {
                    assert(x[j] == target[j]);
                } else if j > k {
                    assert(x[j] == target[j - 1]);
                }
            }
            assert(same_attachments(insert_by_name(entry, target), insert_by_name(attachments@[i as int], target))) by {
                lemma_same_insert(entry, attachments@[i as int], target, target);
            }
        }
        i = i + 1;
    }
    assert(attachments@.subrange(0, attachments@.len() as int) =~= attachments@);
    sorted
}

proof fn lemma_same_joined(a: Seq<(String, Vec<u8>)>, b: Seq<(String, Vec<u8>)>)
    requires
        same_attachments(a, b),
    ensures
        joined_data(a) == joined_data(b),
    decreases a.len(),
{
    if a.len() > 0 {
        assert(same_attachments(a.drop_last(), b.drop_last())) by {
            assert forall|i: int| 0 <= i < a.drop_last().len() implies #[trigger] a.drop_last()[i].0 == b.drop_last()[i].0
                && a.drop_last()[i].1@ == b.drop_last()[i].1@ by {
                assert(a.drop_last()[i] == a[i] && b.drop_last()[i] == b[i]);
            }
        }
        lemma_same_joined(a.drop_last(), b.drop_last());
        assert(a[a.len() - 1].0 == b[a.len() - 1].0 && a[a.len() - 1].1@ == b[a.len() - 1].1@);
    }
}

/// The integrity hash of a packet from its parts: the JSON of its manifest
/// with an empty integrity hash, of its recipient manifest and of its receipt,
/// then the contents of its attachments in order of their names.
pub open spec fn packet_hash_spec(
    manifest_json: Seq<u8>,
    recipients_json: Seq<u8>,
    receipt_json: Seq<u8>,
    attachments: Seq<(String, Vec<u8>)>,
) -> Seq<char> {
    sha256_text(manifest_json + recipients_json + receipt_json + joined_data(sort_by_name(attachments)))
}

/// The integrity hash of a packet from its parts.
pub fn compute_packet_hash(
    manifest_json: &[u8],
    recipients_json: &[u8],
    receipt_json: &[u8],
    attachments: &[(String, Vec<u8>)],
) -> (r: String)
    ensures
        r@ == packet_hash_spec(manifest_json@, recipients_json@, receipt_json@, attachments@),
{
    let sorted = sorted_attachments(attachments);
    let mut bytes: Vec<u8> = Vec::new();
    crate::bytes::push_slice(&mut bytes, manifest_json);
    crate::bytes::push_slice(&mut bytes, recipients_json);
    crate::bytes::push_slice(&mut bytes, receipt_json);
    let ghost head = bytes@;
    let mut i: usize = 0;
    assert(sorted@.subrange(0, 0) =~= Seq::<(String, Vec<u8>)>::empty());
    assert(head + Seq::<u8>::empty() =~= head);
    while i < sorted.len()
        invariant
            i <= sorted@.len(),
            bytes@ == head + joined_data(sorted@.subrange(0, i as int)),
        decreases sorted@.len() - i,
    {
        crate::bytes::push_slice(&mut bytes, sorted[i].1.as_slice());
        proof {
            let next = sorted@.subrange(0, i + 1);
            assert(next.drop_last() =~= sorted@.subrange(0, i as int));
            assert(bytes@ =~= head + joined_data(next));
        }
        i = i + 1;
    }
    proof {
        assert(sorted@.subrange(0, sorted@.len() as int) =~= sorted@);
        lemma_same_joined(sorted@, sort_by_name(attachments@));
        assert(head == manifest_json@ + recipients_json@ + receipt_json@);
    }
    hash_text(bytes.as_slice())
}

/// Whether `r` refers to the attachment `a`: its name, the media type of its
/// name, its size and its hash.
pub open spec fn refers_to(r: AttachmentRef, a: (String, Vec<u8>)) -> bool {
    &&& r.name == a.0
    &&& r.content_type@ == content_type_spec(a.0@)
    &&& r.size_bytes == a.1@.len()
    &&& r.sha256@ == sha256_text(a.1@)
}

/// The references to attachments, in order of their names.
pub fn attachment_refs(attachments: &[(String, Vec<u8>)]) -> (r: Vec<AttachmentRef>)
    ensures
        r@.len() == attachments@.len(),
        forall|i: int| 0 <= i < r@.len() ==> #[trigger] refers_to(r@[i], sort_by_name(attachments@)[i]),
{
    let sorted = sorted_attachments(attachments);
    let mut refs: Vec<AttachmentRef> = Vec::new();
    let mut i: usize = 0;
    proof {
        lemma_sort_by_name_len(attachments@);
    }
    while i < sorted.len()
        invariant
            i <= sorted@.len(),
            same_attachments(sorted@, sort_by_name(attachments@)),
            refs@.len() == i,
            forall|j: int| 0 <= j < i ==> #[trigger] refers_to(refs@[j], sort_by_name(attachments@)[j]),
        decreases sorted@.len() - i,
    {
        let entry = &sorted[i];
        let name: &str = entry.0.as_str();
        let reference = AttachmentRef {
            name: entry.0.clone(),
            content_type: guess_content_type(name),
            size_bytes: entry.1.len() as u64,
            sha256: hash_text(entry.1.as_slice()),
        };
        assert(sorted@[i as int].0 == sort_by_name(attachments@)[i as int].0);
        refs.push(reference);
        i = i + 1;
    }
    refs
}

proof fn lemma_insert_by_name_len(a: (String, Vec<u8>), s: Seq<(String, Vec<u8>)>)
    ensures
        insert_by_name(a, s).len() == s.len() + 1,
    decreases s.len(),
{
    if s.len() > 0 && !bytes_lt(name_bytes(a.0@), name_bytes(s[0].0@)) {
        lemma_insert_by_name_len(a, s.drop_first());
    }
}

/// Sorting keeps the number of attachments.
pub proof fn lemma_sort_by_name_len(attachments: Seq<(String, Vec<u8>)>)
    ensures
        sort_by_name(attachments).len() == attachments.len(),
    decreases attachments.len(),
{
    if attachments.len() > 0 {
        lemma_sort_by_name_len(attachments.drop_last());
        lemma_insert_by_name_len(attachments.last(), sort_by_name(attachments.drop_last()));
    }
}

/// The text of the first member named `key` of a JSON object, where that
/// member is a string.
pub open spec fn member_text(members: Seq<(String, JsonValue)>, key: Seq<char>) -> Option<Seq<char>>
    decreases members.len(),
{
    if members.len() == 0 {
        None
    } else if members[0].0@ == key {
        match members[0].1 {
            JsonValue::String(s) => Some(s@),
            _ => None,
        }
    } else {
        member_text(members.drop_first(), key)
    }
}

/// The receipt identifier a packet names: the receipt's `receipt_id` member
/// where it is a string, else `unknown`.
pub open spec fn receipt_id_of(receipt: JsonValue) -> Seq<char> {
    match receipt {
        JsonValue::Object(members) => match member_text(members@, "receipt_id"@) {
            Some(s) => s,
            None => "unknown"@,
        },
        _ => "unknown"@,
    }
}

/// The receipt identifier a packet names.
pub fn packet_receipt_id(receipt: &JsonValue) -> (r: String)
    ensures
        r@ == receipt_id_of(*receipt),
{
    match receipt {
        JsonValue::Object(members) => {
            let mut i: usize = 0;
            assert(members@.subrange(0, members@.len() as int) =~= members@);
            while i < members.len()
                invariant
                    i <= members@.len(),
                    receipt_id_of(*receipt) == match member_text(members@, "receipt_id"@) {
                        Some(t) => t,
                        None => "unknown"@,
                    },
                    member_text(members@, "receipt_id"@) == member_text(members@.subrange(i as int, members@.len() as int), "receipt_id"@),
                decreases members@.len() - i,
            {
                let ghost rest = members@.subrange(i as int, members@.len() as int);
                assert(rest[0] == members@[i as int]);
                assert(rest.drop_first() =~= members@.subrange(i + 1, members@.len() as int));
                if crate::bytes::str_eq(members[i].0.as_str(), "receipt_id") {
                    assert(member_text(members@, "receipt_id"@) == member_text(rest, "receipt_id"@));
                    return match &members[i].1 {
                        JsonValue::String(s) => {
                            assert(member_text(rest, "receipt_id"@) == Some(s@));
                            s.clone()
                        },
                        _ => {
                            assert(member_text(rest, "receipt_id"@) is None);
                            owned_text("unknown")
                        },
                    };
                }
                i = i + 1;
            }
            owned_text("unknown")
        },
        _ => owned_text("unknown"),
    }
}

/// The identifier of a packet created at `now`: `urn:proofmail:packet:`, the
/// time, `:` and a unique suffix.
pub open spec fn packet_id_text(now: u64, suffix: Seq<char>) -> Seq<char> {
    "urn:proofmail:packet:"@ + decimal(now as nat) + ":"@ + suffix
}

/// The identifier of a recipient manifest created at `now`.
pub open spec fn recipients_id_text(now: u64, suffix: Seq<char>) -> Seq<char> {
    "urn:proofmail:recipients:"@ + decimal(now as nat) + ":"@ + suffix
}

fn tagged_id(prefix: &str, now: u64, suffix: &str) -> (r: String)
    ensures
        r@ == prefix@ + decimal(now as nat) + ":"@ + suffix@,
{
    let time = decimal_text(now);
    let head = concat(prefix, time.as_str());
    let head = concat(head.as_str(), ":");
    concat(head.as_str(), suffix)
}

/// The identifier of a recipient manifest created at `now`.
pub fn recipients_manifest_id(now: u64, suffix: &str) -> (r: String)
    ensures
        r@ == recipients_id_text(now, suffix@),
{
    tagged_id("urn:proofmail:recipients:", now, suffix)
}

/// Whether `m` is the manifest of a packet created at `now` with the unique
/// suffix `suffix` by `issuer`, for a receipt with the given JSON value and
/// bytes, carrying the attachments; its integrity hash not yet set.
pub open spec fn manifest_ok(
    m: PacketManifest,
    now: u64,
    suffix: Seq<char>,
    issuer: Seq<char>,
    receipt: JsonValue,
    receipt_json: Seq<u8>,
    attachments: Seq<(String, Vec<u8>)>,
) -> bool {
    &&& m.packet_id@ == packet_id_text(now, suffix)
    &&& m.schema@ == PACKET_SCHEMA_V1@
    &&& m.created_at == now
    &&& m.issuer@ == issuer
    &&& m.receipt_id@ == receipt_id_of(receipt)
    &&& m.receipt_hash@ == sha256_text(receipt_json)
    &&& m.attachments@.len() == attachments.len()
    &&& forall|i: int| 0 <= i < m.attachments@.len() ==> #[trigger] refers_to(m.attachments@[i], sort_by_name(attachments)[i])
    &&& m.integrity.algorithm@ == "sha256"@
    &&& m.integrity.hash@ == Seq::<char>::empty()
}

/// The manifest of a packet created at `now` with the unique suffix `suffix`.
pub fn packet_manifest(
    now: u64,
    suffix: &str,
    issuer: &str,
    receipt: &JsonValue,
    receipt_json: &[u8],
    attachments: &[(String, Vec<u8>)],
) -> (r: PacketManifest)
    ensures
        manifest_ok(r, now, suffix@, issuer@, *receipt, receipt_json@, attachments@),
{
    let empty = String::new();
    PacketManifest {
        packet_id: tagged_id("urn:proofmail:packet:", now, suffix),
        schema: owned_text(PACKET_SCHEMA_V1),
        created_at: now,
        issuer: owned_text(issuer),
        receipt_id: packet_receipt_id(receipt),
        receipt_hash: hash_text(receipt_json),
        attachments: attachment_refs(attachments),
        integrity: PacketIntegrity { algorithm: owned_text("sha256"), hash: empty },
    }
}

/// Calls `uuid::Uuid::new_v4` and formats it in its simple form. Nothing is
/// claimed of the text, which is random.
#[verifier::external_body]
pub fn new_uuid_suffix() -> String {
    uuid::Uuid::new_v4().simple().to_string()
}

/// The manifest of a new packet: created now, with a random suffix; what holds
/// of it is what `packet_manifest` states, for some time and suffix.
pub fn create_packet_manifest(
    issuer: &str,
    receipt: &JsonValue,
    receipt_json: &[u8],
    attachments: &[(String, Vec<u8>)],
) -> (r: PacketManifest)
    ensures
        manifest_ok(r, r.created_at, r.packet_id@.subrange(
            packet_id_text(r.created_at, Seq::empty()).len() as int,
            r.packet_id@.len() as int,
        ), issuer@, *receipt, receipt_json@, attachments@),
{
    let now = crate::clock::unix_now_secs();
    let suffix = new_uuid_suffix();
    let m = packet_manifest(now, suffix.as_str(), issuer, receipt, receipt_json, attachments);
    assert(m.packet_id@.subrange(packet_id_text(now, Seq::empty()).len() as int, m.packet_id@.len() as int) =~= suffix@);
    m
}

} // verus!
