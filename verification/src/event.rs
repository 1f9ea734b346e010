use vstd::prelude::*;
use crate::bounded::{ContentBytes, IssuerId, TraceId};
use crate::bytes::be64;
use crate::crypto::sha256_spec;
use crate::error::{Error, Result};
use crate::hash::{labeled_preimage, slices_view};
use crate::kernel::{Digest, MAX_TRACE_EVENT_LEN};

verus! {

/// `event`, the identifier every trace event carries.
pub const EVENT_LABEL: [u8; 5] = [101u8, 118u8, 101u8, 110u8, 116u8];

/// `trace_event`, the label of a trace event hash.
pub const TRACE_EVENT_LABEL: [u8; 11] = [116u8, 114u8, 97u8, 99u8, 101u8, 95u8, 101u8, 118u8, 101u8, 110u8, 116u8];

/// `trace_sequence`, the label of a trace hash.
pub const TRACE_SEQUENCE_LABEL: [u8; 14] = [116u8, 114u8, 97u8, 99u8, 101u8, 95u8, 115u8, 101u8, 113u8, 117u8, 101u8, 110u8, 99u8, 101u8];

/// The most events a trace hash covers.
pub const MAX_TRACE_EVENTS: usize = 32;

/// What a trace event records.
#[derive(Clone, Copy, Debug, PartialEq, Eq, Structural)]
pub enum TraceEventType {
    Observation,
    Decision,
    Attestation,
    Replay,
    Compare,
}

/// The wire code of an event type.
pub open spec fn event_type_code(t: TraceEventType) -> u8 {
    match t {
        TraceEventType::Observation => 1,
        TraceEventType::Decision => 2,
        TraceEventType::Attestation => 3,
        TraceEventType::Replay => 4,
        TraceEventType::Compare => 5,
    }
}

/// The event type with a given wire code, if any.
pub open spec fn event_type_from_code(v: u8) -> Option<TraceEventType> {
    if v == 1 {
        Some(TraceEventType::Observation)
    } else if v == 2 {
        Some(TraceEventType::Decision)
    } else if v == 3 {
        Some(TraceEventType::Attestation)
    } else if v == 4 {
        Some(TraceEventType::Replay)
    } else if v == 5 {
        Some(TraceEventType::Compare)
    } else {
        None
    }
}

impl TraceEventType {
    /// The event type with wire code `value`.
    pub fn from_u8(value: u8) -> (r: Option<Self>)
        ensures
            r == event_type_from_code(value),
    {
        match value {
            1u8 => Some(TraceEventType::Observation),
            2u8 => Some(TraceEventType::Decision),
            3u8 => Some(TraceEventType::Attestation),
            4u8 => Some(TraceEventType::Replay),
            5u8 => Some(TraceEventType::Compare),
            _ => None,
        }
    }

    /// The wire code of the event type.
    pub fn as_u8(self) -> (r: u8)
        ensures
            r == event_type_code(self),
    {
        match self {
            TraceEventType::Observation => 1,
            TraceEventType::Decision => 2,
            TraceEventType::Attestation => 3,
            TraceEventType::Replay => 4,
            TraceEventType::Compare => 5,
        }
    }
}

/// One step of the trace that led to a receipt.
#[derive(Clone, Debug)]
pub struct TraceEvent {
    pub id: TraceId,
    pub kind: TraceEventType,
    pub subject_hash: Digest,
    pub input_hash: Digest,
    pub output_hash: Digest,
    pub policy_hash: Digest,
    pub previous_event_hash: Digest,
    pub actor: IssuerId,
    pub sequence: u64,
    pub content: ContentBytes<MAX_TRACE_EVENT_LEN>,
}

/// The hash of a trace event: its type code (one byte), the subject, input,
/// output, policy and previous-event hashes, the actor, the sequence (eight
/// big-endian bytes) and the content, hashed under the label `trace_event`.
pub open spec fn event_hash_spec(e: TraceEvent) -> Seq<u8> {
    sha256_spec(labeled_preimage(
        TRACE_EVENT_LABEL@,
        seq![
            seq![event_type_code(e.kind)],
            e.subject_hash@,
            e.input_hash@,
            e.output_hash@,
            e.policy_hash@,
            e.previous_event_hash@,
            e.actor@,
            be64(e.sequence),
            e.content@,
        ],
    ))
}

/// The hash of a sequence of events: their hashes, in order, hashed under the
/// label `trace_sequence`.
pub open spec fn trace_hash_spec(events: Seq<TraceEvent>) -> Seq<u8> {
    sha256_spec(labeled_preimage(TRACE_SEQUENCE_LABEL@, events.map_values(|e: TraceEvent| event_hash_spec(e))))
}

impl TraceEvent {
    /// An empty observation with zero hashes.
    pub fn new() -> (r: Self)
        ensures
            r.id@ == Seq::<u8>::empty(),
            r.kind == TraceEventType::Observation,
            r.subject_hash@ == crate::receipt::zero_digest(),
            r.input_hash@ == crate::receipt::zero_digest(),
            r.output_hash@ == crate::receipt::zero_digest(),
            r.policy_hash@ == crate::receipt::zero_digest(),
            r.previous_event_hash@ == crate::receipt::zero_digest(),
            r.actor@ == Seq::<u8>::empty(),
            r.sequence == 0,
            r.content@ == Seq::<u8>::empty(),
    {
        TraceEvent {
            id: TraceId::new(),
            kind: TraceEventType::Observation,
            subject_hash: Digest::zero(),
            input_hash: Digest::zero(),
            output_hash: Digest::zero(),
            policy_hash: Digest::zero(),
            previous_event_hash: Digest::zero(),
            actor: IssuerId::new(),
            sequence: 0,
            content: ContentBytes::new(),
        }
    }

    /// An event with identifier `event`; the content must hold one to
    /// `MAX_TRACE_EVENT_LEN` bytes.
    pub fn from_slice(kind: TraceEventType, actor: IssuerId, content: &[u8]) -> (r: Result<Self>)
        ensures
            content@.len() == 0 ==> r == Err::<Self, Error>(Error::EmptyValue),
            content@.len() > MAX_TRACE_EVENT_LEN ==> r == Err::<Self, Error>(Error::ValueTooLong),
            0 < content@.len() <= MAX_TRACE_EVENT_LEN ==> (r matches Ok(e) && e.id@ == EVENT_LABEL@
                && e.kind == kind && e.actor == actor && e.content@ == content@ && e.sequence == 0
                && e.subject_hash@ == crate::receipt::zero_digest()
                && e.input_hash@ == crate::receipt::zero_digest()
                && e.output_hash@ == crate::receipt::zero_digest()
                && e.policy_hash@ == crate::receipt::zero_digest()
                && e.previous_event_hash@ == crate::receipt::zero_digest()),
    {
        let mut event = Self::new();
        event.id = TraceId::from_bytes(EVENT_LABEL.as_slice())?;
        event.kind = kind;
        event.actor = actor;
        event.set_content(content)?;
        Ok(event)
    }

    /// Replaces the content; on an empty or over-long content the event is left
    /// as it was.
    pub fn set_content(&mut self, content: &[u8]) -> (r: Result<()>)
        ensures
            content@.len() == 0 ==> r == Err::<(), Error>(Error::EmptyValue),
            content@.len() > MAX_TRACE_EVENT_LEN ==> r == Err::<(), Error>(Error::ValueTooLong),
            r is Ok <==> 0 < content@.len() <= MAX_TRACE_EVENT_LEN,
            r is Ok ==> final(self).content@ == content@,
            r is Err ==> final(self).content@ == old(self).content@,
            final(self).content@ == content_step(old(self).content@, content@),
            final(self).id == old(self).id,
            final(self).kind == old(self).kind,
            final(self).subject_hash == old(self).subject_hash,
            final(self).input_hash == old(self).input_hash,
            final(self).output_hash == old(self).output_hash,
            final(self).policy_hash == old(self).policy_hash,
            final(self).previous_event_hash == old(self).previous_event_hash,
            final(self).actor == old(self).actor,
            final(self).sequence == old(self).sequence,
    {
        let copy = ContentBytes::from_slice(content)?;
        self.content = copy;
        Ok(())
    }

    /// The event content.
    pub fn content(&self) -> (r: &[u8])
        ensures
            r@ == self.content@,
    {
        self.content.as_slice()
    }

    /// The event hash.
    pub fn compute_hash(&self) -> (r: Result<Digest>)
        ensures
            r matches Ok(d) && d@ == event_hash_spec(*self),
    {
        let kind: [u8; 1] = [self.kind.as_u8()];
        let mut seq_bytes: Vec<u8> = Vec::new();
        crate::bytes::push_be64(&mut seq_bytes, self.sequence);
        let parts: [&[u8]; 9] = [
            kind.as_slice(),
            self.subject_hash.0.as_slice(),
            self.input_hash.0.as_slice(),
            self.output_hash.0.as_slice(),
            self.policy_hash.0.as_slice(),
            self.previous_event_hash.0.as_slice(),
            self.actor.as_bytes(),
            seq_bytes.as_slice(),
            self.content(),
        ];
        assert(kind@ =~= seq![event_type_code(self.kind)]);
        assert(slices_view(parts@) =~= seq![
            seq![event_type_code(self.kind)],
            self.subject_hash@,
            self.input_hash@,
            self.output_hash@,
            self.policy_hash@,
            self.previous_event_hash@,
            self.actor@,
            be64(self.sequence),
            self.content@,
        ]);
        crate::hash::hash_many_labeled(TRACE_EVENT_LABEL.as_slice(), parts.as_slice())
    }
}

impl Default for TraceEvent {
    fn default() -> (r: Self)
        ensures
            r.id@ == Seq::<u8>::empty(),
            r.kind == TraceEventType::Observation,
            r.subject_hash@ == crate::receipt::zero_digest(),
            r.input_hash@ == crate::receipt::zero_digest(),
            r.output_hash@ == crate::receipt::zero_digest(),
            r.policy_hash@ == crate::receipt::zero_digest(),
            r.previous_event_hash@ == crate::receipt::zero_digest(),
            r.actor@ == Seq::<u8>::empty(),
            r.sequence == 0,
            r.content@ == Seq::<u8>::empty(),
    {
        TraceEvent::new()
    }
}

/// Whether `set_content` accepts `content`: one to `MAX_TRACE_EVENT_LEN` bytes.
pub open spec fn content_accepted(content: Seq<u8>) -> bool {
    0 < content.len() <= MAX_TRACE_EVENT_LEN
}

/// An event's content after `set_content(x)` on content `c`.
pub open spec fn content_step(c: Seq<u8>, x: Seq<u8>) -> Seq<u8> {
    if content_accepted(x) { x } else { c }
}

/// The content after `set_content` of each of `xs`, in turn, from content `c`.
pub open spec fn content_after(c: Seq<u8>, xs: Seq<Seq<u8>>) -> Seq<u8>
    decreases xs.len(),
{
    if xs.len() == 0 { c } else { content_step(content_after(c, xs.drop_last()), xs.last()) }
}

/// The hash of a trace; traces of more than `MAX_TRACE_EVENTS` events are
/// refused.
pub fn trace_hash(events: &[TraceEvent]) -> (r: Result<Digest>)
    ensures
        events@.len() > MAX_TRACE_EVENTS ==> r == Err::<Digest, Error>(Error::ValueTooLong),
        events@.len() <= MAX_TRACE_EVENTS ==> (r matches Ok(d) && d@ == trace_hash_spec(events@)),
{
    if events.len() > MAX_TRACE_EVENTS {
        return Err(Error::ValueTooLong);
    }
    let mut digests: Vec<Digest> = Vec::new();
    let mut i: usize = 0;
    while i < events.len()
        invariant
            i <= events@.len(),
            digests@.len() == i,
            forall|j: int| 0 <= j < i ==> #[trigger] digests@[j]@ == event_hash_spec(events@[j]),
        decreases events@.len() - i,
    {
        let d = events[i].compute_hash()?;
        digests.push(d);
        i = i + 1;
    }
    let mut parts: Vec<&[u8]> = Vec::new();
    let mut k: usize = 0;
    while k < digests.len()
        invariant
            k <= digests@.len(),
            parts@.len() == k,
            forall|j: int| 0 <= j < k ==> #[trigger] parts@[j]@ == digests@[j]@,
        decreases digests@.len() - k,
    {
        parts.push(digests[k].0.as_slice());
        k = k + 1;
    }
    assert(slices_view(parts@) =~= events@.map_values(|e: TraceEvent| event_hash_spec(e)));
    crate::hash::hash_many_labeled(TRACE_SEQUENCE_LABEL.as_slice(), parts.as_slice())
}

/// The event hash covers the event's type, its subject, input, output, policy
/// and previous-event hashes, and its sequence number: two events with the
/// same actor and content that differ in any of these (for one, only in the
/// previous-event hash) hash different messages, so their hashes differ
/// unless SHA-256 collides, and a trace hash binds the chain of events.
pub proof fn law_event_hash_binds_fields(e1: TraceEvent, e2: TraceEvent)
    requires
        e1.actor@ == e2.actor@,
        e1.content@ == e2.content@,
        e1.kind != e2.kind || e1.subject_hash@ != e2.subject_hash@ || e1.input_hash@ != e2.input_hash@
            || e1.output_hash@ != e2.output_hash@ || e1.policy_hash@ != e2.policy_hash@
            || e1.previous_event_hash@ != e2.previous_event_hash@ || e1.sequence != e2.sequence,
    ensures
        exists|m1: Seq<u8>, m2: Seq<u8>| m1 != m2
            && event_hash_spec(e1) == sha256_spec(m1)
            && event_hash_spec(e2) == sha256_spec(m2),
{
    let a = seq![
        seq![event_type_code(e1.kind)], e1.subject_hash@, e1.input_hash@, e1.output_hash@, e1.policy_hash@,
        e1.previous_event_hash@, e1.actor@, be64(e1.sequence), e1.content@,
    ];
    let b = seq![
        seq![event_type_code(e2.kind)], e2.subject_hash@, e2.input_hash@, e2.output_hash@, e2.policy_hash@,
        e2.previous_event_hash@, e2.actor@, be64(e2.sequence), e2.content@,
    ];
    if e1.kind != e2.kind {
        assert(a[0][0] != b[0][0]);
        assert(a[0] != b[0]);
    } else if e1.sequence != e2.sequence {
        crate::bytes::lemma_be64_roundtrip(e1.sequence);
        crate::bytes::lemma_be64_roundtrip(e2.sequence);
        assert(a[7] != b[7]);
    } else if e1.subject_hash@ != e2.subject_hash@ {
        assert(a[1] != b[1]);
    } else if e1.input_hash@ != e2.input_hash@ {
        assert(a[2] != b[2]);
    } else if e1.output_hash@ != e2.output_hash@ {
        assert(a[3] != b[3]);
    } else if e1.policy_hash@ != e2.policy_hash@ {
        assert(a[4] != b[4]);
    } else {
        assert(a[5] != b[5]);
    }
    assert(a != b);
    crate::hash::lemma_labeled_preimage_distinct(TRACE_EVENT_LABEL@, a, b);
    let m1 = labeled_preimage(TRACE_EVENT_LABEL@, a);
    let m2 = labeled_preimage(TRACE_EVENT_LABEL@, b);
    assert(event_hash_spec(e1) == sha256_spec(m1));
    assert(event_hash_spec(e2) == sha256_spec(m2));
}

/// The trace hash covers every event hash, in order: two traces whose lists
/// of event hashes differ hash different messages.
pub proof fn law_trace_hash_binds_event_hashes(t1: Seq<TraceEvent>, t2: Seq<TraceEvent>)
    requires
        t1.map_values(|e: TraceEvent| event_hash_spec(e)) != t2.map_values(|e: TraceEvent| event_hash_spec(e)),
        forall|j: int| 0 <= j < t1.len() ==> (#[trigger] event_hash_spec(t1[j])).len() == 32,
        forall|j: int| 0 <= j < t2.len() ==> (#[trigger] event_hash_spec(t2[j])).len() == 32,
    ensures
        exists|m1: Seq<u8>, m2: Seq<u8>| m1 != m2
            && trace_hash_spec(t1) == sha256_spec(m1)
            && trace_hash_spec(t2) == sha256_spec(m2),
{
    let h1 = t1.map_values(|e: TraceEvent| event_hash_spec(e));
    let h2 = t2.map_values(|e: TraceEvent| event_hash_spec(e));
    assert forall|j: int| 0 <= j < h1.len() implies (#[trigger] h1[j]).len() == 32 by {
        assert(h1[j] == event_hash_spec(t1[j]));
    }
    assert forall|j: int| 0 <= j < h2.len() implies (#[trigger] h2[j]).len() == 32 by {
        assert(h2[j] == event_hash_spec(t2[j]));
    }
    crate::hash::lemma_labeled_preimage_distinct_fixed(TRACE_SEQUENCE_LABEL@, h1, h2, 32);
    let m1 = labeled_preimage(TRACE_SEQUENCE_LABEL@, h1);
    let m2 = labeled_preimage(TRACE_SEQUENCE_LABEL@, h2);
    assert(trace_hash_spec(t1) == sha256_spec(m1));
    assert(trace_hash_spec(t2) == sha256_spec(m2));
}

/// The event hash covers every field it names: two events that differ in their
/// type, any of their five hashes, their actor, their sequence number or their
/// content (actor and content no longer than a four-byte length can say) hash
/// different messages.
pub proof fn law_event_hash_binds_event(e1: TraceEvent, e2: TraceEvent)
    requires
        e1.actor@.len() <= u32::MAX,
        e1.content@.len() <= u32::MAX,
        e2.actor@.len() <= u32::MAX,
        e2.content@.len() <= u32::MAX,
        e1.kind != e2.kind || e1.subject_hash@ != e2.subject_hash@ || e1.input_hash@ != e2.input_hash@
            || e1.output_hash@ != e2.output_hash@ || e1.policy_hash@ != e2.policy_hash@
            || e1.previous_event_hash@ != e2.previous_event_hash@ || e1.actor@ != e2.actor@
            || e1.sequence != e2.sequence || e1.content@ != e2.content@,
    ensures
        exists|m1: Seq<u8>, m2: Seq<u8>| m1 != m2
            && event_hash_spec(e1) == sha256_spec(m1)
            && event_hash_spec(e2) == sha256_spec(m2),
{
    let a = seq![
        seq![event_type_code(e1.kind)], e1.subject_hash@, e1.input_hash@, e1.output_hash@, e1.policy_hash@,
        e1.previous_event_hash@, e1.actor@, be64(e1.sequence), e1.content@,
    ];
    let b = seq![
        seq![event_type_code(e2.kind)], e2.subject_hash@, e2.input_hash@, e2.output_hash@, e2.policy_hash@,
        e2.previous_event_hash@, e2.actor@, be64(e2.sequence), e2.content@,
    ];
    if a == b {
        assert(a[0][0] == b[0][0]);
        assert(a[1] == b[1] && a[2] == b[2] && a[3] == b[3] && a[4] == b[4] && a[5] == b[5]);
        assert(a[6] == b[6] && a[7] == b[7] && a[8] == b[8]);
        crate::bytes::lemma_be64_roundtrip(e1.sequence);
        crate::bytes::lemma_be64_roundtrip(e2.sequence);
        assert(e1.kind == e2.kind);
    }
    crate::hash::lemma_labeled_preimage_injective(TRACE_EVENT_LABEL@, a, b);
    let m1 = labeled_preimage(TRACE_EVENT_LABEL@, a);
    let m2 = labeled_preimage(TRACE_EVENT_LABEL@, b);
    assert(event_hash_spec(e1) == sha256_spec(m1));
    assert(event_hash_spec(e2) == sha256_spec(m2));
}

} // verus!
