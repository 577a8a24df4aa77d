use crate::kernel_core::digest::sha256;
use crate::kernel_core::event_hash::{
    compute_event_hash, compute_payload_hash, event_digest, zero_hash_bytes, EventHash,
};
use crate::kernel_core::event_id::{event_id_text, id_follows, EventId};
use crate::kernel_core::event_metadata::{EventMetadata, EventSource};
use crate::kernel_core::logical_time::{logical_time_text, time_before, LogicalTime};
use crate::text::{append_bytes, append_utf8};
use vstd::prelude::*;
use vstd::utf8::encode_utf8;

verus! {

/// What happened in an event.
#[derive(Debug, Clone, PartialEq, Eq, Hash)]
pub enum EventPayload {
    /// Marks the creation of the event log itself.
    Genesis,
    /// A lifecycle transition (boot, shutdown, checkpoint, ...).
    Lifecycle { transition: String, from_state: String, to_state: String },
    /// An opaque byte payload for upper layers.
    Custom { event_type: String, data: Vec<u8> },
    /// A self-describing failure.
    Failure { component: String, class: String, message: String },
}

/// The canonical bytes of a payload: a kind digit, then the fields separated by
/// zero bytes (the data of a custom payload follows its type unchanged).
pub open spec fn payload_encoding(p: EventPayload) -> Seq<u8> {
    match p {
        EventPayload::Genesis => seq![48u8],
        EventPayload::Lifecycle { transition, from_state, to_state } => seq![49u8] + encode_utf8(
            transition@,
        ) + seq![0u8] + encode_utf8(from_state@) + seq![0u8] + encode_utf8(to_state@),
        EventPayload::Custom { event_type, data } => seq![50u8] + encode_utf8(event_type@) + seq![
            0u8,
        ] + data@,
        EventPayload::Failure { component, class, message } => seq![51u8] + encode_utf8(
            component@,
        ) + seq![0u8] + encode_utf8(class@) + seq![0u8] + encode_utf8(message@),
    }
}

/// The label of a payload's kind.
pub open spec fn payload_kind(p: EventPayload) -> Seq<char> {
    match p {
        EventPayload::Genesis => "Genesis"@,
        EventPayload::Lifecycle { .. } => "Lifecycle"@,
        EventPayload::Custom { .. } => "Custom"@,
        EventPayload::Failure { .. } => "Failure"@,
    }
}

/// Whether two payloads have the same kind and the same field contents.
pub open spec fn same_payload(a: EventPayload, b: EventPayload) -> bool {
    match (a, b) {
        (EventPayload::Genesis, EventPayload::Genesis) => true,
        (
            EventPayload::Lifecycle { transition: t1, from_state: f1, to_state: s1 },
            EventPayload::Lifecycle { transition: t2, from_state: f2, to_state: s2 },
        ) => t1@ == t2@ && f1@ == f2@ && s1@ == s2@,
        (
            EventPayload::Custom { event_type: t1, data: d1 },
            EventPayload::Custom { event_type: t2, data: d2 },
        ) => t1@ == t2@ && d1@ == d2@,
        (
            EventPayload::Failure { component: c1, class: k1, message: m1 },
            EventPayload::Failure { component: c2, class: k2, message: m2 },
        ) => c1@ == c2@ && k1@ == k2@ && m1@ == m2@,
        _ => false,
    }
}

impl EventPayload {
    /// The label of this payload's kind.
    pub fn kind(&self) -> (r: &'static str)
        ensures
            r@ == payload_kind(*self),
    {
        match self {
            EventPayload::Genesis => "Genesis",
            EventPayload::Lifecycle { .. } => "Lifecycle",
            EventPayload::Custom { .. } => "Custom",
            EventPayload::Failure { .. } => "Failure",
        }
    }

    /// A copy of this payload.
    pub fn duplicate(&self) -> (r: Self)
        ensures
            same_payload(r, *self),
            payload_encoding(r) == payload_encoding(*self),
    {
        match self {
            EventPayload::Genesis => EventPayload::Genesis,
            EventPayload::Lifecycle { transition, from_state, to_state } => EventPayload::Lifecycle {
                transition: transition.clone(),
                from_state: from_state.clone(),
                to_state: to_state.clone(),
            },
            EventPayload::Custom { event_type, data } => {
                let mut copy: Vec<u8> = Vec::new();
                append_bytes(&mut copy, data.as_slice());
                EventPayload::Custom { event_type: event_type.clone(), data: copy }
            },
            EventPayload::Failure { component, class, message } => EventPayload::Failure {
                component: component.clone(),
                class: class.clone(),
                message: message.clone(),
            },
        }
    }
}

/// The canonical bytes of a payload, as hashed into its event.
pub fn payload_bytes(payload: &EventPayload) -> (r: Vec<u8>)
    ensures
        r@ == payload_encoding(*payload),
{
    let mut buf: Vec<u8> = Vec::new();
    match payload {
        EventPayload::Genesis => {
            buf.push(48u8);
        },
        EventPayload::Lifecycle { transition, from_state, to_state } => {
            buf.push(49u8);
            append_utf8(&mut buf, transition.as_str());
            buf.push(0u8);
            append_utf8(&mut buf, from_state.as_str());
            buf.push(0u8);
            append_utf8(&mut buf, to_state.as_str());
        },
        EventPayload::Custom { event_type, data } => {
            buf.push(50u8);
            append_utf8(&mut buf, event_type.as_str());
            buf.push(0u8);
            append_bytes(&mut buf, data.as_slice());
        },
        EventPayload::Failure { component, class, message } => {
            buf.push(51u8);
            append_utf8(&mut buf, component.as_str());
            buf.push(0u8);
            append_utf8(&mut buf, class.as_str());
            buf.push(0u8);
            append_utf8(&mut buf, message.as_str());
        },
    }
    proof {
        assert(buf@ =~= payload_encoding(*payload));
    }
    buf
}

/// The canonical event: the atomic, hash-linked unit of change.
#[derive(Debug, Clone, PartialEq, Eq)]
pub struct Event {
    pub id: EventId,
    pub logical_time: LogicalTime,
    pub parent_hash: EventHash,
    pub event_hash: EventHash,
    pub payload: EventPayload,
    pub metadata: EventMetadata,
}

/// The hash an event with these parts must carry: SHA-256 over the parent hash,
/// the id text, the time text and the SHA-256 of the payload's canonical bytes.
pub open spec fn event_hash_of(parent: Seq<u8>, id: EventId, time: LogicalTime, payload: EventPayload) -> Seq<u8> {
    event_digest(
        parent,
        encode_utf8(event_id_text(id)),
        encode_utf8(logical_time_text(time)),
        sha256(payload_encoding(payload)),
    )
}

/// Whether an event's hash matches its contents.
pub open spec fn hash_consistent(e: Event) -> bool {
    e.event_hash@ == event_hash_of(e.parent_hash@, e.id, e.logical_time, e.payload)
}

/// Whether `e` directly follows `prev`: its id is the next one, it links to
/// `prev`'s hash, and its time is later.
pub open spec fn event_follows(e: Event, prev: Event) -> bool {
    &&& id_follows(e.id, prev.id)
    &&& e.parent_hash@ == prev.event_hash@
    &&& time_before(prev.logical_time, e.logical_time)
}

/// Whether `e` is what `Event::new_after` makes from `prev` (whatever the payload
/// and the creation context).
pub open spec fn made_after(e: Event, prev: Event) -> bool {
    &&& e.id == (EventId { epoch: prev.id.epoch, seq: (prev.id.seq + 1) as u64 })
    &&& e.logical_time == (LogicalTime {
        epoch: prev.logical_time.epoch,
        tick: prev.logical_time.tick,
        sequence: (prev.logical_time.sequence + 1) as u64,
    })
    &&& e.parent_hash == prev.event_hash
    &&& e.metadata.schema_version == prev.metadata.schema_version
    &&& e.metadata.sequence == e.id.seq
    &&& e.metadata.logical_time_epoch == e.logical_time.epoch
    &&& e.metadata.logical_time_tick == e.logical_time.tick
    &&& e.metadata.logical_time_seq == e.logical_time.sequence
    &&& hash_consistent(e)
}

/// Whether an event can be followed by `Event::new_after`.
pub open spec fn can_follow(prev: Event) -> bool {
    prev.id.seq < u64::MAX && prev.logical_time.sequence < u64::MAX
}

/// Whether two events carry the same contents.
pub open spec fn same_event(a: Event, b: Event) -> bool {
    &&& a.id == b.id
    &&& a.logical_time == b.logical_time
    &&& a.parent_hash == b.parent_hash
    &&& a.event_hash == b.event_hash
    &&& same_payload(a.payload, b.payload)
    &&& payload_encoding(a.payload) == payload_encoding(b.payload)
    &&& a.metadata == b.metadata
}

fn hash_for(parent_hash: &EventHash, id: &EventId, time: &LogicalTime, payload: &EventPayload) -> (r: EventHash)
    ensures
        r@ == event_hash_of(parent_hash@, *id, *time, *payload),
{
    let payload_hash = compute_payload_hash(payload_bytes(payload).as_slice());
    let id_text = id.to_text();
    let time_text = time.to_text();
    compute_event_hash(parent_hash, id_text.as_str().as_bytes(), time_text.as_str().as_bytes(), &payload_hash)
}

impl Event {
    /// The genesis event: the first event of every log.
    pub fn genesis() -> (r: Self)
        ensures
            r.id == (EventId { epoch: 0, seq: 0 }),
            r.logical_time == (LogicalTime { epoch: 0, tick: 0, sequence: 0 }),
            r.parent_hash@ == zero_hash_bytes(),
            r.payload == EventPayload::Genesis,
            r.metadata == (EventMetadata {
                source: EventSource::System,
                correlation_id: None,
                causation_id: None,
                schema_version: 1,
                sequence: 0,
                logical_time_epoch: 0,
                logical_time_tick: 0,
                logical_time_seq: 0,
            }),
            hash_consistent(r),
    {
        let id = EventId::zero();
        let logical_time = LogicalTime::zero();
        let parent_hash = EventHash::zero();
        let payload = EventPayload::Genesis;
        let metadata = EventMetadata::new(
            EventSource::System,
            None,
            None,
            1,
            id.seq,
            logical_time.epoch,
            logical_time.tick,
            logical_time.sequence,
        );
        let event_hash = hash_for(&parent_hash, &id, &logical_time, &payload);
        Event { id, logical_time, parent_hash, event_hash, payload, metadata }
    }

    /// A new event following `prev`: the next id and sequence, linked to
    /// `prev`'s hash, inheriting its schema version.
    pub fn new_after(
        prev: &Event,
        payload: EventPayload,
        source: EventSource,
        correlation_id: Option<String>,
        causation_id: Option<String>,
    ) -> (r: Self)
        requires
            can_follow(*prev),
        ensures
            made_after(r, *prev),
            r.payload == payload,
            r.metadata == (EventMetadata {
                source,
                correlation_id,
                causation_id,
                schema_version: prev.metadata.schema_version,
                sequence: r.id.seq,
                logical_time_epoch: r.logical_time.epoch,
                logical_time_tick: r.logical_time.tick,
                logical_time_seq: r.logical_time.sequence,
            }),
    {
        let id = prev.id.next();
        let logical_time = prev.logical_time.next_sequence();
        let parent_hash = prev.event_hash;
        let schema_version = prev.metadata.schema_version;
        let metadata = EventMetadata::new(
            source,
            correlation_id,
            causation_id,
            schema_version,
            id.seq,
            logical_time.epoch,
            logical_time.tick,
            logical_time.sequence,
        );
        let event_hash = hash_for(&parent_hash, &id, &logical_time, &payload);
        Event { id, logical_time, parent_hash, event_hash, payload, metadata }
    }

    /// Whether this is the genesis event.
    pub fn is_genesis(&self) -> (r: bool)
        ensures
            r == (self.id.epoch == 0 && self.id.seq == 0),
    {
        self.id.is_zero()
    }

    /// Whether the event's hash matches a recomputed hash of its contents.
    pub fn verify_hash(&self) -> (r: bool)
        ensures
            r == hash_consistent(*self),
    {
        let expected = hash_for(&self.parent_hash, &self.id, &self.logical_time, &self.payload);
        self.event_hash == expected
    }

    /// Whether this event directly follows `prev`.
    pub fn follows(&self, prev: &Event) -> (r: bool)
        ensures
            r == event_follows(*self, *prev),
    {
        self.id.is_next_of(&prev.id) && self.parent_hash == prev.event_hash
            && prev.logical_time.precedes(&self.logical_time)
    }

    /// A copy of this event.
    pub fn duplicate(&self) -> (r: Self)
        ensures
            same_event(r, *self),
    {
        Event {
            id: self.id,
            logical_time: self.logical_time,
            parent_hash: self.parent_hash,
            event_hash: self.event_hash,
            payload: self.payload.duplicate(),
            metadata: self.metadata.duplicate(),
        }
    }
}

/// An event made after `prev` follows it and carries a consistent hash.
pub proof fn lemma_made_after_follows(e: Event, prev: Event)
    requires
        can_follow(prev),
        made_after(e, prev),
    ensures
        event_follows(e, prev),
        hash_consistent(e),
{
}

} // verus!
