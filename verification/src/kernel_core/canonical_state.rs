use crate::kernel_core::digest::{sha256, sha256_digest};
use crate::kernel_core::event_hash::{zero_hash_bytes, EventHash};
use crate::kernel_core::event_id::{event_id_text, EventId};
use crate::kernel_core::logical_time::{logical_time_text, LogicalTime};
use crate::text::{append_bytes, append_utf8};
use vstd::bytes::{spec_u64_to_le_bytes, u64_to_le_bytes};
use vstd::prelude::*;
use vstd::utf8::encode_utf8;

verus! {

/// The kernel's summary of an event log: where it ends, how long it is, and a
/// hash over all of that.
#[derive(Debug, Clone, Copy, PartialEq, Eq)]
pub struct CanonicalState {
    pub state_hash: EventHash,
    pub last_event_id: EventId,
    pub last_logical_time: LogicalTime,
    pub event_count: u64,
    pub genesis_hash: EventHash,
    pub latest_hash: EventHash,
    pub epoch: u64,
}

/// The contents of a kernel state, with each hash as its bytes.
pub struct KernelStateView {
    pub state_hash: Seq<u8>,
    pub last_event_id: EventId,
    pub last_logical_time: LogicalTime,
    pub event_count: u64,
    pub genesis_hash: Seq<u8>,
    pub latest_hash: Seq<u8>,
    pub epoch: u64,
}

impl View for CanonicalState {
    type V = KernelStateView;

    open spec fn view(&self) -> KernelStateView {
        KernelStateView {
            state_hash: self.state_hash@,
            last_event_id: self.last_event_id,
            last_logical_time: self.last_logical_time,
            event_count: self.event_count,
            genesis_hash: self.genesis_hash@,
            latest_hash: self.latest_hash@,
            epoch: self.epoch,
        }
    }
}

/// The label that opens every state digest.
pub open spec fn state_digest_label() -> Seq<char> {
    "CanonicalState v1"@
}

/// The digest of a state's contents: SHA-256 over the label, the id text, the
/// time text, the event count (little-endian), the genesis and latest hashes,
/// and the epoch (little-endian).
pub open spec fn state_digest(
    last_event_id: EventId,
    last_logical_time: LogicalTime,
    event_count: u64,
    genesis_hash: Seq<u8>,
    latest_hash: Seq<u8>,
    epoch: u64,
) -> Seq<u8> {
    sha256(
        encode_utf8(state_digest_label()) + encode_utf8(event_id_text(last_event_id)) + encode_utf8(
            logical_time_text(last_logical_time),
        ) + spec_u64_to_le_bytes(event_count) + genesis_hash + latest_hash + spec_u64_to_le_bytes(
            epoch,
        ),
    )
}

/// The digest a state must carry.
pub open spec fn digest_of(v: KernelStateView) -> Seq<u8> {
    state_digest(
        v.last_event_id,
        v.last_logical_time,
        v.event_count,
        v.genesis_hash,
        v.latest_hash,
        v.epoch,
    )
}

/// The state before any event.
pub open spec fn initial_state_view() -> KernelStateView {
    KernelStateView {
        state_hash: state_digest(
            EventId { epoch: 0, seq: 0 },
            LogicalTime { epoch: 0, tick: 0, sequence: 0 },
            0,
            zero_hash_bytes(),
            zero_hash_bytes(),
            0,
        ),
        last_event_id: EventId { epoch: 0, seq: 0 },
        last_logical_time: LogicalTime { epoch: 0, tick: 0, sequence: 0 },
        event_count: 0,
        genesis_hash: zero_hash_bytes(),
        latest_hash: zero_hash_bytes(),
        epoch: 0,
    }
}

impl CanonicalState {
    /// The state before any event, with its digest.
    pub fn initial() -> (r: Self)
        ensures
            r@ == initial_state_view(),
    {
        let state = CanonicalState {
            state_hash: EventHash::zero(),
            last_event_id: EventId::zero(),
            last_logical_time: LogicalTime::zero(),
            event_count: 0,
            genesis_hash: EventHash::zero(),
            latest_hash: EventHash::zero(),
            epoch: 0,
        };
        let hash = compute_state_hash(&state);
        CanonicalState { state_hash: hash, ..state }
    }

    /// Whether no event has been applied.
    pub fn is_empty(&self) -> (r: bool)
        ensures
            r == (self.event_count == 0),
    {
        self.event_count == 0
    }

    /// Whether the stored digest matches the state's contents.
    pub fn verify_hash(&self) -> (r: bool)
        ensures
            r == (self@.state_hash == digest_of(self@)),
    {
        let recomputed = compute_state_hash(self);
        self.state_hash == recomputed
    }
}

/// The digest of a state's contents (its own stored digest is not part of it).
pub fn compute_state_hash(state: &CanonicalState) -> (r: EventHash)
    ensures
        r@ == digest_of(state@),
{
    let mut buf: Vec<u8> = Vec::new();
    append_utf8(&mut buf, "CanonicalState v1");
    let id_text = state.last_event_id.to_text();
    append_utf8(&mut buf, id_text.as_str());
    let time_text = state.last_logical_time.to_text();
    append_utf8(&mut buf, time_text.as_str());
    let count = u64_to_le_bytes(state.event_count);
    append_bytes(&mut buf, count.as_slice());
    append_bytes(&mut buf, state.genesis_hash.as_bytes().as_slice());
    append_bytes(&mut buf, state.latest_hash.as_bytes().as_slice());
    let epoch = u64_to_le_bytes(state.epoch);
    append_bytes(&mut buf, epoch.as_slice());
    proof {
        assert(buf@ =~= encode_utf8(state_digest_label()) + encode_utf8(
            event_id_text(state.last_event_id),
        ) + encode_utf8(logical_time_text(state.last_logical_time)) + spec_u64_to_le_bytes(
            state.event_count,
        ) + state.genesis_hash@ + state.latest_hash@ + spec_u64_to_le_bytes(state.epoch));
    }
    EventHash::from_bytes(sha256_digest(buf.as_slice()))
}

} // verus!
