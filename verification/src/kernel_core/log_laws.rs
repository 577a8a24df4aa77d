use crate::kernel_core::canonical_state::{digest_of, initial_state_view, KernelStateView};
use crate::kernel_core::constitution_checker::{
    audit_violations, ViolationView, hash_violations, hash_violations_at, replay_violations,
    schema_violations, structure_violations, structure_violations_at,
};
use crate::kernel_core::event::{can_follow, event_follows, hash_consistent, made_after, Event};
use crate::kernel_core::event_hash::zero_hash_bytes;
use crate::kernel_core::event_id::EventId;
use crate::kernel_core::event_metadata::EventMetadata;
use crate::kernel_core::invariant_checker::{
    first_time_violation, invariant_failures, link_invariant_failures, state_invariant_failures,
    time_invariant_failures, time_order_broken_at,
};
use crate::kernel_core::logical_time::LogicalTime;
use crate::kernel_core::reducer::{kernel_step, replay, replayable, KernelReducer, Reducer};
use crate::kernel_core::replay_validator::{chain_failures, first_link_failures, link_failures, replay_report_matches, ReplayResult};
use vstd::prelude::*;

verus! {

/// Whether `e` is a genesis event as `Event::genesis` makes it.
pub open spec fn is_genesis_event(e: Event) -> bool {
    &&& e.id == (EventId { epoch: 0, seq: 0 })
    &&& e.logical_time == (LogicalTime { epoch: 0, tick: 0, sequence: 0 })
    &&& e.parent_hash@ == zero_hash_bytes()
    &&& e.metadata.schema_version == 1
    &&& e.metadata.sequence == 0
    &&& e.metadata.logical_time_epoch == 0
    &&& e.metadata.logical_time_tick == 0
    &&& e.metadata.logical_time_seq == 0
    &&& hash_consistent(e)
}

/// Whether `events` is a log the kernel builds: a genesis event, then events
/// each made by `Event::new_after` from the one before.
pub open spec fn is_kernel_log(events: Seq<Event>) -> bool {
    &&& events.len() >= 1
    &&& is_genesis_event(events[0])
    &&& forall|i: int|
        1 <= i < events.len() ==> can_follow(events[i - 1]) && #[trigger] made_after(events[i], events[i - 1])
}

/// The kernel reducer keeps the state digest consistent: the initial state and
/// every state it steps to carry the digest of their own contents.
pub proof fn lemma_kernel_states_carry_their_digest(state: KernelStateView, event: Event)
    ensures
        initial_state_view().state_hash == digest_of(initial_state_view()),
        kernel_step(state, event).state_hash == digest_of(kernel_step(state, event)),
{
}

/// Replaying a log with the kernel reducer counts its events, ends at its last
/// event, keeps its first event's hash, and carries a consistent digest; every
/// log that fits the counter can be replayed.
pub proof fn lemma_kernel_replay(events: Seq<Event>)
    requires
        events.len() <= u64::MAX,
    ensures
        replayable(KernelReducer, events),
        replay(KernelReducer, events).event_count == events.len(),
        replay(KernelReducer, events).state_hash == digest_of(replay(KernelReducer, events)),
        events.len() > 0 ==> replay(KernelReducer, events).last_logical_time == events.last().logical_time,
        events.len() > 0 ==> replay(KernelReducer, events).latest_hash == events.last().event_hash@,
        events.len() > 0 ==> replay(KernelReducer, events).genesis_hash == events[0].event_hash@,
        events.len() > 0 ==> replay(KernelReducer, events).last_event_id == events.last().id,
    decreases events.len(),
{
    if events.len() > 0 {
        let prefix = events.drop_last();
        lemma_kernel_replay(prefix);
        if prefix.len() > 0 {
            assert(prefix[0] == events[0]);
        }
        assert forall|i: int| 0 <= i < events.len() implies KernelReducer.step_allowed(
            #[trigger] replay(KernelReducer, events.take(i)),
            events[i],
        ) by {
            if i < events.len() - 1 {
                assert(events.take(i) =~= prefix.take(i));
                assert(KernelReducer.step_allowed(replay(KernelReducer, prefix.take(i)), prefix[i]));
            } else {
                assert(events.take(i) =~= prefix);
            }
        }
    }
}

/// Every event of a kernel log keeps the genesis schema version.
proof fn lemma_kernel_log_schema(events: Seq<Event>, i: int)
    requires
        is_kernel_log(events),
        0 <= i < events.len(),
    ensures
        events[i].metadata.schema_version == 1,
        events[i].metadata.logical_time_epoch == events[i].logical_time.epoch,
        events[i].metadata.logical_time_tick == events[i].logical_time.tick,
        events[i].metadata.logical_time_seq == events[i].logical_time.sequence,
        hash_consistent(events[i]),
    decreases i,
{
    if i > 0 {
        lemma_kernel_log_schema(events, i - 1);
        assert(made_after(events[i], events[i - 1]));
    }
}

/// A kernel log shows no broken hash link.
pub proof fn lemma_kernel_log_links(events: Seq<Event>, n: nat)
    requires
        is_kernel_log(events),
        n <= events.len(),
    ensures
        chain_failures(events, n) == Seq::<(u64, Seq<char>)>::empty(),
        hash_violations(events, n) == Seq::<ViolationView>::empty(),
    decreases n,
{
    if n > 0 {
        lemma_kernel_log_links(events, (n - 1) as nat);
        let i = n - 1;
        lemma_kernel_log_schema(events, i);
        if i > 0 {
            assert(made_after(events[i], events[i - 1]));
            assert(link_failures(events, i) =~= Seq::empty());
        } else {
            assert(first_link_failures(events[0]) =~= Seq::empty());
        }
        assert(hash_violations_at(events, i) =~= Seq::empty());
    }
}

/// A kernel log breaks no rule of the event model, the schemas or the metadata.
pub proof fn lemma_kernel_log_structure(events: Seq<Event>, n: nat)
    requires
        is_kernel_log(events),
        n <= events.len(),
    ensures
        structure_violations(events, n) == Seq::<ViolationView>::empty(),
        schema_violations(events, n) == Seq::<ViolationView>::empty(),
    decreases n,
{
    if n > 0 {
        lemma_kernel_log_structure(events, (n - 1) as nat);
        let i = n - 1;
        lemma_kernel_log_schema(events, i);
        lemma_kernel_log_schema(events, 0);
        if i > 0 {
            assert(made_after(events[i], events[i - 1]));
            assert(event_follows(events[i], events[i - 1]));
        }
        assert(structure_violations_at(events, i) =~= Seq::empty());
    }
}

/// The times of a kernel log increase strictly.
pub proof fn lemma_kernel_log_times(events: Seq<Event>)
    requires
        is_kernel_log(events),
    ensures
        first_time_violation(events) is None,
{
    assert forall|i: int| !#[trigger] time_order_broken_at(events, i) by {
        if 1 <= i < events.len() {
            assert(made_after(events[i], events[i - 1]));
            assert(can_follow(events[i - 1]));
        }
    }
}

/// Auditing a kernel log against the state the kernel reducer replays from it
/// finds no violation.
pub proof fn lemma_kernel_log_is_compliant(events: Seq<Event>)
    requires
        is_kernel_log(events),
        events.len() <= u64::MAX,
    ensures
        replayable(KernelReducer, events),
        audit_violations(replay(KernelReducer, events), events, replay(KernelReducer, events))
            == Seq::<ViolationView>::empty(),
{
    lemma_kernel_replay(events);
    lemma_kernel_log_structure(events, events.len());
    lemma_kernel_log_links(events, events.len());
    let s = replay(KernelReducer, events);
    assert(replay_violations(s, events, s) =~= Seq::empty());
    assert(audit_violations(s, events, s) =~= Seq::empty());
}

/// A kernel log and the state replayed from it satisfy every kernel invariant,
/// provided no event hash is all zeros (the genesis and latest hashes of the
/// state are event hashes).
pub proof fn lemma_kernel_log_keeps_invariants(events: Seq<Event>)
    requires
        is_kernel_log(events),
        events.len() <= u64::MAX,
        forall|i: int| 0 <= i < events.len() ==> #[trigger] events[i].event_hash@ != zero_hash_bytes(),
    ensures
        replayable(KernelReducer, events),
        invariant_failures(replay(KernelReducer, events), events) == Seq::<(Seq<char>, Seq<char>)>::empty(),
{
    lemma_kernel_replay(events);
    lemma_kernel_log_links(events, events.len());
    lemma_kernel_log_times(events);
    let s = replay(KernelReducer, events);
    assert(events[0].event_hash@ != zero_hash_bytes());
    assert(events[events.len() - 1].event_hash@ != zero_hash_bytes());
    assert(state_invariant_failures(s) =~= Seq::empty());
    assert(time_invariant_failures(s, events) =~= Seq::empty());
    assert(link_invariant_failures(events) =~= Seq::empty());
    assert(invariant_failures(s, events) =~= Seq::empty());
}

/// Validating a log against the state replayed from it always passes.
pub proof fn lemma_live_replay_passes(events: Seq<Event>, r: ReplayResult)
    requires
        replay_report_matches(r, replay(KernelReducer, events), events.len(), replay(KernelReducer, events)),
    ensures
        r.passed,
{
    if events.len() == 0 {
        assert(replay(KernelReducer, events) == initial_state_view());
    }
}

} // verus!
