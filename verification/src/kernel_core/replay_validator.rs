use crate::kernel_core::canonical_state::{CanonicalState, KernelStateView};
use crate::kernel_core::event::{hash_consistent, Event};
use crate::kernel_core::event_hash::{zero_hash_bytes, EventHash};
use crate::kernel_core::reducer::{replay, replay_all, replayable, Reducer};
use crate::text::{append_decimal, decimal, hex};
use vstd::prelude::*;

verus! {

/// The outcome of replaying a log against an expected state.
#[derive(Debug, Clone, PartialEq, Eq)]
pub struct ReplayResult {
    pub passed: bool,
    pub events_replayed: u64,
    pub replayed_state_hash: EventHash,
    pub expected_state_hash: EventHash,
    pub divergence_at: Option<u64>,
    pub diagnostic: String,
}

/// The outcome of checking the hash links of a log.
#[derive(Debug, Clone, PartialEq, Eq)]
pub struct ChainIntegrityResult {
    pub passed: bool,
    pub events_checked: u64,
    pub failures: Vec<ChainFailure>,
}

/// A broken link: the index of the event and why.
#[derive(Debug, Clone, PartialEq, Eq)]
pub struct ChainFailure {
    pub index: u64,
    pub reason: String,
}

impl View for ChainFailure {
    type V = (u64, Seq<char>);

    open spec fn view(&self) -> (u64, Seq<char>) {
        (self.index, self.reason@)
    }
}

/// The diagnostic of a replay against `expected`, given the replayed state.
pub open spec fn replay_diagnostic(count: nat, replayed: Seq<u8>, expected: Seq<u8>) -> Seq<char> {
    if replayed == expected {
        "Replay successful: "@ + decimal(count) + " events replayed."@
    } else {
        "Replay FAILED: replayed hash "@ + hex(replayed) + " != expected hash "@ + hex(expected) + "."@
    }
}

/// What `ReplayValidator::validate` reports for `events` and `expected`.
pub open spec fn replay_report_matches(
    r: ReplayResult,
    replayed: KernelStateView,
    events_len: nat,
    expected: KernelStateView,
) -> bool {
    &&& r.expected_state_hash@ == expected.state_hash
    &&& r.divergence_at is None
    &&& if events_len == 0 {
        &&& r.passed == (expected.event_count == 0)
        &&& r.events_replayed == 0
        &&& r.replayed_state_hash@ == expected.state_hash
        &&& r.diagnostic@ == (if expected.event_count == 0 {
            "No events and state is empty — consistent."@
        } else {
            "No events provided but expected state is not empty."@
        })
    } else {
        &&& r.passed == (replayed.state_hash == expected.state_hash)
        &&& r.events_replayed == events_len
        &&& r.replayed_state_hash@ == replayed.state_hash
        &&& r.diagnostic@ == replay_diagnostic(events_len, replayed.state_hash, expected.state_hash)
    }
}

/// The failures the first event of a log can show.
pub open spec fn first_link_failures(first: Event) -> Seq<(u64, Seq<char>)> {
    if !(first.id.epoch == 0 && first.id.seq == 0) && first.parent_hash@ != zero_hash_bytes() {
        seq![(0u64, "First event not genesis and parent non-zero."@)]
    } else {
        Seq::empty()
    }
}

/// The failures of event `i` (after the first) against its predecessor.
pub open spec fn link_failures(events: Seq<Event>, i: int) -> Seq<(u64, Seq<char>)> {
    (if events[i].parent_hash@ != events[i - 1].event_hash@ {
        seq![(i as u64, "parent_hash mismatch at "@ + decimal(i as nat))]
    } else {
        Seq::empty()
    }) + (if !hash_consistent(events[i]) {
        seq![(i as u64, "self-hash fail"@)]
    } else {
        Seq::empty()
    })
}

/// The failures found among the first `n` events of a log, in order.
pub open spec fn chain_failures(events: Seq<Event>, n: nat) -> Seq<(u64, Seq<char>)>
    decreases n,
{
    if n == 0 {
        Seq::empty()
    } else if n == 1 {
        first_link_failures(events[0])
    } else {
        chain_failures(events, (n - 1) as nat) + link_failures(events, n - 1)
    }
}

/// Checks logs against the reducer and against their own hash links.
pub struct ReplayValidator;

impl ReplayValidator {
    /// Replays `events` and compares the resulting state hash with `expected_state`'s.
    pub fn validate<R: Reducer<State = CanonicalState, Event = Event>>(
        reducer: &R,
        events: &[Event],
        expected_state: &CanonicalState,
    ) -> (r: ReplayResult)
        requires
            replayable(*reducer, events@),
        ensures
            replay_report_matches(r, replay(*reducer, events@), events@.len(), expected_state@),
    {
        if events.len() == 0 {
            let empty = expected_state.is_empty();
            return ReplayResult {
                passed: empty,
                events_replayed: 0,
                replayed_state_hash: expected_state.state_hash,
                expected_state_hash: expected_state.state_hash,
                divergence_at: None,
                diagnostic: if empty {
                    String::from_str("No events and state is empty — consistent.")
                } else {
                    String::from_str("No events provided but expected state is not empty.")
                },
            };
        }
        let replayed = replay_all(reducer, events);
        let passed = replayed.state_hash == expected_state.state_hash;
        let diagnostic = if passed {
            let mut d = String::from_str("Replay successful: ");
            append_decimal(&mut d, events.len() as u64);
            d.append(" events replayed.");
            d
        } else {
            let mut d = String::from_str("Replay FAILED: replayed hash ");
            let rh = replayed.state_hash.to_text();
            d.append(rh.as_str());
            d.append(" != expected hash ");
            let eh = expected_state.state_hash.to_text();
            d.append(eh.as_str());
            d.append(".");
            d
        };
        ReplayResult {
            passed,
            events_replayed: events.len() as u64,
            replayed_state_hash: replayed.state_hash,
            expected_state_hash: expected_state.state_hash,
            divergence_at: None,
            diagnostic,
        }
    }

    /// Replays `events` to get the live state, then validates the log against it.
    pub fn validate_live_vs_replay<R: Reducer<State = CanonicalState, Event = Event>>(
        reducer: &R,
        events: &[Event],
    ) -> (r: ReplayResult)
        requires
            replayable(*reducer, events@),
        ensures
            replay_report_matches(
                r,
                replay(*reducer, events@),
                events@.len(),
                replay(*reducer, events@),
            ),
    {
        let live_state = replay_all(reducer, events);
        Self::validate(reducer, events, &live_state)
    }

    /// Checks that each event links to its predecessor's hash and carries a
    /// consistent hash, and that a non-genesis first event has a zero parent.
    pub fn verify_chain_integrity(events: &[Event]) -> (r: ChainIntegrityResult)
        ensures
            r.failures@.map_values(|f: ChainFailure| f@) == chain_failures(events@, events@.len()),
            r.passed == (r.failures@.len() == 0),
            r.events_checked == events@.len(),
    {
        let mut failures: Vec<ChainFailure> = Vec::new();
        if events.len() == 0 {
            proof {
                assert(failures@.map_values(|f: ChainFailure| f@) =~= chain_failures(events@, 0));
            }
            return ChainIntegrityResult { passed: true, events_checked: 0, failures };
        }
        let first = &events[0];
        if !first.is_genesis() && !first.parent_hash.is_zero() {
            failures.push(ChainFailure { index: 0, reason: String::from_str("First event not genesis and parent non-zero.") });
        }
        proof {
            assert(failures@.map_values(|f: ChainFailure| f@) =~= chain_failures(events@, 1));
        }
        let mut i: usize = 1;
        while i < events.len()
            invariant
                1 <= i <= events@.len(),
                failures@.map_values(|f: ChainFailure| f@) == chain_failures(events@, i as nat),
            decreases events@.len() - i,
        {
            let prev = &events[i - 1];
            let curr = &events[i];
            if curr.parent_hash != prev.event_hash {
                let mut reason = String::from_str("parent_hash mismatch at ");
                append_decimal(&mut reason, i as u64);
                failures.push(ChainFailure { index: i as u64, reason });
            }
            if !curr.verify_hash() {
                failures.push(ChainFailure { index: i as u64, reason: String::from_str("self-hash fail") });
            }
            proof {
                assert(failures@.map_values(|f: ChainFailure| f@) =~= chain_failures(events@, (i + 1) as nat));
            }
            i = i + 1;
        }
        let passed = failures.len() == 0;
        ChainIntegrityResult { passed, events_checked: events.len() as u64, failures }
    }
}

} // verus!
