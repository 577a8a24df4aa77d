use crate::kernel_core::canonical_state::{digest_of, CanonicalState, KernelStateView};
use crate::kernel_core::event::Event;
use crate::kernel_core::event_hash::zero_hash_bytes;
use crate::kernel_core::logical_time::time_before;
use crate::kernel_core::reducer::Reducer;
use crate::kernel_core::replay_validator::{chain_failures, ChainFailure, ReplayValidator};
use crate::text::{append_decimal, decimal};
use vstd::prelude::*;

verus! {

/// The outcome of checking the kernel invariants.
#[derive(Debug, Clone, PartialEq, Eq)]
pub struct InvariantReport {
    pub all_passed: bool,
    pub invariants_checked: usize,
    pub failures: Vec<InvariantFailure>,
}

/// A violated invariant and a description of the violation.
#[derive(Debug, Clone, PartialEq, Eq)]
pub struct InvariantFailure {
    pub invariant_name: &'static str,
    pub description: String,
}

impl View for InvariantFailure {
    type V = (Seq<char>, Seq<char>);

    open spec fn view(&self) -> (Seq<char>, Seq<char>) {
        (self.invariant_name@, self.description@)
    }
}

/// Whether event `i` fails to come strictly after event `i - 1`.
pub open spec fn time_order_broken_at(events: Seq<Event>, i: int) -> bool {
    1 <= i < events.len() && !time_before(events[i - 1].logical_time, events[i].logical_time)
}

/// The first event whose time does not come strictly after its predecessor's.
pub open spec fn first_time_violation(events: Seq<Event>) -> Option<int> {
    if exists|i: int| time_order_broken_at(events, i) {
        Some(
            choose|i: int|
                time_order_broken_at(events, i) && forall|j: int|
                    1 <= j < i ==> !time_order_broken_at(events, j),
        )
    } else {
        None
    }
}

/// The description of a broken link, as the invariant report words it.
pub open spec fn chain_failure_description(f: (u64, Seq<char>)) -> Seq<char> {
    "Chain broken at "@ + decimal(f.0 as nat) + ": "@ + f.1
}

/// The failures that concern the state alone (I1, I3, I4).
pub open spec fn state_invariant_failures(state: KernelStateView) -> Seq<(Seq<char>, Seq<char>)> {
    (if state.state_hash != digest_of(state) {
        seq![("I1"@, "State hash mismatch"@)]
    } else {
        Seq::empty()
    }) + (if state.event_count != 0 && state.genesis_hash == zero_hash_bytes() {
        seq![("I3"@, "Non-empty state genesis zero"@)]
    } else {
        Seq::empty()
    }) + (if state.event_count != 0 && state.latest_hash == zero_hash_bytes() {
        seq![("I4"@, "Non-empty state latest zero"@)]
    } else {
        Seq::empty()
    })
}

/// The failures that concern the times of the log (I5).
pub open spec fn time_invariant_failures(state: KernelStateView, events: Seq<Event>) -> Seq<(Seq<char>, Seq<char>)> {
    if events.len() > 0 {
        (if events.last().logical_time != state.last_logical_time {
            seq![("I5"@, "Last event time mismatch"@)]
        } else {
            Seq::empty()
        }) + (match first_time_violation(events) {
            Some(i) => seq![("I5"@, "Time order violation at "@ + decimal(i as nat))],
            None => Seq::empty(),
        })
    } else if state.event_count != 0 {
        seq![("I5"@, "No events but state non-empty"@)]
    } else {
        Seq::empty()
    }
}

/// The failures that concern the hash links of the log (I6).
pub open spec fn link_invariant_failures(events: Seq<Event>) -> Seq<(Seq<char>, Seq<char>)> {
    chain_failures(events, events.len()).map_values(
        |f: (u64, Seq<char>)| ("I6"@, chain_failure_description(f)),
    )
}

/// The invariant failures reported for `state` and `events`, in order.
pub open spec fn invariant_failures(state: KernelStateView, events: Seq<Event>) -> Seq<(Seq<char>, Seq<char>)> {
    state_invariant_failures(state) + time_invariant_failures(state, events)
        + link_invariant_failures(events)
}

/// When event `i` is the first of a log that does not come strictly after its
/// predecessor in logical time, the invariants report an I5 failure naming `i`,
/// so the check does not pass.
pub proof fn lemma_time_disorder_is_reported(state: KernelStateView, events: Seq<Event>, i: int)
    requires
        1 <= i < events.len(),
        !time_before(events[i - 1].logical_time, events[i].logical_time),
        forall|j: int| 1 <= j < i ==> time_before(events[j - 1].logical_time, (#[trigger] events[j]).logical_time),
    ensures
        invariant_failures(state, events).contains(("I5"@, "Time order violation at "@ + decimal(i as nat))),
        invariant_failures(state, events).len() > 0,
{
    assert(time_order_broken_at(events, i));
    assert forall|j: int| 1 <= j < i implies !time_order_broken_at(events, j) by {
        assert(time_before(events[j - 1].logical_time, events[j].logical_time));
    }
    lemma_first_time_violation(events, i);
    let x = ("I5"@, "Time order violation at "@ + decimal(i as nat));
    let sp = state_invariant_failures(state);
    let lp = if events.last().logical_time != state.last_logical_time {
        seq![("I5"@, "Last event time mismatch"@)]
    } else {
        Seq::<(Seq<char>, Seq<char>)>::empty()
    };
    assert(time_invariant_failures(state, events) == lp + seq![x]);
    let all = invariant_failures(state, events);
    let k = (sp.len() + lp.len()) as int;
    assert(all[k] == x);
}

/// When the last event's time is not the state's last time, the invariants
/// report an I5 failure saying so.
pub proof fn lemma_last_time_mismatch_is_reported(state: KernelStateView, events: Seq<Event>)
    requires
        events.len() > 0,
        events.last().logical_time != state.last_logical_time,
    ensures
        invariant_failures(state, events).contains(("I5"@, "Last event time mismatch"@)),
{
    let x = ("I5"@, "Last event time mismatch"@);
    let sp = state_invariant_failures(state);
    let tp = time_invariant_failures(state, events);
    assert(tp[0] == x);
    let all = invariant_failures(state, events);
    assert(all[sp.len() as int] == x);
}

/// The least index satisfying a property is the one before which none does.
pub proof fn lemma_first_time_violation(events: Seq<Event>, k: int)
    requires
        time_order_broken_at(events, k),
        forall|j: int| 1 <= j < k ==> !time_order_broken_at(events, j),
    ensures
        first_time_violation(events) == Some(k),
{
    let w = choose|i: int|
        time_order_broken_at(events, i) && forall|j: int| 1 <= j < i ==> !time_order_broken_at(events, j);
    assert(time_order_broken_at(events, k) && forall|j: int| 1 <= j < k ==> !time_order_broken_at(events, j));
    if w < k {
        assert(!time_order_broken_at(events, w));
    }
    if k < w {
        assert(!time_order_broken_at(events, k));
    }
}

/// Finds the first event that does not come strictly after its predecessor.
fn find_time_violation(events: &[Event]) -> (r: Option<usize>)
    ensures
        match r {
            Some(i) => first_time_violation(events@) == Some(i as int),
            None => first_time_violation(events@) is None,
        },
{
    let mut i: usize = 1;
    while i < events.len()
        invariant
            1 <= i,
            forall|j: int| 1 <= j < i ==> !time_order_broken_at(events@, j),
        decreases events@.len() - i,
    {
        if !events[i - 1].logical_time.precedes(&events[i].logical_time) {
            proof {
                lemma_first_time_violation(events@, i as int);
            }
            return Some(i);
        }
        i = i + 1;
    }
    None
}

fn push_failure(failures: &mut Vec<InvariantFailure>, name: &'static str, description: String)
    ensures
        final(failures)@.map_values(|f: InvariantFailure| f@) == old(failures)@.map_values(
            |f: InvariantFailure| f@,
        ).push((name@, description@)),
{
    let ghost before = failures@;
    let f = InvariantFailure { invariant_name: name, description };
    let ghost fv = f@;
    failures.push(f);
    proof {
        assert(failures@ =~= before.push(f));
        assert(failures@.map_values(|f: InvariantFailure| f@) =~= before.map_values(
            |f: InvariantFailure| f@,
        ).push(fv));
    }
}

fn check_state(state: &CanonicalState, failures: &mut Vec<InvariantFailure>)
    ensures
        final(failures)@.map_values(|f: InvariantFailure| f@) == old(failures)@.map_values(
            |f: InvariantFailure| f@,
        ) + state_invariant_failures(state@),
{
    let ghost start = failures@.map_values(|f: InvariantFailure| f@);
    let ghost s = state@;
    if !state.verify_hash() {
        push_failure(failures, "I1", String::from_str("State hash mismatch"));
    }
    if !state.is_empty() && state.genesis_hash.is_zero() {
        push_failure(failures, "I3", String::from_str("Non-empty state genesis zero"));
    }
    if !state.is_empty() && state.latest_hash.is_zero() {
        push_failure(failures, "I4", String::from_str("Non-empty state latest zero"));
    }
    proof {
        assert(failures@.map_values(|f: InvariantFailure| f@) =~= start + state_invariant_failures(s));
    }
}

fn check_last_time(state: &CanonicalState, events: &[Event], failures: &mut Vec<InvariantFailure>)
    requires
        events@.len() > 0,
    ensures
        final(failures)@.map_values(|f: InvariantFailure| f@) == old(failures)@.map_values(
            |f: InvariantFailure| f@,
        ) + (if events@.last().logical_time != state.last_logical_time {
            seq![("I5"@, "Last event time mismatch"@)]
        } else {
            Seq::<(Seq<char>, Seq<char>)>::empty()
        }),
{
    let ghost start = failures@.map_values(|f: InvariantFailure| f@);
    let last = &events[events.len() - 1];
    if last.logical_time != state.last_logical_time {
        push_failure(failures, "I5", String::from_str("Last event time mismatch"));
    }
    proof {
        assert(failures@.map_values(|f: InvariantFailure| f@) =~= start + (if events@.last().logical_time
            != state.last_logical_time {
            seq![("I5"@, "Last event time mismatch"@)]
        } else {
            Seq::<(Seq<char>, Seq<char>)>::empty()
        }));
    }
}

fn check_time_order(events: &[Event], failures: &mut Vec<InvariantFailure>)
    ensures
        final(failures)@.map_values(|f: InvariantFailure| f@) == old(failures)@.map_values(
            |f: InvariantFailure| f@,
        ) + (match first_time_violation(events@) {
            Some(i) => seq![("I5"@, "Time order violation at "@ + decimal(i as nat))],
            None => Seq::<(Seq<char>, Seq<char>)>::empty(),
        }),
{
    let ghost start = failures@.map_values(|f: InvariantFailure| f@);
    match find_time_violation(events) {
        Some(i) => {
            let mut d = String::from_str("Time order violation at ");
            append_decimal(&mut d, i as u64);
            push_failure(failures, "I5", d);
        },
        None => {
            assert(failures@.map_values(|f: InvariantFailure| f@) =~= start + Seq::empty());
        },
    }
}

fn check_times(state: &CanonicalState, events: &[Event], failures: &mut Vec<InvariantFailure>)
    ensures
        final(failures)@.map_values(|f: InvariantFailure| f@) == old(failures)@.map_values(
            |f: InvariantFailure| f@,
        ) + time_invariant_failures(state@, events@),
{
    let ghost start = failures@.map_values(|f: InvariantFailure| f@);
    if events.len() > 0 {
        let ghost last_part = if events@.last().logical_time != state.last_logical_time {
            seq![("I5"@, "Last event time mismatch"@)]
        } else {
            Seq::<(Seq<char>, Seq<char>)>::empty()
        };
        let ghost order_part = match first_time_violation(events@) {
            Some(i) => seq![("I5"@, "Time order violation at "@ + decimal(i as nat))],
            None => Seq::<(Seq<char>, Seq<char>)>::empty(),
        };
        check_last_time(state, events, failures);
        let ghost mid = failures@.map_values(|f: InvariantFailure| f@);
        check_time_order(events, failures);
        proof {
            assert(mid == start + last_part);
            assert(time_invariant_failures(state@, events@) == last_part + order_part);
            assert(failures@.map_values(|f: InvariantFailure| f@) =~= start + (last_part + order_part));
        }
    } else if !state.is_empty() {
        push_failure(failures, "I5", String::from_str("No events but state non-empty"));
        proof {
            assert(failures@.map_values(|f: InvariantFailure| f@) =~= start + time_invariant_failures(
                state@,
                events@,
            ));
        }
    } else {
        proof {
            assert(failures@.map_values(|f: InvariantFailure| f@) =~= start + time_invariant_failures(
                state@,
                events@,
            ));
        }
    }
}

fn check_links(events: &[Event], failures: &mut Vec<InvariantFailure>)
    ensures
        final(failures)@.map_values(|f: InvariantFailure| f@) == old(failures)@.map_values(
            |f: InvariantFailure| f@,
        ) + link_invariant_failures(events@),
{
    let ghost start = failures@.map_values(|f: InvariantFailure| f@);
    let chain = ReplayValidator::verify_chain_integrity(events);
    let ghost cf = chain.failures@.map_values(|f: ChainFailure| f@);
    let mut k: usize = 0;
    while k < chain.failures.len()
        invariant
            k <= chain.failures@.len(),
            cf == chain.failures@.map_values(|f: ChainFailure| f@),
            failures@.map_values(|f: InvariantFailure| f@) == start + cf.take(k as int).map_values(
                |f: (u64, Seq<char>)| ("I6"@, chain_failure_description(f)),
            ),
        decreases chain.failures@.len() - k,
    {
        let f = &chain.failures[k];
        let mut d = String::from_str("Chain broken at ");
        append_decimal(&mut d, f.index);
        d.append(": ");
        d.append(f.reason.as_str());
        proof {
            assert(cf[k as int] == f@);
            assert(d@ == chain_failure_description(cf[k as int]));
        }
        push_failure(failures, "I6", d);
        proof {
            assert(cf.take(k + 1) =~= cf.take(k as int).push(cf[k as int]));
            assert(failures@.map_values(|f: InvariantFailure| f@) =~= start + cf.take(k + 1).map_values(
                |f: (u64, Seq<char>)| ("I6"@, chain_failure_description(f)),
            ));
        }
        k = k + 1;
    }
    proof {
        assert(cf.take(cf.len() as int) =~= cf);
    }
}

/// Checks the kernel invariants of a state and the log it came from.
pub struct InvariantChecker;

impl InvariantChecker {
    /// Checks: the state digest (I1), non-zero genesis and latest hashes of a
    /// non-empty state (I3, I4), the last event's time and the strict time order
    /// of the log (I5), the hash links (I6), and the purity of the reducer (I7).
    pub fn check_all<R: Reducer<State = CanonicalState, Event = Event>>(
        state: &CanonicalState,
        events: &[Event],
        reducer: &R,
    ) -> (r: InvariantReport)
        requires
            events@.len() > 0 ==> reducer.step_allowed(reducer.start_view(), events@[0]),
        ensures
            r.failures@.map_values(|f: InvariantFailure| f@) == invariant_failures(state@, events@),
            r.all_passed == (r.failures@.len() == 0),
            r.invariants_checked == 7,
    {
        let mut failures: Vec<InvariantFailure> = Vec::new();
        proof {
            assert(failures@.map_values(|f: InvariantFailure| f@) =~= Seq::empty());
        }
        check_state(state, &mut failures);
        check_times(state, events, &mut failures);
        check_links(events, &mut failures);
        proof {
            assert(failures@.map_values(|f: InvariantFailure| f@) =~= invariant_failures(state@, events@));
        }
        if events.len() > 0 {
            let initial = reducer.initial_state();
            let r1 = reducer.apply(&initial, &events[0]);
            let r2 = reducer.apply(&initial, &events[0]);
            if r1.state_hash != r2.state_hash {
                push_failure(&mut failures, "I7", String::from_str("Reducer not pure"));
            }
        }
        let all_passed = failures.len() == 0;
        InvariantReport { all_passed, invariants_checked: 7, failures }
    }
}

} // verus!
