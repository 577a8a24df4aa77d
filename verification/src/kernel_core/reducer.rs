use crate::kernel_core::canonical_state::{
    compute_state_hash, initial_state_view, state_digest, CanonicalState, KernelStateView,
};
use crate::kernel_core::event::Event;
use crate::kernel_core::event_hash::EventHash;
use vstd::prelude::*;

verus! {

/// A pure state-transition function over events. Implementations say in spec
/// what each step yields, and `apply` must yield exactly that.
pub trait Reducer {
    type State: View;

    type Event;

    /// The state (as a view) that applying `event` to `state` yields.
    spec fn step_view(&self, state: <Self::State as View>::V, event: Self::Event) -> <Self::State as View>::V;

    /// The initial state (as a view).
    spec fn start_view(&self) -> <Self::State as View>::V;

    /// Whether `event` may be applied to `state`.
    spec fn step_allowed(&self, state: <Self::State as View>::V, event: Self::Event) -> bool;

    /// The schema version this reducer implements.
    spec fn version(&self) -> u32;

    fn apply(&self, state: &Self::State, event: &Self::Event) -> (r: Self::State)
        requires
            self.step_allowed(state@, *event),
        ensures
            r@ == self.step_view(state@, *event),
    ;

    fn initial_state(&self) -> (r: Self::State)
        ensures
            r@ == self.start_view(),
    ;

    fn schema_version(&self) -> (r: u32)
        ensures
            r == self.version(),
    ;
}

/// The state (as a view) after applying every event of `events` in order,
/// starting from the reducer's initial state.
pub open spec fn replay<R: Reducer>(r: R, events: Seq<R::Event>) -> <R::State as View>::V
    decreases events.len(),
{
    if events.len() == 0 {
        r.start_view()
    } else {
        r.step_view(replay(r, events.drop_last()), events.last())
    }
}

/// Whether every event of `events` may be applied in turn.
pub open spec fn replayable<R: Reducer>(r: R, events: Seq<R::Event>) -> bool {
    forall|i: int|
        0 <= i < events.len() ==> r.step_allowed(
            #[trigger] replay(r, events.take(i)),
            events[i],
        )
}

/// Applies every event of `events` in turn, from the reducer's initial state.
pub fn replay_all<R: Reducer>(reducer: &R, events: &[R::Event]) -> (r: R::State)
    requires
        replayable(*reducer, events@),
    ensures
        r@ == replay(*reducer, events@),
{
    let mut state = reducer.initial_state();
    let mut i: usize = 0;
    proof {
        assert(events@.take(0) =~= Seq::<R::Event>::empty());
    }
    while i < events.len()
        invariant
            i <= events@.len(),
            replayable(*reducer, events@),
            state@ == replay(*reducer, events@.take(i as int)),
        decreases events@.len() - i,
    {
        proof {
            assert(events@.take(i + 1).drop_last() =~= events@.take(i as int));
            assert(reducer.step_allowed(replay(*reducer, events@.take(i as int)), events@[i as int]));
        }
        state = reducer.apply(&state, &events[i]);
        i = i + 1;
    }
    proof {
        assert(events@.take(events@.len() as int) =~= events@);
    }
    state
}

/// The kernel's state after `event`: the event becomes the last one, the count
/// grows by one, the first event's hash is kept as the genesis hash, and the
/// digest is recomputed.
pub open spec fn kernel_step(state: KernelStateView, event: Event) -> KernelStateView {
    let event_count = (state.event_count + 1) as u64;
    let genesis_hash = if state.event_count == 0 {
        event.event_hash@
    } else {
        state.genesis_hash
    };
    KernelStateView {
        state_hash: state_digest(
            event.id,
            event.logical_time,
            event_count,
            genesis_hash,
            event.event_hash@,
            event.logical_time.epoch,
        ),
        last_event_id: event.id,
        last_logical_time: event.logical_time,
        event_count,
        genesis_hash,
        latest_hash: event.event_hash@,
        epoch: event.logical_time.epoch,
    }
}

/// The reducer of the kernel state.
pub struct KernelReducer;

impl Reducer for KernelReducer {
    type State = CanonicalState;

    type Event = Event;

    open spec fn step_view(&self, state: KernelStateView, event: Event) -> KernelStateView {
        kernel_step(state, event)
    }

    open spec fn start_view(&self) -> KernelStateView {
        initial_state_view()
    }

    open spec fn step_allowed(&self, state: KernelStateView, event: Event) -> bool {
        state.event_count < u64::MAX
    }

    open spec fn version(&self) -> u32 {
        1
    }

    fn apply(&self, state: &CanonicalState, event: &Event) -> (r: CanonicalState) {
        let genesis_hash = if state.is_empty() {
            event.event_hash
        } else {
            state.genesis_hash
        };
        let new_state = CanonicalState {
            state_hash: EventHash::zero(),
            last_event_id: event.id,
            last_logical_time: event.logical_time,
            event_count: state.event_count + 1,
            genesis_hash,
            latest_hash: event.event_hash,
            epoch: event.logical_time.epoch,
        };
        let hash = compute_state_hash(&new_state);
        CanonicalState { state_hash: hash, ..new_state }
    }

    fn initial_state(&self) -> (r: CanonicalState) {
        CanonicalState::initial()
    }

    fn schema_version(&self) -> (r: u32) {
        1
    }
}

} // verus!
