pub mod cognition_state;
pub mod duplicate;
pub mod evolution_state;
pub mod execution_state;
pub mod goal_state;
pub mod memory_state;
pub mod planner_state;
pub mod reflection_state;
pub mod text_map;
pub mod world_state;

use crate::canonical_state::cognition_state::CognitionState;
use crate::canonical_state::duplicate::Duplicate;
use crate::canonical_state::evolution_state::EvolutionState;
use crate::canonical_state::execution_state::ExecutionState;
use crate::canonical_state::goal_state::{default_core_order, default_operational_order, GoalState};
use crate::canonical_state::memory_state::MemoryState;
use crate::canonical_state::planner_state::PlannerState;
use crate::canonical_state::reflection_state::ReflectionState;
use crate::canonical_state::world_state::WorldState;
use crate::kernel_core::canonical_state::{
    compute_state_hash, digest_of, initial_state_view, CanonicalState as KernelCanonicalState, KernelStateView,
};
use crate::kernel_core::event::Event;
use crate::kernel_core::event_hash::EventHash;
use crate::kernel_core::reducer::{kernel_step, replay, replayable, KernelReducer, Reducer};
use vstd::prelude::*;

verus! {

/// The whole state of the system: the kernel state and the state of each part
/// built on it.
#[derive(Debug, Clone, PartialEq, Eq)]
pub struct CanonicalState {
    pub kernel: KernelCanonicalState,
    pub world: WorldState,
    pub memory: MemoryState,
    pub cognition: CognitionState,
    pub goals: GoalState,
    pub planner: PlannerState,
    pub execution: ExecutionState,
    pub reflection: ReflectionState,
    pub evolution: EvolutionState,
}

/// The events drive the kernel state; the whole state is seen through it.
impl View for CanonicalState {
    type V = KernelStateView;

    open spec fn view(&self) -> KernelStateView {
        self.kernel@
    }
}

impl CanonicalState {
    /// Whether this is the state before any event: the initial kernel state,
    /// every part empty and the default value order.
    pub open spec fn is_initial(&self) -> bool {
        &&& self@ == initial_state_view()
        &&& self.world.holds_nothing()
        &&& self.memory.holds_nothing()
        &&& self.cognition.holds_nothing()
        &&& self.goals.active_goals.well_formed()
        &&& self.goals.active_goals.keys().len() == 0
        &&& self.goals.completed_goals@.len() == 0
        &&& self.goals.failed_goals@.len() == 0
        &&& self.goals.value_priorities.core_order@ == default_core_order()
        &&& self.goals.value_priorities.operational_order@ == default_operational_order()
        &&& self.goals.goal_counter == 0
        &&& self.planner.active_plans.keys().len() == 0
        &&& self.planner.completed_plans@.len() == 0
        &&& self.planner.failed_plans@.len() == 0
        &&& self.planner.plan_counter == 0
        &&& self.execution.active_executions.keys().len() == 0
        &&& self.execution.completed_executions@.len() == 0
        &&& self.execution.failed_executions@.len() == 0
        &&& self.execution.execution_counter == 0
        &&& self.reflection.insights@.len() == 0
        &&& self.reflection.anomalies@.len() == 0
        &&& self.reflection.total_reflections == 0
        &&& self.reflection.last_reflection_epoch == 0
        &&& self.reflection.last_reflection_tick == 0
        &&& self.evolution.proposals.keys().len() == 0
        &&& self.evolution.sandbox_runs@.len() == 0
        &&& self.evolution.deployed_count == 0
        &&& self.evolution.rejected_count == 0
        &&& self.evolution.rolled_back_count == 0
    }

    /// The initial kernel state with every part empty.
    pub fn initial() -> (r: Self)
        ensures
            r.is_initial(),
    {
        CanonicalState {
            kernel: KernelCanonicalState::initial(),
            world: WorldState::empty(),
            memory: MemoryState::empty(),
            cognition: CognitionState::empty(),
            goals: GoalState::empty(),
            planner: PlannerState::empty(),
            execution: ExecutionState::empty(),
            reflection: ReflectionState::empty(),
            evolution: EvolutionState::empty(),
        }
    }

    /// The digest of the whole state: that of its kernel state.
    pub fn compute_full_hash(&self) -> (r: EventHash)
        ensures
            r@ == digest_of(self.kernel@),
    {
        compute_state_hash(&self.kernel)
    }
}

/// Applies events to the whole state: the kernel reducer steps the kernel
/// state, and every other part is carried over with its contents unchanged.
pub struct FullStateReducer {
    pub kernel_reducer: KernelReducer,
}

impl Reducer for FullStateReducer {
    type State = CanonicalState;

    type Event = Event;

    open spec fn step_view(&self, state: KernelStateView, event: Event) -> KernelStateView {
        kernel_step(state, event)
    }

    open spec fn start_view(&self) -> KernelStateView {
        initial_state_view()
    }

    open spec fn step_allowed(&self, state: KernelStateView, event: Event) -> bool {
        state.event_count < u64::MAX
    }

    open spec fn version(&self) -> u32 {
        2
    }

    fn apply(&self, state: &CanonicalState, event: &Event) -> (r: CanonicalState)
        ensures
            r.world.contents() == state.world.contents(),
            r.memory.contents() == state.memory.contents(),
            r.cognition.contents() == state.cognition.contents(),
            r.goals.contents() == state.goals.contents(),
            r.planner.contents() == state.planner.contents(),
            r.execution.contents() == state.execution.contents(),
            r.reflection.contents() == state.reflection.contents(),
            r.evolution.contents() == state.evolution.contents(),
    {
        let kernel = self.kernel_reducer.apply(&state.kernel, event);
        CanonicalState {
            kernel,
            world: state.world.duplicate(),
            memory: state.memory.duplicate(),
            cognition: state.cognition.duplicate(),
            goals: state.goals.duplicate(),
            planner: state.planner.duplicate(),
            execution: state.execution.duplicate(),
            reflection: state.reflection.duplicate(),
            evolution: state.evolution.duplicate(),
        }
    }

    fn initial_state(&self) -> (r: CanonicalState)
        ensures
            r.is_initial(),
    {
        CanonicalState::initial()
    }

    fn schema_version(&self) -> (r: u32) {
        2
    }
}

/// Replaying a log with the full reducer yields, as a view, the state the
/// kernel reducer yields, and the same logs can be replayed by both.
pub proof fn lemma_full_replay_is_kernel_replay(reducer: FullStateReducer, events: Seq<Event>)
    ensures
        replay(reducer, events) == replay(reducer.kernel_reducer, events),
        replayable(reducer, events) == replayable(reducer.kernel_reducer, events),
{
    assert forall|i: int| 0 <= i <= events.len() implies replay(reducer, #[trigger] events.take(i)) == replay(
        reducer.kernel_reducer,
        events.take(i),
    ) by {
        lemma_full_replay_prefix(reducer, events, i);
    }
    lemma_full_replay_prefix(reducer, events, events.len() as int);
    assert(events.take(events.len() as int) =~= events);
}

proof fn lemma_full_replay_prefix(reducer: FullStateReducer, events: Seq<Event>, i: int)
    requires
        0 <= i <= events.len(),
    ensures
        replay(reducer, events.take(i)) == replay(reducer.kernel_reducer, events.take(i)),
    decreases i,
{
    if i > 0 {
        lemma_full_replay_prefix(reducer, events, i - 1);
        assert(events.take(i).drop_last() =~= events.take(i - 1));
    } else {
        assert(events.take(0) =~= Seq::<Event>::empty());
    }
}

} // verus!
