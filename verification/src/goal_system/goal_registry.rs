use crate::canonical_state::goal_state::{Goal, GoalState, GoalStatus};
use crate::kernel_core::event::EventPayload;
use crate::proposal::{custom_payload, is_custom_payload};
use vstd::prelude::*;

verus! {

/// Reads the registered goals.
pub struct GoalRegistry;

impl GoalRegistry {
    /// The active goals among the goals kept as active, in ascending order of
    /// their ids.
    pub fn active(state: &GoalState) -> (r: Vec<&Goal>)
        ensures
            r@.map_values(|g: &Goal| *g) == state.active_goals.values_in_order().filter(
                |g: Goal| g.status == GoalStatus::Active,
            ),
    {
        let all = state.active_goals.values();
        let ghost vals = state.active_goals.values_in_order();
        let mut r: Vec<&Goal> = Vec::new();
        let mut i: usize = 0;
        proof {
            reveal(Seq::filter);
            assert(vals.take(0) =~= Seq::<Goal>::empty());
            assert(r@.map_values(|g: &Goal| *g) =~= Seq::<Goal>::empty());
        }
        while i < all.len()
            invariant
                i <= all@.len(),
                all@.len() == vals.len(),
                forall|j: int| 0 <= j < all@.len() ==> *all@[j] == vals[j],
                r@.map_values(|g: &Goal| *g) == vals.take(i as int).filter(|g: Goal| g.status == GoalStatus::Active),
            decreases all@.len() - i,
        {
            let g = all[i];
            let ghost before = r@;
            proof {
                reveal(Seq::filter);
                assert(vals.take(i + 1).drop_last() =~= vals.take(i as int));
                assert(vals.take(i + 1).last() == vals[i as int]);
            }
            if g.status == GoalStatus::Active {
                r.push(g);
                proof {
                    assert(r@.map_values(|g: &Goal| *g) =~= before.map_values(|g: &Goal| *g).push(*g));
                }
            }
            i = i + 1;
        }
        proof {
            assert(vals.take(vals.len() as int) =~= vals);
        }
        r
    }

    /// Proposes activating a goal.
    pub fn propose_activate(goal_id: String) -> (r: EventPayload)
        ensures
            is_custom_payload(r, "GoalActivated"@, goal_id@),
    {
        custom_payload("GoalActivated", &goal_id)
    }
}

} // verus!
