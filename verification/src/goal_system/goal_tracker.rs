use crate::kernel_core::event::EventPayload;
use crate::proposal::{custom_payload, is_custom_payload, pipe2};
use vstd::prelude::*;

verus! {

/// Watches goals for lack of progress.
pub struct GoalTracker;

impl GoalTracker {
    /// Whether a goal has gone without update for longer than the threshold.
    pub fn is_stuck(ticks_since_update: u64, threshold: u64) -> (r: bool)
        ensures
            r == (ticks_since_update > threshold),
    {
        ticks_since_update > threshold
    }

    /// Proposes escalating a goal.
    pub fn propose_escalate(goal_id: String, reason: String) -> (r: EventPayload)
        ensures
            is_custom_payload(r, "GoalEscalated"@, goal_id@ + "|"@ + reason@),
    {
        custom_payload("GoalEscalated", &pipe2(goal_id.as_str(), reason.as_str()))
    }
}

} // verus!
