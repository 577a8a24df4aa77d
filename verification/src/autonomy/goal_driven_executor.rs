use crate::kernel_core::event::EventPayload;
use crate::proposal::{custom_payload, is_custom_payload, pipe2};
use vstd::prelude::*;

verus! {

/// Selects and executes goals on its own, by proposing events.
pub struct GoalDrivenExecutor;

impl GoalDrivenExecutor {
    /// Proposes selecting the next goal.
    pub fn propose_select_goal(agent_id: String, goal_id: String) -> (r: EventPayload)
        ensures
            is_custom_payload(r, "AutonomousGoalSelected"@, agent_id@ + "|"@ + goal_id@),
    {
        custom_payload("AutonomousGoalSelected", &pipe2(agent_id.as_str(), goal_id.as_str()))
    }

    /// Proposes executing the current goal's plan.
    pub fn propose_execute_goal(agent_id: String, plan_id: String) -> (r: EventPayload)
        ensures
            is_custom_payload(r, "AutonomousGoalExecution"@, agent_id@ + "|"@ + plan_id@),
    {
        custom_payload("AutonomousGoalExecution", &pipe2(agent_id.as_str(), plan_id.as_str()))
    }
}

} // verus!
