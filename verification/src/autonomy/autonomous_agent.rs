use crate::kernel_core::event::EventPayload;
use crate::proposal::{custom_payload, is_custom_payload, pipe2};
use crate::text::{bool_string, bool_text};
use vstd::prelude::*;

verus! {

/// The runtime entity that operates on its own within a domain; it acts by proposing events.
pub struct AutonomousAgent;

impl AutonomousAgent {
    /// Proposes starting an autonomous cycle towards a goal.
    pub fn propose_start_cycle(agent_id: String, goal_id: String) -> (r: EventPayload)
        ensures
            is_custom_payload(r, "AutonomousCycleStarted"@, agent_id@ + "|"@ + goal_id@),
    {
        custom_payload("AutonomousCycleStarted", &pipe2(agent_id.as_str(), goal_id.as_str()))
    }

    /// Proposes completing a cycle with its outcome.
    pub fn propose_complete_cycle(agent_id: String, success: bool) -> (r: EventPayload)
        ensures
            is_custom_payload(r, "AutonomousCycleCompleted"@, agent_id@ + "|"@ + bool_text(success)),
    {
        let outcome = bool_string(success);
        custom_payload("AutonomousCycleCompleted", &pipe2(agent_id.as_str(), outcome.as_str()))
    }
}

} // verus!
