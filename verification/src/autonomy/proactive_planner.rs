use crate::kernel_core::event::EventPayload;
use crate::proposal::{custom_payload, is_custom_payload, pipe2};
use vstd::prelude::*;

verus! {

/// Plans without being asked, by proposing events.
pub struct ProactivePlanner;

impl ProactivePlanner {
    /// Proposes a plan made on the agent's own initiative.
    pub fn propose_proactive_plan(agent_id: String, description: String) -> (r: EventPayload)
        ensures
            is_custom_payload(r, "ProactivePlanGenerated"@, agent_id@ + "|"@ + description@),
    {
        custom_payload("ProactivePlanGenerated", &pipe2(agent_id.as_str(), description.as_str()))
    }
}

} // verus!
