use crate::kernel_core::event::EventPayload;
use crate::proposal::{custom_payload, is_custom_payload, pipe2};
use vstd::prelude::*;

verus! {

/// Grants and revokes autonomy, by proposing events.
pub struct AutonomyManager;

impl AutonomyManager {
    /// Proposes granting an agent autonomy in a domain.
    pub fn propose_grant(agent_id: String, domain: String) -> (r: EventPayload)
        ensures
            is_custom_payload(r, "AutonomyGranted"@, agent_id@ + "|"@ + domain@),
    {
        custom_payload("AutonomyGranted", &pipe2(agent_id.as_str(), domain.as_str()))
    }

    /// Proposes revoking an agent's autonomy.
    pub fn propose_revoke(agent_id: String, reason: String) -> (r: EventPayload)
        ensures
            is_custom_payload(r, "AutonomyRevoked"@, agent_id@ + "|"@ + reason@),
    {
        custom_payload("AutonomyRevoked", &pipe2(agent_id.as_str(), reason.as_str()))
    }
}

} // verus!
