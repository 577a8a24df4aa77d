use crate::kernel_core::event::EventPayload;
use crate::proposal::{custom_payload, is_custom_payload, pipe2};
use vstd::prelude::*;

verus! {

/// Records governance decisions, by proposing events.
pub struct GovernanceEvent;

impl GovernanceEvent {
    /// Proposes recording the outcome of a decision.
    pub fn propose_decision(decision_id: &str, outcome: &str) -> (r: EventPayload)
        ensures
            is_custom_payload(r, "GovernanceDecision"@, decision_id@ + "|"@ + outcome@),
    {
        custom_payload("GovernanceDecision", &pipe2(decision_id, outcome))
    }
}

} // verus!
