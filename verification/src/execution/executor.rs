use crate::kernel_core::event::EventPayload;
use crate::proposal::{custom_payload, is_custom_payload, pipe2, pipe3};
use vstd::prelude::*;

verus! {

/// Carries out plan steps, by proposing an event for each.
pub struct Executor;

impl Executor {
    /// Proposes starting the execution of a plan.
    pub fn propose_start(plan_id: String) -> (r: EventPayload)
        ensures
            is_custom_payload(r, "ExecutionStarted"@, plan_id@),
    {
        custom_payload("ExecutionStarted", &plan_id)
    }

    /// Proposes executing one step with a capability.
    pub fn propose_execute_step(plan_id: String, step_id: String, capability_id: String) -> (r: EventPayload)
        ensures
            is_custom_payload(r, "ExecutionStep"@, plan_id@ + "|"@ + step_id@ + "|"@ + capability_id@),
    {
        custom_payload("ExecutionStep", &pipe3(plan_id.as_str(), step_id.as_str(), capability_id.as_str()))
    }

    /// Proposes completing an execution.
    pub fn propose_complete(execution_id: String) -> (r: EventPayload)
        ensures
            is_custom_payload(r, "ExecutionCompleted"@, execution_id@),
    {
        custom_payload("ExecutionCompleted", &execution_id)
    }

    /// Proposes failing an execution.
    pub fn propose_fail(execution_id: String, reason: String) -> (r: EventPayload)
        ensures
            is_custom_payload(r, "ExecutionFailed"@, execution_id@ + "|"@ + reason@),
    {
        custom_payload("ExecutionFailed", &pipe2(execution_id.as_str(), reason.as_str()))
    }
}

} // verus!
