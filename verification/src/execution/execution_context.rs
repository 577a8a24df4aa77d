use crate::kernel_core::event::EventPayload;
use crate::proposal::{custom_payload, is_custom_payload, pipe2};
use vstd::prelude::*;

verus! {

/// Where a running execution stands.
#[derive(Debug, Clone, Copy, PartialEq, Eq, Structural)]
pub enum ExecutionStatus {
    Running,
    Waiting,
    Completed,
    Failed,
}

/// The transient state of a running execution: its plan, its current step, its
/// status and the resources it has used.
#[derive(Debug, Clone)]
pub struct ExecutionContext {
    pub execution_id: String,
    pub plan_id: String,
    pub current_step_id: String,
    pub status: ExecutionStatus,
    pub resources_used: u64,
}

/// Creates and advances execution contexts, by proposing events.
pub struct ExecutionContextManager;

impl ExecutionContextManager {
    /// Proposes creating an execution context for a plan.
    pub fn propose_create(plan_id: String) -> (r: EventPayload)
        ensures
            is_custom_payload(r, "ExecutionContextCreated"@, plan_id@),
    {
        custom_payload("ExecutionContextCreated", &plan_id)
    }

    /// Proposes advancing an execution to its next step.
    pub fn propose_advance(execution_id: String, next_step_id: String) -> (r: EventPayload)
        ensures
            is_custom_payload(r, "ExecutionContextAdvanced"@, execution_id@ + "|"@ + next_step_id@),
    {
        custom_payload("ExecutionContextAdvanced", &pipe2(execution_id.as_str(), next_step_id.as_str()))
    }
}

} // verus!
