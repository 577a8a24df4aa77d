use crate::kernel_core::event::EventPayload;
use crate::proposal::{custom_payload, is_custom_payload, pipe2, pipe3};
use crate::text::{decimal, decimal_text};
use vstd::prelude::*;

verus! {

/// Decides on and proposes recovery from failed steps.
pub struct ExecutionRecovery;

impl ExecutionRecovery {
    /// Whether a failed step should be tried again.
    pub fn should_retry(failure_count: u32, max_retries: u32) -> (r: bool)
        ensures
            r == (failure_count < max_retries),
    {
        failure_count < max_retries
    }

    /// Proposes retrying a failed step.
    pub fn propose_retry(execution_id: String, step_id: String, attempt: u32) -> (r: EventPayload)
        ensures
            is_custom_payload(
                r,
                "ExecutionRetry"@,
                execution_id@ + "|"@ + step_id@ + "|"@ + decimal(attempt as nat),
            ),
    {
        let a = decimal_text(attempt as u64);
        custom_payload("ExecutionRetry", &pipe3(execution_id.as_str(), step_id.as_str(), a.as_str()))
    }

    /// Proposes rolling back an execution.
    pub fn propose_rollback(execution_id: String, reason: String) -> (r: EventPayload)
        ensures
            is_custom_payload(r, "ExecutionRollback"@, execution_id@ + "|"@ + reason@),
    {
        custom_payload("ExecutionRollback", &pipe2(execution_id.as_str(), reason.as_str()))
    }
}

} // verus!
