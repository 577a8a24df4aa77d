use crate::kernel_core::event::EventPayload;
use crate::proposal::{custom_payload, is_custom_payload, pipe3};
use crate::text::{decimal, decimal_text};
use vstd::prelude::*;

verus! {

/// Watches executions against their resource budgets.
pub struct ExecutionMonitor;

impl ExecutionMonitor {
    /// Whether the resources used stay within the budget.
    pub fn check_budget(used: u64, budget: u64) -> (r: bool)
        ensures
            r == (used <= budget),
    {
        used <= budget
    }

    /// Proposes reporting that an execution overran its budget.
    pub fn propose_budget_overrun(execution_id: String, used: u64, budget: u64) -> (r: EventPayload)
        ensures
            is_custom_payload(
                r,
                "ExecutionBudgetOverrun"@,
                execution_id@ + "|"@ + decimal(used as nat) + "|"@ + decimal(budget as nat),
            ),
    {
        let u = decimal_text(used);
        let b = decimal_text(budget);
        custom_payload("ExecutionBudgetOverrun", &pipe3(execution_id.as_str(), u.as_str(), b.as_str()))
    }
}

} // verus!
