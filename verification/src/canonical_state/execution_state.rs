use crate::canonical_state::duplicate::Duplicate;
use crate::canonical_state::text_map::TextMap;
use vstd::prelude::*;

verus! {

/// One execution of a plan step by a provider.
#[derive(Debug, Clone, PartialEq, Eq)]
pub struct ExecutionRecord {
    pub execution_id: String,
    pub plan_id: String,
    pub step_id: String,
    pub provider_id: String,
    pub status: ExecutionStatus,
    pub resources_consumed: ResourceUsage,
}

/// Where an execution stands.
#[derive(Debug, Clone, Copy, PartialEq, Eq, Structural)]
pub enum ExecutionStatus {
    Pending,
    Running,
    Completed,
    Failed,
}

/// The resources an execution consumed.
#[derive(Debug, Clone, Copy, PartialEq, Eq, Structural)]
pub struct ResourceUsage {
    pub cpu_ms: u64,
    pub memory_bytes: u64,
    pub tokens_used: u64,
}

/// The executions: active ones keyed by id, finished ones in order.
#[derive(Debug, Clone, PartialEq, Eq)]
pub struct ExecutionState {
    pub active_executions: TextMap<ExecutionRecord>,
    pub completed_executions: Vec<ExecutionRecord>,
    pub failed_executions: Vec<ExecutionRecord>,
    pub execution_counter: u64,
}

impl ExecutionState {
    /// No executions and a zero counter.
    pub fn empty() -> (r: Self)
        ensures
            r.active_executions.well_formed(),
            r.active_executions.keys().len() == 0,
            r.completed_executions@.len() == 0,
            r.failed_executions@.len() == 0,
            r.execution_counter == 0,
    {
        ExecutionState {
            active_executions: TextMap::new(),
            completed_executions: Vec::new(),
            failed_executions: Vec::new(),
            execution_counter: 0,
        }
    }

    /// Whether there are no executions and the counter is zero.
    pub fn is_empty(&self) -> (r: bool)
        ensures
            r == (self.active_executions.keys().len() == 0 && self.completed_executions@.len() == 0
                && self.failed_executions@.len() == 0 && self.execution_counter == 0),
    {
        self.active_executions.is_empty() && self.completed_executions.len() == 0
            && self.failed_executions.len() == 0 && self.execution_counter == 0
    }
}


impl Duplicate for ExecutionRecord {
    type Contents = (<String as Duplicate>::Contents, <String as Duplicate>::Contents, <String as Duplicate>::Contents, <String as Duplicate>::Contents, ExecutionStatus, ResourceUsage);

    open spec fn contents(&self) -> Self::Contents {
        (self.execution_id.contents(), self.plan_id.contents(), self.step_id.contents(), self.provider_id.contents(), self.status, self.resources_consumed)
    }

    fn duplicate(&self) -> (r: Self) {
        ExecutionRecord {
            execution_id: self.execution_id.duplicate(),
            plan_id: self.plan_id.duplicate(),
            step_id: self.step_id.duplicate(),
            provider_id: self.provider_id.duplicate(),
            status: self.status,
            resources_consumed: self.resources_consumed,
        }
    }
}

impl Duplicate for ExecutionState {
    type Contents = (<TextMap<ExecutionRecord> as Duplicate>::Contents, <Vec<ExecutionRecord> as Duplicate>::Contents, <Vec<ExecutionRecord> as Duplicate>::Contents, u64);

    open spec fn contents(&self) -> Self::Contents {
        (self.active_executions.contents(), self.completed_executions.contents(), self.failed_executions.contents(), self.execution_counter)
    }

    fn duplicate(&self) -> (r: Self) {
        ExecutionState {
            active_executions: self.active_executions.duplicate(),
            completed_executions: self.completed_executions.duplicate(),
            failed_executions: self.failed_executions.duplicate(),
            execution_counter: self.execution_counter,
        }
    }
}


} // verus!
