use crate::canonical_state::duplicate::{duplicate_text_option, Duplicate};
use crate::canonical_state::text_map::TextMap;
use vstd::prelude::*;

verus! {

/// One step of a plan.
#[derive(Debug, Clone, PartialEq, Eq)]
pub struct PlanStep {
    pub step_id: String,
    pub description: String,
    pub capability_id: Option<String>,
    pub estimated_cost: u64,
    pub dependencies: Vec<String>,
    pub status: StepStatus,
}

/// Where a step stands.
#[derive(Debug, Clone, Copy, PartialEq, Eq, Structural)]
pub enum StepStatus {
    Pending,
    Ready,
    InProgress,
    Completed,
    Failed,
}

/// A plan towards a goal.
#[derive(Debug, Clone, PartialEq, Eq)]
pub struct Plan {
    pub plan_id: String,
    pub goal_id: String,
    pub steps: Vec<PlanStep>,
    pub total_estimated_cost: u64,
    pub plan_status: PlanStatus,
}

/// Where a plan stands.
#[derive(Debug, Clone, Copy, PartialEq, Eq, Structural)]
pub enum PlanStatus {
    Draft,
    Validated,
    Executing,
    Completed,
    Failed,
}

/// The plans: active ones keyed by id, finished ones in order.
#[derive(Debug, Clone, PartialEq, Eq)]
pub struct PlannerState {
    pub active_plans: TextMap<Plan>,
    pub completed_plans: Vec<Plan>,
    pub failed_plans: Vec<Plan>,
    pub plan_counter: u64,
}

impl PlannerState {
    /// No plans and a zero counter.
    pub fn empty() -> (r: Self)
        ensures
            r.active_plans.well_formed(),
            r.active_plans.keys().len() == 0,
            r.completed_plans@.len() == 0,
            r.failed_plans@.len() == 0,
            r.plan_counter == 0,
    {
        PlannerState {
            active_plans: TextMap::new(),
            completed_plans: Vec::new(),
            failed_plans: Vec::new(),
            plan_counter: 0,
        }
    }

    /// Whether there are no plans and the counter is zero.
    pub fn is_empty(&self) -> (r: bool)
        ensures
            r == (self.active_plans.keys().len() == 0 && self.completed_plans@.len() == 0
                && self.failed_plans@.len() == 0 && self.plan_counter == 0),
    {
        self.active_plans.is_empty() && self.completed_plans.len() == 0 && self.failed_plans.len() == 0
            && self.plan_counter == 0
    }
}


impl Duplicate for PlanStep {
    type Contents = (<String as Duplicate>::Contents, <String as Duplicate>::Contents, Option<String>, u64, <Vec<String> as Duplicate>::Contents, StepStatus);

    open spec fn contents(&self) -> Self::Contents {
        (self.step_id.contents(), self.description.contents(), self.capability_id, self.estimated_cost, self.dependencies.contents(), self.status)
    }

    fn duplicate(&self) -> (r: Self) {
        PlanStep {
            step_id: self.step_id.duplicate(),
            description: self.description.duplicate(),
            capability_id: duplicate_text_option(&self.capability_id),
            estimated_cost: self.estimated_cost,
            dependencies: self.dependencies.duplicate(),
            status: self.status,
        }
    }
}

impl Duplicate for Plan {
    type Contents = (<String as Duplicate>::Contents, <String as Duplicate>::Contents, <Vec<PlanStep> as Duplicate>::Contents, u64, PlanStatus);

    open spec fn contents(&self) -> Self::Contents {
        (self.plan_id.contents(), self.goal_id.contents(), self.steps.contents(), self.total_estimated_cost, self.plan_status)
    }

    fn duplicate(&self) -> (r: Self) {
        Plan {
            plan_id: self.plan_id.duplicate(),
            goal_id: self.goal_id.duplicate(),
            steps: self.steps.duplicate(),
            total_estimated_cost: self.total_estimated_cost,
            plan_status: self.plan_status,
        }
    }
}

impl Duplicate for PlannerState {
    type Contents = (<TextMap<Plan> as Duplicate>::Contents, <Vec<Plan> as Duplicate>::Contents, <Vec<Plan> as Duplicate>::Contents, u64);

    open spec fn contents(&self) -> Self::Contents {
        (self.active_plans.contents(), self.completed_plans.contents(), self.failed_plans.contents(), self.plan_counter)
    }

    fn duplicate(&self) -> (r: Self) {
        PlannerState {
            active_plans: self.active_plans.duplicate(),
            completed_plans: self.completed_plans.duplicate(),
            failed_plans: self.failed_plans.duplicate(),
            plan_counter: self.plan_counter,
        }
    }
}


} // verus!
