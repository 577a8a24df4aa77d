use crate::canonical_state::duplicate::{duplicate_text_option, Duplicate};
use crate::canonical_state::text_map::TextMap;
use vstd::prelude::*;

verus! {

/// Where a goal stands.
#[derive(Debug, Clone, Copy, PartialEq, Eq, Structural)]
pub enum GoalStatus {
    Proposed,
    Active,
    Suspended,
    Completed,
    Failed,
}

/// A goal, with its priority and the values it supports.
#[derive(Debug, Clone, PartialEq, Eq)]
pub struct Goal {
    pub goal_id: String,
    pub description: String,
    pub priority: u64,
    pub supporting_values: Vec<String>,
    pub status: GoalStatus,
    pub parent_goal_id: Option<String>,
}

/// The core values, which are never traded away.
#[derive(Debug, Clone, Copy, PartialEq, Eq, Structural)]
pub enum CoreValue {
    Truth,
    Safety,
    ConstitutionCompliance,
}

/// The operational values, which may be reordered.
#[derive(Debug, Clone, Copy, PartialEq, Eq, Structural)]
pub enum OperationalValue {
    UserBenefit,
    ResourceEfficiency,
    KnowledgeGrowth,
    Autonomy,
    Transparency,
}

/// The order of the values.
#[derive(Debug, Clone, PartialEq, Eq)]
pub struct ValuePriority {
    pub core_order: Vec<CoreValue>,
    pub operational_order: Vec<OperationalValue>,
}

/// The default order of the core values.
pub open spec fn default_core_order() -> Seq<CoreValue> {
    seq![CoreValue::Truth, CoreValue::Safety, CoreValue::ConstitutionCompliance]
}

/// The default order of the operational values.
pub open spec fn default_operational_order() -> Seq<OperationalValue> {
    seq![
        OperationalValue::UserBenefit,
        OperationalValue::ResourceEfficiency,
        OperationalValue::KnowledgeGrowth,
        OperationalValue::Autonomy,
        OperationalValue::Transparency,
    ]
}

impl Default for ValuePriority {
    fn default() -> (r: Self)
        ensures
            r.core_order@ == default_core_order(),
            r.operational_order@ == default_operational_order(),
    {
        let mut core_order: Vec<CoreValue> = Vec::new();
        core_order.push(CoreValue::Truth);
        core_order.push(CoreValue::Safety);
        core_order.push(CoreValue::ConstitutionCompliance);
        let mut operational_order: Vec<OperationalValue> = Vec::new();
        operational_order.push(OperationalValue::UserBenefit);
        operational_order.push(OperationalValue::ResourceEfficiency);
        operational_order.push(OperationalValue::KnowledgeGrowth);
        operational_order.push(OperationalValue::Autonomy);
        operational_order.push(OperationalValue::Transparency);
        proof {
            assert(core_order@ =~= default_core_order());
            assert(operational_order@ =~= default_operational_order());
        }
        ValuePriority { core_order, operational_order }
    }
}

/// The goals: active ones keyed by id, finished ones in order, and the values
/// that guide them.
#[derive(Debug, Clone, PartialEq, Eq)]
pub struct GoalState {
    pub active_goals: TextMap<Goal>,
    pub completed_goals: Vec<Goal>,
    pub failed_goals: Vec<Goal>,
    pub value_priorities: ValuePriority,
    pub goal_counter: u64,
}

impl GoalState {
    /// No goals, the default value order and a zero counter.
    pub fn empty() -> (r: Self)
        ensures
            r.active_goals.well_formed(),
            r.active_goals.keys().len() == 0,
            r.completed_goals@.len() == 0,
            r.failed_goals@.len() == 0,
            r.value_priorities.core_order@ == default_core_order(),
            r.value_priorities.operational_order@ == default_operational_order(),
            r.goal_counter == 0,
    {
        GoalState {
            active_goals: TextMap::new(),
            completed_goals: Vec::new(),
            failed_goals: Vec::new(),
            value_priorities: ValuePriority::default(),
            goal_counter: 0,
        }
    }

    /// Whether there are no goals and the counter is zero.
    pub fn is_empty(&self) -> (r: bool)
        ensures
            r == (self.active_goals.keys().len() == 0 && self.completed_goals@.len() == 0
                && self.failed_goals@.len() == 0 && self.goal_counter == 0),
    {
        self.active_goals.is_empty() && self.completed_goals.len() == 0 && self.failed_goals.len() == 0
            && self.goal_counter == 0
    }
}


impl Duplicate for Goal {
    type Contents = (<String as Duplicate>::Contents, <String as Duplicate>::Contents, u64, <Vec<String> as Duplicate>::Contents, GoalStatus, Option<String>);

    open spec fn contents(&self) -> Self::Contents {
        (self.goal_id.contents(), self.description.contents(), self.priority, self.supporting_values.contents(), self.status, self.parent_goal_id)
    }

    fn duplicate(&self) -> (r: Self) {
        Goal {
            goal_id: self.goal_id.duplicate(),
            description: self.description.duplicate(),
            priority: self.priority,
            supporting_values: self.supporting_values.duplicate(),
            status: self.status,
            parent_goal_id: duplicate_text_option(&self.parent_goal_id),
        }
    }
}

impl Duplicate for ValuePriority {
    type Contents = (<Vec<CoreValue> as Duplicate>::Contents, <Vec<OperationalValue> as Duplicate>::Contents);

    open spec fn contents(&self) -> Self::Contents {
        (self.core_order.contents(), self.operational_order.contents())
    }

    fn duplicate(&self) -> (r: Self) {
        ValuePriority {
            core_order: self.core_order.duplicate(),
            operational_order: self.operational_order.duplicate(),
        }
    }
}

impl Duplicate for GoalState {
    type Contents = (<TextMap<Goal> as Duplicate>::Contents, <Vec<Goal> as Duplicate>::Contents, <Vec<Goal> as Duplicate>::Contents, <ValuePriority as Duplicate>::Contents, u64);

    open spec fn contents(&self) -> Self::Contents {
        (self.active_goals.contents(), self.completed_goals.contents(), self.failed_goals.contents(), self.value_priorities.contents(), self.goal_counter)
    }

    fn duplicate(&self) -> (r: Self) {
        GoalState {
            active_goals: self.active_goals.duplicate(),
            completed_goals: self.completed_goals.duplicate(),
            failed_goals: self.failed_goals.duplicate(),
            value_priorities: self.value_priorities.duplicate(),
            goal_counter: self.goal_counter,
        }
    }
}


impl Duplicate for CoreValue {
    type Contents = CoreValue;

    open spec fn contents(&self) -> CoreValue {
        *self
    }

    fn duplicate(&self) -> (r: Self) {
        *self
    }
}

impl Duplicate for OperationalValue {
    type Contents = OperationalValue;

    open spec fn contents(&self) -> OperationalValue {
        *self
    }

    fn duplicate(&self) -> (r: Self) {
        *self
    }
}

} // verus!
