use crate::kernel_core::event::EventPayload;
use crate::proposal::{custom_payload, is_custom_payload, join_texts, join_with};
use vstd::prelude::*;

verus! {

/// The core values, which goals may never work against.
#[derive(Debug, Clone, Copy, PartialEq, Eq, Structural, Hash)]
pub enum CoreValue {
    Truth,
    Safety,
    ConstitutionCompliance,
}

/// The operational values, whose order may change.
#[derive(Debug, Clone, Copy, PartialEq, Eq, Structural, Hash)]
pub enum OperationalValue {
    UserBenefit,
    ResourceEfficiency,
    KnowledgeGrowth,
    Autonomy,
    Transparency,
}

/// The ordered priority of the values.
#[derive(Debug, Clone, PartialEq, Eq)]
pub struct ValuePriorities {
    pub core: Vec<CoreValue>,
    pub operational: Vec<OperationalValue>,
}

/// The name of a core value.
pub open spec fn core_value_name(v: CoreValue) -> Seq<char> {
    match v {
        CoreValue::Truth => "Truth"@,
        CoreValue::Safety => "Safety"@,
        CoreValue::ConstitutionCompliance => "ConstitutionCompliance"@,
    }
}

/// The name of an operational value.
pub open spec fn operational_value_name(v: OperationalValue) -> Seq<char> {
    match v {
        OperationalValue::UserBenefit => "UserBenefit"@,
        OperationalValue::ResourceEfficiency => "ResourceEfficiency"@,
        OperationalValue::KnowledgeGrowth => "KnowledgeGrowth"@,
        OperationalValue::Autonomy => "Autonomy"@,
        OperationalValue::Transparency => "Transparency"@,
    }
}

impl CoreValue {
    /// The name of this value.
    pub fn name(&self) -> (r: &'static str)
        ensures
            r@ == core_value_name(*self),
    {
        match self {
            CoreValue::Truth => "Truth",
            CoreValue::Safety => "Safety",
            CoreValue::ConstitutionCompliance => "ConstitutionCompliance",
        }
    }
}

impl OperationalValue {
    /// The name of this value.
    pub fn name(&self) -> (r: &'static str)
        ensures
            r@ == operational_value_name(*self),
    {
        match self {
            OperationalValue::UserBenefit => "UserBenefit",
            OperationalValue::ResourceEfficiency => "ResourceEfficiency",
            OperationalValue::KnowledgeGrowth => "KnowledgeGrowth",
            OperationalValue::Autonomy => "Autonomy",
            OperationalValue::Transparency => "Transparency",
        }
    }
}

impl Default for ValuePriorities {
    fn default() -> (r: Self)
        ensures
            r.core@ == seq![CoreValue::Truth, CoreValue::Safety, CoreValue::ConstitutionCompliance],
            r.operational@ == seq![
                OperationalValue::UserBenefit,
                OperationalValue::ResourceEfficiency,
                OperationalValue::KnowledgeGrowth,
                OperationalValue::Autonomy,
                OperationalValue::Transparency,
            ],
    {
        let mut core: Vec<CoreValue> = Vec::new();
        core.push(CoreValue::Truth);
        core.push(CoreValue::Safety);
        core.push(CoreValue::ConstitutionCompliance);
        let mut operational: Vec<OperationalValue> = Vec::new();
        operational.push(OperationalValue::UserBenefit);
        operational.push(OperationalValue::ResourceEfficiency);
        operational.push(OperationalValue::KnowledgeGrowth);
        operational.push(OperationalValue::Autonomy);
        operational.push(OperationalValue::Transparency);
        proof {
            assert(core@ =~= seq![CoreValue::Truth, CoreValue::Safety, CoreValue::ConstitutionCompliance]);
            assert(operational@ =~= seq![
                OperationalValue::UserBenefit,
                OperationalValue::ResourceEfficiency,
                OperationalValue::KnowledgeGrowth,
                OperationalValue::Autonomy,
                OperationalValue::Transparency,
            ]);
        }
        ValuePriorities { core, operational }
    }
}

/// Whether some goal value names one of the core values.
pub open spec fn names_core_value(goal_values: Seq<String>, core: Seq<CoreValue>) -> bool {
    exists|i: int, j: int|
        0 <= i < core.len() && 0 <= j < goal_values.len() && #[trigger] goal_values[j]@
            == core_value_name(#[trigger] core[i])
}

/// Distinct core values have distinct names.
pub proof fn lemma_core_value_names_distinct(a: CoreValue, b: CoreValue)
    ensures
        (core_value_name(a) == core_value_name(b)) == (a == b),
{
    reveal_strlit("Truth");
    reveal_strlit("Safety");
    reveal_strlit("ConstitutionCompliance");
    if a != b {
        assert(core_value_name(a).len() != core_value_name(b).len() || core_value_name(a)[0]
            != core_value_name(b)[0]);
    }
}

/// Against the default core values, a goal supports a core value exactly when
/// one of its values is `Truth`, `Safety` or `ConstitutionCompliance`.
pub proof fn lemma_default_core_names(goal_values: Seq<String>)
    ensures
        names_core_value(goal_values, seq![CoreValue::Truth, CoreValue::Safety, CoreValue::ConstitutionCompliance])
            == exists|j: int|
            0 <= j < goal_values.len() && ((#[trigger] goal_values[j])@ == "Truth"@ || goal_values[j]@
                == "Safety"@ || goal_values[j]@ == "ConstitutionCompliance"@),
{
    let core = seq![CoreValue::Truth, CoreValue::Safety, CoreValue::ConstitutionCompliance];
    assert(core_value_name(core[0]) == "Truth"@);
    assert(core_value_name(core[1]) == "Safety"@);
    assert(core_value_name(core[2]) == "ConstitutionCompliance"@);
    if exists|j: int|
        0 <= j < goal_values.len() && ((#[trigger] goal_values[j])@ == "Truth"@ || goal_values[j]@ == "Safety"@
            || goal_values[j]@ == "ConstitutionCompliance"@) {
        let j = choose|j: int|
            0 <= j < goal_values.len() && ((#[trigger] goal_values[j])@ == "Truth"@ || goal_values[j]@
                == "Safety"@ || goal_values[j]@ == "ConstitutionCompliance"@);
        if goal_values[j]@ == "Truth"@ {
            assert(goal_values[j]@ == core_value_name(core[0]));
        } else if goal_values[j]@ == "Safety"@ {
            assert(goal_values[j]@ == core_value_name(core[1]));
        } else {
            assert(goal_values[j]@ == core_value_name(core[2]));
        }
    }
}

/// Guides goal selection by the values.
pub struct ValueSystem;

impl ValueSystem {
    /// Whether the goal supports at least one core value.
    pub fn supports_core(goal_values: &[String], priorities: &ValuePriorities) -> (r: bool)
        ensures
            r == names_core_value(goal_values@, priorities.core@),
    {
        let mut i: usize = 0;
        while i < priorities.core.len()
            invariant
                i <= priorities.core@.len(),
                forall|a: int, j: int|
                    0 <= a < i && 0 <= j < goal_values@.len() ==> #[trigger] goal_values@[j]@
                        != core_value_name(#[trigger] priorities.core@[a]),
            decreases priorities.core@.len() - i,
        {
            let name = String::from_str(priorities.core[i].name());
            let mut j: usize = 0;
            while j < goal_values.len()
                invariant
                    i < priorities.core@.len(),
                    j <= goal_values@.len(),
                    name@ == core_value_name(priorities.core@[i as int]),
                    forall|k: int| 0 <= k < j ==> #[trigger] goal_values@[k]@ != name@,
                decreases goal_values@.len() - j,
            {
                if goal_values[j] == name {
                    proof {
                        assert(goal_values@[j as int]@ == core_value_name(priorities.core@[i as int]));
                    }
                    return true;
                }
                j = j + 1;
            }
            i = i + 1;
        }
        false
    }

    /// Proposes a new order of the operational values (the core ones never change).
    pub fn propose_update_operational(new_order: Vec<OperationalValue>) -> (r: EventPayload)
        ensures
            is_custom_payload(
                r,
                "ValueSystemUpdated"@,
                join_with(new_order@.map_values(|v: OperationalValue| operational_value_name(v)), ","@),
            ),
    {
        let mut names: Vec<String> = Vec::new();
        let mut i: usize = 0;
        while i < new_order.len()
            invariant
                i <= new_order@.len(),
                names@.map_values(|s: String| s@) == new_order@.take(i as int).map_values(
                    |v: OperationalValue| operational_value_name(v),
                ),
            decreases new_order@.len() - i,
        {
            let n = String::from_str(new_order[i].name());
            let ghost before = names@;
            let ghost nv = n@;
            names.push(n);
            proof {
                assert(new_order@.take(i + 1) =~= new_order@.take(i as int).push(new_order@[i as int]));
                assert(names@.map_values(|s: String| s@) =~= before.map_values(|s: String| s@).push(nv));
                assert(new_order@.take(i + 1).map_values(|v: OperationalValue| operational_value_name(v))
                    =~= new_order@.take(i as int).map_values(|v: OperationalValue| operational_value_name(v)).push(
                    operational_value_name(new_order@[i as int]),
                ));
            }
            i = i + 1;
        }
        proof {
            assert(new_order@.take(new_order@.len() as int) =~= new_order@);
        }
        let joined = join_texts(&names, ",");
        custom_payload("ValueSystemUpdated", &joined)
    }
}

} // verus!
