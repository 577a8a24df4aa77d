use crate::canonical_state::goal_state::{Goal, ValuePriority};
use vstd::prelude::*;

verus! {

/// Whether a supporting value renounces a core value.
pub open spec fn renounces_core_value(v: Seq<char>) -> bool {
    v == "not Truth"@ || v == "not Safety"@ || v == "not ConstitutionCompliance"@
}

/// Evaluates goals against the values.
pub struct GoalEvaluator;

impl GoalEvaluator {
    /// Whether no supporting value of the goal renounces a core value.
    pub fn is_safe(goal: &Goal, _values: &ValuePriority) -> (r: bool)
        ensures
            r == !(exists|i: int|
                0 <= i < goal.supporting_values@.len() && renounces_core_value(
                    #[trigger] goal.supporting_values@[i]@,
                )),
    {
        let mut i: usize = 0;
        while i < goal.supporting_values.len()
            invariant
                i <= goal.supporting_values@.len(),
                forall|j: int| 0 <= j < i ==> !renounces_core_value(#[trigger] goal.supporting_values@[j]@),
            decreases goal.supporting_values@.len() - i,
        {
            let v = goal.supporting_values[i].as_str();
            if str_eq(v, "not Truth") || str_eq(v, "not Safety") || str_eq(v, "not ConstitutionCompliance") {
                return false;
            }
            i = i + 1;
        }
        true
    }
}

/// Whether two texts are equal.
pub fn str_eq(a: &str, b: &str) -> (r: bool)
    ensures
        r == (a@ == b@),
{
    let x = String::from_str(a);
    let y = String::from_str(b);
    x == y
}

} // verus!
