use crate::causal::causal_reasoner::{find_effect, lookup_effect};
use crate::kernel_core::event::EventPayload;
use crate::proposal::{custom_payload, is_custom_payload, pipe2};
use vstd::prelude::*;

verus! {

/// What the counterfactual question yields: when the rules explain the actual
/// effect by the actual cause (a missing rule explains the empty effect), the
/// effect the rules give the alternative cause.
pub open spec fn counterfactual_outcome(
    actual_cause: Seq<char>,
    actual_effect: Seq<char>,
    alternative_cause: Seq<char>,
    rules: Seq<(String, String)>,
) -> Option<Seq<char>> {
    let explained = match lookup_effect(rules, actual_cause) {
        Some(e) => e,
        None => Seq::empty(),
    };
    if actual_effect == explained {
        lookup_effect(rules, alternative_cause)
    } else {
        None
    }
}

/// Answers "what if the cause had been different?".
pub struct Counterfactual;

impl Counterfactual {
    /// The alternative outcome, if the rules explain the actual one.
    pub fn reason(
        actual_cause: &str,
        actual_effect: &str,
        alternative_cause: &str,
        rules: &[(String, String)],
    ) -> (r: Option<String>)
        ensures
            match r {
                Some(e) => counterfactual_outcome(actual_cause@, actual_effect@, alternative_cause@, rules@)
                    == Some(e@),
                None => counterfactual_outcome(actual_cause@, actual_effect@, alternative_cause@, rules@)
                    is None,
            },
    {
        let explained = match find_effect(rules, actual_cause) {
            Some(e) => e,
            None => String::new(),
        };
        if String::from_str(actual_effect) == explained {
            find_effect(rules, alternative_cause)
        } else {
            None
        }
    }

    /// Proposes recording a counterfactual.
    pub fn propose_counterfactual(actual: String, alternative: String) -> (r: EventPayload)
        ensures
            is_custom_payload(r, "CounterfactualReasoned"@, actual@ + "|"@ + alternative@),
    {
        custom_payload("CounterfactualReasoned", &pipe2(actual.as_str(), alternative.as_str()))
    }
}

} // verus!
