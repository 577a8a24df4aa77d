use crate::causal::causal_reasoner::{find_effect, lookup_effect};
use crate::kernel_core::event::EventPayload;
use crate::proposal::{custom_payload, is_custom_payload, pipe2};
use vstd::prelude::*;

verus! {

/// Predicts the outcome of interventions from cause-effect rules.
pub struct InterventionModel;

impl InterventionModel {
    /// The effect of the first rule whose cause is the intervention.
    pub fn predict(intervention: &str, rules: &[(String, String)]) -> (r: Option<String>)
        ensures
            match r {
                Some(e) => lookup_effect(rules@, intervention@) == Some(e@),
                None => lookup_effect(rules@, intervention@) is None,
            },
    {
        find_effect(rules, intervention)
    }

    /// Proposes recording a predicted outcome.
    pub fn propose_prediction(intervention: String, predicted_outcome: String) -> (r: EventPayload)
        ensures
            is_custom_payload(r, "InterventionPredicted"@, intervention@ + "|"@ + predicted_outcome@),
    {
        custom_payload("InterventionPredicted", &pipe2(intervention.as_str(), predicted_outcome.as_str()))
    }
}

} // verus!
