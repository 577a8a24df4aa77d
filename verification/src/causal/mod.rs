pub mod causal_reasoner;
pub mod counterfactual;
pub mod intervention_model;
