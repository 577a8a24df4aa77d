pub mod explanation_ranker;
pub mod hypothesis_generator;
pub mod occam_filter;
