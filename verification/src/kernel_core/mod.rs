pub mod canonical_state;
pub mod constitution_checker;
pub mod digest;
pub mod event;
pub mod event_hash;
pub mod event_id;
pub mod event_metadata;
pub mod invariant_checker;
pub mod logical_time;
pub mod order;
pub mod reducer;
pub mod replay_validator;
pub mod verification_suite;
pub mod log_laws;
