pub mod abductive;
pub mod autonomy;
pub mod canonical_state;
pub mod context_engine;
pub mod causal;
pub mod cli;
pub mod execution;
pub mod goal_system;
pub mod inductive;
pub mod governance;
pub mod kernel_core;
pub mod proposal;
pub mod text;
pub mod words;
