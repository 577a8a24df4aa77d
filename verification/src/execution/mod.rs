pub mod execution_context;
pub mod execution_monitor;
pub mod execution_recovery;
pub mod executor;
