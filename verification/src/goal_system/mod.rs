pub mod goal;
pub mod goal_allocator;
pub mod goal_evaluator;
pub mod goal_registry;
pub mod goal_tracker;
pub mod value_system;
