pub mod autonomous_agent;
pub mod autonomy_manager;
pub mod goal_driven_executor;
pub mod proactive_planner;
