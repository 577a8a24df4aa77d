use sps::autonomy::autonomous_agent::AutonomousAgent;
use sps::autonomy::autonomy_manager::AutonomyManager;
use sps::autonomy::goal_driven_executor::GoalDrivenExecutor;
use sps::autonomy::proactive_planner::ProactivePlanner;
use sps::execution::execution_context::ExecutionContextManager;
use sps::execution::execution_monitor::ExecutionMonitor;
use sps::execution::execution_recovery::ExecutionRecovery;
use sps::execution::executor::Executor;
use sps::kernel_core::event::EventPayload;

fn custom_parts(p: &EventPayload) -> (String, String) {
    match p {
        EventPayload::Custom { event_type, data } => (event_type.clone(), String::from_utf8(data.clone()).unwrap()),
        _ => panic!("not a custom payload"),
    }
}

fn parts(t: &str, d: &str) -> (String, String) {
    (t.to_string(), d.to_string())
}

#[test]
fn start_cycle_creates_event() {
    let p = AutonomousAgent::propose_start_cycle("agent.1".into(), "goal.1".into());
    match p {
        EventPayload::Custom { .. } => (),
        _ => panic!(),
    }
}

#[test]
fn cycle_events_carry_agent_and_outcome() {
    let p = AutonomousAgent::propose_start_cycle("agent.1".into(), "goal.1".into());
    assert_eq!(custom_parts(&p), parts("AutonomousCycleStarted", "agent.1|goal.1"));
    let p = AutonomousAgent::propose_complete_cycle("agent.1".into(), false);
    assert_eq!(custom_parts(&p), parts("AutonomousCycleCompleted", "agent.1|false"));
}

#[test]
fn grant_creates_event() {
    let p = AutonomyManager::propose_grant("agent.1".into(), "memory".into());
    match p {
        EventPayload::Custom { .. } => (),
        _ => panic!(),
    }
}

#[test]
fn grant_and_revoke_carry_their_fields() {
    let p = AutonomyManager::propose_grant("agent.1".into(), "memory".into());
    assert_eq!(custom_parts(&p), parts("AutonomyGranted", "agent.1|memory"));
    let p = AutonomyManager::propose_revoke("agent.1".into(), "misuse".into());
    assert_eq!(custom_parts(&p), parts("AutonomyRevoked", "agent.1|misuse"));
}

#[test]
fn select_goal_event() {
    let p = GoalDrivenExecutor::propose_select_goal("agent.1".into(), "goal.2".into());
    match p {
        EventPayload::Custom { .. } => (),
        _ => panic!(),
    }
}

#[test]
fn goal_execution_events_carry_their_fields() {
    let p = GoalDrivenExecutor::propose_select_goal("agent.1".into(), "goal.2".into());
    assert_eq!(custom_parts(&p), parts("AutonomousGoalSelected", "agent.1|goal.2"));
    let p = GoalDrivenExecutor::propose_execute_goal("agent.1".into(), "plan.7".into());
    assert_eq!(custom_parts(&p), parts("AutonomousGoalExecution", "agent.1|plan.7"));
}

#[test]
fn proactive_plan_event() {
    let p = ProactivePlanner::propose_proactive_plan("agent.1".into(), "optimize memory usage".into());
    match p {
        EventPayload::Custom { .. } => (),
        _ => panic!(),
    }
}

#[test]
fn proactive_plan_carries_its_description() {
    let p = ProactivePlanner::propose_proactive_plan("agent.1".into(), "optimize memory usage".into());
    assert_eq!(custom_parts(&p), parts("ProactivePlanGenerated", "agent.1|optimize memory usage"));
}

#[test]
fn propose_create_ok() {
    let p = ExecutionContextManager::propose_create("p1".into());
    match p {
        EventPayload::Custom { .. } => (),
        _ => panic!(),
    }
}

#[test]
fn execution_context_events_carry_their_fields() {
    let p = ExecutionContextManager::propose_create("p1".into());
    assert_eq!(custom_parts(&p), parts("ExecutionContextCreated", "p1"));
    let p = ExecutionContextManager::propose_advance("e1".into(), "s2".into());
    assert_eq!(custom_parts(&p), parts("ExecutionContextAdvanced", "e1|s2"));
}

#[test]
fn under_budget_passes() {
    assert!(ExecutionMonitor::check_budget(50, 100));
}

#[test]
fn over_budget_fails() {
    assert!(!ExecutionMonitor::check_budget(150, 100));
}

#[test]
fn budget_edge_and_overrun_event() {
    assert!(ExecutionMonitor::check_budget(100, 100));
    assert!(!ExecutionMonitor::check_budget(101, 100));
    let p = ExecutionMonitor::propose_budget_overrun("e1".into(), 150, 100);
    assert_eq!(custom_parts(&p), parts("ExecutionBudgetOverrun", "e1|150|100"));
}

#[test]
fn retry_below_max() {
    assert!(ExecutionRecovery::should_retry(2, 3));
}

#[test]
fn no_retry_at_max() {
    assert!(!ExecutionRecovery::should_retry(3, 3));
}

#[test]
fn recovery_events_carry_their_fields() {
    assert!(!ExecutionRecovery::should_retry(0, 0));
    let p = ExecutionRecovery::propose_rollback("e1".into(), "disk full".into());
    assert_eq!(custom_parts(&p), parts("ExecutionRollback", "e1|disk full"));
}

#[test]
fn propose_start_creates_event() {
    let payload = Executor::propose_start("plan.1".into());
    match payload {
        EventPayload::Custom { event_type, .. } => assert!(event_type.contains("ExecutionStarted")),
        _ => panic!("Wrong payload"),
    }
}

#[test]
fn executor_events_carry_their_fields() {
    let p = Executor::propose_execute_step("plan.1".into(), "s1".into(), "cap.9".into());
    assert_eq!(custom_parts(&p), parts("ExecutionStep", "plan.1|s1|cap.9"));
    let p = Executor::propose_complete("e1".into());
    assert_eq!(custom_parts(&p), parts("ExecutionCompleted", "e1"));
    let p = Executor::propose_fail("e1".into(), "timeout".into());
    assert_eq!(custom_parts(&p), parts("ExecutionFailed", "e1|timeout"));
}
