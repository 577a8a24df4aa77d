use sps::canonical_state::goal_state::{Goal, GoalState, GoalStatus};
use sps::goal_system::goal::GoalManager;
use sps::goal_system::goal_allocator::GoalAllocator;
use sps::goal_system::goal_registry::GoalRegistry;
use sps::goal_system::goal_tracker::GoalTracker;
use sps::goal_system::value_system::{ValuePriorities, ValueSystem};
use sps::governance::authority_resolver::AuthorityResolver;
use sps::governance::delegation_ledger::DelegationLedger;
use sps::governance::governance_audit::GovernanceAudit;
use sps::governance::governance_event::GovernanceEvent;
use sps::governance::governance_policy::{Authority, DecisionClass, GovernancePolicy};
use sps::kernel_core::event::EventPayload;

fn custom_parts(p: &EventPayload) -> (String, String) {
    match p {
        EventPayload::Custom { event_type, data } => (event_type.clone(), String::from_utf8(data.clone()).unwrap()),
        _ => panic!("not a custom payload"),
    }
}

fn parts(t: &str, d: &str) -> (String, String) {
    (t.to_string(), d.to_string())
}

fn goal(id: &str, status: GoalStatus) -> Goal {
    Goal {
        parent_goal_id: None,
        goal_id: id.into(),
        description: "d".into(),
        priority: 1,
        supporting_values: vec![],
        status,
    }
}

#[test]
fn allocates_to_highest_priority() {
    let goals = vec![("g1".into(), 10, 50), ("g2".into(), 20, 30)];
    let alloc = GoalAllocator::allocate(&goals, 60);
    assert_eq!(alloc[0], ("g2".into(), 30));
    assert_eq!(alloc[1], ("g1".into(), 30)); // remaining
}

#[test]
fn allocation_stops_when_nothing_is_left() {
    let goals: Vec<(String, u64, u64)> = vec![
        ("a".into(), 1, 5),
        ("b".into(), 3, 10),
        ("c".into(), 3, 4),
        ("d".into(), 2, 7),
    ];
    let alloc = GoalAllocator::allocate(&goals, 14);
    assert_eq!(alloc, vec![("b".to_string(), 10), ("c".to_string(), 4)]);
    let alloc = GoalAllocator::allocate(&goals, 0);
    assert_eq!(alloc, vec![("b".to_string(), 0)]);
    assert!(GoalAllocator::allocate(&[], 9).is_empty());
    let all = GoalAllocator::allocate(&goals, 100);
    assert_eq!(
        all,
        vec![("b".to_string(), 10), ("c".to_string(), 4), ("d".to_string(), 7), ("a".to_string(), 5)]
    );
}

#[test]
fn allocation_proposal_lists_the_grants() {
    let p = GoalAllocator::propose_allocation(vec![("g2".into(), 30), ("g1".into(), 30)]);
    assert_eq!(custom_parts(&p), parts("GoalResourcesAllocated", "g2=30,g1=30"));
}

#[test]
fn active_filters() {
    let mut state = GoalState::empty();
    state.active_goals.insert("g1".into(), goal("g1", GoalStatus::Active));
    state.active_goals.insert("g2".into(), goal("g2", GoalStatus::Completed));
    assert_eq!(GoalRegistry::active(&state).len(), 1);
}

#[test]
fn active_goals_come_in_key_order() {
    let mut state = GoalState::empty();
    state.active_goals.insert("zeta".into(), goal("zeta", GoalStatus::Active));
    state.active_goals.insert("alpha".into(), goal("alpha", GoalStatus::Active));
    state.active_goals.insert("mid".into(), goal("mid", GoalStatus::Suspended));
    let ids: Vec<String> = GoalRegistry::active(&state).iter().map(|g| g.goal_id.clone()).collect();
    assert_eq!(ids, vec!["alpha".to_string(), "zeta".to_string()]);
    let p = GoalRegistry::propose_activate("mid".into());
    assert_eq!(custom_parts(&p), parts("GoalActivated", "mid"));
}

#[test]
fn detects() {
    assert!(GoalTracker::is_stuck(101, 100));
}

#[test]
fn not_stuck_at_the_threshold() {
    assert!(!GoalTracker::is_stuck(100, 100));
    let p = GoalTracker::propose_escalate("g1".into(), "stuck".into());
    assert_eq!(custom_parts(&p), parts("GoalEscalated", "g1|stuck"));
}

#[test]
fn core_value_match() {
    let p = ValuePriorities::default();
    assert!(ValueSystem::supports_core(&["Truth".into()], &p));
    assert!(!ValueSystem::supports_core(&["Autonomy".into()], &p));
}

#[test]
fn goal_proposals_carry_their_fields() {
    let p = GoalManager::propose_create(
        "goal.1".into(),
        "learn".into(),
        5,
        vec!["UserBenefit".into(), "Truth".into()],
        Some("goal.0".into()),
    );
    assert_eq!(custom_parts(&p), parts("GoalCreated", "goal.1|learn|5|UserBenefit,Truth|goal.0"));
    let p = GoalManager::propose_create("g".into(), "d".into(), 0, vec![], None);
    assert_eq!(custom_parts(&p), parts("GoalCreated", "g|d|0||"));
    let p = GoalManager::propose_update_status("g".into(), GoalStatus::Suspended);
    assert_eq!(custom_parts(&p), parts("GoalStatusUpdated", "g|Suspended"));
}

#[test]
fn minor_requires_system() {
    let rules = GovernancePolicy::default_rules();
    let authority = AuthorityResolver::resolve(&DecisionClass::Minor, &rules);
    assert_eq!(authority, Some(Authority::System));
}

#[test]
fn critical_requires_user() {
    let rules = GovernancePolicy::default_rules();
    let authority = AuthorityResolver::resolve(&DecisionClass::Critical, &rules);
    assert_eq!(authority, Some(Authority::User));
}

#[test]
fn resolution_uses_the_first_matching_rule() {
    let rules = GovernancePolicy::default_rules();
    let major = AuthorityResolver::resolve(&DecisionClass::Major, &rules).unwrap();
    assert_eq!(major.to_text(), "Hybrid { primary: System, secondary: User }");
    assert_eq!(AuthorityResolver::resolve(&DecisionClass::Minor, &rules[1..]), None);
    let p = AuthorityResolver::propose_resolution(DecisionClass::Forbidden, Authority::Constitution);
    assert_eq!(custom_parts(&p), parts("AuthorityResolved", "Forbidden|Constitution"));
}

#[test]
fn delegation_event() {
    let p = DelegationLedger::propose_delegate("User", "System", "Minor", true);
    match p {
        EventPayload::Custom { .. } => (),
        _ => panic!(),
    }
}

#[test]
fn delegation_event_carries_its_fields() {
    let p = DelegationLedger::propose_delegate("User", "System", "Minor", true);
    assert_eq!(custom_parts(&p), parts("DelegationRecorded", "User|System|Minor|true"));
}

#[test]
fn audit_event() {
    let p = GovernanceAudit::propose_audit_entry("Decision X was made by System without delegation");
    match p {
        EventPayload::Custom { .. } => (),
        _ => panic!(),
    }
}

#[test]
fn decision_event() {
    let p = GovernanceEvent::propose_decision("d1", "Approved");
    match p {
        EventPayload::Custom { .. } => (),
        _ => panic!(),
    }
}

#[test]
fn governance_events_carry_their_fields() {
    let p = GovernanceAudit::propose_audit_entry("entry");
    assert_eq!(custom_parts(&p), parts("GovernanceAudit", "entry"));
    let p = GovernanceEvent::propose_decision("d1", "Approved");
    assert_eq!(custom_parts(&p), parts("GovernanceDecision", "d1|Approved"));
}

#[test]
fn default_rules_exist() {
    let rules = GovernancePolicy::default_rules();
    assert_eq!(rules.len(), 4);
}

#[test]
fn policy_proposal_lists_every_rule() {
    let rules = GovernancePolicy::default_rules();
    let p = GovernancePolicy::propose_set_policy(&rules);
    assert_eq!(
        custom_parts(&p),
        parts(
            "GovernancePolicySet",
            "Minor|System|true;Major|Hybrid { primary: System, secondary: User }|false;Critical|User|false;Forbidden|Constitution|false"
        )
    );
}
