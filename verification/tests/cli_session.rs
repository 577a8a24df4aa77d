use sps::cli::commands_extended::ExtendedCommands;
use sps::canonical_state::goal_state::{Goal, GoalStatus};
use sps::canonical_state::memory_state::SemanticFact;
use sps::canonical_state::text_map::TextMap;
use sps::canonical_state::world_state::{Entity, EntityId, EntityType};
use sps::canonical_state::{CanonicalState, FullStateReducer};
use sps::cli::commands::{Command, CommandExecutor};
use sps::kernel_core::event::Event;
use sps::kernel_core::reducer::{KernelReducer, Reducer};
use sps::kernel_core::event::EventPayload;
use sps::kernel_core::event_metadata::EventSource;

fn custom_parts(p: &EventPayload) -> (String, String) {
    match p {
        EventPayload::Custom { event_type, data } => (event_type.clone(), String::from_utf8(data.clone()).unwrap()),
        _ => panic!("not a custom payload"),
    }
}

fn last_parts(s: &CommandExecutor) -> (String, String) {
    custom_parts(&s.last_event().unwrap().payload)
}

fn booted() -> CommandExecutor {
    let mut s = CommandExecutor::new();
    s.init();
    assert!(s.boot());
    s
}

#[test]
fn a_new_session_is_not_running() {
    let mut s = CommandExecutor::new();
    assert!(!s.is_running());
    assert!(!s.boot());
    assert_eq!(s.status_line(), "Status: Stopped | Tick: 0 | Events: 0");
    assert_eq!(ExtendedCommands::goal_create(&mut s, "learn"), "Boot first.");
    assert_eq!(ExtendedCommands::replay_verify(&s), "Boot first.");
    assert_eq!(ExtendedCommands::invariant_check(&s), vec!["Boot first.".to_string()]);
    assert_eq!(s.tick(), 0);
    assert!(s.last_event().is_none());
}

#[test]
fn boot_records_the_lifecycle_after_genesis() {
    let s = booted();
    assert!(s.is_running());
    assert_eq!(s.tick(), 1);
    assert_eq!(s.state().kernel.event_count, 2);
    assert_eq!(s.status_line(), "Status: Running | Tick: 1 | Events: 2");
    let last = s.last_event().unwrap();
    assert_eq!(
        last.payload,
        EventPayload::Lifecycle { transition: "Boot".into(), from_state: "Offline".into(), to_state: "Running".into() }
    );
    assert_eq!(last.metadata.source, EventSource::User { user_id: Some("cli".into()) });
    assert_eq!(last.metadata.correlation_id, None);
    assert_eq!(last.metadata.causation_id, None);
    assert_eq!(last.id.seq, 1);
    let log = s.event_log();
    assert_eq!(log.len(), 2);
    assert_eq!(log[0].payload, EventPayload::Genesis);
    assert_eq!(log[0].metadata.source, EventSource::System);
    assert_eq!(log[0].metadata.correlation_id, None);
    assert_eq!(log[1].parent_hash, log[0].event_hash);
    assert_eq!(s.state().kernel.genesis_hash, log[0].event_hash);
}

#[test]
fn shutdown_stops_the_session() {
    let mut s = booted();
    assert!(s.shutdown());
    assert!(!s.is_running());
    assert!(!s.shutdown());
    assert_eq!(s.tick(), 2);
    assert_eq!(s.status_line(), "Status: Stopped | Tick: 2 | Events: 3");
}

#[test]
fn goal_create_names_the_goal_after_the_tick() {
    let mut s = booted();
    let answer = ExtendedCommands::goal_create(&mut s, "learn");
    assert_eq!(answer, "Goal created: goal.2 — 'learn'");
    assert_eq!(last_parts(&s), ("GoalCreated".to_string(), "goal.2|learn|5|UserBenefit|".to_string()));
    assert_eq!(s.tick(), 2);
}

#[test]
fn autonomy_and_governance_commands_record_events() {
    let mut s = booted();
    assert_eq!(ExtendedCommands::autonomy_grant(&mut s, "agent.1", "memory"), "Autonomy granted to agent.1 in domain memory");
    assert_eq!(last_parts(&s), ("AutonomyGranted".to_string(), "agent.1|memory".to_string()));
    assert_eq!(ExtendedCommands::governance_policy(&mut s), "Governance policy set.");
    assert_eq!(last_parts(&s).0, "GovernancePolicySet");
    assert_eq!(s.tick(), 3);
}

#[test]
fn governance_check_names_the_required_authority() {
    assert_eq!(ExtendedCommands::governance_check("minor"), Some("Decision 'minor' requires System".to_string()));
    assert_eq!(
        ExtendedCommands::governance_check("major"),
        Some("Decision 'major' requires Hybrid { primary: System, secondary: User }".to_string())
    );
    assert_eq!(ExtendedCommands::governance_check("critical"), Some("Decision 'critical' requires User".to_string()));
    assert_eq!(ExtendedCommands::governance_check("forbidden"), Some("Invalid class.".to_string()));
}

#[test]
fn proposals_are_approved_or_denied() {
    let mut s = booted();
    assert_eq!(ExtendedCommands::approve_proposal(&mut s, "p1"), "Proposal 'p1' approved and deployed.");
    assert_eq!(last_parts(&s), ("ProposalApproved".to_string(), "p1|approved by user".to_string()));
    assert_eq!(ExtendedCommands::deny_proposal(&mut s, "p2"), "Proposal 'p2' denied.");
    assert_eq!(last_parts(&s), ("ProposalDenied".to_string(), "p2|denied by user".to_string()));
}

#[test]
fn checks_pass_right_after_boot() {
    let s = booted();
    assert_eq!(ExtendedCommands::replay_verify(&s), "✅ Replay verification PASSED.");
    assert_eq!(ExtendedCommands::invariant_check(&s), vec!["✅ All invariants passed.".to_string()]);
    assert_eq!(ExtendedCommands::full_verification(&s), "✅ Full verification PASSED.");
}

#[test]
fn checks_see_only_genesis_and_the_last_event() {
    let mut s = booted();
    ExtendedCommands::goal_create(&mut s, "learn");
    let replay = ExtendedCommands::replay_verify(&s);
    assert!(replay.starts_with("❌ Replay FAILED: Replay FAILED: replayed hash "), "{}", replay);
    let lines = ExtendedCommands::invariant_check(&s);
    assert_eq!(lines[0], "❌ Invariant violations:");
    assert!(lines.len() > 1);
    assert!(lines[1..].iter().all(|l| l.starts_with("  - I")));
    let full = ExtendedCommands::full_verification(&s);
    assert!(full.starts_with("❌ Verification FAILED: FAILED: Replay"), "{}", full);
}

#[test]
fn hash_and_events_lines() {
    let s = booted();
    assert_eq!(
        ExtendedCommands::show_hash(s.state()),
        format!("State hash: {}", s.state().kernel.state_hash.to_text())
    );
    assert_eq!(ExtendedCommands::show_events(s.state()), "Events: 2, Last ID: 0.1");
}

fn lines(v: &[&str]) -> Vec<String> {
    v.iter().map(|s| s.to_string()).collect()
}

#[test]
fn execute_runs_a_session() {
    let mut s = CommandExecutor::new();
    let o = s.execute(Command::Boot);
    assert_eq!(o.lines, lines(&["Run 'init' first."]));
    assert!(o.keep_going && !o.show_help);
    assert_eq!(s.execute(Command::Init).lines, lines(&["SPS initialized."]));
    assert_eq!(s.execute(Command::Boot).lines, lines(&["Booted."]));
    assert_eq!(s.execute(Command::Status).lines, lines(&["Status: Running | Tick: 1 | Events: 2"]));
    assert_eq!(
        s.execute(Command::Plan { goal: "ship".into() }).lines,
        lines(&["Goal created: goal.2 — 'ship'"])
    );
    assert_eq!(s.execute(Command::Execute).lines, lines(&["Execution step."]));
    assert_eq!(s.execute(Command::GoalList).lines, lines(&["No active goals."]));
    assert_eq!(s.execute(Command::WorldEntities).lines, lines(&["No entities."]));
    assert_eq!(s.execute(Command::ReasonPattern).lines, lines(&["No pattern detected."]));
    assert_eq!(s.execute(Command::Insight).lines, lines(&["Need ≥3 facts."]));
    assert_eq!(s.execute(Command::Events).lines, lines(&["Events: 3, Last ID: 0.2"]));
    assert_eq!(s.execute(Command::GovernanceCheck { decision: "nope".into() }).lines, lines(&["Invalid class."]));
    let help = s.execute(Command::Help);
    assert!(help.show_help && help.lines.is_empty());
    assert_eq!(
        s.execute(Command::Unknown("fly".into())).lines,
        lines(&["Unknown: fly. Type 'help'."])
    );
    assert_eq!(s.execute(Command::Shutdown).lines, lines(&["Shutdown complete."]));
    assert_eq!(s.execute(Command::Shutdown).lines, lines(&["Not running."]));
    assert_eq!(s.execute(Command::Approve { proposal_id: "p".into() }).lines, lines(&["Boot first."]));
    let exit = s.execute(Command::Exit);
    assert!(!exit.keep_going && exit.lines.is_empty());
}

fn fact(id: &str, subject: &str, predicate: &str, object: &str) -> SemanticFact {
    SemanticFact {
        fact_id: id.into(),
        subject: subject.into(),
        predicate: predicate.into(),
        object: object.into(),
        confidence: 0.9f64.to_bits(),
    }
}

#[test]
fn state_commands_read_the_whole_state() {
    let mut state = CanonicalState::initial();
    assert_eq!(ExtendedCommands::goal_list(&state), lines(&["No active goals."]));
    state.goals.active_goals.insert(
        "g2".into(),
        Goal {
            goal_id: "g2".into(),
            description: "ship".into(),
            priority: 7,
            supporting_values: vec![],
            status: GoalStatus::Active,
            parent_goal_id: None,
        },
    );
    state.goals.active_goals.insert(
        "g1".into(),
        Goal {
            goal_id: "g1".into(),
            description: "rest".into(),
            priority: 1,
            supporting_values: vec![],
            status: GoalStatus::Suspended,
            parent_goal_id: None,
        },
    );
    assert_eq!(ExtendedCommands::goal_list(&state), lines(&["Active goals:", "  g2 [priority=7] — ship"]));

    state.world.entities.insert(
        "e1".into(),
        Entity { id: EntityId("e1".into()), entity_type: EntityType::Tool, properties: TextMap::new() },
    );
    assert_eq!(ExtendedCommands::world_entities(&state), lines(&["Entities (1):", "  e1 — Tool"]));

    state.memory.semantic.insert("f1".into(), fact("f1", "a", "is", "fast"));
    state.memory.semantic.insert("f2".into(), fact("f2", "b", "is", "fast"));
    assert_eq!(ExtendedCommands::insight(&state), "Need ≥3 facts.");
    state.memory.semantic.insert("f3".into(), fact("f3", "c", "is", "fast"));
    assert_eq!(ExtendedCommands::reason_pattern(&state), "Pattern: All examples end with 'fast'");
    assert_eq!(ExtendedCommands::insight(&state), "Insight: All examples end with 'fast'");
    state.memory.semantic.insert("f4".into(), fact("f4", "d", "is", "slow"));
    assert_eq!(ExtendedCommands::insight(&state), "No clear insight.");
    assert_eq!(
        ExtendedCommands::analyze(&state),
        format!("Facts: 4, Episodes: 0, Goals: 2, Events: 0, Hash: {}", state.kernel.state_hash.to_text())
    );
}

#[test]
fn the_full_reducer_steps_the_kernel_and_keeps_the_rest() {
    let reducer = FullStateReducer { kernel_reducer: KernelReducer };
    assert_eq!(reducer.schema_version(), 2);
    let mut state = reducer.initial_state();
    assert_eq!(state, CanonicalState::initial());
    state.memory.semantic.insert("f1".into(), fact("f1", "a", "is", "fast"));
    let g = Event::genesis();
    let next = reducer.apply(&state, &g);
    assert_eq!(next.kernel, KernelReducer.apply(&state.kernel, &g));
    assert_eq!(next.memory, state.memory);
    assert_eq!(next.goals, state.goals);
    assert_eq!(next.world, state.world);
    assert_eq!(next.compute_full_hash(), next.kernel.state_hash);
}

#[test]
fn commands_are_allowed_unless_they_cannot_be_carried_out() {
    let mut s = CommandExecutor::new();
    assert!(s.allows(&Command::Status));
    assert!(s.allows(&Command::Boot));
    assert!(s.allows(&Command::ReasonPattern));
    assert!(s.allows(&Command::Insight));
    s.init();
    assert!(s.allows(&Command::Boot));
    assert!(s.allows(&Command::GoalCreate { description: "x".into() }));
}
