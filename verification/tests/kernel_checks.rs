use sps::kernel_core::canonical_state::CanonicalState;
use sps::kernel_core::constitution_checker::ConstitutionChecker;
use sps::kernel_core::event::{Event, EventPayload};
use sps::kernel_core::event_metadata::EventSource;
use sps::kernel_core::invariant_checker::InvariantChecker;
use sps::kernel_core::reducer::{KernelReducer, Reducer};
use sps::kernel_core::replay_validator::ReplayValidator;
use sps::kernel_core::verification_suite::VerificationSuite;

const EVENT_COUNT: usize = 100_000;

fn custom(tag: &str, data: &[u8]) -> EventPayload {
    EventPayload::Custom { event_type: tag.into(), data: data.to_vec() }
}

/// A log of the genesis event and `n` events made one after the other.
fn chain(n: usize) -> Vec<Event> {
    let g = Event::genesis();
    let mut events = vec![g.clone()];
    let mut prev = g;
    for i in 0..n {
        let e = Event::new_after(&prev, custom("t", &[i as u8]), EventSource::System, None, None);
        events.push(e.clone());
        prev = e;
    }
    events
}

fn live(events: &[Event]) -> CanonicalState {
    let reducer = KernelReducer;
    let mut state = reducer.initial_state();
    for e in events {
        state = reducer.apply(&state, e);
    }
    state
}

#[test]
fn replay_100k_events_is_perfect() {
    let reducer = KernelReducer;
    let g = Event::genesis();
    let mut events: Vec<Event> = Vec::with_capacity(EVENT_COUNT + 1);
    events.push(g.clone());
    let mut prev = g;
    for i in 0..EVENT_COUNT {
        let e = Event::new_after(
            &prev,
            EventPayload::Custom { event_type: "stress".into(), data: i.to_le_bytes().to_vec() },
            EventSource::System,
            None,
            None,
        );
        events.push(e.clone());
        prev = e;
    }
    let mut live_state = reducer.initial_state();
    for e in &events {
        live_state = reducer.apply(&live_state, e);
    }
    let replay_result = ReplayValidator::validate(&reducer, &events, &live_state);
    assert!(replay_result.passed, "Replay failed: {}", replay_result.diagnostic);
    assert_eq!(live_state.event_count, events.len() as u64);
}

#[test]
fn replay_of_a_short_log_matches_the_live_state() {
    let events = chain(3);
    let state = live(&events);
    let r = ReplayValidator::validate(&KernelReducer, &events, &state);
    assert!(r.passed);
    assert_eq!(r.events_replayed, 4);
    assert_eq!(r.diagnostic, "Replay successful: 4 events replayed.");
    assert_eq!(r.divergence_at, None);
    let r2 = ReplayValidator::validate_live_vs_replay(&KernelReducer, &events);
    assert_eq!(r, r2);
}

#[test]
fn replay_reports_a_diverging_state() {
    let events = chain(2);
    let state = live(&events[..2]);
    let r = ReplayValidator::validate(&KernelReducer, &events, &state);
    assert!(!r.passed);
    assert_eq!(
        r.diagnostic,
        format!(
            "Replay FAILED: replayed hash {} != expected hash {}.",
            live(&events).state_hash.to_text(),
            state.state_hash.to_text()
        )
    );
}

#[test]
fn replay_of_no_events() {
    let empty = CanonicalState::initial();
    let r = ReplayValidator::validate(&KernelReducer, &[], &empty);
    assert!(r.passed);
    assert_eq!(r.diagnostic, "No events and state is empty — consistent.");
    let busy = live(&chain(1));
    let r = ReplayValidator::validate(&KernelReducer, &[], &busy);
    assert!(!r.passed);
    assert_eq!(r.diagnostic, "No events provided but expected state is not empty.");
}

#[test]
fn chain_integrity_finds_a_broken_link() {
    let events = chain(3);
    let ok = ReplayValidator::verify_chain_integrity(&events);
    assert!(ok.passed);
    assert_eq!(ok.events_checked, 4);
    let skipped = vec![events[0].clone(), events[2].clone()];
    let broken = ReplayValidator::verify_chain_integrity(&skipped);
    assert!(!broken.passed);
    assert_eq!(broken.failures.len(), 1);
    assert_eq!(broken.failures[0].index, 1);
}

#[test]
fn invariants_hold_for_a_kernel_log() {
    let events = chain(3);
    let state = live(&events);
    let report = InvariantChecker::check_all(&state, &events, &KernelReducer);
    assert!(report.all_passed, "{:?}", report.failures);
    assert_eq!(report.invariants_checked, 7);
}

#[test]
fn invariants_report_a_broken_link() {
    let events = chain(3);
    let skipped = vec![events[0].clone(), events[2].clone()];
    let state = live(&skipped);
    let report = InvariantChecker::check_all(&state, &skipped, &KernelReducer);
    assert!(!report.all_passed);
    assert!(report.failures.iter().any(|f| f.invariant_name == "I6"));
}

#[test]
fn a_kernel_log_is_constitutional_and_verifies() {
    let events = chain(2);
    let state = live(&events);
    let audit = ConstitutionChecker::audit(&state, &events, &KernelReducer);
    assert!(audit.compliant, "{:?}", audit.violations);
    let report = VerificationSuite::verify(&KernelReducer, &events, &state);
    assert!(report.passed);
    assert_eq!(report.summary, "All verification steps passed.");
}

#[test]
fn verification_names_the_failed_steps() {
    let events = chain(2);
    let state = live(&events[..2]);
    let report = VerificationSuite::verify(&KernelReducer, &events, &state);
    assert!(!report.passed);
    assert!(report.summary.starts_with("FAILED: Replay"));
}

#[test]
fn state_hash_follows_the_events() {
    let events = chain(1);
    let state = live(&events);
    assert!(state.verify_hash());
    assert_eq!(state.event_count, 2);
    assert_eq!(state.latest_hash, events[1].event_hash);
    assert_eq!(state.genesis_hash, events[0].event_hash);
    assert!(CanonicalState::initial().is_empty());
    assert!(!state.is_empty());
}
