use crate::autonomy::autonomy_manager::AutonomyManager;
use crate::canonical_state::goal_state::{Goal, GoalStatus};
use crate::canonical_state::memory_state::SemanticFact;
use crate::canonical_state::world_state::{entity_type_text, Entity};
use crate::canonical_state::CanonicalState;
use crate::cli::commands::{is_executor_log, records_next, CommandExecutor};
use crate::goal_system::goal::{goal_creation_text, GoalManager};
use crate::goal_system::goal_evaluator::str_eq;
use crate::goal_system::goal_registry::GoalRegistry;
use crate::governance::authority_resolver::{required_authority, AuthorityResolver};
use crate::governance::governance_policy::{
    authority_text, default_policy, rule_text, DecisionClass, DelegationRule, GovernancePolicy,
};
use crate::inductive::pattern_detector::{detected_pattern, pattern_defined, PatternDetector};
use crate::kernel_core::canonical_state::KernelStateView;
use crate::kernel_core::constitution_checker::{
    audit_violations, hash_violations, hash_violations_at, schema_violations, structure_violations,
    structure_violations_at, ViolationView,
};
use crate::kernel_core::event::{hash_consistent, payload_encoding, Event, EventPayload};
use crate::kernel_core::event_id::event_id_text;
use crate::kernel_core::invariant_checker::{
    first_time_violation, invariant_failures, lemma_first_time_violation, time_order_broken_at,
    InvariantChecker, InvariantFailure,
};
use crate::kernel_core::reducer::{replay, replayable, KernelReducer, Reducer};
use crate::kernel_core::replay_validator::{
    chain_failures, first_link_failures, link_failures, replay_diagnostic, ReplayValidator,
};
use crate::kernel_core::verification_suite::{verification_summary, VerificationSuite};
use crate::proposal::{custom_payload, is_custom_payload, join_with};
use crate::text::{append_decimal, decimal, hex};
use vstd::prelude::*;

verus! {

/// The answer to a command that needs a running session.
pub open spec fn boot_first() -> Seq<char> {
    "Boot first."@
}

/// The id of the goal created at `tick`.
pub open spec fn goal_id_at(tick: u64) -> Seq<char> {
    "goal."@ + decimal((tick + 1) as nat)
}

/// The decision class a command names: `minor`, `major` or `critical`.
pub open spec fn decision_named(name: Seq<char>) -> Option<DecisionClass> {
    if name == "minor"@ {
        Some(DecisionClass::Minor)
    } else if name == "major"@ {
        Some(DecisionClass::Major)
    } else if name == "critical"@ {
        Some(DecisionClass::Critical)
    } else {
        None
    }
}

/// What the governance check answers for `name`, if anything.
pub open spec fn governance_answer(name: Seq<char>) -> Option<Seq<char>> {
    match decision_named(name) {
        None => Some("Invalid class."@),
        Some(d) => match required_authority(d, default_policy()) {
            Some(a) => Some("Decision '"@ + name + "' requires "@ + authority_text(a)),
            None => None,
        },
    }
}

/// The kernel state the checks replay from a log.
pub open spec fn replayed(log: Seq<Event>) -> KernelStateView {
    replay(KernelReducer, log)
}

/// What the replay check answers for a non-empty log against `state`.
pub open spec fn replay_answer(log: Seq<Event>, state: KernelStateView) -> Seq<char> {
    if replayed(log).state_hash == state.state_hash {
        "✅ Replay verification PASSED."@
    } else {
        "❌ Replay FAILED: "@ + replay_diagnostic(log.len(), replayed(log).state_hash, state.state_hash)
    }
}

/// The lines listing invariant failures, one per failure.
pub open spec fn failure_lines(failures: Seq<(Seq<char>, Seq<char>)>) -> Seq<Seq<char>> {
    failures.map_values(|f: (Seq<char>, Seq<char>)| "  - "@ + f.0 + ": "@ + f.1)
}

/// What the invariant check answers for a non-empty log against `state`.
pub open spec fn invariant_answer(log: Seq<Event>, state: KernelStateView) -> Seq<Seq<char>> {
    let failures = invariant_failures(state, log);
    if failures.len() == 0 {
        seq!["✅ All invariants passed."@]
    } else {
        seq!["❌ Invariant violations:"@] + failure_lines(failures)
    }
}

/// What the full verification answers for a non-empty log against `state`.
pub open spec fn verification_answer(log: Seq<Event>, state: KernelStateView) -> Seq<char> {
    let replay_ok = replayed(log).state_hash == state.state_hash;
    let invariants_ok = invariant_failures(state, log).len() == 0;
    let constitution_ok = audit_violations(state, log, replayed(log)).len() == 0;
    if replay_ok && invariants_ok && constitution_ok {
        "✅ Full verification PASSED."@
    } else {
        "❌ Verification FAILED: "@ + verification_summary(replay_ok, invariants_ok, constitution_ok)
    }
}

/// The text of a proposal decision: the proposal's id and who decided.
pub open spec fn decision_text(proposal_id: Seq<char>, verdict: Seq<char>) -> Seq<char> {
    proposal_id + "|"@ + verdict + " by user"@
}

/// The line listing an active goal.
pub open spec fn goal_line(g: Goal) -> Seq<char> {
    "  "@ + g.goal_id@ + " [priority="@ + decimal(g.priority as nat) + "] — "@ + g.description@
}

/// The active goals of a state, in the order of their ids.
pub open spec fn active_goals_of(state: CanonicalState) -> Seq<Goal> {
    state.goals.active_goals.values_in_order().filter(|g: Goal| g.status == GoalStatus::Active)
}

/// What the goal listing answers for the active goals.
pub open spec fn goal_list_answer(goals: Seq<Goal>) -> Seq<Seq<char>> {
    if goals.len() == 0 {
        seq!["No active goals."@]
    } else {
        seq!["Active goals:"@] + goals.map_values(|g: Goal| goal_line(g))
    }
}

/// The line listing an entity.
pub open spec fn entity_line(e: Entity) -> Seq<char> {
    "  "@ + e.id.0@ + " — "@ + entity_type_text(e.entity_type)
}

/// What the entity listing answers for the entities, in the order of their ids.
pub open spec fn entity_list_answer(entities: Seq<Entity>) -> Seq<Seq<char>> {
    if entities.len() == 0 {
        seq!["No entities."@]
    } else {
        seq!["Entities ("@ + decimal(entities.len()) + "):"@] + entities.map_values(|e: Entity| entity_line(e))
    }
}

/// A remembered fact as one sentence: subject, predicate and object.
pub open spec fn fact_sentence(f: SemanticFact) -> Seq<char> {
    f.subject@ + " "@ + f.predicate@ + " "@ + f.object@
}

/// The remembered facts of a state as sentences, in the order of their ids.
pub open spec fn fact_sentences(state: CanonicalState) -> Seq<Seq<char>> {
    state.memory.semantic.values_in_order().map_values(|f: SemanticFact| fact_sentence(f))
}

/// What the pattern search answers for the facts.
pub open spec fn pattern_answer(facts: Seq<Seq<char>>) -> Seq<char> {
    match detected_pattern(facts) {
        Some(p) => "Pattern: "@ + p,
        None => "No pattern detected."@,
    }
}

/// What the insight search answers for the facts.
pub open spec fn insight_answer(facts: Seq<Seq<char>>) -> Seq<char> {
    if facts.len() < 3 {
        "Need ≥3 facts."@
    } else {
        match detected_pattern(facts) {
            Some(p) => "Insight: "@ + p,
            None => "No clear insight."@,
        }
    }
}

/// The remembered facts of `state` as sentences.
pub(crate) fn collect_fact_sentences(state: &CanonicalState) -> (r: Vec<String>)
    ensures
        r@.map_values(|s: String| s@) == fact_sentences(*state),
{
    let facts = state.memory.semantic.values();
    let ghost all = state.memory.semantic.values_in_order();
    let mut r: Vec<String> = Vec::new();
    let mut i: usize = 0;
    while i < facts.len()
        invariant
            i <= facts@.len(),
            facts@.len() == all.len(),
            forall|j: int| 0 <= j < facts@.len() ==> *facts@[j] == all[j],
            r@.map_values(|s: String| s@) == all.take(i as int).map_values(|f: SemanticFact| fact_sentence(f)),
        decreases facts@.len() - i,
    {
        let f = facts[i];
        let mut line = f.subject.clone();
        line.append(" ");
        line.append(f.predicate.as_str());
        line.append(" ");
        line.append(f.object.as_str());
        let ghost before = r@;
        let ghost lv = line@;
        r.push(line);
        proof {
            assert(all.take(i + 1) =~= all.take(i as int).push(all[i as int]));
            assert(r@.map_values(|s: String| s@) =~= before.map_values(|s: String| s@).push(lv));
        }
        i = i + 1;
    }
    proof {
        assert(all.take(all.len() as int) =~= all);
    }
    r
}

/// What a command that records an event does: before the session runs it
/// refuses and changes nothing; else it records one event whose payload is
/// `payload_ok` and answers `done`.
pub open spec fn recorded_or_refused(
    before: CommandExecutor,
    after: CommandExecutor,
    payload_ok: bool,
    answer: Seq<char>,
    done: Seq<char>,
) -> bool {
    if !before.running() {
        answer == boot_first() && after == before
    } else {
        records_next(before, after) && payload_ok && answer == done
    }
}

/// What `goal_create` does with the description `desc`, answering `answer`.
pub open spec fn goal_created(before: CommandExecutor, after: CommandExecutor, desc: Seq<char>, answer: Seq<char>) -> bool {
    recorded_or_refused(
        before,
        after,
        is_custom_payload(
            after.last().unwrap().payload,
            "GoalCreated"@,
            goal_creation_text(goal_id_at(before.ticks()), desc, 5, seq!["UserBenefit"@], None),
        ),
        answer,
        "Goal created: "@ + goal_id_at(before.ticks()) + " — '"@ + desc + "'"@,
    )
}

/// What `autonomy_grant` does for `agent` and `domain`, answering `answer`.
pub open spec fn autonomy_granted(
    before: CommandExecutor,
    after: CommandExecutor,
    agent: Seq<char>,
    domain: Seq<char>,
    answer: Seq<char>,
) -> bool {
    recorded_or_refused(
        before,
        after,
        is_custom_payload(after.last().unwrap().payload, "AutonomyGranted"@, agent + "|"@ + domain),
        answer,
        "Autonomy granted to "@ + agent + " in domain "@ + domain,
    )
}

/// What `governance_policy` does, answering `answer`.
pub open spec fn policy_set(before: CommandExecutor, after: CommandExecutor, answer: Seq<char>) -> bool {
    recorded_or_refused(
        before,
        after,
        is_custom_payload(
            after.last().unwrap().payload,
            "GovernancePolicySet"@,
            join_with(default_policy().map_values(|x: DelegationRule| rule_text(x)), ";"@),
        ),
        answer,
        "Governance policy set."@,
    )
}

/// What `approve_proposal` does for the proposal `id`, answering `answer`.
pub open spec fn proposal_approved(before: CommandExecutor, after: CommandExecutor, id: Seq<char>, answer: Seq<char>) -> bool {
    recorded_or_refused(
        before,
        after,
        is_custom_payload(after.last().unwrap().payload, "ProposalApproved"@, decision_text(id, "approved"@)),
        answer,
        "Proposal '"@ + id + "' approved and deployed."@,
    )
}

/// What `deny_proposal` does for the proposal `id`, answering `answer`.
pub open spec fn proposal_denied(before: CommandExecutor, after: CommandExecutor, id: Seq<char>, answer: Seq<char>) -> bool {
    recorded_or_refused(
        before,
        after,
        is_custom_payload(after.last().unwrap().payload, "ProposalDenied"@, decision_text(id, "denied"@)),
        answer,
        "Proposal '"@ + id + "' denied."@,
    )
}

/// What `replay_verify` answers for a session: for a session with events, what
/// the replay of its log shows (every log it hands out shows the same).
pub open spec fn replay_answered(executor: CommandExecutor, answer: Seq<char>) -> bool {
    if !executor.running() {
        answer == boot_first()
    } else if executor.kernel().event_count == 0 {
        answer == "No events to replay."@
    } else {
        &&& exists|log: Seq<Event>| is_executor_log(executor, log)
        &&& forall|log: Seq<Event>| is_executor_log(executor, log) ==> answer == replay_answer(log, executor.kernel()@)
    }
}

/// What `invariant_check` answers for a session, line by line (every log the
/// session hands out shows the same).
pub open spec fn invariants_answered(executor: CommandExecutor, lines: Seq<Seq<char>>) -> bool {
    if !executor.running() {
        lines == seq![boot_first()]
    } else if executor.kernel().event_count == 0 {
        lines == seq!["No events to check."@]
    } else {
        &&& exists|log: Seq<Event>| is_executor_log(executor, log)
        &&& forall|log: Seq<Event>| is_executor_log(executor, log) ==> lines == invariant_answer(log, executor.kernel()@)
    }
}

/// What `full_verification` answers for a session (every log the session hands
/// out shows the same).
pub open spec fn verification_answered(executor: CommandExecutor, answer: Seq<char>) -> bool {
    if !executor.running() {
        answer == boot_first()
    } else if executor.kernel().event_count == 0 {
        answer == "No events to verify."@
    } else {
        &&& exists|log: Seq<Event>| is_executor_log(executor, log)
        &&& forall|log: Seq<Event>| is_executor_log(executor, log) ==> answer == verification_answer(log, executor.kernel()@)
    }
}

/// Whether two events agree on everything the checks read: id, time, the
/// hash links, the payload's encoding and the schema and time of the metadata.
pub open spec fn same_record(a: Event, b: Event) -> bool {
    &&& a.id == b.id
    &&& a.logical_time == b.logical_time
    &&& a.parent_hash@ == b.parent_hash@
    &&& a.event_hash@ == b.event_hash@
    &&& payload_encoding(a.payload) == payload_encoding(b.payload)
    &&& a.metadata.schema_version == b.metadata.schema_version
    &&& a.metadata.logical_time_epoch == b.metadata.logical_time_epoch
    &&& a.metadata.logical_time_tick == b.metadata.logical_time_tick
    &&& a.metadata.logical_time_seq == b.metadata.logical_time_seq
}

/// Any two logs a session hands to the checks agree event by event.
proof fn lemma_session_logs_agree(s: CommandExecutor, l1: Seq<Event>, l2: Seq<Event>)
    requires
        is_executor_log(s, l1),
        is_executor_log(s, l2),
    ensures
        logs_agree(l1, l2),
        l1.len() <= 2,
{
    if l1.len() > 0 {
        assert(same_record(l1[0], l2[0]));
    }
}

/// Whether two logs agree event by event.
pub open spec fn logs_agree(l1: Seq<Event>, l2: Seq<Event>) -> bool {
    l1.len() == l2.len() && forall|i: int| 0 <= i < l1.len() ==> same_record(#[trigger] l1[i], l2[i])
}

/// Agreeing logs show the same violations and failures at each position.
proof fn lemma_agreeing_positions(l1: Seq<Event>, l2: Seq<Event>, i: int)
    requires
        logs_agree(l1, l2),
        0 <= i < l1.len(),
    ensures
        structure_violations_at(l1, i) == structure_violations_at(l2, i),
        hash_violations_at(l1, i) == hash_violations_at(l2, i),
        i == 0 ==> first_link_failures(l1[0]) == first_link_failures(l2[0]),
        i > 0 ==> link_failures(l1, i) == link_failures(l2, i),
        time_order_broken_at(l1, i) == time_order_broken_at(l2, i),
{
    assert(same_record(l1[i], l2[i]));
    assert(hash_consistent(l1[i]) == hash_consistent(l2[i]));
    if i > 0 {
        assert(same_record(l1[i - 1], l2[i - 1]));
    }
}

/// Agreeing logs of at most two events replay to the same state, show the same
/// invariant failures and break the same constitutional rules.
proof fn lemma_agreeing_logs_check_alike(state: KernelStateView, l1: Seq<Event>, l2: Seq<Event>)
    requires
        logs_agree(l1, l2),
        l1.len() <= 2,
    ensures
        replayed(l1) == replayed(l2),
        invariant_failures(state, l1) == invariant_failures(state, l2),
        audit_violations(state, l1, replayed(l1)) == audit_violations(state, l2, replayed(l2)),
{
    let n = l1.len();
    assert(structure_violations(l1, 0) == Seq::<ViolationView>::empty());
    assert(structure_violations(l2, 0) == Seq::<ViolationView>::empty());
    assert(hash_violations(l1, 0) == Seq::<ViolationView>::empty());
    assert(hash_violations(l2, 0) == Seq::<ViolationView>::empty());
    assert(schema_violations(l1, 0) == Seq::<ViolationView>::empty());
    assert(schema_violations(l2, 0) == Seq::<ViolationView>::empty());
    assert(schema_violations(l1, 1) == Seq::<ViolationView>::empty());
    assert(schema_violations(l2, 1) == Seq::<ViolationView>::empty());
    assert(chain_failures(l1, 0) == Seq::<(u64, Seq<char>)>::empty());
    assert(chain_failures(l2, 0) == Seq::<(u64, Seq<char>)>::empty());
    assert forall|i: int| #[trigger] time_order_broken_at(l1, i) == time_order_broken_at(l2, i) by {
        if 0 <= i < n {
            lemma_agreeing_positions(l1, l2, i);
        }
    }
    if n == 2 && time_order_broken_at(l1, 1) {
        lemma_first_time_violation(l1, 1);
        lemma_first_time_violation(l2, 1);
    }
    assert(first_time_violation(l1) == first_time_violation(l2));
    if n == 0 {
        assert(l1 =~= l2);
    } else {
        lemma_agreeing_positions(l1, l2, 0);
        assert(same_record(l1[0], l2[0]));
        assert(structure_violations(l1, 1) == structure_violations(l2, 1));
        assert(hash_violations(l1, 1) == hash_violations(l2, 1));
        assert(chain_failures(l1, 1) == chain_failures(l2, 1));
        assert(l1.take(0) =~= Seq::<Event>::empty());
        if n == 1 {
            assert(l1.drop_last() =~= Seq::<Event>::empty());
            assert(l2.drop_last() =~= Seq::<Event>::empty());
            assert(replayed(l1) == replayed(l2));
        } else {
            lemma_agreeing_positions(l1, l2, 1);
            assert(same_record(l1[1], l2[1]));
            assert(l1.drop_last() =~= seq![l1[0]]);
            assert(l2.drop_last() =~= seq![l2[0]]);
            assert(seq![l1[0]].drop_last() =~= Seq::<Event>::empty());
            assert(seq![l2[0]].drop_last() =~= Seq::<Event>::empty());
            assert(replayed(seq![l1[0]]) == replayed(seq![l2[0]]));
            assert(replayed(l1) == replayed(l2));
            assert(structure_violations(l1, 2) == structure_violations(l2, 2));
            assert(hash_violations(l1, 2) == hash_violations(l2, 2));
            assert(schema_violations(l1, 2) == schema_violations(l2, 2));
            assert(chain_failures(l1, 2) == chain_failures(l2, 2));
        }
    }
}

/// A log of at most two events can be replayed by the kernel reducer.
proof fn lemma_short_log_replayable(log: Seq<Event>)
    requires
        log.len() <= 2,
    ensures
        replayable(KernelReducer, log),
{
    assert forall|i: int| 0 <= i < log.len() implies KernelReducer.step_allowed(
        #[trigger] replay(KernelReducer, log.take(i)),
        log[i],
    ) by {
        assert(log.take(0) =~= Seq::<Event>::empty());
        assert(replay(KernelReducer, log.take(0)).event_count == 0);
        if i == 1 {
            assert(log.take(1).drop_last() =~= log.take(0));
            assert(replay(KernelReducer, log.take(1)).event_count == 1);
        }
    }
}

/// The commands of the command line that act on a session.
pub struct ExtendedCommands;

impl ExtendedCommands {
    /// Creates a goal `goal.<tick + 1>` with the description, priority 5 and the
    /// supporting value `UserBenefit`.
    pub fn goal_create(executor: &mut CommandExecutor, desc: &str) -> (r: String)
        requires
            old(executor).running() ==> old(executor).has_room(),
        ensures
            goal_created(*old(executor), *final(executor), desc@, r@),
    {
        if !executor.is_running() {
            return String::from_str("Boot first.");
        }
        let mut goal_id = String::from_str("goal.");
        append_decimal(&mut goal_id, executor.tick() + 1);
        let mut values: Vec<String> = Vec::new();
        values.push(String::from_str("UserBenefit"));
        proof {
            assert(values@.map_values(|v: String| v@) =~= seq!["UserBenefit"@]);
        }
        let payload = GoalManager::propose_create(goal_id.clone(), String::from_str(desc), 5, values, None);
        executor.apply_event(payload);
        let mut r = String::from_str("Goal created: ");
        r.append(goal_id.as_str());
        r.append(" — '");
        r.append(desc);
        r.append("'");
        r
    }

    /// Grants an agent autonomy in a domain.
    pub fn autonomy_grant(executor: &mut CommandExecutor, agent: &str, domain: &str) -> (r: String)
        requires
            old(executor).running() ==> old(executor).has_room(),
        ensures
            autonomy_granted(*old(executor), *final(executor), agent@, domain@, r@),
    {
        if !executor.is_running() {
            return String::from_str("Boot first.");
        }
        executor.apply_event(AutonomyManager::propose_grant(String::from_str(agent), String::from_str(domain)));
        let mut r = String::from_str("Autonomy granted to ");
        r.append(agent);
        r.append(" in domain ");
        r.append(domain);
        r
    }

    /// Sets the default governance policy.
    pub fn governance_policy(executor: &mut CommandExecutor) -> (r: String)
        requires
            old(executor).running() ==> old(executor).has_room(),
        ensures
            policy_set(*old(executor), *final(executor), r@),
    {
        if !executor.is_running() {
            return String::from_str("Boot first.");
        }
        let rules = GovernancePolicy::default_rules();
        executor.apply_event(GovernancePolicy::propose_set_policy(rules.as_slice()));
        String::from_str("Governance policy set.")
    }

    /// The authority the default policy requires for the named decision class.
    pub fn governance_check(decision: &str) -> (r: Option<String>)
        ensures
            match governance_answer(decision@) {
                Some(t) => r is Some && r.unwrap()@ == t,
                None => r is None,
            },
    {
        let dc = if str_eq(decision, "minor") {
            DecisionClass::Minor
        } else if str_eq(decision, "major") {
            DecisionClass::Major
        } else if str_eq(decision, "critical") {
            DecisionClass::Critical
        } else {
            return Some(String::from_str("Invalid class."));
        };
        let rules = GovernancePolicy::default_rules();
        match AuthorityResolver::resolve(&dc, rules.as_slice()) {
            Some(auth) => {
                let mut r = String::from_str("Decision '");
                r.append(decision);
                r.append("' requires ");
                let a = auth.to_text();
                r.append(a.as_str());
                Some(r)
            },
            None => None,
        }
    }

    /// Replays the executor's log and compares the result with its state.
    pub fn replay_verify(executor: &CommandExecutor) -> (r: String)
        ensures
            replay_answered(*executor, r@),
    {
        if !executor.is_running() {
            return String::from_str("Boot first.");
        }
        let events = executor.event_log();
        if events.len() == 0 {
            return String::from_str("No events to replay.");
        }
        proof {
            lemma_short_log_replayable(events@);
        }
        let result = ReplayValidator::validate(&KernelReducer, events.as_slice(), &executor.state().kernel);
        proof {
            assert forall|log: Seq<Event>| is_executor_log(*executor, log) implies replayed(log) == replayed(
                events@,
            ) by {
                lemma_session_logs_agree(*executor, log, events@);
                lemma_agreeing_logs_check_alike(executor.kernel()@, log, events@);
            }
        }
        if result.passed {
            String::from_str("✅ Replay verification PASSED.")
        } else {
            let mut r = String::from_str("❌ Replay FAILED: ");
            r.append(result.diagnostic.as_str());
            r
        }
    }

    /// Checks the kernel invariants on the executor's state and log.
    pub fn invariant_check(executor: &CommandExecutor) -> (r: Vec<String>)
        ensures
            invariants_answered(*executor, r@.map_values(|s: String| s@)),
    {
        let mut lines: Vec<String> = Vec::new();
        if !executor.is_running() {
            lines.push(String::from_str("Boot first."));
            proof {
                assert(lines@.map_values(|s: String| s@) =~= seq![boot_first()]);
            }
            return lines;
        }
        let events = executor.event_log();
        if events.len() == 0 {
            lines.push(String::from_str("No events to check."));
            proof {
                assert(lines@.map_values(|s: String| s@) =~= seq!["No events to check."@]);
            }
            return lines;
        }
        proof {
            lemma_short_log_replayable(events@);
        }
        let report = InvariantChecker::check_all(&executor.state().kernel, events.as_slice(), &KernelReducer);
        proof {
            assert forall|log: Seq<Event>| is_executor_log(*executor, log) implies invariant_failures(
                executor.kernel()@,
                log,
            ) == invariant_failures(executor.kernel()@, events@) by {
                lemma_session_logs_agree(*executor, log, events@);
                lemma_agreeing_logs_check_alike(executor.kernel()@, log, events@);
            }
        }
        let ghost failures = invariant_failures(executor.kernel()@, events@);
        if report.all_passed {
            lines.push(String::from_str("✅ All invariants passed."));
            proof {
                assert(lines@.map_values(|s: String| s@) =~= seq!["✅ All invariants passed."@]);
            }
            return lines;
        }
        lines.push(String::from_str("❌ Invariant violations:"));
        let mut i: usize = 0;
        while i < report.failures.len()
            invariant
                i <= report.failures@.len(),
                report.failures@.map_values(|f: InvariantFailure| f@) == failures,
                lines@.map_values(|s: String| s@) == seq!["❌ Invariant violations:"@] + failure_lines(
                    failures.take(i as int),
                ),
            decreases report.failures@.len() - i,
        {
            let f = &report.failures[i];
            let mut line = String::from_str("  - ");
            line.append(f.invariant_name);
            line.append(": ");
            line.append(f.description.as_str());
            let ghost before = lines@;
            lines.push(line);
            proof {
                assert(failures[i as int] == report.failures@[i as int]@);
                assert(failures.take(i + 1) =~= failures.take(i as int).push(failures[i as int]));
                assert(failure_lines(failures.take(i + 1)) =~= failure_lines(failures.take(i as int)).push(
                    line@,
                ));
                assert(lines@.map_values(|s: String| s@) =~= before.map_values(|s: String| s@).push(line@));
                assert(lines@.map_values(|s: String| s@) =~= seq!["❌ Invariant violations:"@]
                    + failure_lines(failures.take(i + 1)));
            }
            i = i + 1;
        }
        proof {
            assert(failures.take(i as int) =~= failures);
        }
        lines
    }

    /// Runs the full verification suite on the executor's state and log.
    pub fn full_verification(executor: &CommandExecutor) -> (r: String)
        ensures
            verification_answered(*executor, r@),
    {
        if !executor.is_running() {
            return String::from_str("Boot first.");
        }
        let events = executor.event_log();
        if events.len() == 0 {
            return String::from_str("No events to verify.");
        }
        proof {
            lemma_short_log_replayable(events@);
        }
        let report = VerificationSuite::verify(&KernelReducer, events.as_slice(), &executor.state().kernel);
        proof {
            assert forall|log: Seq<Event>| is_executor_log(*executor, log) implies verification_answer(
                log,
                executor.kernel()@,
            ) == verification_answer(events@, executor.kernel()@) by {
                lemma_session_logs_agree(*executor, log, events@);
                lemma_agreeing_logs_check_alike(executor.kernel()@, log, events@);
            }
        }
        if report.passed {
            String::from_str("✅ Full verification PASSED.")
        } else {
            let mut r = String::from_str("❌ Verification FAILED: ");
            r.append(report.summary.as_str());
            r
        }
    }

    /// Records that the user approved a proposal.
    pub fn approve_proposal(executor: &mut CommandExecutor, proposal_id: &str) -> (r: String)
        requires
            old(executor).running() ==> old(executor).has_room(),
        ensures
            proposal_approved(*old(executor), *final(executor), proposal_id@, r@),
    {
        if !executor.is_running() {
            return String::from_str("Boot first.");
        }
        let mut text = String::from_str(proposal_id);
        text.append("|approved by user");
        proof {
            assert(text@ =~= decision_text(proposal_id@, "approved"@)) by {
                reveal_strlit("|approved by user");
                reveal_strlit("|");
                reveal_strlit("approved");
                reveal_strlit(" by user");
            }
        }
        executor.apply_event(custom_payload("ProposalApproved", &text));
        let mut r = String::from_str("Proposal '");
        r.append(proposal_id);
        r.append("' approved and deployed.");
        r
    }

    /// Records that the user denied a proposal.
    pub fn deny_proposal(executor: &mut CommandExecutor, proposal_id: &str) -> (r: String)
        requires
            old(executor).running() ==> old(executor).has_room(),
        ensures
            proposal_denied(*old(executor), *final(executor), proposal_id@, r@),
    {
        if !executor.is_running() {
            return String::from_str("Boot first.");
        }
        let mut text = String::from_str(proposal_id);
        text.append("|denied by user");
        proof {
            assert(text@ =~= decision_text(proposal_id@, "denied"@)) by {
                reveal_strlit("|denied by user");
                reveal_strlit("|");
                reveal_strlit("denied");
                reveal_strlit(" by user");
            }
        }
        executor.apply_event(custom_payload("ProposalDenied", &text));
        let mut r = String::from_str("Proposal '");
        r.append(proposal_id);
        r.append("' denied.");
        r
    }

    /// The active goals, one line each.
    pub fn goal_list(state: &CanonicalState) -> (r: Vec<String>)
        ensures
            r@.map_values(|s: String| s@) == goal_list_answer(active_goals_of(*state)),
    {
        let goals = GoalRegistry::active(&state.goals);
        let ghost gs = goals@.map_values(|g: &Goal| *g);
        let mut lines: Vec<String> = Vec::new();
        if goals.len() == 0 {
            lines.push(String::from_str("No active goals."));
            proof {
                assert(lines@.map_values(|s: String| s@) =~= seq!["No active goals."@]);
            }
            return lines;
        }
        lines.push(String::from_str("Active goals:"));
        let mut i: usize = 0;
        proof {
            assert(gs.take(0) =~= Seq::<Goal>::empty());
            assert(lines@.map_values(|s: String| s@) =~= seq!["Active goals:"@] + gs.take(0).map_values(
                |g: Goal| goal_line(g),
            ));
        }
        while i < goals.len()
            invariant
                i <= goals@.len(),
                gs == goals@.map_values(|g: &Goal| *g),
                lines@.map_values(|s: String| s@) == seq!["Active goals:"@] + gs.take(i as int).map_values(
                    |g: Goal| goal_line(g),
                ),
            decreases goals@.len() - i,
        {
            let g = goals[i];
            let mut line = String::from_str("  ");
            line.append(g.goal_id.as_str());
            line.append(" [priority=");
            append_decimal(&mut line, g.priority);
            line.append("] — ");
            line.append(g.description.as_str());
            let ghost before = lines@;
            let ghost lv = line@;
            lines.push(line);
            proof {
                assert(gs[i as int] == *g);
                assert(gs.take(i + 1) =~= gs.take(i as int).push(gs[i as int]));
                assert(lines@.map_values(|s: String| s@) =~= before.map_values(|s: String| s@).push(lv));
                assert(lines@.map_values(|s: String| s@) =~= seq!["Active goals:"@] + gs.take(i + 1).map_values(
                    |g: Goal| goal_line(g),
                ));
            }
            i = i + 1;
        }
        proof {
            assert(gs.take(gs.len() as int) =~= gs);
        }
        lines
    }

    /// The entities of the world model, one line each.
    pub fn world_entities(state: &CanonicalState) -> (r: Vec<String>)
        ensures
            r@.map_values(|s: String| s@) == entity_list_answer(state.world.entities.values_in_order()),
    {
        let entities = state.world.entities.values();
        let ghost es = state.world.entities.values_in_order();
        let mut lines: Vec<String> = Vec::new();
        if entities.len() == 0 {
            lines.push(String::from_str("No entities."));
            proof {
                assert(lines@.map_values(|s: String| s@) =~= seq!["No entities."@]);
            }
            return lines;
        }
        let mut header = String::from_str("Entities (");
        append_decimal(&mut header, entities.len() as u64);
        header.append("):");
        let ghost head = header@;
        lines.push(header);
        let mut i: usize = 0;
        proof {
            assert(es.take(0) =~= Seq::<Entity>::empty());
            assert(lines@.map_values(|s: String| s@) =~= seq![head] + es.take(0).map_values(
                |e: Entity| entity_line(e),
            ));
        }
        while i < entities.len()
            invariant
                i <= entities@.len(),
                entities@.len() == es.len(),
                forall|j: int| 0 <= j < entities@.len() ==> *entities@[j] == es[j],
                lines@.map_values(|s: String| s@) == seq![head] + es.take(i as int).map_values(
                    |e: Entity| entity_line(e),
                ),
            decreases entities@.len() - i,
        {
            let e = entities[i];
            let mut line = String::from_str("  ");
            line.append(e.id.0.as_str());
            line.append(" — ");
            let t = e.entity_type.to_text();
            line.append(t.as_str());
            let ghost before = lines@;
            let ghost lv = line@;
            lines.push(line);
            proof {
                assert(es.take(i + 1) =~= es.take(i as int).push(es[i as int]));
                assert(lines@.map_values(|s: String| s@) =~= before.map_values(|s: String| s@).push(lv));
                assert(lines@.map_values(|s: String| s@) =~= seq![head] + es.take(i + 1).map_values(
                    |e: Entity| entity_line(e),
                ));
            }
            i = i + 1;
        }
        proof {
            assert(es.take(es.len() as int) =~= es);
        }
        lines
    }

    /// The pattern shared by the remembered facts, if any.
    pub fn reason_pattern(state: &CanonicalState) -> (r: String)
        requires
            pattern_defined(fact_sentences(*state)),
        ensures
            r@ == pattern_answer(fact_sentences(*state)),
    {
        let facts = collect_fact_sentences(state);
        match PatternDetector::detect(facts.as_slice()) {
            Some(p) => {
                let mut r = String::from_str("Pattern: ");
                r.append(p.as_str());
                r
            },
            None => String::from_str("No pattern detected."),
        }
    }

    /// An insight from the remembered facts, once there are at least three.
    pub fn insight(state: &CanonicalState) -> (r: String)
        requires
            fact_sentences(*state).len() >= 3 ==> pattern_defined(fact_sentences(*state)),
        ensures
            r@ == insight_answer(fact_sentences(*state)),
    {
        let facts = collect_fact_sentences(state);
        if facts.len() < 3 {
            return String::from_str("Need ≥3 facts.");
        }
        match PatternDetector::detect(facts.as_slice()) {
            Some(p) => {
                let mut r = String::from_str("Insight: ");
                r.append(p.as_str());
                r
            },
            None => String::from_str("No clear insight."),
        }
    }

    /// The sizes of the memories and goals, the event count and the state hash.
    pub fn analyze(state: &CanonicalState) -> (r: String)
        ensures
            r@ == "Facts: "@ + decimal(state.memory.semantic.keys().len()) + ", Episodes: "@ + decimal(
                state.memory.episodic@.len(),
            ) + ", Goals: "@ + decimal(state.goals.active_goals.keys().len()) + ", Events: "@ + decimal(
                state.kernel.event_count as nat,
            ) + ", Hash: "@ + hex(state.kernel.state_hash@),
    {
        let mut r = String::from_str("Facts: ");
        append_decimal(&mut r, state.memory.semantic.len() as u64);
        r.append(", Episodes: ");
        append_decimal(&mut r, state.memory.episodic.len() as u64);
        r.append(", Goals: ");
        append_decimal(&mut r, state.goals.active_goals.len() as u64);
        r.append(", Events: ");
        append_decimal(&mut r, state.kernel.event_count);
        r.append(", Hash: ");
        let h = state.kernel.state_hash.to_text();
        r.append(h.as_str());
        r
    }

    /// The kernel state's hash.
    pub fn show_hash(state: &CanonicalState) -> (r: String)
        ensures
            r@ == "State hash: "@ + hex(state.kernel.state_hash@),
    {
        let mut r = String::from_str("State hash: ");
        let h = state.kernel.state_hash.to_text();
        r.append(h.as_str());
        r
    }

    /// The number of events and the id of the last one.
    pub fn show_events(state: &CanonicalState) -> (r: String)
        ensures
            r@ == "Events: "@ + decimal(state.kernel.event_count as nat) + ", Last ID: "@ + event_id_text(
                state.kernel.last_event_id,
            ),
    {
        let mut r = String::from_str("Events: ");
        append_decimal(&mut r, state.kernel.event_count);
        r.append(", Last ID: ");
        let id = state.kernel.last_event_id.to_text();
        r.append(id.as_str());
        r
    }
}

} // verus!
