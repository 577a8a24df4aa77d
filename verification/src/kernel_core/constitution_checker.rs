use crate::kernel_core::canonical_state::{CanonicalState, KernelStateView};
use crate::kernel_core::event::{event_follows, hash_consistent, Event};
use crate::kernel_core::event_hash::zero_hash_bytes;
use crate::kernel_core::event_id::event_id_text;
use crate::kernel_core::reducer::{replay, replay_all, replayable, Reducer};
use vstd::prelude::*;

verus! {

/// How serious a constitutional violation is.
#[derive(Debug, Clone, Copy, PartialEq, Eq, Structural)]
pub enum ViolationSeverity {
    Advisory,
    Major,
    Catastrophic,
}

/// The outcome of a constitutional audit.
#[derive(Debug, Clone, PartialEq, Eq)]
pub struct ConstitutionReport {
    pub compliant: bool,
    pub rules_checked: usize,
    pub violations: Vec<ConstitutionalViolation>,
}

/// A broken rule, the article it comes from, its severity and what was found.
#[derive(Debug, Clone, PartialEq, Eq)]
pub struct ConstitutionalViolation {
    pub rule: &'static str,
    pub article: &'static str,
    pub severity: ViolationSeverity,
    pub description: String,
}

/// A violation as its texts and severity.
pub type ViolationView = (Seq<char>, Seq<char>, ViolationSeverity, Seq<char>);

impl View for ConstitutionalViolation {
    type V = ViolationView;

    open spec fn view(&self) -> ViolationView {
        (self.rule@, self.article@, self.severity, self.description@)
    }
}

/// The article on the event model.
pub open spec fn article_events() -> Seq<char> {
    "المادة الرابعة"@
}

/// The article on schemas.
pub open spec fn article_schema() -> Seq<char> {
    "المادة الثالثة"@
}

/// The article on the reducer law.
pub open spec fn article_reducer() -> Seq<char> {
    "المادة الخامسة"@
}

/// The article on schema evolution.
pub open spec fn article_evolution() -> Seq<char> {
    "المادة التاسعة عشرة"@
}

/// Whether an event's metadata disagrees with its logical time.
pub open spec fn metadata_time_mismatch(e: Event) -> bool {
    e.metadata.logical_time_epoch != e.logical_time.epoch || e.metadata.logical_time_tick
        != e.logical_time.tick || e.metadata.logical_time_seq != e.logical_time.sequence
}

/// What event `i` violates of the event model and the schema rules (C2, C3).
pub open spec fn structure_violations_at(events: Seq<Event>, i: int) -> Seq<ViolationView> {
    let e = events[i];
    (if i == 0 && !(e.id.epoch == 0 && e.id.seq == 0) {
        seq![("C2"@, article_events(), ViolationSeverity::Advisory, "First event not genesis"@)]
    } else {
        Seq::empty()
    }) + (if i > 0 && !event_follows(e, events[i - 1]) {
        seq![
            ("C2"@, article_events(), ViolationSeverity::Catastrophic, "Event "@ + event_id_text(e.id)
                + " does not follow"@),
        ]
    } else {
        Seq::empty()
    }) + (if e.metadata.schema_version == 0 {
        seq![("C3"@, article_schema(), ViolationSeverity::Major, "Event "@ + event_id_text(e.id) + " schema 0"@)]
    } else {
        Seq::empty()
    }) + (if metadata_time_mismatch(e) {
        seq![("C3"@, article_schema(), ViolationSeverity::Major, "Metadata time mismatch"@)]
    } else {
        Seq::empty()
    })
}

/// The C2 and C3 violations of the first `n` events, in order.
pub open spec fn structure_violations(events: Seq<Event>, n: nat) -> Seq<ViolationView>
    decreases n,
{
    if n == 0 {
        Seq::empty()
    } else {
        structure_violations(events, (n - 1) as nat) + structure_violations_at(events, n - 1)
    }
}

/// What event `i` violates of the hash chain rules (C5).
pub open spec fn hash_violations_at(events: Seq<Event>, i: int) -> Seq<ViolationView> {
    let e = events[i];
    (if i == 0 && e.parent_hash@ != zero_hash_bytes() {
        seq![("C5"@, article_events(), ViolationSeverity::Catastrophic, "Genesis parent non-zero"@)]
    } else {
        Seq::empty()
    }) + (if i > 0 && e.parent_hash@ != events[i - 1].event_hash@ {
        seq![("C5"@, article_events(), ViolationSeverity::Catastrophic, "Hash chain broken"@)]
    } else {
        Seq::empty()
    }) + (if !hash_consistent(e) {
        seq![("C5"@, article_events(), ViolationSeverity::Catastrophic, "Self-hash fail"@)]
    } else {
        Seq::empty()
    })
}

/// The C5 violations of the first `n` events, in order.
pub open spec fn hash_violations(events: Seq<Event>, n: nat) -> Seq<ViolationView>
    decreases n,
{
    if n == 0 {
        Seq::empty()
    } else {
        hash_violations(events, (n - 1) as nat) + hash_violations_at(events, n - 1)
    }
}

/// The C7 violations among the first `n` events: each later event whose schema
/// version differs from the first event's.
pub open spec fn schema_violations(events: Seq<Event>, n: nat) -> Seq<ViolationView>
    decreases n,
{
    if n <= 1 {
        Seq::empty()
    } else {
        schema_violations(events, (n - 1) as nat) + (if events[n - 1].metadata.schema_version
            != events[0].metadata.schema_version {
            seq![
                ("C7"@, article_evolution(), ViolationSeverity::Catastrophic,
                "Schema version change without sandbox"@),
            ]
        } else {
            Seq::empty()
        })
    }
}

/// The C4 violation: the replayed state's digest differs from the audited state's.
pub open spec fn replay_violations(state: KernelStateView, events: Seq<Event>, replayed: KernelStateView) -> Seq<ViolationView> {
    if events.len() > 0 && replayed.state_hash != state.state_hash {
        seq![("C4"@, article_reducer(), ViolationSeverity::Catastrophic, "Replay divergence"@)]
    } else {
        Seq::empty()
    }
}

/// Every violation an audit reports, in order.
pub open spec fn audit_violations(state: KernelStateView, events: Seq<Event>, replayed: KernelStateView) -> Seq<ViolationView> {
    structure_violations(events, events.len()) + replay_violations(state, events, replayed)
        + hash_violations(events, events.len()) + schema_violations(events, events.len())
}

/// The C5 violation of an event whose hash does not match its contents.
pub open spec fn self_hash_violation() -> ViolationView {
    ("C5"@, article_events(), ViolationSeverity::Catastrophic, "Self-hash fail"@)
}

/// A tampered event among the first `n` shows among their hash violations.
proof fn lemma_tampered_event_in_hash_violations(events: Seq<Event>, n: nat, i: int)
    requires
        0 <= i < n <= events.len(),
        !hash_consistent(events[i]),
    ensures
        hash_violations(events, n).contains(self_hash_violation()),
    decreases n,
{
    let prev = hash_violations(events, (n - 1) as nat);
    let at = hash_violations_at(events, n - 1);
    assert(hash_violations(events, n) == prev + at);
    if i == n - 1 {
        assert(at.last() == self_hash_violation());
        assert((prev + at)[prev.len() + at.len() - 1] == self_hash_violation());
    } else {
        lemma_tampered_event_in_hash_violations(events, (n - 1) as nat, i);
        let k = choose|k: int| 0 <= k < prev.len() && prev[k] == self_hash_violation();
        assert((prev + at)[k] == self_hash_violation());
    }
}

/// An audit of a log holding an event whose hash does not match its contents
/// reports a C5 violation, so the log is not compliant.
pub proof fn lemma_tampered_event_is_reported(
    state: KernelStateView,
    events: Seq<Event>,
    replayed: KernelStateView,
    i: int,
)
    requires
        0 <= i < events.len(),
        !hash_consistent(events[i]),
    ensures
        audit_violations(state, events, replayed).contains(self_hash_violation()),
        audit_violations(state, events, replayed).len() > 0,
{
    lemma_tampered_event_in_hash_violations(events, events.len(), i);
    let a = structure_violations(events, events.len()) + replay_violations(state, events, replayed);
    let h = hash_violations(events, events.len());
    let c = schema_violations(events, events.len());
    assert(audit_violations(state, events, replayed) == a + h + c);
    let k = choose|k: int| 0 <= k < h.len() && h[k] == self_hash_violation();
    assert((a + h + c)[a.len() + k] == self_hash_violation());
}

/// A broken hash link among the first `n` events shows among their hash
/// violations.
proof fn lemma_broken_link_in_hash_violations(events: Seq<Event>, n: nat, i: int)
    requires
        0 < i < n <= events.len(),
        events[i].parent_hash@ != events[i - 1].event_hash@,
    ensures
        hash_violations(events, n).contains(
            ("C5"@, article_events(), ViolationSeverity::Catastrophic, "Hash chain broken"@),
        ),
    decreases n,
{
    let x = ("C5"@, article_events(), ViolationSeverity::Catastrophic, "Hash chain broken"@);
    let prev = hash_violations(events, (n - 1) as nat);
    let at = hash_violations_at(events, n - 1);
    assert(hash_violations(events, n) == prev + at);
    if i == n - 1 {
        let first = if i == 0 && events[i].parent_hash@ != zero_hash_bytes() {
            seq![("C5"@, article_events(), ViolationSeverity::Catastrophic, "Genesis parent non-zero"@)]
        } else {
            Seq::<ViolationView>::empty()
        };
        assert(first.len() == 0);
        assert(at[0] == x);
        assert((prev + at)[prev.len() as int] == x);
    } else {
        lemma_broken_link_in_hash_violations(events, (n - 1) as nat, i);
        let k = choose|k: int| 0 <= k < prev.len() && prev[k] == x;
        assert((prev + at)[k] == x);
    }
}

/// An audit of a log in which an event does not link to its predecessor's hash
/// reports a broken hash chain, so the log is not compliant.
pub proof fn lemma_broken_link_is_reported(
    state: KernelStateView,
    events: Seq<Event>,
    replayed: KernelStateView,
    i: int,
)
    requires
        0 < i < events.len(),
        events[i].parent_hash@ != events[i - 1].event_hash@,
    ensures
        audit_violations(state, events, replayed).contains(
            ("C5"@, article_events(), ViolationSeverity::Catastrophic, "Hash chain broken"@),
        ),
{
    let x = ("C5"@, article_events(), ViolationSeverity::Catastrophic, "Hash chain broken"@);
    lemma_broken_link_in_hash_violations(events, events.len(), i);
    let a = structure_violations(events, events.len()) + replay_violations(state, events, replayed);
    let h = hash_violations(events, events.len());
    let c = schema_violations(events, events.len());
    assert(audit_violations(state, events, replayed) == a + h + c);
    let k = choose|k: int| 0 <= k < h.len() && h[k] == x;
    assert((a + h + c)[a.len() + k] == x);
}

fn push_violation(
    violations: &mut Vec<ConstitutionalViolation>,
    rule: &'static str,
    article: &'static str,
    severity: ViolationSeverity,
    description: String,
)
    ensures
        final(violations)@.map_values(|v: ConstitutionalViolation| v@) == old(violations)@.map_values(
            |v: ConstitutionalViolation| v@,
        ).push((rule@, article@, severity, description@)),
{
    let ghost before = violations@;
    let v = ConstitutionalViolation { rule, article, severity, description };
    let ghost vv = v@;
    violations.push(v);
    proof {
        assert(violations@ =~= before.push(v));
        assert(violations@.map_values(|v: ConstitutionalViolation| v@) =~= before.map_values(
            |v: ConstitutionalViolation| v@,
        ).push(vv));
    }
}

fn id_message(e: &Event, tail: &str) -> (r: String)
    ensures
        r@ == "Event "@ + event_id_text(e.id) + tail@,
{
    let mut d = String::from_str("Event ");
    let t = e.id.to_text();
    d.append(t.as_str());
    d.append(tail);
    d
}

fn check_structure_at(events: &[Event], i: usize, violations: &mut Vec<ConstitutionalViolation>)
    requires
        i < events@.len(),
    ensures
        final(violations)@.map_values(|v: ConstitutionalViolation| v@) == old(violations)@.map_values(
            |v: ConstitutionalViolation| v@,
        ) + structure_violations_at(events@, i as int),
{
    let ghost start = violations@.map_values(|v: ConstitutionalViolation| v@);
    let event = &events[i];
    if i == 0 && !event.is_genesis() {
        push_violation(violations, "C2", "المادة الرابعة", ViolationSeverity::Advisory, String::from_str("First event not genesis"));
    }
    if i > 0 && !event.follows(&events[i - 1]) {
        push_violation(violations, "C2", "المادة الرابعة", ViolationSeverity::Catastrophic, id_message(event, " does not follow"));
    }
    if event.metadata.schema_version == 0 {
        push_violation(violations, "C3", "المادة الثالثة", ViolationSeverity::Major, id_message(event, " schema 0"));
    }
    if event.metadata.logical_time_epoch != event.logical_time.epoch
        || event.metadata.logical_time_tick != event.logical_time.tick
        || event.metadata.logical_time_seq != event.logical_time.sequence {
        push_violation(violations, "C3", "المادة الثالثة", ViolationSeverity::Major, String::from_str("Metadata time mismatch"));
    }
    proof {
        assert(violations@.map_values(|v: ConstitutionalViolation| v@) =~= start + structure_violations_at(events@, i as int));
    }
}

fn check_hashes_at(events: &[Event], i: usize, violations: &mut Vec<ConstitutionalViolation>)
    requires
        i < events@.len(),
    ensures
        final(violations)@.map_values(|v: ConstitutionalViolation| v@) == old(violations)@.map_values(
            |v: ConstitutionalViolation| v@,
        ) + hash_violations_at(events@, i as int),
{
    let ghost start = violations@.map_values(|v: ConstitutionalViolation| v@);
    let event = &events[i];
    if i == 0 && !event.parent_hash.is_zero() {
        push_violation(violations, "C5", "المادة الرابعة", ViolationSeverity::Catastrophic, String::from_str("Genesis parent non-zero"));
    }
    if i > 0 && event.parent_hash != events[i - 1].event_hash {
        push_violation(violations, "C5", "المادة الرابعة", ViolationSeverity::Catastrophic, String::from_str("Hash chain broken"));
    }
    if !event.verify_hash() {
        push_violation(violations, "C5", "المادة الرابعة", ViolationSeverity::Catastrophic, String::from_str("Self-hash fail"));
    }
    proof {
        assert(violations@.map_values(|v: ConstitutionalViolation| v@) =~= start + hash_violations_at(events@, i as int));
    }
}

fn check_structure(events: &[Event], violations: &mut Vec<ConstitutionalViolation>)
    ensures
        final(violations)@.map_values(|v: ConstitutionalViolation| v@) == old(violations)@.map_values(
            |v: ConstitutionalViolation| v@,
        ) + structure_violations(events@, events@.len()),
{
    let ghost start = violations@.map_values(|v: ConstitutionalViolation| v@);
    let mut i: usize = 0;
    proof {
        assert(start + structure_violations(events@, 0) =~= start);
    }
    while i < events.len()
        invariant
            i <= events@.len(),
            violations@.map_values(|v: ConstitutionalViolation| v@) == start + structure_violations(events@, i as nat),
        decreases events@.len() - i,
    {
        check_structure_at(events, i, violations);
        proof {
            assert(start + structure_violations(events@, (i + 1) as nat) =~= start + structure_violations(events@, i as nat)
                + structure_violations_at(events@, i as int));
        }
        i = i + 1;
    }
}

fn check_hashes(events: &[Event], violations: &mut Vec<ConstitutionalViolation>)
    ensures
        final(violations)@.map_values(|v: ConstitutionalViolation| v@) == old(violations)@.map_values(
            |v: ConstitutionalViolation| v@,
        ) + hash_violations(events@, events@.len()),
{
    let ghost start = violations@.map_values(|v: ConstitutionalViolation| v@);
    let mut i: usize = 0;
    proof {
        assert(start + hash_violations(events@, 0) =~= start);
    }
    while i < events.len()
        invariant
            i <= events@.len(),
            violations@.map_values(|v: ConstitutionalViolation| v@) == start + hash_violations(events@, i as nat),
        decreases events@.len() - i,
    {
        check_hashes_at(events, i, violations);
        proof {
            assert(start + hash_violations(events@, (i + 1) as nat) =~= start + hash_violations(events@, i as nat)
                + hash_violations_at(events@, i as int));
        }
        i = i + 1;
    }
}

fn check_schemas(events: &[Event], violations: &mut Vec<ConstitutionalViolation>)
    ensures
        final(violations)@.map_values(|v: ConstitutionalViolation| v@) == old(violations)@.map_values(
            |v: ConstitutionalViolation| v@,
        ) + schema_violations(events@, events@.len()),
{
    let ghost start = violations@.map_values(|v: ConstitutionalViolation| v@);
    if events.len() <= 1 {
        proof {
            assert(start + schema_violations(events@, events@.len()) =~= start);
        }
        return;
    }
    let base = events[0].metadata.schema_version;
    let mut i: usize = 1;
    proof {
        assert(start + schema_violations(events@, 1) =~= start);
    }
    while i < events.len()
        invariant
            1 <= i <= events@.len(),
            base == events@[0].metadata.schema_version,
            violations@.map_values(|v: ConstitutionalViolation| v@) == start + schema_violations(events@, i as nat),
        decreases events@.len() - i,
    {
        if events[i].metadata.schema_version != base {
            push_violation(violations, "C7", "المادة التاسعة عشرة", ViolationSeverity::Catastrophic, String::from_str("Schema version change without sandbox"));
        }
        proof {
            assert(violations@.map_values(|v: ConstitutionalViolation| v@) =~= start + schema_violations(events@, (i + 1) as nat));
        }
        i = i + 1;
    }
}

/// Audits a state and its log against the constitution.
pub struct ConstitutionChecker;

impl ConstitutionChecker {
    /// Checks reducer purity (C1), the event model (C2), schemas and metadata
    /// (C3), replay agreement with `state` (C4), the hash chain (C5) and schema
    /// stability across the log (C7).
    pub fn audit<R: Reducer<State = CanonicalState, Event = Event>>(
        state: &CanonicalState,
        events: &[Event],
        reducer: &R,
    ) -> (r: ConstitutionReport)
        requires
            replayable(*reducer, events@),
        ensures
            r.violations@.map_values(|v: ConstitutionalViolation| v@) == audit_violations(
                state@,
                events@,
                replay(*reducer, events@),
            ),
            r.compliant == (r.violations@.len() == 0),
            r.rules_checked == 7,
    {
        let mut violations: Vec<ConstitutionalViolation> = Vec::new();
        proof {
            assert(violations@.map_values(|v: ConstitutionalViolation| v@) =~= Seq::empty());
        }
        if events.len() > 0 {
            let initial = reducer.initial_state();
            proof {
                assert(events@.take(0) =~= Seq::<Event>::empty());
                assert(reducer.step_allowed(replay(*reducer, events@.take(0)), events@[0]));
            }
            let r1 = reducer.apply(&initial, &events[0]);
            let r2 = reducer.apply(&initial, &events[0]);
            if r1.state_hash != r2.state_hash {
                push_violation(&mut violations, "C1", "المادة الثانية", ViolationSeverity::Catastrophic, String::from_str("Reducer not pure"));
            }
        }
        let ghost v0 = violations@.map_values(|v: ConstitutionalViolation| v@);
        check_structure(events, &mut violations);
        let ghost v1 = violations@.map_values(|v: ConstitutionalViolation| v@);
        if events.len() > 0 {
            let replayed = replay_all(reducer, events);
            if replayed.state_hash != state.state_hash {
                push_violation(&mut violations, "C4", "المادة الخامسة", ViolationSeverity::Catastrophic, String::from_str("Replay divergence"));
            }
        }
        let ghost v2 = violations@.map_values(|v: ConstitutionalViolation| v@);
        proof {
            assert(v2 =~= v1 + replay_violations(state@, events@, replay(*reducer, events@)));
        }
        check_hashes(events, &mut violations);
        check_schemas(events, &mut violations);
        proof {
            assert(v0 =~= Seq::empty());
            assert(violations@.map_values(|v: ConstitutionalViolation| v@) =~= audit_violations(
                state@,
                events@,
                replay(*reducer, events@),
            ));
        }
        let compliant = violations.len() == 0;
        ConstitutionReport { compliant, rules_checked: 7, violations }
    }
}

} // verus!
