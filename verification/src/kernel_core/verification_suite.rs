use crate::kernel_core::canonical_state::CanonicalState;
use crate::kernel_core::constitution_checker::{
    audit_violations, ConstitutionChecker, ConstitutionReport, ConstitutionalViolation,
};
use crate::kernel_core::event::Event;
use crate::kernel_core::invariant_checker::{invariant_failures, InvariantChecker, InvariantFailure, InvariantReport};
use crate::kernel_core::reducer::{replay, replayable, Reducer};
use crate::kernel_core::replay_validator::{replay_report_matches, ReplayResult, ReplayValidator};
use vstd::prelude::*;

verus! {

/// The outcome of replay validation, invariant checks and the constitutional
/// audit together.
#[derive(Debug, Clone, PartialEq, Eq)]
pub struct VerificationReport {
    pub passed: bool,
    pub replay: ReplayResult,
    pub invariants: InvariantReport,
    pub constitution: ConstitutionReport,
    pub summary: String,
}

/// The names of the failed steps, joined by `, `.
pub open spec fn failed_steps(replay_ok: bool, invariants_ok: bool, constitution_ok: bool) -> Seq<char> {
    let names = (if !replay_ok {
        seq!["Replay"@]
    } else {
        Seq::<Seq<char>>::empty()
    }) + (if !invariants_ok {
        seq!["Invariants"@]
    } else {
        Seq::<Seq<char>>::empty()
    }) + (if !constitution_ok {
        seq!["Constitution"@]
    } else {
        Seq::<Seq<char>>::empty()
    });
    join_names(names)
}

/// Names joined by `, `.
pub open spec fn join_names(names: Seq<Seq<char>>) -> Seq<char>
    decreases names.len(),
{
    if names.len() == 0 {
        Seq::empty()
    } else if names.len() == 1 {
        names[0]
    } else {
        join_names(names.drop_last()) + ", "@ + names.last()
    }
}

/// The summary of a verification run.
pub open spec fn verification_summary(replay_ok: bool, invariants_ok: bool, constitution_ok: bool) -> Seq<char> {
    if replay_ok && invariants_ok && constitution_ok {
        "All verification steps passed."@
    } else {
        "FAILED: "@ + failed_steps(replay_ok, invariants_ok, constitution_ok)
    }
}

fn add_name(s: &mut String, count: &mut usize, name: &str, ghost_names: Ghost<Seq<Seq<char>>>)
    requires
        old(s)@ == join_names(ghost_names@),
        *old(count) == ghost_names@.len(),
        ghost_names@.len() < 3,
    ensures
        final(s)@ == join_names(ghost_names@.push(name@)),
        *final(count) == ghost_names@.len() + 1,
{
    let ghost names = ghost_names@;
    proof {
        assert(names.push(name@).drop_last() =~= names);
    }
    if *count > 0 {
        s.append(", ");
    } else {
        assert(names =~= Seq::<Seq<char>>::empty());
    }
    s.append(name);
    *count = *count + 1;
}

/// Runs every verification step on a state and its log.
pub struct VerificationSuite;

impl VerificationSuite {
    /// Validates the replay, checks the invariants and audits the log; the run
    /// passes when all three pass.
    pub fn verify<R: Reducer<State = CanonicalState, Event = Event>>(
        reducer: &R,
        events: &[Event],
        state: &CanonicalState,
    ) -> (r: VerificationReport)
        requires
            replayable(*reducer, events@),
        ensures
            replay_report_matches(r.replay, replay(*reducer, events@), events@.len(), state@),
            r.invariants.failures@.map_values(|f: InvariantFailure| f@) == invariant_failures(state@, events@),
            r.invariants.all_passed == (r.invariants.failures@.len() == 0),
            r.invariants.invariants_checked == 7,
            r.constitution.violations@.map_values(|v: ConstitutionalViolation| v@) == audit_violations(
                state@,
                events@,
                replay(*reducer, events@),
            ),
            r.constitution.compliant == (r.constitution.violations@.len() == 0),
            r.constitution.rules_checked == 7,
            r.passed == (r.replay.passed && r.invariants.all_passed && r.constitution.compliant),
            r.summary@ == verification_summary(r.replay.passed, r.invariants.all_passed, r.constitution.compliant),
    {
        let replay = ReplayValidator::validate(reducer, events, state);
        proof {
            if events@.len() > 0 {
                assert(events@.take(0) =~= Seq::<Event>::empty());
                assert(reducer.step_allowed(crate::kernel_core::reducer::replay(*reducer, events@.take(0)), events@[0]));
            }
        }
        let invariants = InvariantChecker::check_all(state, events, reducer);
        let constitution = ConstitutionChecker::audit(state, events, reducer);
        let passed = replay.passed && invariants.all_passed && constitution.compliant;
        let summary = if passed {
            String::from_str("All verification steps passed.")
        } else {
            let mut names = String::new();
            let mut count: usize = 0;
            let ghost mut listed: Seq<Seq<char>> = Seq::empty();
            if !replay.passed {
                add_name(&mut names, &mut count, "Replay", Ghost(listed));
                proof { listed = listed.push("Replay"@); }
            }
            if !invariants.all_passed {
                add_name(&mut names, &mut count, "Invariants", Ghost(listed));
                proof { listed = listed.push("Invariants"@); }
            }
            if !constitution.compliant {
                add_name(&mut names, &mut count, "Constitution", Ghost(listed));
                proof { listed = listed.push("Constitution"@); }
            }
            proof {
                let expected = (if !replay.passed {
                    seq!["Replay"@]
                } else {
                    Seq::<Seq<char>>::empty()
                }) + (if !invariants.all_passed {
                    seq!["Invariants"@]
                } else {
                    Seq::<Seq<char>>::empty()
                }) + (if !constitution.compliant {
                    seq!["Constitution"@]
                } else {
                    Seq::<Seq<char>>::empty()
                });
                assert(listed =~= expected);
            }
            let mut s = String::from_str("FAILED: ");
            s.append(names.as_str());
            s
        };
        VerificationReport { passed, replay, invariants, constitution, summary }
    }
}

} // verus!
