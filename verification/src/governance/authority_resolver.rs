use crate::governance::governance_policy::{
    authority_text, decision_class_text, default_policy, Authority, DecisionClass, DelegationRule,
};
use crate::kernel_core::event::EventPayload;
use crate::proposal::{custom_payload, is_custom_payload, pipe2};
use vstd::prelude::*;

verus! {

/// The authority the first rule for `decision` requires, if some rule covers it.
pub open spec fn required_authority(decision: DecisionClass, rules: Seq<DelegationRule>) -> Option<Authority> {
    if exists|i: int| 0 <= i < rules.len() && rules[i].decision_class == decision {
        let i = choose|i: int|
            0 <= i < rules.len() && rules[i].decision_class == decision && forall|j: int|
                0 <= j < i ==> rules[j].decision_class != decision;
        Some(rules[i].required_authority)
    } else {
        None
    }
}

/// Under the default policy every class of decision has an authority: the
/// system for minor decisions, the system with the user for major ones, the
/// user for critical ones and the constitution for forbidden ones.
pub proof fn lemma_default_policy_covers_every_class(decision: DecisionClass)
    ensures
        required_authority(decision, default_policy()) == Some(
            match decision {
                DecisionClass::Minor => Authority::System,
                DecisionClass::Major => Authority::Hybrid {
                    primary: Box::new(Authority::System),
                    secondary: Box::new(Authority::User),
                },
                DecisionClass::Critical => Authority::User,
                DecisionClass::Forbidden => Authority::Constitution,
            },
        ),
{
    let rules = default_policy();
    assert(rules[0].decision_class == DecisionClass::Minor);
    assert(rules[1].decision_class == DecisionClass::Major);
    assert(rules[2].decision_class == DecisionClass::Critical);
    assert(rules[3].decision_class == DecisionClass::Forbidden);
    match decision {
        DecisionClass::Minor => lemma_first_rule(rules, decision, 0),
        DecisionClass::Major => lemma_first_rule(rules, decision, 1),
        DecisionClass::Critical => lemma_first_rule(rules, decision, 2),
        DecisionClass::Forbidden => lemma_first_rule(rules, decision, 3),
    }
}

/// The first rule for a decision gives its authority.
proof fn lemma_first_rule(rules: Seq<DelegationRule>, decision: DecisionClass, k: int)
    requires
        0 <= k < rules.len(),
        rules[k].decision_class == decision,
        forall|j: int| 0 <= j < k ==> rules[j].decision_class != decision,
    ensures
        required_authority(decision, rules) == Some(rules[k].required_authority),
{
    let i = choose|i: int|
        0 <= i < rules.len() && rules[i].decision_class == decision && forall|j: int|
            0 <= j < i ==> rules[j].decision_class != decision;
    if i < k {
        assert(rules[i].decision_class != decision);
    }
    if k < i {
        assert(rules[k].decision_class != decision);
    }
}

/// Finds the authority a decision requires.
pub struct AuthorityResolver;

impl AuthorityResolver {
    /// The authority of the first rule for `decision`.
    pub fn resolve(decision: &DecisionClass, rules: &[DelegationRule]) -> (r: Option<Authority>)
        ensures
            r == required_authority(*decision, rules@),
    {
        let mut i: usize = 0;
        while i < rules.len()
            invariant
                i <= rules@.len(),
                forall|j: int| 0 <= j < i ==> rules@[j].decision_class != *decision,
            decreases rules@.len() - i,
        {
            if rules[i].decision_class == *decision {
                proof {
                    lemma_first_rule(rules@, *decision, i as int);
                }
                return Some(rules[i].required_authority.duplicate());
            }
            i = i + 1;
        }
        None
    }

    /// Proposes recording the authority a decision requires.
    pub fn propose_resolution(decision: DecisionClass, required: Authority) -> (r: EventPayload)
        ensures
            is_custom_payload(
                r,
                "AuthorityResolved"@,
                decision_class_text(decision) + "|"@ + authority_text(required),
            ),
    {
        let d = decision.to_text();
        let a = required.to_text();
        custom_payload("AuthorityResolved", &pipe2(d.as_str(), a.as_str()))
    }
}

} // verus!
