use crate::kernel_core::event::EventPayload;
use crate::proposal::{custom_payload, is_custom_payload, join_texts, join_with};
use crate::text::{bool_string, bool_text};
use vstd::prelude::*;

verus! {

/// Who may take a decision.
#[derive(Debug, PartialEq, Eq)]
pub enum Authority {
    User,
    Constitution,
    System,
    Hybrid { primary: Box<Authority>, secondary: Box<Authority> },
}

/// How weighty a decision is.
#[derive(Debug, Clone, Copy, PartialEq, Eq, Structural)]
pub enum DecisionClass {
    Minor,
    Major,
    Critical,
    Forbidden,
}

/// Which authority a class of decisions requires, and whether it may be delegated.
#[derive(Debug, Clone, PartialEq, Eq)]
pub struct DelegationRule {
    pub decision_class: DecisionClass,
    pub required_authority: Authority,
    pub can_be_delegated: bool,
}

/// The debug text of a decision class: its name.
pub open spec fn decision_class_text(d: DecisionClass) -> Seq<char> {
    match d {
        DecisionClass::Minor => "Minor"@,
        DecisionClass::Major => "Major"@,
        DecisionClass::Critical => "Critical"@,
        DecisionClass::Forbidden => "Forbidden"@,
    }
}

/// The debug text of an authority, nesting the parts of a hybrid one.
pub open spec fn authority_text(a: Authority) -> Seq<char>
    decreases a,
{
    match a {
        Authority::User => "User"@,
        Authority::Constitution => "Constitution"@,
        Authority::System => "System"@,
        Authority::Hybrid { primary, secondary } => "Hybrid { primary: "@ + authority_text(*primary)
            + ", secondary: "@ + authority_text(*secondary) + " }"@,
    }
}

/// The text of one rule in a policy proposal.
pub open spec fn rule_text(r: DelegationRule) -> Seq<char> {
    decision_class_text(r.decision_class) + "|"@ + authority_text(r.required_authority) + "|"@
        + bool_text(r.can_be_delegated)
}

/// The default policy: minor decisions to the system (delegable), major ones to
/// the system and the user together, critical ones to the user, forbidden ones
/// to the constitution.
pub open spec fn default_policy() -> Seq<DelegationRule> {
    seq![
        DelegationRule {
            decision_class: DecisionClass::Minor,
            required_authority: Authority::System,
            can_be_delegated: true,
        },
        DelegationRule {
            decision_class: DecisionClass::Major,
            required_authority: Authority::Hybrid {
                primary: Box::new(Authority::System),
                secondary: Box::new(Authority::User),
            },
            can_be_delegated: false,
        },
        DelegationRule {
            decision_class: DecisionClass::Critical,
            required_authority: Authority::User,
            can_be_delegated: false,
        },
        DelegationRule {
            decision_class: DecisionClass::Forbidden,
            required_authority: Authority::Constitution,
            can_be_delegated: false,
        },
    ]
}

impl DecisionClass {
    /// The debug text of this class.
    pub fn to_text(&self) -> (r: String)
        ensures
            r@ == decision_class_text(*self),
    {
        match self {
            DecisionClass::Minor => String::from_str("Minor"),
            DecisionClass::Major => String::from_str("Major"),
            DecisionClass::Critical => String::from_str("Critical"),
            DecisionClass::Forbidden => String::from_str("Forbidden"),
        }
    }
}

impl Authority {
    /// The debug text of this authority.
    pub fn to_text(&self) -> (r: String)
        ensures
            r@ == authority_text(*self),
        decreases *self,
    {
        match self {
            Authority::User => String::from_str("User"),
            Authority::Constitution => String::from_str("Constitution"),
            Authority::System => String::from_str("System"),
            Authority::Hybrid { primary, secondary } => {
                let mut r = String::from_str("Hybrid { primary: ");
                let p = (**primary).to_text();
                r.append(p.as_str());
                r.append(", secondary: ");
                let s = (**secondary).to_text();
                r.append(s.as_str());
                r.append(" }");
                r
            },
        }
    }

    /// A copy of this authority.
    pub fn duplicate(&self) -> (r: Self)
        ensures
            r == *self,
        decreases *self,
    {
        match self {
            Authority::User => Authority::User,
            Authority::Constitution => Authority::Constitution,
            Authority::System => Authority::System,
            Authority::Hybrid { primary, secondary } => Authority::Hybrid {
                primary: Box::new((**primary).duplicate()),
                secondary: Box::new((**secondary).duplicate()),
            },
        }
    }
}

impl Clone for Authority {
    fn clone(&self) -> (r: Self)
        ensures
            r == *self,
    {
        self.duplicate()
    }
}

/// The governance policy: which authority each class of decisions requires.
pub struct GovernancePolicy;

impl GovernancePolicy {
    /// The default rules, one per decision class.
    pub fn default_rules() -> (r: Vec<DelegationRule>)
        ensures
            r@ == default_policy(),
    {
        let mut r: Vec<DelegationRule> = Vec::new();
        r.push(DelegationRule { decision_class: DecisionClass::Minor, required_authority: Authority::System, can_be_delegated: true });
        r.push(DelegationRule {
            decision_class: DecisionClass::Major,
            required_authority: Authority::Hybrid {
                primary: Box::new(Authority::System),
                secondary: Box::new(Authority::User),
            },
            can_be_delegated: false,
        });
        r.push(DelegationRule { decision_class: DecisionClass::Critical, required_authority: Authority::User, can_be_delegated: false });
        r.push(DelegationRule { decision_class: DecisionClass::Forbidden, required_authority: Authority::Constitution, can_be_delegated: false });
        proof {
            assert(r@ =~= default_policy());
        }
        r
    }

    /// Proposes setting a policy: each rule as `class|authority|delegable`,
    /// the rules joined by `;`.
    pub fn propose_set_policy(rules: &[DelegationRule]) -> (r: EventPayload)
        ensures
            is_custom_payload(
                r,
                "GovernancePolicySet"@,
                join_with(rules@.map_values(|x: DelegationRule| rule_text(x)), ";"@),
            ),
    {
        let mut texts: Vec<String> = Vec::new();
        let mut i: usize = 0;
        while i < rules.len()
            invariant
                i <= rules@.len(),
                texts@.map_values(|s: String| s@) == rules@.take(i as int).map_values(|x: DelegationRule| rule_text(x)),
            decreases rules@.len() - i,
        {
            let rule = &rules[i];
            let mut t = rule.decision_class.to_text();
            t.append("|");
            let a = rule.required_authority.to_text();
            t.append(a.as_str());
            t.append("|");
            let b = bool_string(rule.can_be_delegated);
            t.append(b.as_str());
            let ghost before = texts@;
            let ghost tv = t@;
            assert(tv == rule_text(rules@[i as int]));
            texts.push(t);
            proof {
                assert(rules@.take(i + 1) =~= rules@.take(i as int).push(rules@[i as int]));
                assert(texts@.map_values(|s: String| s@) =~= before.map_values(|s: String| s@).push(tv));
                assert(rules@.take(i + 1).map_values(|x: DelegationRule| rule_text(x)) =~= rules@.take(
                    i as int,
                ).map_values(|x: DelegationRule| rule_text(x)).push(rule_text(rules@[i as int])));
            }
            i = i + 1;
        }
        proof {
            assert(rules@.take(rules@.len() as int) =~= rules@);
        }
        let joined = join_texts(&texts, ";");
        custom_payload("GovernancePolicySet", &joined)
    }
}

} // verus!
