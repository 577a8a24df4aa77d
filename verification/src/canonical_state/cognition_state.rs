use crate::canonical_state::duplicate::Duplicate;
use crate::canonical_state::text_map::TextMap;
use vstd::prelude::*;

verus! {

/// An inference rule: premises and a conclusion.
#[derive(Debug, Clone, PartialEq, Eq)]
pub struct Rule {
    pub rule_id: String,
    pub name: String,
    pub premises: Vec<String>,
    pub conclusion: String,
}

/// A reasoning context: a query and the hypotheses active for it.
#[derive(Debug, Clone, PartialEq, Eq)]
pub struct ReasoningContext {
    pub context_id: String,
    pub query: String,
    pub hypotheses_active: Vec<String>,
}


/// A hypothesis with its confidence, kept as the bit pattern of an IEEE-754
/// double, its evidence count and the logical time of its last update.
#[derive(Debug, Clone, PartialEq, Eq)]
pub struct Hypothesis {
    pub hypothesis_id: String,
    pub description: String,
    pub confidence: u64,
    pub evidence_count: u64,
    pub last_updated_epoch: u64,
    pub last_updated_tick: u64,
}

/// The reasoning state: rules and hypotheses keyed by id, the active contexts
/// and the number of completed cycles.
#[derive(Debug, Clone, PartialEq, Eq)]
pub struct CognitionState {
    pub rules: TextMap<Rule>,
    pub hypotheses: TextMap<Hypothesis>,
    pub active_contexts: Vec<ReasoningContext>,
    pub cycles_completed: u64,
}

impl CognitionState {
    /// Whether there are no rules, hypotheses or contexts and no completed cycle.
    pub open spec fn holds_nothing(&self) -> bool {
        &&& self.rules.keys().len() == 0
        &&& self.hypotheses.keys().len() == 0
        &&& self.active_contexts@.len() == 0
        &&& self.cycles_completed == 0
    }

    /// Nothing reasoned yet.
    pub fn empty() -> (r: Self)
        ensures
            r.holds_nothing(),
            r.rules.well_formed(),
            r.hypotheses.well_formed(),
    {
        CognitionState {
            rules: TextMap::new(),
            hypotheses: TextMap::new(),
            active_contexts: Vec::new(),
            cycles_completed: 0,
        }
    }

    /// Whether nothing was reasoned yet.
    pub fn is_empty(&self) -> (r: bool)
        ensures
            r == self.holds_nothing(),
    {
        self.rules.is_empty() && self.hypotheses.is_empty() && self.active_contexts.len() == 0
            && self.cycles_completed == 0
    }
}


impl Duplicate for Rule {
    type Contents = (<String as Duplicate>::Contents, <String as Duplicate>::Contents, <Vec<String> as Duplicate>::Contents, <String as Duplicate>::Contents);

    open spec fn contents(&self) -> Self::Contents {
        (self.rule_id.contents(), self.name.contents(), self.premises.contents(), self.conclusion.contents())
    }

    fn duplicate(&self) -> (r: Self) {
        Rule {
            rule_id: self.rule_id.duplicate(),
            name: self.name.duplicate(),
            premises: self.premises.duplicate(),
            conclusion: self.conclusion.duplicate(),
        }
    }
}

impl Duplicate for ReasoningContext {
    type Contents = (<String as Duplicate>::Contents, <String as Duplicate>::Contents, <Vec<String> as Duplicate>::Contents);

    open spec fn contents(&self) -> Self::Contents {
        (self.context_id.contents(), self.query.contents(), self.hypotheses_active.contents())
    }

    fn duplicate(&self) -> (r: Self) {
        ReasoningContext {
            context_id: self.context_id.duplicate(),
            query: self.query.duplicate(),
            hypotheses_active: self.hypotheses_active.duplicate(),
        }
    }
}

impl Duplicate for Hypothesis {
    type Contents = (<String as Duplicate>::Contents, <String as Duplicate>::Contents, u64, u64, u64, u64);

    open spec fn contents(&self) -> Self::Contents {
        (self.hypothesis_id.contents(), self.description.contents(), self.confidence, self.evidence_count, self.last_updated_epoch, self.last_updated_tick)
    }

    fn duplicate(&self) -> (r: Self) {
        Hypothesis {
            hypothesis_id: self.hypothesis_id.duplicate(),
            description: self.description.duplicate(),
            confidence: self.confidence,
            evidence_count: self.evidence_count,
            last_updated_epoch: self.last_updated_epoch,
            last_updated_tick: self.last_updated_tick,
        }
    }
}

impl Duplicate for CognitionState {
    type Contents = (<TextMap<Rule> as Duplicate>::Contents, <TextMap<Hypothesis> as Duplicate>::Contents, <Vec<ReasoningContext> as Duplicate>::Contents, u64);

    open spec fn contents(&self) -> Self::Contents {
        (self.rules.contents(), self.hypotheses.contents(), self.active_contexts.contents(), self.cycles_completed)
    }

    fn duplicate(&self) -> (r: Self) {
        CognitionState {
            rules: self.rules.duplicate(),
            hypotheses: self.hypotheses.duplicate(),
            active_contexts: self.active_contexts.duplicate(),
            cycles_completed: self.cycles_completed,
        }
    }
}


} // verus!
