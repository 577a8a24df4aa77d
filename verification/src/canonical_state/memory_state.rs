use crate::canonical_state::duplicate::Duplicate;
use crate::canonical_state::text_map::TextMap;
use vstd::prelude::*;

verus! {

/// An episode remembered with its logical timestamp.
#[derive(Debug, Clone, PartialEq, Eq, Hash)]
pub struct Episode {
    pub episode_id: String,
    pub timestamp_epoch: u64,
    pub timestamp_tick: u64,
    pub description: String,
}

/// A skill: named steps.
#[derive(Debug, Clone, PartialEq, Eq, Hash)]
pub struct Skill {
    pub skill_id: String,
    pub name: String,
    pub steps: Vec<String>,
}


/// A fact remembered as subject, predicate and object, with a confidence kept
/// as the bit pattern of an IEEE-754 double.
#[derive(Debug, Clone, PartialEq, Eq, Hash)]
pub struct SemanticFact {
    pub fact_id: String,
    pub subject: String,
    pub predicate: String,
    pub object: String,
    pub confidence: u64,
}

/// An item of working memory, with a relevance kept as the bit pattern of an
/// IEEE-754 double.
#[derive(Debug, Clone, PartialEq, Eq, Hash)]
pub struct WorkingMemoryItem {
    pub item_id: String,
    pub content: String,
    pub relevance: u64,
}

/// The memories: facts and skills keyed by id, episodes and working items in
/// order, and an index of long-term entries.
#[derive(Debug, Clone, PartialEq, Eq)]
pub struct MemoryState {
    pub semantic: TextMap<SemanticFact>,
    pub episodic: Vec<Episode>,
    pub procedural: TextMap<Skill>,
    pub working: Vec<WorkingMemoryItem>,
    pub long_term_index: TextMap<String>,
}

impl MemoryState {
    /// Whether nothing is remembered.
    pub open spec fn holds_nothing(&self) -> bool {
        &&& self.semantic.keys().len() == 0
        &&& self.episodic@.len() == 0
        &&& self.procedural.keys().len() == 0
        &&& self.working@.len() == 0
        &&& self.long_term_index.keys().len() == 0
    }

    /// No memories.
    pub fn empty() -> (r: Self)
        ensures
            r.holds_nothing(),
            r.semantic.well_formed(),
            r.procedural.well_formed(),
            r.long_term_index.well_formed(),
    {
        MemoryState {
            semantic: TextMap::new(),
            episodic: Vec::new(),
            procedural: TextMap::new(),
            working: Vec::new(),
            long_term_index: TextMap::new(),
        }
    }

    /// Whether nothing is remembered.
    pub fn is_empty(&self) -> (r: bool)
        ensures
            r == self.holds_nothing(),
    {
        self.semantic.is_empty() && self.episodic.len() == 0 && self.procedural.is_empty()
            && self.working.len() == 0 && self.long_term_index.is_empty()
    }
}


impl Duplicate for Episode {
    type Contents = (<String as Duplicate>::Contents, u64, u64, <String as Duplicate>::Contents);

    open spec fn contents(&self) -> Self::Contents {
        (self.episode_id.contents(), self.timestamp_epoch, self.timestamp_tick, self.description.contents())
    }

    fn duplicate(&self) -> (r: Self) {
        Episode {
            episode_id: self.episode_id.duplicate(),
            timestamp_epoch: self.timestamp_epoch,
            timestamp_tick: self.timestamp_tick,
            description: self.description.duplicate(),
        }
    }
}

impl Duplicate for Skill {
    type Contents = (<String as Duplicate>::Contents, <String as Duplicate>::Contents, <Vec<String> as Duplicate>::Contents);

    open spec fn contents(&self) -> Self::Contents {
        (self.skill_id.contents(), self.name.contents(), self.steps.contents())
    }

    fn duplicate(&self) -> (r: Self) {
        Skill {
            skill_id: self.skill_id.duplicate(),
            name: self.name.duplicate(),
            steps: self.steps.duplicate(),
        }
    }
}

impl Duplicate for SemanticFact {
    type Contents = (<String as Duplicate>::Contents, <String as Duplicate>::Contents, <String as Duplicate>::Contents, <String as Duplicate>::Contents, u64);

    open spec fn contents(&self) -> Self::Contents {
        (self.fact_id.contents(), self.subject.contents(), self.predicate.contents(), self.object.contents(), self.confidence)
    }

    fn duplicate(&self) -> (r: Self) {
        SemanticFact {
            fact_id: self.fact_id.duplicate(),
            subject: self.subject.duplicate(),
            predicate: self.predicate.duplicate(),
            object: self.object.duplicate(),
            confidence: self.confidence,
        }
    }
}

impl Duplicate for WorkingMemoryItem {
    type Contents = (<String as Duplicate>::Contents, <String as Duplicate>::Contents, u64);

    open spec fn contents(&self) -> Self::Contents {
        (self.item_id.contents(), self.content.contents(), self.relevance)
    }

    fn duplicate(&self) -> (r: Self) {
        WorkingMemoryItem {
            item_id: self.item_id.duplicate(),
            content: self.content.duplicate(),
            relevance: self.relevance,
        }
    }
}

impl Duplicate for MemoryState {
    type Contents = (<TextMap<SemanticFact> as Duplicate>::Contents, <Vec<Episode> as Duplicate>::Contents, <TextMap<Skill> as Duplicate>::Contents, <Vec<WorkingMemoryItem> as Duplicate>::Contents, <TextMap<String> as Duplicate>::Contents);

    open spec fn contents(&self) -> Self::Contents {
        (self.semantic.contents(), self.episodic.contents(), self.procedural.contents(), self.working.contents(), self.long_term_index.contents())
    }

    fn duplicate(&self) -> (r: Self) {
        MemoryState {
            semantic: self.semantic.duplicate(),
            episodic: self.episodic.duplicate(),
            procedural: self.procedural.duplicate(),
            working: self.working.duplicate(),
            long_term_index: self.long_term_index.duplicate(),
        }
    }
}


} // verus!
