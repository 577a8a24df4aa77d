use crate::canonical_state::duplicate::Duplicate;
use crate::canonical_state::text_map::TextMap;
use vstd::prelude::*;

verus! {

/// The identifier of an entity.
#[derive(Debug, Clone, PartialEq, Eq, PartialOrd, Ord, Hash)]
pub struct EntityId(pub String);

/// The identifier of a relation.
#[derive(Debug, Clone, PartialEq, Eq, PartialOrd, Ord, Hash)]
pub struct RelationId(pub String);

/// The identifier of a fact.
#[derive(Debug, Clone, PartialEq, Eq, PartialOrd, Ord, Hash)]
pub struct FactId(pub String);

/// The identifier of a capability.
#[derive(Debug, Clone, PartialEq, Eq, PartialOrd, Ord, Hash)]
pub struct CapabilityId(pub String);

/// What kind of thing an entity is.
#[derive(Debug, Clone, Copy, PartialEq, Eq, Structural, Hash)]
pub enum EntityType {
    User,
    Agent,
    Project,
    Tool,
    Resource,
    Concept,
    Goal,
    Environment,
}

/// The debug text of an entity type: its name.
pub open spec fn entity_type_text(t: EntityType) -> Seq<char> {
    match t {
        EntityType::User => "User"@,
        EntityType::Agent => "Agent"@,
        EntityType::Project => "Project"@,
        EntityType::Tool => "Tool"@,
        EntityType::Resource => "Resource"@,
        EntityType::Concept => "Concept"@,
        EntityType::Goal => "Goal"@,
        EntityType::Environment => "Environment"@,
    }
}

impl EntityType {
    /// The debug text of this entity type.
    pub fn to_text(&self) -> (r: String)
        ensures
            r@ == entity_type_text(*self),
    {
        match self {
            EntityType::User => String::from_str("User"),
            EntityType::Agent => String::from_str("Agent"),
            EntityType::Project => String::from_str("Project"),
            EntityType::Tool => String::from_str("Tool"),
            EntityType::Resource => String::from_str("Resource"),
            EntityType::Concept => String::from_str("Concept"),
            EntityType::Goal => String::from_str("Goal"),
            EntityType::Environment => String::from_str("Environment"),
        }
    }
}

/// An entity of the world model with its properties.
#[derive(Debug, Clone, PartialEq, Eq)]
pub struct Entity {
    pub id: EntityId,
    pub entity_type: EntityType,
    pub properties: TextMap<String>,
}

/// A fact about an entity.
#[derive(Debug, Clone, PartialEq, Eq)]
pub struct Fact {
    pub id: FactId,
    pub subject: EntityId,
    pub predicate: String,
    pub object: String,
}

/// A capability owned by an entity.
#[derive(Debug, Clone, PartialEq, Eq)]
pub struct Capability {
    pub id: CapabilityId,
    pub owner: EntityId,
    pub capability_type: String,
}


/// A relation between two entities, with a weight kept as the bit pattern of
/// an IEEE-754 double.
#[derive(Debug, Clone, PartialEq, Eq)]
pub struct Relation {
    pub id: RelationId,
    pub from: EntityId,
    pub relation_type: String,
    pub to: EntityId,
    pub weight: u64,
    pub bidirectional: bool,
}

/// The world model: entities, relations, facts and capabilities, each keyed
/// by the text of its id.
#[derive(Debug, Clone, PartialEq, Eq)]
pub struct WorldState {
    pub entities: TextMap<Entity>,
    pub relations: TextMap<Relation>,
    pub facts: TextMap<Fact>,
    pub capabilities: TextMap<Capability>,
}

impl WorldState {
    /// Whether the world model holds nothing.
    pub open spec fn holds_nothing(&self) -> bool {
        &&& self.entities.keys().len() == 0
        &&& self.relations.keys().len() == 0
        &&& self.facts.keys().len() == 0
        &&& self.capabilities.keys().len() == 0
    }

    /// An empty world model.
    pub fn empty() -> (r: Self)
        ensures
            r.holds_nothing(),
            r.entities.well_formed(),
            r.relations.well_formed(),
            r.facts.well_formed(),
            r.capabilities.well_formed(),
    {
        WorldState {
            entities: TextMap::new(),
            relations: TextMap::new(),
            facts: TextMap::new(),
            capabilities: TextMap::new(),
        }
    }

    /// Whether the world model holds nothing.
    pub fn is_empty(&self) -> (r: bool)
        ensures
            r == self.holds_nothing(),
    {
        self.entities.is_empty() && self.relations.is_empty() && self.facts.is_empty()
            && self.capabilities.is_empty()
    }
}


impl Duplicate for Entity {
    type Contents = (<EntityId as Duplicate>::Contents, EntityType, <TextMap<String> as Duplicate>::Contents);

    open spec fn contents(&self) -> Self::Contents {
        (self.id.contents(), self.entity_type, self.properties.contents())
    }

    fn duplicate(&self) -> (r: Self) {
        Entity {
            id: self.id.duplicate(),
            entity_type: self.entity_type,
            properties: self.properties.duplicate(),
        }
    }
}

impl Duplicate for Fact {
    type Contents = (<FactId as Duplicate>::Contents, <EntityId as Duplicate>::Contents, <String as Duplicate>::Contents, <String as Duplicate>::Contents);

    open spec fn contents(&self) -> Self::Contents {
        (self.id.contents(), self.subject.contents(), self.predicate.contents(), self.object.contents())
    }

    fn duplicate(&self) -> (r: Self) {
        Fact {
            id: self.id.duplicate(),
            subject: self.subject.duplicate(),
            predicate: self.predicate.duplicate(),
            object: self.object.duplicate(),
        }
    }
}

impl Duplicate for Capability {
    type Contents = (<CapabilityId as Duplicate>::Contents, <EntityId as Duplicate>::Contents, <String as Duplicate>::Contents);

    open spec fn contents(&self) -> Self::Contents {
        (self.id.contents(), self.owner.contents(), self.capability_type.contents())
    }

    fn duplicate(&self) -> (r: Self) {
        Capability {
            id: self.id.duplicate(),
            owner: self.owner.duplicate(),
            capability_type: self.capability_type.duplicate(),
        }
    }
}

impl Duplicate for Relation {
    type Contents = (<RelationId as Duplicate>::Contents, <EntityId as Duplicate>::Contents, <String as Duplicate>::Contents, <EntityId as Duplicate>::Contents, u64, bool);

    open spec fn contents(&self) -> Self::Contents {
        (self.id.contents(), self.from.contents(), self.relation_type.contents(), self.to.contents(), self.weight, self.bidirectional)
    }

    fn duplicate(&self) -> (r: Self) {
        Relation {
            id: self.id.duplicate(),
            from: self.from.duplicate(),
            relation_type: self.relation_type.duplicate(),
            to: self.to.duplicate(),
            weight: self.weight,
            bidirectional: self.bidirectional,
        }
    }
}

impl Duplicate for WorldState {
    type Contents = (<TextMap<Entity> as Duplicate>::Contents, <TextMap<Relation> as Duplicate>::Contents, <TextMap<Fact> as Duplicate>::Contents, <TextMap<Capability> as Duplicate>::Contents);

    open spec fn contents(&self) -> Self::Contents {
        (self.entities.contents(), self.relations.contents(), self.facts.contents(), self.capabilities.contents())
    }

    fn duplicate(&self) -> (r: Self) {
        WorldState {
            entities: self.entities.duplicate(),
            relations: self.relations.duplicate(),
            facts: self.facts.duplicate(),
            capabilities: self.capabilities.duplicate(),
        }
    }
}


impl Duplicate for EntityId {
    type Contents = Seq<char>;

    open spec fn contents(&self) -> Seq<char> {
        self.0@
    }

    fn duplicate(&self) -> (r: Self) {
        EntityId(self.0.clone())
    }
}

impl Duplicate for RelationId {
    type Contents = Seq<char>;

    open spec fn contents(&self) -> Seq<char> {
        self.0@
    }

    fn duplicate(&self) -> (r: Self) {
        RelationId(self.0.clone())
    }
}

impl Duplicate for FactId {
    type Contents = Seq<char>;

    open spec fn contents(&self) -> Seq<char> {
        self.0@
    }

    fn duplicate(&self) -> (r: Self) {
        FactId(self.0.clone())
    }
}

impl Duplicate for CapabilityId {
    type Contents = Seq<char>;

    open spec fn contents(&self) -> Seq<char> {
        self.0@
    }

    fn duplicate(&self) -> (r: Self) {
        CapabilityId(self.0.clone())
    }
}

} // verus!
