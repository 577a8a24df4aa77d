use vstd::prelude::*;

verus! {

/// Who created an event.
#[derive(Debug, Clone, PartialEq, Eq, Hash)]
pub enum EventSource {
    User { user_id: Option<String> },
    Agent { agent_id: String },
    System,
    Llm { model_id: String },
    CapabilityProvider { provider_id: String },
}

/// The text of a source: its kind, with the identifier in parentheses
/// (`?` for a user without one).
pub open spec fn event_source_text(s: EventSource) -> Seq<char> {
    match s {
        EventSource::User { user_id } => "User("@ + (match user_id {
            Some(u) => u@,
            None => "?"@,
        }) + ")"@,
        EventSource::Agent { agent_id } => "Agent("@ + agent_id@ + ")"@,
        EventSource::System => "System"@,
        EventSource::Llm { model_id } => "Llm("@ + model_id@ + ")"@,
        EventSource::CapabilityProvider { provider_id } => "CapabilityProvider("@ + provider_id@
            + ")"@,
    }
}

impl EventSource {
    /// The text of this source.
    pub fn to_text(&self) -> (r: String)
        ensures
            r@ == event_source_text(*self),
    {
        match self {
            EventSource::User { user_id } => {
                let mut r = String::from_str("User(");
                match user_id {
                    Some(u) => r.append(u.as_str()),
                    None => r.append("?"),
                }
                r.append(")");
                r
            },
            EventSource::Agent { agent_id } => {
                let mut r = String::from_str("Agent(");
                r.append(agent_id.as_str());
                r.append(")");
                r
            },
            EventSource::System => String::from_str("System"),
            EventSource::Llm { model_id } => {
                let mut r = String::from_str("Llm(");
                r.append(model_id.as_str());
                r.append(")");
                r
            },
            EventSource::CapabilityProvider { provider_id } => {
                let mut r = String::from_str("CapabilityProvider(");
                r.append(provider_id.as_str());
                r.append(")");
                r
            },
        }
    }

    /// A copy of this source.
    pub fn duplicate(&self) -> (r: Self)
        ensures
            r == *self,
    {
        match self {
            EventSource::User { user_id } => EventSource::User {
                user_id: match user_id {
                    Some(u) => Some(u.clone()),
                    None => None,
                },
            },
            EventSource::Agent { agent_id } => EventSource::Agent { agent_id: agent_id.clone() },
            EventSource::System => EventSource::System,
            EventSource::Llm { model_id } => EventSource::Llm { model_id: model_id.clone() },
            EventSource::CapabilityProvider { provider_id } => EventSource::CapabilityProvider {
                provider_id: provider_id.clone(),
            },
        }
    }
}

/// The context in which an event was created.
#[derive(Debug, Clone, PartialEq, Eq, Hash)]
pub struct EventMetadata {
    pub source: EventSource,
    pub correlation_id: Option<String>,
    pub causation_id: Option<String>,
    pub schema_version: u32,
    pub sequence: u64,
    pub logical_time_epoch: u64,
    pub logical_time_tick: u64,
    pub logical_time_seq: u64,
}

fn duplicate_text(o: &Option<String>) -> (r: Option<String>)
    ensures
        r == *o,
{
    match o {
        Some(s) => Some(s.clone()),
        None => None,
    }
}

impl EventMetadata {
    pub fn new(
        source: EventSource,
        correlation_id: Option<String>,
        causation_id: Option<String>,
        schema_version: u32,
        sequence: u64,
        logical_time_epoch: u64,
        logical_time_tick: u64,
        logical_time_seq: u64,
    ) -> (r: Self)
        ensures
            r == (EventMetadata {
                source,
                correlation_id,
                causation_id,
                schema_version,
                sequence,
                logical_time_epoch,
                logical_time_tick,
                logical_time_seq,
            }),
    {
        EventMetadata {
            source,
            correlation_id,
            causation_id,
            schema_version,
            sequence,
            logical_time_epoch,
            logical_time_tick,
            logical_time_seq,
        }
    }

    /// The recorded logical time as (epoch, tick, sequence).
    pub fn logical_time_triple(&self) -> (r: (u64, u64, u64))
        ensures
            r == (self.logical_time_epoch, self.logical_time_tick, self.logical_time_seq),
    {
        (self.logical_time_epoch, self.logical_time_tick, self.logical_time_seq)
    }

    /// A copy of this metadata.
    pub fn duplicate(&self) -> (r: Self)
        ensures
            r == *self,
    {
        EventMetadata {
            source: self.source.duplicate(),
            correlation_id: duplicate_text(&self.correlation_id),
            causation_id: duplicate_text(&self.causation_id),
            schema_version: self.schema_version,
            sequence: self.sequence,
            logical_time_epoch: self.logical_time_epoch,
            logical_time_tick: self.logical_time_tick,
            logical_time_seq: self.logical_time_seq,
        }
    }
}

} // verus!
