use crate::canonical_state::duplicate::Duplicate;
use vstd::prelude::*;

verus! {

/// An anomaly detected at a logical time, with its severity.
#[derive(Debug, Clone, PartialEq, Eq)]
pub struct Anomaly {
    pub anomaly_id: String,
    pub description: String,
    pub severity: String,
    pub detected_epoch: u64,
    pub detected_tick: u64,
}


/// An insight with its confidence, kept as the bit pattern of an IEEE-754
/// double, and the logical time it was generated at.
#[derive(Debug, Clone, PartialEq, Eq)]
pub struct Insight {
    pub insight_id: String,
    pub description: String,
    pub confidence: u64,
    pub generated_epoch: u64,
    pub generated_tick: u64,
}

/// The reflections: insights and anomalies in order, the time of the last
/// reflection and how many there were.
#[derive(Debug, Clone, PartialEq, Eq)]
pub struct ReflectionState {
    pub insights: Vec<Insight>,
    pub anomalies: Vec<Anomaly>,
    pub last_reflection_epoch: u64,
    pub last_reflection_tick: u64,
    pub total_reflections: u64,
}

impl ReflectionState {
    /// No reflection yet.
    pub fn empty() -> (r: Self)
        ensures
            r.insights@.len() == 0,
            r.anomalies@.len() == 0,
            r.last_reflection_epoch == 0,
            r.last_reflection_tick == 0,
            r.total_reflections == 0,
    {
        ReflectionState {
            insights: Vec::new(),
            anomalies: Vec::new(),
            last_reflection_epoch: 0,
            last_reflection_tick: 0,
            total_reflections: 0,
        }
    }

    /// Whether there are no insights, no anomalies and no reflection was made;
    /// the time of the last reflection is not looked at.
    pub fn is_empty(&self) -> (r: bool)
        ensures
            r == (self.insights@.len() == 0 && self.anomalies@.len() == 0 && self.total_reflections == 0),
    {
        self.insights.len() == 0 && self.anomalies.len() == 0 && self.total_reflections == 0
    }
}


impl Duplicate for Anomaly {
    type Contents = (<String as Duplicate>::Contents, <String as Duplicate>::Contents, <String as Duplicate>::Contents, u64, u64);

    open spec fn contents(&self) -> Self::Contents {
        (self.anomaly_id.contents(), self.description.contents(), self.severity.contents(), self.detected_epoch, self.detected_tick)
    }

    fn duplicate(&self) -> (r: Self) {
        Anomaly {
            anomaly_id: self.anomaly_id.duplicate(),
            description: self.description.duplicate(),
            severity: self.severity.duplicate(),
            detected_epoch: self.detected_epoch,
            detected_tick: self.detected_tick,
        }
    }
}

impl Duplicate for Insight {
    type Contents = (<String as Duplicate>::Contents, <String as Duplicate>::Contents, u64, u64, u64);

    open spec fn contents(&self) -> Self::Contents {
        (self.insight_id.contents(), self.description.contents(), self.confidence, self.generated_epoch, self.generated_tick)
    }

    fn duplicate(&self) -> (r: Self) {
        Insight {
            insight_id: self.insight_id.duplicate(),
            description: self.description.duplicate(),
            confidence: self.confidence,
            generated_epoch: self.generated_epoch,
            generated_tick: self.generated_tick,
        }
    }
}

impl Duplicate for ReflectionState {
    type Contents = (<Vec<Insight> as Duplicate>::Contents, <Vec<Anomaly> as Duplicate>::Contents, u64, u64, u64);

    open spec fn contents(&self) -> Self::Contents {
        (self.insights.contents(), self.anomalies.contents(), self.last_reflection_epoch, self.last_reflection_tick, self.total_reflections)
    }

    fn duplicate(&self) -> (r: Self) {
        ReflectionState {
            insights: self.insights.duplicate(),
            anomalies: self.anomalies.duplicate(),
            last_reflection_epoch: self.last_reflection_epoch,
            last_reflection_tick: self.last_reflection_tick,
            total_reflections: self.total_reflections,
        }
    }
}


} // verus!
