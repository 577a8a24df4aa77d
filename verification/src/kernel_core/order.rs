use crate::canonical_state::text_map::{bytes_lt, lemma_bytes_lt_total, lemma_bytes_lt_transitive};
use crate::kernel_core::event_hash::{lemma_event_hash_ext, EventHash};
use crate::kernel_core::event_id::EventId;
use crate::kernel_core::logical_time::LogicalTime;
use core::cmp::Ordering;
use vstd::prelude::*;
use vstd::std_specs::cmp::PartialOrdSpecImpl;

verus! {

/// Identifiers order by epoch, then by sequence.
pub open spec fn event_id_order(a: EventId, b: EventId) -> Ordering {
    if a.epoch < b.epoch {
        Ordering::Less
    } else if a.epoch > b.epoch {
        Ordering::Greater
    } else if a.seq < b.seq {
        Ordering::Less
    } else if a.seq > b.seq {
        Ordering::Greater
    } else {
        Ordering::Equal
    }
}

/// Times order by epoch, then tick, then sequence.
pub open spec fn logical_time_order(a: LogicalTime, b: LogicalTime) -> Ordering {
    if a.epoch < b.epoch {
        Ordering::Less
    } else if a.epoch > b.epoch {
        Ordering::Greater
    } else if a.tick < b.tick {
        Ordering::Less
    } else if a.tick > b.tick {
        Ordering::Greater
    } else if a.sequence < b.sequence {
        Ordering::Less
    } else if a.sequence > b.sequence {
        Ordering::Greater
    } else {
        Ordering::Equal
    }
}

impl PartialOrd for EventId {
    fn partial_cmp(&self, other: &Self) -> (r: Option<Ordering>) {
        if self.epoch < other.epoch {
            Some(Ordering::Less)
        } else if self.epoch > other.epoch {
            Some(Ordering::Greater)
        } else if self.seq < other.seq {
            Some(Ordering::Less)
        } else if self.seq > other.seq {
            Some(Ordering::Greater)
        } else {
            Some(Ordering::Equal)
        }
    }
}

impl PartialOrdSpecImpl for EventId {
    open spec fn obeys_partial_cmp_spec() -> bool {
        true
    }

    open spec fn partial_cmp_spec(&self, other: &Self) -> Option<Ordering> {
        Some(event_id_order(*self, *other))
    }
}

impl PartialOrd for LogicalTime {
    fn partial_cmp(&self, other: &Self) -> (r: Option<Ordering>) {
        if self.epoch < other.epoch {
            Some(Ordering::Less)
        } else if self.epoch > other.epoch {
            Some(Ordering::Greater)
        } else if self.tick < other.tick {
            Some(Ordering::Less)
        } else if self.tick > other.tick {
            Some(Ordering::Greater)
        } else if self.sequence < other.sequence {
            Some(Ordering::Less)
        } else if self.sequence > other.sequence {
            Some(Ordering::Greater)
        } else {
            Some(Ordering::Equal)
        }
    }
}

impl PartialOrdSpecImpl for LogicalTime {
    open spec fn obeys_partial_cmp_spec() -> bool {
        true
    }

    open spec fn partial_cmp_spec(&self, other: &Self) -> Option<Ordering> {
        Some(logical_time_order(*self, *other))
    }
}

/// Hashes order by their bytes, the first differing byte deciding.
pub open spec fn event_hash_order(a: EventHash, b: EventHash) -> Ordering {
    if a@ == b@ {
        Ordering::Equal
    } else if bytes_lt(a@, b@) {
        Ordering::Less
    } else {
        Ordering::Greater
    }
}

impl PartialOrd for EventHash {
    fn partial_cmp(&self, other: &Self) -> (r: Option<Ordering>) {
        let i = self.first_difference(other);
        if i == 32 {
            Some(Ordering::Equal)
        } else if self.as_bytes()[i] < other.as_bytes()[i] {
            Some(Ordering::Less)
        } else {
            Some(Ordering::Greater)
        }
    }
}

impl PartialOrdSpecImpl for EventHash {
    open spec fn obeys_partial_cmp_spec() -> bool {
        true
    }

    open spec fn partial_cmp_spec(&self, other: &Self) -> Option<Ordering> {
        Some(event_hash_order(*self, *other))
    }
}

/// Hashes compare equal exactly when they are the same hash; one comes before
/// another exactly when the other comes after it; and the order is transitive.
pub proof fn lemma_event_hash_order(a: EventHash, b: EventHash, c: EventHash)
    ensures
        (event_hash_order(a, b) == Ordering::Equal) == (a == b),
        (event_hash_order(a, b) == Ordering::Less) == (event_hash_order(b, a) == Ordering::Greater),
        event_hash_order(a, b) == Ordering::Less && event_hash_order(b, c) == Ordering::Less
            ==> event_hash_order(a, c) == Ordering::Less,
{
    lemma_bytes_lt_total(a@, b@);
    if a@ == b@ {
        lemma_event_hash_ext(a, b);
    }
    if bytes_lt(a@, b@) && bytes_lt(b@, c@) {
        lemma_bytes_lt_transitive(a@, b@, c@);
        lemma_bytes_lt_total(a@, c@);
    }
}

} // verus!
