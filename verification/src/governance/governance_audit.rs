use crate::kernel_core::event::EventPayload;
use crate::proposal::{custom_payload, is_custom_payload};
use vstd::prelude::*;

verus! {

/// Records governance audit entries, by proposing events.
pub struct GovernanceAudit;

impl GovernanceAudit {
    /// Proposes recording an audit entry.
    pub fn propose_audit_entry(entry: &str) -> (r: EventPayload)
        ensures
            is_custom_payload(r, "GovernanceAudit"@, entry@),
    {
        custom_payload("GovernanceAudit", &String::from_str(entry))
    }
}

} // verus!
