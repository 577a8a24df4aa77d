use crate::kernel_core::event::EventPayload;
use crate::proposal::{custom_payload, is_custom_payload, pipe3};
use crate::text::{bool_string, bool_text};
use vstd::prelude::*;

verus! {

/// Records delegations, by proposing events.
pub struct DelegationLedger;

impl DelegationLedger {
    /// Proposes recording a delegation of a decision class, and whether it is allowed.
    pub fn propose_delegate(from: &str, to: &str, decision_class: &str, allowed: bool) -> (r: EventPayload)
        ensures
            is_custom_payload(
                r,
                "DelegationRecorded"@,
                from@ + "|"@ + to@ + "|"@ + decision_class@ + "|"@ + bool_text(allowed),
            ),
    {
        let mut t = pipe3(from, to, decision_class);
        t.append("|");
        let b = bool_string(allowed);
        t.append(b.as_str());
        custom_payload("DelegationRecorded", &t)
    }
}

} // verus!
