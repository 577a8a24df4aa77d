use crate::canonical_state::goal_state::GoalStatus;
use crate::kernel_core::event::EventPayload;
use crate::proposal::{custom_payload, is_custom_payload, join_texts, join_with, pipe2};
use crate::text::{append_decimal, decimal};
use vstd::prelude::*;

verus! {

/// A goal as the goal manager proposes it.
#[derive(Debug, Clone, PartialEq, Eq)]
pub struct Goal {
    pub goal_id: String,
    pub description: String,
    pub priority: u64,
    pub supporting_values: Vec<String>,
    pub status: GoalStatus,
    pub parent_goal_id: Option<String>,
}

/// The debug text of a goal status: its name.
pub open spec fn goal_status_text(s: GoalStatus) -> Seq<char> {
    match s {
        GoalStatus::Proposed => "Proposed"@,
        GoalStatus::Active => "Active"@,
        GoalStatus::Suspended => "Suspended"@,
        GoalStatus::Completed => "Completed"@,
        GoalStatus::Failed => "Failed"@,
    }
}

/// The text a goal creation carries: id, description, priority, the supporting
/// values joined by `,`, and the parent id (empty without one), joined by `|`.
pub open spec fn goal_creation_text(
    goal_id: Seq<char>,
    description: Seq<char>,
    priority: u64,
    supporting_values: Seq<Seq<char>>,
    parent_goal_id: Option<Seq<char>>,
) -> Seq<char> {
    goal_id + "|"@ + description + "|"@ + decimal(priority as nat) + "|"@ + join_with(
        supporting_values,
        ","@,
    ) + "|"@ + match parent_goal_id {
        Some(p) => p,
        None => Seq::empty(),
    }
}

/// The debug text of a goal status.
pub fn goal_status_string(s: GoalStatus) -> (r: String)
    ensures
        r@ == goal_status_text(s),
{
    match s {
        GoalStatus::Proposed => String::from_str("Proposed"),
        GoalStatus::Active => String::from_str("Active"),
        GoalStatus::Suspended => String::from_str("Suspended"),
        GoalStatus::Completed => String::from_str("Completed"),
        GoalStatus::Failed => String::from_str("Failed"),
    }
}

/// Creates goals and updates their status, by proposing events.
pub struct GoalManager;

impl GoalManager {
    /// Proposes creating a goal.
    pub fn propose_create(
        goal_id: String,
        description: String,
        priority: u64,
        supporting_values: Vec<String>,
        parent_goal_id: Option<String>,
    ) -> (r: EventPayload)
        ensures
            is_custom_payload(
                r,
                "GoalCreated"@,
                goal_creation_text(
                    goal_id@,
                    description@,
                    priority,
                    supporting_values@.map_values(|v: String| v@),
                    match parent_goal_id {
                        Some(p) => Some(p@),
                        None => None,
                    },
                ),
            ),
    {
        let values = join_texts(&supporting_values, ",");
        let mut t = pipe2(goal_id.as_str(), description.as_str());
        t.append("|");
        append_decimal(&mut t, priority);
        t.append("|");
        t.append(values.as_str());
        t.append("|");
        match &parent_goal_id {
            Some(p) => t.append(p.as_str()),
            None => {},
        }
        proof {
            match parent_goal_id {
                Some(p) => {},
                None => {
                    assert(t@ =~= goal_creation_text(goal_id@, description@, priority,
                        supporting_values@.map_values(|v: String| v@), None));
                },
            }
        }
        custom_payload("GoalCreated", &t)
    }

    /// Proposes changing a goal's status.
    pub fn propose_update_status(goal_id: String, status: GoalStatus) -> (r: EventPayload)
        ensures
            is_custom_payload(r, "GoalStatusUpdated"@, goal_id@ + "|"@ + goal_status_text(status)),
    {
        let s = goal_status_string(status);
        custom_payload("GoalStatusUpdated", &pipe2(goal_id.as_str(), s.as_str()))
    }
}

} // verus!
