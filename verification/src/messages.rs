//! The log messages the agent produces, with their exact contents.

use vstd::prelude::*;
use crate::engine::UpdateOutcome;

verus! {

/// The message recorded when an update was installed: it names the
/// binary, the version the process was built as, and the new version.
pub open spec fn success_message_spec(
    binary: Seq<char>,
    old_version: Seq<char>,
    new_version: Seq<char>,
) -> Seq<char> {
    "Updated '"@ + binary + "' from "@ + old_version + " to "@ + new_version
}

/// The message recorded when the release source holds nothing newer.
pub open spec fn no_change_message_spec(binary: Seq<char>, version: Seq<char>) -> Seq<char> {
    "No change: '"@ + binary + "' is already at "@ + version
}

/// The message recorded when every allowed call failed.
pub open spec fn failure_message_spec(reason: Seq<char>) -> Seq<char> {
    "Update failed: "@ + reason
}

/// The message an update outcome produces.
pub open spec fn outcome_message_spec(
    binary: Seq<char>,
    current_version: Seq<char>,
    outcome: UpdateOutcome,
) -> Seq<char> {
    match outcome {
        UpdateOutcome::Updated(v) => success_message_spec(binary, current_version, v@),
        UpdateOutcome::NoChange => no_change_message_spec(binary, current_version),
        UpdateOutcome::Failed(e) => failure_message_spec(e@),
    }
}

/// Renders the log message for one update outcome.
pub fn outcome_message(binary: &str, current_version: &str, outcome: &UpdateOutcome) -> (m: String)
    ensures
        m@ == outcome_message_spec(binary@, current_version@, *outcome),
{
    match outcome {
        UpdateOutcome::Updated(v) => {
            let mut m = String::from_str("Updated '");
            m.append(binary);
            m.append("' from ");
            m.append(current_version);
            m.append(" to ");
            m.append(v.as_str());
            proof {
                assert(m@ =~= success_message_spec(binary@, current_version@, v@));
            }
            m
        },
        UpdateOutcome::NoChange => {
            let mut m = String::from_str("No change: '");
            m.append(binary);
            m.append("' is already at ");
            m.append(current_version);
            proof {
                assert(m@ =~= no_change_message_spec(binary@, current_version@));
            }
            m
        },
        UpdateOutcome::Failed(e) => {
            let mut m = String::from_str("Update failed: ");
            m.append(e.as_str());
            proof {
                assert(m@ =~= failure_message_spec(e@));
            }
            m
        },
    }
}

/// The message recorded once on the transition to offline.
pub open spec fn offline_message_spec() -> Seq<char> {
    "No network access, caching logs locally"@
}

/// Renders the offline transition message.
pub fn offline_message() -> (m: String)
    ensures
        m@ == offline_message_spec(),
{
    String::from_str("No network access, caching logs locally")
}

} // verus!
