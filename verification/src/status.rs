//! Classification of assistant run statuses.
//!
//! The backend reports one of eight statuses for a run. For the polling loop
//! only three things matter: the run is still going, it failed for good, or it
//! finished and a reply can be fetched. Each failing status also has a fixed
//! sentence shown to the user.

use vstd::prelude::*;

verus! {

/// Status of one assistant run, as the backend reports it.
#[derive(Clone, Copy, Debug, PartialEq, Eq, Structural)]
pub enum RunStatus {
    Queued,
    InProgress,
    Cancelling,
    RequiresAction,
    Cancelled,
    Failed,
    Expired,
    Completed,
}

/// What a reported status means for the polling loop.
#[derive(Clone, Copy, Debug, PartialEq, Eq, Structural)]
pub enum StatusClass {
    /// The run is still being worked on: keep polling.
    NonTerminal,
    /// The run ended without a reply: report a fixed sentence.
    Failure,
    /// The run finished: the newest thread message holds the reply.
    Success,
}

/// Classification table for run statuses. `RequiresAction` counts as a
/// failure: multi-step tool-call flows are not supported here.
pub open spec fn class_of(s: RunStatus) -> StatusClass {
    match s {
        RunStatus::Queued => StatusClass::NonTerminal,
        RunStatus::InProgress => StatusClass::NonTerminal,
        RunStatus::Cancelling => StatusClass::NonTerminal,
        RunStatus::RequiresAction => StatusClass::Failure,
        RunStatus::Cancelled => StatusClass::Failure,
        RunStatus::Failed => StatusClass::Failure,
        RunStatus::Expired => StatusClass::Failure,
        RunStatus::Completed => StatusClass::Success,
    }
}

/// The fixed sentence shown to the user when a run ends in a failing status.
pub open spec fn failure_reply(s: RunStatus) -> Seq<char>
    recommends
        class_of(s) is Failure,
{
    match s {
        RunStatus::RequiresAction => "Action required for OpenAI assistant"@,
        RunStatus::Cancelled => "Run is cancelled"@,
        RunStatus::Failed => "Run is failed"@,
        RunStatus::Expired => "Run is expired"@,
        _ => Seq::<char>::empty(),
    }
}

/// Classifies a reported status, exactly as `class_of` does.
pub fn classify(s: &RunStatus) -> (c: StatusClass)
    ensures
        c == class_of(*s),
{
    match s {
        RunStatus::Queued => StatusClass::NonTerminal,
        RunStatus::InProgress => StatusClass::NonTerminal,
        RunStatus::Cancelling => StatusClass::NonTerminal,
        RunStatus::RequiresAction => StatusClass::Failure,
        RunStatus::Cancelled => StatusClass::Failure,
        RunStatus::Failed => StatusClass::Failure,
        RunStatus::Expired => StatusClass::Failure,
        RunStatus::Completed => StatusClass::Success,
    }
}

/// Produces the fixed user-facing sentence for a failing status.
pub fn failure_text(s: &RunStatus) -> (r: String)
    requires
        class_of(*s) is Failure,
    ensures
        r@ == failure_reply(*s),
{
    match s {
        RunStatus::RequiresAction => "Action required for OpenAI assistant".to_owned(),
        RunStatus::Cancelled => "Run is cancelled".to_owned(),
        RunStatus::Failed => "Run is failed".to_owned(),
        RunStatus::Expired => "Run is expired".to_owned(),
        // Unreachable: the precondition admits failing statuses only.
        _ => String::new(),
    }
}

} // verus!
