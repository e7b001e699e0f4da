//! Decisions of the user-input consumer after a failed command.
use vstd::prelude::*;

verus! {

/// Where a user-input command failed: preparing the session, or having the
/// input admitted.
#[derive(Debug, Clone, Copy, PartialEq, Eq, Structural)]
pub enum SteerStage {
    Prepare,
    Admit,
}

/// What a command asks of the session.
#[derive(Debug, Clone, Copy, PartialEq, Eq, Structural)]
pub enum SteerKind {
    Enqueue,
    TakeBack,
    Dispatch,
    Refresh,
}

/// Whether a failed command was certainly not taken: an enqueue that was
/// never admitted (no generation yet), or an error code in -32602..=-32600
/// (invalid request or parameters, unknown method).
pub fn is_rejected(kind: SteerKind, has_generation: bool, error_code: i64) -> (r: bool)
    ensures
        r == ((kind == SteerKind::Enqueue && !has_generation) || (-32602 <= error_code && error_code <= -32600)),
{
    (kind == SteerKind::Enqueue && !has_generation) || (-32602 <= error_code && error_code <= -32600)
}

/// Message key of the notice for a failure: an unavailable session when
/// preparing failed and the input was not taken, a rejected input, or an
/// input whose fate is unknown.
pub fn failure_notice_key(stage: SteerStage, rejected: bool) -> (r: &'static str)
    ensures
        r@ == if stage == SteerStage::Prepare && rejected { "steer-session-unavailable"@ }
            else if rejected { "steer-input-rejected"@ } else { "steer-input-uncertain"@ },
{
    if rejected {
        match stage {
            SteerStage::Prepare => "steer-session-unavailable",
            SteerStage::Admit => "steer-input-rejected",
        }
    } else {
        "steer-input-uncertain"
    }
}

/// What the consumer does after a command failed.
#[derive(Debug, Clone, Copy, PartialEq, Eq, Structural)]
pub struct FailurePlan {
    /// Show a notice (once per command, never for refreshes).
    pub notify: bool,
    /// Try the command again at the next reconcile tick.
    pub retry: bool,
}

/// Plans the reaction to a failure: notify the first time a non-refresh
/// command fails; retry when the command was not rejected and the
/// conversation was not reset since it was issued.
pub fn plan_failure(kind: SteerKind, rejected: bool, already_warned: bool, command_epoch: u64, current_epoch: u64) -> (r: FailurePlan)
    ensures
        r.notify == (kind != SteerKind::Refresh && !already_warned),
        r.retry == (!rejected && command_epoch == current_epoch),
{
    FailurePlan {
        notify: kind != SteerKind::Refresh && !already_warned,
        retry: !rejected && command_epoch == current_epoch,
    }
}

/// Error code of a command whose receipt did not come in time.
pub const RECEIPT_TIMEOUT_CODE: i64 = -32603;

/// Whether an enqueue must first open a session: it has none yet.
pub fn needs_session(kind: SteerKind, session_id: &str) -> (r: bool)
    ensures
        r == (kind == SteerKind::Enqueue && session_id@.len() == 0),
{
    kind == SteerKind::Enqueue && session_id.is_empty()
}

/// Whether a failed enqueue that was never admitted and has no session is
/// bound to the active session before it is marked rejected.
pub fn rebind_before_reject(kind: SteerKind, has_generation: bool, session_id: &str) -> (r: bool)
    ensures
        r == (kind == SteerKind::Enqueue && !has_generation && session_id@.len() == 0),
{
    kind == SteerKind::Enqueue && !has_generation && session_id.is_empty()
}

/// The error of a command whose session or epoch is no longer the active
/// one: -32603 (outcome unknown) once it was admitted, -32602 (certainly not
/// taken) before; none while both still match.
pub fn admission_error(active_session: &str, current_epoch: u64, command_session: &str, command_epoch: u64, has_generation: bool) -> (r: Option<i64>)
    ensures
        r == if active_session@ != command_session@ || current_epoch != command_epoch {
            Some(if has_generation { -32603i64 } else { -32602i64 })
        } else {
            None::<i64>
        },
{
    if !crate::text::str_eq(active_session, command_session) || current_epoch != command_epoch {
        Some(if has_generation { -32603 } else { -32602 })
    } else {
        None
    }
}

/// Whether the generation cached for the session can be used: always but
/// for refreshes, which fetch a fresh snapshot.
pub fn use_cached_generation(kind: SteerKind, cached: bool) -> (r: bool)
    ensures
        r == (cached && kind != SteerKind::Refresh),
{
    cached && kind != SteerKind::Refresh
}

/// The generation a command is sent with: its own when it has one and it is
/// still the current one, the current one when it has none, and none (the
/// command is dropped, its outcome left unknown) when the session's instance
/// changed since it was bound.
pub fn generation_to_send(command_generation: &Option<String>, current: &String) -> (r: Option<String>)
    ensures
        match command_generation {
            Some(g) => if g@ == current@ { r matches Some(x) && x@ == g@ } else { r is None },
            None => r matches Some(x) && x@ == current@,
        },
{
    match command_generation {
        Some(g) => if crate::text::str_eq(g.as_str(), current.as_str()) {
            Some(crate::profiles::clone_string(g))
        } else {
            None
        },
        None => Some(crate::profiles::clone_string(current)),
    }
}

/// Whether the reconcile tick issues a refresh: there is an active session
/// and steering is on.
pub fn should_refresh(active_session: &str, enabled: bool) -> (r: bool)
    ensures
        r == (active_session@.len() > 0 && enabled),
{
    !active_session.is_empty() && enabled
}

} // verus!
