//! What a call error or a call cancellation from the server does to the current call: which
//! invitations it withdraws, whether the call is over, which timers are cancelled, whether the
//! ringback tone stops, and what the frontend is told.

use vstd::prelude::*;
use crate::calls::{targets_without, Call, CallId, CallTarget};

verus! {

/// Why the server reports a call error.
#[derive(Debug)]
pub enum CallErrorReason {
    /// None of these targets could be reached.
    TargetsNotFound(Vec<CallTarget>),
    CallActive,
    NotParticipant,
    CallNotFound,
    CallFailure,
    /// A participant's connection failed (the client id); the call update that follows does
    /// the cleanup.
    WebrtcFailure(String),
    AudioFailure(String),
    SignalingFailure(String),
    /// This target cannot be invited by this client.
    NotConferenceLeader(CallTarget),
    /// This target is in the call already.
    AlreadyParticipant(CallTarget),
    /// Only sent as a cancellation, never as an error.
    AutoHangup,
    Other,
}

/// Why the server cancels (part of) a call.
#[derive(Debug, Clone, Copy, PartialEq, Eq, Structural)]
pub enum CallCancelReason {
    AnsweredElsewhere,
    CallerCancelled,
    /// The targets disconnected.
    Disconnected,
    /// The targets rejected the call.
    Rejected,
    /// The call failed for the targets.
    Errored,
}

/// What the frontend is told.
#[derive(Debug, PartialEq, Eq)]
pub enum CallNotice {
    Nothing,
    /// A call error blamed on the targets the message names.
    TargetsError,
    /// A call error blamed on the call as a whole.
    CallError,
    /// A call error blamed on one participant.
    ClientError(String),
    /// The call ended.
    CallEnd,
    /// The call ended because nobody is left.
    ForceCallEnd,
    /// The call's participants changed.
    CallUpdate,
    /// The targets rejected the call.
    CallReject,
}

/// What handling a call error or cancellation asks of the caller, in this order: cancel all
/// the call's unanswered-call timers, clean the call up, drop the ringing incoming call with
/// this id, cancel the timers of the listed targets, stop the ringback tone, tell the frontend.
#[derive(Debug)]
pub struct CallPlan {
    pub cancel_all_timers: bool,
    pub cleanup_call: bool,
    pub remove_incoming: bool,
    pub cancel_timers_for: Vec<CallTarget>,
    pub stop_ringback: bool,
    pub notice: CallNotice,
}

/// The current call is call `id`.
pub open spec fn is_current(current: Option<Call>, id: CallId) -> bool {
    current matches Some(c) && c.call_id == id
}

/// `after` is `before` with the invitations of `ts` withdrawn.
pub open spec fn withdrew(before: Option<Call>, after: Option<Call>, ts: Seq<CallTarget>) -> bool {
    match (before, after) {
        (Some(b), Some(a)) => {
            &&& a.invited_targets@ == targets_without(b.invited_targets@, ts)
            &&& a.joined_participants == b.joined_participants
            &&& a.call_id == b.call_id
            &&& a.conference_leader == b.conference_leader
        },
        _ => false,
    }
}

/// Nobody is invited and nobody has joined.
pub open spec fn left_empty(c: Option<Call>) -> bool {
    c matches Some(a) && a.invited_targets@.len() == 0 && a.joined_participants@.len() == 0
}

/// Nobody is invited any more.
pub open spec fn left_uninvited(c: Option<Call>) -> bool {
    c matches Some(a) && a.invited_targets@.len() == 0
}

/// A plan that does nothing.
pub open spec fn idle(r: CallPlan) -> bool {
    &&& !r.cancel_all_timers
    &&& !r.cleanup_call
    &&& !r.remove_incoming
    &&& r.cancel_timers_for@.len() == 0
    &&& !r.stop_ringback
    &&& r.notice == CallNotice::Nothing
}

/// The call as a whole is gone: clean it up, drop it from the ringing calls, cancel all its
/// timers.
pub open spec fn ends_whole_call(r: CallPlan, notice: CallNotice) -> bool {
    &&& r.cancel_all_timers
    &&& r.cleanup_call
    &&& r.remove_incoming
    &&& r.cancel_timers_for@.len() == 0
    &&& !r.stop_ringback
    &&& r.notice == notice
}

/// After some targets left the call `after`: a call that is left empty is over (all its
/// timers cancelled, cleaned up); the timers of the targets are cancelled when the call goes
/// on, or always where `always_cancel`; the ringback stops when the call goes on with nobody
/// invited.
pub open spec fn after_withdrawal(
    r: CallPlan,
    after: Option<Call>,
    ts: Seq<CallTarget>,
    always_cancel: bool,
    notice: CallNotice,
) -> bool {
    &&& r.cancel_all_timers == left_empty(after)
    &&& r.cleanup_call == left_empty(after)
    &&& !r.remove_incoming
    &&& r.cancel_timers_for@ == (if always_cancel || !left_empty(after) {
        ts
    } else {
        Seq::empty()
    })
    &&& r.stop_ringback == (!left_empty(after) && left_uninvited(after))
    &&& r.notice == notice
}

fn idle_plan() -> (r: CallPlan)
    ensures
        idle(r),
{
    CallPlan {
        cancel_all_timers: false,
        cleanup_call: false,
        remove_incoming: false,
        cancel_timers_for: Vec::new(),
        stop_ringback: false,
        notice: CallNotice::Nothing,
    }
}

fn whole_call_plan(notice: CallNotice) -> (r: CallPlan)
    ensures
        ends_whole_call(r, notice),
{
    CallPlan {
        cancel_all_timers: true,
        cleanup_call: true,
        remove_incoming: true,
        cancel_timers_for: Vec::new(),
        stop_ringback: false,
        notice,
    }
}

fn copy_targets(ts: &Vec<CallTarget>) -> (r: Vec<CallTarget>)
    ensures
        r@ == ts@,
{
    let mut out: Vec<CallTarget> = Vec::new();
    let mut i: usize = 0;
    while i < ts.len()
        invariant
            i <= ts.len(),
            out@ == ts@.take(i as int),
        decreases ts.len() - i,
    {
        out.push(ts[i].duplicate());
        assert(out@ =~= ts@.take(i + 1));
        i += 1;
    }
    assert(ts@.take(ts@.len() as int) =~= ts@);
    out
}

/// Withdraws the invitations of `targets` from the current call if it is call `call_id`, and
/// reports whether the call is then empty and whether anybody is still invited.
fn withdraw(current: &mut Option<Call>, call_id: CallId, targets: &Vec<CallTarget>) -> (r: Option<
    (bool, bool),
>)
    ensures
        is_current(*old(current), call_id) ==> withdrew(*old(current), *final(current), targets@)
            && r == Some((left_empty(*final(current)), left_uninvited(*final(current)))),
        !is_current(*old(current), call_id) ==> *final(current) == *old(current) && r is None,
{
    match current {
        Some(c) => {
            if c.call_id == call_id {
                c.remove_invited_targets(targets);
                Some((c.is_empty(), c.invited_targets.len() == 0))
            } else {
                None
            }
        },
        None => None,
    }
}

fn plan_after_withdrawal(
    empty: bool,
    uninvited: bool,
    targets: &Vec<CallTarget>,
    always_cancel: bool,
    notice: CallNotice,
) -> (r: CallPlan)
    ensures
        r.cancel_all_timers == empty,
        r.cleanup_call == empty,
        !r.remove_incoming,
        r.cancel_timers_for@ == (if always_cancel || !empty {
            targets@
        } else {
            Seq::empty()
        }),
        r.stop_ringback == (!empty && uninvited),
        r.notice == notice,
{
    CallPlan {
        cancel_all_timers: empty,
        cleanup_call: empty,
        remove_incoming: false,
        cancel_timers_for: if always_cancel || !empty {
            copy_targets(targets)
        } else {
            Vec::new()
        },
        stop_ringback: !empty && uninvited,
        notice,
    }
}

/// Handles a call error for call `call_id`, with `current` the current call.
///
/// Unreachable targets are withdrawn, as is a target this client may not invite or that is
/// in the call already; a call left empty is over. An error of the call as a whole ends it
/// outright. A participant's failure is only reported. Errors for another call than the
/// current one change nothing, except errors of the call as a whole.
pub fn on_call_error(current: &mut Option<Call>, call_id: CallId, reason: &CallErrorReason) -> (r:
    CallPlan)
    ensures
        match reason {
            CallErrorReason::TargetsNotFound(ts) => if is_current(*old(current), call_id) {
                withdrew(*old(current), *final(current), ts@) && after_withdrawal(
                    r,
                    *final(current),
                    ts@,
                    false,
                    CallNotice::TargetsError,
                )
            } else {
                *final(current) == *old(current) && idle(r)
            },
            CallErrorReason::NotConferenceLeader(t) | CallErrorReason::AlreadyParticipant(t) =>
                if is_current(*old(current), call_id) {
                withdrew(*old(current), *final(current), seq![*t]) && after_withdrawal(
                    r,
                    *final(current),
                    seq![*t],
                    true,
                    CallNotice::TargetsError,
                )
            } else {
                *final(current) == *old(current) && idle(r)
            },
            CallErrorReason::WebrtcFailure(id)
            | CallErrorReason::AudioFailure(id)
            | CallErrorReason::SignalingFailure(id) => *final(current) == *old(current) && if is_current(
                *old(current),
                call_id,
            ) {
                &&& !r.cancel_all_timers
                &&& !r.cleanup_call
                &&& !r.remove_incoming
                &&& r.cancel_timers_for@.len() == 0
                &&& !r.stop_ringback
                &&& r.notice == CallNotice::ClientError(*id)
            } else {
                idle(r)
            },
            CallErrorReason::AutoHangup => *final(current) == *old(current) && idle(r),
            _ => *final(current) == *old(current) && ends_whole_call(r, CallNotice::CallError),
        },
{
    match reason {
        CallErrorReason::TargetsNotFound(ts) => match withdraw(current, call_id, ts) {
            Some((empty, uninvited)) => plan_after_withdrawal(
                empty,
                uninvited,
                ts,
                false,
                CallNotice::TargetsError,
            ),
            None => idle_plan(),
        },
        CallErrorReason::NotConferenceLeader(t) | CallErrorReason::AlreadyParticipant(t) => {
            let mut one: Vec<CallTarget> = Vec::new();
            one.push(t.duplicate());
            assert(one@ =~= seq![*t]);
            match withdraw(current, call_id, &one) {
                Some((empty, uninvited)) => plan_after_withdrawal(
                    empty,
                    uninvited,
                    &one,
                    true,
                    CallNotice::TargetsError,
                ),
                None => idle_plan(),
            }
        },
        CallErrorReason::WebrtcFailure(id)
        | CallErrorReason::AudioFailure(id)
        | CallErrorReason::SignalingFailure(id) => {
            let known = match current {
                Some(c) => c.call_id == call_id,
                None => false,
            };
            if known {
                CallPlan {
                    cancel_all_timers: false,
                    cleanup_call: false,
                    remove_incoming: false,
                    cancel_timers_for: Vec::new(),
                    stop_ringback: false,
                    notice: CallNotice::ClientError(id.clone()),
                }
            } else {
                idle_plan()
            }
        },
        CallErrorReason::AutoHangup => idle_plan(),
        _ => whole_call_plan(CallNotice::CallError),
    }
}

/// Handles the cancellation of call `call_id` for `targets`, with `current` the current call.
///
/// A call answered elsewhere or cancelled by its caller ends outright. Targets that
/// disconnected, rejected or failed are withdrawn; a call left empty is over. When targets
/// disconnected from a call that goes on, the frontend gets the updated call; a call that
/// disconnects to nobody is force-ended. Cancellations of another call than the current one
/// change nothing, except those that end the call outright.
pub fn on_call_cancelled(
    current: &mut Option<Call>,
    call_id: CallId,
    targets: &Vec<CallTarget>,
    reason: CallCancelReason,
) -> (r: CallPlan)
    ensures
        match reason {
            CallCancelReason::AnsweredElsewhere | CallCancelReason::CallerCancelled =>
                *final(current) == *old(current) && ends_whole_call(r, CallNotice::CallEnd),
            _ => if is_current(*old(current), call_id) {
                withdrew(*old(current), *final(current), targets@) && match reason {
                    CallCancelReason::Disconnected => after_withdrawal(
                        r,
                        *final(current),
                        targets@,
                        false,
                        if left_empty(*final(current)) {
                            CallNotice::ForceCallEnd
                        } else {
                            CallNotice::CallUpdate
                        },
                    ),
                    CallCancelReason::Rejected => after_withdrawal(
                        r,
                        *final(current),
                        targets@,
                        true,
                        CallNotice::CallReject,
                    ),
                    _ => after_withdrawal(
                        r,
                        *final(current),
                        targets@,
                        true,
                        CallNotice::TargetsError,
                    ),
                }
            } else {
                *final(current) == *old(current) && idle(r)
            },
        },
{
    match reason {
        CallCancelReason::AnsweredElsewhere | CallCancelReason::CallerCancelled => whole_call_plan(
            CallNotice::CallEnd,
        ),
        _ => match withdraw(current, call_id, targets) {
            Some((empty, uninvited)) => match reason {
                CallCancelReason::Disconnected => plan_after_withdrawal(
                    empty,
                    uninvited,
                    targets,
                    false,
                    if empty {
                        CallNotice::ForceCallEnd
                    } else {
                        CallNotice::CallUpdate
                    },
                ),
                CallCancelReason::Rejected => plan_after_withdrawal(
                    empty,
                    uninvited,
                    targets,
                    true,
                    CallNotice::CallReject,
                ),
                _ => plan_after_withdrawal(
                    empty,
                    uninvited,
                    targets,
                    true,
                    CallNotice::TargetsError,
                ),
            },
            None => idle_plan(),
        },
    }
}

/// Why the signaling server reports an error.
#[derive(Debug)]
pub enum ServerErrorReason {
    MalformedMessage,
    Internal(String),
    UnexpectedMessage(String),
    RateLimited { retry_after_secs: u64 },
    PeerConnection,
    ClientNotFound,
}

/// What the frontend is told of a server error.
#[derive(Debug, PartialEq, Eq)]
pub enum ServerErrorNotice {
    /// The server's error, shown for `timeout_ms` or until dismissed.
    ServerError { timeout_ms: Option<u64> },
    /// The client has to wait before calling again.
    RateLimited { retry_after_secs: u64 },
    /// The named client is not connected (empty when the server named none).
    ClientNotFound(String),
}

/// How a server error is handled: the call it ends, if any, and what the frontend is told.
#[derive(Debug)]
pub struct ServerErrorPlan {
    pub end_call: Option<CallId>,
    pub notice: ServerErrorNotice,
}

/// How long a malformed-message error stays on screen, in milliseconds.
pub const MALFORMED_MESSAGE_NOTICE_MS: u64 = 5000;

/// Handles an error from the signaling server about client `client_id` and call `call_id`.
///
/// Being rate limited ends the named call (as a force-ended call); a missing client is
/// reported by its id; everything else is shown as a server error, a malformed message only
/// briefly.
pub fn on_server_error(
    reason: &ServerErrorReason,
    client_id: Option<String>,
    call_id: Option<CallId>,
) -> (r: ServerErrorPlan)
    ensures
        match reason {
            ServerErrorReason::RateLimited { retry_after_secs } => r.end_call == call_id
                && r.notice == ServerErrorNotice::RateLimited {
                retry_after_secs: *retry_after_secs,
            },
            ServerErrorReason::ClientNotFound => r.end_call is None && (
            r.notice matches ServerErrorNotice::ClientNotFound(id) && id@ == match client_id {
                Some(c) => c@,
                None => Seq::<char>::empty(),
            }),
            ServerErrorReason::MalformedMessage => r.end_call is None && r.notice
                == ServerErrorNotice::ServerError { timeout_ms: Some(MALFORMED_MESSAGE_NOTICE_MS) },
            _ => r.end_call is None && r.notice == ServerErrorNotice::ServerError {
                timeout_ms: None,
            },
        },
{
    match reason {
        ServerErrorReason::RateLimited { retry_after_secs } => ServerErrorPlan {
            end_call: call_id,
            notice: ServerErrorNotice::RateLimited { retry_after_secs: *retry_after_secs },
        },
        ServerErrorReason::ClientNotFound => ServerErrorPlan {
            end_call: None,
            notice: ServerErrorNotice::ClientNotFound(
                match client_id {
                    Some(id) => id,
                    None => String::new(),
                },
            ),
        },
        ServerErrorReason::MalformedMessage => ServerErrorPlan {
            end_call: None,
            notice: ServerErrorNotice::ServerError { timeout_ms: Some(MALFORMED_MESSAGE_NOTICE_MS) },
        },
        _ => ServerErrorPlan {
            end_call: None,
            notice: ServerErrorNotice::ServerError { timeout_ms: None },
        },
    }
}

} // verus!
