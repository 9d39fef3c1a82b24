use vacs::call_events::{
    on_call_cancelled, on_call_error, on_server_error, CallCancelReason, CallErrorReason, CallNotice,
    ServerErrorNotice, ServerErrorReason, MALFORMED_MESSAGE_NOTICE_MS,
};
use vacs::calls::{Call, CallTarget};

fn target(id: &str) -> CallTarget {
    CallTarget::Client(id.to_string())
}

fn call(id: u128, invited: &[&str], joined: &[&str]) -> Option<Call> {
    Some(Call {
        call_id: id,
        invited_targets: invited.iter().map(|t| target(t)).collect(),
        joined_participants: joined.iter().map(|c| (c.to_string(), target(c))).collect(),
        conference_leader: None,
    })
}

fn invited(current: &Option<Call>) -> Vec<CallTarget> {
    current.as_ref().unwrap().invited_targets.iter().map(|t| match t {
        CallTarget::Client(c) => CallTarget::Client(c.clone()),
        CallTarget::Position(p) => CallTarget::Position(p.clone()),
        CallTarget::Station(s) => CallTarget::Station(s.clone()),
    }).collect()
}

#[test]
fn unreachable_targets_are_withdrawn_and_the_call_goes_on() {
    let mut current = call(1, &["b", "c"], &["a"]);
    let plan = on_call_error(&mut current, 1, &CallErrorReason::TargetsNotFound(vec![target("b")]));
    assert_eq!(invited(&current), vec![target("c")]);
    assert!(!plan.cleanup_call && !plan.cancel_all_timers && !plan.remove_incoming);
    assert_eq!(plan.cancel_timers_for, vec![target("b")]);
    assert!(!plan.stop_ringback);
    assert_eq!(plan.notice, CallNotice::TargetsError);
}

#[test]
fn the_last_unreachable_target_stops_the_ringback() {
    let mut current = call(1, &["b"], &["a"]);
    let plan = on_call_error(&mut current, 1, &CallErrorReason::TargetsNotFound(vec![target("b")]));
    assert!(invited(&current).is_empty());
    assert!(!plan.cleanup_call);
    assert!(plan.stop_ringback);
}

#[test]
fn a_call_left_empty_is_over() {
    let mut current = call(1, &["b"], &[]);
    let plan = on_call_error(&mut current, 1, &CallErrorReason::TargetsNotFound(vec![target("b")]));
    assert!(plan.cleanup_call && plan.cancel_all_timers);
    assert!(plan.cancel_timers_for.is_empty());
    assert!(!plan.stop_ringback);

    let mut current = call(1, &["b"], &[]);
    let plan = on_call_error(&mut current, 1, &CallErrorReason::AlreadyParticipant(target("b")));
    assert!(plan.cleanup_call && plan.cancel_all_timers);
    assert_eq!(plan.cancel_timers_for, vec![target("b")]);
}

#[test]
fn errors_of_the_whole_call_end_it_even_when_it_is_not_current() {
    let mut current = call(2, &["b"], &["a"]);
    let plan = on_call_error(&mut current, 1, &CallErrorReason::CallFailure);
    assert!(plan.cleanup_call && plan.remove_incoming && plan.cancel_all_timers);
    assert_eq!(plan.notice, CallNotice::CallError);
    assert_eq!(invited(&current), vec![target("b")]);
}

#[test]
fn a_participant_failure_is_only_reported() {
    let mut current = call(1, &[], &["a", "b"]);
    let plan = on_call_error(&mut current, 1, &CallErrorReason::WebrtcFailure("b".to_string()));
    assert!(!plan.cleanup_call && !plan.cancel_all_timers);
    assert_eq!(plan.notice, CallNotice::ClientError("b".to_string()));

    let mut none: Option<Call> = None;
    let plan = on_call_error(&mut none, 1, &CallErrorReason::AudioFailure("b".to_string()));
    assert_eq!(plan.notice, CallNotice::Nothing);
}

#[test]
fn errors_for_another_call_change_nothing() {
    let mut current = call(2, &["b"], &["a"]);
    let plan = on_call_error(&mut current, 1, &CallErrorReason::NotConferenceLeader(target("b")));
    assert_eq!(invited(&current), vec![target("b")]);
    assert_eq!(plan.notice, CallNotice::Nothing);
    let plan = on_call_error(&mut current, 2, &CallErrorReason::AutoHangup);
    assert_eq!(plan.notice, CallNotice::Nothing);
}

#[test]
fn cancellations_end_or_trim_the_call() {
    let mut current = call(1, &["b"], &["a"]);
    let plan = on_call_cancelled(&mut current, 1, &vec![], CallCancelReason::AnsweredElsewhere);
    assert!(plan.cleanup_call && plan.remove_incoming && plan.cancel_all_timers);
    assert_eq!(plan.notice, CallNotice::CallEnd);

    let mut current = call(1, &["b", "c"], &["a"]);
    let plan = on_call_cancelled(&mut current, 1, &vec![target("b")], CallCancelReason::Disconnected);
    assert_eq!(plan.notice, CallNotice::CallUpdate);
    assert_eq!(plan.cancel_timers_for, vec![target("b")]);

    let mut current = call(1, &["b"], &[]);
    let plan = on_call_cancelled(&mut current, 1, &vec![target("b")], CallCancelReason::Disconnected);
    assert_eq!(plan.notice, CallNotice::ForceCallEnd);
    assert!(plan.cleanup_call);

    let mut current = call(1, &["b"], &["a"]);
    let plan = on_call_cancelled(&mut current, 1, &vec![target("b")], CallCancelReason::Rejected);
    assert_eq!(plan.notice, CallNotice::CallReject);
    assert!(plan.stop_ringback);

    let mut current = call(1, &["b"], &[]);
    let plan = on_call_cancelled(&mut current, 1, &vec![target("b")], CallCancelReason::Errored);
    assert_eq!(plan.notice, CallNotice::TargetsError);
    assert!(plan.cleanup_call);
    assert_eq!(plan.cancel_timers_for, vec![target("b")]);
}

#[test]
fn server_errors_are_shown_and_rate_limits_end_the_call() {
    let plan = on_server_error(&ServerErrorReason::RateLimited { retry_after_secs: 30 }, None, Some(4));
    assert_eq!(plan.end_call, Some(4));
    assert_eq!(plan.notice, ServerErrorNotice::RateLimited { retry_after_secs: 30 });

    let plan = on_server_error(&ServerErrorReason::MalformedMessage, None, Some(4));
    assert_eq!(plan.end_call, None);
    assert_eq!(plan.notice, ServerErrorNotice::ServerError { timeout_ms: Some(MALFORMED_MESSAGE_NOTICE_MS) });

    let plan = on_server_error(&ServerErrorReason::Internal("boom".to_string()), None, None);
    assert_eq!(plan.notice, ServerErrorNotice::ServerError { timeout_ms: None });

    let plan = on_server_error(&ServerErrorReason::ClientNotFound, Some("c1".to_string()), None);
    assert_eq!(plan.notice, ServerErrorNotice::ClientNotFound("c1".to_string()));
    let plan = on_server_error(&ServerErrorReason::ClientNotFound, None, None);
    assert_eq!(plan.notice, ServerErrorNotice::ClientNotFound(String::new()));
}
