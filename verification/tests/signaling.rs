use vacs::audio::SourceType;
use vacs::calls::CallTarget;
use vacs::signaling::{
    accept_decision, apply_station_changes, current_update, incoming_update, invitation_decision,
    invite_call_id, offer_targets, remove_client, text_less, upsert_client, AcceptDecision,
    ClientEntry, CurrentUpdate, IncomingUpdate, InvitationDecision, StationChange, StationInfo,
    UnansweredTimers, INCOMING_CALLS_LIMIT,
};

fn target(id: &str) -> CallTarget {
    CallTarget::Client(id.to_string())
}

#[test]
fn invitations_ring_unless_ignored_busy_or_unauthorized() {
    let ignored = vec!["1234".to_string()];
    let own = Some("5678".to_string());
    assert_eq!(
        invitation_decision(&ignored, &"1234".to_string(), &own, 0, false, true),
        InvitationDecision::IgnoredCaller
    );
    assert_eq!(
        invitation_decision(&ignored, &"42".to_string(), &None, 0, false, true),
        InvitationDecision::UnknownClient
    );
    assert_eq!(
        invitation_decision(&ignored, &"42".to_string(), &own, INCOMING_CALLS_LIMIT, false, true),
        InvitationDecision::RejectBusy
    );
    assert_eq!(
        invitation_decision(&ignored, &"42".to_string(), &own, 1, true, true),
        InvitationDecision::Ring(SourceType::PriorityRing)
    );
    assert_eq!(
        invitation_decision(&ignored, &"42".to_string(), &own, 1, true, false),
        InvitationDecision::Ring(SourceType::Ring)
    );
}

#[test]
fn call_updates_end_or_continue_calls() {
    assert_eq!(incoming_update(true, true), IncomingUpdate::Remove);
    assert_eq!(incoming_update(true, false), IncomingUpdate::Update);
    assert_eq!(current_update(true, true, false, false), CurrentUpdate::End);
    assert_eq!(current_update(false, false, true, false), CurrentUpdate::End);
    assert_eq!(current_update(true, false, true, true), CurrentUpdate::StopRinging);
    assert_eq!(current_update(false, false, true, true), CurrentUpdate::CancelJoinedTimers);
}

#[test]
fn the_lower_client_id_offers() {
    assert!(text_less("1000", "1001"));
    assert!(!text_less("1001", "1000"));
    assert!(text_less("100", "1000"));
    assert!(!text_less("1000", "1000"));
    let joined = vec![
        ("0999".to_string(), target("0999")),
        ("2000".to_string(), target("2000")),
    ];
    let offers = offer_targets(&"1000".to_string(), &joined);
    assert_eq!(offers, vec![("2000".to_string(), target("2000"))]);
}

#[test]
fn accepting_picks_the_named_or_first_ringing_call() {
    assert_eq!(accept_decision(None, &vec![], false), AcceptDecision::NothingToAccept);
    assert_eq!(accept_decision(None, &vec![7, 9], false), AcceptDecision::Accept(7));
    assert_eq!(accept_decision(Some(9), &vec![7, 9], false), AcceptDecision::Accept(9));
    assert_eq!(accept_decision(Some(3), &vec![7, 9], false), AcceptDecision::NotIncoming);
    assert_eq!(accept_decision(Some(9), &vec![7, 9], true), AcceptDecision::CallActive);
    assert_eq!(invite_call_id(Some(5), 6), 5);
    assert_eq!(invite_call_id(None, 6), 6);
}

#[test]
fn unanswered_timers_are_cancelled_per_target_and_per_call() {
    let mut timers = UnansweredTimers::new();
    timers.timers = vec![(target("a"), 1), (target("b"), 1), (target("c"), 2)];
    let cancelled = timers.cancel_for_targets(1, &vec![target("a"), target("c")]);
    assert_eq!(cancelled, vec![(target("a"), 1)]);
    assert_eq!(timers.timers, vec![(target("b"), 1)]);
    let all = timers.cancel_all(1);
    assert_eq!(all, vec![(target("b"), 1)]);
    assert!(timers.timers.is_empty());
}

#[test]
fn station_changes_apply_in_order() {
    let own = Some("LOWW_TWR".to_string());
    let mut stations = vec![StationInfo {
        id: "LOWW_GND".to_string(),
        own: false,
    }];
    let changes = vec![
        StationChange::Online {
            station_id: "LOWW_DEL".to_string(),
            position_id: "LOWW_TWR".to_string(),
        },
        StationChange::Handoff {
            station_id: "LOWW_GND".to_string(),
            to_position_id: "LOWW_TWR".to_string(),
        },
        StationChange::Offline {
            station_id: "LOWW_DEL".to_string(),
        },
    ];
    apply_station_changes(&mut stations, &own, &changes);
    assert_eq!(stations.len(), 1);
    assert_eq!(stations[0].id, "LOWW_GND");
    assert!(stations[0].own);
}

#[test]
fn client_list_bookkeeping() {
    let mut clients = vec![
        ClientEntry { id: "1".to_string(), info: 10u32 },
        ClientEntry { id: "2".to_string(), info: 20u32 },
    ];
    upsert_client(&mut clients, ClientEntry { id: "2".to_string(), info: 21 });
    upsert_client(&mut clients, ClientEntry { id: "3".to_string(), info: 30 });
    assert_eq!(clients.iter().map(|c| c.info).collect::<Vec<_>>(), vec![10, 21, 30]);
    remove_client(&mut clients, &"1".to_string());
    assert_eq!(clients.iter().map(|c| c.id.as_str()).collect::<Vec<_>>(), vec!["2", "3"]);
}
