use vacs::webrtc::{has_reconnect_capability, tag_reconnect_capability};
use vacs::webrtc::{plan_negotiation, Negotiation, NegotiationError};
use vacs::webrtc::{
    cleanup_sounds, disconnect_sounds, is_ice_config_expired, relay_decision, PeerState,
    RelayDecision, TeardownSounds, WebrtcCallState, ICE_CONFIG_EXPIRY_LEEWAY_SECS,
};

#[test]
fn ice_config_expires_within_the_leeway() {
    assert!(!is_ice_config_expired(true, Some(0), 1_000_000));
    assert!(!is_ice_config_expired(false, None, 1_000_000));
    assert!(!is_ice_config_expired(false, Some(10_000), 10_000 - ICE_CONFIG_EXPIRY_LEEWAY_SECS - 1));
    assert!(is_ice_config_expired(false, Some(10_000), 10_000 - ICE_CONFIG_EXPIRY_LEEWAY_SECS));
    assert!(is_ice_config_expired(false, Some(100), 0));
}

#[test]
fn relay_reconnects_only_once_and_only_with_support() {
    let fresh = PeerState::new("1".to_string(), true);
    assert_eq!(relay_decision(None, false), RelayDecision::NoPeer);
    assert_eq!(relay_decision(Some(&fresh), false), RelayDecision::Reconnect);
    assert_eq!(relay_decision(Some(&fresh), true), RelayDecision::Degraded);
    let replaced = fresh.clone().with_reconnect();
    assert!(replaced.connected && replaced.reconnected);
    assert_eq!(relay_decision(Some(&replaced), false), RelayDecision::Degraded);
    let old_client = PeerState::new("2".to_string(), false);
    assert_eq!(relay_decision(Some(&old_client), false), RelayDecision::Degraded);
}

#[test]
fn teardown_sounds() {
    assert_eq!(
        disconnect_sounds(true, true, true),
        TeardownSounds { play_call_end: true, detach_input: true }
    );
    assert_eq!(
        disconnect_sounds(false, true, true),
        TeardownSounds { play_call_end: false, detach_input: false }
    );
    let mut peer = PeerState::new("1".to_string(), true);
    peer.has_audio = true;
    assert_eq!(
        cleanup_sounds(true, &peer, true),
        TeardownSounds { play_call_end: false, detach_input: true }
    );
    peer.connected = true;
    assert_eq!(
        cleanup_sounds(true, &peer, true),
        TeardownSounds { play_call_end: true, detach_input: true }
    );
}

#[test]
fn peers_are_kept_once_per_id() {
    let mut call = WebrtcCallState::new(3);
    assert!(call.is_empty());
    assert!(call.add_peer(PeerState::new("1".to_string(), true)).is_ok());
    assert!(call.add_peer(PeerState::new("1".to_string(), false)).is_err());
    assert!(call.is_only_peer(&"1".to_string()));
    assert!(call.add_peer(PeerState::new("2".to_string(), false)).is_ok());
    assert!(!call.is_only_peer(&"1".to_string()));
    assert!(!call.was_connected());
    let removed = call.remove_peer(&"1".to_string()).unwrap();
    assert!(removed.supports_reconnect);
    assert!(!call.has_peer(&"1".to_string()));
    assert!(call.has_peer(&"2".to_string()));
    assert!(call.remove_peer(&"1".to_string()).is_none());
}

#[test]
fn negotiation_needs_the_current_call_and_renewals_go_through_a_relay() {
    assert_eq!(plan_negotiation(None, 1, false, true, false), Err(NegotiationError::NoCallActive));
    assert_eq!(plan_negotiation(Some(2), 1, false, true, false), Err(NegotiationError::CallActive));
    assert_eq!(
        plan_negotiation(Some(1), 1, false, true, false),
        Ok(Negotiation { replacing: false, force_relay: false })
    );
    assert_eq!(
        plan_negotiation(Some(1), 1, true, false, false),
        Ok(Negotiation { replacing: true, force_relay: true })
    );
    assert_eq!(
        plan_negotiation(Some(1), 1, true, true, false),
        Ok(Negotiation { replacing: true, force_relay: false })
    );
    assert_eq!(
        plan_negotiation(Some(1), 1, false, true, true),
        Ok(Negotiation { replacing: false, force_relay: true })
    );
}

#[test]
fn tags_and_detects_reconnect_capability() {
    let sdp = r#"{"type":"offer","sdp":"v=0\r\n"}"#;
    assert!(!has_reconnect_capability(sdp));

    let tagged = tag_reconnect_capability(sdp);
    assert!(has_reconnect_capability(&tagged));

    // The tagged description still reads as before for clients that ignore unknown fields.
    let session: serde_json::Value = serde_json::from_str(&tagged).expect("tagged SDP parses");
    assert_eq!(session["type"], "offer");
    assert_eq!(session["sdp"], "v=0\r\n");
}

#[test]
fn leaves_invalid_sdp_untouched() {
    assert_eq!(tag_reconnect_capability("not-json"), "not-json");
    assert!(!has_reconnect_capability("not-json"));
}

#[test]
fn removing_a_peer_leaves_the_others_as_they_were() {
    let mut call = WebrtcCallState::new(3);
    assert!(call.add_peer(PeerState::new("1".to_string(), true).with_reconnect()).is_ok());
    assert!(call.add_peer(PeerState::new("2".to_string(), false)).is_ok());
    assert!(call.add_peer(PeerState::new("3".to_string(), true).with_reconnect()).is_ok());
    call.remove_peer(&"2".to_string()).unwrap();
    assert_eq!(call.peers.len(), 2);
    assert_eq!(call.peers[0].peer_id, "1");
    assert!(call.peers[0].connected && call.peers[0].reconnected);
    assert_eq!(call.peers[1].peer_id, "3");
    assert!(call.peers[1].connected && call.peers[1].supports_reconnect);
}
