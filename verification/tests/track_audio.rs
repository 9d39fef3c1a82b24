use vacs::radio::{RadioState, TransmissionState};
use vacs::track_audio::{
    StationChange, StationState, TrackAudioState, TransmitOutcome, TRANSMIT_FAILURE_THRESHOLD,
    UNKNOWN_FREQUENCY_HZ,
};

fn voice_connected_state() -> TrackAudioState {
    let mut state = TrackAudioState::new();
    state.connected = true;
    state.voice_connected = true;
    state
}

fn station_state(frequency: Option<u64>, available: bool) -> StationState {
    StationState {
        callsign: None,
        frequency,
        rx: None,
        tx: None,
        xc: None,
        xca: None,
        headset: None,
        is_output_muted: None,
        is_available: available,
    }
}

#[test]
fn clear_resets_ptt_latch() {
    let mut state = TrackAudioState::new();
    state.ptt_active = true;
    state.clear();
    assert!(!state.ptt_active);
}

#[test]
fn clear_resets_transmit_failure_streak() {
    let mut state = voice_connected_state();
    state.transmit_failures = TRANSMIT_FAILURE_THRESHOLD;
    state.clear();
    assert_eq!(state.transmit_failures, 0);
}

#[test]
fn radio_state_reports_error_only_once_failures_reach_threshold() {
    let mut state = voice_connected_state();
    assert_eq!(state.radio_state(), RadioState::VoiceConnected);

    state.transmit_failures = TRANSMIT_FAILURE_THRESHOLD - 1;
    assert_eq!(state.radio_state(), RadioState::VoiceConnected);

    state.transmit_failures = TRANSMIT_FAILURE_THRESHOLD;
    assert_eq!(state.radio_state(), RadioState::Error);
}

#[test]
fn radio_state_recovers_when_failure_streak_is_reset() {
    let mut state = voice_connected_state();
    state.transmit_failures = TRANSMIT_FAILURE_THRESHOLD;
    assert_eq!(state.radio_state(), RadioState::Error);

    state.transmit_failures = 0;
    assert_eq!(state.radio_state(), RadioState::VoiceConnected);
}

#[test]
fn voice_connecting_resets_the_transmit_failure_streak() {
    let mut state = voice_connected_state();
    state.voice_connected = false;
    state.transmit_failures = TRANSMIT_FAILURE_THRESHOLD * 4;

    state.apply_voice_connected(true);

    assert_eq!(state.transmit_failures, 0);
    assert_eq!(state.radio_state(), RadioState::VoiceConnected);
}

#[test]
fn failure_streak_is_ignored_while_voice_is_disconnected() {
    let mut state = voice_connected_state();
    state.voice_connected = false;
    state.transmit_failures = TRANSMIT_FAILURE_THRESHOLD;
    assert_eq!(state.radio_state(), RadioState::Connected);
}

#[test]
fn disconnected_takes_precedence_over_failure_streak() {
    let mut state = TrackAudioState::new();
    state.transmit_failures = TRANSMIT_FAILURE_THRESHOLD;
    assert_eq!(state.radio_state(), RadioState::Disconnected);
}

#[test]
fn tx_beats_rx_beats_monitoring() {
    let mut state = voice_connected_state();
    let (station, _) = state.add_station("LOWW_TWR".to_string(), 119_400_000);
    assert_eq!(station.callsign.as_deref(), Some("LOWW_TWR"));
    assert_eq!(state.radio_state(), RadioState::VoiceConnected);

    let mut rx = station_state(Some(119_400_000), true);
    rx.rx = Some(true);
    let (change, reported) = state.update_station(&rx);
    assert!(matches!(change, StationChange::Updated(ref s) if s.rx && s.callsign.as_deref() == Some("LOWW_TWR")));
    assert_eq!(reported, Some(RadioState::RxIdle));

    assert_eq!(state.set_receiving(119_400_000, true), RadioState::RxActive);
    assert_eq!(state.set_transmitting(true), RadioState::TxActive);
    assert_eq!(state.set_transmitting(false), RadioState::RxActive);

    // RX switched off stops reception on the frequency.
    rx.rx = Some(false);
    let (_, reported) = state.update_station(&rx);
    assert_eq!(reported, Some(RadioState::VoiceConnected));
}

#[test]
fn unavailable_stations_are_removed_and_unknown_ones_added() {
    let mut state = voice_connected_state();
    let (change, _) = state.update_station(&station_state(Some(121_500_000), true));
    match change {
        StationChange::Added(s) => {
            assert_eq!(s.frequency, 121_500_000);
            assert!(s.headset);
            assert!(!s.rx);
        }
        _ => panic!("expected an added station"),
    }
    assert_eq!(state.headset_for_frequency(121_500_000), Some(true));

    state.set_receiving(121_500_000, true);
    let (change, _) = state.update_station(&station_state(Some(121_500_000), false));
    assert!(matches!(change, StationChange::Removed(121_500_000)));
    assert_eq!(state.headset_for_frequency(121_500_000), None);
    assert!(state.receiving.is_empty());

    let (change, reported) = state.update_station(&station_state(None, true));
    assert!(matches!(change, StationChange::Ignored));
    assert_eq!(reported, None);
}

#[test]
fn sync_keeps_available_stations_and_drops_stale_reception() {
    let mut state = voice_connected_state();
    state.set_receiving(118_000_000, true);
    state.set_receiving(119_000_000, true);
    let list = vec![
        station_state(Some(118_000_000), true),
        station_state(Some(120_000_000), false),
        station_state(None, true),
    ];
    let (synced, reported) = state.sync_stations(&list);
    assert_eq!(synced.len(), 1);
    assert_eq!(synced[0].frequency, 118_000_000);
    assert_eq!(state.receiving, vec![118_000_000]);
    assert_eq!(reported, RadioState::RxActive);
    assert_eq!(UNKNOWN_FREQUENCY_HZ, 199_998_000);
}

#[test]
fn latch_sends_only_edges() {
    let mut state = voice_connected_state();
    assert_eq!(state.begin_transmit(TransmissionState::Active), Some(true));
    assert_eq!(state.begin_transmit(TransmissionState::Active), None);
    assert_eq!(state.begin_transmit(TransmissionState::Inactive), Some(false));
    assert_eq!(state.begin_transmit(TransmissionState::Inactive), None);
}

#[test]
fn failed_sends_roll_back_the_latch_and_build_a_streak() {
    let mut state = voice_connected_state();
    assert_eq!(state.begin_transmit(TransmissionState::Active), Some(true));
    assert_eq!(state.finish_transmit(true, TransmitOutcome::SendFailed), Some(RadioState::Error));
    assert!(!state.ptt_active);
    assert_eq!(state.transmit_failures, 1);

    assert_eq!(state.begin_transmit(TransmissionState::Active), Some(true));
    assert_eq!(
        state.finish_transmit(true, TransmitOutcome::Timeout),
        Some(RadioState::VoiceConnected)
    );
    assert!(state.ptt_active);
    assert_eq!(state.finish_transmit(true, TransmitOutcome::Timeout), Some(RadioState::Error));
    assert_eq!(state.transmit_failures, TRANSMIT_FAILURE_THRESHOLD);

    assert_eq!(state.finish_transmit(true, TransmitOutcome::Sent), Some(RadioState::VoiceConnected));
    assert_eq!(state.transmit_failures, 0);
    assert_eq!(state.finish_transmit(true, TransmitOutcome::Sent), None);
}

#[test]
fn fast_couple_targets_transmitting_uncoupled_stations() {
    let mut state = voice_connected_state();
    let mut a = station_state(Some(118_100_000), true);
    a.tx = Some(true);
    let mut b = station_state(Some(118_200_000), true);
    b.tx = Some(true);
    b.xca = Some(true);
    let c = station_state(Some(118_300_000), true);
    state.sync_stations(&vec![a, b, c]);
    assert_eq!(state.fast_couple_frequencies(), vec![118_100_000]);
}

#[test]
fn sync_builds_each_station_from_its_last_entry_and_keeps_the_connection() {
    let mut state = voice_connected_state();
    state.transmit_failures = 2;
    let mut first = station_state(Some(118_000_000), true);
    first.rx = Some(false);
    let mut last = station_state(Some(118_000_000), true);
    last.rx = Some(true);
    last.callsign = Some("LOWW_TWR".to_string());
    let (synced, _) = state.sync_stations(&vec![first, last]);
    assert_eq!(synced.len(), 1);
    assert!(synced[0].rx);
    assert_eq!(synced[0].callsign, Some("LOWW_TWR".to_string()));
    assert!(state.connected && state.voice_connected);
    assert_eq!(state.transmit_failures, 2);
}
