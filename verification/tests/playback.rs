use vacs::playback::{clip_duration_ms, radio_is_up, replay_switch, seek_action, ReplaySwitch, Seek};
use vacs::radio::RadioState;

#[test]
fn a_reported_clip_length_wins_unless_it_is_zero() {
    assert_eq!(clip_duration_ms(1_200, Some(1_500)), 1_500);
    assert_eq!(clip_duration_ms(1_200, Some(0)), 1_200);
    assert_eq!(clip_duration_ms(1_200, None), 1_200);
}

#[test]
fn seeking_goes_by_the_sign_of_the_offset() {
    assert_eq!(seek_action(0), None);
    assert_eq!(seek_action(2_500), Some(Seek::Skip { millis: 2_500 }));
    assert_eq!(seek_action(-750), Some(Seek::Rewind { millis: 750 }));
    assert_eq!(seek_action(i64::MIN), Some(Seek::Rewind { millis: 9_223_372_036_854_775_808 }));
}

#[test]
fn the_recorder_starts_only_on_a_radio_that_is_up() {
    assert!(!radio_is_up(RadioState::NotConfigured));
    assert!(!radio_is_up(RadioState::Disconnected));
    assert!(radio_is_up(RadioState::Connected));
    assert!(radio_is_up(RadioState::RxIdle));
    assert!(radio_is_up(RadioState::TxActive));
}

#[test]
fn switching_replay_saves_and_starts_or_stops_the_recorder() {
    assert_eq!(replay_switch(true, true, Some(RadioState::RxIdle)), ReplaySwitch::Unchanged);
    assert_eq!(replay_switch(false, false, None), ReplaySwitch::Unchanged);
    assert_eq!(replay_switch(false, true, Some(RadioState::VoiceConnected)), ReplaySwitch::StartRecorder);
    assert_eq!(replay_switch(false, true, Some(RadioState::Disconnected)), ReplaySwitch::WaitForRadio);
    assert_eq!(replay_switch(false, true, None), ReplaySwitch::WaitForRadio);
    assert_eq!(replay_switch(true, false, Some(RadioState::RxIdle)), ReplaySwitch::StopRecorder);
}
