use vacs::config::{update_info, update_progress};
use vacs::audio::SourceType;
use vacs::config::call_sound_preview;
use std::time::Duration;
use vacs::config::{
    decoration_correction, max_signaling_reconnect_attempts, migrate_radio_integration,
    restore_plan, should_record_window_state, BackendConfig, BackendEndpoint, BuildProfile,
    CallConfig, ClockMode, ConnectionState, CplMode, Monitor, WindowPosition, WindowSize,
};
use vacs::radio::RadioIntegration;

#[test]
fn only_the_code_exchange_has_its_own_timeout() {
    assert_eq!(BackendEndpoint::ExchangeCode.timeout(), Some(Duration::from_secs(2)));
    assert_eq!(BackendEndpoint::UserInfo.timeout(), None);
}

#[test]
fn endpoint_urls_join_base_and_path() {
    let config = BackendConfig::default_for(BuildProfile::Release);
    assert_eq!(
        config.endpoint_url(&BackendEndpoint::IceConfig),
        "https://vacs.network/webrtc/ice-config"
    );
    assert_eq!(
        BackendConfig::default_for(BuildProfile::Development).endpoint_url(&BackendEndpoint::WsToken),
        "https://dev.vacs.network/ws/token"
    );
    assert_eq!(BackendConfig::default_for(BuildProfile::EndToEnd).ws_url, "ws://127.0.0.1:4568/ws");
    let url = config.update_url("beta");
    assert!(url.ends_with("&channel=beta"));
    assert!(url.starts_with("https://vacs.network/version/update?version={{current_version}}"));
}

#[test]
fn migration_drops_radio_integration_of_non_radio_modes() {
    assert_eq!(
        migrate_radio_integration(Some(false), Some(RadioIntegration::TrackAudio)),
        None
    );
    assert_eq!(
        migrate_radio_integration(Some(true), Some(RadioIntegration::TrackAudio)),
        Some(RadioIntegration::TrackAudio)
    );
    assert_eq!(
        migrate_radio_integration(None, Some(RadioIntegration::AudioForVatsim)),
        Some(RadioIntegration::AudioForVatsim)
    );
}

#[test]
fn defaults() {
    assert_eq!(max_signaling_reconnect_attempts(true), 8);
    assert_eq!(max_signaling_reconnect_attempts(false), 0);
    let call = CallConfig::default();
    assert!(call.enable_priority_calls && !call.force_relay);
    assert_eq!(ClockMode::default(), ClockMode::Realtime);
    assert_eq!(CplMode::default(), CplMode::Original);
    assert_eq!(ConnectionState::default(), ConnectionState::Disconnected);
}

#[test]
fn windows_are_only_placed_where_a_monitor_shows_them() {
    let monitors = vec![Monitor {
        position: WindowPosition { x: 0, y: 0 },
        size: WindowSize { width: 1920, height: 1080 },
    }];
    let default = WindowSize { width: 1000, height: 753 };
    let inside = WindowPosition { x: 100, y: 100 };
    let partly = WindowPosition { x: -500, y: -300 };
    let gone = WindowPosition { x: 5000, y: 100 };
    assert_eq!(restore_plan(Some(inside), None, &monitors, default), (Some(inside), None));
    assert_eq!(
        restore_plan(Some(partly), Some(WindowSize { width: 600, height: 400 }), &monitors, default),
        (Some(partly), Some(WindowSize { width: 600, height: 400 }))
    );
    assert_eq!(restore_plan(Some(gone), None, &monitors, default), (None, None));
    assert_eq!(
        restore_plan(None, Some(WindowSize { width: 0, height: 400 }), &monitors, default),
        (None, Some(default))
    );
}

#[test]
fn window_state_and_decoration_rules() {
    let size = WindowSize { width: 1000, height: 753 };
    assert!(should_record_window_state(false, false, size));
    assert!(!should_record_window_state(true, false, size));
    assert!(!should_record_window_state(false, false, WindowSize { width: 0, height: 1 }));
    assert_eq!(decoration_correction(size, size), None);
    assert_eq!(
        decoration_correction(size, WindowSize { width: 1000, height: 790 }),
        Some(WindowSize { width: 1000, height: 716 })
    );
}

#[test]
fn enabling_a_call_sound_previews_it() {
    let old = CallConfig {
        enable_call_start_sound: false,
        enable_call_end_sound: false,
        ..CallConfig::default()
    };
    let start = CallConfig {
        enable_call_start_sound: true,
        ..old
    };
    let end = CallConfig {
        enable_call_end_sound: true,
        ..old
    };
    assert_eq!(call_sound_preview(&old, &start), Some(SourceType::CallStart));
    assert_eq!(call_sound_preview(&old, &end), Some(SourceType::CallEnd));
    assert_eq!(call_sound_preview(&start, &start), None);
}

#[test]
fn updates_are_required_unless_marked_optional() {
    let info = update_info("1.0.0".to_string(), false, Some(("1.1.0".to_string(), None)));
    assert_eq!(info.new_version, Some("1.1.0".to_string()));
    assert!(info.required);
    let info = update_info("1.0.0".to_string(), false, Some(("1.1.0".to_string(), Some(false))));
    assert!(!info.required);
    let info = update_info("1.0.0".to_string(), false, None);
    assert_eq!(info.new_version, None);
    assert!(!info.required);
    let info = update_info("1.0.0".to_string(), true, Some(("1.1.0".to_string(), Some(true))));
    assert_eq!(info.current_version, "1.0.0");
    assert_eq!(info.new_version, None);
    assert!(!info.required);
}

#[test]
fn update_progress_counts_whole_downloads() {
    assert_eq!(update_progress(500, 1_000), 0);
    assert_eq!(update_progress(1_000, 1_000), 100);
    assert_eq!(update_progress(5_000, 1_000), 100);
    assert_eq!(update_progress(0, 1_000), 0);
}
