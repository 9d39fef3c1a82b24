use vacs::keybinds::KeyState;
use vacs::platform::{Capabilities, Platform};
use vacs::radio::{RadioError, RadioIntegration, RadioState, TransmissionState};

#[test]
fn key_states_and_transmission_states_convert_both_ways() {
    assert_eq!(TransmissionState::from(KeyState::Down), TransmissionState::Active);
    assert_eq!(TransmissionState::from(KeyState::Up), TransmissionState::Inactive);
    assert_eq!(KeyState::from(TransmissionState::Active), KeyState::Down);
    assert_eq!(KeyState::from(TransmissionState::Inactive), KeyState::Up);
}

#[test]
fn default_integration_depends_on_the_keybind_emitter() {
    let windows = Capabilities::get(Platform::Windows, false);
    let wayland = Capabilities::get(Platform::LinuxWayland, true);
    assert_eq!(RadioIntegration::default_for(&windows), RadioIntegration::AudioForVatsim);
    assert_eq!(RadioIntegration::default_for(&wayland), RadioIntegration::TrackAudio);
}

#[test]
fn radio_error_messages() {
    assert_eq!(
        RadioError::Integration("x".to_string()).message(),
        "Radio integration error: x"
    );
    assert_eq!(RadioError::Transmit("y".to_string()).message(), "Radio transmit error: y");
    assert_eq!(
        RadioError::NotSupported.message(),
        "Operation not supported by this radio integration"
    );
    assert_eq!(RadioState::default(), RadioState::NotConfigured);
}
