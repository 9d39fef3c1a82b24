use keyboard_types::Code;
use vacs::keybinds::{
    compose_wayland_trigger, decimal_text, parse_key_code, CallMicMode, InputCode, JoystickButton,
    JoystickDevice, KeybindsConfig, KeybindsError, Keybind, PortalAction, TransmitConfig,
    TransmitConfigRaw, TransmitMode, Trigger,
};
use vacs::platform::Platform;

fn button(device: &str, button: u32, name: Option<&str>) -> InputCode {
    InputCode::Button(JoystickButton {
        device: device.to_string(),
        button,
        name: name.map(str::to_string),
    })
}

fn ptt_config() -> TransmitConfig {
    TransmitConfig {
        call_mic_mode: CallMicMode::PushToTalk,
        ..Default::default()
    }
}

#[test]
fn joystick_device_equality_ignores_name() {
    let device = |guid: &str, name: Option<&str>| JoystickDevice {
        device: guid.to_string(),
        name: name.map(str::to_string),
    };
    assert_eq!(device("guid", Some("Name A")), device("guid", None));
    assert_ne!(device("guid-a", None), device("guid-b", None));
}

#[test]
fn joystick_button_equality_ignores_name() {
    assert_eq!(button("guid", 1, Some("Name A")), button("guid", 1, None));
    assert_ne!(button("guid", 1, None), button("guid", 2, None));
    assert_ne!(button("guid-a", 1, None), button("guid-b", 1, None));
}

#[test]
fn old_transmit_mode_migration_still_works() {
    let raw = TransmitConfigRaw {
        call_mic_mode: None,
        mode: Some(TransmitMode::RadioIntegration),
        push_to_talk: None,
        push_to_mute: None,
        radio_push_to_talk: Some(InputCode::Key(Code::F24)),
    };
    let config = TransmitConfig::from_raw(raw);
    assert_eq!(config.call_mic_mode, CallMicMode::PushToTalk);
    assert_eq!(config.push_to_talk, Some(InputCode::Key(Code::F24)));
    assert_eq!(config.was_radio_integration, Some(true));
}

#[test]
fn current_format_is_taken_as_stored() {
    let raw = TransmitConfigRaw {
        call_mic_mode: Some(CallMicMode::PushToTalk),
        mode: None,
        push_to_talk: Some(InputCode::Key(Code::KeyA)),
        push_to_mute: None,
        radio_push_to_talk: Some(InputCode::Key(Code::F24)),
    };
    let config = TransmitConfig::from_raw(raw);
    assert_eq!(config.call_mic_mode, CallMicMode::PushToTalk);
    assert_eq!(config.push_to_talk, Some(InputCode::Key(Code::KeyA)));
    assert_eq!(config.radio_push_to_talk, Some(InputCode::Key(Code::F24)));
    assert_eq!(config.push_to_mute, None);
    assert_eq!(config.was_radio_integration, None);
}

#[test]
fn empty_record_is_the_default_configuration() {
    let raw = TransmitConfigRaw {
        call_mic_mode: None,
        mode: None,
        push_to_talk: Some(InputCode::Key(Code::KeyA)),
        push_to_mute: None,
        radio_push_to_talk: None,
    };
    let config = TransmitConfig::from_raw(raw);
    assert_eq!(config.call_mic_mode, CallMicMode::VoiceActivation);
    assert_eq!(config.push_to_talk, None);
}

#[test]
fn compose_wayland_trigger_button_replaces_portal() {
    let configured = Some(button("guid", 3, None));
    let trigger = compose_wayland_trigger(Some(PortalAction::PushToTalk), &configured);
    assert_eq!(trigger, Some(Trigger::Input(button("guid", 3, None))));

    assert_eq!(
        compose_wayland_trigger(Some(PortalAction::PushToTalk), &None),
        Some(Trigger::Portal(PortalAction::PushToTalk))
    );
}

#[test]
fn compose_wayland_trigger_ignores_keyboard_binding() {
    let configured = Some(InputCode::Key(Code::KeyA));
    let trigger = compose_wayland_trigger(Some(PortalAction::PushToTalk), &configured);
    assert_eq!(trigger, Some(Trigger::Portal(PortalAction::PushToTalk)));

    assert_eq!(
        compose_wayland_trigger(None, &Some(InputCode::Key(Code::KeyA))),
        None
    );
}

#[test]
fn radio_never_falls_back_to_call_without_radio_integration() {
    let config = ptt_config();
    assert!(!config.radio_falls_back_to_call(false, Platform::LinuxWayland));
    assert!(!config.radio_falls_back_to_call(false, Platform::Windows));
}

#[test]
fn radio_only_falls_back_to_call_for_wayland_push_to_talk() {
    let ptt = ptt_config();
    assert!(ptt.radio_falls_back_to_call(true, Platform::LinuxWayland));
    assert!(!ptt.radio_falls_back_to_call(true, Platform::Windows));
    assert!(!ptt.radio_falls_back_to_call(true, Platform::LinuxX11));

    for mode in [CallMicMode::PushToMute, CallMicMode::VoiceActivation] {
        let config = TransmitConfig {
            call_mic_mode: mode,
            ..Default::default()
        };
        for platform in [Platform::LinuxWayland, Platform::Windows] {
            assert!(
                !config.radio_falls_back_to_call(true, platform),
                "{mode:?} has an unambiguous radio trigger"
            );
        }
    }
}

#[test]
fn configured_joystick_button_suppresses_the_radio_fallback() {
    let config = TransmitConfig {
        call_mic_mode: CallMicMode::PushToTalk,
        radio_push_to_talk: Some(button("guid", 4, None)),
        ..Default::default()
    };
    for platform in [Platform::LinuxWayland, Platform::Windows] {
        assert!(!config.radio_falls_back_to_call(true, platform));
        assert_eq!(
            config.active_radio_trigger(true, platform),
            Some(Trigger::Input(button("guid", 4, None)))
        );
    }
}

#[test]
fn wayland_radio_trigger_is_always_the_dedicated_portal_action() {
    let config = ptt_config();
    assert_eq!(
        config.active_radio_trigger(true, Platform::LinuxWayland),
        Some(Trigger::Portal(PortalAction::RadioPushToTalk))
    );
    assert!(config.radio_falls_back_to_call(true, Platform::LinuxWayland));
}

#[test]
fn active_triggers_in_push_to_mute_mode_follow_ptm_binding() {
    let config = TransmitConfig {
        call_mic_mode: CallMicMode::PushToMute,
        push_to_mute: Some(button("guid", 1, None)),
        radio_push_to_talk: Some(button("guid", 2, None)),
        ..Default::default()
    };
    let expected = Some(Trigger::Input(button("guid", 1, None)));
    assert_eq!(config.active_call_trigger(Platform::Windows), expected);
    assert_eq!(config.active_radio_trigger(true, Platform::Windows), expected);
}

#[test]
fn active_triggers_in_voice_activation_mode() {
    let config = TransmitConfig {
        call_mic_mode: CallMicMode::VoiceActivation,
        push_to_talk: Some(button("guid", 1, None)),
        radio_push_to_talk: Some(button("guid", 2, None)),
        ..Default::default()
    };
    assert_eq!(config.active_call_trigger(Platform::MacOs), None);
    assert_eq!(
        config.active_radio_trigger(true, Platform::MacOs),
        Some(Trigger::Input(button("guid", 2, None)))
    );
}

#[test]
fn active_triggers_use_configured_bindings() {
    let config = TransmitConfig {
        call_mic_mode: CallMicMode::PushToTalk,
        push_to_talk: Some(button("guid", 0, None)),
        ..Default::default()
    };
    assert_eq!(
        config.active_call_trigger(Platform::Windows),
        Some(Trigger::Input(button("guid", 0, None)))
    );
    let radio = config.active_radio_trigger(true, Platform::Windows);
    assert_eq!(radio, Some(Trigger::Input(button("guid", 0, None))));
    assert_eq!(config.active_radio_trigger(false, Platform::Windows), None);
}

#[test]
fn wayland_call_trigger_is_the_portal_action_for_keyboard_bindings() {
    let config = TransmitConfig {
        call_mic_mode: CallMicMode::PushToMute,
        push_to_mute: Some(InputCode::Key(Code::KeyM)),
        ..Default::default()
    };
    assert_eq!(
        config.active_call_trigger(Platform::LinuxWayland),
        Some(Trigger::Portal(PortalAction::PushToMute))
    );
    assert_eq!(
        config.active_radio_trigger(true, Platform::LinuxWayland),
        Some(Trigger::Portal(PortalAction::PushToMute))
    );
}

#[test]
fn parse_key_code_accepts_known_names_and_rejects_others() {
    assert!(matches!(parse_key_code(None), Ok(None)));
    assert_eq!(
        parse_key_code(Some("KeyA".to_string())).unwrap(),
        Some(Code::KeyA)
    );
    match parse_key_code(Some("NotAKey".to_string())) {
        Err(KeybindsError::Other(message)) => {
            assert_eq!(
                message,
                "Unrecognized key code: NotAKey. Please report this error in our GitHub repository's issue tracker."
            );
        }
        _ => panic!("expected an error"),
    }
}

#[test]
fn keybinds_error_messages() {
    assert_eq!(
        KeybindsError::Listener("portal".to_string()).message(),
        "Keybinds listener error: portal"
    );
    assert_eq!(
        KeybindsError::Emitter("x".to_string()).message(),
        "Keybinds emitter error: x"
    );
    assert_eq!(
        KeybindsError::UnrecognizedCode("Foo".to_string()).message(),
        "Unrecognized keybinds code: Foo"
    );
    assert_eq!(KeybindsError::FakeMarker.message(), "Fake marker");
    assert_eq!(KeybindsError::Other("plain".to_string()).message(), "plain");
}

#[test]
fn labels_name_the_key_or_button() {
    assert_eq!(InputCode::Key(Code::KeyA).label(), "KeyA");
    assert_eq!(button("g", 2, Some("VPC Throttle")).label(), "Button 2 (VPC Throttle)");
    assert_eq!(button("g", 17, None).label(), "Button 17 (Joystick)");
    assert_eq!(decimal_text(0), "0");
    assert_eq!(decimal_text(4294967295), "4294967295");
}

#[test]
fn set_binding_only_touches_call_control_keybinds() {
    let mut config = KeybindsConfig::default();
    config.set_binding(Keybind::AcceptCall, Some(InputCode::Key(Code::F1)));
    config.set_binding(Keybind::ToggleRadioPrio, Some(button("g", 1, None)));
    config.set_binding(Keybind::PushToTalk, Some(InputCode::Key(Code::F2)));
    assert_eq!(config.accept_call, Some(InputCode::Key(Code::F1)));
    assert_eq!(config.end_call, None);
    assert_eq!(config.toggle_radio_prio, Some(button("g", 1, None)));
}

#[test]
fn older_key_code_names_parse_to_their_current_codes() {
    assert_eq!(parse_key_code(Some("OSLeft".to_string())).unwrap(), Some(Code::MetaLeft));
    assert_eq!(parse_key_code(Some("VolumeUp".to_string())).unwrap(), Some(Code::AudioVolumeUp));
    assert_eq!(Code::MetaLeft.to_string(), "MetaLeft");
}
