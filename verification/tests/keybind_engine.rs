use vacs::keybinds::engine::{
    classify_trigger, refresh_radio_follows_call, start_failure, CallControl, EngineAction,
    KeybindEngine, StartFailure,
};
use vacs::keybinds::{
    CallMicMode, InputCode, JoystickButton, KeyEvent, KeyState, KeybindsConfig, PortalAction,
    TransmitConfig, Trigger,
};
use vacs::platform::Platform;
use vacs::radio::TransmissionState;

fn call() -> Trigger {
    Trigger::Portal(PortalAction::PushToTalk)
}

fn radio() -> Trigger {
    Trigger::Portal(PortalAction::RadioPushToTalk)
}

fn button(device: &str, button: u32) -> InputCode {
    InputCode::Button(JoystickButton {
        device: device.to_string(),
        button,
        name: None,
    })
}

fn event(trigger: Trigger, state: KeyState) -> KeyEvent {
    KeyEvent {
        trigger,
        label: "test".to_string(),
        state,
    }
}

#[test]
fn radio_follows_the_call_key_while_no_dedicated_shortcut_is_bound() {
    assert!(refresh_radio_follows_call(true, false, false, false, false));
}

#[test]
fn radio_stops_following_the_call_key_once_a_shortcut_is_bound() {
    assert!(!refresh_radio_follows_call(true, true, false, false, true));
}

#[test]
fn configs_without_the_portal_fallback_never_resolve() {
    assert!(!refresh_radio_follows_call(false, false, false, false, false));
}

#[test]
fn the_fallback_never_flips_while_a_key_is_held() {
    assert!(refresh_radio_follows_call(true, true, true, false, true), "call key held");
    assert!(refresh_radio_follows_call(true, true, false, true, true), "radio key held");
}

#[test]
fn a_dropped_listener_reads_as_unbound() {
    // A listener that is gone reports no binding.
    assert!(refresh_radio_follows_call(true, false, false, false, false));
}

#[test]
fn separate_triggers_classify_independently() {
    assert_eq!(
        classify_trigger(&radio(), &Some(call()), &Some(radio()), false),
        (false, true)
    );
    assert_eq!(
        classify_trigger(&call(), &Some(call()), &Some(radio()), false),
        (true, false)
    );
}

#[test]
fn the_fallback_makes_the_call_key_the_radio_key() {
    assert_eq!(
        classify_trigger(&call(), &Some(call()), &Some(radio()), true),
        (true, true)
    );
}

#[test]
fn a_stale_fallback_never_double_counts_the_dedicated_trigger() {
    assert_eq!(
        classify_trigger(&radio(), &Some(call()), &Some(radio()), true),
        (false, false)
    );
}

#[test]
fn one_trigger_bound_to_both_classifies_as_both() {
    assert_eq!(
        classify_trigger(&call(), &Some(call()), &Some(call()), false),
        (true, true)
    );
}

#[test]
fn an_unrelated_trigger_classifies_as_neither() {
    let other = Trigger::Portal(PortalAction::CallControl);
    assert_eq!(
        classify_trigger(&other, &Some(call()), &Some(radio()), false),
        (false, false)
    );
    assert_eq!(
        classify_trigger(&other, &Some(call()), &Some(radio()), true),
        (false, false)
    );
}

fn shared_ptt_engine() -> KeybindEngine {
    // Push-to-talk with radio integration and no dedicated radio key: radio follows the call key.
    let transmit = TransmitConfig {
        call_mic_mode: CallMicMode::PushToTalk,
        push_to_talk: Some(button("yoke", 1)),
        ..Default::default()
    };
    KeybindEngine::new(&transmit, &KeybindsConfig::default(), true, Platform::Windows)
}

#[test]
fn shared_key_keys_the_radio_outside_a_call_and_release_unkeys_it() {
    let mut engine = shared_ptt_engine();
    assert!(engine.radio_shares_call_trigger());
    assert!(engine.needs_start());
    engine.mark_started(false);

    let down = engine.handle_key_event(&event(Trigger::Input(button("yoke", 1)), KeyState::Down), false);
    assert!(matches!(
        down.as_slice(),
        [EngineAction::SetRadioTransmit(TransmissionState::Active)]
    ));
    assert!(engine.radio_transmitting);

    // A repeated press changes nothing.
    let again = engine.handle_key_event(&event(Trigger::Input(button("yoke", 1)), KeyState::Down), false);
    assert!(again.is_empty());

    let up = engine.handle_key_event(&event(Trigger::Input(button("yoke", 1)), KeyState::Up), false);
    assert!(matches!(
        up.as_slice(),
        [EngineAction::SetRadioTransmit(TransmissionState::Inactive)]
    ));
    assert!(!engine.radio_transmitting);
}

#[test]
fn entering_a_call_while_transmitting_sets_implicit_prio_and_release_cleans_up() {
    let mut engine = shared_ptt_engine();
    engine.mark_started(false);
    engine.handle_key_event(&event(Trigger::Input(button("yoke", 1)), KeyState::Down), false);

    let entered = engine.set_call_active(true);
    assert!(matches!(
        entered.as_slice(),
        [EngineAction::EmitImplicitRadioPrio(true)]
    ));
    assert!(engine.radio_prio());

    let up = engine.handle_key_event(&event(Trigger::Input(button("yoke", 1)), KeyState::Up), false);
    assert!(matches!(
        up.as_slice(),
        [
            EngineAction::SetRadioTransmit(TransmissionState::Inactive),
            EngineAction::SetInputMuted(true),
            EngineAction::EmitImplicitRadioPrio(false)
        ]
    ));
    assert!(!engine.radio_transmitting);
    assert!(!engine.radio_prio());
}

#[test]
fn in_a_call_the_shared_key_drives_the_microphone_only() {
    let mut engine = shared_ptt_engine();
    engine.mark_started(false);
    engine.set_call_active(true);

    let down = engine.handle_key_event(&event(Trigger::Input(button("yoke", 1)), KeyState::Down), false);
    assert!(matches!(down.as_slice(), [EngineAction::SetInputMuted(false)]));
    let up = engine.handle_key_event(&event(Trigger::Input(button("yoke", 1)), KeyState::Up), false);
    assert!(matches!(up.as_slice(), [EngineAction::SetInputMuted(true)]));
    assert!(!engine.radio_transmitting);
}

#[test]
fn leaving_the_call_drops_radio_prio() {
    let mut engine = shared_ptt_engine();
    engine.set_call_active(true);
    engine.set_radio_prio(true);
    assert!(engine.radio_prio());
    let left = engine.set_call_active(false);
    assert!(matches!(left.as_slice(), [EngineAction::EmitImplicitRadioPrio(false)]));
    assert!(!engine.radio_prio());
}

#[test]
fn reset_unkeys_a_transmitting_radio() {
    let mut engine = shared_ptt_engine();
    engine.mark_started(false);
    engine.handle_key_event(&event(Trigger::Input(button("yoke", 1)), KeyState::Down), false);
    let stopped = engine.stop();
    assert!(matches!(
        stopped.as_slice(),
        [
            EngineAction::SetRadioTransmit(TransmissionState::Inactive),
            EngineAction::SetInputMuted(true)
        ]
    ));
    assert!(!engine.radio_transmitting);
    assert!(!engine.running);
}

#[test]
fn call_control_presses_are_handed_on() {
    let transmit = TransmitConfig::default();
    let keybinds = KeybindsConfig {
        accept_call: Some(button("pad", 1)),
        end_call: Some(button("pad", 1)),
        toggle_radio_prio: Some(button("pad", 2)),
    };
    let mut engine = KeybindEngine::new(&transmit, &keybinds, false, Platform::Windows);
    assert!(engine.any_button_trigger());
    let press = engine.handle_key_event(&event(Trigger::Input(button("pad", 1)), KeyState::Down), false);
    assert!(matches!(press.as_slice(), [EngineAction::CallControl(_)]));
    assert_eq!(
        engine.call_control(&Trigger::Input(button("pad", 1))),
        CallControl::EndOrAccept
    );
    assert_eq!(
        engine.call_control(&Trigger::Input(button("pad", 2))),
        CallControl::ToggleRadioPrio
    );
    assert_eq!(
        engine.call_control(&Trigger::Input(button("pad", 3))),
        CallControl::Unbound
    );
}

#[test]
fn toggling_prio_only_works_in_a_call() {
    let mut engine = shared_ptt_engine();
    assert!(engine.toggle_radio_prio().is_empty());
    engine.set_call_active(true);
    let toggled = engine.toggle_radio_prio();
    assert!(matches!(toggled.last(), Some(EngineAction::EmitRadioPrio(true))));
    assert!(engine.radio_prio());
}

#[test]
fn voice_activation_without_triggers_needs_no_engine() {
    let engine = KeybindEngine::new(
        &TransmitConfig::default(),
        &KeybindsConfig::default(),
        false,
        Platform::Windows,
    );
    assert!(!engine.needs_start());
}

#[test]
fn start_failures() {
    assert_eq!(start_failure(false, false, true), Some(StartFailure::Keyboard));
    assert_eq!(start_failure(true, false, false), Some(StartFailure::Joystick));
    assert_eq!(start_failure(true, false, true), None);
    assert_eq!(start_failure(true, true, false), None);
}

#[test]
fn attach_muted_follows_the_mode() {
    let mut engine = shared_ptt_engine();
    assert!(engine.should_attach_input_muted());
    engine.mark_started(false);
    engine.handle_key_event(&event(Trigger::Input(button("yoke", 1)), KeyState::Down), false);
    assert!(!engine.should_attach_input_muted());
}
