use keyboard_types::Code;
use vacs::keybinds::commands::{
    capturable_button, ensure_keybind_capability, merge_device_entries, JoystickCaptureState,
};
use vacs::keybinds::{InputCode, JoystickButton, JoystickDevice, KeyEvent, KeyState};

fn button_event(device: &str, state: KeyState) -> KeyEvent {
    KeyEvent::button(
        JoystickButton {
            device: device.to_string(),
            button: 0,
            name: None,
        },
        "test".to_string(),
        state,
    )
}

#[test]
fn merge_device_entries_combines_connected_and_ignored() {
    let device = |guid: &str, name: Option<&str>| JoystickDevice {
        device: guid.to_string(),
        name: name.map(str::to_string),
    };

    let connected = vec![
        device("yoke", Some("Yoke")),
        device("throttle", Some("Throttle")),
    ];
    let ignored = vec![
        device("throttle", Some("Old Throttle Name")),
        device("pedals", Some("Pedals")),
    ];

    let entries = merge_device_entries(connected, ignored);
    assert_eq!(entries.len(), 3);

    let by_guid = |guid: &str| entries.iter().find(|e| e.device.device == guid).unwrap();
    assert_eq!(
        (by_guid("yoke").connected, by_guid("yoke").ignored),
        (true, false)
    );
    let throttle = by_guid("throttle");
    assert_eq!((throttle.connected, throttle.ignored), (true, true));
    assert_eq!(throttle.device.name.as_deref(), Some("Throttle"));
    assert_eq!(
        (by_guid("pedals").connected, by_guid("pedals").ignored),
        (false, true)
    );
}

#[test]
fn capturable_button_skips_ignored_devices() {
    let ignored: Vec<String> = vec!["latched-throttle".to_string()];

    assert!(
        capturable_button(button_event("latched-throttle", KeyState::Down), &ignored).is_none()
    );
    assert_eq!(
        capturable_button(button_event("yoke", KeyState::Down), &ignored)
            .map(|button| button.device),
        Some("yoke".to_string())
    );
}

#[test]
fn capturable_button_skips_releases_and_keys() {
    let ignored = Vec::new();

    assert!(capturable_button(button_event("yoke", KeyState::Up), &ignored).is_none());
    assert!(
        capturable_button(
            KeyEvent::key(Code::KeyA, "A".to_string(), KeyState::Down),
            &ignored
        )
        .is_none()
    );
}

#[test]
fn keyboard_bindings_need_the_keyboard_listener() {
    let key = vec![Some(InputCode::Key(Code::KeyA)), None];
    let pad = vec![Some(InputCode::Button(JoystickButton {
        device: "g".to_string(),
        button: 1,
        name: None,
    }))];
    assert!(ensure_keybind_capability(true, false, &key).is_ok());
    assert_eq!(
        ensure_keybind_capability(false, true, &key).unwrap_err().capability,
        "Keyboard keybinds"
    );
    assert!(ensure_keybind_capability(false, true, &pad).is_ok());
    assert_eq!(
        ensure_keybind_capability(false, false, &pad).unwrap_err().capability,
        "Keybinds"
    );
}

#[test]
fn a_stale_cancel_leaves_a_newer_capture_alone() {
    let mut state = JoystickCaptureState::new();
    assert!(!state.begin("first".to_string()));
    assert!(state.begin("second".to_string()));
    assert!(!state.cancel(&"first".to_string()));
    assert_eq!(state.active.as_deref(), Some("second"));
    assert!(state.cancel(&"second".to_string()));
    assert!(state.active.is_none());
}
