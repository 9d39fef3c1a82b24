use vacs::keybinds::wayland::{all_reported, portal_key_event, ShortcutBindings};
use vacs::keybinds::{KeyState, Trigger};
use vacs::keybinds::wayland::{
    candidate_app_ids, is_missing_interface, registration_step, PortalShortcutId, Registration,
    RegistrationStep, DESKTOP_APP_ID,
};
use vacs::keybinds::{Keybind, PortalAction};

#[test]
fn candidates_prefer_the_packaged_entry_over_the_url_handler() {
    let candidates = candidate_app_ids(Some("vacs-client"));
    assert_eq!(candidates[0], DESKTOP_APP_ID);
    assert_eq!(candidates.len(), 2);
    assert!(candidates[1].ends_with("-handler"));
    assert_ne!(candidates[1], "-handler");
}

#[test]
fn without_an_executable_name_only_the_packaged_entry_is_offered() {
    assert_eq!(candidate_app_ids(None), vec!["vacs".to_string()]);
    assert_eq!(
        candidate_app_ids(Some("vacs.AppImage")),
        vec!["vacs".to_string(), "vacs.AppImage-handler".to_string()]
    );
}

#[test]
fn only_dbus_lookup_failures_count_as_a_missing_registry() {
    assert!(is_missing_interface("org.freedesktop.DBus.Error.UnknownMethod"));
    assert!(is_missing_interface("org.freedesktop.DBus.Error.UnknownInterface"));
    assert!(!is_missing_interface("org.freedesktop.portal.Error.Failed"));
}

#[test]
fn registration_steps() {
    assert_eq!(registration_step(Registration::Accepted), RegistrationStep::UseConnection);
    assert_eq!(registration_step(Registration::NoRegistry), RegistrationStep::GiveUp);
    assert_eq!(registration_step(Registration::Rejected), RegistrationStep::TryNext);
}

#[test]
fn shortcut_ids_round_trip_through_their_names() {
    for id in PortalShortcutId::all() {
        assert_eq!(PortalShortcutId::parse(id.as_str()), Ok(id));
    }
    assert_eq!(
        PortalShortcutId::parse("  Push_To_Talk \n"),
        Ok(PortalShortcutId::PushToTalk)
    );
    assert_eq!(
        PortalShortcutId::parse("nope"),
        Err("unknown portal shortcut id nope".to_string())
    );
    assert_eq!(PortalShortcutId::all().len(), 5);
    assert_eq!(
        PortalShortcutId::CallControl.description(),
        "Call Control (end active/accept next)"
    );
}

#[test]
fn keybinds_map_to_portal_shortcuts() {
    assert_eq!(PortalShortcutId::from(Keybind::AcceptCall), PortalShortcutId::CallControl);
    assert_eq!(PortalShortcutId::from(Keybind::EndCall), PortalShortcutId::CallControl);
    assert_eq!(
        PortalAction::from(PortalShortcutId::RadioPushToTalk),
        PortalAction::RadioPushToTalk
    );
}

fn entry(id: &str, combination: &str) -> (String, String) {
    (id.to_string(), combination.to_string())
}

#[test]
fn reported_bindings_are_merged_and_never_unbound_by_a_report() {
    let mut bindings = ShortcutBindings::new();
    assert!(!bindings.contains(PortalShortcutId::PushToTalk));
    bindings.merge_reported(&vec![
        entry("push_to_talk", "F13"),
        entry("radio_push_to_talk", ""),
        entry("something_else", "F1"),
    ]);
    assert_eq!(bindings.get(PortalShortcutId::PushToTalk), Some("F13".to_string()));
    assert!(!bindings.contains(PortalShortcutId::RadioPushToTalk));

    bindings.merge_reported(&vec![entry("push_to_talk", ""), entry("call_control", "F14")]);
    assert_eq!(bindings.get(PortalShortcutId::PushToTalk), Some("F13".to_string()));
    assert_eq!(bindings.get(PortalShortcutId::CallControl), Some("F14".to_string()));
}

#[test]
fn user_changes_rebind_and_unbind_shortcuts() {
    let mut bindings = ShortcutBindings::new();
    bindings.merge_reported(&vec![entry("push_to_talk", "F13"), entry("toggle_radio_prio", "F15")]);
    bindings.apply_changes(&vec![entry("push_to_talk", "F16"), entry("toggle_radio_prio", "")]);
    assert_eq!(bindings.get(PortalShortcutId::PushToTalk), Some("F16".to_string()));
    assert_eq!(bindings.get(PortalShortcutId::ToggleRadioPrio), None);
}

#[test]
fn binding_shows_no_dialog_once_every_shortcut_is_known() {
    let all: Vec<String> = PortalShortcutId::all().iter().map(|id| id.as_str().to_string()).collect();
    assert!(all_reported(&all));
    assert!(!all_reported(&all[1..].to_vec()));
    assert!(!all_reported(&vec![]));
}

#[test]
fn portal_signals_become_key_events() {
    let event = portal_key_event("radio_push_to_talk", KeyState::Down).unwrap();
    assert_eq!(event.label, "radio_push_to_talk");
    assert_eq!(event.state, KeyState::Down);
    assert!(matches!(event.trigger, Trigger::Portal(PortalAction::RadioPushToTalk)));
    assert!(portal_key_event("unknown", KeyState::Up).is_none());
}

#[test]
fn shortcut_ids_ignore_unicode_white_space_around_them() {
    assert_eq!(
        PortalShortcutId::parse("\u{3000}call_control\u{85}"),
        Ok(PortalShortcutId::CallControl)
    );
    assert!(PortalShortcutId::parse("call\u{a0}control").is_err());
}
