//! The keybind engine's decisions: which key events key the radio and the call microphone,
//! radio prio, and how the radio-follows-call fallback is resolved.
//!
//! The engine is a state machine. The caller owns the listeners and tasks, feeds key events and
//! outside answers in, and performs the actions that come back, in order.

use vstd::prelude::*;
use crate::keybinds::{
    same_opt_trigger, same_trigger, spec_active_call_trigger,
    spec_active_radio_trigger, spec_radio_falls_back_to_call, spec_compose_wayland_trigger,
    input_trigger, lemma_fallback_has_radio_trigger, compose_wayland_trigger, copy_opt_input,
    triggers_match, CallMicMode, InputCode, KeyEvent, KeyState, KeybindsConfig, PortalAction,
    TransmitConfig, Trigger,
};
use crate::platform::Platform;
use crate::radio::{transmission_of, TransmissionState};

verus! {

/// Something the caller performs on the engine's behalf.
#[derive(Debug)]
pub enum EngineAction {
    /// Key or unkey the radio.
    SetRadioTransmit(TransmissionState),
    /// Mute or unmute the call microphone.
    SetInputMuted(bool),
    /// Tell the frontend that implicit radio prio went on or off.
    EmitImplicitRadioPrio(bool),
    /// Tell the frontend that radio prio was toggled.
    EmitRadioPrio(bool),
    /// Hand a call-control key press to the call-control handler.
    CallControl(Trigger),
}

/// The engine's configuration and input state.
#[derive(Debug)]
pub struct KeybindEngine {
    pub call_mic_mode: CallMicMode,
    pub call_trigger: Option<Trigger>,
    pub radio_trigger: Option<Trigger>,
    pub accept_call_trigger: Option<Trigger>,
    pub end_call_trigger: Option<Trigger>,
    pub toggle_radio_prio_trigger: Option<Trigger>,
    /// Whether this configuration lets radio TX fall back to the call trigger when no
    /// dedicated radio shortcut is bound at the OS level.
    pub radio_portal_fallback: bool,
    /// Whether that fallback is active right now.
    pub radio_follows_call: bool,
    pub call_pressed: bool,
    pub radio_pressed: bool,
    pub call_active: bool,
    pub radio_prio: bool,
    pub implicit_radio_prio: bool,
    pub radio_transmitting: bool,
    /// Whether the engine's event loop is running.
    pub running: bool,
}

/// `o` holds a trigger matching `t`.
pub open spec fn trigger_in(o: Option<Trigger>, t: Trigger) -> bool {
    o matches Some(c) && same_trigger(c, t)
}

/// Whether `o` holds a trigger matching `t`.
pub fn opt_holds(o: &Option<Trigger>, t: &Trigger) -> (r: bool)
    ensures
        r == trigger_in(*o, *t),
{
    match o {
        Some(c) => triggers_match(c, t),
        None => false,
    }
}

/// Classifies a trigger as the call key and/or the radio key. While the fallback is active the
/// radio key is exactly the call key; the dedicated radio shortcut then counts as neither.
pub open spec fn spec_classify(
    t: Trigger,
    call: Option<Trigger>,
    radio: Option<Trigger>,
    follows: bool,
) -> (bool, bool) {
    let is_call = trigger_in(call, t);
    (is_call, if follows { is_call } else { trigger_in(radio, t) })
}

/// Classifies an incoming trigger as the call key, the radio key, both or neither.
pub fn classify_trigger(
    trigger: &Trigger,
    call_trigger: &Option<Trigger>,
    radio_trigger: &Option<Trigger>,
    radio_follows_call: bool,
) -> (r: (bool, bool))
    ensures
        r == spec_classify(*trigger, *call_trigger, *radio_trigger, radio_follows_call),
{
    let is_call_key = opt_holds(call_trigger, trigger);
    let is_radio_key = if radio_follows_call {
        is_call_key
    } else {
        opt_holds(radio_trigger, trigger)
    };
    (is_call_key, is_radio_key)
}

/// The fallback is only re-resolved when the configuration has one and no key is held; then
/// radio TX follows the call trigger exactly when no dedicated radio shortcut is bound.
pub open spec fn spec_refresh(
    fallback: bool,
    follows: bool,
    call_pressed: bool,
    radio_pressed: bool,
    radio_bound: bool,
) -> bool {
    if !fallback || call_pressed || radio_pressed {
        follows
    } else {
        !radio_bound
    }
}

/// Re-resolves whether radio TX follows the call trigger. `radio_bound` is whether the
/// listener, if there is one still alive, reports a radio push-to-talk binding at the OS level.
pub fn refresh_radio_follows_call(
    fallback: bool,
    follows_call: bool,
    call_pressed: bool,
    radio_pressed: bool,
    radio_bound: bool,
) -> (r: bool)
    ensures
        r == spec_refresh(fallback, follows_call, call_pressed, radio_pressed, radio_bound),
{
    if !fallback || call_pressed || radio_pressed {
        return follows_call;
    }
    !radio_bound
}

/// Whether radio TX and the call microphone share one trigger.
pub open spec fn spec_shares(e: KeybindEngine) -> bool {
    e.radio_trigger is Some && (same_opt_trigger(e.radio_trigger, e.call_trigger)
        || e.radio_follows_call)
}

/// The part of the invariant that the configuration alone decides: the fallback is only
/// active in a configuration that has one, and such a configuration has a radio trigger.
pub open spec fn config_wf(e: KeybindEngine) -> bool {
    &&& e.radio_follows_call ==> e.radio_portal_fallback
    &&& e.radio_portal_fallback ==> e.radio_trigger is Some
}

/// The engine's invariant.
pub open spec fn wf(e: KeybindEngine) -> bool {
    &&& config_wf(e)
    &&& spec_shares(e) ==> e.call_pressed == e.radio_pressed
    &&& e.radio_transmitting ==> e.radio_pressed
    &&& (e.radio_transmitting && spec_shares(e) && e.call_active && e.call_mic_mode
        == CallMicMode::PushToTalk && !e.radio_prio) ==> e.implicit_radio_prio
}

/// Microphone change for a key event during a call: push-to-talk follows the call key unless
/// explicit prio holds it muted; push-to-mute follows either key unless explicit prio is on.
pub open spec fn spec_mic_action(
    mode: CallMicMode,
    is_call: bool,
    effective_prio: bool,
    key_down: bool,
) -> Option<bool> {
    match mode {
        CallMicMode::VoiceActivation => None,
        CallMicMode::PushToTalk => if is_call {
            if effective_prio {
                Some(true)
            } else {
                Some(!key_down)
            }
        } else {
            None
        },
        CallMicMode::PushToMute => if !effective_prio {
            Some(key_down)
        } else {
            None
        },
    }
}

pub open spec fn is_control_trigger(e: KeybindEngine, t: Trigger) -> bool {
    trigger_in(e.accept_call_trigger, t) || trigger_in(e.end_call_trigger, t) || trigger_in(
        e.toggle_radio_prio_trigger,
        t,
    )
}

pub open spec fn opt_action(o: Option<bool>) -> Seq<EngineAction> {
    match o {
        Some(m) => seq![EngineAction::SetInputMuted(m)],
        None => seq![],
    }
}

/// A key event's effect on the held keys: a key already in the reported state is a repeat
/// and stops processing (a repeated call key before the radio key is looked at). The flag tells
/// whether processing goes on.
pub open spec fn spec_press(s: KeybindEngine, is_call: bool, is_radio: bool, key_down: bool) -> (
    KeybindEngine,
    bool,
) {
    if !is_call && !is_radio {
        (s, false)
    } else if is_call && s.call_pressed == key_down {
        (s, false)
    } else {
        let s2 = KeybindEngine {
            call_pressed: if is_call {
                key_down
            } else {
                s.call_pressed
            },
            ..s
        };
        if is_radio && s.radio_pressed == key_down {
            (s2, false)
        } else {
            (
                KeybindEngine {
                    radio_pressed: if is_radio {
                        key_down
                    } else {
                        s.radio_pressed
                    },
                    ..s2
                },
                true,
            )
        }
    }
}

/// Whether a radio key event keys or unkeys the radio: a separate radio key always does; a
/// shared key does outside a call, under radio prio, or outside push-to-talk.
pub open spec fn spec_transmits(s: KeybindEngine, is_call: bool, is_radio: bool) -> bool {
    is_radio && (is_call != is_radio || !s.call_active || s.radio_prio || s.call_mic_mode
        != CallMicMode::PushToTalk)
}

/// The effect of a key event that changed the held keys: radio TX, the call microphone, and
/// the cleanup of implicit prio when the radio key comes up.
pub open spec fn spec_dispatch(s: KeybindEngine, is_call: bool, is_radio: bool, state: KeyState) -> (
    KeybindEngine,
    Seq<EngineAction>,
) {
    let key_down = state == KeyState::Down;
    let transmit_now = spec_transmits(s, is_call, is_radio);
    let s4 = if transmit_now {
        KeybindEngine { radio_transmitting: key_down, ..s }
    } else {
        s
    };
    let a1 = if transmit_now {
        seq![EngineAction::SetRadioTransmit(transmission_of(state))]
    } else {
        seq![]
    };
    let effective_prio = s.radio_prio && !s.implicit_radio_prio;
    let a2 = if s.call_active {
        opt_action(spec_mic_action(s.call_mic_mode, is_call, effective_prio, key_down))
    } else {
        seq![]
    };
    if !key_down && is_radio && s.implicit_radio_prio {
        if s.radio_prio {
            (
                KeybindEngine { implicit_radio_prio: false, radio_prio: false, ..s4 },
                a1 + a2 + seq![EngineAction::EmitImplicitRadioPrio(false)],
            )
        } else {
            (
                KeybindEngine { implicit_radio_prio: false, radio_transmitting: false, ..s4 },
                a1 + a2 + seq![EngineAction::SetRadioTransmit(TransmissionState::Inactive)],
            )
        }
    } else {
        (s4, a1 + a2)
    }
}

/// The fallback as re-resolved at the start of a key event.
pub open spec fn refreshed(pre: KeybindEngine, radio_bound: bool) -> KeybindEngine {
    KeybindEngine {
        radio_follows_call: spec_refresh(
            pre.radio_portal_fallback,
            pre.radio_follows_call,
            pre.call_pressed,
            pre.radio_pressed,
            radio_bound,
        ),
        ..pre
    }
}

/// What one key event does to the engine, and the actions it asks for, in order: a press of a
/// call-control key is handed on, the fallback is re-resolved, the trigger is classified, and
/// a change of the held keys is dispatched.
pub open spec fn spec_key_event(pre: KeybindEngine, t: Trigger, state: KeyState, radio_bound: bool) -> (
    KeybindEngine,
    Seq<EngineAction>,
) {
    let control = if state == KeyState::Down && is_control_trigger(pre, t) {
        seq![EngineAction::CallControl(t)]
    } else {
        seq![]
    };
    let s1 = refreshed(pre, radio_bound);
    let (is_call, is_radio) = spec_classify(
        t,
        s1.call_trigger,
        s1.radio_trigger,
        s1.radio_follows_call,
    );
    let (s2, go) = spec_press(s1, is_call, is_radio, state == KeyState::Down);
    if go {
        let (s3, acts) = spec_dispatch(s2, is_call, is_radio, state);
        (s3, control + acts)
    } else {
        (s2, control)
    }
}

/// Matching triggers is an equivalence.
pub proof fn lemma_same_trigger_equivalence(a: Trigger, b: Trigger, c: Trigger)
    ensures
        same_trigger(a, a),
        same_trigger(a, b) ==> same_trigger(b, a),
        same_trigger(a, b) && same_trigger(b, c) ==> same_trigger(a, c),
{
}

/// When radio and call share a trigger, every trigger is the call key exactly when it is the
/// radio key; when they do not, no trigger is both.
proof fn lemma_shared_classification(e: KeybindEngine, t: Trigger)
    requires
        e.radio_follows_call ==> e.radio_trigger is Some,
    ensures
        spec_shares(e) ==> spec_classify(t, e.call_trigger, e.radio_trigger, e.radio_follows_call).0
            == spec_classify(t, e.call_trigger, e.radio_trigger, e.radio_follows_call).1,
        (spec_classify(t, e.call_trigger, e.radio_trigger, e.radio_follows_call).0 && spec_classify(
            t,
            e.call_trigger,
            e.radio_trigger,
            e.radio_follows_call,
        ).1) ==> spec_shares(e),
{
    if let (Some(c), Some(r)) = (e.call_trigger, e.radio_trigger) {
        lemma_same_trigger_equivalence(r, c, t);
        lemma_same_trigger_equivalence(c, r, t);
        lemma_same_trigger_equivalence(r, t, c);
        lemma_same_trigger_equivalence(t, c, r);
        lemma_same_trigger_equivalence(c, t, r);
        lemma_same_trigger_equivalence(t, r, c);
    }
}

/// Law: every key event keeps the engine's invariant.
pub proof fn lemma_key_event_keeps_wf(pre: KeybindEngine, t: Trigger, state: KeyState, radio_bound: bool)
    requires
        wf(pre),
    ensures
        wf(spec_key_event(pre, t, state, radio_bound).0),
{
    lemma_shared_classification(refreshed(pre, radio_bound), t);
}

/// Law: releasing the radio key always leaves the radio unkeyed, whichever path the release
/// takes (a duplicate release, an explicit or implicit prio, a shared or a separate key).
pub proof fn lemma_release_ends_radio_tx(pre: KeybindEngine, t: Trigger, radio_bound: bool)
    requires
        wf(pre),
        spec_classify(
            t,
            pre.call_trigger,
            pre.radio_trigger,
            refreshed(pre, radio_bound).radio_follows_call,
        ).1,
    ensures
        !spec_key_event(pre, t, KeyState::Up, radio_bound).0.radio_transmitting,
{
    lemma_shared_classification(refreshed(pre, radio_bound), t);
}

/// Law: a key event never changes the fallback while a key is held, nor for a configuration
/// without the fallback.
pub proof fn lemma_fallback_stable_while_held(
    pre: KeybindEngine,
    t: Trigger,
    state: KeyState,
    radio_bound: bool,
)
    requires
        pre.call_pressed || pre.radio_pressed || !pre.radio_portal_fallback,
    ensures
        spec_key_event(pre, t, state, radio_bound).0.radio_follows_call == pre.radio_follows_call,
{
}

/// Law: a key event never changes the configuration, the call state or the running state.
pub proof fn lemma_key_event_keeps_configuration(
    pre: KeybindEngine,
    t: Trigger,
    state: KeyState,
    radio_bound: bool,
)
    ensures
        ({
            let post = spec_key_event(pre, t, state, radio_bound).0;
            &&& post.call_mic_mode == pre.call_mic_mode
            &&& post.call_trigger == pre.call_trigger
            &&& post.radio_trigger == pre.radio_trigger
            &&& post.accept_call_trigger == pre.accept_call_trigger
            &&& post.end_call_trigger == pre.end_call_trigger
            &&& post.toggle_radio_prio_trigger == pre.toggle_radio_prio_trigger
            &&& post.radio_portal_fallback == pre.radio_portal_fallback
            &&& post.call_active == pre.call_active
            &&& post.running == pre.running
        }),
{
}

/// Law: in push-to-mute during a call, without explicit radio prio, a key event that presses
/// or releases the call key mutes the microphone exactly while the key is down: a press asks
/// for muting and never for unmuting, a release asks for unmuting and never for muting.
pub proof fn lemma_push_to_mute_follows_key(
    pre: KeybindEngine,
    t: Trigger,
    state: KeyState,
    radio_bound: bool,
)
    requires
        wf(pre),
        pre.call_mic_mode == CallMicMode::PushToMute,
        pre.call_active,
        pre.radio_prio ==> pre.implicit_radio_prio,
        trigger_in(pre.call_trigger, t),
        pre.call_pressed != (state == KeyState::Down),
    ensures
        spec_key_event(pre, t, state, radio_bound).1.contains(
            EngineAction::SetInputMuted(state == KeyState::Down),
        ),
        !spec_key_event(pre, t, state, radio_bound).1.contains(
            EngineAction::SetInputMuted(state != KeyState::Down),
        ),
{
    let s1 = refreshed(pre, radio_bound);
    lemma_shared_classification(s1, t);
    let key_down = state == KeyState::Down;
    let (is_call, is_radio) = spec_classify(
        t,
        s1.call_trigger,
        s1.radio_trigger,
        s1.radio_follows_call,
    );
    assert(is_call);
    let (s2, go) = spec_press(s1, is_call, is_radio, key_down);
    assert(go);
    let control = if key_down && is_control_trigger(pre, t) {
        seq![EngineAction::CallControl(t)]
    } else {
        seq![]
    };
    let transmit_now = spec_transmits(s2, is_call, is_radio);
    let a1 = if transmit_now {
        seq![EngineAction::SetRadioTransmit(transmission_of(state))]
    } else {
        seq![]
    };
    let a2 = seq![EngineAction::SetInputMuted(key_down)];
    assert(spec_mic_action(s2.call_mic_mode, is_call, s2.radio_prio && !s2.implicit_radio_prio, key_down) == Some(key_down));
    let acts = spec_key_event(pre, t, state, radio_bound).1;
    let tail = if !key_down && is_radio && s2.implicit_radio_prio {
        if s2.radio_prio {
            seq![EngineAction::EmitImplicitRadioPrio(false)]
        } else {
            seq![EngineAction::SetRadioTransmit(TransmissionState::Inactive)]
        }
    } else {
        seq![]
    };
    assert(acts == control + (a1 + a2 + tail));
    let k = control.len() + a1.len();
    assert(acts[k as int] == EngineAction::SetInputMuted(key_down));
    assert forall|i: int| 0 <= i < acts.len() implies acts[i] != EngineAction::SetInputMuted(
        !key_down,
    ) by {
        if i < control.len() {
            assert(acts[i] == control[i]);
        } else if i < k {
            assert(acts[i] == a1[i - control.len()]);
        } else if i == k {
        } else {
            assert(acts[i] == tail[i - k - 1]);
        }
    }
}

/// Law: in push-to-talk during a call, without explicit radio prio, a key event that presses
/// or releases the call key opens the microphone exactly while the key is down: a press asks
/// for unmuting and never for muting, a release asks for muting and never for unmuting.
pub proof fn lemma_push_to_talk_follows_key(
    pre: KeybindEngine,
    t: Trigger,
    state: KeyState,
    radio_bound: bool,
)
    requires
        wf(pre),
        pre.call_mic_mode == CallMicMode::PushToTalk,
        pre.call_active,
        pre.radio_prio ==> pre.implicit_radio_prio,
        trigger_in(pre.call_trigger, t),
        pre.call_pressed != (state == KeyState::Down),
    ensures
        spec_key_event(pre, t, state, radio_bound).1.contains(
            EngineAction::SetInputMuted(state != KeyState::Down),
        ),
        !spec_key_event(pre, t, state, radio_bound).1.contains(
            EngineAction::SetInputMuted(state == KeyState::Down),
        ),
{
    let s1 = refreshed(pre, radio_bound);
    lemma_shared_classification(s1, t);
    let key_down = state == KeyState::Down;
    let (is_call, is_radio) = spec_classify(
        t,
        s1.call_trigger,
        s1.radio_trigger,
        s1.radio_follows_call,
    );
    assert(is_call);
    let (s2, go) = spec_press(s1, is_call, is_radio, key_down);
    assert(go);
    let control = if key_down && is_control_trigger(pre, t) {
        seq![EngineAction::CallControl(t)]
    } else {
        seq![]
    };
    let transmit_now = spec_transmits(s2, is_call, is_radio);
    let a1 = if transmit_now {
        seq![EngineAction::SetRadioTransmit(transmission_of(state))]
    } else {
        seq![]
    };
    let a2 = seq![EngineAction::SetInputMuted(!key_down)];
    assert(spec_mic_action(s2.call_mic_mode, is_call, s2.radio_prio && !s2.implicit_radio_prio, key_down) == Some(!key_down));
    let acts = spec_key_event(pre, t, state, radio_bound).1;
    let tail = if !key_down && is_radio && s2.implicit_radio_prio {
        if s2.radio_prio {
            seq![EngineAction::EmitImplicitRadioPrio(false)]
        } else {
            seq![EngineAction::SetRadioTransmit(TransmissionState::Inactive)]
        }
    } else {
        seq![]
    };
    assert(acts == control + (a1 + a2 + tail));
    let k = control.len() + a1.len();
    assert(acts[k as int] == EngineAction::SetInputMuted(!key_down));
    assert forall|i: int| 0 <= i < acts.len() implies acts[i] != EngineAction::SetInputMuted(
        key_down,
    ) by {
        if i < control.len() {
            assert(acts[i] == control[i]);
        } else if i < k {
            assert(acts[i] == a1[i - control.len()]);
        } else if i == k {
        } else {
            assert(acts[i] == tail[i - k - 1]);
        }
    }
}

pub open spec fn spec_select(configured: Option<InputCode>, portal: PortalAction, platform: Platform) -> Option<
    Trigger,
> {
    if platform == Platform::LinuxWayland {
        spec_compose_wayland_trigger(Some(portal), configured)
    } else {
        input_trigger(configured)
    }
}

fn select_trigger(configured: &Option<InputCode>, portal: PortalAction, platform: Platform) -> (r:
    Option<Trigger>)
    ensures
        r == spec_select(*configured, portal, platform),
{
    if platform == Platform::LinuxWayland {
        return compose_wayland_trigger(Some(portal), configured);
    }
    match copy_opt_input(configured) {
        Some(i) => Some(Trigger::Input(i)),
        None => None,
    }
}

/// Why starting the engine's input sources failed.
#[derive(Debug, Clone, Copy, PartialEq, Eq, Structural)]
pub enum StartFailure {
    /// The keyboard listener failed and no joystick binding could carry on without it.
    Keyboard,
    /// Both the keyboard listener and the joystick service failed.
    Joystick,
}

/// Whether starting the input sources failed: a keyboard listener failure is fatal unless a
/// joystick binding exists, and a joystick service failure only when the keyboard listener
/// failed too. `joystick_ok` is only consulted when a joystick binding exists.
pub fn start_failure(any_button: bool, keyboard_ok: bool, joystick_ok: bool) -> (r: Option<
    StartFailure,
>)
    ensures
        r == (if !keyboard_ok && !any_button {
            Some(StartFailure::Keyboard)
        } else if any_button && !keyboard_ok && !joystick_ok {
            Some(StartFailure::Joystick)
        } else {
            None
        }),
{
    if !keyboard_ok && !any_button {
        return Some(StartFailure::Keyboard);
    }
    if any_button && !keyboard_ok && !joystick_ok {
        return Some(StartFailure::Joystick);
    }
    None
}

/// What a call-control key press asks for.
#[derive(Debug, Clone, Copy, PartialEq, Eq, Structural)]
pub enum CallControl {
    /// The key is bound to both accept and end: end the current call if there is one,
    /// otherwise accept.
    EndOrAccept,
    Accept,
    End,
    ToggleRadioPrio,
    /// The key is bound to no call control.
    Unbound,
}

pub open spec fn spec_call_control(e: KeybindEngine, t: Trigger) -> CallControl {
    let is_accept = trigger_in(e.accept_call_trigger, t);
    let is_end = trigger_in(e.end_call_trigger, t);
    if is_accept && is_end {
        CallControl::EndOrAccept
    } else if is_accept {
        CallControl::Accept
    } else if is_end {
        CallControl::End
    } else if trigger_in(e.toggle_radio_prio_trigger, t) {
        CallControl::ToggleRadioPrio
    } else {
        CallControl::Unbound
    }
}

pub open spec fn spec_any_button(e: KeybindEngine) -> bool {
    ||| e.call_trigger matches Some(Trigger::Input(InputCode::Button(_)))
    ||| e.radio_trigger matches Some(Trigger::Input(InputCode::Button(_)))
    ||| e.accept_call_trigger matches Some(Trigger::Input(InputCode::Button(_)))
    ||| e.end_call_trigger matches Some(Trigger::Input(InputCode::Button(_)))
    ||| e.toggle_radio_prio_trigger matches Some(Trigger::Input(InputCode::Button(_)))
}

pub open spec fn is_button_opt(o: Option<Trigger>) -> bool {
    o matches Some(Trigger::Input(InputCode::Button(_)))
}

fn opt_is_button(o: &Option<Trigger>) -> (r: bool)
    ensures
        r == is_button_opt(*o),
{
    match o {
        Some(t) => t.is_button(),
        None => false,
    }
}

/// Whether the engine has nothing to do: voice activation without radio and call-control
/// triggers, or a keyed mode without call and radio triggers.
pub open spec fn spec_idle(e: KeybindEngine) -> bool {
    let has_call_controls = e.accept_call_trigger is Some || e.end_call_trigger is Some
        || e.toggle_radio_prio_trigger is Some;
    ||| e.call_mic_mode == CallMicMode::VoiceActivation && e.radio_trigger is None
        && !has_call_controls
    ||| e.call_mic_mode != CallMicMode::VoiceActivation && e.call_trigger is None
        && e.radio_trigger is None
}

/// The input state after a reset, and the actions the reset asks for: the radio is unkeyed if
/// it was keyed, and the microphone is muted in push-to-talk mode and unmuted otherwise.
pub open spec fn spec_reset(pre: KeybindEngine) -> (KeybindEngine, Seq<EngineAction>) {
    let unkey = if pre.radio_transmitting {
        seq![EngineAction::SetRadioTransmit(TransmissionState::Inactive)]
    } else {
        seq![]
    };
    (
        KeybindEngine {
            call_pressed: false,
            radio_pressed: false,
            radio_transmitting: false,
            ..pre
        },
        unkey + seq![
            EngineAction::SetInputMuted(pre.call_mic_mode == CallMicMode::PushToTalk),
        ],
    )
}

/// Radio prio as the engine reports it: explicit or implicit.
pub open spec fn spec_radio_prio(e: KeybindEngine) -> bool {
    e.radio_prio || e.implicit_radio_prio
}

pub open spec fn spec_attach_muted(e: KeybindEngine) -> bool {
    let separate_keys = e.radio_trigger is Some && !spec_shares(e);
    match e.call_mic_mode {
        CallMicMode::VoiceActivation => e.radio_prio,
        CallMicMode::PushToTalk => if separate_keys {
            !e.call_pressed
        } else {
            !e.call_pressed || (e.radio_pressed && e.radio_prio)
        },
        CallMicMode::PushToMute => e.call_pressed || e.radio_prio,
    }
}

impl KeybindEngine {
    /// A stopped engine for a configuration on `platform`.
    pub fn new(
        transmit_config: &TransmitConfig,
        call_control_config: &KeybindsConfig,
        radio_integration_enabled: bool,
        platform: Platform,
    ) -> (r: KeybindEngine)
        ensures
            wf(r),
            r.call_mic_mode == transmit_config.call_mic_mode,
            r.call_trigger == spec_active_call_trigger(*transmit_config, platform),
            r.radio_trigger == spec_active_radio_trigger(
                *transmit_config,
                radio_integration_enabled,
                platform,
            ),
            r.accept_call_trigger == spec_select(
                call_control_config.accept_call,
                PortalAction::CallControl,
                platform,
            ),
            r.end_call_trigger == spec_select(
                call_control_config.end_call,
                PortalAction::CallControl,
                platform,
            ),
            r.toggle_radio_prio_trigger == spec_select(
                call_control_config.toggle_radio_prio,
                PortalAction::ToggleRadioPrio,
                platform,
            ),
            r.radio_portal_fallback == spec_radio_falls_back_to_call(
                *transmit_config,
                radio_integration_enabled,
                platform,
            ),
            r.radio_follows_call == r.radio_portal_fallback,
            !r.call_pressed && !r.radio_pressed && !r.call_active && !r.radio_prio
                && !r.implicit_radio_prio && !r.radio_transmitting && !r.running,
    {
        let radio_portal_fallback = transmit_config.radio_falls_back_to_call(
            radio_integration_enabled,
            platform,
        );
        proof {
            if radio_portal_fallback {
                lemma_fallback_has_radio_trigger(
                    *transmit_config,
                    radio_integration_enabled,
                    platform,
                );
            }
        }
        KeybindEngine {
            call_mic_mode: transmit_config.call_mic_mode,
            call_trigger: transmit_config.active_call_trigger(platform),
            radio_trigger: transmit_config.active_radio_trigger(radio_integration_enabled, platform),
            accept_call_trigger: Self::select_accept_call_trigger(call_control_config, platform),
            end_call_trigger: Self::select_end_call_trigger(call_control_config, platform),
            toggle_radio_prio_trigger: Self::select_toggle_radio_prio_trigger(
                call_control_config,
                platform,
            ),
            radio_portal_fallback,
            radio_follows_call: radio_portal_fallback,
            call_pressed: false,
            radio_pressed: false,
            call_active: false,
            radio_prio: false,
            implicit_radio_prio: false,
            radio_transmitting: false,
            running: false,
        }
    }

    /// The accept-call trigger: on Wayland the shared call-control portal shortcut unless a
    /// joystick button replaces it.
    pub fn select_accept_call_trigger(config: &KeybindsConfig, platform: Platform) -> (r: Option<
        Trigger,
    >)
        ensures
            r == spec_select(config.accept_call, PortalAction::CallControl, platform),
    {
        select_trigger(&config.accept_call, PortalAction::CallControl, platform)
    }

    /// The end-call trigger: on Wayland the shared call-control portal shortcut unless a
    /// joystick button replaces it.
    pub fn select_end_call_trigger(config: &KeybindsConfig, platform: Platform) -> (r: Option<
        Trigger,
    >)
        ensures
            r == spec_select(config.end_call, PortalAction::CallControl, platform),
    {
        select_trigger(&config.end_call, PortalAction::CallControl, platform)
    }

    /// The toggle-radio-prio trigger: on Wayland its portal shortcut unless a joystick button
    /// replaces it.
    pub fn select_toggle_radio_prio_trigger(config: &KeybindsConfig, platform: Platform) -> (r:
        Option<Trigger>)
        ensures
            r == spec_select(config.toggle_radio_prio, PortalAction::ToggleRadioPrio, platform),
    {
        select_trigger(&config.toggle_radio_prio, PortalAction::ToggleRadioPrio, platform)
    }

    /// Whether any active trigger is a joystick button (so the joystick service is needed).
    pub fn any_button_trigger(&self) -> (r: bool)
        ensures
            r == spec_any_button(*self),
    {
        opt_is_button(&self.call_trigger) || opt_is_button(&self.radio_trigger) || opt_is_button(
            &self.accept_call_trigger,
        ) || opt_is_button(&self.end_call_trigger) || opt_is_button(&self.toggle_radio_prio_trigger)
    }

    /// Whether starting should bring up the input sources: not when already running, and not
    /// when the configuration leaves the engine nothing to do.
    pub fn needs_start(&self) -> (r: bool)
        ensures
            r == (!self.running && !spec_idle(*self)),
    {
        if self.running {
            return false;
        }
        let has_call_controls = self.accept_call_trigger.is_some() || self.end_call_trigger.is_some()
            || self.toggle_radio_prio_trigger.is_some();
        if self.call_mic_mode == CallMicMode::VoiceActivation && self.radio_trigger.is_none()
            && !has_call_controls {
            return false;
        }
        if self.call_mic_mode != CallMicMode::VoiceActivation && self.call_trigger.is_none()
            && self.radio_trigger.is_none() {
            return false;
        }
        true
    }

    /// Records that the input sources are up, resolving the fallback from the listener's view.
    pub fn mark_started(&mut self, radio_bound: bool)
        requires
            wf(*old(self)),
        ensures
            wf(*final(self)),
            *final(self) == (KeybindEngine {
                running: true,
                radio_follows_call: spec_refresh(
                    old(self).radio_portal_fallback,
                    old(self).radio_follows_call,
                    old(self).call_pressed,
                    old(self).radio_pressed,
                    radio_bound,
                ),
                ..*old(self)
            }),
    {
        self.refresh(radio_bound);
        self.running = true;
    }

    /// Whether resolving the fallback would consult the listener right now.
    pub fn refresh_needs_listener(&self) -> (r: bool)
        ensures
            r == (self.radio_portal_fallback && !self.call_pressed && !self.radio_pressed),
    {
        self.radio_portal_fallback && !self.call_pressed && !self.radio_pressed
    }

    /// Re-resolves whether radio TX follows the call trigger.
    pub fn refresh(&mut self, radio_bound: bool)
        requires
            wf(*old(self)),
        ensures
            wf(*final(self)),
            *final(self) == (KeybindEngine {
                radio_follows_call: spec_refresh(
                    old(self).radio_portal_fallback,
                    old(self).radio_follows_call,
                    old(self).call_pressed,
                    old(self).radio_pressed,
                    radio_bound,
                ),
                ..*old(self)
            }),
    {
        self.radio_follows_call = refresh_radio_follows_call(
            self.radio_portal_fallback,
            self.radio_follows_call,
            self.call_pressed,
            self.radio_pressed,
            radio_bound,
        );
    }

    /// Whether radio TX and the call microphone share one trigger, either configured to the
    /// same input or through the active fallback.
    pub fn radio_shares_call_trigger(&self) -> (r: bool)
        ensures
            r == spec_shares(*self),
    {
        match &self.radio_trigger {
            None => false,
            Some(radio) => {
                let same = match &self.call_trigger {
                    Some(call) => triggers_match(radio, call),
                    None => false,
                };
                same || self.radio_follows_call
            },
        }
    }

    /// Updates the held keys for a classified key event; returns whether processing goes on.
    fn press(&mut self, is_call_key: bool, is_radio_key: bool, key_down: bool) -> (go: bool)
        ensures
            (*final(self), go) == spec_press(*old(self), is_call_key, is_radio_key, key_down),
    {
        if !is_call_key && !is_radio_key {
            return false;
        }
        if is_call_key {
            let was = self.call_pressed;
            self.call_pressed = key_down;
            if was == key_down {
                return false;
            }
        }
        if is_radio_key {
            let was = self.radio_pressed;
            self.radio_pressed = key_down;
            if was == key_down {
                return false;
            }
        }
        true
    }

    /// Keys the radio and sets the microphone for a key event that changed the held keys.
    fn dispatch(&mut self, is_call_key: bool, is_radio_key: bool, state: KeyState) -> (r: Vec<
        EngineAction,
    >)
        ensures
            (*final(self), r@) == spec_dispatch(*old(self), is_call_key, is_radio_key, state),
    {
        let ghost pre = *self;
        let mut actions: Vec<EngineAction> = Vec::new();
        let key_down = state == KeyState::Down;
        let call_active = self.call_active;
        let radio_prio = self.radio_prio;
        let effective_prio = radio_prio && !self.implicit_radio_prio;
        let separate = is_call_key != is_radio_key;
        if is_radio_key && (separate || !call_active || radio_prio || self.call_mic_mode
            != CallMicMode::PushToTalk) {
            self.radio_transmitting = key_down;
            actions.push(EngineAction::SetRadioTransmit(TransmissionState::from(state)));
        }
        if call_active {
            let mic_action = match self.call_mic_mode {
                CallMicMode::VoiceActivation => None,
                CallMicMode::PushToTalk => if is_call_key {
                    if effective_prio {
                        Some(true)
                    } else {
                        Some(!key_down)
                    }
                } else {
                    None
                },
                CallMicMode::PushToMute => if !effective_prio {
                    Some(key_down)
                } else {
                    None
                },
            };
            if let Some(muted) = mic_action {
                actions.push(EngineAction::SetInputMuted(muted));
            }
        }
        if !key_down && is_radio_key && self.implicit_radio_prio {
            self.implicit_radio_prio = false;
            if self.radio_prio {
                self.radio_prio = false;
                actions.push(EngineAction::EmitImplicitRadioPrio(false));
            } else {
                self.radio_transmitting = false;
                actions.push(EngineAction::SetRadioTransmit(TransmissionState::Inactive));
            }
        }
        proof {
            assert(actions@ =~= spec_dispatch(pre, is_call_key, is_radio_key, state).1);
        }
        actions
    }

    /// Processes one key event. `radio_bound` is what the listener reports about a radio
    /// shortcut; it is only consulted when `refresh_needs_listener` holds.
    pub fn handle_key_event(&mut self, event: &KeyEvent, radio_bound: bool) -> (r: Vec<EngineAction>)
        requires
            wf(*old(self)),
        ensures
            (*final(self), r@) == spec_key_event(*old(self), event.trigger, event.state, radio_bound),
            wf(*final(self)),
            event.state == KeyState::Up && spec_classify(
                event.trigger,
                old(self).call_trigger,
                old(self).radio_trigger,
                final(self).radio_follows_call,
            ).1 ==> !final(self).radio_transmitting,
    {
        proof {
            lemma_key_event_keeps_wf(*self, event.trigger, event.state, radio_bound);
            if event.state == KeyState::Up && spec_classify(
                event.trigger,
                self.call_trigger,
                self.radio_trigger,
                refreshed(*self, radio_bound).radio_follows_call,
            ).1 {
                lemma_release_ends_radio_tx(*self, event.trigger, radio_bound);
            }
        }
        let mut actions: Vec<EngineAction> = Vec::new();
        let trigger = &event.trigger;
        let key_down = event.state == KeyState::Down;
        if key_down && (opt_holds(&self.accept_call_trigger, trigger) || opt_holds(
            &self.end_call_trigger,
            trigger,
        ) || opt_holds(&self.toggle_radio_prio_trigger, trigger)) {
            actions.push(EngineAction::CallControl(trigger.duplicate()));
        }
        self.refresh(radio_bound);
        let (is_call_key, is_radio_key) = classify_trigger(
            trigger,
            &self.call_trigger,
            &self.radio_trigger,
            self.radio_follows_call,
        );
        if self.press(is_call_key, is_radio_key, key_down) {
            let mut more = self.dispatch(is_call_key, is_radio_key, event.state);
            actions.append(&mut more);
        }
        actions
    }

    /// What a call-control key press asks for.
    pub fn call_control(&self, trigger: &Trigger) -> (r: CallControl)
        ensures
            r == spec_call_control(*self, *trigger),
    {
        let is_accept = opt_holds(&self.accept_call_trigger, trigger);
        let is_end = opt_holds(&self.end_call_trigger, trigger);
        if is_accept && is_end {
            CallControl::EndOrAccept
        } else if is_accept {
            CallControl::Accept
        } else if is_end {
            CallControl::End
        } else if opt_holds(&self.toggle_radio_prio_trigger, trigger) {
            CallControl::ToggleRadioPrio
        } else {
            CallControl::Unbound
        }
    }

    /// Clears the held keys, unkeys the radio if it was keyed (its release will never be
    /// processed), and puts the microphone back to the mode's resting state.
    pub fn reset_input_state(&mut self) -> (r: Vec<EngineAction>)
        requires
            config_wf(*old(self)),
        ensures
            wf(*final(self)),
            (*final(self), r@) == spec_reset(*old(self)),
    {
        let ghost pre = *self;
        let mut actions: Vec<EngineAction> = Vec::new();
        self.call_pressed = false;
        self.radio_pressed = false;
        if self.radio_transmitting {
            self.radio_transmitting = false;
            actions.push(EngineAction::SetRadioTransmit(TransmissionState::Inactive));
        }
        let muted = match self.call_mic_mode {
            CallMicMode::PushToTalk => true,
            CallMicMode::PushToMute | CallMicMode::VoiceActivation => false,
        };
        actions.push(EngineAction::SetInputMuted(muted));
        proof {
            assert(actions@ =~= spec_reset(pre).1);
        }
        actions
    }

    /// Stops the engine; a running engine's input state is reset.
    pub fn stop(&mut self) -> (r: Vec<EngineAction>)
        requires
            wf(*old(self)),
        ensures
            wf(*final(self)),
            !final(self).running,
            old(self).running ==> (KeybindEngine { running: true, ..*final(self) }, r@) == spec_reset(
                *old(self),
            ),
            !old(self).running ==> *final(self) == *old(self) && r@.len() == 0,
            !final(self).radio_transmitting || !old(self).running,
    {
        let was_running = self.running;
        if was_running {
            let actions = self.reset_input_state();
            self.running = false;
            actions
        } else {
            Vec::new()
        }
    }

    /// Reconfigures a stopped engine: stops it, takes the new triggers, re-arms the fallback and
    /// resets the input state. The caller starts it again afterwards.
    pub fn set_config(
        &mut self,
        transmit_config: &TransmitConfig,
        keybinds_config: &KeybindsConfig,
        radio_integration_enabled: bool,
        platform: Platform,
    ) -> (r: Vec<EngineAction>)
        requires
            wf(*old(self)),
        ensures
            wf(*final(self)),
            !final(self).running,
            final(self).call_mic_mode == transmit_config.call_mic_mode,
            final(self).call_trigger == spec_active_call_trigger(*transmit_config, platform),
            final(self).radio_trigger == spec_active_radio_trigger(
                *transmit_config,
                radio_integration_enabled,
                platform,
            ),
            final(self).radio_portal_fallback == spec_radio_falls_back_to_call(
                *transmit_config,
                radio_integration_enabled,
                platform,
            ),
            final(self).radio_follows_call == final(self).radio_portal_fallback,
            final(self).accept_call_trigger == spec_select(
                keybinds_config.accept_call,
                PortalAction::CallControl,
                platform,
            ),
            final(self).end_call_trigger == spec_select(
                keybinds_config.end_call,
                PortalAction::CallControl,
                platform,
            ),
            final(self).toggle_radio_prio_trigger == spec_select(
                keybinds_config.toggle_radio_prio,
                PortalAction::ToggleRadioPrio,
                platform,
            ),
            !final(self).call_pressed && !final(self).radio_pressed
                && !final(self).radio_transmitting,
            final(self).call_active == old(self).call_active,
            final(self).radio_prio == old(self).radio_prio,
            final(self).implicit_radio_prio == old(self).implicit_radio_prio,
            r@.len() >= 1,
            r@.last() == EngineAction::SetInputMuted(
                transmit_config.call_mic_mode == CallMicMode::PushToTalk,
            ),
            r@.contains(EngineAction::SetRadioTransmit(TransmissionState::Inactive))
                <== old(self).radio_transmitting,
    {
        let mut actions = self.stop();
        let ghost stopped = actions@;
        self.call_mic_mode = transmit_config.call_mic_mode;
        self.call_trigger = transmit_config.active_call_trigger(platform);
        self.radio_trigger = transmit_config.active_radio_trigger(radio_integration_enabled, platform);
        self.radio_portal_fallback = transmit_config.radio_falls_back_to_call(
            radio_integration_enabled,
            platform,
        );
        proof {
            if self.radio_portal_fallback {
                lemma_fallback_has_radio_trigger(
                    *transmit_config,
                    radio_integration_enabled,
                    platform,
                );
            }
        }
        self.radio_follows_call = self.radio_portal_fallback;
        self.accept_call_trigger = Self::select_accept_call_trigger(keybinds_config, platform);
        self.end_call_trigger = Self::select_end_call_trigger(keybinds_config, platform);
        self.toggle_radio_prio_trigger = Self::select_toggle_radio_prio_trigger(
            keybinds_config,
            platform,
        );
        let mut reset = self.reset_input_state();
        actions.append(&mut reset);
        proof {
            if old(self).radio_transmitting {
                assert(actions@[0] == EngineAction::SetRadioTransmit(TransmissionState::Inactive));
            }
        }
        actions
    }

    /// Enters or leaves a call. Entering while the shared radio/call key holds the radio keyed
    /// sets implicit radio prio, so the call does not cut the radio transmission; leaving clears
    /// both prios.
    pub fn set_call_active(&mut self, active: bool) -> (r: Vec<EngineAction>)
        requires
            wf(*old(self)),
        ensures
            wf(*final(self)),
            final(self).call_active == active,
            ({
                let implicit = active && spec_shares(*old(self)) && old(self).radio_pressed
                    && old(self).radio_transmitting && !old(self).radio_prio
                    && old(self).call_mic_mode != CallMicMode::VoiceActivation;
                if !active {
                    &&& *final(self) == (KeybindEngine {
                        call_active: false,
                        radio_prio: false,
                        implicit_radio_prio: false,
                        ..*old(self)
                    })
                    &&& r@ == seq![EngineAction::EmitImplicitRadioPrio(false)]
                } else if implicit {
                    &&& *final(self) == (KeybindEngine {
                        call_active: true,
                        radio_prio: true,
                        implicit_radio_prio: true,
                        ..*old(self)
                    })
                    &&& r@ == seq![EngineAction::EmitImplicitRadioPrio(true)]
                } else {
                    &&& *final(self) == (KeybindEngine { call_active: true, ..*old(self) })
                    &&& r@.len() == 0
                }
            }),
    {
        let mut actions: Vec<EngineAction> = Vec::new();
        let shares = self.radio_shares_call_trigger();
        self.call_active = active;
        if active {
            if shares && self.radio_pressed && self.radio_transmitting && !self.radio_prio
                && self.call_mic_mode != CallMicMode::VoiceActivation {
                self.radio_prio = true;
                self.implicit_radio_prio = true;
                actions.push(EngineAction::EmitImplicitRadioPrio(true));
            }
        } else {
            self.implicit_radio_prio = false;
            self.radio_prio = false;
            actions.push(EngineAction::EmitImplicitRadioPrio(false));
        }
        actions
    }

    pub fn call_active(&self) -> (r: bool)
        ensures
            r == self.call_active,
    {
        self.call_active
    }

    /// Sets explicit radio prio. Clearing it while the radio key is held marks implicit prio so
    /// the release still cleans up. With voice activation, and with push-to-mute while its key
    /// is up, prio mutes the call microphone.
    pub fn set_radio_prio(&mut self, prio: bool) -> (r: Vec<EngineAction>)
        requires
            wf(*old(self)),
        ensures
            wf(*final(self)),
            final(self).radio_prio == prio,
            final(self).implicit_radio_prio == (old(self).implicit_radio_prio || (!prio && old(
                self,
            ).radio_prio && old(self).radio_pressed)),
            *final(self) == (KeybindEngine {
                radio_prio: final(self).radio_prio,
                implicit_radio_prio: final(self).implicit_radio_prio,
                ..*old(self)
            }),
            r@ == (if old(self).call_mic_mode == CallMicMode::VoiceActivation || (old(
                self,
            ).call_mic_mode == CallMicMode::PushToMute && !old(self).call_pressed) {
                seq![EngineAction::SetInputMuted(prio)]
            } else {
                seq![]
            }),
    {
        let prev_prio = self.radio_prio;
        self.radio_prio = prio;
        if !prio && prev_prio && self.radio_pressed {
            self.implicit_radio_prio = true;
        }
        let mut actions: Vec<EngineAction> = Vec::new();
        match (self.call_mic_mode, self.call_pressed) {
            (CallMicMode::VoiceActivation, _) | (CallMicMode::PushToMute, false) => {
                actions.push(EngineAction::SetInputMuted(prio));
            },
            _ => {},
        }
        actions
    }

    /// Toggles radio prio from the call-control key: only during a call, and the frontend is
    /// told the new prio.
    pub fn toggle_radio_prio(&mut self) -> (r: Vec<EngineAction>)
        requires
            wf(*old(self)),
        ensures
            wf(*final(self)),
            !old(self).call_active ==> *final(self) == *old(self) && r@.len() == 0,
            old(self).call_active ==> final(self).radio_prio == !spec_radio_prio(*old(self)) && r@.last()
                == EngineAction::EmitRadioPrio(!spec_radio_prio(*old(self))),
    {
        if !self.call_active {
            return Vec::new();
        }
        let prio = !self.radio_prio();
        let mut actions = self.set_radio_prio(prio);
        actions.push(EngineAction::EmitRadioPrio(prio));
        actions
    }

    /// Radio prio as reported to the frontend: explicit or implicit.
    pub fn radio_prio(&self) -> (r: bool)
        ensures
            r == spec_radio_prio(*self),
    {
        self.radio_prio || self.implicit_radio_prio
    }

    /// Whether a microphone attached now should start muted. In push-to-talk with separate keys
    /// only the call key decides; with a shared key prio can hold it muted while the key is held.
    pub fn should_attach_input_muted(&self) -> (r: bool)
        ensures
            r == spec_attach_muted(*self),
    {
        let call_pressed = self.call_pressed;
        let radio_pressed = self.radio_pressed;
        let radio_prio = self.radio_prio;
        let separate_keys = self.radio_trigger.is_some() && !self.radio_shares_call_trigger();
        match self.call_mic_mode {
            CallMicMode::VoiceActivation => radio_prio,
            CallMicMode::PushToTalk => {
                if separate_keys {
                    !call_pressed
                } else {
                    !call_pressed || (radio_pressed && radio_prio)
                }
            },
            CallMicMode::PushToMute => call_pressed || radio_prio,
        }
    }
}

/// Law: leaving a call always drops radio prio, explicit and implicit.
pub proof fn lemma_leaving_call_drops_prio(pre: KeybindEngine, post: KeybindEngine)
    requires
        post == (KeybindEngine {
            call_active: false,
            radio_prio: false,
            implicit_radio_prio: false,
            ..pre
        }),
    ensures
        !spec_radio_prio(post),
{
}

/// Law: after a reset nothing is held and the radio is unkeyed; if it was keyed the reset
/// unkeys it first.
pub proof fn lemma_reset_unkeys(pre: KeybindEngine)
    ensures
        !spec_reset(pre).0.call_pressed,
        !spec_reset(pre).0.radio_pressed,
        !spec_reset(pre).0.radio_transmitting,
        pre.radio_transmitting ==> spec_reset(pre).1[0] == EngineAction::SetRadioTransmit(
            TransmissionState::Inactive,
        ),
{
}

} // verus!
