//! Keybind identities, their equality, and how a transmit configuration resolves into the
//! triggers that drive the call microphone and the radio.

use vstd::prelude::*;
use vstd::string::*;
use keyboard_types::Code;
use crate::platform::Platform;
use crate::text::copy_text;

pub mod commands;
pub mod engine;
pub mod wayland;

verus! {

#[verifier::external_type_specification]
#[verifier::external_body]
pub struct ExCode(Code);

/// The key code `<keyboard_types::Code as FromStr>::from_str` gives for a text, if it accepts it.
pub uninterp spec fn parsed_code(name: Seq<char>) -> Option<Code>;

/// The name `keyboard_types::Code` displays for a key code.
pub uninterp spec fn key_code_text(code: Code) -> Seq<char>;

/// The name a key code accepted under `name` displays as: the parser also accepts six older
/// names, each for a code that displays under its current name.
pub open spec fn canonical_code_name(name: Seq<char>) -> Seq<char> {
    if name == "OSLeft"@ {
        "MetaLeft"@
    } else if name == "OSRight"@ {
        "MetaRight"@
    } else if name == "LaunchMediaPlayer"@ {
        "MediaSelect"@
    } else if name == "VolumeDown"@ {
        "AudioVolumeDown"@
    } else if name == "VolumeMute"@ {
        "AudioVolumeMute"@
    } else if name == "VolumeUp"@ {
        "AudioVolumeUp"@
    } else {
        name
    }
}

/// Compares two key codes with the derived `PartialEq` of `keyboard_types::Code`, a field-less
/// enum, so two codes compare equal exactly when they are the same variant.
#[verifier::external_body]
fn same_code(a: &Code, b: &Code) -> (r: bool)
    ensures
        r == (*a == *b),
{
    *a == *b
}

/// Parses a key code name with `<keyboard_types::Code as FromStr>::from_str`, a match on the
/// text alone. A code it gives displays as the name it was given, or, for one of the six older
/// names the match also accepts, as that name's current form (`canonical_code_name`).
#[verifier::external_body]
fn parse_code(name: &str) -> (r: Option<Code>)
    ensures
        r == parsed_code(name@),
        r matches Some(c) ==> key_code_text(c) == canonical_code_name(name@),
{
    name.parse::<Code>().ok()
}

/// The display name of a key code, as `<keyboard_types::Code as Display>::fmt` writes it.
#[verifier::external_body]
fn code_to_text(code: &Code) -> (r: String)
    ensures
        r@ == key_code_text(*code),
{
    code.to_string()
}

/// Errors of the keybind listener and emitter.
#[derive(Debug)]
pub enum KeybindsError {
    Listener(String),
    Emitter(String),
    UnrecognizedCode(String),
    /// Emitted for the synthetic half of a composite key press (AltGr on Windows).
    FakeMarker,
    Other(String),
}

pub open spec fn keybinds_error_text(e: KeybindsError) -> Seq<char> {
    match e {
        KeybindsError::Listener(m) => "Keybinds listener error: "@ + m@,
        KeybindsError::Emitter(m) => "Keybinds emitter error: "@ + m@,
        KeybindsError::UnrecognizedCode(m) => "Unrecognized keybinds code: "@ + m@,
        KeybindsError::FakeMarker => "Fake marker"@,
        KeybindsError::Other(m) => m@,
    }
}

impl KeybindsError {
    /// The user-facing message of this error.
    pub fn message(&self) -> (r: String)
        ensures
            r@ == keybinds_error_text(*self),
    {
        match self {
            KeybindsError::Listener(m) => copy_text("Keybinds listener error: ").concat(m.as_str()),
            KeybindsError::Emitter(m) => copy_text("Keybinds emitter error: ").concat(m.as_str()),
            KeybindsError::UnrecognizedCode(m) => copy_text("Unrecognized keybinds code: ").concat(
                m.as_str(),
            ),
            KeybindsError::FakeMarker => copy_text("Fake marker"),
            KeybindsError::Other(m) => m.clone(),
        }
    }
}

/// Decimal digits of a number, most significant first, without leading zeros.
pub open spec fn decimal(n: nat) -> Seq<char>
    decreases n,
{
    if n < 10 {
        seq![digit_char(n)]
    } else {
        decimal(n / 10).push(digit_char(n % 10))
    }
}

pub open spec fn digit_char(d: nat) -> char {
    if d == 0 { '0' }
    else if d == 1 { '1' }
    else if d == 2 { '2' }
    else if d == 3 { '3' }
    else if d == 4 { '4' }
    else if d == 5 { '5' }
    else if d == 6 { '6' }
    else if d == 7 { '7' }
    else if d == 8 { '8' }
    else { '9' }
}

/// The one-character text of a decimal digit.
fn digit_text(d: u32) -> (r: &'static str)
    requires
        d < 10,
    ensures
        r@ == seq![digit_char(d as nat)],
{
    proof {
        reveal_strlit("0");
        reveal_strlit("1");
        reveal_strlit("2");
        reveal_strlit("3");
        reveal_strlit("4");
        reveal_strlit("5");
        reveal_strlit("6");
        reveal_strlit("7");
        reveal_strlit("8");
        reveal_strlit("9");
    }
    if d == 0 { "0" }
    else if d == 1 { "1" }
    else if d == 2 { "2" }
    else if d == 3 { "3" }
    else if d == 4 { "4" }
    else if d == 5 { "5" }
    else if d == 6 { "6" }
    else if d == 7 { "7" }
    else if d == 8 { "8" }
    else { "9" }
}

/// The decimal text of a number.
pub fn decimal_text(n: u32) -> (r: String)
    ensures
        r@ == decimal(n as nat),
    decreases n,
{
    if n < 10 {
        copy_text(digit_text(n))
    } else {
        let mut s = decimal_text(n / 10);
        s.append(digit_text(n % 10));
        s
    }
}

/// A joystick or gamepad button, addressed by the stable SDL GUID of its device.
///
/// Physically identical devices share a GUID, so a binding matches either of them. The name
/// is display metadata and takes no part in equality.
#[derive(Debug)]
pub struct JoystickButton {
    /// SDL joystick GUID as a hex string.
    pub device: String,
    /// Raw button index on the device.
    pub button: u32,
    /// Last-seen human-readable device name; display-only.
    pub name: Option<String>,
}

pub open spec fn same_button(a: JoystickButton, b: JoystickButton) -> bool {
    a.device@ == b.device@ && a.button == b.button
}

impl PartialEq for JoystickButton {
    fn eq(&self, other: &Self) -> (r: bool) {
        self.device == other.device && self.button == other.button
    }
}

impl vstd::std_specs::cmp::PartialEqSpecImpl for JoystickButton {
    open spec fn obeys_eq_spec() -> bool {
        true
    }

    open spec fn eq_spec(&self, other: &Self) -> bool {
        same_button(*self, *other)
    }
}

impl Eq for JoystickButton {}

/// A copy of an optional text.
pub fn copy_opt_string(o: &Option<String>) -> (r: Option<String>)
    ensures
        r == *o,
{
    match o {
        Some(s) => Some(s.clone()),
        None => None,
    }
}

pub open spec fn button_label(b: JoystickButton) -> Seq<char> {
    match b.name {
        Some(n) => "Button "@ + decimal(b.button as nat) + " ("@ + n@ + ")"@,
        None => "Button "@ + decimal(b.button as nat) + " (Joystick)"@,
    }
}

impl JoystickButton {
    pub fn duplicate(&self) -> (r: JoystickButton)
        ensures
            r == *self,
    {
        JoystickButton {
            device: self.device.clone(),
            button: self.button,
            name: copy_opt_string(&self.name),
        }
    }

    /// The label shown for this button, e.g. `Button 2 (VPC Throttle)`.
    pub fn label(&self) -> (r: String)
        ensures
            r@ == button_label(*self),
    {
        let mut s = copy_text("Button ");
        let n = decimal_text(self.button);
        s.append(n.as_str());
        match &self.name {
            Some(name) => {
                s.append(" (");
                s.append(name.as_str());
                s.append(")");
            },
            None => {
                s.append(" (Joystick)");
            },
        }
        s
    }
}

/// A joystick or gamepad device, addressed by its stable SDL GUID; the name is display-only
/// and takes no part in equality.
#[derive(Debug)]
pub struct JoystickDevice {
    /// SDL joystick GUID as a hex string.
    pub device: String,
    /// Last-seen human-readable device name; display-only.
    pub name: Option<String>,
}

impl PartialEq for JoystickDevice {
    fn eq(&self, other: &Self) -> (r: bool) {
        self.device == other.device
    }
}

impl vstd::std_specs::cmp::PartialEqSpecImpl for JoystickDevice {
    open spec fn obeys_eq_spec() -> bool {
        true
    }

    open spec fn eq_spec(&self, other: &Self) -> bool {
        self.device@ == other.device@
    }
}

impl Eq for JoystickDevice {}

impl JoystickDevice {
    pub fn duplicate(&self) -> (r: JoystickDevice)
        ensures
            r == *self,
    {
        JoystickDevice { device: self.device.clone(), name: copy_opt_string(&self.name) }
    }
}

/// A physical input that can be bound to a keybind action: a keyboard key or a joystick
/// button.
#[derive(Debug)]
pub enum InputCode {
    Key(Code),
    Button(JoystickButton),
}

pub open spec fn same_input(a: InputCode, b: InputCode) -> bool {
    match (a, b) {
        (InputCode::Key(x), InputCode::Key(y)) => x == y,
        (InputCode::Button(x), InputCode::Button(y)) => same_button(x, y),
        _ => false,
    }
}

/// Whether two inputs are the same binding (joystick button names are ignored).
pub fn inputs_match(a: &InputCode, b: &InputCode) -> (r: bool)
    ensures
        r == same_input(*a, *b),
{
    match (a, b) {
        (InputCode::Key(x), InputCode::Key(y)) => same_code(x, y),
        (InputCode::Button(x), InputCode::Button(y)) => x.device == y.device && x.button
            == y.button,
        _ => false,
    }
}

impl PartialEq for InputCode {
    fn eq(&self, other: &Self) -> (r: bool) {
        inputs_match(self, other)
    }
}

impl vstd::std_specs::cmp::PartialEqSpecImpl for InputCode {
    open spec fn obeys_eq_spec() -> bool {
        true
    }

    open spec fn eq_spec(&self, other: &Self) -> bool {
        same_input(*self, *other)
    }
}

impl Eq for InputCode {}

pub open spec fn input_label(i: InputCode) -> Seq<char> {
    match i {
        InputCode::Key(c) => key_code_text(c),
        InputCode::Button(b) => button_label(b),
    }
}

impl InputCode {
    pub fn duplicate(&self) -> (r: InputCode)
        ensures
            r == *self,
    {
        match self {
            InputCode::Key(c) => InputCode::Key(*c),
            InputCode::Button(b) => InputCode::Button(b.duplicate()),
        }
    }

    /// The label shown for this input: the key code name, or the button label.
    pub fn label(&self) -> (r: String)
        ensures
            r@ == input_label(*self),
    {
        match self {
            InputCode::Key(c) => code_to_text(c),
            InputCode::Button(b) => b.label(),
        }
    }
}

pub fn copy_opt_input(o: &Option<InputCode>) -> (r: Option<InputCode>)
    ensures
        r == *o,
{
    match o {
        Some(i) => Some(i.duplicate()),
        None => None,
    }
}

/// Platform-neutral identifier of the Wayland portal shortcuts.
#[derive(Debug, Clone, Copy, PartialEq, Eq, Structural)]
pub enum PortalAction {
    PushToTalk,
    PushToMute,
    RadioPushToTalk,
    CallControl,
    ToggleRadioPrio,
}

/// Runtime identity of a fired keybind source: a physical input, or a Wayland portal
/// shortcut activation (where no physical key identity exists).
#[derive(Debug)]
pub enum Trigger {
    Input(InputCode),
    Portal(PortalAction),
}

pub open spec fn same_trigger(a: Trigger, b: Trigger) -> bool {
    match (a, b) {
        (Trigger::Input(x), Trigger::Input(y)) => same_input(x, y),
        (Trigger::Portal(p), Trigger::Portal(q)) => p == q,
        _ => false,
    }
}

/// `Some(t) == Some(u)` exactly when the triggers match; `None` only equals `None`.
pub open spec fn same_opt_trigger(a: Option<Trigger>, b: Option<Trigger>) -> bool {
    match (a, b) {
        (Some(x), Some(y)) => same_trigger(x, y),
        (None, None) => true,
        _ => false,
    }
}

/// Whether two triggers are the same keybind source.
pub fn triggers_match(a: &Trigger, b: &Trigger) -> (r: bool)
    ensures
        r == same_trigger(*a, *b),
{
    match (a, b) {
        (Trigger::Input(x), Trigger::Input(y)) => inputs_match(x, y),
        (Trigger::Portal(p), Trigger::Portal(q)) => *p == *q,
        _ => false,
    }
}

/// Whether two optional triggers are equal, `None` equalling only `None`.
pub fn opt_triggers_match(a: Option<&Trigger>, b: Option<&Trigger>) -> (r: bool)
    ensures
        r == match (a, b) {
            (Some(x), Some(y)) => same_trigger(*x, *y),
            (None, None) => true,
            _ => false,
        },
{
    match (a, b) {
        (Some(x), Some(y)) => triggers_match(x, y),
        (None, None) => true,
        _ => false,
    }
}

impl PartialEq for Trigger {
    fn eq(&self, other: &Self) -> (r: bool) {
        triggers_match(self, other)
    }
}

impl vstd::std_specs::cmp::PartialEqSpecImpl for Trigger {
    open spec fn obeys_eq_spec() -> bool {
        true
    }

    open spec fn eq_spec(&self, other: &Self) -> bool {
        same_trigger(*self, *other)
    }
}

impl Eq for Trigger {}

impl Trigger {
    pub fn duplicate(&self) -> (r: Trigger)
        ensures
            r == *self,
    {
        match self {
            Trigger::Input(i) => Trigger::Input(i.duplicate()),
            Trigger::Portal(p) => Trigger::Portal(*p),
        }
    }

    /// Whether this trigger is a joystick button.
    pub fn is_button(&self) -> (r: bool)
        ensures
            r == (*self matches Trigger::Input(InputCode::Button(_))),
    {
        match self {
            Trigger::Input(InputCode::Button(_)) => true,
            _ => false,
        }
    }
}

pub fn copy_opt_trigger(o: &Option<Trigger>) -> (r: Option<Trigger>)
    ensures
        r == *o,
{
    match o {
        Some(t) => Some(t.duplicate()),
        None => None,
    }
}

/// Whether a key went down or came up.
#[derive(Debug, Clone, Copy, PartialEq, Eq, Structural)]
pub enum KeyState {
    Down,
    Up,
}

/// A fired keybind source with the state it went to.
#[derive(Debug)]
pub struct KeyEvent {
    pub trigger: Trigger,
    pub label: String,
    pub state: KeyState,
}

impl KeyEvent {
    /// Keyboard key event.
    pub fn key(code: Code, label: String, state: KeyState) -> (r: KeyEvent)
        ensures
            r.trigger == Trigger::Input(InputCode::Key(code)),
            r.label == label,
            r.state == state,
    {
        KeyEvent { trigger: Trigger::Input(InputCode::Key(code)), label, state }
    }

    /// Joystick button event.
    pub fn button(button: JoystickButton, label: String, state: KeyState) -> (r: KeyEvent)
        ensures
            r.trigger == Trigger::Input(InputCode::Button(button)),
            r.label == label,
            r.state == state,
    {
        KeyEvent { trigger: Trigger::Input(InputCode::Button(button)), label, state }
    }

    /// Wayland portal shortcut activation.
    pub fn portal(action: PortalAction, label: String, state: KeyState) -> (r: KeyEvent)
        ensures
            r.trigger == Trigger::Portal(action),
            r.label == label,
            r.state == state,
    {
        KeyEvent { trigger: Trigger::Portal(action), label, state }
    }
}

/// The actions a keybind can be configured for.
#[derive(Debug, Clone, Copy, PartialEq, Eq, Structural)]
pub enum Keybind {
    PushToTalk,
    PushToMute,
    RadioPushToTalk,
    AcceptCall,
    EndCall,
    ToggleRadioPrio,
}

pub open spec fn unrecognized_key_code_text(name: Seq<char>) -> Seq<char> {
    "Unrecognized key code: "@ + name
        + ". Please report this error in our GitHub repository's issue tracker."@
}

/// Parses an optional frontend key-code text (e.g. `KeyA`) into a key code.
///
/// `None` stays `None`; a text that names no key code is an error whose message names it. A
/// parsed code displays as the text, or as the current form of one of the older names.
pub fn parse_key_code(code: Option<String>) -> (r: Result<Option<Code>, KeybindsError>)
    ensures
        match code {
            None => r matches Ok(None),
            Some(s) => if parsed_code(s@) is Some {
                r == Ok::<Option<Code>, KeybindsError>(parsed_code(s@)) && key_code_text(
                    parsed_code(s@)->0,
                ) == canonical_code_name(s@)
            } else {
                r matches Err(KeybindsError::Other(m)) && m@ == unrecognized_key_code_text(s@)
            },
        },
{
    match code {
        None => Ok(None),
        Some(s) => match parse_code(s.as_str()) {
            Some(c) => Ok(Some(c)),
            None => {
                let mut m = copy_text("Unrecognized key code: ");
                m.append(s.as_str());
                m.append(". Please report this error in our GitHub repository's issue tracker.");
                Err(KeybindsError::Other(m))
            },
        },
    }
}

/// On Wayland: a configured joystick button replaces the portal shortcut; otherwise the
/// portal activation, if any, drives the action (keyboard codes are handled by the portal).
pub open spec fn spec_compose_wayland_trigger(
    portal: Option<PortalAction>,
    configured: Option<InputCode>,
) -> Option<Trigger> {
    match configured {
        Some(InputCode::Button(b)) => Some(Trigger::Input(InputCode::Button(b))),
        _ => match portal {
            Some(p) => Some(Trigger::Portal(p)),
            None => None,
        },
    }
}

/// Composes the active trigger for a keybind action on Wayland.
pub fn compose_wayland_trigger(portal: Option<PortalAction>, configured: &Option<InputCode>) -> (r:
    Option<Trigger>)
    ensures
        r == spec_compose_wayland_trigger(portal, *configured),
{
    if let Some(InputCode::Button(b)) = configured {
        return Some(Trigger::Input(InputCode::Button(b.duplicate())));
    }
    match portal {
        Some(p) => Some(Trigger::Portal(p)),
        None => None,
    }
}

pub open spec fn input_trigger(i: Option<InputCode>) -> Option<Trigger> {
    match i {
        Some(x) => Some(Trigger::Input(x)),
        None => None,
    }
}

/// How the call microphone is keyed.
#[derive(Debug, Clone, Copy, PartialEq, Eq, Structural)]
pub enum CallMicMode {
    VoiceActivation,
    PushToTalk,
    PushToMute,
}

impl Default for CallMicMode {
    fn default() -> (r: CallMicMode)
        ensures
            r == CallMicMode::VoiceActivation,
    {
        CallMicMode::VoiceActivation
    }
}

/// Configuration of the transmission mode and its keybinds.
#[derive(Debug)]
pub struct TransmitConfig {
    pub call_mic_mode: CallMicMode,
    /// Input binding for push-to-talk; required in that mode.
    pub push_to_talk: Option<InputCode>,
    /// Input binding for push-to-mute; required in that mode.
    pub push_to_mute: Option<InputCode>,
    /// Input binding for radio push-to-talk.
    pub radio_push_to_talk: Option<InputCode>,
    /// Set when the configuration was migrated from the old transmit mode: whether that mode
    /// was radio integration.
    pub was_radio_integration: Option<bool>,
}

impl Default for TransmitConfig {
    fn default() -> (r: TransmitConfig)
        ensures
            r.call_mic_mode == CallMicMode::VoiceActivation,
            r.push_to_talk is None,
            r.push_to_mute is None,
            r.radio_push_to_talk is None,
            r.was_radio_integration is None,
    {
        TransmitConfig {
            call_mic_mode: CallMicMode::VoiceActivation,
            push_to_talk: None,
            push_to_mute: None,
            radio_push_to_talk: None,
            was_radio_integration: None,
        }
    }
}

/// The input configured for the call microphone action.
pub open spec fn spec_configured_call_input(c: TransmitConfig) -> Option<InputCode> {
    match c.call_mic_mode {
        CallMicMode::VoiceActivation => None,
        CallMicMode::PushToTalk => c.push_to_talk,
        CallMicMode::PushToMute => c.push_to_mute,
    }
}

/// The input configured for radio TX: the dedicated binding, except that push-to-talk without
/// one follows the call binding and push-to-mute always follows the push-to-mute binding.
pub open spec fn spec_configured_radio_input(c: TransmitConfig) -> Option<InputCode> {
    match c.call_mic_mode {
        CallMicMode::VoiceActivation => c.radio_push_to_talk,
        CallMicMode::PushToTalk => match c.radio_push_to_talk {
            Some(i) => Some(i),
            None => c.push_to_talk,
        },
        CallMicMode::PushToMute => c.push_to_mute,
    }
}

pub open spec fn call_portal_action(m: CallMicMode) -> Option<PortalAction> {
    match m {
        CallMicMode::VoiceActivation => None,
        CallMicMode::PushToTalk => Some(PortalAction::PushToTalk),
        CallMicMode::PushToMute => Some(PortalAction::PushToMute),
    }
}

pub open spec fn radio_portal_action(m: CallMicMode) -> PortalAction {
    match m {
        CallMicMode::PushToMute => PortalAction::PushToMute,
        _ => PortalAction::RadioPushToTalk,
    }
}

pub open spec fn spec_active_call_trigger(c: TransmitConfig, platform: Platform) -> Option<Trigger> {
    if platform == Platform::LinuxWayland {
        spec_compose_wayland_trigger(call_portal_action(c.call_mic_mode), spec_configured_call_input(c))
    } else {
        input_trigger(spec_configured_call_input(c))
    }
}

pub open spec fn spec_active_radio_trigger(c: TransmitConfig, enabled: bool, platform: Platform) -> Option<
    Trigger,
> {
    if !enabled {
        None
    } else if platform == Platform::LinuxWayland {
        spec_compose_wayland_trigger(
            Some(radio_portal_action(c.call_mic_mode)),
            spec_configured_radio_input(c),
        )
    } else {
        input_trigger(spec_configured_radio_input(c))
    }
}

pub open spec fn spec_radio_falls_back_to_call(c: TransmitConfig, enabled: bool, platform: Platform) -> bool {
    &&& enabled
    &&& platform == Platform::LinuxWayland
    &&& c.call_mic_mode == CallMicMode::PushToTalk
    &&& !(spec_configured_radio_input(c) matches Some(InputCode::Button(_)))
}

impl TransmitConfig {
    /// The configured input that drives the call microphone, disregarding the Wayland portal.
    pub fn configured_call_input(&self) -> (r: Option<InputCode>)
        ensures
            r == spec_configured_call_input(*self),
    {
        match self.call_mic_mode {
            CallMicMode::VoiceActivation => None,
            CallMicMode::PushToTalk => copy_opt_input(&self.push_to_talk),
            CallMicMode::PushToMute => copy_opt_input(&self.push_to_mute),
        }
    }

    /// The trigger that drives the call microphone on `platform`, if any.
    pub fn active_call_trigger(&self, platform: Platform) -> (r: Option<Trigger>)
        ensures
            r == spec_active_call_trigger(*self, platform),
    {
        let configured = self.configured_call_input();
        if platform == Platform::LinuxWayland {
            let portal = match self.call_mic_mode {
                CallMicMode::VoiceActivation => None,
                CallMicMode::PushToTalk => Some(PortalAction::PushToTalk),
                CallMicMode::PushToMute => Some(PortalAction::PushToMute),
            };
            return compose_wayland_trigger(portal, &configured);
        }
        match configured {
            Some(i) => Some(Trigger::Input(i)),
            None => None,
        }
    }

    /// The configured input that drives radio TX, disregarding the Wayland portal.
    pub fn configured_radio_input(&self) -> (r: Option<InputCode>)
        ensures
            r == spec_configured_radio_input(*self),
    {
        match self.call_mic_mode {
            CallMicMode::VoiceActivation => copy_opt_input(&self.radio_push_to_talk),
            CallMicMode::PushToTalk => match &self.radio_push_to_talk {
                Some(i) => Some(i.duplicate()),
                None => copy_opt_input(&self.push_to_talk),
            },
            CallMicMode::PushToMute => copy_opt_input(&self.push_to_mute),
        }
    }

    /// The dedicated trigger for radio TX on `platform`, if radio integration is enabled.
    ///
    /// Off Wayland this is the effective trigger. On Wayland it is the dedicated portal action
    /// (or a configured joystick button); whether radio TX follows the call trigger instead is
    /// resolved at runtime, see `radio_falls_back_to_call`.
    pub fn active_radio_trigger(&self, enabled: bool, platform: Platform) -> (r: Option<Trigger>)
        ensures
            r == spec_active_radio_trigger(*self, enabled, platform),
    {
        if !enabled {
            return None;
        }
        let configured = self.configured_radio_input();
        if platform == Platform::LinuxWayland {
            let portal = match self.call_mic_mode {
                CallMicMode::VoiceActivation | CallMicMode::PushToTalk => PortalAction::RadioPushToTalk,
                CallMicMode::PushToMute => PortalAction::PushToMute,
            };
            return compose_wayland_trigger(Some(portal), &configured);
        }
        match configured {
            Some(i) => Some(Trigger::Input(i)),
            None => None,
        }
    }

    /// Whether radio TX falls back to the call trigger while no dedicated radio shortcut is
    /// bound at the OS level: only on Wayland, in push-to-talk mode with radio integration
    /// enabled, and not when a joystick button replaces the radio portal shortcut.
    pub fn radio_falls_back_to_call(&self, enabled: bool, platform: Platform) -> (r: bool)
        ensures
            r == spec_radio_falls_back_to_call(*self, enabled, platform),
    {
        if enabled && platform == Platform::LinuxWayland && self.call_mic_mode
            == CallMicMode::PushToTalk {
            let configured = self.configured_radio_input();
            return match configured {
                Some(InputCode::Button(_)) => false,
                _ => true,
            };
        }
        false
    }

    pub fn duplicate(&self) -> (r: TransmitConfig)
        ensures
            r == *self,
    {
        TransmitConfig {
            call_mic_mode: self.call_mic_mode,
            push_to_talk: copy_opt_input(&self.push_to_talk),
            push_to_mute: copy_opt_input(&self.push_to_mute),
            radio_push_to_talk: copy_opt_input(&self.radio_push_to_talk),
            was_radio_integration: self.was_radio_integration,
        }
    }
}

/// The transmit mode of configurations written before the call microphone mode existed.
#[derive(Debug, Clone, Copy, PartialEq, Eq, Structural)]
pub enum TransmitMode {
    VoiceActivation,
    PushToTalk,
    PushToMute,
    RadioIntegration,
}

/// A transmit configuration as stored, in either the current or the old format.
#[derive(Debug)]
pub struct TransmitConfigRaw {
    pub call_mic_mode: Option<CallMicMode>,
    pub mode: Option<TransmitMode>,
    pub push_to_talk: Option<InputCode>,
    pub push_to_mute: Option<InputCode>,
    pub radio_push_to_talk: Option<InputCode>,
}

pub open spec fn migrated_mic_mode(m: TransmitMode) -> CallMicMode {
    match m {
        TransmitMode::VoiceActivation => CallMicMode::VoiceActivation,
        TransmitMode::PushToTalk | TransmitMode::RadioIntegration => CallMicMode::PushToTalk,
        TransmitMode::PushToMute => CallMicMode::PushToMute,
    }
}

/// The old format wins and is migrated (radio integration becomes push-to-talk on the radio
/// binding); otherwise the current format is taken as stored; with neither, the default.
pub open spec fn spec_from_raw(raw: TransmitConfigRaw) -> TransmitConfig {
    match raw.mode {
        Some(mode) => TransmitConfig {
            call_mic_mode: migrated_mic_mode(mode),
            push_to_talk: if mode == TransmitMode::RadioIntegration {
                raw.radio_push_to_talk
            } else {
                raw.push_to_talk
            },
            push_to_mute: raw.push_to_mute,
            radio_push_to_talk: raw.radio_push_to_talk,
            was_radio_integration: Some(mode == TransmitMode::RadioIntegration),
        },
        None => match raw.call_mic_mode {
            Some(m) => TransmitConfig {
                call_mic_mode: m,
                push_to_talk: raw.push_to_talk,
                push_to_mute: raw.push_to_mute,
                radio_push_to_talk: raw.radio_push_to_talk,
                was_radio_integration: None,
            },
            None => TransmitConfig {
                call_mic_mode: CallMicMode::VoiceActivation,
                push_to_talk: None,
                push_to_mute: None,
                radio_push_to_talk: None,
                was_radio_integration: None,
            },
        },
    }
}

impl TransmitConfig {
    /// The configuration a stored record stands for, migrating the old transmit mode.
    pub fn from_raw(raw: TransmitConfigRaw) -> (r: TransmitConfig)
        ensures
            r == spec_from_raw(raw),
    {
        if let Some(mode) = raw.mode {
            let call_mic_mode = match mode {
                TransmitMode::VoiceActivation => CallMicMode::VoiceActivation,
                TransmitMode::PushToTalk | TransmitMode::RadioIntegration => CallMicMode::PushToTalk,
                TransmitMode::PushToMute => CallMicMode::PushToMute,
            };
            let is_radio_integration = mode == TransmitMode::RadioIntegration;
            let push_to_talk = if is_radio_integration {
                copy_opt_input(&raw.radio_push_to_talk)
            } else {
                raw.push_to_talk
            };
            return TransmitConfig {
                call_mic_mode,
                push_to_talk,
                push_to_mute: raw.push_to_mute,
                radio_push_to_talk: raw.radio_push_to_talk,
                was_radio_integration: Some(is_radio_integration),
            };
        }
        if let Some(call_mic_mode) = raw.call_mic_mode {
            return TransmitConfig {
                call_mic_mode,
                push_to_talk: raw.push_to_talk,
                push_to_mute: raw.push_to_mute,
                radio_push_to_talk: raw.radio_push_to_talk,
                was_radio_integration: None,
            };
        }
        TransmitConfig::default()
    }
}

/// Keybinds for call control, independent of the transmit mode.
#[derive(Debug)]
pub struct KeybindsConfig {
    /// Input binding to accept an incoming call.
    pub accept_call: Option<InputCode>,
    /// Input binding to end an active call.
    pub end_call: Option<InputCode>,
    /// Input binding to toggle radio prio during an active call.
    pub toggle_radio_prio: Option<InputCode>,
}

impl Default for KeybindsConfig {
    fn default() -> (r: KeybindsConfig)
        ensures
            r.accept_call is None,
            r.end_call is None,
            r.toggle_radio_prio is None,
    {
        KeybindsConfig { accept_call: None, end_call: None, toggle_radio_prio: None }
    }
}

impl KeybindsConfig {
    pub fn duplicate(&self) -> (r: KeybindsConfig)
        ensures
            r == *self,
    {
        KeybindsConfig {
            accept_call: copy_opt_input(&self.accept_call),
            end_call: copy_opt_input(&self.end_call),
            toggle_radio_prio: copy_opt_input(&self.toggle_radio_prio),
        }
    }

    /// Binds `input` to a call-control keybind; the transmit keybinds are configured through
    /// the transmit configuration, so binding one of them here changes nothing.
    pub fn set_binding(&mut self, keybind: Keybind, input: Option<InputCode>)
        ensures
            keybind == Keybind::AcceptCall ==> final(self).accept_call == input,
            keybind != Keybind::AcceptCall ==> final(self).accept_call == old(self).accept_call,
            keybind == Keybind::EndCall ==> final(self).end_call == input,
            keybind != Keybind::EndCall ==> final(self).end_call == old(self).end_call,
            keybind == Keybind::ToggleRadioPrio ==> final(self).toggle_radio_prio == input,
            keybind != Keybind::ToggleRadioPrio ==> final(self).toggle_radio_prio == old(
                self,
            ).toggle_radio_prio,
    {
        match keybind {
            Keybind::AcceptCall => self.accept_call = input,
            Keybind::EndCall => self.end_call = input,
            Keybind::ToggleRadioPrio => self.toggle_radio_prio = input,
            _ => {},
        }
    }
}

/// Law: whenever radio TX may fall back to the call trigger, there is a dedicated radio
/// trigger to fall back from.
pub proof fn lemma_fallback_has_radio_trigger(c: TransmitConfig, enabled: bool, platform: Platform)
    requires
        spec_radio_falls_back_to_call(c, enabled, platform),
    ensures
        spec_active_radio_trigger(c, enabled, platform) is Some,
        spec_active_radio_trigger(c, enabled, platform) == Some(
            Trigger::Portal(PortalAction::RadioPushToTalk),
        ),
{
}

/// Law: radio TX never falls back to the call trigger with radio integration disabled, nor
/// off Wayland, nor outside push-to-talk.
pub proof fn lemma_fallback_only_for_wayland_push_to_talk(
    c: TransmitConfig,
    enabled: bool,
    platform: Platform,
)
    ensures
        !enabled ==> !spec_radio_falls_back_to_call(c, enabled, platform),
        platform != Platform::LinuxWayland ==> !spec_radio_falls_back_to_call(c, enabled, platform),
        c.call_mic_mode != CallMicMode::PushToTalk ==> !spec_radio_falls_back_to_call(
            c,
            enabled,
            platform,
        ),
{
}

/// Law: off Wayland, without a dedicated radio binding in push-to-talk mode, radio TX follows
/// the call push-to-talk binding; in push-to-mute mode both follow the push-to-mute binding.
pub proof fn lemma_radio_follows_call_binding_off_wayland(c: TransmitConfig, platform: Platform)
    requires
        platform != Platform::LinuxWayland,
        (c.call_mic_mode == CallMicMode::PushToTalk && c.radio_push_to_talk is None)
            || c.call_mic_mode == CallMicMode::PushToMute,
    ensures
        spec_active_radio_trigger(c, true, platform) == spec_active_call_trigger(c, platform),
{
}

} // verus!
