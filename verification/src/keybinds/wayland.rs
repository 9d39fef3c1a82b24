//! Identifiers of the shortcuts registered with the XDG Global Shortcuts portal on Wayland,
//! and the app ids offered to the portal's registry.

use vstd::prelude::*;
use vstd::string::*;
use crate::keybinds::{Keybind, KeyEvent, KeyState, PortalAction};
use crate::text::{ascii_lower, copy_text, eq_ignore_ascii_case, eq_ignore_case};

verus! {

/// Unicode's White_Space property, which `char::is_whitespace` tests.
pub open spec fn is_white_space(c: char) -> bool {
    let u = c as int;
    ||| 0x09 <= u <= 0x0d
    ||| u == 0x20
    ||| u == 0x85
    ||| u == 0xa0
    ||| u == 0x1680
    ||| 0x2000 <= u <= 0x200a
    ||| u == 0x2028
    ||| u == 0x2029
    ||| u == 0x202f
    ||| u == 0x205f
    ||| u == 0x3000
}

/// The text without its leading white space.
pub open spec fn trim_start(s: Seq<char>) -> Seq<char>
    decreases s.len(),
{
    if s.len() > 0 && is_white_space(s[0]) {
        trim_start(s.drop_first())
    } else {
        s
    }
}

/// The text without its trailing white space.
pub open spec fn trim_end(s: Seq<char>) -> Seq<char>
    decreases s.len(),
{
    if s.len() > 0 && is_white_space(s.last()) {
        trim_end(s.drop_last())
    } else {
        s
    }
}

/// The text with leading and trailing white space removed, as `str::trim` gives it.
pub open spec fn trimmed(s: Seq<char>) -> Seq<char> {
    trim_end(trim_start(s))
}

/// Removes leading and trailing white space (`char::is_whitespace`); wraps `str::trim`.
#[verifier::external_body]
fn trim(s: &str) -> (r: &str)
    ensures
        r@ == trimmed(s@),
{
    s.trim()
}

/// Shortcuts registered with the portal, one per keybind action the portal drives.
#[derive(Debug, Clone, Copy, PartialEq, Eq, Structural)]
pub enum PortalShortcutId {
    PushToTalk,
    PushToMute,
    RadioPushToTalk,
    CallControl,
    ToggleRadioPrio,
}

pub open spec fn shortcut_name(id: PortalShortcutId) -> Seq<char> {
    match id {
        PortalShortcutId::PushToTalk => "push_to_talk"@,
        PortalShortcutId::PushToMute => "push_to_mute"@,
        PortalShortcutId::RadioPushToTalk => "radio_push_to_talk"@,
        PortalShortcutId::CallControl => "call_control"@,
        PortalShortcutId::ToggleRadioPrio => "toggle_radio_prio"@,
    }
}

pub open spec fn shortcut_description(id: PortalShortcutId) -> Seq<char> {
    match id {
        PortalShortcutId::PushToTalk => "Push-to-talk (activate voice transmission while held)"@,
        PortalShortcutId::PushToMute => "Push-to-mute (mute microphone while held)"@,
        PortalShortcutId::RadioPushToTalk => "Radio Push-to-talk (activate radio transmission while held)"@,
        PortalShortcutId::CallControl => "Call Control (end active/accept next)"@,
        PortalShortcutId::ToggleRadioPrio => "Toggle Radio Priority (during active call)"@,
    }
}

/// ASCII lowercase of a whole text.
pub open spec fn ascii_lowercase(s: Seq<char>) -> Seq<char> {
    s.map_values(|c: char| ascii_lower(c))
}

/// The shortcut a text names: its trimmed, ASCII-lowercased form is the shortcut's name.
pub open spec fn spec_parse_shortcut(s: Seq<char>) -> Option<PortalShortcutId> {
    let t = ascii_lowercase(trimmed(s));
    if t == "push_to_talk"@ {
        Some(PortalShortcutId::PushToTalk)
    } else if t == "push_to_mute"@ {
        Some(PortalShortcutId::PushToMute)
    } else if t == "radio_push_to_talk"@ {
        Some(PortalShortcutId::RadioPushToTalk)
    } else if t == "call_control"@ {
        Some(PortalShortcutId::CallControl)
    } else if t == "toggle_radio_prio"@ {
        Some(PortalShortcutId::ToggleRadioPrio)
    } else {
        None
    }
}

/// For a name without ASCII capitals, comparing without regard to ASCII case is comparing
/// the lowercased text.
proof fn lemma_eq_ignore_case_lowercase(s: Seq<char>, name: Seq<char>)
    requires
        forall|i: int| 0 <= i < name.len() ==> ascii_lower(#[trigger] name[i]) == name[i],
    ensures
        eq_ignore_case(s, name) == (ascii_lowercase(s) == name),
{
    if eq_ignore_case(s, name) {
        assert(ascii_lowercase(s) =~= name);
    }
    if ascii_lowercase(s) == name {
        assert forall|i: int| 0 <= i < s.len() implies #[trigger] ascii_lower(s[i]) == ascii_lower(
            name[i],
        ) by {
            assert(ascii_lowercase(s)[i] == ascii_lower(s[i]));
        }
    }
}

/// Whether the text, ASCII-lowercased, is `name` (itself free of ASCII capitals).
fn is_named(t: &str, name: &str) -> (r: bool)
    requires
        forall|i: int| 0 <= i < name@.len() ==> ascii_lower(#[trigger] name@[i]) == name@[i],
    ensures
        r == (ascii_lowercase(t@) == name@),
{
    proof {
        lemma_eq_ignore_case_lowercase(t@, name@);
    }
    eq_ignore_ascii_case(t, name)
}

impl PortalShortcutId {
    /// The id the shortcut is registered under.
    pub fn as_str(&self) -> (r: &'static str)
        ensures
            r@ == shortcut_name(*self),
    {
        match self {
            PortalShortcutId::PushToTalk => "push_to_talk",
            PortalShortcutId::PushToMute => "push_to_mute",
            PortalShortcutId::RadioPushToTalk => "radio_push_to_talk",
            PortalShortcutId::CallControl => "call_control",
            PortalShortcutId::ToggleRadioPrio => "toggle_radio_prio",
        }
    }

    /// The description shown by the desktop environment's shortcut dialog.
    pub fn description(&self) -> (r: &'static str)
        ensures
            r@ == shortcut_description(*self),
    {
        match self {
            PortalShortcutId::PushToTalk => "Push-to-talk (activate voice transmission while held)",
            PortalShortcutId::PushToMute => "Push-to-mute (mute microphone while held)",
            PortalShortcutId::RadioPushToTalk => "Radio Push-to-talk (activate radio transmission while held)",
            PortalShortcutId::CallControl => "Call Control (end active/accept next)",
            PortalShortcutId::ToggleRadioPrio => "Toggle Radio Priority (during active call)",
        }
    }

    /// Every shortcut, in registration order.
    pub fn all() -> (r: Vec<PortalShortcutId>)
        ensures
            r@ == seq![
                PortalShortcutId::PushToTalk,
                PortalShortcutId::PushToMute,
                PortalShortcutId::RadioPushToTalk,
                PortalShortcutId::CallControl,
                PortalShortcutId::ToggleRadioPrio,
            ],
    {
        let mut v: Vec<PortalShortcutId> = Vec::new();
        v.push(PortalShortcutId::PushToTalk);
        v.push(PortalShortcutId::PushToMute);
        v.push(PortalShortcutId::RadioPushToTalk);
        v.push(PortalShortcutId::CallControl);
        v.push(PortalShortcutId::ToggleRadioPrio);
        v
    }

    /// Parses a shortcut id, ignoring surrounding white space and ASCII case.
    pub fn parse(s: &str) -> (r: Result<PortalShortcutId, String>)
        ensures
            match spec_parse_shortcut(s@) {
                Some(id) => r == Ok::<PortalShortcutId, String>(id),
                None => r matches Err(m) && m@ == "unknown portal shortcut id "@ + s@,
            },
    {
        proof {
            reveal_strlit("push_to_talk");
            reveal_strlit("push_to_mute");
            reveal_strlit("radio_push_to_talk");
            reveal_strlit("call_control");
            reveal_strlit("toggle_radio_prio");
        }
        let t = trim(s);
        if is_named(t, "push_to_talk") {
            Ok(PortalShortcutId::PushToTalk)
        } else if is_named(t, "push_to_mute") {
            Ok(PortalShortcutId::PushToMute)
        } else if is_named(t, "radio_push_to_talk") {
            Ok(PortalShortcutId::RadioPushToTalk)
        } else if is_named(t, "call_control") {
            Ok(PortalShortcutId::CallControl)
        } else if is_named(t, "toggle_radio_prio") {
            Ok(PortalShortcutId::ToggleRadioPrio)
        } else {
            Err(copy_text("unknown portal shortcut id ").concat(s))
        }
    }
}

/// Law: no two shortcuts are registered under the same id.
pub proof fn lemma_shortcut_names_distinct(a: PortalShortcutId, b: PortalShortcutId)
    ensures
        shortcut_name(a) == shortcut_name(b) ==> a == b,
{
    lemma_shortcut_name_round_trip(a);
    lemma_shortcut_name_round_trip(b);
}

/// Law: every shortcut's own id (as `as_str` gives it) parses back to it.
pub proof fn lemma_shortcut_name_round_trip(id: PortalShortcutId)
    ensures
        spec_parse_shortcut(shortcut_name(id)) == Some(id),
{
    reveal_strlit("push_to_talk");
    reveal_strlit("push_to_mute");
    reveal_strlit("radio_push_to_talk");
    reveal_strlit("call_control");
    reveal_strlit("toggle_radio_prio");
    let n = shortcut_name(id);
    assert(!is_white_space(n[0]) && !is_white_space(n.last()));
    assert(trimmed(n) == n);
    assert(ascii_lowercase(n) =~= n);
    match id {
        PortalShortcutId::PushToTalk => {},
        PortalShortcutId::PushToMute => {
            assert(n[8] != "push_to_talk"@[8]);
        },
        PortalShortcutId::RadioPushToTalk => {},
        PortalShortcutId::CallControl => {
            assert(n[0] != "push_to_talk"@[0]);
            assert(n[0] != "push_to_mute"@[0]);
        },
        PortalShortcutId::ToggleRadioPrio => {},
    }
}

pub open spec fn action_of_shortcut(id: PortalShortcutId) -> PortalAction {
    match id {
        PortalShortcutId::PushToTalk => PortalAction::PushToTalk,
        PortalShortcutId::PushToMute => PortalAction::PushToMute,
        PortalShortcutId::RadioPushToTalk => PortalAction::RadioPushToTalk,
        PortalShortcutId::CallControl => PortalAction::CallControl,
        PortalShortcutId::ToggleRadioPrio => PortalAction::ToggleRadioPrio,
    }
}

impl From<PortalShortcutId> for PortalAction {
    fn from(value: PortalShortcutId) -> (r: PortalAction) {
        match value {
            PortalShortcutId::PushToTalk => PortalAction::PushToTalk,
            PortalShortcutId::PushToMute => PortalAction::PushToMute,
            PortalShortcutId::RadioPushToTalk => PortalAction::RadioPushToTalk,
            PortalShortcutId::CallControl => PortalAction::CallControl,
            PortalShortcutId::ToggleRadioPrio => PortalAction::ToggleRadioPrio,
        }
    }
}

impl vstd::std_specs::convert::FromSpecImpl<PortalShortcutId> for PortalAction {
    open spec fn obeys_from_spec() -> bool {
        true
    }

    open spec fn from_spec(value: PortalShortcutId) -> PortalAction {
        action_of_shortcut(value)
    }
}

/// Accepting and ending a call share the one call-control shortcut.
pub open spec fn shortcut_of_keybind(k: Keybind) -> PortalShortcutId {
    match k {
        Keybind::PushToTalk => PortalShortcutId::PushToTalk,
        Keybind::PushToMute => PortalShortcutId::PushToMute,
        Keybind::RadioPushToTalk => PortalShortcutId::RadioPushToTalk,
        Keybind::AcceptCall => PortalShortcutId::CallControl,
        Keybind::EndCall => PortalShortcutId::CallControl,
        Keybind::ToggleRadioPrio => PortalShortcutId::ToggleRadioPrio,
    }
}

impl From<Keybind> for PortalShortcutId {
    fn from(value: Keybind) -> (r: PortalShortcutId) {
        match value {
            Keybind::PushToTalk => PortalShortcutId::PushToTalk,
            Keybind::PushToMute => PortalShortcutId::PushToMute,
            Keybind::RadioPushToTalk => PortalShortcutId::RadioPushToTalk,
            Keybind::AcceptCall => PortalShortcutId::CallControl,
            Keybind::EndCall => PortalShortcutId::CallControl,
            Keybind::ToggleRadioPrio => PortalShortcutId::ToggleRadioPrio,
        }
    }
}

impl vstd::std_specs::convert::FromSpecImpl<Keybind> for PortalShortcutId {
    open spec fn obeys_from_spec() -> bool {
        true
    }

    open spec fn from_spec(value: Keybind) -> PortalShortcutId {
        shortcut_of_keybind(value)
    }
}

/// Basename of the desktop entry the bundler installs.
pub const DESKTOP_APP_ID: &'static str = "vacs";

/// The packaged desktop entry first, then the URL handler entry the deep-link plugin writes
/// for the running executable (named after its file name), when that name is known.
pub open spec fn spec_candidate_app_ids(exe_file_name: Option<Seq<char>>) -> Seq<Seq<char>> {
    match exe_file_name {
        Some(name) => seq!["vacs"@, name + "-handler"@],
        None => seq!["vacs"@],
    }
}

/// The app ids offered to the portal's registry, in order of preference.
pub fn candidate_app_ids(exe_file_name: Option<&str>) -> (r: Vec<String>)
    ensures
        r@.map_values(|s: String| s@) == spec_candidate_app_ids(
            match exe_file_name {
                Some(n) => Some(n@),
                None => None,
            },
        ),
{
    let mut candidates: Vec<String> = Vec::new();
    candidates.push(copy_text(DESKTOP_APP_ID));
    if let Some(name) = exe_file_name {
        candidates.push(copy_text(name).concat("-handler"));
    }
    proof {
        assert(DESKTOP_APP_ID@ == "vacs"@);
        assert(candidates@.map_values(|s: String| s@) =~= spec_candidate_app_ids(
            match exe_file_name {
                Some(n) => Some(n@),
                None => None,
            },
        ));
    }
    candidates
}

/// D-Bus lookup failures: the portal has no app registry at all.
pub open spec fn spec_missing_interface(error_name: Seq<char>) -> bool {
    error_name == "org.freedesktop.DBus.Error.UnknownMethod"@ || error_name
        == "org.freedesktop.DBus.Error.UnknownInterface"@
}

/// Whether a registration error means the portal has no registry (as opposed to a rejected
/// app id).
pub fn is_missing_interface(error_name: &str) -> (r: bool)
    ensures
        r == spec_missing_interface(error_name@),
{
    let name = copy_text(error_name);
    name == copy_text("org.freedesktop.DBus.Error.UnknownMethod") || name == copy_text(
        "org.freedesktop.DBus.Error.UnknownInterface",
    )
}

/// How a registration attempt turned out.
#[derive(Debug, Clone, Copy, PartialEq, Eq, Structural)]
pub enum Registration {
    Accepted,
    /// The portal has no registry.
    NoRegistry,
    Rejected,
}

/// What to do after a registration attempt.
#[derive(Debug, Clone, Copy, PartialEq, Eq, Structural)]
pub enum RegistrationStep {
    /// Use the registered connection.
    UseConnection,
    /// Stop trying and fall back to an unregistered connection.
    GiveUp,
    /// Try the next candidate, or fall back when none is left.
    TryNext,
}

/// The next step after a registration attempt: an accepted id is used, a missing registry
/// ends the attempts, a rejected id moves on to the next candidate.
pub fn registration_step(outcome: Registration) -> (r: RegistrationStep)
    ensures
        r == match outcome {
            Registration::Accepted => RegistrationStep::UseConnection,
            Registration::NoRegistry => RegistrationStep::GiveUp,
            Registration::Rejected => RegistrationStep::TryNext,
        },
{
    match outcome {
        Registration::Accepted => RegistrationStep::UseConnection,
        Registration::NoRegistry => RegistrationStep::GiveUp,
        Registration::Rejected => RegistrationStep::TryNext,
    }
}


/// The slot of a shortcut in registration order.
pub open spec fn slot_of(id: PortalShortcutId) -> int {
    match id {
        PortalShortcutId::PushToTalk => 0,
        PortalShortcutId::PushToMute => 1,
        PortalShortcutId::RadioPushToTalk => 2,
        PortalShortcutId::CallControl => 3,
        PortalShortcutId::ToggleRadioPrio => 4,
    }
}

fn slot(id: PortalShortcutId) -> (r: usize)
    ensures
        r == slot_of(id),
{
    match id {
        PortalShortcutId::PushToTalk => 0,
        PortalShortcutId::PushToMute => 1,
        PortalShortcutId::RadioPushToTalk => 2,
        PortalShortcutId::CallControl => 3,
        PortalShortcutId::ToggleRadioPrio => 4,
    }
}

/// What the portal reports of one shortcut: its id and the key combination bound to it (empty
/// when the backend reports none).
pub open spec fn reported_entry(e: (String, String)) -> (Seq<char>, Seq<char>) {
    (e.0@, e.1@)
}

/// One reported shortcut merged in: a known shortcut with a key combination takes it; an empty
/// combination means that the backend does not report it here, so nothing changes.
pub open spec fn merge_one(m: Map<PortalShortcutId, Seq<char>>, e: (Seq<char>, Seq<char>)) -> Map<
    PortalShortcutId,
    Seq<char>,
> {
    match spec_parse_shortcut(e.0) {
        Some(id) => if e.1.len() > 0 {
            m.insert(id, e.1)
        } else {
            m
        },
        None => m,
    }
}

/// One change the user made: a known shortcut takes its new combination, or is unbound when
/// the combination is empty.
pub open spec fn change_one(m: Map<PortalShortcutId, Seq<char>>, e: (Seq<char>, Seq<char>)) -> Map<
    PortalShortcutId,
    Seq<char>,
> {
    match spec_parse_shortcut(e.0) {
        Some(id) => if e.1.len() > 0 {
            m.insert(id, e.1)
        } else {
            m.remove(id)
        },
        None => m,
    }
}

/// The reported shortcuts merged in, in order.
pub open spec fn merge_all(m: Map<PortalShortcutId, Seq<char>>, es: Seq<(String, String)>) -> Map<
    PortalShortcutId,
    Seq<char>,
>
    decreases es.len(),
{
    if es.len() == 0 {
        m
    } else {
        merge_one(merge_all(m, es.drop_last()), reported_entry(es.last()))
    }
}

/// The changes applied, in order.
pub open spec fn change_all(m: Map<PortalShortcutId, Seq<char>>, es: Seq<(String, String)>) -> Map<
    PortalShortcutId,
    Seq<char>,
>
    decreases es.len(),
{
    if es.len() == 0 {
        m
    } else {
        change_one(change_all(m, es.drop_last()), reported_entry(es.last()))
    }
}

/// The key combinations the desktop has bound to the registered shortcuts.
#[derive(Debug)]
pub struct ShortcutBindings {
    /// By slot: the combination bound to the shortcut; slots past the end are unbound.
    slots: Vec<Option<String>>,
}

impl ShortcutBindings {
    /// Each bound shortcut with its key combination.
    pub closed spec fn bound(self) -> Map<PortalShortcutId, Seq<char>> {
        Map::new(
            |id: PortalShortcutId| slot_of(id) < self.slots@.len() && self.slots@[slot_of(id)] is Some,
            |id: PortalShortcutId| self.slots@[slot_of(id)]->0@,
        )
    }

    /// Nothing bound.
    pub fn new() -> (r: ShortcutBindings)
        ensures
            r.bound() == Map::<PortalShortcutId, Seq<char>>::empty(),
    {
        let r = ShortcutBindings { slots: Vec::new() };
        assert(r.bound() =~= Map::<PortalShortcutId, Seq<char>>::empty());
        r
    }

    /// The key combination bound to a shortcut, if any.
    pub fn get(&self, id: PortalShortcutId) -> (r: Option<String>)
        ensures
            self.bound().contains_key(id) ==> (r matches Some(t) && t@ == self.bound()[id]),
            !self.bound().contains_key(id) ==> r is None,
    {
        let k = slot(id);
        if k >= self.slots.len() {
            return None;
        }
        match &self.slots[k] {
            Some(t) => Some(t.clone()),
            None => None,
        }
    }

    /// Whether a shortcut is bound.
    pub fn contains(&self, id: PortalShortcutId) -> (r: bool)
        ensures
            r == self.bound().contains_key(id),
    {
        let k = slot(id);
        k < self.slots.len() && self.slots[k].is_some()
    }

    fn set(&mut self, id: PortalShortcutId, combination: Option<String>)
        ensures
            match combination {
                Some(t) => final(self).bound() == old(self).bound().insert(id, t@),
                None => final(self).bound() == old(self).bound().remove(id),
            },
    {
        let ghost before = self.bound();
        let ghost c = combination;
        let k = slot(id);
        while self.slots.len() <= k
            invariant
                k == slot_of(id),
                k < 5,
                self.bound() == before,
            decreases 5 - self.slots.len(),
        {
            let ghost prev = self.bound();
            self.slots.push(None);
            assert(self.bound() =~= prev);
        }
        self.slots.set(k, combination);
        proof {
            match c {
                Some(t) => {
                    assert forall|j: PortalShortcutId| #[trigger] self.bound().contains_key(j)
                        == before.insert(id, t@).contains_key(j) by {
                        if j != id {
                            assert(slot_of(j) != slot_of(id));
                        }
                    }
                    assert forall|j: PortalShortcutId| self.bound().contains_key(j) implies
                        #[trigger] self.bound()[j] == before.insert(id, t@)[j] by {
                        if j != id {
                            assert(slot_of(j) != slot_of(id));
                        }
                    }
                    assert(self.bound() =~= before.insert(id, t@));
                },
                None => {
                    assert forall|j: PortalShortcutId| #[trigger] self.bound().contains_key(j)
                        == before.remove(id).contains_key(j) by {
                        if j != id {
                            assert(slot_of(j) != slot_of(id));
                        }
                    }
                    assert forall|j: PortalShortcutId| self.bound().contains_key(j) implies
                        #[trigger] self.bound()[j] == before.remove(id)[j] by {
                        if j != id {
                            assert(slot_of(j) != slot_of(id));
                        }
                    }
                    assert(self.bound() =~= before.remove(id));
                },
            }
        }
    }

    /// Merges what the portal reports when shortcuts are listed or bound (see `merge_one`).
    pub fn merge_reported(&mut self, reported: &Vec<(String, String)>)
        ensures
            final(self).bound() == merge_all(old(self).bound(), reported@),
    {
        let mut i: usize = 0;
        while i < reported.len()
            invariant
                i <= reported.len(),
                self.bound() == merge_all(old(self).bound(), reported@.take(i as int)),
            decreases reported.len() - i,
        {
            proof {
                assert(reported@.take(i + 1).drop_last() =~= reported@.take(i as int));
                assert(reported@.take(i + 1).last() == reported@[i as int]);
            }
            let (name, combination) = &reported[i];
            match PortalShortcutId::parse(name.as_str()) {
                Ok(id) => {
                    if !combination.as_str().is_empty() {
                        self.set(id, Some(combination.clone()));
                    }
                },
                Err(_) => {},
            }
            i += 1;
        }
        proof {
            assert(reported@.take(reported@.len() as int) =~= reported@);
        }
    }

    /// Applies the changes the user made to the shortcuts (see `change_one`).
    pub fn apply_changes(&mut self, changed: &Vec<(String, String)>)
        ensures
            final(self).bound() == change_all(old(self).bound(), changed@),
    {
        let mut i: usize = 0;
        while i < changed.len()
            invariant
                i <= changed.len(),
                self.bound() == change_all(old(self).bound(), changed@.take(i as int)),
            decreases changed.len() - i,
        {
            proof {
                assert(changed@.take(i + 1).drop_last() =~= changed@.take(i as int));
                assert(changed@.take(i + 1).last() == changed@[i as int]);
            }
            let (name, combination) = &changed[i];
            match PortalShortcutId::parse(name.as_str()) {
                Ok(id) => {
                    if combination.as_str().is_empty() {
                        self.set(id, None);
                    } else {
                        self.set(id, Some(combination.clone()));
                    }
                },
                Err(_) => {},
            }
            i += 1;
        }
        proof {
            assert(changed@.take(changed@.len() as int) =~= changed@);
        }
    }
}

/// Merging reported shortcuts never unbinds one: an empty combination in a report means that
/// the backend does not report it there.
pub proof fn lemma_merge_never_unbinds(
    m: Map<PortalShortcutId, Seq<char>>,
    reported: Seq<(String, String)>,
    id: PortalShortcutId,
)
    requires
        m.contains_key(id),
    ensures
        merge_all(m, reported).contains_key(id),
    decreases reported.len(),
{
    if reported.len() > 0 {
        lemma_merge_never_unbinds(m, reported.drop_last(), id);
    }
}

/// Every registered shortcut is among the reported ids (compared exactly).
pub open spec fn all_shortcuts_reported(ids: Seq<String>) -> bool {
    forall|id: PortalShortcutId|
        exists|i: int| 0 <= i < ids.len() && (#[trigger] ids[i])@ == #[trigger] shortcut_name(id)
}

fn reported(ids: &Vec<String>, name: &str) -> (r: bool)
    ensures
        r == exists|i: int| 0 <= i < ids@.len() && (#[trigger] ids@[i])@ == name@,
{
    let wanted = copy_text(name);
    let mut i: usize = 0;
    while i < ids.len()
        invariant
            i <= ids.len(),
            wanted@ == name@,
            forall|k: int| 0 <= k < i ==> (#[trigger] ids@[k])@ != name@,
        decreases ids.len() - i,
    {
        if ids[i] == wanted {
            return true;
        }
        i += 1;
    }
    false
}

/// Whether the portal already knows every shortcut; then binding them shows no dialog.
pub fn all_reported(ids: &Vec<String>) -> (r: bool)
    ensures
        r == all_shortcuts_reported(ids@),
{
    let all = PortalShortcutId::all();
    let mut i: usize = 0;
    while i < all.len()
        invariant
            i <= all.len(),
            all@ == seq![
                PortalShortcutId::PushToTalk,
                PortalShortcutId::PushToMute,
                PortalShortcutId::RadioPushToTalk,
                PortalShortcutId::CallControl,
                PortalShortcutId::ToggleRadioPrio,
            ],
            forall|k: int| 0 <= k < i ==> exists|j: int| 0 <= j < ids@.len() && (#[trigger] ids@[j])@
                == shortcut_name(#[trigger] all@[k]),
        decreases all.len() - i,
    {
        if !reported(ids, all[i].as_str()) {
            assert(!all_shortcuts_reported(ids@)) by {
                let missing = all@[i as int];
                if all_shortcuts_reported(ids@) {
                    assert(exists|j: int| 0 <= j < ids@.len() && (#[trigger] ids@[j])@
                        == shortcut_name(missing));
                }
            }
            return false;
        }
        i += 1;
    }
    assert forall|id: PortalShortcutId| exists|i: int| 0 <= i < ids@.len() && (#[trigger] ids@[i])@
        == #[trigger] shortcut_name(id) by {
        let k: int = slot_of(id);
        assert(all@[k] == id);
    }
    true
}

/// The key event a portal activation (`Down`) or deactivation (`Up`) stands for; signals of
/// unknown shortcuts stand for none.
pub fn portal_key_event(shortcut_id: &str, state: KeyState) -> (r: Option<KeyEvent>)
    ensures
        match spec_parse_shortcut(shortcut_id@) {
            Some(id) => (r matches Some(e) && e.trigger == crate::keybinds::Trigger::Portal(
                action_of_shortcut(id),
            ) && e.label@ == shortcut_name(id) && e.state == state),
            None => r is None,
        },
{
    match PortalShortcutId::parse(shortcut_id) {
        Ok(id) => {
            let action: PortalAction = id.into();
            Some(KeyEvent::portal(action, copy_text(id.as_str()), state))
        },
        Err(_) => None,
    }
}

} // verus!
