//! Decisions behind the keybind settings: which bindings a platform can take, which joystick
//! press a capture takes, the joystick device list, and capture cancellation.

use vstd::prelude::*;
use crate::keybinds::{InputCode, JoystickButton, JoystickDevice, KeyEvent, KeyState, Trigger};
use crate::text::copy_text;

verus! {

/// A capability the platform lacks, named for the user.
#[derive(Debug)]
pub struct CapabilityNotAvailable {
    pub capability: String,
}

pub open spec fn is_key_binding(o: Option<InputCode>) -> bool {
    o matches Some(InputCode::Key(_))
}

/// At least one input source must be available, and keyboard bindings need the keyboard
/// listener (unavailable on X11 and unknown Linux sessions, where only joysticks work).
pub open spec fn spec_capability_check(
    keybind_listener: bool,
    joystick: bool,
    inputs: Seq<Option<InputCode>>,
) -> Option<Seq<char>> {
    if !keybind_listener && !joystick {
        Some("Keybinds"@)
    } else if !keybind_listener && exists|i: int| 0 <= i < inputs.len() && is_key_binding(
        #[trigger] inputs[i],
    ) {
        Some("Keyboard keybinds"@)
    } else {
        None
    }
}

/// Ensures the platform can handle the given bindings.
pub fn ensure_keybind_capability(
    keybind_listener: bool,
    joystick: bool,
    inputs: &Vec<Option<InputCode>>,
) -> (r: Result<(), CapabilityNotAvailable>)
    ensures
        match spec_capability_check(keybind_listener, joystick, inputs@) {
            None => r is Ok,
            Some(name) => r matches Err(e) && e.capability@ == name,
        },
{
    if !keybind_listener && !joystick {
        return Err(CapabilityNotAvailable { capability: copy_text("Keybinds") });
    }
    if !keybind_listener {
        let mut i: usize = 0;
        while i < inputs.len()
            invariant
                !keybind_listener,
                joystick,
                i <= inputs.len(),
                forall|k: int| 0 <= k < i ==> !is_key_binding(#[trigger] inputs@[k]),
            decreases inputs.len() - i,
        {
            if let Some(InputCode::Key(_)) = &inputs[i] {
                assert(is_key_binding(inputs@[i as int]));
                return Err(CapabilityNotAvailable { capability: copy_text("Keyboard keybinds") });
            }
            i += 1;
        }
    }
    Ok(())
}

/// The texts hold `s`.
pub open spec fn holds_text(v: Seq<String>, s: Seq<char>) -> bool {
    exists|i: int| 0 <= i < v.len() && (#[trigger] v[i])@ == s
}

/// Whether the texts hold `s`.
pub fn contains_text_item(v: &Vec<String>, s: &String) -> (r: bool)
    ensures
        r == holds_text(v@, s@),
{
    let mut i: usize = 0;
    while i < v.len()
        invariant
            i <= v.len(),
            forall|k: int| 0 <= k < i ==> (#[trigger] v@[k])@ != s@,
        decreases v.len() - i,
    {
        if v[i] == *s {
            return true;
        }
        i += 1;
    }
    false
}

/// The capture takes joystick button presses only, and none from an ignored device.
pub open spec fn spec_capturable(event: KeyEvent, ignored: Seq<String>) -> Option<JoystickButton> {
    match event.trigger {
        Trigger::Input(InputCode::Button(b)) => if event.state == KeyState::Down && !holds_text(
            ignored,
            b.device@,
        ) {
            Some(b)
        } else {
            None
        },
        _ => None,
    }
}

/// The button an event offers to a capture, if any: presses only (no releases, no keyboard
/// keys), and none from an ignored device (e.g. latched throttle switches that would win every
/// capture).
pub fn capturable_button(event: KeyEvent, ignored_devices: &Vec<String>) -> (r: Option<
    JoystickButton,
>)
    ensures
        r == spec_capturable(event, ignored_devices@),
{
    if event.state != KeyState::Down {
        return None;
    }
    match event.trigger {
        Trigger::Input(InputCode::Button(button)) => {
            if contains_text_item(ignored_devices, &button.device) {
                None
            } else {
                Some(button)
            }
        },
        _ => None,
    }
}

/// A joystick device with its presence and capture-ignore state, as listed in the settings.
/// Identity follows the device GUID.
#[derive(Debug)]
pub struct JoystickDeviceEntry {
    pub device: JoystickDevice,
    pub connected: bool,
    pub ignored: bool,
}

impl PartialEq for JoystickDeviceEntry {
    fn eq(&self, other: &Self) -> (r: bool) {
        self.device == other.device
    }
}

impl vstd::std_specs::cmp::PartialEqSpecImpl for JoystickDeviceEntry {
    open spec fn obeys_eq_spec() -> bool {
        true
    }

    open spec fn eq_spec(&self, other: &Self) -> bool {
        self.device.device@ == other.device.device@
    }
}

impl Eq for JoystickDeviceEntry {}

/// No two devices share a GUID.
pub open spec fn distinct_devices(s: Seq<JoystickDevice>) -> bool {
    forall|i: int, j: int|
        0 <= i < s.len() && 0 <= j < s.len() && i != j ==> (#[trigger] s[i]).device@ != (
        #[trigger] s[j]).device@
}

/// No two entries share a GUID.
pub open spec fn distinct_entries(s: Seq<JoystickDeviceEntry>) -> bool {
    forall|i: int, j: int|
        0 <= i < s.len() && 0 <= j < s.len() && i != j ==> (#[trigger] s[i]).device.device@ != (
        #[trigger] s[j]).device.device@
}

/// The devices hold one with GUID `guid`.
pub open spec fn has_guid(s: Seq<JoystickDevice>, guid: Seq<char>) -> bool {
    exists|i: int| 0 <= i < s.len() && (#[trigger] s[i]).device@ == guid
}

pub open spec fn connected_entry(d: JoystickDevice, ignored: Seq<JoystickDevice>) -> JoystickDeviceEntry {
    JoystickDeviceEntry { device: d, connected: true, ignored: has_guid(ignored, d.device@) }
}

/// Entries for the ignored devices that are not connected, in order.
pub open spec fn absent_entries(ignored: Seq<JoystickDevice>, connected: Seq<JoystickDevice>) -> Seq<
    JoystickDeviceEntry,
>
    decreases ignored.len(),
{
    if ignored.len() == 0 {
        seq![]
    } else {
        let d = ignored.last();
        let rest = absent_entries(ignored.drop_last(), connected);
        if has_guid(connected, d.device@) {
            rest
        } else {
            rest.push(JoystickDeviceEntry { device: d, connected: false, ignored: true })
        }
    }
}

/// Every connected device, marked ignored when its GUID is on the ignore list; then every
/// ignored device that is not connected (the connected entry keeps the fresher name).
pub open spec fn spec_merge(connected: Seq<JoystickDevice>, ignored: Seq<JoystickDevice>) -> Seq<
    JoystickDeviceEntry,
> {
    Seq::new(connected.len(), |i: int| connected_entry(connected[i], ignored)) + absent_entries(
        ignored,
        connected,
    )
}

fn has_guid_exec(s: &Vec<JoystickDevice>, guid: &String) -> (r: bool)
    ensures
        r == has_guid(s@, guid@),
{
    let mut i: usize = 0;
    while i < s.len()
        invariant
            i <= s.len(),
            forall|k: int| 0 <= k < i ==> (#[trigger] s@[k]).device@ != guid@,
        decreases s.len() - i,
    {
        if s[i].device == *guid {
            return true;
        }
        i += 1;
    }
    false
}

/// What the absent entries are made of: ignored devices that are not connected, each once.
proof fn lemma_absent_entries(ignored: Seq<JoystickDevice>, connected: Seq<JoystickDevice>)
    requires
        distinct_devices(ignored),
    ensures
        distinct_entries(absent_entries(ignored, connected)),
        forall|k: int|
            0 <= k < absent_entries(ignored, connected).len() ==> {
                let e = #[trigger] absent_entries(ignored, connected)[k];
                &&& has_guid(ignored, e.device.device@)
                &&& !has_guid(connected, e.device.device@)
            },
    decreases ignored.len(),
{
    if ignored.len() > 0 {
        let rest = ignored.drop_last();
        assert(distinct_devices(rest)) by {
            assert forall|i: int, j: int|
                0 <= i < rest.len() && 0 <= j < rest.len() && i != j implies (
                #[trigger] rest[i]).device@ != (#[trigger] rest[j]).device@ by {
                assert(rest[i] == ignored[i] && rest[j] == ignored[j]);
            }
        }
        lemma_absent_entries(rest, connected);
        let prev = absent_entries(rest, connected);
        let d = ignored.last();
        assert forall|k: int| 0 <= k < prev.len() implies has_guid(
            ignored,
            (#[trigger] prev[k]).device.device@,
        ) by {
            let e = prev[k];
            let i = choose|i: int| 0 <= i < rest.len() && (#[trigger] rest[i]).device@
                == e.device.device@;
            assert(ignored[i] == rest[i]);
        }
        if !has_guid(connected, d.device@) {
            let cur = absent_entries(ignored, connected);
            assert(cur == prev.push(JoystickDeviceEntry { device: d, connected: false, ignored: true }));
            assert forall|k: int| 0 <= k < prev.len() implies (#[trigger] prev[k]).device.device@
                != d.device@ by {
                let e = prev[k];
                let i = choose|i: int| 0 <= i < rest.len() && (#[trigger] rest[i]).device@
                    == e.device.device@;
                assert(ignored[i] == rest[i]);
                assert(ignored[ignored.len() - 1] == d);
            }
            assert(has_guid(ignored, d.device@)) by {
                assert(ignored[ignored.len() - 1] == d);
            }
        }
    }
}

/// Law: the merged list never names a GUID twice, when neither input does.
pub proof fn lemma_merge_distinct(connected: Seq<JoystickDevice>, ignored: Seq<JoystickDevice>)
    requires
        distinct_devices(connected),
        distinct_devices(ignored),
    ensures
        distinct_entries(spec_merge(connected, ignored)),
        spec_merge(connected, ignored).len() >= connected.len(),
{
    lemma_absent_entries(ignored, connected);
    let front = Seq::new(connected.len(), |i: int| connected_entry(connected[i], ignored));
    let back = absent_entries(ignored, connected);
    let all = spec_merge(connected, ignored);
    assert forall|i: int, j: int|
        0 <= i < all.len() && 0 <= j < all.len() && i != j implies (#[trigger] all[i]).device.device@
        != (#[trigger] all[j]).device.device@ by {
        if i < front.len() && j < front.len() {
            assert(all[i] == front[i] && all[j] == front[j]);
        } else if i >= front.len() && j >= front.len() {
            assert(all[i] == back[i - front.len()] && all[j] == back[j - front.len()]);
        } else if i < front.len() {
            assert(all[i] == front[i] && all[j] == back[j - front.len()]);
            assert(!has_guid(connected, back[j - front.len()].device.device@));
        } else {
            assert(all[j] == front[j] && all[i] == back[i - front.len()]);
            assert(!has_guid(connected, back[i - front.len()].device.device@));
        }
    }
}

/// The absent entries are the ignored devices themselves, unconnected and ignored, and every
/// ignored device that is not connected has one.
proof fn lemma_absent_entries_cover(ignored: Seq<JoystickDevice>, connected: Seq<JoystickDevice>)
    ensures
        forall|k: int|
            0 <= k < absent_entries(ignored, connected).len() ==> {
                let e = #[trigger] absent_entries(ignored, connected)[k];
                &&& ignored.contains(e.device)
                &&& !e.connected
                &&& e.ignored
            },
        forall|k: int|
            0 <= k < ignored.len() && !has_guid(connected, (#[trigger] ignored[k]).device@)
                ==> exists|j: int|
                0 <= j < absent_entries(ignored, connected).len() && absent_entries(
                    ignored,
                    connected,
                )[j].device == ignored[k],
    decreases ignored.len(),
{
    if ignored.len() > 0 {
        let rest = ignored.drop_last();
        lemma_absent_entries_cover(rest, connected);
        let prev = absent_entries(rest, connected);
        let cur = absent_entries(ignored, connected);
        let d = ignored.last();
        assert forall|k: int| 0 <= k < prev.len() implies ignored.contains(
            (#[trigger] prev[k]).device,
        ) by {
            let i = choose|i: int| 0 <= i < rest.len() && rest[i] == prev[k].device;
            assert(ignored[i] == rest[i]);
        }
        if !has_guid(connected, d.device@) {
            assert(cur == prev.push(JoystickDeviceEntry { device: d, connected: false, ignored: true }));
            assert(ignored[ignored.len() - 1] == d);
            assert(cur[prev.len() as int].device == d);
        } else {
            assert(cur == prev);
        }
        assert forall|k: int|
            0 <= k < ignored.len() && !has_guid(connected, (#[trigger] ignored[k]).device@)
                implies exists|j: int| 0 <= j < cur.len() && cur[j].device == ignored[k] by {
            if k < rest.len() {
                assert(rest[k] == ignored[k]);
                let j = choose|j: int| 0 <= j < prev.len() && prev[j].device == rest[k];
                assert(cur[j] == prev[j]);
            } else {
                assert(cur[prev.len() as int].device == ignored[k]);
            }
        }
    }
}

/// Law: the merged list names every GUID that is connected or ignored, and no other. An
/// entry is marked connected exactly when its GUID is connected and ignored exactly when it is
/// on the ignore list; a connected GUID's entry carries the connected device (with its current
/// name), any other the ignored device.
pub proof fn lemma_merge_entries(connected: Seq<JoystickDevice>, ignored: Seq<JoystickDevice>)
    requires
        distinct_devices(connected),
        distinct_devices(ignored),
    ensures
        forall|g: Seq<char>|
            (exists|k: int|
                0 <= k < spec_merge(connected, ignored).len() && (#[trigger] spec_merge(
                    connected,
                    ignored,
                )[k]).device.device@ == g) <==> (has_guid(connected, g) || has_guid(ignored, g)),
        forall|k: int|
            0 <= k < spec_merge(connected, ignored).len() ==> {
                let e = #[trigger] spec_merge(connected, ignored)[k];
                &&& e.connected == has_guid(connected, e.device.device@)
                &&& e.ignored == has_guid(ignored, e.device.device@)
                &&& e.connected ==> connected.contains(e.device)
                &&& !e.connected ==> ignored.contains(e.device)
            },
{
    lemma_absent_entries(ignored, connected);
    lemma_absent_entries_cover(ignored, connected);
    let front = Seq::new(connected.len(), |i: int| connected_entry(connected[i], ignored));
    let back = absent_entries(ignored, connected);
    let all = spec_merge(connected, ignored);
    assert forall|k: int| 0 <= k < all.len() implies {
        let e = #[trigger] all[k];
        &&& e.connected == has_guid(connected, e.device.device@)
        &&& e.ignored == has_guid(ignored, e.device.device@)
        &&& e.connected ==> connected.contains(e.device)
        &&& !e.connected ==> ignored.contains(e.device)
    } by {
        if k < front.len() {
            assert(all[k] == front[k]);
            assert(connected[k] == all[k].device);
        } else {
            let b = back[k - front.len()];
            assert(all[k] == b);
            let i = choose|i: int| 0 <= i < ignored.len() && ignored[i] == b.device;
            assert(has_guid(ignored, b.device.device@));
        }
    }
    assert forall|g: Seq<char>|
        (exists|k: int| 0 <= k < all.len() && (#[trigger] all[k]).device.device@ == g) <==> (
        has_guid(connected, g) || has_guid(ignored, g)) by {
        if exists|k: int| 0 <= k < all.len() && (#[trigger] all[k]).device.device@ == g {
            let k = choose|k: int| 0 <= k < all.len() && (#[trigger] all[k]).device.device@ == g;
            if k < front.len() {
                assert(all[k] == front[k]);
            } else {
                assert(all[k] == back[k - front.len()]);
            }
        }
        if has_guid(connected, g) {
            let i = choose|i: int| 0 <= i < connected.len() && (#[trigger] connected[i]).device@ == g;
            assert(all[i] == front[i]);
        } else if has_guid(ignored, g) {
            let i = choose|i: int| 0 <= i < ignored.len() && (#[trigger] ignored[i]).device@ == g;
            let j = choose|j: int| 0 <= j < back.len() && back[j].device == ignored[i];
            assert(all[front.len() + j] == back[j]);
        }
    }
}

/// Merges the connected devices with the ignore list for display.
pub fn merge_device_entries(connected: Vec<JoystickDevice>, ignored: Vec<JoystickDevice>) -> (r: Vec<
    JoystickDeviceEntry,
>)
    requires
        distinct_devices(connected@),
        distinct_devices(ignored@),
    ensures
        r@ == spec_merge(connected@, ignored@),
        distinct_entries(r@),
{
    let ghost c = connected@;
    let ghost g = ignored@;
    let mut entries: Vec<JoystickDeviceEntry> = Vec::new();
    let mut i: usize = 0;
    while i < connected.len()
        invariant
            i <= connected.len(),
            connected@ == c,
            ignored@ == g,
            entries@ == Seq::new(i as nat, |k: int| connected_entry(c[k], g)),
        decreases connected.len() - i,
    {
        let device = connected[i].duplicate();
        let is_ignored = has_guid_exec(&ignored, &device.device);
        entries.push(JoystickDeviceEntry { device, connected: true, ignored: is_ignored });
        i += 1;
        proof {
            assert(entries@ =~= Seq::new(i as nat, |k: int| connected_entry(c[k], g)));
        }
    }
    let ghost front = entries@;
    let mut j: usize = 0;
    while j < ignored.len()
        invariant
            j <= ignored.len(),
            connected@ == c,
            ignored@ == g,
            front == Seq::new(c.len(), |k: int| connected_entry(c[k], g)),
            entries@ == front + absent_entries(g.take(j as int), c),
        decreases ignored.len() - j,
    {
        let device = ignored[j].duplicate();
        proof {
            assert(g.take(j + 1).drop_last() =~= g.take(j as int));
            assert(g.take(j + 1).last() == g[j as int]);
        }
        if !has_guid_exec(&connected, &device.device) {
            entries.push(JoystickDeviceEntry { device, connected: false, ignored: true });
            proof {
                assert(entries@ =~= front + absent_entries(g.take(j + 1), c));
            }
        }
        j += 1;
    }
    proof {
        assert(g.take(g.len() as int) =~= g);
        lemma_merge_distinct(c, g);
    }
    entries
}

/// The joystick capture in flight, by the id the frontend gave it.
#[derive(Debug)]
pub struct JoystickCaptureState {
    pub active: Option<String>,
}

impl JoystickCaptureState {
    pub fn new() -> (r: JoystickCaptureState)
        ensures
            r.active is None,
    {
        JoystickCaptureState { active: None }
    }

    /// Starts a capture, superseding the one in flight; returns whether there was one (the
    /// caller cancels it).
    pub fn begin(&mut self, capture_id: String) -> (had_previous: bool)
        ensures
            had_previous == old(self).active is Some,
            final(self).active == Some(capture_id),
    {
        let had_previous = self.active.is_some();
        self.active = Some(capture_id);
        had_previous
    }

    /// Cancels the capture with this id if it is still the one in flight (a newer capture
    /// supersedes it and stays unaffected); returns whether it was cancelled.
    pub fn cancel(&mut self, capture_id: &String) -> (cancelled: bool)
        ensures
            cancelled == (old(self).active matches Some(id) && id@ == capture_id@),
            cancelled ==> final(self).active is None,
            !cancelled ==> final(self).active == old(self).active,
    {
        let matches = match &self.active {
            Some(id) => *id == *capture_id,
            None => false,
        };
        if matches {
            self.active = None;
        }
        matches
    }
}

} // verus!
