//! TrackAudio's cached connection and station state, the radio state derived from it, and the
//! push-to-talk latch with its failure streak.
//!
//! The caller runs the TrackAudio client: it feeds the client's events in and emits what comes
//! back.

use vstd::prelude::*;
use crate::keybinds::copy_opt_string;
use crate::radio::{RadioState, RadioStation, TransmissionState};
use crate::seqs::{lemma_select_contains, lemma_select_step, select};

verus! {

/// Consecutive failed transmit attempts before the radio is reported as [`RadioState::Error`].
pub const TRANSMIT_FAILURE_THRESHOLD: usize = 3;

/// Frequency (Hz) given to a station TrackAudio reports without one.
pub const UNKNOWN_FREQUENCY_HZ: u64 = 199_998_000;

/// What TrackAudio reports about a station; absent fields are unknown.
#[derive(Debug)]
pub struct StationState {
    pub callsign: Option<String>,
    pub frequency: Option<u64>,
    pub rx: Option<bool>,
    pub tx: Option<bool>,
    pub xc: Option<bool>,
    pub xca: Option<bool>,
    pub headset: Option<bool>,
    pub is_output_muted: Option<bool>,
    pub is_available: bool,
}

pub open spec fn or_default(o: Option<bool>, d: bool) -> bool {
    match o {
        Some(v) => v,
        None => d,
    }
}

/// A station as reported: unknown flags are off, except the headset, which is on.
pub open spec fn spec_station_from(s: StationState) -> RadioStation {
    RadioStation {
        callsign: s.callsign,
        frequency: match s.frequency {
            Some(f) => f,
            None => UNKNOWN_FREQUENCY_HZ,
        },
        rx: or_default(s.rx, false),
        tx: or_default(s.tx, false),
        xc: or_default(s.xc, false),
        xca: or_default(s.xca, false),
        headset: or_default(s.headset, true),
        output_muted: or_default(s.is_output_muted, false),
        is_available: s.is_available,
    }
}

fn flag(o: Option<bool>, d: bool) -> (r: bool)
    ensures
        r == or_default(o, d),
{
    match o {
        Some(v) => v,
        None => d,
    }
}

/// The station a TrackAudio station state describes.
pub fn station_from_state(s: &StationState) -> (r: RadioStation)
    ensures
        r == spec_station_from(*s),
{
    RadioStation {
        callsign: copy_opt_string(&s.callsign),
        frequency: match s.frequency {
            Some(f) => f,
            None => UNKNOWN_FREQUENCY_HZ,
        },
        rx: flag(s.rx, false),
        tx: flag(s.tx, false),
        xc: flag(s.xc, false),
        xca: flag(s.xca, false),
        headset: flag(s.headset, true),
        output_muted: flag(s.is_output_muted, false),
        is_available: s.is_available,
    }
}

/// The stations hold one on frequency `f`.
pub open spec fn has_freq(s: Seq<RadioStation>, f: u64) -> bool {
    exists|i: int| 0 <= i < s.len() && (#[trigger] s[i]).frequency == f
}

/// No two stations share a frequency.
pub open spec fn distinct_freqs(s: Seq<RadioStation>) -> bool {
    forall|i: int, j: int|
        0 <= i < s.len() && 0 <= j < s.len() && i != j ==> (#[trigger] s[i]).frequency != (
        #[trigger] s[j]).frequency
}

/// The station on frequency `f`.
pub open spec fn station_at(s: Seq<RadioStation>, f: u64) -> RadioStation {
    s[choose|i: int| 0 <= i < s.len() && (#[trigger] s[i]).frequency == f]
}

/// The stations by frequency.
pub open spec fn station_map(s: Seq<RadioStation>) -> Map<u64, RadioStation> {
    Map::new(|f: u64| has_freq(s, f), |f: u64| station_at(s, f))
}

proof fn lemma_station_at(s: Seq<RadioStation>, i: int)
    requires
        distinct_freqs(s),
        0 <= i < s.len(),
    ensures
        station_at(s, s[i].frequency) == s[i],
{
    let j = choose|j: int| 0 <= j < s.len() && (#[trigger] s[j]).frequency == s[i].frequency;
}

/// Position of the station on frequency `f`.
fn find_station(s: &Vec<RadioStation>, f: u64) -> (r: Option<usize>)
    ensures
        match r {
            Some(i) => i < s@.len() && s@[i as int].frequency == f,
            None => !has_freq(s@, f),
        },
{
    let mut i: usize = 0;
    while i < s.len()
        invariant
            i <= s.len(),
            forall|k: int| 0 <= k < i ==> (#[trigger] s@[k]).frequency != f,
        decreases s.len() - i,
    {
        if s[i].frequency == f {
            return Some(i);
        }
        i += 1;
    }
    None
}

/// Puts `st` on its frequency, replacing the station there.
fn put_station(s: &mut Vec<RadioStation>, st: RadioStation)
    requires
        distinct_freqs(old(s)@),
    ensures
        distinct_freqs(final(s)@),
        station_map(final(s)@) == station_map(old(s)@).insert(st.frequency, st),
{
    let ghost pre = s@;
    let f = st.frequency;
    match find_station(s, f) {
        Some(i) => {
            s.set(i, st);
            proof {
                let post = s@;
                assert(post[i as int] == st);
                assert(distinct_freqs(post)) by {
                    assert forall|a: int, b: int|
                        0 <= a < post.len() && 0 <= b < post.len() && a != b implies (
                        #[trigger] post[a]).frequency != (#[trigger] post[b]).frequency by {
                        assert(pre[i as int].frequency == f);
                        if a != i {
                            assert(post[a] == pre[a]);
                        }
                        if b != i {
                            assert(post[b] == pre[b]);
                        }
                    }
                }
                assert forall|g: u64| #[trigger] station_map(post).contains_key(g) <==> station_map(
                    pre,
                ).insert(f, st).contains_key(g) by {
                    if has_freq(pre, g) {
                        let k = choose|k: int| 0 <= k < pre.len() && (#[trigger] pre[k]).frequency
                            == g;
                        if k != i {
                            assert(post[k] == pre[k]);
                        }
                    }
                    if has_freq(post, g) {
                        let k = choose|k: int| 0 <= k < post.len() && (#[trigger] post[k]).frequency
                            == g;
                        if k != i {
                            assert(post[k] == pre[k]);
                        }
                    }
                }
                assert forall|g: u64| #[trigger] station_map(post).contains_key(g) implies station_map(
                    post,
                )[g] == station_map(pre).insert(f, st)[g] by {
                    let k = choose|k: int| 0 <= k < post.len() && (#[trigger] post[k]).frequency
                        == g;
                    lemma_station_at(post, k);
                    if k != i {
                        assert(post[k] == pre[k]);
                        lemma_station_at(pre, k);
                    }
                }
                assert(station_map(post) =~= station_map(pre).insert(f, st));
            }
        },
        None => {
            s.push(st);
            proof {
                let post = s@;
                assert(post[pre.len() as int] == st);
                assert(distinct_freqs(post)) by {
                    assert forall|a: int, b: int|
                        0 <= a < post.len() && 0 <= b < post.len() && a != b implies (
                        #[trigger] post[a]).frequency != (#[trigger] post[b]).frequency by {
                        if a < pre.len() && b < pre.len() {
                            assert(post[a] == pre[a] && post[b] == pre[b]);
                        } else if a < pre.len() {
                            assert(post[a] == pre[a]);
                        } else {
                            assert(post[b] == pre[b]);
                        }
                    }
                }
                assert forall|g: u64| #[trigger] station_map(post).contains_key(g) <==> station_map(
                    pre,
                ).insert(f, st).contains_key(g) by {
                    if has_freq(pre, g) {
                        let k = choose|k: int| 0 <= k < pre.len() && (#[trigger] pre[k]).frequency
                            == g;
                        assert(post[k] == pre[k]);
                    }
                    if has_freq(post, g) {
                        let k = choose|k: int| 0 <= k < post.len() && (#[trigger] post[k]).frequency
                            == g;
                        if k < pre.len() {
                            assert(post[k] == pre[k]);
                        }
                    }
                }
                assert forall|g: u64| #[trigger] station_map(post).contains_key(g) implies station_map(
                    post,
                )[g] == station_map(pre).insert(f, st)[g] by {
                    let k = choose|k: int| 0 <= k < post.len() && (#[trigger] post[k]).frequency
                        == g;
                    lemma_station_at(post, k);
                    if k < pre.len() {
                        assert(post[k] == pre[k]);
                        lemma_station_at(pre, k);
                    }
                }
                assert(station_map(post) =~= station_map(pre).insert(f, st));
            }
        },
    }
}

/// Takes the station on frequency `f` away, if there is one.
fn drop_station(s: &mut Vec<RadioStation>, f: u64)
    requires
        distinct_freqs(old(s)@),
    ensures
        distinct_freqs(final(s)@),
        station_map(final(s)@) == station_map(old(s)@).remove(f),
{
    let ghost pre = s@;
    match find_station(s, f) {
        Some(i) => {
            s.remove(i);
            proof {
                let post = s@;
                assert forall|k: int| 0 <= k < post.len() implies #[trigger] post[k] == (if k < i {
                    pre[k]
                } else {
                    pre[k + 1]
                }) by {}
                assert(distinct_freqs(post)) by {
                    assert forall|a: int, b: int|
                        0 <= a < post.len() && 0 <= b < post.len() && a != b implies (
                        #[trigger] post[a]).frequency != (#[trigger] post[b]).frequency by {
                        let a2 = if a < i {
                            a
                        } else {
                            a + 1
                        };
                        let b2 = if b < i {
                            b
                        } else {
                            b + 1
                        };
                        assert(post[a] == pre[a2] && post[b] == pre[b2]);
                    }
                }
                assert forall|g: u64| #[trigger] station_map(post).contains_key(g) <==> station_map(
                    pre,
                ).remove(f).contains_key(g) by {
                    if has_freq(pre, g) && g != f {
                        let k = choose|k: int| 0 <= k < pre.len() && (#[trigger] pre[k]).frequency
                            == g;
                        assert(k != i);
                        let k2 = if k < i {
                            k
                        } else {
                            k - 1
                        };
                        assert(post[k2] == pre[k]);
                    }
                    if has_freq(post, g) {
                        let k = choose|k: int| 0 <= k < post.len() && (#[trigger] post[k]).frequency
                            == g;
                        let k2 = if k < i {
                            k
                        } else {
                            k + 1
                        };
                        assert(post[k] == pre[k2]);
                        assert(k2 != i);
                    }
                }
                assert forall|g: u64| #[trigger] station_map(post).contains_key(g) implies station_map(
                    post,
                )[g] == station_map(pre).remove(f)[g] by {
                    let k = choose|k: int| 0 <= k < post.len() && (#[trigger] post[k]).frequency
                        == g;
                    let k2 = if k < i {
                        k
                    } else {
                        k + 1
                    };
                    assert(post[k] == pre[k2]);
                    lemma_station_at(post, k);
                    lemma_station_at(pre, k2);
                }
                assert(station_map(post) =~= station_map(pre).remove(f));
            }
        },
        None => {
            proof {
                assert(station_map(pre) =~= station_map(pre).remove(f));
            }
        },
    }
}

/// The frequencies as a set.
pub open spec fn freq_set(v: Seq<u64>) -> Set<u64> {
    Set::new(|x: u64| v.contains(x))
}

/// Adds `f` to a duplicate-free list of frequencies.
fn add_freq(v: &mut Vec<u64>, f: u64)
    requires
        old(v)@.no_duplicates(),
    ensures
        final(v)@.no_duplicates(),
        freq_set(final(v)@) == freq_set(old(v)@).insert(f),
{
    let ghost pre = v@;
    let mut i: usize = 0;
    while i < v.len()
        invariant
            v@ == pre,
            pre == old(v)@,
            pre.no_duplicates(),
            i <= v.len(),
            forall|k: int| 0 <= k < i ==> v@[k] != f,
        decreases v.len() - i,
    {
        if v[i] == f {
            proof {
                assert(freq_set(pre) =~= freq_set(pre).insert(f));
            }
            return;
        }
        i += 1;
    }
    v.push(f);
    proof {
        let post = v@;
        assert(post[pre.len() as int] == f);
        assert forall|x: u64| #[trigger] freq_set(post).contains(x) <==> freq_set(pre).insert(
            f,
        ).contains(x) by {
            if pre.contains(x) {
                let k = choose|k: int| 0 <= k < pre.len() && pre[k] == x;
                assert(post[k] == x);
            }
            if post.contains(x) {
                let k = choose|k: int| 0 <= k < post.len() && post[k] == x;
                if k < pre.len() {
                    assert(pre[k] == x);
                }
            }
        }
        assert(freq_set(post) =~= freq_set(pre).insert(f));
        assert forall|a: int, b: int| 0 <= a < post.len() && 0 <= b < post.len() && a != b implies post[a]
            != post[b] by {
            if a < pre.len() && b < pre.len() {
            } else if a < pre.len() {
                assert(post[a] == pre[a]);
            } else {
                assert(post[b] == pre[b]);
            }
        }
    }
}

/// Removes `f` from a duplicate-free list of frequencies.
fn remove_freq(v: &mut Vec<u64>, f: u64)
    requires
        old(v)@.no_duplicates(),
    ensures
        final(v)@.no_duplicates(),
        freq_set(final(v)@) == freq_set(old(v)@).remove(f),
{
    let ghost pre = v@;
    let mut i: usize = 0;
    while i < v.len()
        invariant
            v@ == pre,
            pre == old(v)@,
            pre.no_duplicates(),
            i <= v.len(),
            forall|k: int| 0 <= k < i ==> v@[k] != f,
        decreases v.len() - i,
    {
        if v[i] == f {
            v.remove(i);
            proof {
                let post = v@;
                assert forall|k: int| 0 <= k < post.len() implies #[trigger] post[k] == (if k < i {
                    pre[k]
                } else {
                    pre[k + 1]
                }) by {}
                assert forall|x: u64| #[trigger] freq_set(post).contains(x) <==> freq_set(pre).remove(
                    f,
                ).contains(x) by {
                    if pre.contains(x) && x != f {
                        let k = choose|k: int| 0 <= k < pre.len() && pre[k] == x;
                        assert(k != i);
                        let k2 = if k < i {
                            k
                        } else {
                            k - 1
                        };
                        assert(post[k2] == x);
                    }
                    if post.contains(x) {
                        let k = choose|k: int| 0 <= k < post.len() && post[k] == x;
                        let k2 = if k < i {
                            k
                        } else {
                            k + 1
                        };
                        assert(pre[k2] == x);
                        assert(k2 != i);
                    }
                }
                assert(freq_set(post) =~= freq_set(pre).remove(f));
                assert forall|a: int, b: int|
                    0 <= a < post.len() && 0 <= b < post.len() && a != b implies post[a] != post[b] by {
                    let a2 = if a < i {
                        a
                    } else {
                        a + 1
                    };
                    let b2 = if b < i {
                        b
                    } else {
                        b + 1
                    };
                    assert(post[a] == pre[a2] && post[b] == pre[b2]);
                }
            }
            return;
        }
        i += 1;
    }
    proof {
        assert(freq_set(pre) =~= freq_set(pre).remove(f));
    }
}

/// TrackAudio's cached state.
#[derive(Debug)]
pub struct TrackAudioState {
    pub connected: bool,
    pub voice_connected: bool,
    pub transmitting: bool,
    /// Frequencies being received on, each once.
    pub receiving: Vec<u64>,
    /// Stations, one per frequency.
    pub stations: Vec<RadioStation>,
    /// Local press/release edge latch, so a held key does not send a second press.
    pub ptt_active: bool,
    /// Consecutive failed transmit attempts.
    pub transmit_failures: usize,
}

/// Frequencies are received on once each and stations are keyed by frequency.
pub open spec fn ta_wf(s: TrackAudioState) -> bool {
    s.receiving@.no_duplicates() && distinct_freqs(s.stations@)
}

pub open spec fn any_rx(s: Seq<RadioStation>) -> bool {
    exists|i: int| 0 <= i < s.len() && (#[trigger] s[i]).rx
}

/// Disconnected, then connected without voice, then a failure streak at the threshold, then
/// transmitting, receiving, monitoring (a station with RX on), and otherwise voice-connected.
pub open spec fn spec_radio_state(s: TrackAudioState) -> RadioState {
    if !s.connected {
        RadioState::Disconnected
    } else if !s.voice_connected {
        RadioState::Connected
    } else if s.transmit_failures >= TRANSMIT_FAILURE_THRESHOLD {
        RadioState::Error
    } else if s.transmitting {
        RadioState::TxActive
    } else if s.receiving@.len() > 0 {
        RadioState::RxActive
    } else if any_rx(s.stations@) {
        RadioState::RxIdle
    } else {
        RadioState::VoiceConnected
    }
}

/// The state after a clear: disconnected, latch released, streak and caches empty.
pub open spec fn is_cleared(s: TrackAudioState) -> bool {
    &&& !s.connected
    &&& !s.voice_connected
    &&& !s.transmitting
    &&& !s.ptt_active
    &&& s.transmit_failures == 0
    &&& s.receiving@.len() == 0
    &&& s.stations@.len() == 0
}

/// How a transmit request to TrackAudio ended.
#[derive(Debug, Clone, Copy, PartialEq, Eq, Structural)]
pub enum TransmitOutcome {
    Sent,
    /// The command never reached the client task.
    SendFailed,
    /// The client task is gone, so the command never reached it either.
    ClientTaskTerminated,
    /// The command was sent but not acknowledged in time.
    Timeout,
    /// Any other failure.
    Failed,
}

/// What a station update did.
#[derive(Debug)]
pub enum StationChange {
    /// The update named no frequency.
    Ignored,
    Removed(u64),
    Updated(RadioStation),
    Added(RadioStation),
}

/// A station state update applied to a known station: the given fields change, an RX switched
/// off stops reception, and a given callsign replaces the old one.
pub open spec fn spec_updated_station(old_st: RadioStation, u: StationState) -> RadioStation {
    RadioStation {
        callsign: match u.callsign {
            Some(c) => Some(c),
            None => old_st.callsign,
        },
        rx: or_default(u.rx, old_st.rx),
        tx: or_default(u.tx, old_st.tx),
        xc: or_default(u.xc, old_st.xc),
        xca: or_default(u.xca, old_st.xca),
        headset: or_default(u.headset, old_st.headset),
        output_muted: or_default(u.is_output_muted, old_st.output_muted),
        ..old_st
    }
}

/// `new_flag` is what an update that gives `given` (or nothing) makes of `old_flag`.
pub open spec fn flag_applied(given: Option<bool>, old_flag: bool, new_flag: bool) -> bool {
    &&& given matches Some(v) ==> new_flag == v
    &&& given is None ==> new_flag == old_flag
}

/// `r` is the station `st` after the update `u`: each flag the update gives takes the given
/// value, each flag it leaves out keeps its old value, a given callsign replaces the old one,
/// and the frequency and availability stay.
pub open spec fn update_applied(st: RadioStation, u: StationState, r: RadioStation) -> bool {
    &&& flag_applied(u.rx, st.rx, r.rx)
    &&& flag_applied(u.tx, st.tx, r.tx)
    &&& flag_applied(u.xc, st.xc, r.xc)
    &&& flag_applied(u.xca, st.xca, r.xca)
    &&& flag_applied(u.headset, st.headset, r.headset)
    &&& flag_applied(u.is_output_muted, st.output_muted, r.output_muted)
    &&& (u.callsign matches Some(c) ==> r.callsign == Some(c))
    &&& (u.callsign is None ==> r.callsign == st.callsign)
    &&& r.frequency == st.frequency
    &&& r.is_available == st.is_available
}

/// Law: updating a known station sets each flag the update gives (RX, TX, XC, XCA, headset,
/// output mute) to the given value and keeps each flag it leaves out; a given callsign
/// replaces the old one; the frequency and availability stay.
pub proof fn lemma_update_sets_given_fields(st: RadioStation, u: StationState)
    ensures
        update_applied(st, u, spec_updated_station(st, u)),
{
}

/// A known station with a station state update applied.
fn updated_station(st: &RadioStation, update: &StationState) -> (r: RadioStation)
    ensures
        r == spec_updated_station(*st, *update),
        update_applied(*st, *update, r),
{
    let mut r = st.duplicate();
    if let Some(rx) = update.rx {
        r.rx = rx;
    }
    if let Some(tx) = update.tx {
        r.tx = tx;
    }
    if let Some(xc) = update.xc {
        r.xc = xc;
    }
    if let Some(xca) = update.xca {
        r.xca = xca;
    }
    if let Some(headset) = update.headset {
        r.headset = headset;
    }
    if let Some(muted) = update.is_output_muted {
        r.output_muted = muted;
    }
    if let Some(callsign) = &update.callsign {
        r.callsign = Some(callsign.clone());
    }
    proof {
        lemma_update_sets_given_fields(*st, *update);
    }
    r
}

/// What a transmit request sends given the latch: a press while released or a release while
/// pressed; nothing for a repeat.
pub open spec fn spec_latch(latched: bool, state: TransmissionState) -> Option<bool> {
    match state {
        TransmissionState::Active => if !latched {
            Some(true)
        } else {
            None
        },
        TransmissionState::Inactive => if latched {
            Some(false)
        } else {
            None
        },
    }
}

/// The stations a full station list describes: each available station with a frequency, built
/// from the last entry for that frequency.
pub open spec fn synced_stations(states: Seq<StationState>) -> Map<u64, RadioStation>
    decreases states.len(),
{
    if states.len() == 0 {
        Map::empty()
    } else {
        let m = synced_stations(states.drop_last());
        let s = states.last();
        match s.frequency {
            Some(f) => if s.is_available {
                m.insert(f, spec_station_from(s))
            } else {
                m
            },
            None => m,
        }
    }
}

impl TrackAudioState {
    /// A fresh, disconnected state.
    pub fn new() -> (r: TrackAudioState)
        ensures
            ta_wf(r),
            is_cleared(r),
    {
        TrackAudioState {
            connected: false,
            voice_connected: false,
            transmitting: false,
            receiving: Vec::new(),
            stations: Vec::new(),
            ptt_active: false,
            transmit_failures: 0,
        }
    }

    /// The radio state to report.
    pub fn radio_state(&self) -> (r: RadioState)
        ensures
            r == spec_radio_state(*self),
    {
        if !self.connected {
            return RadioState::Disconnected;
        }
        if !self.voice_connected {
            return RadioState::Connected;
        }
        if self.transmit_failures >= TRANSMIT_FAILURE_THRESHOLD {
            return RadioState::Error;
        }
        if self.transmitting {
            return RadioState::TxActive;
        }
        if self.receiving.len() > 0 {
            return RadioState::RxActive;
        }
        let mut i: usize = 0;
        while i < self.stations.len()
            invariant
                i <= self.stations.len(),
                self.connected,
                self.voice_connected,
                self.transmit_failures < TRANSMIT_FAILURE_THRESHOLD,
                !self.transmitting,
                self.receiving@.len() == 0,
                forall|k: int| 0 <= k < i ==> !(#[trigger] self.stations@[k]).rx,
            decreases self.stations.len() - i,
        {
            if self.stations[i].rx {
                return RadioState::RxIdle;
            }
            i += 1;
        }
        RadioState::VoiceConnected
    }

    /// Forgets everything: a fresh connection means TrackAudio's own state is fresh, including
    /// its push-to-talk state.
    pub fn clear(&mut self)
        ensures
            ta_wf(*final(self)),
            is_cleared(*final(self)),
    {
        self.connected = false;
        self.voice_connected = false;
        self.transmitting = false;
        self.ptt_active = false;
        self.transmit_failures = 0;
        self.receiving = Vec::new();
        self.stations = Vec::new();
    }

    /// The cached headset flag of the station on `frequency`.
    pub fn headset_for_frequency(&self, frequency: u64) -> (r: Option<bool>)
        requires
            ta_wf(*self),
        ensures
            r == (if station_map(self.stations@).contains_key(frequency) {
                Some(station_map(self.stations@)[frequency].headset)
            } else {
                None
            }),
    {
        match find_station(&self.stations, frequency) {
            Some(i) => {
                proof {
                    lemma_station_at(self.stations@, i as int);
                }
                Some(self.stations[i].headset)
            },
            None => None,
        }
    }

    /// Records TX begin or end; returns the state to report.
    pub fn set_transmitting(&mut self, active: bool) -> (r: RadioState)
        ensures
            *final(self) == (TrackAudioState { transmitting: active, ..*old(self) }),
            r == spec_radio_state(*final(self)),
    {
        self.transmitting = active;
        self.radio_state()
    }

    /// Records RX begin or end on a frequency; returns the state to report.
    pub fn set_receiving(&mut self, frequency: u64, active: bool) -> (r: RadioState)
        requires
            ta_wf(*old(self)),
        ensures
            ta_wf(*final(self)),
            freq_set(final(self).receiving@) == (if active {
                freq_set(old(self).receiving@).insert(frequency)
            } else {
                freq_set(old(self).receiving@).remove(frequency)
            }),
            final(self).stations == old(self).stations,
            final(self).connected == old(self).connected,
            final(self).voice_connected == old(self).voice_connected,
            final(self).transmitting == old(self).transmitting,
            final(self).ptt_active == old(self).ptt_active,
            final(self).transmit_failures == old(self).transmit_failures,
            r == spec_radio_state(*final(self)),
    {
        if active {
            add_freq(&mut self.receiving, frequency);
        } else {
            remove_freq(&mut self.receiving, frequency);
        }
        self.radio_state()
    }

    /// Records the voice connection; failures collected under the previous voice state say
    /// nothing about the new one, so the streak starts over.
    pub fn apply_voice_connected(&mut self, connected: bool)
        ensures
            *final(self) == (TrackAudioState {
                voice_connected: connected,
                transmit_failures: 0,
                ..*old(self)
            }),
    {
        self.voice_connected = connected;
        self.transmit_failures = 0;
    }

    /// Records the voice connection; returns the state to report.
    pub fn set_voice_connected(&mut self, connected: bool) -> (r: RadioState)
        ensures
            *final(self) == (TrackAudioState {
                voice_connected: connected,
                transmit_failures: 0,
                ..*old(self)
            }),
            r == spec_radio_state(*final(self)),
    {
        self.apply_voice_connected(connected);
        self.radio_state()
    }

    /// Records the connection to TrackAudio; returns the state to report.
    pub fn set_connected(&mut self, connected: bool) -> (r: RadioState)
        ensures
            *final(self) == (TrackAudioState { connected, ..*old(self) }),
            r == spec_radio_state(*final(self)),
    {
        self.connected = connected;
        self.radio_state()
    }

    /// Adds a station TrackAudio reports as added, replacing one on the same frequency;
    /// returns the new station and the state to report.
    pub fn add_station(&mut self, callsign: String, frequency: u64) -> (r: (RadioStation, RadioState))
        requires
            ta_wf(*old(self)),
        ensures
            ta_wf(*final(self)),
            r.0 == (RadioStation {
                callsign: Some(callsign),
                frequency,
                rx: false,
                tx: false,
                xc: false,
                xca: false,
                headset: false,
                output_muted: false,
                is_available: true,
            }),
            station_map(final(self).stations@) == station_map(old(self).stations@).insert(
                frequency,
                r.0,
            ),
            final(self).receiving == old(self).receiving,
            final(self).connected == old(self).connected,
            final(self).voice_connected == old(self).voice_connected,
            final(self).transmitting == old(self).transmitting,
            final(self).ptt_active == old(self).ptt_active,
            final(self).transmit_failures == old(self).transmit_failures,
            r.1 == spec_radio_state(*final(self)),
    {
        let station = RadioStation {
            callsign: Some(callsign),
            frequency,
            rx: false,
            tx: false,
            xc: false,
            xca: false,
            headset: false,
            output_muted: false,
            is_available: true,
        };
        put_station(&mut self.stations, station.duplicate());
        let state = self.radio_state();
        (station, state)
    }

    /// Removes the station on a frequency and stops reception there; returns the state to
    /// report.
    pub fn remove_station(&mut self, frequency: u64) -> (r: RadioState)
        requires
            ta_wf(*old(self)),
        ensures
            ta_wf(*final(self)),
            station_map(final(self).stations@) == station_map(old(self).stations@).remove(frequency),
            freq_set(final(self).receiving@) == freq_set(old(self).receiving@).remove(frequency),
            final(self).connected == old(self).connected,
            final(self).voice_connected == old(self).voice_connected,
            final(self).transmitting == old(self).transmitting,
            final(self).ptt_active == old(self).ptt_active,
            final(self).transmit_failures == old(self).transmit_failures,
            r == spec_radio_state(*final(self)),
    {
        drop_station(&mut self.stations, frequency);
        remove_freq(&mut self.receiving, frequency);
        self.radio_state()
    }

    /// Applies a station state update: an update without a frequency is ignored, an
    /// unavailable station is removed (and reception on it stops), a known station is updated,
    /// and an unknown one is added.
    pub fn update_station(&mut self, update: &StationState) -> (r: (StationChange, Option<RadioState>))
        requires
            ta_wf(*old(self)),
        ensures
            ta_wf(*final(self)),
            final(self).connected == old(self).connected,
            final(self).voice_connected == old(self).voice_connected,
            final(self).transmitting == old(self).transmitting,
            final(self).ptt_active == old(self).ptt_active,
            final(self).transmit_failures == old(self).transmit_failures,
            match update.frequency {
                None => *final(self) == *old(self) && r.0 is Ignored && r.1 is None,
                Some(f) => {
                    &&& r.1 == Some(spec_radio_state(*final(self)))
                    &&& if !update.is_available {
                        &&& r.0 == StationChange::Removed(f)
                        &&& station_map(final(self).stations@) == station_map(
                            old(self).stations@,
                        ).remove(f)
                        &&& freq_set(final(self).receiving@) == freq_set(
                            old(self).receiving@,
                        ).remove(f)
                    } else if station_map(old(self).stations@).contains_key(f) {
                        let st = spec_updated_station(station_map(old(self).stations@)[f], *update);
                        &&& r.0 == StationChange::Updated(st)
                        &&& station_map(final(self).stations@) == station_map(
                            old(self).stations@,
                        ).insert(f, st)
                        &&& freq_set(final(self).receiving@) == (if update.rx == Some(false) {
                            freq_set(old(self).receiving@).remove(f)
                        } else {
                            freq_set(old(self).receiving@)
                        })
                    } else {
                        &&& r.0 == StationChange::Added(spec_station_from(*update))
                        &&& station_map(final(self).stations@) == station_map(
                            old(self).stations@,
                        ).insert(f, spec_station_from(*update))
                        &&& final(self).receiving == old(self).receiving
                    }
                },
            },
    {
        let f = match update.frequency {
            Some(f) => f,
            None => {
                return (StationChange::Ignored, None);
            },
        };
        if !update.is_available {
            drop_station(&mut self.stations, f);
            remove_freq(&mut self.receiving, f);
            let state = self.radio_state();
            return (StationChange::Removed(f), Some(state));
        }
        match find_station(&self.stations, f) {
            Some(i) => {
                proof {
                    lemma_station_at(self.stations@, i as int);
                }
                let st = updated_station(&self.stations[i], update);
                match update.rx {
                    Some(false) => remove_freq(&mut self.receiving, f),
                    _ => {},
                }
                put_station(&mut self.stations, st.duplicate());
                let state = self.radio_state();
                (StationChange::Updated(st), Some(state))
            },
            None => {
                let st = station_from_state(update);
                put_station(&mut self.stations, st.duplicate());
                let state = self.radio_state();
                (StationChange::Added(st), Some(state))
            },
        }
    }

    /// Replaces the stations with the available ones of a full station list (a later entry
    /// for a frequency wins) and stops reception on frequencies without a station; returns the
    /// synced stations and the state to report.
    pub fn sync_stations(&mut self, station_states: &Vec<StationState>) -> (r: (
        Vec<RadioStation>,
        RadioState,
    ))
        requires
            ta_wf(*old(self)),
        ensures
            ta_wf(*final(self)),
            forall|f: u64|
                #[trigger] station_map(final(self).stations@).contains_key(f) <==> exists|i: int|
                    0 <= i < station_states@.len() && station_states@[i].is_available
                        && station_states@[i].frequency == Some(f),
            station_map(final(self).stations@) == synced_stations(station_states@),
            freq_set(final(self).receiving@) == freq_set(old(self).receiving@).filter(
                |f: u64| station_map(final(self).stations@).contains_key(f),
            ),
            final(self).connected == old(self).connected,
            final(self).voice_connected == old(self).voice_connected,
            final(self).transmitting == old(self).transmitting,
            final(self).ptt_active == old(self).ptt_active,
            final(self).transmit_failures == old(self).transmit_failures,
            r.0@ == final(self).stations@,
            r.1 == spec_radio_state(*final(self)),
    {
        let mut stations: Vec<RadioStation> = Vec::new();
        let mut i: usize = 0;
        while i < station_states.len()
            invariant
                i <= station_states.len(),
                distinct_freqs(stations@),
                station_map(stations@) == synced_stations(station_states@.take(i as int)),
                forall|f: u64|
                    #[trigger] station_map(stations@).contains_key(f) <==> exists|k: int|
                        0 <= k < i && station_states@[k].is_available && station_states@[k].frequency
                            == Some(f),
            decreases station_states.len() - i,
        {
            proof {
                assert(station_states@.take(i + 1).drop_last() =~= station_states@.take(i as int));
                assert(station_states@.take(i + 1).last() == station_states@[i as int]);
            }
            let s = &station_states[i];
            if s.is_available {
                if let Some(f) = s.frequency {
                    put_station(&mut stations, station_from_state(s));
                }
            }
            i += 1;
            proof {
                assert forall|f: u64| #[trigger] station_map(stations@).contains_key(f) <==> exists|
                    k: int,
                |
                    0 <= k < i && station_states@[k].is_available && station_states@[k].frequency
                        == Some(f) by {
                    if station_states@[i - 1].is_available && station_states@[i - 1].frequency
                        == Some(f) {
                        assert(0 <= i - 1 < i);
                    }
                }
            }
        }
        proof {
            assert(station_states@.take(station_states@.len() as int) =~= station_states@);
        }
        let ghost pre_recv = self.receiving@;
        let ghost keep = |f: u64| has_freq(stations@, f);
        let mut kept: Vec<u64> = Vec::new();
        let mut j: usize = 0;
        while j < self.receiving.len()
            invariant
                j <= self.receiving.len(),
                self.receiving@ == pre_recv,
                pre_recv.no_duplicates(),
                keep == (|f: u64| has_freq(stations@, f)),
                kept@ == select(pre_recv.take(j as int), keep),
            decreases self.receiving.len() - j,
        {
            proof {
                lemma_select_step(pre_recv, keep, j as int);
            }
            let f = self.receiving[j];
            if find_station(&stations, f).is_some() {
                kept.push(f);
            }
            j += 1;
        }
        proof {
            assert(pre_recv.take(pre_recv.len() as int) =~= pre_recv);
            assert forall|x: u64| #[trigger] freq_set(kept@).contains(x) <==> freq_set(pre_recv).filter(
                |f: u64| station_map(stations@).contains_key(f),
            ).contains(x) by {
                lemma_select_contains(pre_recv, keep, x);
            }
            assert(freq_set(kept@) =~= freq_set(pre_recv).filter(
                |f: u64| station_map(stations@).contains_key(f),
            ));
            lemma_select_no_duplicates(pre_recv, keep);
        }
        self.stations = stations;
        self.receiving = kept;
        let mut synced: Vec<RadioStation> = Vec::new();
        let mut k: usize = 0;
        while k < self.stations.len()
            invariant
                k <= self.stations.len(),
                synced@ == self.stations@.take(k as int),
            decreases self.stations.len() - k,
        {
            synced.push(self.stations[k].duplicate());
            k += 1;
            proof {
                assert(synced@ =~= self.stations@.take(k as int));
            }
        }
        proof {
            assert(synced@ =~= self.stations@);
        }
        let state = self.radio_state();
        (synced, state)
    }

    /// A copy of the stations.
    pub fn stations(&self) -> (r: Vec<RadioStation>)
        ensures
            r@ == self.stations@,
    {
        let mut out: Vec<RadioStation> = Vec::new();
        let mut k: usize = 0;
        while k < self.stations.len()
            invariant
                k <= self.stations.len(),
                out@ == self.stations@.take(k as int),
            decreases self.stations.len() - k,
        {
            out.push(self.stations[k].duplicate());
            k += 1;
            proof {
                assert(out@ =~= self.stations@.take(k as int));
            }
        }
        proof {
            assert(out@ =~= self.stations@);
        }
        out
    }

    /// Frequencies of the stations that transmit without cross-coupling, which fast-couple
    /// switches to cross-couple-across.
    pub fn fast_couple_frequencies(&self) -> (r: Vec<u64>)
        ensures
            r@ == select(self.stations@, |s: RadioStation| s.tx && !s.xca).map_values(
                |s: RadioStation| s.frequency,
            ),
    {
        let ghost keep = |s: RadioStation| s.tx && !s.xca;
        let mut out: Vec<u64> = Vec::new();
        let mut k: usize = 0;
        while k < self.stations.len()
            invariant
                k <= self.stations.len(),
                keep == (|s: RadioStation| s.tx && !s.xca),
                out@ == select(self.stations@.take(k as int), keep).map_values(
                    |s: RadioStation| s.frequency,
                ),
            decreases self.stations.len() - k,
        {
            proof {
                lemma_select_step(self.stations@, keep, k as int);
            }
            if self.stations[k].tx && !self.stations[k].xca {
                out.push(self.stations[k].frequency);
                proof {
                    assert(out@ =~= select(self.stations@.take(k + 1), keep).map_values(
                        |s: RadioStation| s.frequency,
                    ));
                }
            }
            k += 1;
        }
        proof {
            assert(self.stations@.take(self.stations@.len() as int) =~= self.stations@);
        }
        out
    }

    /// Latches a transmit request: a press while released or a release while pressed flips
    /// the latch and gives the value to send; a repeated request gives nothing to send.
    pub fn begin_transmit(&mut self, state: TransmissionState) -> (r: Option<bool>)
        ensures
            r == spec_latch(old(self).ptt_active, state),
            r matches Some(a) ==> *final(self) == (TrackAudioState { ptt_active: a, ..*old(self) }),
            r is None ==> *final(self) == *old(self),
    {
        match state {
            TransmissionState::Active => if !self.ptt_active {
                self.ptt_active = true;
                Some(true)
            } else {
                None
            },
            TransmissionState::Inactive => if self.ptt_active {
                self.ptt_active = false;
                Some(false)
            } else {
                None
            },
        }
    }

    /// Records how sending `active` ended; returns the state to report, if any. A success
    /// ends the failure streak (reported if it had reached the threshold). A failure extends
    /// the streak; only a failure that proves the command never reached the client task rolls
    /// the latch back. A timeout reports the state (an error once the streak is long enough),
    /// other failures report an error.
    pub fn finish_transmit(&mut self, active: bool, outcome: TransmitOutcome) -> (r: Option<RadioState>)
        ensures
            outcome == TransmitOutcome::Sent ==> {
                &&& *final(self) == (TrackAudioState { transmit_failures: 0, ..*old(self) })
                &&& r == (if old(self).transmit_failures >= TRANSMIT_FAILURE_THRESHOLD {
                    Some(spec_radio_state(*final(self)))
                } else {
                    None
                })
            },
            outcome != TransmitOutcome::Sent ==> {
                &&& final(self).transmit_failures == (if old(self).transmit_failures == usize::MAX {
                    0
                } else {
                    (old(self).transmit_failures + 1) as usize
                })
                &&& final(self).ptt_active == (if outcome == TransmitOutcome::SendFailed || outcome
                    == TransmitOutcome::ClientTaskTerminated {
                    !active
                } else {
                    old(self).ptt_active
                })
                &&& *final(self) == (TrackAudioState {
                    transmit_failures: final(self).transmit_failures,
                    ptt_active: final(self).ptt_active,
                    ..*old(self)
                })
                &&& r == Some(
                    if outcome == TransmitOutcome::Timeout {
                        spec_radio_state(*final(self))
                    } else {
                        RadioState::Error
                    },
                )
            },
    {
        if outcome == TransmitOutcome::Sent {
            let previous = self.transmit_failures;
            self.transmit_failures = 0;
            if previous >= TRANSMIT_FAILURE_THRESHOLD {
                return Some(self.radio_state());
            }
            return None;
        }
        if outcome == TransmitOutcome::SendFailed || outcome == TransmitOutcome::ClientTaskTerminated {
            self.ptt_active = !active;
        }
        self.transmit_failures = if self.transmit_failures == usize::MAX {
            0
        } else {
            self.transmit_failures + 1
        };
        if outcome == TransmitOutcome::Timeout {
            Some(self.radio_state())
        } else {
            Some(RadioState::Error)
        }
    }
}

/// A selection from a duplicate-free sequence is duplicate-free.
proof fn lemma_select_no_duplicates(s: Seq<u64>, f: spec_fn(u64) -> bool)
    requires
        s.no_duplicates(),
    ensures
        select(s, f).no_duplicates(),
    decreases s.len(),
{
    if s.len() > 0 {
        let rest = s.drop_last();
        assert(rest.no_duplicates()) by {
            assert forall|a: int, b: int| 0 <= a < rest.len() && 0 <= b < rest.len() && a != b implies rest[a]
                != rest[b] by {
                assert(rest[a] == s[a] && rest[b] == s[b]);
            }
        }
        lemma_select_no_duplicates(rest, f);
        if f(s.last()) {
            let sr = select(rest, f);
            assert(!sr.contains(s.last())) by {
                lemma_select_contains(rest, f, s.last());
                if rest.contains(s.last()) {
                    let k = choose|k: int| 0 <= k < rest.len() && rest[k] == s.last();
                    assert(s[k] == s[s.len() - 1]);
                }
            }
            let sel = sr.push(s.last());
            assert forall|a: int, b: int| 0 <= a < sel.len() && 0 <= b < sel.len() && a != b implies sel[a]
                != sel[b] by {
                if a < sr.len() && b < sr.len() {
                } else if a < sr.len() {
                    assert(sr.contains(sel[a]));
                } else {
                    assert(sr.contains(sel[b]));
                }
            }
        }
    }
}

/// Law: a clear always releases the push-to-talk latch and ends the failure streak, so no
/// later press is silently swallowed and no stale error is reported.
pub proof fn lemma_clear_releases_latch(s: TrackAudioState)
    requires
        is_cleared(s),
    ensures
        !s.ptt_active,
        s.transmit_failures == 0,
        spec_radio_state(s) == RadioState::Disconnected,
{
}

/// Law: while voice is connected the streak reports an error exactly when it reaches the
/// threshold; disconnection and a missing voice connection take precedence over it.
pub proof fn lemma_error_only_at_threshold(s: TrackAudioState)
    ensures
        (s.connected && s.voice_connected) ==> (spec_radio_state(s) == RadioState::Error
            <==> s.transmit_failures >= TRANSMIT_FAILURE_THRESHOLD),
        !s.connected ==> spec_radio_state(s) == RadioState::Disconnected,
        s.connected && !s.voice_connected ==> spec_radio_state(s) == RadioState::Connected,
{
}

/// Law: a request is sent exactly when it differs from the latch, and what is sent is the
/// opposite of the latch; so of two presses in a row only the first is sent.
pub proof fn lemma_latch_sends_edges_only(latched: bool, state: TransmissionState)
    ensures
        spec_latch(latched, state) is None <==> ((state == TransmissionState::Active) == latched),
        spec_latch(latched, state) matches Some(a) ==> a == !latched,
        spec_latch(latched, state) matches Some(a) ==> spec_latch(a, state) is None,
{
}

} // verus!
