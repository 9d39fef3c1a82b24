//! The client's audio settings without the volumes: device choices, ring sounds, and what the
//! settings page lists.

use vstd::prelude::*;
use crate::backend::AudioError;
use crate::device::{
    listed_names, no_default_message, spec_chosen, spec_default_device, spec_host,
    spec_host_devices, spec_select_device, spec_select_host, texts, AudioBackendInfo, DeviceType,
    Selection,
};
use crate::keybinds::copy_opt_string;
use vstd::string::*;

verus! {

/// Sounds the audio manager plays.
#[derive(Debug, Clone, Copy, PartialEq, Eq, Structural)]
pub enum SourceType {
    Ring,
    PriorityRing,
    Ringback,
    RingbackOneshot,
    Click,
    CallStart,
    CallEnd,
    ParticipantJoined,
    ParticipantLeft,
}

/// The two ring sounds a user can replace with a file of their own.
#[derive(Debug, Clone, Copy, PartialEq, Eq, Structural)]
pub enum RingSoundType {
    Ring,
    PriorityRing,
}

pub open spec fn source_of_ring(t: RingSoundType) -> SourceType {
    match t {
        RingSoundType::Ring => SourceType::Ring,
        RingSoundType::PriorityRing => SourceType::PriorityRing,
    }
}

impl From<RingSoundType> for SourceType {
    fn from(value: RingSoundType) -> (r: SourceType) {
        match value {
            RingSoundType::Ring => SourceType::Ring,
            RingSoundType::PriorityRing => SourceType::PriorityRing,
        }
    }
}

impl vstd::std_specs::convert::FromSpecImpl<RingSoundType> for SourceType {
    open spec fn obeys_from_spec() -> bool {
        true
    }

    open spec fn from_spec(value: RingSoundType) -> SourceType {
        source_of_ring(value)
    }
}

/// The device kinds the settings page configures; the speaker is an output device.
#[derive(Debug, Clone, Copy, PartialEq, Eq, Structural)]
pub enum ClientAudioDeviceType {
    Input,
    Output,
    Speaker,
}

pub open spec fn device_type_of(t: ClientAudioDeviceType) -> DeviceType {
    match t {
        ClientAudioDeviceType::Input => DeviceType::Input,
        _ => DeviceType::Output,
    }
}

impl From<ClientAudioDeviceType> for DeviceType {
    fn from(value: ClientAudioDeviceType) -> (r: DeviceType) {
        match value {
            ClientAudioDeviceType::Input => DeviceType::Input,
            ClientAudioDeviceType::Output => DeviceType::Output,
            ClientAudioDeviceType::Speaker => DeviceType::Output,
        }
    }
}

impl vstd::std_specs::convert::FromSpecImpl<ClientAudioDeviceType> for DeviceType {
    open spec fn obeys_from_spec() -> bool {
        true
    }

    open spec fn from_spec(value: ClientAudioDeviceType) -> DeviceType {
        device_type_of(value)
    }
}

fn to_device_type(t: ClientAudioDeviceType) -> (r: DeviceType)
    ensures
        r == device_type_of(t),
{
    match t {
        ClientAudioDeviceType::Input => DeviceType::Input,
        _ => DeviceType::Output,
    }
}

/// Where call audio plays.
#[derive(Debug, Clone, Copy, PartialEq, Eq, Structural)]
pub enum PlaybackDeviceType {
    Output,
    Speaker,
}

impl PlaybackDeviceType {
    /// The lowercase name of the device kind.
    pub fn as_str(&self) -> (r: &'static str)
        ensures
            r@ == (match *self {
                PlaybackDeviceType::Output => "output"@,
                PlaybackDeviceType::Speaker => "speaker"@,
            }),
    {
        match self {
            PlaybackDeviceType::Output => "output",
            PlaybackDeviceType::Speaker => "speaker",
        }
    }
}

/// The volumes a user can set.
#[derive(Debug, Clone, Copy, PartialEq, Eq, Structural)]
pub enum VolumeType {
    Input,
    Output,
    Click,
    Chime,
}

/// The sounds a volume setting controls: the output volume the ringback and call sounds (and
/// call audio, which is no sound of its own), the click volume the click, the chime volume the
/// rings. The input volume is the microphone's gain and controls no sound.
pub open spec fn spec_volume_sources(t: VolumeType) -> Seq<SourceType> {
    match t {
        VolumeType::Input => seq![],
        VolumeType::Output => seq![
            SourceType::Ringback,
            SourceType::RingbackOneshot,
            SourceType::CallStart,
            SourceType::CallEnd,
        ],
        VolumeType::Click => seq![SourceType::Click],
        VolumeType::Chime => seq![SourceType::Ring, SourceType::PriorityRing],
    }
}

/// The sounds whose volume a volume setting sets, in the order they are set.
pub fn volume_sources(volume_type: VolumeType) -> (r: Vec<SourceType>)
    ensures
        r@ == spec_volume_sources(volume_type),
{
    let mut v: Vec<SourceType> = Vec::new();
    match volume_type {
        VolumeType::Input => {},
        VolumeType::Output => {
            v.push(SourceType::Ringback);
            v.push(SourceType::RingbackOneshot);
            v.push(SourceType::CallStart);
            v.push(SourceType::CallEnd);
        },
        VolumeType::Click => {
            v.push(SourceType::Click);
        },
        VolumeType::Chime => {
            v.push(SourceType::Ring);
            v.push(SourceType::PriorityRing);
        },
    }
    proof {
        assert(v@ =~= spec_volume_sources(volume_type));
    }
    v
}

/// The custom ring sound files, as paths.
#[derive(Debug)]
pub struct RingSoundConfig {
    pub ring_sound: Option<String>,
    pub priority_ring_sound: Option<String>,
}

impl RingSoundConfig {
    /// The custom file for a ring sound, if one is configured.
    pub fn ring_sound(&self, ring_type: RingSoundType) -> (r: Option<&String>)
        ensures
            r == (match ring_type {
                RingSoundType::Ring => match self.ring_sound {
                    Some(p) => Some(&p),
                    None => None,
                },
                RingSoundType::PriorityRing => match self.priority_ring_sound {
                    Some(p) => Some(&p),
                    None => None,
                },
            }),
    {
        match ring_type {
            RingSoundType::Ring => self.ring_sound.as_ref(),
            RingSoundType::PriorityRing => self.priority_ring_sound.as_ref(),
        }
    }

    /// Sets or clears the custom file for a ring sound.
    pub fn set_ring_sound(&mut self, ring_type: RingSoundType, path: Option<String>)
        ensures
            ring_type == RingSoundType::Ring ==> final(self).ring_sound == path
                && final(self).priority_ring_sound == old(self).priority_ring_sound,
            ring_type == RingSoundType::PriorityRing ==> final(self).priority_ring_sound == path
                && final(self).ring_sound == old(self).ring_sound,
    {
        match ring_type {
            RingSoundType::Ring => self.ring_sound = path,
            RingSoundType::PriorityRing => self.priority_ring_sound = path,
        }
    }
}

/// A configured ring sound file and whether it loaded (the built-in chime plays otherwise).
#[derive(Debug)]
pub struct RingSound {
    pub path: String,
    pub available: bool,
}

/// The configured ring sounds, as the settings page shows them.
#[derive(Debug)]
pub struct RingSounds {
    pub ring: Option<RingSound>,
    pub priority_ring: Option<RingSound>,
}

impl RingSounds {
    /// One entry per configured ring sound, flagged with whether `is_loaded` reports it loaded.
    pub fn new<F: Fn(RingSoundType) -> bool>(config: &RingSoundConfig, is_loaded: F) -> (r: RingSounds)
        requires
            forall|t: RingSoundType| call_requires(is_loaded, (t,)),
        ensures
            match config.ring_sound {
                Some(p) => r.ring matches Some(e) && e.path@ == p@ && call_ensures(
                    is_loaded,
                    (RingSoundType::Ring,),
                    e.available,
                ),
                None => r.ring is None,
            },
            match config.priority_ring_sound {
                Some(p) => r.priority_ring matches Some(e) && e.path@ == p@ && call_ensures(
                    is_loaded,
                    (RingSoundType::PriorityRing,),
                    e.available,
                ),
                None => r.priority_ring is None,
            },
    {
        let ring = match &config.ring_sound {
            Some(p) => Some(RingSound { path: p.clone(), available: is_loaded(RingSoundType::Ring) }),
            None => None,
        };
        let priority_ring = match &config.priority_ring_sound {
            Some(p) => Some(
                RingSound { path: p.clone(), available: is_loaded(RingSoundType::PriorityRing) },
            ),
            None => None,
        };
        RingSounds { ring, priority_ring }
    }
}

/// Longest custom ring sound accepted, in nanoseconds.
pub const MAX_RING_SOUND_NANOS: u128 = 30_000_000_000;

/// Shortest custom ring sound accepted, in nanoseconds.
pub const MIN_RING_SOUND_NANOS: u128 = 100_000_000;

/// Why a custom ring sound file is refused.
#[derive(Debug, Clone, Copy, PartialEq, Eq, Structural)]
pub enum RingClipProblem {
    TooLong,
    TooShort,
    Silent,
}

/// Checks a decoded ring sound: too long first (before decoding it fully), then too short,
/// then silent.
pub fn check_ring_clip(duration_nanos: u128, silent: bool) -> (r: Option<RingClipProblem>)
    ensures
        r == (if duration_nanos > MAX_RING_SOUND_NANOS {
            Some(RingClipProblem::TooLong)
        } else if duration_nanos < MIN_RING_SOUND_NANOS {
            Some(RingClipProblem::TooShort)
        } else if silent {
            Some(RingClipProblem::Silent)
        } else {
            None
        }),
{
    if duration_nanos > MAX_RING_SOUND_NANOS {
        return Some(RingClipProblem::TooLong);
    }
    if duration_nanos < MIN_RING_SOUND_NANOS {
        return Some(RingClipProblem::TooShort);
    }
    if silent {
        return Some(RingClipProblem::Silent);
    }
    None
}

/// The device choices of the audio settings. A missing host or device means the default; a
/// device ID, when known, is tried before the name.
#[derive(Debug)]
pub struct DeviceSettings {
    pub host_name: Option<String>,
    pub input_device_name: Option<String>,
    pub input_device_id: Option<String>,
    pub output_device_name: Option<String>,
    pub output_device_id: Option<String>,
    pub speaker_enabled: bool,
    pub speaker_device_name: Option<String>,
    pub speaker_device_id: Option<String>,
}

pub open spec fn nonempty(o: Option<String>) -> Option<String> {
    match o {
        Some(s) => if s@.len() > 0 {
            Some(s)
        } else {
            None
        },
        None => None,
    }
}

fn keep_nonempty(o: Option<String>) -> (r: Option<String>)
    ensures
        r == nonempty(o),
{
    match o {
        Some(s) => if s.as_str().unicode_len() > 0 {
            Some(s)
        } else {
            None
        },
        None => None,
    }
}

pub open spec fn text_of(o: Option<String>) -> Option<Seq<char>> {
    match o {
        Some(s) => Some(s@),
        None => None,
    }
}

fn opt_str(o: &Option<String>) -> (r: Option<&str>)
    ensures
        crate::device::text_opt(r) == text_of(*o),
{
    match o {
        Some(s) => Some(s.as_str()),
        None => None,
    }
}

fn or_empty(o: &Option<String>) -> (r: String)
    ensures
        r@ == (match *o {
            Some(s) => s@,
            None => Seq::<char>::empty(),
        }),
{
    match o {
        Some(s) => s.clone(),
        None => String::new(),
    }
}

impl DeviceSettings {
    /// Switches the host (an empty name means the default host). Device IDs belong to a host,
    /// so the input and output IDs are cleared.
    pub fn set_host(&mut self, host_name: String)
        ensures
            final(self).host_name == nonempty(Some(host_name)),
            final(self).input_device_id is None,
            final(self).output_device_id is None,
            final(self).input_device_name == old(self).input_device_name,
            final(self).output_device_name == old(self).output_device_name,
            final(self).speaker_enabled == old(self).speaker_enabled,
            final(self).speaker_device_name == old(self).speaker_device_name,
            final(self).speaker_device_id == old(self).speaker_device_id,
    {
        self.host_name = keep_nonempty(Some(host_name));
        self.input_device_id = None;
        self.output_device_id = None;
    }

    /// Chooses a device (an empty name means the default) with the ID resolved for it. Choosing
    /// any speaker, even the default, enables the speaker; choosing none disables it.
    pub fn set_device(
        &mut self,
        device_type: ClientAudioDeviceType,
        device_name: Option<String>,
        device_id: Option<String>,
    )
        ensures
            device_type == ClientAudioDeviceType::Input ==> *final(self) == (DeviceSettings {
                input_device_name: nonempty(device_name),
                input_device_id: device_id,
                ..*old(self)
            }),
            device_type == ClientAudioDeviceType::Output ==> *final(self) == (DeviceSettings {
                output_device_name: nonempty(device_name),
                output_device_id: device_id,
                ..*old(self)
            }),
            device_type == ClientAudioDeviceType::Speaker ==> *final(self) == (DeviceSettings {
                speaker_enabled: device_name is Some,
                speaker_device_name: nonempty(device_name),
                speaker_device_id: device_id,
                ..*old(self)
            }),
    {
        let speaker_enabled = device_type == ClientAudioDeviceType::Speaker && device_name.is_some();
        let device_name = keep_nonempty(device_name);
        match device_type {
            ClientAudioDeviceType::Input => {
                self.input_device_name = device_name;
                self.input_device_id = device_id;
            },
            ClientAudioDeviceType::Output => {
                self.output_device_name = device_name;
                self.output_device_id = device_id;
            },
            ClientAudioDeviceType::Speaker => {
                self.speaker_enabled = speaker_enabled;
                self.speaker_device_name = device_name;
                self.speaker_device_id = device_id;
            },
        }
    }

    /// The stable ID of the device a name selects, to store beside the name; none for the
    /// default device.
    pub fn resolve_device_id(
        &self,
        backend: &AudioBackendInfo,
        device_type: ClientAudioDeviceType,
        device_name: &Option<String>,
    ) -> (r: Option<String>)
        ensures
            match nonempty(*device_name) {
                None => r is None,
                Some(n) => text_of(r) == crate::device::spec_resolve_device_id(
                    device_type_of(device_type),
                    spec_host(*backend, spec_select_host(*backend, text_of(self.host_name))),
                    n@,
                ),
            },
    {
        let name = keep_nonempty(copy_opt_string(device_name));
        match name {
            None => None,
            Some(n) => backend.resolve_device_id(
                to_device_type(device_type),
                opt_str(&self.host_name),
                n.as_str(),
            ),
        }
    }
}

/// The hosts for the settings page: the configured host (the default host when none is
/// configured) and all hosts.
#[derive(Debug)]
pub struct AudioHosts {
    pub selected: String,
    pub all: Vec<String>,
}

impl AudioHosts {
    pub fn new(settings: &DeviceSettings, backend: &AudioBackendInfo) -> (r: AudioHosts)
        ensures
            r.selected@ == (match settings.host_name {
                Some(h) => if h@.len() > 0 {
                    h@
                } else {
                    backend.default_host.name@
                },
                None => backend.default_host.name@,
            }),
            texts(r.all@) == backend.hosts@.map_values(|h: crate::device::AudioHostInfo| h.name@),
    {
        let mut selected = or_empty(&settings.host_name);
        if selected.as_str().unicode_len() == 0 {
            selected = backend.default_host_name();
        }
        AudioHosts { selected, all: backend.all_host_names() }
    }
}

/// The devices of one kind for the settings page.
#[derive(Debug)]
pub struct AudioDevices {
    /// The configured device name (empty for the default); none for a disabled speaker.
    pub preferred: Option<String>,
    /// The device actually in use; none for a disabled speaker.
    pub picked: Option<String>,
    pub default: String,
    pub all: Vec<String>,
}

/// The name of the device a selection picks, if it picks one.
pub open spec fn picked_name(
    b: AudioBackendInfo,
    t: DeviceType,
    host: Option<Seq<char>>,
    id: Option<Seq<char>>,
    name: Option<Seq<char>>,
) -> Option<Seq<char>> {
    let h = spec_host(b, spec_select_host(b, host));
    match spec_select_device(t, h, id, name) {
        Selection::Chosen(c, _) => Some(spec_chosen(t, h, c).name@),
        _ => None,
    }
}

/// The name of the default device, if there is one.
pub open spec fn default_name(b: AudioBackendInfo, t: DeviceType, host: Option<Seq<char>>) -> Option<
    Seq<char>,
> {
    match spec_default_device(t, spec_host(b, spec_select_host(b, host))) {
        Some(d) => Some(d.name@),
        None => None,
    }
}

/// The listed device names, if the host lists its devices.
pub open spec fn all_names(b: AudioBackendInfo, t: DeviceType, host: Option<Seq<char>>) -> Option<
    Seq<Seq<char>>,
> {
    match spec_host_devices(t, spec_host(b, spec_select_host(b, host))) {
        Ok(devs) => Some(listed_names(t, devs)),
        Err(_) => None,
    }
}

pub open spec fn or_empty_text(o: Option<String>) -> Seq<char> {
    match o {
        Some(s) => s@,
        None => Seq::<char>::empty(),
    }
}

/// Lists the devices of a kind: the configured and the picked device (the input device is
/// picked here; output and speaker report what the audio manager picked), the default device
/// and all devices. Fails, in this order, when the input device cannot be picked, when there
/// is no default device, or when the device list cannot be had, with that step's error.
pub fn get_audio_devices(
    device_type: ClientAudioDeviceType,
    settings: &DeviceSettings,
    picked_output_device: String,
    picked_speaker_device: Option<String>,
    backend: &AudioBackendInfo,
) -> (r: Result<AudioDevices, AudioError>)
    ensures
        ({
            let t = device_type_of(device_type);
            let host = text_of(settings.host_name);
            let input_ok = device_type == ClientAudioDeviceType::Input ==> picked_name(
                *backend,
                DeviceType::Input,
                host,
                text_of(settings.input_device_id),
                Some(or_empty_text(settings.input_device_name)),
            ) is Some;
            &&& r is Ok <==> (input_ok && default_name(*backend, t, host) is Some && all_names(
                *backend,
                t,
                host,
            ) is Some)
            &&& r matches Err(e) ==> {
                let h = spec_host(*backend, spec_select_host(*backend, host));
                if !input_ok {
                    match spec_select_device(
                        DeviceType::Input,
                        h,
                        text_of(settings.input_device_id),
                        Some(or_empty_text(settings.input_device_name)),
                    ) {
                        Selection::ListFailed(x) => e == x,
                        _ => e matches AudioError::Other(m) && m@ == no_default_message(
                            DeviceType::Input,
                        ),
                    }
                } else if default_name(*backend, t, host) is None {
                    e matches AudioError::Other(m) && m@ == no_default_message(t)
                } else {
                    spec_host_devices(t, h) matches Err(x) && x == e
                }
            }
            &&& r matches Ok(d) ==> {
                &&& Some(d.default@) == default_name(*backend, t, host)
                &&& Some(texts(d.all@)) == all_names(*backend, t, host)
                &&& match device_type {
                    ClientAudioDeviceType::Input => {
                        &&& text_of(d.preferred) == Some(or_empty_text(settings.input_device_name))
                        &&& text_of(d.picked) == picked_name(
                            *backend,
                            DeviceType::Input,
                            host,
                            text_of(settings.input_device_id),
                            Some(or_empty_text(settings.input_device_name)),
                        )
                    },
                    ClientAudioDeviceType::Output => {
                        &&& text_of(d.preferred) == Some(or_empty_text(settings.output_device_name))
                        &&& text_of(d.picked) == Some(picked_output_device@)
                    },
                    ClientAudioDeviceType::Speaker => if settings.speaker_enabled {
                        &&& text_of(d.preferred) == Some(or_empty_text(settings.speaker_device_name))
                        &&& text_of(d.picked) == Some(or_empty_text(picked_speaker_device))
                    } else {
                        d.preferred is None && d.picked is None
                    },
                }
            }
        }),
{
    let host = opt_str(&settings.host_name);
    let (preferred, picked) = match device_type {
        ClientAudioDeviceType::Input => {
            let preferred = or_empty(&settings.input_device_name);
            let picked = match backend.picked_device_name(
                DeviceType::Input,
                host,
                opt_str(&settings.input_device_id),
                Some(preferred.as_str()),
            ) {
                Ok(p) => p,
                Err(e) => {
                    return Err(e);
                },
            };
            (Some(preferred), Some(picked))
        },
        ClientAudioDeviceType::Output => {
            let preferred = or_empty(&settings.output_device_name);
            (Some(preferred), Some(picked_output_device))
        },
        ClientAudioDeviceType::Speaker => {
            if settings.speaker_enabled {
                let preferred = or_empty(&settings.speaker_device_name);
                (Some(preferred), Some(or_empty(&picked_speaker_device)))
            } else {
                (None, None)
            }
        },
    };
    let t = to_device_type(device_type);
    let default = match backend.default_device_name(t, host) {
        Ok(d) => d,
        Err(e) => {
            return Err(e);
        },
    };
    let all = match backend.all_device_names(t, host) {
        Ok(a) => a,
        Err(e) => {
            return Err(e);
        },
    };
    Ok(AudioDevices { preferred, picked, default, all })
}

/// The sounds a playback stream carries: the rings and the click on every stream, and on the
/// output stream also ringback and the call start and end sounds.
pub open spec fn spec_stream_sources(t: PlaybackDeviceType) -> Seq<SourceType> {
    match t {
        PlaybackDeviceType::Output => seq![
            SourceType::Ring,
            SourceType::PriorityRing,
            SourceType::Click,
            SourceType::Ringback,
            SourceType::RingbackOneshot,
            SourceType::CallStart,
            SourceType::CallEnd,
        ],
        PlaybackDeviceType::Speaker => seq![SourceType::Ring, SourceType::PriorityRing, SourceType::Click],
    }
}

/// The sounds a new playback stream is given, in the order they are added.
pub fn stream_sources(device_type: PlaybackDeviceType) -> (r: Vec<SourceType>)
    ensures
        r@ == spec_stream_sources(device_type),
{
    let mut v: Vec<SourceType> = Vec::new();
    v.push(SourceType::Ring);
    v.push(SourceType::PriorityRing);
    v.push(SourceType::Click);
    if device_type == PlaybackDeviceType::Output {
        v.push(SourceType::Ringback);
        v.push(SourceType::RingbackOneshot);
        v.push(SourceType::CallStart);
        v.push(SourceType::CallEnd);
    }
    proof {
        assert(v@ =~= spec_stream_sources(device_type));
    }
    v
}

/// Which stream plays a sound: the speaker when it is on and carries the sound, else the
/// output when that carries it.
pub fn source_stream(speaker_carries: Option<bool>, output_carries: bool) -> (r: Option<PlaybackDeviceType>)
    ensures
        r == (if speaker_carries == Some(true) {
            Some(PlaybackDeviceType::Speaker)
        } else if output_carries {
            Some(PlaybackDeviceType::Output)
        } else {
            None
        }),
{
    if speaker_carries == Some(true) {
        Some(PlaybackDeviceType::Speaker)
    } else if output_carries {
        Some(PlaybackDeviceType::Output)
    } else {
        None
    }
}

/// Which streams replay a sound after its volume changed, so the user hears the new level:
/// the output replays the one-shot ringback, and the ring and click when there is no speaker;
/// the speaker replays the ring and click.
pub fn volume_preview(source: SourceType, speaker_present: bool) -> (r: (bool, bool))
    ensures
        r.0 == (source == SourceType::RingbackOneshot || (!speaker_present && (source
            == SourceType::Ring || source == SourceType::Click))),
        r.1 == (speaker_present && (source == SourceType::Ring || source == SourceType::Click)),
{
    let ring_or_click = source == SourceType::Ring || source == SourceType::Click;
    (source == SourceType::RingbackOneshot || (!speaker_present && ring_or_click), speaker_present
        && ring_or_click)
}

/// How long a device restart protects against a second failure, in nanoseconds.
pub const RESTART_COOLDOWN_NANOS: u128 = 2_000_000_000;

/// How a failed audio stream is recovered.
#[derive(Debug, Clone, Copy, PartialEq, Eq, Structural)]
pub enum StreamRecovery {
    /// It failed again right after a restart, not because the device changed: give up.
    GiveUp,
    /// Rebuild the stream after waiting this many nanoseconds.
    Restart(u128),
}

/// A stream that fails again within the cooldown after a restart is given up, unless the
/// default device changed again, in which case the rebuild waits out the cooldown; any other
/// failure rebuilds at once.
pub fn stream_recovery(device_changed: bool, since_restart_nanos: Option<u128>) -> (r: StreamRecovery)
    ensures
        r == (match since_restart_nanos {
            Some(t) => if t < RESTART_COOLDOWN_NANOS {
                if device_changed {
                    StreamRecovery::Restart((RESTART_COOLDOWN_NANOS - t) as u128)
                } else {
                    StreamRecovery::GiveUp
                }
            } else {
                StreamRecovery::Restart(0)
            },
            None => StreamRecovery::Restart(0),
        }),
{
    match since_restart_nanos {
        Some(t) => if t < RESTART_COOLDOWN_NANOS {
            if device_changed {
                StreamRecovery::Restart(RESTART_COOLDOWN_NANOS - t)
            } else {
                StreamRecovery::GiveUp
            }
        } else {
            StreamRecovery::Restart(0)
        },
        None => StreamRecovery::Restart(0),
    }
}

/// Calls only play on the output stream, so only an output failure ends the active call.
pub fn stream_failure_ends_call(device_type: PlaybackDeviceType) -> (r: bool)
    ensures
        r == (device_type == PlaybackDeviceType::Output),
{
    device_type == PlaybackDeviceType::Output
}

/// The device a playback stream is switched to, by ID and name; none when the speaker is
/// switched off.
pub fn playback_device_choice(settings: &DeviceSettings, device_type: PlaybackDeviceType) -> (r: Option<
    (Option<String>, Option<String>),
>)
    ensures
        device_type == PlaybackDeviceType::Speaker && !settings.speaker_enabled ==> r is None,
        device_type == PlaybackDeviceType::Speaker && settings.speaker_enabled ==> r == Some(
            (settings.speaker_device_id, settings.speaker_device_name),
        ),
        device_type == PlaybackDeviceType::Output ==> r == Some(
            (settings.output_device_id, settings.output_device_name),
        ),
{
    match device_type {
        PlaybackDeviceType::Speaker => if !settings.speaker_enabled {
            None
        } else {
            Some(
                (
                    copy_opt_string(&settings.speaker_device_id),
                    copy_opt_string(&settings.speaker_device_name),
                ),
            )
        },
        PlaybackDeviceType::Output => Some(
            (
                copy_opt_string(&settings.output_device_id),
                copy_opt_string(&settings.output_device_name),
            ),
        ),
    }
}

} // verus!
