//! Device and stream-configuration selection over a snapshot of an audio backend.
//!
//! Selection priority for a device is: stable ID, then an exact (ASCII case-insensitive)
//! match against any of the device's identifiers, then a case-insensitive substring
//! match, then the host's default device. Among the configurations of a device the one
//! closest to the target sample rate, then to the preferred channel count, then to the
//! preferred sample format wins; ties keep the earlier configuration.

use vstd::prelude::*;
use crate::backend::{
    AudioError, DeviceDescription, DeviceDirection, SampleFormat, StreamConfig, StreamConfigRange,
    TARGET_SAMPLE_RATE,
};
use crate::seqs::{first_of, is_first, lemma_first_of_found, lemma_first_of_none};
use crate::text::{
    contains_ignore_case, contains_text, copy_text, eq_ignore_ascii_case, eq_ignore_case, lowercase,
};

verus! {

#[derive(Debug, Clone, Copy, PartialEq, Eq, Structural)]
pub enum DeviceType {
    Input,
    Output,
}

impl DeviceType {
    /// Lowercase name of the device type.
    pub fn as_str(&self) -> (r: &'static str)
        ensures
            r@ == spec_device_type_name(*self),
    {
        match self {
            DeviceType::Input => "input",
            DeviceType::Output => "output",
        }
    }
}

pub open spec fn spec_device_type_name(t: DeviceType) -> Seq<char> {
    match t {
        DeviceType::Input => "input"@,
        DeviceType::Output => "output"@,
    }
}

/// What the selection logic knows of one device of a host.
pub struct AudioDeviceInfo {
    pub name: String,
    pub id: Option<String>,
    pub description: Result<DeviceDescription, AudioError>,
    pub input_configs: Result<Vec<StreamConfigRange>, AudioError>,
    pub output_configs: Result<Vec<StreamConfigRange>, AudioError>,
    /// All names the device is known by (display name, raw name, driver, ...).
    pub identifiers: Vec<String>,
}

/// What the selection logic knows of one audio host.
pub struct AudioHostInfo {
    pub name: String,
    pub input_devices: Result<Vec<AudioDeviceInfo>, AudioError>,
    pub output_devices: Result<Vec<AudioDeviceInfo>, AudioError>,
    pub default_input_device: Option<AudioDeviceInfo>,
    pub default_output_device: Option<AudioDeviceInfo>,
    /// Devices that can be looked up by their stable ID.
    pub addressable_devices: Vec<AudioDeviceInfo>,
}

/// What the selection logic knows of an audio backend: its hosts and its default host.
pub struct AudioBackendInfo {
    pub hosts: Vec<AudioHostInfo>,
    pub default_host: AudioHostInfo,
}

/// A device picked for streaming, with the configuration picked for it.
pub struct StreamDevice {
    pub device_type: DeviceType,
    pub device: AudioDeviceInfo,
    pub config: StreamConfig,
}

impl StreamDevice {
    pub fn device_type(&self) -> (r: DeviceType)
        ensures
            r == self.device_type,
    {
        self.device_type
    }

    pub fn name(&self) -> (r: String)
        ensures
            r@ == self.device.name@,
    {
        self.device.name.clone()
    }

    pub fn sample_rate(&self) -> (r: u32)
        ensures
            r == self.config.sample_rate,
    {
        self.config.sample_rate
    }

    pub fn channels(&self) -> (r: u16)
        ensures
            r == self.config.channels,
    {
        self.config.channels
    }
}

// ---------------------------------------------------------------------------------------------
// Scoring
// ---------------------------------------------------------------------------------------------

/// Score of a configuration range: sample-rate distance, channel distance, format preference.
/// Lower is better, compared lexicographically.
#[derive(Copy, Clone, Debug, PartialEq, Eq, Structural)]
pub struct StreamConfigScore(pub u32, pub u16, pub u8);

pub open spec fn score_lt(a: StreamConfigScore, b: StreamConfigScore) -> bool {
    ||| a.0 < b.0
    ||| a.0 == b.0 && a.1 < b.1
    ||| a.0 == b.0 && a.1 == b.1 && a.2 < b.2
}

impl StreamConfigScore {
    /// Strict lexicographic comparison.
    pub fn less_than(&self, other: &StreamConfigScore) -> (r: bool)
        ensures
            r == score_lt(*self, *other),
    {
        self.0 < other.0 || (self.0 == other.0 && (self.1 < other.1 || (self.1 == other.1
            && self.2 < other.2)))
    }
}

/// Distance of a supported sample-rate range from [`TARGET_SAMPLE_RATE`].
pub open spec fn spec_sample_rate_distance(min: u32, max: u32) -> u32 {
    if min <= TARGET_SAMPLE_RATE && TARGET_SAMPLE_RATE <= max {
        0
    } else if TARGET_SAMPLE_RATE < min {
        (min - TARGET_SAMPLE_RATE) as u32
    } else {
        (TARGET_SAMPLE_RATE - max) as u32
    }
}

/// The rate of a supported range closest to [`TARGET_SAMPLE_RATE`].
pub open spec fn spec_closest_sample_rate(min: u32, max: u32) -> u32 {
    if min <= TARGET_SAMPLE_RATE && TARGET_SAMPLE_RATE <= max {
        TARGET_SAMPLE_RATE
    } else if TARGET_SAMPLE_RATE < min {
        min
    } else {
        max
    }
}

pub open spec fn abs_diff_u16(a: u16, b: u16) -> u16 {
    if a >= b {
        (a - b) as u16
    } else {
        (b - a) as u16
    }
}

pub open spec fn format_preference(f: SampleFormat) -> u8 {
    match f {
        SampleFormat::F32 => 0,
        SampleFormat::I16 => 1,
        SampleFormat::U16 => 2,
        SampleFormat::Other => 3,
    }
}

pub open spec fn spec_score(range: StreamConfigRange, preferred_channels: u16) -> StreamConfigScore {
    StreamConfigScore(
        spec_sample_rate_distance(range.min_sample_rate, range.max_sample_rate),
        abs_diff_u16(range.channels, preferred_channels),
        format_preference(range.sample_format),
    )
}

pub fn sample_rate_distance(min: u32, max: u32) -> (d: u32)
    ensures
        d == spec_sample_rate_distance(min, max),
{
    if min <= TARGET_SAMPLE_RATE && max >= TARGET_SAMPLE_RATE {
        0
    } else if TARGET_SAMPLE_RATE < min {
        min - TARGET_SAMPLE_RATE
    } else {
        TARGET_SAMPLE_RATE - max
    }
}

/// How far a sample rate lies from [`TARGET_SAMPLE_RATE`].
pub open spec fn gap_to_target(rate: int) -> int {
    if rate >= TARGET_SAMPLE_RATE {
        rate - TARGET_SAMPLE_RATE
    } else {
        TARGET_SAMPLE_RATE - rate
    }
}

pub fn closest_sample_rate(min: u32, max: u32) -> (r: u32)
    ensures
        r == spec_closest_sample_rate(min, max),
        min <= max ==> min <= r <= max,
        min <= max ==> forall|x: int|
            min <= x <= max ==> gap_to_target(r as int) <= #[trigger] gap_to_target(x),
{
    if min <= TARGET_SAMPLE_RATE && max >= TARGET_SAMPLE_RATE {
        TARGET_SAMPLE_RATE
    } else if TARGET_SAMPLE_RATE < min {
        min
    } else {
        max
    }
}

pub fn score_stream_config_range(range: &StreamConfigRange, preferred_channels: u16) -> (r:
    StreamConfigScore)
    ensures
        r == spec_score(*range, preferred_channels),
{
    let sample_rate_distance = sample_rate_distance(range.min_sample_rate, range.max_sample_rate);
    let channels_distance = if range.channels >= preferred_channels {
        range.channels - preferred_channels
    } else {
        preferred_channels - range.channels
    };
    let format_preference: u8 = match range.sample_format {
        SampleFormat::F32 => 0,
        SampleFormat::I16 => 1,
        SampleFormat::U16 => 2,
        SampleFormat::Other => 3,
    };
    StreamConfigScore(sample_rate_distance, channels_distance, format_preference)
}

} // verus!

verus! {

// ---------------------------------------------------------------------------------------------
// Specification of the selection
// ---------------------------------------------------------------------------------------------

pub open spec fn text_opt(o: Option<&str>) -> Option<Seq<char>> {
    match o {
        Some(s) => Some(s@),
        None => None,
    }
}

pub open spec fn spec_host_devices(t: DeviceType, host: AudioHostInfo) -> Result<
    Seq<AudioDeviceInfo>,
    AudioError,
> {
    let listed = match t {
        DeviceType::Input => host.input_devices,
        DeviceType::Output => host.output_devices,
    };
    match listed {
        Ok(v) => Ok(v@),
        Err(e) => Err(e),
    }
}

pub open spec fn spec_default_device(t: DeviceType, host: AudioHostInfo) -> Option<AudioDeviceInfo> {
    match t {
        DeviceType::Input => host.default_input_device,
        DeviceType::Output => host.default_output_device,
    }
}

/// The device's stable ID is `id`.
pub open spec fn id_pred(id: Seq<char>) -> spec_fn(AudioDeviceInfo) -> bool {
    |d: AudioDeviceInfo| d.id matches Some(x) && x@ == id
}

/// One of the device's identifiers equals `name`, ignoring ASCII case.
pub open spec fn exact_pred(name: Seq<char>) -> spec_fn(AudioDeviceInfo) -> bool {
    |d: AudioDeviceInfo|
        exists|j: int|
            0 <= j < d.identifiers.len() && eq_ignore_case(#[trigger] d.identifiers@[j]@, name)
}

/// One of the device's identifiers, lowercased, contains `name` lowercased.
pub open spec fn substring_pred(name: Seq<char>) -> spec_fn(AudioDeviceInfo) -> bool {
    |d: AudioDeviceInfo|
        exists|j: int|
            0 <= j < d.identifiers.len() && contains_text(
                lowercase(#[trigger] d.identifiers@[j]@),
                lowercase(name),
            )
}

/// Which device of a host a selection refers to.
#[derive(Debug, Clone, Copy, PartialEq, Eq, Structural)]
pub enum DeviceChoice {
    /// The device at this position of the host's ID-addressable devices.
    ById(usize),
    /// The device at this position of the host's device list for the direction.
    Listed(usize),
    /// The host's default device for the direction.
    Default,
}

/// The outcome of [`select_device`].
pub enum Selection {
    Chosen(DeviceChoice, bool),
    ListFailed(AudioError),
    NoDefaultDevice,
}

pub open spec fn first_index<A>(s: Seq<A>, p: spec_fn(A) -> bool) -> int {
    choose|i: int| is_first(s, p, i)
}

pub open spec fn default_selection(t: DeviceType, host: AudioHostInfo, preferred: bool) -> Selection {
    if spec_default_device(t, host) is Some {
        Selection::Chosen(DeviceChoice::Default, preferred)
    } else {
        Selection::NoDefaultDevice
    }
}

/// ID first, then exact name, then name substring, then the default device; the flag tells
/// whether a preference was given but could not be honoured.
pub open spec fn spec_select_device(
    t: DeviceType,
    host: AudioHostInfo,
    pref_id: Option<Seq<char>>,
    pref_name: Option<Seq<char>>,
) -> Selection {
    let preferred = pref_id is Some || pref_name is Some;
    let by_id = match pref_id {
        Some(id) => first_of(host.addressable_devices@, id_pred(id)) is Some,
        None => false,
    };
    if by_id {
        Selection::Chosen(
            DeviceChoice::ById(first_index(host.addressable_devices@, id_pred(pref_id->0)) as usize),
            false,
        )
    } else if let Some(name) = pref_name {
        match spec_host_devices(t, host) {
            Err(e) => Selection::ListFailed(e),
            Ok(devs) => if first_of(devs, exact_pred(name)) is Some {
                Selection::Chosen(
                    DeviceChoice::Listed(first_index(devs, exact_pred(name)) as usize),
                    false,
                )
            } else if first_of(devs, substring_pred(name)) is Some {
                Selection::Chosen(
                    DeviceChoice::Listed(first_index(devs, substring_pred(name)) as usize),
                    false,
                )
            } else {
                default_selection(t, host, preferred)
            },
        }
    } else {
        default_selection(t, host, preferred)
    }
}

/// The device a choice designates.
pub open spec fn spec_chosen(t: DeviceType, host: AudioHostInfo, c: DeviceChoice) -> AudioDeviceInfo {
    match c {
        DeviceChoice::ById(i) => host.addressable_devices@[i as int],
        DeviceChoice::Listed(i) => match spec_host_devices(t, host) {
            Ok(devs) => devs[i as int],
            Err(_) => arbitrary(),
        },
        DeviceChoice::Default => spec_default_device(t, host)->0,
    }
}

/// A choice designates an existing device.
pub open spec fn choice_valid(t: DeviceType, host: AudioHostInfo, c: DeviceChoice) -> bool {
    match c {
        DeviceChoice::ById(i) => i < host.addressable_devices.len(),
        DeviceChoice::Listed(i) => spec_host_devices(t, host) matches Ok(devs) && i < devs.len(),
        DeviceChoice::Default => spec_default_device(t, host) is Some,
    }
}

pub open spec fn no_default_message(t: DeviceType) -> Seq<char> {
    match t {
        DeviceType::Input => "No default input device"@,
        DeviceType::Output => "No default output device"@,
    }
}

pub open spec fn selection_result(
    t: DeviceType,
    host: AudioHostInfo,
    s: Selection,
    r: Result<(DeviceChoice, bool), AudioError>,
) -> bool {
    match s {
        Selection::Chosen(c, fb) => r == Ok::<(DeviceChoice, bool), AudioError>((c, fb))
            && choice_valid(t, host, c),
        Selection::ListFailed(e) => r == Err::<(DeviceChoice, bool), AudioError>(e),
        Selection::NoDefaultDevice => r matches Err(AudioError::Other(m)) && m@
            == no_default_message(t),
    }
}

// ---------------------------------------------------------------------------------------------
// Executable selection
// ---------------------------------------------------------------------------------------------

/// The device list of a host for a direction.
pub fn host_devices<'a>(t: DeviceType, host: &'a AudioHostInfo) -> (r: Result<
    &'a Vec<AudioDeviceInfo>,
    AudioError,
>)
    ensures
        match spec_host_devices(t, *host) {
            Ok(devs) => r matches Ok(v) && v@ == devs,
            Err(e) => r matches Err(x) && x == e,
        },
{
    let listed = match t {
        DeviceType::Input => &host.input_devices,
        DeviceType::Output => &host.output_devices,
    };
    match listed {
        Ok(v) => Ok(v),
        Err(e) => Err(e.duplicate()),
    }
}

/// Whether any identifier of the device equals `name`, ignoring ASCII case.
pub fn matches_exactly(d: &AudioDeviceInfo, name: &str) -> (r: bool)
    ensures
        r == exact_pred(name@)(*d),
{
    let mut j: usize = 0;
    while j < d.identifiers.len()
        invariant
            j <= d.identifiers.len(),
            forall|k: int| 0 <= k < j ==> !eq_ignore_case(#[trigger] d.identifiers@[k]@, name@),
        decreases d.identifiers.len() - j,
    {
        if eq_ignore_ascii_case(d.identifiers[j].as_str(), name) {
            return true;
        }
        j += 1;
    }
    false
}

/// Whether any identifier of the device, lowercased, contains `name` lowercased.
pub fn matches_substring(d: &AudioDeviceInfo, name: &str) -> (r: bool)
    ensures
        r == substring_pred(name@)(*d),
{
    let mut j: usize = 0;
    while j < d.identifiers.len()
        invariant
            j <= d.identifiers.len(),
            forall|k: int|
                0 <= k < j ==> !contains_text(
                    lowercase(#[trigger] d.identifiers@[k]@),
                    lowercase(name@),
                ),
        decreases d.identifiers.len() - j,
    {
        if contains_ignore_case(d.identifiers[j].as_str(), name) {
            return true;
        }
        j += 1;
    }
    false
}

/// Whether the device's stable ID is `id`.
pub fn has_id(d: &AudioDeviceInfo, id: &str) -> (r: bool)
    ensures
        r == id_pred(id@)(*d),
{
    match &d.id {
        Some(x) => {
            let owned = copy_text(id);
            *x == owned
        },
        None => false,
    }
}

/// Position of the first device with the given stable ID.
fn find_by_id(devs: &Vec<AudioDeviceInfo>, id: &str) -> (r: Option<usize>)
    ensures
        match r {
            Some(i) => is_first(devs@, id_pred(id@), i as int),
            None => first_of(devs@, id_pred(id@)) is None,
        },
{
    let mut i: usize = 0;
    while i < devs.len()
        invariant
            i <= devs.len(),
            forall|k: int| 0 <= k < i ==> !id_pred(id@)(#[trigger] devs@[k]),
        decreases devs.len() - i,
    {
        if has_id(&devs[i], id) {
            return Some(i);
        }
        i += 1;
    }
    proof {
        lemma_first_of_none(devs@, id_pred(id@));
    }
    None
}

/// Position of the first device one of whose identifiers equals `name` ignoring ASCII case.
fn find_exact(devs: &Vec<AudioDeviceInfo>, name: &str) -> (r: Option<usize>)
    ensures
        match r {
            Some(i) => is_first(devs@, exact_pred(name@), i as int),
            None => first_of(devs@, exact_pred(name@)) is None,
        },
{
    let mut i: usize = 0;
    while i < devs.len()
        invariant
            i <= devs.len(),
            forall|k: int| 0 <= k < i ==> !exact_pred(name@)(#[trigger] devs@[k]),
        decreases devs.len() - i,
    {
        if matches_exactly(&devs[i], name) {
            return Some(i);
        }
        i += 1;
    }
    proof {
        lemma_first_of_none(devs@, exact_pred(name@));
    }
    None
}

/// Position of the first device one of whose identifiers contains `name`, ignoring case.
fn find_substring(devs: &Vec<AudioDeviceInfo>, name: &str) -> (r: Option<usize>)
    ensures
        match r {
            Some(i) => is_first(devs@, substring_pred(name@), i as int),
            None => first_of(devs@, substring_pred(name@)) is None,
        },
{
    let mut i: usize = 0;
    while i < devs.len()
        invariant
            i <= devs.len(),
            forall|k: int| 0 <= k < i ==> !substring_pred(name@)(#[trigger] devs@[k]),
        decreases devs.len() - i,
    {
        if matches_substring(&devs[i], name) {
            return Some(i);
        }
        i += 1;
    }
    proof {
        lemma_first_of_none(devs@, substring_pred(name@));
    }
    None
}

fn select_default(t: DeviceType, host: &AudioHostInfo, preferred: bool) -> (r: Result<
    (DeviceChoice, bool),
    AudioError,
>)
    ensures
        selection_result(t, *host, default_selection(t, *host, preferred), r),
{
    let present = match t {
        DeviceType::Input => host.default_input_device.is_some(),
        DeviceType::Output => host.default_output_device.is_some(),
    };
    if present {
        Ok((DeviceChoice::Default, preferred))
    } else {
        let msg = match t {
            DeviceType::Input => copy_text("No default input device"),
            DeviceType::Output => copy_text("No default output device"),
        };
        Err(AudioError::Other(msg))
    }
}

/// Selects a device of `host`: by stable ID, then by exact name, then by name substring, then
/// the default device. The flag is true when a preference was given and the default was used.
pub fn select_device(
    t: DeviceType,
    host: &AudioHostInfo,
    preferred_device_id: Option<&str>,
    preferred_device_name: Option<&str>,
) -> (r: Result<(DeviceChoice, bool), AudioError>)
    ensures
        selection_result(
            t,
            *host,
            spec_select_device(t, *host, text_opt(preferred_device_id), text_opt(preferred_device_name)),
            r,
        ),
{
    let preferred = preferred_device_id.is_some() || preferred_device_name.is_some();
    if let Some(id) = preferred_device_id {
        if let Some(i) = find_by_id(&host.addressable_devices, id) {
            proof {
                lemma_first_of_found(host.addressable_devices@, id_pred(id@), i as int);
                crate::seqs::lemma_first_unique(
                    host.addressable_devices@,
                    id_pred(id@),
                    i as int,
                    first_index(host.addressable_devices@, id_pred(id@)),
                );
            }
            return Ok((DeviceChoice::ById(i), false));
        }
    }
    if let Some(name) = preferred_device_name {
        let devs = match host_devices(t, host) {
            Ok(v) => v,
            Err(e) => {
                return Err(e);
            },
        };
        if let Some(i) = find_exact(devs, name) {
            proof {
                lemma_first_of_found(devs@, exact_pred(name@), i as int);
                crate::seqs::lemma_first_unique(
                    devs@,
                    exact_pred(name@),
                    i as int,
                    first_index(devs@, exact_pred(name@)),
                );
            }
            return Ok((DeviceChoice::Listed(i), false));
        }
        if let Some(i) = find_substring(devs, name) {
            proof {
                lemma_first_of_found(devs@, substring_pred(name@), i as int);
                crate::seqs::lemma_first_unique(
                    devs@,
                    substring_pred(name@),
                    i as int,
                    first_index(devs@, substring_pred(name@)),
                );
            }
            return Ok((DeviceChoice::Listed(i), false));
        }
    }
    select_default(t, host, preferred)
}

} // verus!

verus! {

// ---------------------------------------------------------------------------------------------
// Stream configuration
// ---------------------------------------------------------------------------------------------

pub open spec fn preferred_channels(t: DeviceType) -> u16 {
    match t {
        DeviceType::Input => 1,
        DeviceType::Output => 2,
    }
}

pub open spec fn spec_configs(t: DeviceType, d: AudioDeviceInfo) -> Result<
    Seq<StreamConfigRange>,
    AudioError,
> {
    let c = match t {
        DeviceType::Input => d.input_configs,
        DeviceType::Output => d.output_configs,
    };
    match c {
        Ok(v) => Ok(v@),
        Err(e) => Err(e),
    }
}

/// `i` is the first configuration with the lowest score.
pub open spec fn is_best_config(s: Seq<StreamConfigRange>, pref: u16, i: int) -> bool {
    &&& 0 <= i < s.len()
    &&& forall|k: int|
        0 <= k < i ==> score_lt(spec_score(s[i], pref), spec_score(#[trigger] s[k], pref))
    &&& forall|k: int|
        i < k < s.len() ==> !score_lt(spec_score(#[trigger] s[k], pref), spec_score(s[i], pref))
}

/// The configuration picked for a device, with its score; `None` when its configurations
/// cannot be listed or there are none.
pub open spec fn spec_best_config(t: DeviceType, d: AudioDeviceInfo) -> Option<
    (StreamConfig, StreamConfigScore),
> {
    match spec_configs(t, d) {
        Ok(s) => if exists|i: int| is_best_config(s, preferred_channels(t), i) {
            let i = choose|i: int| is_best_config(s, preferred_channels(t), i);
            let range = s[i];
            Some(
                (
                    range.spec_at_rate(
                        spec_closest_sample_rate(range.min_sample_rate, range.max_sample_rate),
                    ),
                    spec_score(range, preferred_channels(t)),
                ),
            )
        } else {
            None
        },
        Err(_) => None,
    }
}

proof fn lemma_best_config_unique(s: Seq<StreamConfigRange>, pref: u16, i: int, j: int)
    requires
        is_best_config(s, pref, i),
        is_best_config(s, pref, j),
    ensures
        i == j,
{
    if i < j {
        assert(score_lt(spec_score(s[j], pref), spec_score(s[i], pref)));
    } else if j < i {
        assert(score_lt(spec_score(s[i], pref), spec_score(s[j], pref)));
    }
}

pub open spec fn no_config_message() -> Seq<char> {
    "No supported stream config found"@
}

/// Position of the first configuration with the lowest score, if there is any configuration.
pub fn best_config_index(configs: &Vec<StreamConfigRange>, preferred_channels: u16) -> (r: Option<
    usize,
>)
    ensures
        match r {
            Some(i) => is_best_config(configs@, preferred_channels, i as int),
            None => configs@.len() == 0,
        },
{
    if configs.len() == 0 {
        return None;
    }
    let mut best: usize = 0;
    let mut best_score = score_stream_config_range(&configs[0], preferred_channels);
    let mut i: usize = 1;
    while i < configs.len()
        invariant
            1 <= i <= configs.len(),
            best < i,
            best_score == spec_score(configs@[best as int], preferred_channels),
            is_best_config(configs@.subrange(0, i as int), preferred_channels, best as int),
        decreases configs.len() - i,
    {
        let score = score_stream_config_range(&configs[i], preferred_channels);
        let ghost prev = configs@.subrange(0, i as int);
        let ghost next = configs@.subrange(0, i + 1);
        if score.less_than(&best_score) {
            assert(is_best_config(next, preferred_channels, i as int)) by {
                assert forall|k: int| 0 <= k < i implies score_lt(
                    spec_score(next[i as int], preferred_channels),
                    spec_score(#[trigger] next[k], preferred_channels),
                ) by {
                    assert(next[k] == prev[k]);
                    if k < best {
                    } else if k > best {
                        assert(!score_lt(
                            spec_score(prev[k], preferred_channels),
                            spec_score(prev[best as int], preferred_channels),
                        ));
                    }
                }
            }
            best = i;
            best_score = score;
        } else {
            assert(is_best_config(next, preferred_channels, best as int)) by {
                assert forall|k: int| 0 <= k < best implies score_lt(
                    spec_score(next[best as int], preferred_channels),
                    spec_score(#[trigger] next[k], preferred_channels),
                ) by {
                    assert(next[k] == prev[k]);
                }
                assert forall|k: int| best < k < next.len() implies !score_lt(
                    spec_score(#[trigger] next[k], preferred_channels),
                    spec_score(next[best as int], preferred_channels),
                ) by {
                    if k < i {
                        assert(next[k] == prev[k]);
                    }
                }
            }
        }
        i += 1;
    }
    assert(configs@.subrange(0, i as int) =~= configs@);
    Some(best)
}

/// Picks the best stream configuration of a device for the direction, at the supported
/// sample rate closest to the target rate.
pub fn pick_best_stream_config(t: DeviceType, d: &AudioDeviceInfo) -> (r: Result<
    (StreamConfig, StreamConfigScore),
    AudioError,
>)
    ensures
        match spec_best_config(t, *d) {
            Some(p) => r == Ok::<(StreamConfig, StreamConfigScore), AudioError>(p),
            None => match spec_configs(t, *d) {
                Err(e) => r == Err::<(StreamConfig, StreamConfigScore), AudioError>(e),
                Ok(_) => r matches Err(AudioError::Other(m)) && m@ == no_config_message(),
            },
        },
{
    let (configs, pref): (&Result<Vec<StreamConfigRange>, AudioError>, u16) = match t {
        DeviceType::Input => (&d.input_configs, 1),
        DeviceType::Output => (&d.output_configs, 2),
    };
    let configs = match configs {
        Ok(v) => v,
        Err(e) => {
            return Err(e.duplicate());
        },
    };
    match best_config_index(configs, pref) {
        Some(i) => {
            proof {
                let j = choose|j: int| is_best_config(configs@, pref, j);
                lemma_best_config_unique(configs@, pref, i as int, j);
            }
            let range = &configs[i];
            let rate = closest_sample_rate(range.min_sample_rate, range.max_sample_rate);
            Ok((range.with_sample_rate(rate), score_stream_config_range(range, pref)))
        },
        None => Err(AudioError::Other(copy_text("No supported stream config found"))),
    }
}

} // verus!

verus! {

// ---------------------------------------------------------------------------------------------
// Device with stream configuration, and the fallback to the best-scoring device
// ---------------------------------------------------------------------------------------------

pub open spec fn best_score(t: DeviceType, d: AudioDeviceInfo) -> StreamConfigScore {
    match spec_best_config(t, d) {
        Some(p) => p.1,
        None => arbitrary(),
    }
}

pub open spec fn best_cfg(t: DeviceType, d: AudioDeviceInfo) -> StreamConfig {
    match spec_best_config(t, d) {
        Some(p) => p.0,
        None => arbitrary(),
    }
}

/// `i` is the first device whose picked configuration has the lowest score among the devices
/// for which a configuration can be picked.
pub open spec fn is_best_device(t: DeviceType, devs: Seq<AudioDeviceInfo>, i: int) -> bool {
    &&& 0 <= i < devs.len()
    &&& spec_best_config(t, devs[i]) is Some
    &&& forall|k: int|
        0 <= k < i && (#[trigger] spec_best_config(t, devs[k])) is Some ==> score_lt(
            best_score(t, devs[i]),
            best_score(t, devs[k]),
        )
    &&& forall|k: int|
        i < k < devs.len() && (#[trigger] spec_best_config(t, devs[k])) is Some ==> !score_lt(
            best_score(t, devs[k]),
            best_score(t, devs[i]),
        )
}

proof fn lemma_best_device_unique(t: DeviceType, devs: Seq<AudioDeviceInfo>, i: int, j: int)
    requires
        is_best_device(t, devs, i),
        is_best_device(t, devs, j),
    ensures
        i == j,
{
    if i < j {
        assert(spec_best_config(t, devs[i]) is Some);
    } else if j < i {
        assert(spec_best_config(t, devs[j]) is Some);
    }
}

/// The outcome of [`pick_device_with_stream_config`].
pub enum Picked {
    Picked(DeviceChoice, StreamConfig, bool),
    Failed(AudioError),
    NoDefaultDevice,
    NoConfigForAnyDevice,
}

pub open spec fn no_config_any_message() -> Seq<char> {
    "No supported stream config found for any device"@
}

/// The selected device with its best configuration; if that device has no usable
/// configuration, the best-scoring device of the host instead, flagged as a fallback.
pub open spec fn spec_pick_device(
    t: DeviceType,
    host: AudioHostInfo,
    pref_id: Option<Seq<char>>,
    pref_name: Option<Seq<char>>,
) -> Picked {
    match spec_select_device(t, host, pref_id, pref_name) {
        Selection::ListFailed(e) => Picked::Failed(e),
        Selection::NoDefaultDevice => Picked::NoDefaultDevice,
        Selection::Chosen(c, fb) => match spec_best_config(t, spec_chosen(t, host, c)) {
            Some(p) => Picked::Picked(c, p.0, fb),
            None => match spec_host_devices(t, host) {
                Err(e) => Picked::Failed(e),
                Ok(devs) => if exists|i: int| is_best_device(t, devs, i) {
                    let i = choose|i: int| is_best_device(t, devs, i);
                    Picked::Picked(
                        DeviceChoice::Listed(i as usize),
                        best_cfg(t, devs[i]),
                        true,
                    )
                } else {
                    Picked::NoConfigForAnyDevice
                },
            },
        },
    }
}

pub open spec fn picked_result(
    t: DeviceType,
    host: AudioHostInfo,
    p: Picked,
    r: Result<(DeviceChoice, StreamConfig, bool), AudioError>,
) -> bool {
    match p {
        Picked::Picked(c, cfg, fb) => r == Ok::<(DeviceChoice, StreamConfig, bool), AudioError>(
            (c, cfg, fb),
        ) && choice_valid(t, host, c),
        Picked::Failed(e) => r == Err::<(DeviceChoice, StreamConfig, bool), AudioError>(e),
        Picked::NoDefaultDevice => r matches Err(AudioError::Other(m)) && m@ == no_default_message(
            t,
        ),
        Picked::NoConfigForAnyDevice => r matches Err(AudioError::Other(m)) && m@
            == no_config_any_message(),
    }
}

/// The device a valid choice designates.
pub fn chosen<'a>(t: DeviceType, host: &'a AudioHostInfo, c: DeviceChoice) -> (r: &'a AudioDeviceInfo)
    requires
        choice_valid(t, *host, c),
    ensures
        *r == spec_chosen(t, *host, c),
{
    match c {
        DeviceChoice::ById(i) => &host.addressable_devices[i],
        DeviceChoice::Listed(i) => {
            let listed = match t {
                DeviceType::Input => &host.input_devices,
                DeviceType::Output => &host.output_devices,
            };
            match listed {
                Ok(v) => &v[i],
                Err(_) => {
                    assert(false);
                    &host.addressable_devices[0]
                },
            }
        },
        DeviceChoice::Default => {
            let d = match t {
                DeviceType::Input => &host.default_input_device,
                DeviceType::Output => &host.default_output_device,
            };
            match d {
                Some(x) => x,
                None => {
                    assert(false);
                    &host.addressable_devices[0]
                },
            }
        },
    }
}

/// Position of the best-scoring device of a list, with its configuration.
fn best_device_index(t: DeviceType, devs: &Vec<AudioDeviceInfo>) -> (r: Option<(usize, StreamConfig)>)
    ensures
        match r {
            Some((i, cfg)) => is_best_device(t, devs@, i as int) && cfg == best_cfg(t, devs@[i as int]),
            None => !exists|i: int| is_best_device(t, devs@, i),
        },
{
    let mut best: Option<(usize, StreamConfig, StreamConfigScore)> = None;
    let mut i: usize = 0;
    while i < devs.len()
        invariant
            i <= devs.len(),
            match best {
                Some((b, cfg, score)) => {
                    &&& is_best_device(t, devs@.subrange(0, i as int), b as int)
                    &&& spec_best_config(t, devs@[b as int]) == Some((cfg, score))
                },
                None => forall|k: int|
                    0 <= k < i ==> (#[trigger] spec_best_config(t, devs@[k])) is None,
            },
        decreases devs.len() - i,
    {
        let ghost prev = devs@.subrange(0, i as int);
        let ghost next = devs@.subrange(0, i + 1);
        assert(forall|k: int| 0 <= k < i ==> next[k] == prev[k] && prev[k] == devs@[k]);
        assert(next[i as int] == devs@[i as int]);
        match pick_best_stream_config(t, &devs[i]) {
            Ok((cfg, score)) => {
                let better = match best {
                    None => true,
                    Some((_, _, best_score)) => score.less_than(&best_score),
                };
                if better {
                    assert(is_best_device(t, next, i as int));
                    best = Some((i, cfg, score));
                } else {
                    let ghost b = match best { Some(x) => x.0, None => 0 };
                    assert(is_best_device(t, next, b as int)) by {
                        assert forall|k: int|
                            0 <= k < b && (#[trigger] spec_best_config(t, next[k])) is Some implies score_lt(
                            best_score(t, next[b as int]),
                            best_score(t, next[k]),
                        ) by {
                            assert(is_best_device(t, prev, b as int));
                        }
                        assert forall|k: int|
                            b < k < next.len() && (#[trigger] spec_best_config(t, next[k])) is Some implies !score_lt(
                            best_score(t, next[k]),
                            best_score(t, next[b as int]),
                        ) by {
                            assert(is_best_device(t, prev, b as int));
                        }
                    }
                }
            },
            Err(_) => {
                match best {
                    Some((b, _, _)) => {
                        assert(is_best_device(t, next, b as int)) by {
                            assert(is_best_device(t, prev, b as int));
                        }
                    },
                    None => {},
                }
            },
        }
        i += 1;
    }
    assert(devs@.subrange(0, i as int) =~= devs@);
    match best {
        Some((b, cfg, _)) => Some((b, cfg)),
        None => {
            assert forall|j: int| !is_best_device(t, devs@, j) by {
                if 0 <= j < devs@.len() {
                    assert(spec_best_config(t, devs@[j]) is None);
                }
            }
            None
        },
    }
}

/// Selects a device and its stream configuration; falls back to the best-scoring device of
/// the host when the selected device offers no usable configuration.
pub fn pick_device_with_stream_config(
    t: DeviceType,
    host: &AudioHostInfo,
    preferred_device_id: Option<&str>,
    preferred_device_name: Option<&str>,
) -> (r: Result<(DeviceChoice, StreamConfig, bool), AudioError>)
    ensures
        picked_result(
            t,
            *host,
            spec_pick_device(t, *host, text_opt(preferred_device_id), text_opt(preferred_device_name)),
            r,
        ),
{
    let (choice, is_fallback) = match select_device(
        t,
        host,
        preferred_device_id,
        preferred_device_name,
    ) {
        Ok(x) => x,
        Err(e) => {
            return Err(e);
        },
    };
    let device = chosen(t, host, choice);
    match pick_best_stream_config(t, device) {
        Ok((config, _)) => Ok((choice, config, is_fallback)),
        Err(_) => {
            let devs = match host_devices(t, host) {
                Ok(v) => v,
                Err(e) => {
                    return Err(e);
                },
            };
            match best_device_index(t, devs) {
                Some((i, config)) => {
                    proof {
                        let j = choose|j: int| is_best_device(t, devs@, j);
                        lemma_best_device_unique(t, devs@, i as int, j);
                    }
                    Ok((DeviceChoice::Listed(i), config, true))
                },
                None => Err(
                    AudioError::Other(copy_text("No supported stream config found for any device")),
                ),
            }
        },
    }
}

} // verus!

verus! {

// ---------------------------------------------------------------------------------------------
// Hosts and the backend-level operations
// ---------------------------------------------------------------------------------------------

pub open spec fn host_exact_pred(name: Seq<char>) -> spec_fn(AudioHostInfo) -> bool {
    |h: AudioHostInfo| eq_ignore_case(h.name@, name)
}

pub open spec fn host_substring_pred(name: Seq<char>) -> spec_fn(AudioHostInfo) -> bool {
    |h: AudioHostInfo| contains_text(lowercase(h.name@), lowercase(name))
}

/// Which host of a backend a selection refers to.
#[derive(Debug, Clone, Copy, PartialEq, Eq, Structural)]
pub enum HostChoice {
    Listed(usize),
    Default,
}

/// The preferred host by exact (ASCII case-insensitive) name, then by name substring;
/// otherwise the default host.
pub open spec fn spec_select_host(b: AudioBackendInfo, pref: Option<Seq<char>>) -> HostChoice {
    match pref {
        Some(name) => if first_of(b.hosts@, host_exact_pred(name)) is Some {
            HostChoice::Listed(first_index(b.hosts@, host_exact_pred(name)) as usize)
        } else if first_of(b.hosts@, host_substring_pred(name)) is Some {
            HostChoice::Listed(first_index(b.hosts@, host_substring_pred(name)) as usize)
        } else {
            HostChoice::Default
        },
        None => HostChoice::Default,
    }
}

pub open spec fn spec_host(b: AudioBackendInfo, c: HostChoice) -> AudioHostInfo {
    match c {
        HostChoice::Listed(i) => b.hosts@[i as int],
        HostChoice::Default => b.default_host,
    }
}

pub open spec fn host_choice_valid(b: AudioBackendInfo, c: HostChoice) -> bool {
    match c {
        HostChoice::Listed(i) => i < b.hosts.len(),
        HostChoice::Default => true,
    }
}

pub fn select_host(b: &AudioBackendInfo, preferred_host: Option<&str>) -> (r: HostChoice)
    ensures
        r == spec_select_host(*b, text_opt(preferred_host)),
        host_choice_valid(*b, r),
{
    if let Some(name) = preferred_host {
        let mut i: usize = 0;
        while i < b.hosts.len()
            invariant
                i <= b.hosts.len(),
                preferred_host == Some(name),
                forall|k: int| 0 <= k < i ==> !host_exact_pred(name@)(#[trigger] b.hosts@[k]),
            decreases b.hosts.len() - i,
        {
            if eq_ignore_ascii_case(b.hosts[i].name.as_str(), name) {
                proof {
                    lemma_first_of_found(b.hosts@, host_exact_pred(name@), i as int);
                    crate::seqs::lemma_first_unique(
                        b.hosts@,
                        host_exact_pred(name@),
                        i as int,
                        first_index(b.hosts@, host_exact_pred(name@)),
                    );
                }
                return HostChoice::Listed(i);
            }
            i += 1;
        }
        proof {
            lemma_first_of_none(b.hosts@, host_exact_pred(name@));
        }
        let mut i: usize = 0;
        while i < b.hosts.len()
            invariant
                i <= b.hosts.len(),
                preferred_host == Some(name),
                first_of(b.hosts@, host_exact_pred(name@)) is None,
                forall|k: int| 0 <= k < i ==> !host_substring_pred(name@)(#[trigger] b.hosts@[k]),
            decreases b.hosts.len() - i,
        {
            if contains_ignore_case(b.hosts[i].name.as_str(), name) {
                proof {
                    lemma_first_of_found(b.hosts@, host_substring_pred(name@), i as int);
                    crate::seqs::lemma_first_unique(
                        b.hosts@,
                        host_substring_pred(name@),
                        i as int,
                        first_index(b.hosts@, host_substring_pred(name@)),
                    );
                }
                return HostChoice::Listed(i);
            }
            i += 1;
        }
        proof {
            lemma_first_of_none(b.hosts@, host_substring_pred(name@));
        }
    }
    HostChoice::Default
}

/// The host a valid choice designates.
pub fn host_of<'a>(b: &'a AudioBackendInfo, c: HostChoice) -> (r: &'a AudioHostInfo)
    requires
        host_choice_valid(*b, c),
    ensures
        *r == spec_host(*b, c),
{
    match c {
        HostChoice::Listed(i) => &b.hosts[i],
        HostChoice::Default => &b.default_host,
    }
}

/// Whether a device listed for a direction really supports it. A clear direction in the
/// description decides; duplex or unknown output devices are trusted; ambiguous input devices
/// (and devices without a description) are probed for a non-empty input configuration list.
pub open spec fn spec_has_supported_configs(t: DeviceType, d: AudioDeviceInfo) -> bool {
    let probe = d.input_configs matches Ok(v) && v.len() > 0;
    match d.description {
        Ok(desc) => match (t, desc.direction) {
            (DeviceType::Input, DeviceDirection::Output) => false,
            (DeviceType::Output, DeviceDirection::Input) => false,
            (DeviceType::Input, DeviceDirection::Input) => true,
            (DeviceType::Output, _) => true,
            (DeviceType::Input, _) => probe,
        },
        Err(_) => probe,
    }
}

pub fn has_supported_configs(t: DeviceType, d: &AudioDeviceInfo) -> (r: bool)
    ensures
        r == spec_has_supported_configs(t, *d),
        (d.description matches Ok(desc) && desc.direction != DeviceDirection::Input && t
            == DeviceType::Output) ==> r,
        (d.description matches Ok(desc) && desc.direction == DeviceDirection::Input) ==> (r
            <==> t == DeviceType::Input),
        (d.description matches Ok(desc) && desc.direction == DeviceDirection::Output) ==> (r
            <==> t == DeviceType::Output),
        (t == DeviceType::Input && !(d.description matches Ok(desc) && (desc.direction
            == DeviceDirection::Input || desc.direction == DeviceDirection::Output))) ==> (r <==> (
        d.input_configs matches Ok(v) && v.len() > 0)),
{
    if let Ok(desc) = &d.description {
        match (t, desc.direction) {
            (DeviceType::Input, DeviceDirection::Output) | (
                DeviceType::Output,
                DeviceDirection::Input,
            ) => {
                return false;
            },
            (DeviceType::Input, DeviceDirection::Input) | (
                DeviceType::Output,
                DeviceDirection::Output,
            ) => {
                return true;
            },
            (DeviceType::Output, _) => {
                return true;
            },
            (DeviceType::Input, _) => {},
        }
    }
    match &d.input_configs {
        Ok(v) => v.len() > 0,
        Err(_) => false,
    }
}

pub open spec fn listed_name(t: DeviceType, d: AudioDeviceInfo) -> bool {
    d.name@.len() > 0 && spec_has_supported_configs(t, d)
}

/// Names of the devices with a non-empty name that support the direction, in list order.
pub open spec fn listed_names(t: DeviceType, devs: Seq<AudioDeviceInfo>) -> Seq<Seq<char>>
    decreases devs.len(),
{
    if devs.len() == 0 {
        seq![]
    } else {
        let rest = listed_names(t, devs.drop_last());
        if listed_name(t, devs.last()) {
            rest.push(devs.last().name@)
        } else {
            rest
        }
    }
}

pub open spec fn texts(v: Seq<String>) -> Seq<Seq<char>> {
    v.map_values(|s: String| s@)
}

pub open spec fn opt_text_of(o: Option<String>) -> Option<Seq<char>> {
    match o {
        Some(s) => Some(s@),
        None => None,
    }
}

fn copy_opt_text(o: &Option<String>) -> (r: Option<String>)
    ensures
        opt_text_of(r) == opt_text_of(*o),
{
    match o {
        Some(s) => Some(s.clone()),
        None => None,
    }
}

/// Names of a host's devices for the direction that have a name and support the direction.
pub fn device_names(t: DeviceType, host: &AudioHostInfo) -> (r: Result<Vec<String>, AudioError>)
    ensures
        match spec_host_devices(t, *host) {
            Ok(devs) => r matches Ok(v) && texts(v@) == listed_names(t, devs),
            Err(e) => r == Err::<Vec<String>, AudioError>(e),
        },
{
    let devs = match host_devices(t, host) {
        Ok(v) => v,
        Err(e) => {
            return Err(e);
        },
    };
    let mut names: Vec<String> = Vec::new();
    let mut i: usize = 0;
    while i < devs.len()
        invariant
            i <= devs.len(),
            texts(names@) == listed_names(t, devs@.take(i as int)),
        decreases devs.len() - i,
    {
        assert(devs@.take(i + 1).drop_last() =~= devs@.take(i as int));
        let d = &devs[i];
        if d.name.unicode_len() > 0 && has_supported_configs(t, d) {
            names.push(d.name.clone());
            assert(texts(names@) =~= texts(names@.drop_last()).push(d.name@));
        }
        i += 1;
    }
    assert(devs@.take(i as int) =~= devs@);
    Ok(names)
}

/// The stable ID of the first device of the host, for the direction, that is known by
/// `device_name` (ASCII case-insensitively); `None` when the devices cannot be listed, no
/// device matches, or the matching device has no ID.
pub open spec fn spec_resolve_device_id(
    t: DeviceType,
    host: AudioHostInfo,
    device_name: Seq<char>,
) -> Option<Seq<char>> {
    match spec_host_devices(t, host) {
        Ok(devs) => match first_of(devs, exact_pred(device_name)) {
            Some(d) => opt_text_of(d.id),
            None => None,
        },
        Err(_) => None,
    }
}

pub fn resolve_device_id_in(t: DeviceType, host: &AudioHostInfo, device_name: &str) -> (r: Option<
    String,
>)
    ensures
        opt_text_of(r) == spec_resolve_device_id(t, *host, device_name@),
{
    let devs = match host_devices(t, host) {
        Ok(v) => v,
        Err(_) => {
            return None;
        },
    };
    match find_exact(devs, device_name) {
        Some(i) => {
            proof {
                lemma_first_of_found(devs@, exact_pred(device_name@), i as int);
            }
            copy_opt_text(&devs[i].id)
        },
        None => None,
    }
}

} // verus!

verus! {

pub open spec fn open_result(
    t: DeviceType,
    host: AudioHostInfo,
    p: Picked,
    r: Result<(StreamDevice, bool), AudioError>,
) -> bool {
    match p {
        Picked::Picked(c, cfg, fb) => r matches Ok((sd, rfb)) && sd.device == spec_chosen(t, host, c)
            && sd.config == cfg && sd.device_type == t && rfb == fb,
        Picked::Failed(e) => r matches Err(x) && x == e,
        Picked::NoDefaultDevice => r matches Err(AudioError::Other(m)) && m@ == no_default_message(
            t,
        ),
        Picked::NoConfigForAnyDevice => r matches Err(AudioError::Other(m)) && m@
            == no_config_any_message(),
    }
}

/// Takes the device a valid choice designates out of its host.
fn take_chosen(t: DeviceType, host: AudioHostInfo, c: DeviceChoice) -> (r: AudioDeviceInfo)
    requires
        choice_valid(t, host, c),
    ensures
        r == spec_chosen(t, host, c),
{
    let ghost h = host;
    match c {
        DeviceChoice::ById(i) => {
            let mut v = host.addressable_devices;
            v.remove(i)
        },
        DeviceChoice::Listed(i) => {
            let listed = match t {
                DeviceType::Input => host.input_devices,
                DeviceType::Output => host.output_devices,
            };
            match listed {
                Ok(mut v) => v.remove(i),
                Err(e) => {
                    proof {
                        assert(spec_host_devices(t, h) is Err);
                    }
                    let mut v = host.addressable_devices;
                    v.remove(i)
                },
            }
        },
        DeviceChoice::Default => {
            let d = match t {
                DeviceType::Input => host.default_input_device,
                DeviceType::Output => host.default_output_device,
            };
            match d {
                Some(x) => x,
                None => {
                    proof {
                        assert(false);
                    }
                    let mut v = host.addressable_devices;
                    v.remove(0)
                },
            }
        },
    }
}

impl AudioBackendInfo {
    /// Opens a device for streaming: selects the host, then the device and its configuration.
    /// The flag tells whether a fallback device was used instead of the preferred one.
    pub fn open(
        self,
        t: DeviceType,
        preferred_host: Option<&str>,
        preferred_device_id: Option<&str>,
        preferred_device_name: Option<&str>,
    ) -> (r: Result<(StreamDevice, bool), AudioError>)
        ensures
            open_result(
                t,
                spec_host(self, spec_select_host(self, text_opt(preferred_host))),
                spec_pick_device(
                    t,
                    spec_host(self, spec_select_host(self, text_opt(preferred_host))),
                    text_opt(preferred_device_id),
                    text_opt(preferred_device_name),
                ),
                r,
            ),
    {
        let hc = select_host(&self, preferred_host);
        let picked = pick_device_with_stream_config(
            t,
            host_of(&self, hc),
            preferred_device_id,
            preferred_device_name,
        );
        match picked {
            Ok((choice, config, is_fallback)) => {
                let host = match hc {
                    HostChoice::Listed(i) => {
                        let mut hosts = self.hosts;
                        hosts.remove(i)
                    },
                    HostChoice::Default => self.default_host,
                };
                let device = take_chosen(t, host, choice);
                Ok((StreamDevice { device_type: t, device, config }, is_fallback))
            },
            Err(e) => Err(e),
        }
    }

    /// Names of all hosts, in backend order.
    pub fn all_host_names(&self) -> (r: Vec<String>)
        ensures
            texts(r@) == self.hosts@.map_values(|h: AudioHostInfo| h.name@),
    {
        let mut names: Vec<String> = Vec::new();
        let mut i: usize = 0;
        while i < self.hosts.len()
            invariant
                i <= self.hosts.len(),
                texts(names@) == self.hosts@.take(i as int).map_values(|h: AudioHostInfo| h.name@),
            decreases self.hosts.len() - i,
        {
            let ghost before = names@;
            names.push(self.hosts[i].name.clone());
            assert(texts(names@) =~= texts(before).push(self.hosts@[i as int].name@));
            assert(self.hosts@.take(i + 1) =~= self.hosts@.take(i as int).push(
                self.hosts@[i as int],
            ));
            assert(texts(names@) =~= self.hosts@.take(i + 1).map_values(
                |h: AudioHostInfo| h.name@,
            ));
            i += 1;
        }
        assert(self.hosts@.take(i as int) =~= self.hosts@);
        names
    }

    pub fn default_host_name(&self) -> (r: String)
        ensures
            r@ == self.default_host.name@,
    {
        self.default_host.name.clone()
    }

    /// Names of the selected host's devices for the direction that have a name and actually
    /// support the direction.
    pub fn all_device_names(&self, t: DeviceType, preferred_host: Option<&str>) -> (r: Result<
        Vec<String>,
        AudioError,
    >)
        ensures
            match spec_host_devices(t, spec_host(*self, spec_select_host(*self, text_opt(preferred_host)))) {
                Ok(devs) => r matches Ok(v) && texts(v@) == listed_names(t, devs),
                Err(e) => r == Err::<Vec<String>, AudioError>(e),
            },
    {
        let hc = select_host(self, preferred_host);
        device_names(t, host_of(self, hc))
    }

    /// Name of the device that would be selected with the given preferences.
    pub fn picked_device_name(
        &self,
        t: DeviceType,
        preferred_host: Option<&str>,
        preferred_device_id: Option<&str>,
        preferred_device_name: Option<&str>,
    ) -> (r: Result<String, AudioError>)
        ensures
            ({
                let host = spec_host(*self, spec_select_host(*self, text_opt(preferred_host)));
                match spec_select_device(
                    t,
                    host,
                    text_opt(preferred_device_id),
                    text_opt(preferred_device_name),
                ) {
                    Selection::Chosen(c, _) => r matches Ok(n) && n@ == spec_chosen(t, host, c).name@,
                    Selection::ListFailed(e) => r == Err::<String, AudioError>(e),
                    Selection::NoDefaultDevice => r matches Err(AudioError::Other(m)) && m@
                        == no_default_message(t),
                }
            }),
    {
        let hc = select_host(self, preferred_host);
        let host = host_of(self, hc);
        match select_device(t, host, preferred_device_id, preferred_device_name) {
            Ok((c, _)) => Ok(chosen(t, host, c).name.clone()),
            Err(e) => Err(e),
        }
    }

    /// Name of the default device of the selected host for the direction.
    pub fn default_device_name(&self, t: DeviceType, preferred_host: Option<&str>) -> (r: Result<
        String,
        AudioError,
    >)
        ensures
            ({
                let host = spec_host(*self, spec_select_host(*self, text_opt(preferred_host)));
                match spec_default_device(t, host) {
                    Some(d) => r matches Ok(n) && n@ == d.name@,
                    None => r matches Err(AudioError::Other(m)) && m@ == no_default_message(t),
                }
            }),
    {
        self.picked_device_name(t, preferred_host, None, None)
    }

    /// Stable ID of the device of the selected host known by `device_name`.
    pub fn resolve_device_id(
        &self,
        t: DeviceType,
        preferred_host: Option<&str>,
        device_name: &str,
    ) -> (r: Option<String>)
        ensures
            opt_text_of(r) == spec_resolve_device_id(
                t,
                spec_host(*self, spec_select_host(*self, text_opt(preferred_host))),
                device_name@,
            ),
    {
        let hc = select_host(self, preferred_host);
        resolve_device_id_in(t, host_of(self, hc), device_name)
    }
}

} // verus!

verus! {

// ---------------------------------------------------------------------------------------------
// Laws of device and configuration selection
// ---------------------------------------------------------------------------------------------

/// Law: how a device is selected. A device with the preferred stable ID wins (the first such
/// ID-addressable device); otherwise, with a preferred name, the first listed device with an
/// identifier equal to it ignoring ASCII case, then the first whose lowercased identifier
/// contains it lowercased; a failed listing fails the selection. Failing all that, the default
/// device is taken, flagged as a fallback when a preference was given; without a default device
/// the selection fails.
pub proof fn lemma_selection_priority(
    t: DeviceType,
    host: AudioHostInfo,
    pref_id: Option<Seq<char>>,
    pref_name: Option<Seq<char>>,
)
    ensures
        ({
            let sel = spec_select_device(t, host, pref_id, pref_name);
            let addr = host.addressable_devices@;
            let by_id = pref_id matches Some(id) && exists|i: int| is_first(addr, id_pred(id), i);
            &&& by_id ==> exists|i: int|
                is_first(addr, id_pred(pref_id->0), i) && sel == Selection::Chosen(
                    DeviceChoice::ById(i as usize),
                    false,
                )
            &&& !by_id && pref_name is Some ==> match spec_host_devices(t, host) {
                Err(e) => sel == Selection::ListFailed(e),
                Ok(devs) => {
                    let name = pref_name->0;
                    if exists|i: int| is_first(devs, exact_pred(name), i) {
                        exists|i: int|
                            is_first(devs, exact_pred(name), i) && sel == Selection::Chosen(
                                DeviceChoice::Listed(i as usize),
                                false,
                            )
                    } else if exists|i: int| is_first(devs, substring_pred(name), i) {
                        exists|i: int|
                            is_first(devs, substring_pred(name), i) && sel == Selection::Chosen(
                                DeviceChoice::Listed(i as usize),
                                false,
                            )
                    } else {
                        sel == default_selection(t, host, true)
                    }
                },
            }
            &&& !by_id && pref_name is None ==> sel == default_selection(t, host, pref_id is Some)
            &&& default_selection(t, host, true) == (if spec_default_device(t, host) is Some {
                Selection::Chosen(DeviceChoice::Default, true)
            } else {
                Selection::NoDefaultDevice
            })
        }),
{
    let addr = host.addressable_devices@;
    if let Some(id) = pref_id {
        if exists|i: int| is_first(addr, id_pred(id), i) {
            let i = first_index(addr, id_pred(id));
            assert(is_first(addr, id_pred(id), i));
        }
    }
    if let Some(name) = pref_name {
        if let Ok(devs) = spec_host_devices(t, host) {
            if exists|i: int| is_first(devs, exact_pred(name), i) {
                let i = first_index(devs, exact_pred(name));
                assert(is_first(devs, exact_pred(name), i));
            } else if exists|i: int| is_first(devs, substring_pred(name), i) {
                let i = first_index(devs, substring_pred(name));
                assert(is_first(devs, substring_pred(name), i));
            }
        }
    }
}

/// A non-empty list of configurations has a first configuration with the lowest score.
proof fn lemma_best_config_exists(s: Seq<StreamConfigRange>, pref: u16)
    requires
        s.len() > 0,
    ensures
        exists|i: int| is_best_config(s, pref, i),
    decreases s.len(),
{
    if s.len() == 1 {
        assert(is_best_config(s, pref, 0));
    } else {
        let prev = s.drop_last();
        lemma_best_config_exists(prev, pref);
        let b = choose|i: int| is_best_config(prev, pref, i);
        let n = s.len() - 1;
        if score_lt(spec_score(s[n], pref), spec_score(s[b], pref)) {
            assert forall|k: int| 0 <= k < n implies score_lt(
                spec_score(s[n], pref),
                spec_score(#[trigger] s[k], pref),
            ) by {
                assert(s[k] == prev[k]);
                if k > b {
                    assert(!score_lt(spec_score(prev[k], pref), spec_score(prev[b], pref)));
                }
            }
            assert(is_best_config(s, pref, n));
        } else {
            assert forall|k: int| 0 <= k < b implies score_lt(
                spec_score(s[b], pref),
                spec_score(#[trigger] s[k], pref),
            ) by {
                assert(s[k] == prev[k]);
            }
            assert forall|k: int| b < k < s.len() implies !score_lt(
                spec_score(#[trigger] s[k], pref),
                spec_score(s[b], pref),
            ) by {
                if k < n {
                    assert(s[k] == prev[k]);
                }
            }
            assert(is_best_config(s, pref, b));
        }
    }
}

/// Law: the configuration picked for a device is taken from the first of its configuration
/// ranges with the lowest score (sample-rate distance, then channel distance, then format), at
/// the supported rate closest to the target rate. Nothing is picked when the ranges cannot be
/// listed or there are none.
pub proof fn lemma_best_config_is_first_lowest(t: DeviceType, d: AudioDeviceInfo)
    ensures
        match spec_configs(t, d) {
            Err(_) => spec_best_config(t, d) is None,
            Ok(s) => if s.len() == 0 {
                spec_best_config(t, d) is None
            } else {
                exists|i: int|
                    is_best_config(s, preferred_channels(t), i) && spec_best_config(t, d) == Some(
                        (
                            s[i].spec_at_rate(
                                spec_closest_sample_rate(s[i].min_sample_rate, s[i].max_sample_rate),
                            ),
                            spec_score(s[i], preferred_channels(t)),
                        ),
                    )
            },
        },
{
    if let Ok(s) = spec_configs(t, d) {
        if s.len() > 0 {
            lemma_best_config_exists(s, preferred_channels(t));
        }
    }
}

/// Among devices some of which have a usable configuration, there is a first one whose
/// configuration scores lowest.
proof fn lemma_best_device_exists(t: DeviceType, devs: Seq<AudioDeviceInfo>)
    requires
        exists|k: int| 0 <= k < devs.len() && (#[trigger] spec_best_config(t, devs[k])) is Some,
    ensures
        exists|i: int| is_best_device(t, devs, i),
    decreases devs.len(),
{
    let n = devs.len() - 1;
    let prev = devs.drop_last();
    if exists|k: int| 0 <= k < prev.len() && (#[trigger] spec_best_config(t, prev[k])) is Some {
        lemma_best_device_exists(t, prev);
        let b = choose|i: int| is_best_device(t, prev, i);
        assert(prev[b] == devs[b]);
        if spec_best_config(t, devs[n]) is Some && score_lt(
            best_score(t, devs[n]),
            best_score(t, devs[b]),
        ) {
            assert forall|k: int|
                0 <= k < n && (#[trigger] spec_best_config(t, devs[k])) is Some implies score_lt(
                best_score(t, devs[n]),
                best_score(t, devs[k]),
            ) by {
                assert(devs[k] == prev[k]);
                if k > b {
                    assert(spec_best_config(t, prev[k]) is Some);
                    assert(!score_lt(best_score(t, prev[k]), best_score(t, prev[b])));
                }
            }
            assert(is_best_device(t, devs, n));
        } else {
            assert forall|k: int|
                0 <= k < b && (#[trigger] spec_best_config(t, devs[k])) is Some implies score_lt(
                best_score(t, devs[b]),
                best_score(t, devs[k]),
            ) by {
                assert(devs[k] == prev[k]);
                assert(spec_best_config(t, prev[k]) is Some);
            }
            assert forall|k: int|
                b < k < devs.len() && (#[trigger] spec_best_config(t, devs[k])) is Some implies !score_lt(
                best_score(t, devs[k]),
                best_score(t, devs[b]),
            ) by {
                if k < n {
                    assert(devs[k] == prev[k]);
                    assert(spec_best_config(t, prev[k]) is Some);
                }
            }
            assert(is_best_device(t, devs, b));
        }
    } else {
        let k = choose|k: int| 0 <= k < devs.len() && (#[trigger] spec_best_config(t, devs[k])) is Some;
        if k < n {
            assert(prev[k] == devs[k]);
            assert(false);
        }
        assert forall|j: int| 0 <= j < n && (#[trigger] spec_best_config(t, devs[j])) is Some implies false by {
            assert(prev[j] == devs[j]);
        }
        assert(is_best_device(t, devs, n));
    }
}

/// Law: the selected device is opened with its best configuration. When it has none, the
/// first device of the host whose best configuration scores lowest is opened instead, flagged
/// as a fallback; when no device has one, or the devices cannot be listed, opening fails.
pub proof fn lemma_device_fallback(
    t: DeviceType,
    host: AudioHostInfo,
    pref_id: Option<Seq<char>>,
    pref_name: Option<Seq<char>>,
)
    ensures
        ({
            let p = spec_pick_device(t, host, pref_id, pref_name);
            match spec_select_device(t, host, pref_id, pref_name) {
                Selection::Chosen(c, fb) => match spec_best_config(t, spec_chosen(t, host, c)) {
                    Some(best) => p == Picked::Picked(c, best.0, fb),
                    None => match spec_host_devices(t, host) {
                        Err(e) => p == Picked::Failed(e),
                        Ok(devs) => if exists|k: int|
                            0 <= k < devs.len() && (#[trigger] spec_best_config(t, devs[k])) is Some {
                            exists|i: int|
                                is_best_device(t, devs, i) && p == Picked::Picked(
                                    DeviceChoice::Listed(i as usize),
                                    best_cfg(t, devs[i]),
                                    true,
                                )
                        } else {
                            p == Picked::NoConfigForAnyDevice
                        },
                    },
                },
                Selection::ListFailed(e) => p == Picked::Failed(e),
                Selection::NoDefaultDevice => p == Picked::NoDefaultDevice,
            }
        }),
{
    if let Selection::Chosen(c, fb) = spec_select_device(t, host, pref_id, pref_name) {
        if spec_best_config(t, spec_chosen(t, host, c)) is None {
            if let Ok(devs) = spec_host_devices(t, host) {
                if exists|k: int| 0 <= k < devs.len() && (#[trigger] spec_best_config(t, devs[k])) is Some {
                    lemma_best_device_exists(t, devs);
                    let i = choose|i: int| is_best_device(t, devs, i);
                    assert(is_best_device(t, devs, i));
                } else {
                    assert forall|i: int| !is_best_device(t, devs, i) by {
                        if is_best_device(t, devs, i) {
                            assert(spec_best_config(t, devs[i]) is Some);
                        }
                    }
                }
            }
        }
    }
}

/// Law: the rate picked for a supported range is the rate of the range nearest the target
/// rate: it lies in the range, no rate of the range is nearer the target, and its distance
/// from the target is the range's sample-rate distance.
pub proof fn lemma_closest_rate_is_nearest(min: u32, max: u32)
    requires
        min <= max,
    ensures
        min <= spec_closest_sample_rate(min, max) <= max,
        forall|x: int|
            min <= x <= max ==> gap_to_target(spec_closest_sample_rate(min, max) as int)
                <= #[trigger] gap_to_target(x),
        gap_to_target(spec_closest_sample_rate(min, max) as int) == spec_sample_rate_distance(
            min,
            max,
        ),
{
}

/// Law: an output device is trusted unless its description clearly says it is input-only:
/// an output, duplex or unknown direction makes it supported, whatever probing would say; an
/// input-only description excludes it. A clear direction decides for input devices too.
pub proof fn lemma_output_devices_trust_description(d: AudioDeviceInfo)
    ensures
        (d.description matches Ok(desc) && desc.direction != DeviceDirection::Input)
            ==> spec_has_supported_configs(DeviceType::Output, d),
        (d.description matches Ok(desc) && desc.direction == DeviceDirection::Input) ==> (
        !spec_has_supported_configs(DeviceType::Output, d) && spec_has_supported_configs(
            DeviceType::Input,
            d,
        )),
        (d.description matches Ok(desc) && desc.direction == DeviceDirection::Output)
            ==> !spec_has_supported_configs(DeviceType::Input, d),
{
}

/// Law: an input device whose description is missing or names no clear direction (duplex or
/// unknown) is supported exactly when it reports a non-empty list of input configurations.
pub proof fn lemma_ambiguous_input_is_probed(d: AudioDeviceInfo)
    requires
        !(d.description matches Ok(desc) && (desc.direction == DeviceDirection::Input
            || desc.direction == DeviceDirection::Output)),
    ensures
        spec_has_supported_configs(DeviceType::Input, d) <==> (d.input_configs matches Ok(v)
            && v.len() > 0),
{
}

/// Law: every output device with a name whose description does not say input-only is in the
/// host's list of output device names.
pub proof fn lemma_output_listing_keeps_trusted(devs: Seq<AudioDeviceInfo>, i: int)
    requires
        0 <= i < devs.len(),
        devs[i].name@.len() > 0,
        devs[i].description matches Ok(desc) && desc.direction != DeviceDirection::Input,
    ensures
        listed_names(DeviceType::Output, devs).contains(devs[i].name@),
    decreases devs.len(),
{
    let rest = listed_names(DeviceType::Output, devs.drop_last());
    if i == devs.len() - 1 {
        lemma_output_devices_trust_description(devs[i]);
        assert(listed_name(DeviceType::Output, devs.last()));
        assert(rest.push(devs.last().name@)[rest.len() as int] == devs[i].name@);
    } else {
        assert(devs.drop_last()[i] == devs[i]);
        lemma_output_listing_keeps_trusted(devs.drop_last(), i);
        let j = choose|j: int| 0 <= j < rest.len() && rest[j] == devs[i].name@;
        if listed_name(DeviceType::Output, devs.last()) {
            assert(rest.push(devs.last().name@)[j] == devs[i].name@);
        }
    }
}

} // verus!
