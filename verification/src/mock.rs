//! A mock audio backend with fake devices, for running without audio hardware.
//!
//! Note that the client opens an output stream at startup: a configuration without output
//! devices makes application startup fail with "No default output device".

use vstd::prelude::*;
use crate::backend::{
    AudioError, DeviceDescription, DeviceDirection, SampleFormat, StreamConfig,
    StreamConfigRange,
};
use crate::device::{AudioBackendInfo, AudioDeviceInfo, AudioHostInfo, DeviceType, StreamDevice};
use crate::text::copy_text;

verus! {

/// Interval at which mock streams deliver a buffer, in milliseconds.
pub const MOCK_TICK_MS: u64 = 20;

/// Configuration for a single mock device.
pub struct MockDeviceConfig {
    pub name: String,
    pub id: String,
    pub min_sample_rate: u32,
    pub max_sample_rate: u32,
    pub channels: u16,
}

/// Configuration for the mock backend: one host with the given devices.
pub struct MockBackendConfig {
    pub host_name: String,
    pub input_devices: Vec<MockDeviceConfig>,
    pub output_devices: Vec<MockDeviceConfig>,
}

impl Default for MockBackendConfig {
    fn default() -> (r: Self)
        ensures
            r.host_name@ == "MockHost"@,
            r.input_devices.len() == 1,
            r.input_devices@[0].name@ == "Mock Microphone"@,
            r.input_devices@[0].id@ == "mock-input-0"@,
            r.input_devices@[0].min_sample_rate == 48000,
            r.input_devices@[0].max_sample_rate == 48000,
            r.input_devices@[0].channels == 1,
            r.output_devices.len() == 1,
            r.output_devices@[0].name@ == "Mock Speaker"@,
            r.output_devices@[0].id@ == "mock-output-0"@,
            r.output_devices@[0].min_sample_rate == 48000,
            r.output_devices@[0].max_sample_rate == 48000,
            r.output_devices@[0].channels == 2,
    {
        let mut input_devices = Vec::new();
        input_devices.push(
            MockDeviceConfig {
                name: copy_text("Mock Microphone"),
                id: copy_text("mock-input-0"),
                min_sample_rate: 48000,
                max_sample_rate: 48000,
                channels: 1,
            },
        );
        let mut output_devices = Vec::new();
        output_devices.push(
            MockDeviceConfig {
                name: copy_text("Mock Speaker"),
                id: copy_text("mock-output-0"),
                min_sample_rate: 48000,
                max_sample_rate: 48000,
                channels: 2,
            },
        );
        MockBackendConfig { host_name: copy_text("MockHost"), input_devices, output_devices }
    }
}

/// A mock audio backend that provides fake devices producing silence.
pub struct MockBackend {
    pub config: MockBackendConfig,
}

/// One fake device.
pub struct MockDevice {
    pub name: String,
    pub id: String,
    pub min_sample_rate: u32,
    pub max_sample_rate: u32,
    pub channels: u16,
    pub direction: DeviceDirection,
}

pub open spec fn mock_range(c: MockDeviceConfig) -> StreamConfigRange {
    StreamConfigRange {
        channels: c.channels,
        min_sample_rate: c.min_sample_rate,
        max_sample_rate: c.max_sample_rate,
        sample_format: SampleFormat::F32,
    }
}

/// What the selection logic sees of a mock device built from `c` for direction `dir`.
pub open spec fn is_mock_device(d: AudioDeviceInfo, c: MockDeviceConfig, dir: DeviceDirection) -> bool {
    &&& d.name@ == c.name@
    &&& d.id matches Some(x) && x@ == c.id@
    &&& d.description matches Ok(desc) && desc.name@ == c.name@ && desc.driver is None
        && desc.direction == dir
    &&& d.identifiers.len() == 2
    &&& d.identifiers@[0]@ == c.name@
    &&& d.identifiers@[1]@ == c.id@
    &&& d.input_configs matches Ok(v) && (if dir == DeviceDirection::Input {
        v@ == seq![mock_range(c)]
    } else {
        v@.len() == 0
    })
    &&& d.output_configs matches Ok(v) && (if dir == DeviceDirection::Output {
        v@ == seq![mock_range(c)]
    } else {
        v@.len() == 0
    })
}

pub open spec fn is_mock_list(
    devs: Seq<AudioDeviceInfo>,
    cfgs: Seq<MockDeviceConfig>,
    dir: DeviceDirection,
) -> bool {
    &&& devs.len() == cfgs.len()
    &&& forall|i: int| 0 <= i < devs.len() ==> is_mock_device(#[trigger] devs[i], cfgs[i], dir)
}

/// The single host of the mock backend: its devices as configured, the first of each list as
/// default, every device addressable by its ID (inputs first).
pub open spec fn is_mock_host(h: AudioHostInfo, c: MockBackendConfig) -> bool {
    &&& h.name@ == c.host_name@
    &&& h.input_devices matches Ok(v) && is_mock_list(v@, c.input_devices@, DeviceDirection::Input)
    &&& h.output_devices matches Ok(v) && is_mock_list(
        v@,
        c.output_devices@,
        DeviceDirection::Output,
    )
    &&& if c.input_devices.len() > 0 {
        h.default_input_device matches Some(d) && is_mock_device(
            d,
            c.input_devices@[0],
            DeviceDirection::Input,
        )
    } else {
        h.default_input_device is None
    }
    &&& if c.output_devices.len() > 0 {
        h.default_output_device matches Some(d) && is_mock_device(
            d,
            c.output_devices@[0],
            DeviceDirection::Output,
        )
    } else {
        h.default_output_device is None
    }
    &&& h.addressable_devices.len() == c.input_devices.len() + c.output_devices.len()
    &&& forall|i: int|
        0 <= i < c.input_devices.len() ==> is_mock_device(
            #[trigger] h.addressable_devices@[i],
            c.input_devices@[i],
            DeviceDirection::Input,
        )
    &&& forall|i: int|
        0 <= i < c.output_devices.len() ==> is_mock_device(
            #[trigger] h.addressable_devices@[c.input_devices.len() + i],
            c.output_devices@[i],
            DeviceDirection::Output,
        )
}

pub open spec fn is_mock_backend(b: AudioBackendInfo, c: MockBackendConfig) -> bool {
    &&& b.hosts.len() == 1
    &&& is_mock_host(b.hosts@[0], c)
    &&& is_mock_host(b.default_host, c)
}

impl MockDevice {
    pub fn new(config: &MockDeviceConfig, direction: DeviceDirection) -> (r: Self)
        ensures
            r.name@ == config.name@,
            r.id@ == config.id@,
            r.min_sample_rate == config.min_sample_rate,
            r.max_sample_rate == config.max_sample_rate,
            r.channels == config.channels,
            r.direction == direction,
    {
        MockDevice {
            name: config.name.clone(),
            id: config.id.clone(),
            min_sample_rate: config.min_sample_rate,
            max_sample_rate: config.max_sample_rate,
            channels: config.channels,
            direction,
        }
    }

    /// The single configuration range the device supports, always with `f32` samples.
    pub fn config_range(&self) -> (r: StreamConfigRange)
        ensures
            r.channels == self.channels,
            r.min_sample_rate == self.min_sample_rate,
            r.max_sample_rate == self.max_sample_rate,
            r.sample_format == SampleFormat::F32,
    {
        StreamConfigRange {
            channels: self.channels,
            min_sample_rate: self.min_sample_rate,
            max_sample_rate: self.max_sample_rate,
            sample_format: SampleFormat::F32,
        }
    }

    /// The device's names: its display name and its ID.
    pub fn identifiers(&self) -> (r: Vec<String>)
        ensures
            r.len() == 2,
            r@[0]@ == self.name@,
            r@[1]@ == self.id@,
    {
        let mut v = Vec::new();
        v.push(self.name.clone());
        v.push(self.id.clone());
        v
    }

    fn configs_for(&self, dir: DeviceDirection) -> (r: Vec<StreamConfigRange>)
        ensures
            if self.direction == dir {
                r@ == seq![
                    StreamConfigRange {
                        channels: self.channels,
                        min_sample_rate: self.min_sample_rate,
                        max_sample_rate: self.max_sample_rate,
                        sample_format: SampleFormat::F32,
                    },
                ]
            } else {
                r@.len() == 0
            },
    {
        let mut v = Vec::new();
        if self.direction == dir {
            v.push(self.config_range());
            assert(v@ =~= seq![
                StreamConfigRange {
                    channels: self.channels,
                    min_sample_rate: self.min_sample_rate,
                    max_sample_rate: self.max_sample_rate,
                    sample_format: SampleFormat::F32,
                },
            ]);
        }
        v
    }

    /// What the selection logic sees of this device.
    pub fn info(&self) -> (r: AudioDeviceInfo)
        ensures
            r.name@ == self.name@,
            r.id matches Some(x) && x@ == self.id@,
            r.description matches Ok(desc) && desc.name@ == self.name@ && desc.driver is None
                && desc.direction == self.direction,
            r.identifiers.len() == 2,
            r.identifiers@[0]@ == self.name@,
            r.identifiers@[1]@ == self.id@,
            r.input_configs matches Ok(v) && (if self.direction == DeviceDirection::Input {
                v@ == seq![
                    StreamConfigRange {
                        channels: self.channels,
                        min_sample_rate: self.min_sample_rate,
                        max_sample_rate: self.max_sample_rate,
                        sample_format: SampleFormat::F32,
                    },
                ]
            } else {
                v@.len() == 0
            }),
            r.output_configs matches Ok(v) && (if self.direction == DeviceDirection::Output {
                v@ == seq![
                    StreamConfigRange {
                        channels: self.channels,
                        min_sample_rate: self.min_sample_rate,
                        max_sample_rate: self.max_sample_rate,
                        sample_format: SampleFormat::F32,
                    },
                ]
            } else {
                v@.len() == 0
            }),
    {
        AudioDeviceInfo {
            name: self.name.clone(),
            id: Some(self.id.clone()),
            description: Ok(
                DeviceDescription {
                    name: self.name.clone(),
                    driver: None,
                    direction: self.direction,
                },
            ),
            input_configs: Ok(self.configs_for(DeviceDirection::Input)),
            output_configs: Ok(self.configs_for(DeviceDirection::Output)),
            identifiers: self.identifiers(),
        }
    }
}

fn mock_info(config: &MockDeviceConfig, dir: DeviceDirection) -> (r: AudioDeviceInfo)
    ensures
        is_mock_device(r, *config, dir),
{
    let r = MockDevice::new(config, dir).info();
    assert(mock_range(*config) == StreamConfigRange {
        channels: config.channels,
        min_sample_rate: config.min_sample_rate,
        max_sample_rate: config.max_sample_rate,
        sample_format: SampleFormat::F32,
    });
    r
}

fn mock_infos(configs: &Vec<MockDeviceConfig>, dir: DeviceDirection) -> (r: Vec<AudioDeviceInfo>)
    ensures
        is_mock_list(r@, configs@, dir),
{
    let mut v: Vec<AudioDeviceInfo> = Vec::new();
    let mut i: usize = 0;
    while i < configs.len()
        invariant
            i <= configs.len(),
            v.len() == i,
            forall|k: int| 0 <= k < i ==> is_mock_device(#[trigger] v@[k], configs@[k], dir),
        decreases configs.len() - i,
    {
        v.push(mock_info(&configs[i], dir));
        i += 1;
    }
    v
}

/// Number of samples in one mock tick buffer for the stream configuration.
pub open spec fn spec_buffer_len(config: StreamConfig) -> int {
    ((config.sample_rate as int * MOCK_TICK_MS as int) / 1000) * config.channels as int
}

pub fn buffer_len(config: &StreamConfig) -> (r: usize)
    requires
        spec_buffer_len(*config) <= usize::MAX,
    ensures
        r == spec_buffer_len(*config),
{
    let frame_size: u64 = (config.sample_rate as u64 * MOCK_TICK_MS) / 1000;
    assert(frame_size * config.channels <= usize::MAX);
    (frame_size * config.channels as u64) as usize
}

impl MockBackend {
    pub fn new(config: MockBackendConfig) -> (r: Self)
        ensures
            r.config == config,
    {
        MockBackend { config }
    }

    /// The backend's single host.
    pub fn default_host(&self) -> (r: AudioHostInfo)
        ensures
            is_mock_host(r, self.config),
    {
        let inputs = mock_infos(&self.config.input_devices, DeviceDirection::Input);
        let outputs = mock_infos(&self.config.output_devices, DeviceDirection::Output);
        let default_input_device = if self.config.input_devices.len() > 0 {
            Some(mock_info(&self.config.input_devices[0], DeviceDirection::Input))
        } else {
            None
        };
        let default_output_device = if self.config.output_devices.len() > 0 {
            Some(mock_info(&self.config.output_devices[0], DeviceDirection::Output))
        } else {
            None
        };
        let mut addressable_devices = mock_infos(&self.config.input_devices, DeviceDirection::Input);
        let mut rest = mock_infos(&self.config.output_devices, DeviceDirection::Output);
        let ghost a = addressable_devices@;
        let ghost b = rest@;
        addressable_devices.append(&mut rest);
        assert(addressable_devices@ =~= a + b);
        AudioHostInfo {
            name: self.config.host_name.clone(),
            input_devices: Ok(inputs),
            output_devices: Ok(outputs),
            default_input_device,
            default_output_device,
            addressable_devices,
        }
    }

    /// What the selection logic sees of the backend: one host, which is also the default.
    pub fn info(&self) -> (r: AudioBackendInfo)
        ensures
            is_mock_backend(r, self.config),
    {
        let mut hosts = Vec::new();
        hosts.push(self.default_host());
        AudioBackendInfo { hosts, default_host: self.default_host() }
    }

    /// Name of every host: the mock backend has exactly one.
    pub fn host_names(&self) -> (r: Vec<String>)
        ensures
            r.len() == 1,
            r@[0]@ == self.config.host_name@,
    {
        let mut v = Vec::new();
        v.push(self.config.host_name.clone());
        v
    }

    /// Opens a device of the mock host, see [`AudioBackendInfo::open`].
    pub fn open(
        &self,
        t: DeviceType,
        preferred_host: Option<&str>,
        preferred_device_id: Option<&str>,
        preferred_device_name: Option<&str>,
    ) -> (r: Result<(StreamDevice, bool), AudioError>)
        ensures
            exists|b: AudioBackendInfo|
                is_mock_backend(b, self.config) && crate::device::open_result(
                    t,
                    crate::device::spec_host(
                        b,
                        crate::device::spec_select_host(b, crate::device::text_opt(preferred_host)),
                    ),
                    crate::device::spec_pick_device(
                        t,
                        crate::device::spec_host(
                            b,
                            crate::device::spec_select_host(b, crate::device::text_opt(preferred_host)),
                        ),
                        crate::device::text_opt(preferred_device_id),
                        crate::device::text_opt(preferred_device_name),
                    ),
                    r,
                ),
    {
        let b = self.info();
        let ghost g = b;
        let r = b.open(t, preferred_host, preferred_device_id, preferred_device_name);
        assert(is_mock_backend(g, self.config));
        r
    }

    pub fn all_host_names(&self) -> (r: Vec<String>)
        ensures
            r.len() == 1,
            r@[0]@ == self.config.host_name@,
    {
        self.host_names()
    }

    /// Names of the mock host's devices for the direction, see
    /// [`AudioBackendInfo::all_device_names`].
    pub fn all_device_names(&self, t: DeviceType, preferred_host: Option<&str>) -> (r: Result<
        Vec<String>,
        AudioError,
    >)
        ensures
            r matches Ok(v) && crate::device::texts(v@) == (match t {
                DeviceType::Input => self.config.input_devices@.map_values(
                    |c: MockDeviceConfig| c.name@,
                ),
                DeviceType::Output => self.config.output_devices@.map_values(
                    |c: MockDeviceConfig| c.name@,
                ),
            }).filter(|n: Seq<char>| n.len() > 0),
    {
        let b = self.info();
        let r = b.all_device_names(t, preferred_host);
        proof {
            let host = crate::device::spec_host(
                b,
                crate::device::spec_select_host(b, crate::device::text_opt(preferred_host)),
            );
            assert(is_mock_host(host, self.config));
            let cfgs = match t {
                DeviceType::Input => self.config.input_devices@,
                DeviceType::Output => self.config.output_devices@,
            };
            let dir = match t {
                DeviceType::Input => DeviceDirection::Input,
                DeviceType::Output => DeviceDirection::Output,
            };
            let devs = crate::device::spec_host_devices(t, host)->Ok_0;
            lemma_mock_listed_names(t, dir, devs, cfgs);
        }
        r
    }

    /// Stable ID of the mock device known by `device_name`, see
    /// [`AudioBackendInfo::resolve_device_id`].
    pub fn resolve_device_id(
        &self,
        t: DeviceType,
        preferred_host: Option<&str>,
        device_name: &str,
    ) -> (r: Option<String>)
        ensures
            exists|b: AudioBackendInfo|
                is_mock_backend(b, self.config) && crate::device::opt_text_of(r)
                    == crate::device::spec_resolve_device_id(
                    t,
                    crate::device::spec_host(
                        b,
                        crate::device::spec_select_host(b, crate::device::text_opt(preferred_host)),
                    ),
                    device_name@,
                ),
    {
        let b = self.info();
        let ghost g = b;
        let r = b.resolve_device_id(t, preferred_host, device_name);
        assert(is_mock_backend(g, self.config));
        r
    }
}

/// On a mock host every device of a direction supports it, so the listed names are the
/// configured names that are not empty.
proof fn lemma_mock_listed_names(
    t: DeviceType,
    dir: DeviceDirection,
    devs: Seq<AudioDeviceInfo>,
    cfgs: Seq<MockDeviceConfig>,
)
    requires
        is_mock_list(devs, cfgs, dir),
        dir == (match t {
            DeviceType::Input => DeviceDirection::Input,
            DeviceType::Output => DeviceDirection::Output,
        }),
    ensures
        crate::device::listed_names(t, devs) == cfgs.map_values(|c: MockDeviceConfig| c.name@).filter(
            |n: Seq<char>| n.len() > 0,
        ),
    decreases devs.len(),
{
    let names = cfgs.map_values(|c: MockDeviceConfig| c.name@);
    if devs.len() == 0 {
        assert(names =~= Seq::<Seq<char>>::empty());
        assert(names.filter(|n: Seq<char>| n.len() > 0) =~= Seq::<Seq<char>>::empty());
    } else {
        let d = devs.last();
        let c = cfgs.last();
        assert(is_mock_device(devs[devs.len() - 1], cfgs[devs.len() - 1], dir));
        lemma_mock_listed_names(t, dir, devs.drop_last(), cfgs.drop_last());
        assert(cfgs.drop_last().map_values(|c: MockDeviceConfig| c.name@) =~= names.drop_last());
        assert(names =~= names.drop_last().push(c.name@));
        names.drop_last().lemma_filter_push(c.name@, |n: Seq<char>| n.len() > 0);
        assert(crate::device::spec_has_supported_configs(t, d));
    }
}

} // verus!
