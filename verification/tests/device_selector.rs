use vacs::backend::TARGET_SAMPLE_RATE;
use vacs::device::DeviceType;
use vacs::mock::{MockBackend, MockBackendConfig, MockDeviceConfig};

fn two_input_backend() -> MockBackend {
    MockBackend::new(MockBackendConfig {
        host_name: "TestHost".to_string(),
        input_devices: vec![
            MockDeviceConfig {
                name: "USB Mic".to_string(),
                id: "usb-mic-0".to_string(),
                min_sample_rate: 44100,
                max_sample_rate: 44100,
                channels: 1,
            },
            MockDeviceConfig {
                name: "Studio Condenser".to_string(),
                id: "studio-1".to_string(),
                min_sample_rate: 48000,
                max_sample_rate: 48000,
                channels: 1,
            },
        ],
        output_devices: vec![MockDeviceConfig {
            name: "Headphones".to_string(),
            id: "hp-0".to_string(),
            min_sample_rate: 48000,
            max_sample_rate: 48000,
            channels: 2,
        }],
    })
}

#[test]
fn picks_default_over_highest_score() {
    let backend = two_input_backend();
    let (device, _) = backend
        .open(DeviceType::Input, None, None, None)
        .expect("open should succeed");
    assert_eq!(device.name(), "USB Mic");
    assert_eq!(device.sample_rate(), 44100);
}

#[test]
fn picks_48khz_when_range_includes_target() {
    let backend = MockBackend::new(MockBackendConfig {
        host_name: "H".to_string(),
        input_devices: vec![MockDeviceConfig {
            name: "Wide Range Mic".to_string(),
            id: "wr-0".to_string(),
            min_sample_rate: 16000,
            max_sample_rate: 96000,
            channels: 1,
        }],
        output_devices: vec![MockDeviceConfig {
            name: "Speaker".to_string(),
            id: "sp-0".to_string(),
            min_sample_rate: 48000,
            max_sample_rate: 48000,
            channels: 2,
        }],
    });
    let (device, _) = backend
        .open(DeviceType::Input, None, None, None)
        .expect("open should succeed");
    assert_eq!(device.sample_rate(), 48000);
    assert_eq!(device.sample_rate(), TARGET_SAMPLE_RATE);
}

#[test]
fn selects_device_by_id() {
    let backend = two_input_backend();
    let (device, is_fallback) = backend
        .open(DeviceType::Input, None, Some("studio-1"), None)
        .expect("open should succeed");
    assert_eq!(device.name(), "Studio Condenser");
    assert!(!is_fallback);
}

#[test]
fn selects_device_by_exact_name() {
    let backend = two_input_backend();
    let (device, is_fallback) = backend
        .open(DeviceType::Input, None, None, Some("Studio Condenser"))
        .expect("open should succeed");
    assert_eq!(device.name(), "Studio Condenser");
    assert!(!is_fallback);
}

#[test]
fn selects_device_by_case_insensitive_name() {
    let backend = two_input_backend();
    let (device, is_fallback) = backend
        .open(DeviceType::Input, None, None, Some("studio condenser"))
        .expect("open should succeed");
    assert_eq!(device.name(), "Studio Condenser");
    assert!(!is_fallback);
}

#[test]
fn selects_device_by_substring_name() {
    let backend = two_input_backend();
    let (device, is_fallback) = backend
        .open(DeviceType::Input, None, None, Some("Condenser"))
        .expect("open should succeed");
    assert_eq!(device.name(), "Studio Condenser");
    assert!(!is_fallback);
}

#[test]
fn id_takes_priority_over_name() {
    let backend = two_input_backend();
    let (device, is_fallback) = backend
        .open(
            DeviceType::Input,
            None,
            Some("usb-mic-0"),
            Some("Studio Condenser"),
        )
        .expect("open should succeed");
    assert_eq!(device.name(), "USB Mic");
    assert!(!is_fallback);
}

#[test]
fn falls_back_to_default_when_preferred_not_found() {
    let backend = two_input_backend();
    let (device, is_fallback) = backend
        .open(
            DeviceType::Input,
            None,
            Some("nonexistent-id"),
            Some("Nonexistent Device"),
        )
        .expect("open should succeed");
    assert_eq!(device.name(), "USB Mic");
    assert!(is_fallback);
}

#[test]
fn resolve_device_id_by_name() {
    let backend = two_input_backend();
    let id = backend.resolve_device_id(DeviceType::Input, None, "Studio Condenser");
    assert_eq!(id, Some("studio-1".to_string()));
}

#[test]
fn resolve_device_id_returns_none_for_unknown() {
    let backend = two_input_backend();
    let id = backend.resolve_device_id(DeviceType::Input, None, "Ghost Mic");
    assert_eq!(id, None);
}

#[test]
fn selects_host_by_name_case_insensitive() {
    let backend = two_input_backend();
    let (device, _) = backend
        .open(DeviceType::Output, Some("testhost"), None, None)
        .expect("should match host case-insensitively");
    assert_eq!(device.name(), "Headphones");
}

#[test]
fn all_host_and_device_names() {
    let backend = two_input_backend();

    let hosts = backend.all_host_names();
    assert_eq!(hosts, vec!["TestHost"]);

    let inputs = backend.all_device_names(DeviceType::Input, None).unwrap();
    assert_eq!(inputs.len(), 2);
    assert!(inputs.contains(&"USB Mic".to_string()));
    assert!(inputs.contains(&"Studio Condenser".to_string()));

    let outputs = backend.all_device_names(DeviceType::Output, None).unwrap();
    assert_eq!(outputs, vec!["Headphones"]);
}

#[test]
fn output_defaults_to_first_device_regardless_of_channels() {
    let backend = MockBackend::new(MockBackendConfig {
        host_name: "H".to_string(),
        input_devices: vec![MockDeviceConfig {
            name: "Mic".to_string(),
            id: "m".to_string(),
            min_sample_rate: 48000,
            max_sample_rate: 48000,
            channels: 1,
        }],
        output_devices: vec![
            MockDeviceConfig {
                name: "Mono Speaker".to_string(),
                id: "mono".to_string(),
                min_sample_rate: 48000,
                max_sample_rate: 48000,
                channels: 1,
            },
            MockDeviceConfig {
                name: "Stereo Speaker".to_string(),
                id: "stereo".to_string(),
                min_sample_rate: 48000,
                max_sample_rate: 48000,
                channels: 2,
            },
        ],
    });

    let (device, _) = backend.open(DeviceType::Output, None, None, None).unwrap();
    assert_eq!(device.name(), "Mono Speaker");
    assert_eq!(device.channels(), 1);

    let (device, _) = backend
        .open(DeviceType::Output, None, Some("stereo"), None)
        .unwrap();
    assert_eq!(device.name(), "Stereo Speaker");
    assert_eq!(device.channels(), 2);
}
