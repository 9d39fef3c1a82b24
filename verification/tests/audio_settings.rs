use vacs::audio::{volume_sources, VolumeType};
use vacs::audio::stream_sources;
use vacs::audio::{source_stream, volume_preview};
use vacs::audio::{stream_failure_ends_call, stream_recovery, StreamRecovery, RESTART_COOLDOWN_NANOS};
use vacs::audio::playback_device_choice;
use vacs::audio::{
    check_ring_clip, get_audio_devices, AudioHosts, ClientAudioDeviceType, DeviceSettings,
    PlaybackDeviceType, RingClipProblem, RingSoundConfig, RingSoundType, RingSounds, SourceType,
    MAX_RING_SOUND_NANOS, MIN_RING_SOUND_NANOS,
};
use vacs::device::DeviceType;
use vacs::mock::{MockBackend, MockBackendConfig, MockDeviceConfig};

fn backend() -> MockBackend {
    MockBackend::new(MockBackendConfig {
        host_name: "TestHost".to_string(),
        input_devices: vec![
            MockDeviceConfig {
                name: "USB Mic".to_string(),
                id: "usb-mic-0".to_string(),
                min_sample_rate: 44100,
                max_sample_rate: 44100,
                channels: 1,
            },
            MockDeviceConfig {
                name: "Studio Condenser".to_string(),
                id: "studio-1".to_string(),
                min_sample_rate: 48000,
                max_sample_rate: 48000,
                channels: 1,
            },
        ],
        output_devices: vec![MockDeviceConfig {
            name: "Headphones".to_string(),
            id: "hp-0".to_string(),
            min_sample_rate: 48000,
            max_sample_rate: 48000,
            channels: 2,
        }],
    })
}

fn empty_settings() -> DeviceSettings {
    DeviceSettings {
        host_name: None,
        input_device_name: None,
        input_device_id: None,
        output_device_name: None,
        output_device_id: None,
        speaker_enabled: false,
        speaker_device_name: None,
        speaker_device_id: None,
    }
}

#[test]
fn ring_sounds_payload_omits_unset_entries_and_flags_unloaded_files() {
    let config = RingSoundConfig {
        ring_sound: None,
        priority_ring_sound: None,
    };
    let sounds = RingSounds::new(&config, |_| true);
    assert!(sounds.ring.is_none() && sounds.priority_ring.is_none());

    let mut config = RingSoundConfig {
        ring_sound: None,
        priority_ring_sound: None,
    };
    config.set_ring_sound(RingSoundType::Ring, Some("/tmp/ring.wav".to_string()));
    let sounds = RingSounds::new(&config, |_| false);
    let ring = sounds.ring.unwrap();
    assert_eq!(ring.path, "/tmp/ring.wav");
    assert!(!ring.available);
    assert!(sounds.priority_ring.is_none());
    assert_eq!(config.ring_sound(RingSoundType::PriorityRing), None);
}

#[test]
fn ring_sound_types_map_to_sources() {
    assert_eq!(SourceType::from(RingSoundType::Ring), SourceType::Ring);
    assert_eq!(SourceType::from(RingSoundType::PriorityRing), SourceType::PriorityRing);
    assert_eq!(DeviceType::from(ClientAudioDeviceType::Speaker), DeviceType::Output);
    assert_eq!(DeviceType::from(ClientAudioDeviceType::Input), DeviceType::Input);
    assert_eq!(PlaybackDeviceType::Speaker.as_str(), "speaker");
    assert_eq!(PlaybackDeviceType::Output.as_str(), "output");
}

#[test]
fn ring_clips_are_checked_for_length_and_silence() {
    assert_eq!(check_ring_clip(MAX_RING_SOUND_NANOS + 1, false), Some(RingClipProblem::TooLong));
    assert_eq!(check_ring_clip(MAX_RING_SOUND_NANOS, false), None);
    assert_eq!(check_ring_clip(MIN_RING_SOUND_NANOS - 1, false), Some(RingClipProblem::TooShort));
    assert_eq!(check_ring_clip(1_000_000_000, true), Some(RingClipProblem::Silent));
}

#[test]
fn switching_hosts_clears_device_ids() {
    let mut settings = empty_settings();
    settings.input_device_id = Some("usb-mic-0".to_string());
    settings.output_device_id = Some("hp-0".to_string());
    settings.set_host(String::new());
    assert_eq!(settings.host_name, None);
    assert_eq!(settings.input_device_id, None);
    assert_eq!(settings.output_device_id, None);
    settings.set_host("TestHost".to_string());
    assert_eq!(settings.host_name.as_deref(), Some("TestHost"));
}

#[test]
fn choosing_a_speaker_enables_it() {
    let mut settings = empty_settings();
    settings.set_device(ClientAudioDeviceType::Speaker, Some(String::new()), None);
    assert!(settings.speaker_enabled);
    assert_eq!(settings.speaker_device_name, None);
    settings.set_device(ClientAudioDeviceType::Speaker, None, None);
    assert!(!settings.speaker_enabled);
}

#[test]
fn devices_for_the_settings_page() {
    let backend = backend().info();
    let mut settings = empty_settings();
    let name = Some("Studio Condenser".to_string());
    let id = settings.resolve_device_id(&backend, ClientAudioDeviceType::Input, &name);
    assert_eq!(id.as_deref(), Some("studio-1"));
    settings.set_device(ClientAudioDeviceType::Input, name, id);

    let devices = get_audio_devices(
        ClientAudioDeviceType::Input,
        &settings,
        "Headphones".to_string(),
        None,
        &backend,
    )
    .unwrap();
    assert_eq!(devices.preferred.as_deref(), Some("Studio Condenser"));
    assert_eq!(devices.picked.as_deref(), Some("Studio Condenser"));
    assert_eq!(devices.default, "USB Mic");
    assert_eq!(devices.all, vec!["USB Mic".to_string(), "Studio Condenser".to_string()]);

    let speaker = get_audio_devices(
        ClientAudioDeviceType::Speaker,
        &settings,
        "Headphones".to_string(),
        None,
        &backend,
    )
    .unwrap();
    assert_eq!(speaker.preferred, None);
    assert_eq!(speaker.picked, None);
    assert_eq!(speaker.default, "Headphones");

    let hosts = AudioHosts::new(&settings, &backend);
    assert_eq!(hosts.selected, "TestHost");
    assert_eq!(hosts.all, vec!["TestHost".to_string()]);
}

#[test]
fn playback_streams_carry_their_sounds() {
    assert_eq!(
        stream_sources(PlaybackDeviceType::Speaker),
        vec![SourceType::Ring, SourceType::PriorityRing, SourceType::Click]
    );
    assert_eq!(stream_sources(PlaybackDeviceType::Output).len(), 7);
}

#[test]
fn sounds_play_on_the_speaker_when_it_carries_them() {
    assert_eq!(source_stream(Some(true), true), Some(PlaybackDeviceType::Speaker));
    assert_eq!(source_stream(Some(false), true), Some(PlaybackDeviceType::Output));
    assert_eq!(source_stream(None, false), None);
    assert_eq!(volume_preview(SourceType::Ring, true), (false, true));
    assert_eq!(volume_preview(SourceType::Ring, false), (true, false));
    assert_eq!(volume_preview(SourceType::RingbackOneshot, true), (true, false));
    assert_eq!(volume_preview(SourceType::CallEnd, false), (false, false));
}

#[test]
fn failed_streams_recover_unless_they_fail_again_right_away() {
    assert_eq!(stream_recovery(false, None), StreamRecovery::Restart(0));
    assert_eq!(stream_recovery(false, Some(1)), StreamRecovery::GiveUp);
    assert_eq!(
        stream_recovery(true, Some(500_000_000)),
        StreamRecovery::Restart(RESTART_COOLDOWN_NANOS - 500_000_000)
    );
    assert_eq!(stream_recovery(false, Some(RESTART_COOLDOWN_NANOS)), StreamRecovery::Restart(0));
    assert!(stream_failure_ends_call(PlaybackDeviceType::Output));
    assert!(!stream_failure_ends_call(PlaybackDeviceType::Speaker));
}

#[test]
fn switching_the_speaker_off_drops_its_stream() {
    let mut settings = empty_settings();
    settings.speaker_device_name = Some("Desk".to_string());
    assert_eq!(playback_device_choice(&settings, PlaybackDeviceType::Speaker), None);
    settings.speaker_enabled = true;
    assert_eq!(
        playback_device_choice(&settings, PlaybackDeviceType::Speaker),
        Some((None, Some("Desk".to_string())))
    );
    assert_eq!(
        playback_device_choice(&settings, PlaybackDeviceType::Output),
        Some((None, None))
    );
}

#[test]
fn each_volume_setting_controls_its_sounds() {
    assert!(volume_sources(VolumeType::Input).is_empty());
    assert_eq!(
        volume_sources(VolumeType::Output),
        vec![SourceType::Ringback, SourceType::RingbackOneshot, SourceType::CallStart, SourceType::CallEnd]
    );
    assert_eq!(volume_sources(VolumeType::Click), vec![SourceType::Click]);
    assert_eq!(volume_sources(VolumeType::Chime), vec![SourceType::Ring, SourceType::PriorityRing]);
}
