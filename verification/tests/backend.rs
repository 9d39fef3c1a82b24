use vacs::backend::{
    device_display_name, device_identifiers, resample_chunk_size, BufferSize, DescriptionLines,
};

fn lines(name: &str, driver: Option<&str>, extended: &[&str]) -> DescriptionLines {
    DescriptionLines {
        name: name.to_string(),
        driver: driver.map(|d| d.to_string()),
        extended: extended.iter().map(|l| l.to_string()).collect(),
    }
}

#[test]
fn display_name_adds_a_distinct_driver() {
    let usb = lines("USB Audio", Some("snd_usb_audio"), &[]);
    assert_eq!(device_display_name(Some(&usb)), "USB Audio (snd_usb_audio)");
    let same = lines("Speakers", Some("SPEAKERS"), &[]);
    assert_eq!(device_display_name(Some(&same)), "Speakers");
    let bare = lines("Mic", None, &[]);
    assert_eq!(device_display_name(Some(&bare)), "Mic");
    assert_eq!(device_display_name(None), "");
}

#[test]
fn identifiers_list_every_name_once() {
    let usb = lines("USB Audio", Some("snd_usb_audio"), &["Front", "USB Audio", "Front"]);
    assert_eq!(
        device_identifiers(Some(&usb)),
        vec![
            "USB Audio (snd_usb_audio)".to_string(),
            "USB Audio".to_string(),
            "snd_usb_audio".to_string(),
            "Front".to_string(),
        ]
    );
    let same = lines("Speakers", Some("Speakers"), &[]);
    assert_eq!(device_identifiers(Some(&same)), vec!["Speakers".to_string()]);
    assert!(device_identifiers(None).is_empty());
    let unnamed = lines("", None, &[]);
    assert_eq!(device_identifiers(Some(&unnamed)), vec![String::new()]);
}

#[test]
fn streams_off_the_target_rate_are_resampled_in_buffer_sized_chunks() {
    assert_eq!(resample_chunk_size(48_000, BufferSize::Fixed(256)), None);
    assert_eq!(resample_chunk_size(44_100, BufferSize::Fixed(256)), Some(256));
    assert_eq!(resample_chunk_size(44_100, BufferSize::Default), Some(1024));
}
