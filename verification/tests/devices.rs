use interview_assistant::devices::{
    find_loopback_device, find_mic_device, is_loopback_name, is_mic_name, list_input_devices,
    resolve_device, AudioDeviceInfo, RawDevice,
};

fn dev(index: usize, name: &str, channels: u16, is_output: bool) -> AudioDeviceInfo {
    AudioDeviceInfo { index, name: name.to_string(), channels, is_output }
}

fn sample_devices() -> Vec<AudioDeviceInfo> {
    vec![
        dev(0, "Microphone (USB Audio)", 1, false),
        dev(1, "Stereo Mix (Realtek)", 2, false),
        dev(2, "Mic 2", 1, false),
        dev(3, "Speakers [loopback]", 2, true),
    ]
}

#[test]
fn loopback_names_are_recognised_in_any_case() {
    assert!(is_loopback_name("Stereo Mix (Realtek High Definition Audio)"));
    assert!(is_loopback_name("CABLE Output (VB-Audio Virtual Cable)"));
    assert!(is_loopback_name("LOOPBACK"));
    assert!(is_loopback_name("Monitor of Built-in Audio"));
    assert!(is_loopback_name("BlackHole 2ch"));
    assert!(is_loopback_name("Стерео микшер (Realtek)"));
    assert!(is_loopback_name("СТЕРЕОМИКШЕР"));
}

#[test]
fn ordinary_names_are_not_loopback() {
    assert!(!is_loopback_name("Microphone (USB Audio)"));
    assert!(!is_loopback_name("Headset"));
    assert!(!is_loopback_name(""));
}

#[test]
fn microphone_names_are_recognised() {
    assert!(is_mic_name("Microphone (USB Audio)"));
    assert!(is_mic_name("MIC 2"));
    assert!(is_mic_name("Микрофон (Realtek)"));
    assert!(!is_mic_name("Headset"));
}

#[test]
fn a_loopback_name_is_never_a_microphone() {
    assert!(!is_mic_name("Monitor of Mic"));
    assert!(!is_mic_name("Stereo Mix Microphone"));
}

#[test]
fn find_loopback_takes_the_first_loopback_device() {
    let d = find_loopback_device(&sample_devices()).unwrap();
    assert_eq!(d, dev(1, "Stereo Mix (Realtek)", 2, false));
}

#[test]
fn find_mic_takes_the_first_microphone() {
    let d = find_mic_device(&sample_devices()).unwrap();
    assert_eq!(d.name, "Microphone (USB Audio)");
}

#[test]
fn find_gives_none_without_a_match() {
    let list = vec![dev(0, "Headset", 1, false)];
    assert_eq!(find_loopback_device(&list), None);
    assert_eq!(find_mic_device(&list), None);
    assert_eq!(find_mic_device(&[]), None);
}

#[test]
fn resolve_prefers_the_exact_trimmed_name() {
    let d = resolve_device("  Mic 2 ", &sample_devices()).unwrap();
    assert_eq!(d.index, 2);
}

#[test]
fn resolve_falls_back_to_a_case_blind_part_of_the_name() {
    let d = resolve_device("usb", &sample_devices()).unwrap();
    assert_eq!(d.index, 0);
    let d = resolve_device("REALTEK", &sample_devices()).unwrap();
    assert_eq!(d.index, 1);
}

#[test]
fn resolve_gives_none_for_blank_or_unknown_names() {
    assert_eq!(resolve_device("   ", &sample_devices()), None);
    assert_eq!(resolve_device("", &sample_devices()), None);
    assert_eq!(resolve_device("bluetooth", &sample_devices()), None);
}

#[test]
fn listing_numbers_inputs_then_labelled_outputs() {
    let inputs = vec![
        RawDevice { name: Some("Mic A".to_string()), channels: Some(2) },
        RawDevice { name: None, channels: Some(4) },
        RawDevice { name: Some("Line In".to_string()), channels: None },
    ];
    let outputs = vec![RawDevice { name: Some("Speakers".to_string()), channels: None }];
    let list = list_input_devices(&inputs, &outputs);
    assert_eq!(
        list,
        vec![
            dev(0, "Mic A", 2, false),
            dev(1, "Line In", 1, false),
            dev(2, "Speakers [loopback]", 2, true),
        ]
    );
}

#[test]
fn listing_without_devices_is_empty() {
    assert!(list_input_devices(&[], &[]).is_empty());
}
