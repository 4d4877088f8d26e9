use interview_assistant::audio::{
    block_size, downmix_to_mono_i16, opens_as_output, output_name_matches, pick_device,
    take_blocks, u16_to_pcm, AudioMode, DeviceError, SAMPLE_RATE,
};
use interview_assistant::devices::AudioDeviceInfo;

fn dev(index: usize, name: &str, is_output: bool) -> AudioDeviceInfo {
    AudioDeviceInfo { index, name: name.to_string(), channels: 2, is_output }
}

fn devices() -> Vec<AudioDeviceInfo> {
    vec![
        dev(0, "Microphone (USB)", false),
        dev(1, "Stereo Mix (Realtek)", false),
        dev(2, "Speakers [loopback]", true),
    ]
}

#[test]
fn target_rate_is_sixteen_kilohertz() {
    assert_eq!(SAMPLE_RATE, 16000);
}

#[test]
fn downmix_averages_each_frame() {
    assert_eq!(downmix_to_mono_i16(&[1, 3, 10, 20], 2), vec![2, 15]);
    assert_eq!(downmix_to_mono_i16(&[3, 6, 9, -3, -6, -9], 3), vec![6, -6]);
}

#[test]
fn downmix_rounds_toward_zero() {
    assert_eq!(downmix_to_mono_i16(&[-3, -4], 2), vec![-3]);
    assert_eq!(downmix_to_mono_i16(&[3, 4], 2), vec![3]);
}

#[test]
fn downmix_keeps_a_short_last_frame() {
    assert_eq!(downmix_to_mono_i16(&[2, 4, 7], 2), vec![3, 3]);
}

#[test]
fn downmix_does_not_overflow_at_the_extremes() {
    assert_eq!(downmix_to_mono_i16(&[i16::MAX, i16::MAX], 2), vec![i16::MAX]);
    assert_eq!(downmix_to_mono_i16(&[i16::MIN, i16::MIN], 2), vec![i16::MIN]);
}

#[test]
fn downmix_of_mono_keeps_the_samples() {
    assert_eq!(downmix_to_mono_i16(&[5, -7, 9], 1), vec![5, -7, 9]);
    assert_eq!(downmix_to_mono_i16(&[5, -7, 9], 0), vec![5, -7, 9]);
    assert_eq!(downmix_to_mono_i16(&[], 2), Vec::<i16>::new());
}

#[test]
fn block_size_is_chunk_length_at_the_rate_with_a_floor() {
    assert_eq!(block_size(16000, 500), 8000);
    assert_eq!(block_size(48000, 20), 960);
    assert_eq!(block_size(16000, 10), 256);
    assert_eq!(block_size(16000, 0), 256);
    assert_eq!(block_size(44100, 250), 11025);
}

#[test]
fn take_blocks_emits_full_blocks_and_keeps_the_rest() {
    let mut buf = vec![1, 2];
    let blocks = take_blocks(&mut buf, &[3, 4, 5, 6, 7], 3);
    assert_eq!(blocks, vec![vec![1, 2, 3], vec![4, 5, 6]]);
    assert_eq!(buf, vec![7]);
}

#[test]
fn take_blocks_keeps_everything_below_one_block() {
    let mut buf = vec![1];
    let blocks = take_blocks(&mut buf, &[2], 4);
    assert!(blocks.is_empty());
    assert_eq!(buf, vec![1, 2]);
}

#[test]
fn take_blocks_loses_no_sample_over_many_calls() {
    let mut buf = Vec::new();
    let mut out: Vec<i16> = Vec::new();
    for k in 0..10i16 {
        let incoming: Vec<i16> = (0..(k + 1)).map(|x| x + 10 * k).collect();
        for b in take_blocks(&mut buf, &incoming, 4) {
            assert_eq!(b.len(), 4);
            out.extend(b);
        }
    }
    out.extend(buf.iter().copied());
    let expected: Vec<i16> = (0..10i16).flat_map(|k| (0..(k + 1)).map(move |x| x + 10 * k)).collect();
    assert_eq!(out, expected);
}

#[test]
fn unsigned_samples_are_recentred() {
    assert_eq!(u16_to_pcm(&[0, 32768, 65535, 32767]), vec![-32768, 0, 32767, -1]);
}

#[test]
fn pick_device_uses_the_configured_name() {
    let d = pick_device(AudioMode::Mic, "stereo", &devices(), None).unwrap();
    assert_eq!(d.index, 1);
}

#[test]
fn pick_device_finds_loopback_when_no_name_is_set() {
    let d = pick_device(AudioMode::Loopback, "  ", &devices(), None).unwrap();
    assert_eq!(d.index, 1);
    let d = pick_device(AudioMode::Loopback, "Unknown device", &devices(), None).unwrap();
    assert_eq!(d.index, 1);
}

#[test]
fn pick_device_reports_a_missing_loopback_device() {
    let list = vec![dev(0, "Headset", false)];
    let e = pick_device(AudioMode::Loopback, "", &list, None).unwrap_err();
    assert_eq!(e, DeviceError::LoopbackNotFound);
    assert_eq!(e.message(), "Loopback device not found");
}

#[test]
fn pick_device_takes_the_default_input_for_the_microphone() {
    let d = pick_device(AudioMode::Mic, "", &devices(), Some("Microphone (USB)")).unwrap();
    assert_eq!(d.index, 0);
}

#[test]
fn pick_device_reports_a_missing_microphone() {
    let e = pick_device(AudioMode::Mic, "", &devices(), None).unwrap_err();
    assert_eq!(e, DeviceError::MicrophoneNotFound);
    assert_eq!(e.message(), "Microphone not found");
    let e = pick_device(AudioMode::Mic, "", &devices(), Some("Bluetooth")).unwrap_err();
    assert_eq!(e, DeviceError::MicrophoneNotFound);
}

#[test]
fn output_devices_are_opened_as_outputs() {
    assert!(opens_as_output(&dev(0, "Speakers [loopback]", true), AudioMode::Mic));
    assert!(opens_as_output(&dev(0, "Microphone", false), AudioMode::Loopback));
    assert!(opens_as_output(&dev(0, "Stereo Mix", false), AudioMode::Mic));
    assert!(!opens_as_output(&dev(0, "Microphone", false), AudioMode::Mic));
}

#[test]
fn a_labelled_output_matches_its_host_name() {
    assert!(output_name_matches("Speakers [loopback]", "Speakers"));
    assert!(output_name_matches("Speakers", "Speakers"));
    assert!(!output_name_matches("Speakers", "Headphones"));
    assert!(!output_name_matches("Spk", "Speakers"));
}
