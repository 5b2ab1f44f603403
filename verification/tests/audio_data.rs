use std::time::Duration;
use voice_input::audio::audio_data::AudioData;
use voice_input::audio::{map_device_error, AudioError};

#[test]
fn audio_without_samples_is_empty() {
    let audio = AudioData::new(16_000, vec![]);
    assert!(audio.is_empty());
}

#[test]
fn one_second_of_16khz_audio_has_one_second_duration() {
    let audio = AudioData::new(16_000, vec![0; 16_000]);
    assert!(!audio.is_empty());
    assert_eq!(audio.duration(), Duration::from_secs(1));
}

#[test]
fn duration_is_rounded_to_the_nanosecond_and_zero_without_a_rate() {
    let audio = AudioData::new(16_000, vec![0; 8_001]);
    assert_eq!(audio.duration(), Duration::new(0, 500_062_500));
    let audio = AudioData::new(3, vec![0; 7]);
    assert_eq!(audio.duration(), Duration::new(2, 333_333_333));
    let audio = AudioData::new(3, vec![0; 2]);
    assert_eq!(audio.duration(), Duration::new(0, 666_666_667));
    let audio = AudioData::new(0, vec![0; 7]);
    assert_eq!(audio.duration(), Duration::ZERO);
}

#[test]
fn duration_agrees_with_the_floating_point_quotient() {
    for (rate, len) in [(3u32, 2usize), (7, 5), (44_100, 1), (16_000, 12_345), (1, 3)] {
        let audio = AudioData::new(rate, vec![0; len]);
        let expected = Duration::from_secs_f64(len as f64 / rate as f64);
        assert_eq!(audio.duration(), expected, "{len} samples at {rate} Hz");
    }
}

#[test]
fn accessors_give_back_what_was_stored() {
    let audio = AudioData::new(44_100, vec![-3, 0, 7]);
    assert_eq!(audio.sample_rate(), 44_100);
    assert_eq!(audio.samples(), &[-3, 0, 7]);
    assert!(audio.clone() == audio);
}

#[test]
fn device_errors_are_classified_case_insensitively() {
    assert_eq!(
        map_device_error("Permission denied (os error 13)"),
        AudioError::PermissionDenied
    );
    assert_eq!(map_device_error("ACCESS is not allowed"), AudioError::PermissionDenied);
    assert_eq!(map_device_error("No such device"), AudioError::NoDevice);
    assert_eq!(map_device_error("device Not Found"), AudioError::NoDevice);
    assert_eq!(
        map_device_error("stream broke"),
        AudioError::Device("stream broke".to_string())
    );
}

#[test]
fn audio_error_messages() {
    assert_eq!(AudioError::NoDevice.message(), "no input device available");
    assert_eq!(
        AudioError::PermissionDenied.message(),
        "microphone permission denied"
    );
    assert_eq!(AudioError::NotRecording.message(), "recorder is not recording");
    assert_eq!(
        AudioError::Device("boom".into()).message(),
        "audio device error: boom"
    );
}

#[test]
fn wav_has_a_pcm_header_then_little_endian_samples() {
    let audio = AudioData::new(16_000, vec![1, -2, 0x1234]);
    let wav = audio.to_wav();
    let mut expected: Vec<u8> = Vec::new();
    expected.extend_from_slice(b"RIFF");
    expected.extend_from_slice(&(36u32 + 6).to_le_bytes());
    expected.extend_from_slice(b"WAVE");
    expected.extend_from_slice(b"fmt ");
    expected.extend_from_slice(&16u32.to_le_bytes());
    expected.extend_from_slice(&1u16.to_le_bytes());
    expected.extend_from_slice(&1u16.to_le_bytes());
    expected.extend_from_slice(&16_000u32.to_le_bytes());
    expected.extend_from_slice(&32_000u32.to_le_bytes());
    expected.extend_from_slice(&2u16.to_le_bytes());
    expected.extend_from_slice(&16u16.to_le_bytes());
    expected.extend_from_slice(b"data");
    expected.extend_from_slice(&6u32.to_le_bytes());
    expected.extend_from_slice(&[0x01, 0x00, 0xFE, 0xFF, 0x34, 0x12]);
    assert_eq!(wav, expected);
    assert_eq!(AudioData::new(8_000, vec![]).to_wav().len(), 44);
}

#[test]
fn audio_describes_itself_without_its_samples() {
    let audio = AudioData::new(16_000, vec![7; 8_000]);
    assert_eq!(
        audio.describe(),
        "AudioData { sample_rate: 16000, samples: 8000 }"
    );
    assert_eq!(
        AudioData::new(0, vec![]).describe(),
        "AudioData { sample_rate: 0, samples: 0 }"
    );
}
