use voice_input::config::config::{AudioConfig, OpenAiSection};
use voice_input::audio::audio_data::AudioData;
use voice_input::transcription::openai::{
    request_key, response_outcome, wav_upload, OpenAiConfig, DEFAULT_BASE_URL, DEFAULT_MODEL,
};
use voice_input::transcription::TranscriptionError;

#[test]
fn request_fields_carry_model_and_json_format_and_optional_language() {
    let cfg = OpenAiConfig::default();
    assert_eq!(
        cfg.request_fields(),
        vec![
            ("model", DEFAULT_MODEL.to_owned()),
            ("response_format", "json".to_owned())
        ]
    );

    let cfg = OpenAiConfig {
        language: Some("ja".into()),
        model: "whisper-1".into(),
        ..Default::default()
    };
    assert_eq!(
        cfg.request_fields(),
        vec![
            ("model", "whisper-1".to_owned()),
            ("response_format", "json".to_owned()),
            ("language", "ja".to_owned()),
        ]
    );
}

#[test]
fn endpoint_tolerates_trailing_slash() {
    let cfg = OpenAiConfig {
        base_url: "https://example.test/v1/".into(),
        ..Default::default()
    };
    assert_eq!(
        cfg.endpoint(),
        "https://example.test/v1/audio/transcriptions"
    );
}

#[test]
fn endpoint_of_the_default_and_of_many_slashes() {
    assert_eq!(
        OpenAiConfig::default().endpoint(),
        "https://api.openai.com/v1/audio/transcriptions"
    );
    let cfg = OpenAiConfig {
        base_url: "http://h///".into(),
        ..Default::default()
    };
    assert_eq!(cfg.endpoint(), "http://h/audio/transcriptions");
}

#[test]
fn responses_map_to_the_vendor_neutral_result() {
    assert_eq!(
        response_outcome(200, Ok("こんにちは".into()), None),
        Ok("こんにちは".to_string())
    );
    assert_eq!(
        response_outcome(204, Err("missing field `text`".into()), None),
        Err(TranscriptionError::InvalidResponse(
            "missing field `text`".into()
        ))
    );
    assert_eq!(
        response_outcome(401, Ok("x".into()), None),
        Err(TranscriptionError::Unauthorized)
    );
    assert_eq!(
        response_outcome(403, Err("x".into()), None),
        Err(TranscriptionError::Unauthorized)
    );
    assert_eq!(
        response_outcome(429, Err("x".into()), None),
        Err(TranscriptionError::RateLimited)
    );
    assert_eq!(
        response_outcome(500, Err("x".into()), Some("server exploded".into())),
        Err(TranscriptionError::Api {
            status: 500,
            message: "server exploded".into()
        })
    );
    assert_eq!(
        response_outcome(502, Err("x".into()), None),
        Err(TranscriptionError::Api {
            status: 502,
            message: "unexpected response".into()
        })
    );
}

#[test]
fn transcription_error_messages() {
    assert_eq!(
        TranscriptionError::MissingApiKey.message(),
        "no API key configured"
    );
    assert_eq!(TranscriptionError::Timeout.message(), "request timed out");
    assert_eq!(
        TranscriptionError::Api {
            status: 503,
            message: "busy".into()
        }
        .message(),
        "API error 503: busy"
    );
    assert_eq!(
        TranscriptionError::Network("reset".into()).message(),
        "network error: reset"
    );
}

#[test]
fn config_sections_have_the_documented_defaults() {
    assert_eq!(AudioConfig::default().sample_rate, 16_000);
    let s = OpenAiSection::default();
    assert_eq!(s.model, DEFAULT_MODEL);
    assert_eq!(s.base_url, DEFAULT_BASE_URL);
    assert_eq!(s.timeout_secs, 30);
    assert!(s.language.is_none());
    assert!(s.api_key.is_none());
}

#[test]
fn a_missing_or_blank_key_is_refused_before_upload() {
    assert_eq!(request_key(&None), Err(TranscriptionError::MissingApiKey));
    assert_eq!(
        request_key(&Some("  \t ".to_owned())),
        Err(TranscriptionError::MissingApiKey)
    );
    assert_eq!(request_key(&Some(" sk-x ".to_owned())), Ok(" sk-x ".to_owned()));
}

#[test]
fn recordings_upload_as_their_wav_file() {
    let audio = AudioData::new(16_000, vec![1, -2]);
    assert_eq!(wav_upload(&audio), Ok(audio.to_wav()));
    let bytes = wav_upload(&audio).unwrap();
    assert_eq!(bytes.len(), 48);
    assert_eq!(&bytes[44..], &[1, 0, 0xfe, 0xff]);
}

#[test]
fn a_sample_rate_too_large_for_the_header_is_refused() {
    let audio = AudioData::new(u32::MAX, vec![0]);
    assert_eq!(
        wav_upload(&audio),
        Err(TranscriptionError::Network(
            "recording too large to upload".to_owned()
        ))
    );
}
