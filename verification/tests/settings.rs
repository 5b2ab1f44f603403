use std::time::Duration;
use voice_input::config::config::OpenAiSection;
use voice_input::config::settings::{
    configured_hotkey, error_display_time, hotkey_debounce, is_known_provider,
};
use voice_input::hotkey::{Hotkey, HotkeyError, Key, Modifier};

#[test]
fn a_configured_hotkey_is_used_as_written() {
    let (hotkey, refused) = configured_hotkey("Super+F9");
    assert_eq!(
        hotkey,
        Hotkey {
            modifiers: vec![Modifier::Super],
            key: Key::Function(9)
        }
    );
    assert_eq!(refused, None);
}

#[test]
fn an_unreadable_hotkey_falls_back_to_ctrl_space() {
    let (hotkey, refused) = configured_hotkey("Ctrl+Banana");
    assert_eq!(hotkey, Hotkey::default_toggle());
    assert_eq!(refused, Some(HotkeyError::Parse("Ctrl+Banana".to_owned())));
}

#[test]
fn only_openai_is_a_known_provider() {
    assert!(is_known_provider("openai"));
    assert!(!is_known_provider("OpenAI"));
    assert!(!is_known_provider("whisper-local"));
}

#[test]
fn the_error_display_lasts_at_least_a_second() {
    assert_eq!(error_display_time(0), Duration::from_secs(1));
    assert_eq!(error_display_time(1), Duration::from_secs(1));
    assert_eq!(error_display_time(7), Duration::from_secs(7));
}

#[test]
fn the_hotkey_debounce_is_a_quarter_second() {
    assert_eq!(hotkey_debounce(), Duration::from_millis(250));
}

#[test]
fn the_openai_section_becomes_the_provider_settings() {
    let section = OpenAiSection {
        model: "whisper-1".to_owned(),
        language: Some("ja".to_owned()),
        base_url: "http://localhost:8080/v1/".to_owned(),
        timeout_secs: 12,
        api_key: Some("sk-file".to_owned()),
    };
    let cfg = section.openai_config();
    assert_eq!(cfg.model, "whisper-1");
    assert_eq!(cfg.language.as_deref(), Some("ja"));
    assert_eq!(cfg.base_url, "http://localhost:8080/v1/");
    assert_eq!(cfg.timeout_secs, 12);
    assert_eq!(cfg.endpoint(), "http://localhost:8080/v1/audio/transcriptions");
}
