use std::time::{Duration, Instant};
use voice_input::hotkey::linux::{activation_toggles, portal_trigger, PORTAL_SHORTCUT_ID};
use std::sync::atomic::{AtomicUsize, Ordering};
use std::sync::Arc;
use voice_input::doubles::FakeHotkeyProvider;
use voice_input::hotkey::{
    Debouncer, Hotkey, HotkeyError, HotkeyProvider, Key, Modifier, ToggleHandler,
};

#[test]
fn default_hotkey_is_ctrl_space() {
    assert_eq!(
        Hotkey::default_toggle(),
        Hotkey {
            modifiers: vec![Modifier::Ctrl],
            key: Key::Space
        }
    );
    assert_eq!(Hotkey::default_toggle().to_string(), "Ctrl+Space");
}

#[test]
fn parses_ctrl_space_case_insensitively_with_spaces() {
    for text in [
        "Ctrl+Space",
        "ctrl+space",
        " CTRL + SPACE ",
        "Control+Space",
    ] {
        assert_eq!(
            Hotkey::parse(text).unwrap(),
            Hotkey::default_toggle(),
            "{text:?}"
        );
    }
}

#[test]
fn parses_multiple_modifiers_letters_and_function_keys() {
    assert_eq!(
        Hotkey::parse("ctrl+alt+r").unwrap(),
        Hotkey {
            modifiers: vec![Modifier::Ctrl, Modifier::Alt],
            key: Key::Letter('R')
        }
    );
    assert_eq!(
        Hotkey::parse("Super+Shift+F9").unwrap(),
        Hotkey {
            modifiers: vec![Modifier::Super, Modifier::Shift],
            key: Key::Function(9)
        }
    );
}

#[test]
fn rejects_hotkeys_without_a_key_or_with_unknown_tokens() {
    for text in ["", "Ctrl", "Ctrl+", "Ctrl+Bogus", "Space+Ctrl+Space", "F99"] {
        assert!(
            matches!(Hotkey::parse(text), Err(HotkeyError::Parse(_))),
            "{text:?} should be rejected"
        );
    }
}

#[test]
fn debouncer_accepts_first_press_and_rejects_immediate_repeat() {
    let mut d = Debouncer::new(Duration::from_millis(250));
    let t0 = Instant::now();

    assert!(d.accept(t0));
    assert!(!d.accept(t0 + Duration::from_millis(100)));
    assert!(!d.accept(t0 + Duration::from_millis(249)));
}

#[test]
fn debouncer_accepts_press_after_window_measured_from_last_accepted() {
    let mut d = Debouncer::new(Duration::from_millis(250));
    let t0 = Instant::now();
    d.accept(t0);
    d.accept(t0 + Duration::from_millis(200)); // rejected, must not extend the window

    assert!(d.accept(t0 + Duration::from_millis(250)));
}

#[test]
fn parse_error_keeps_the_text_as_written() {
    assert_eq!(
        Hotkey::parse(" Ctrl+Nope "),
        Err(HotkeyError::Parse(" Ctrl+Nope ".to_string()))
    );
}

#[test]
fn all_modifier_spellings_letters_and_function_key_bounds() {
    let h = Hotkey::parse("option+win+cmd+meta+shift+z").unwrap();
    assert_eq!(
        h.modifiers,
        vec![
            Modifier::Alt,
            Modifier::Super,
            Modifier::Super,
            Modifier::Super,
            Modifier::Shift
        ]
    );
    assert_eq!(h.key, Key::Letter('Z'));
    assert_eq!(Hotkey::parse("F1").unwrap().key, Key::Function(1));
    assert_eq!(Hotkey::parse("f24").unwrap().key, Key::Function(24));
    assert_eq!(Hotkey::parse("F09").unwrap().key, Key::Function(9));
    assert!(Hotkey::parse("F0").is_err());
    assert!(Hotkey::parse("F25").is_err());
    assert!(Hotkey::parse("F300").is_err());
    assert!(Hotkey::parse("Ctrl+é").is_err());
    assert!(Hotkey::parse("Ctrl+Space+").is_err());
    // A lone "f" is the letter F, not a function key.
    assert_eq!(Hotkey::parse("f").unwrap().key, Key::Letter('F'));
}

#[test]
fn displayed_hotkeys_parse_back_to_themselves() {
    for h in [
        Hotkey::default_toggle(),
        Hotkey {
            modifiers: vec![Modifier::Super, Modifier::Shift],
            key: Key::Function(9),
        },
        Hotkey {
            modifiers: vec![Modifier::Ctrl, Modifier::Alt],
            key: Key::Letter('R'),
        },
        Hotkey {
            modifiers: vec![],
            key: Key::Function(24),
        },
    ] {
        let text = h.to_string();
        assert_eq!(Hotkey::parse(&text).unwrap(), h, "{text}");
    }
    assert_eq!(
        Hotkey {
            modifiers: vec![Modifier::Super, Modifier::Shift],
            key: Key::Function(12)
        }
        .to_string(),
        "Super+Shift+F12"
    );
}

#[test]
fn portal_trigger_uses_the_portal_names() {
    assert_eq!(portal_trigger(&Hotkey::default_toggle()), "CTRL+space");
    assert_eq!(
        portal_trigger(&Hotkey {
            modifiers: vec![Modifier::Super, Modifier::Alt, Modifier::Shift],
            key: Key::Letter('R')
        }),
        "LOGO+ALT+SHIFT+r"
    );
    assert_eq!(
        portal_trigger(&Hotkey {
            modifiers: vec![],
            key: Key::Function(11)
        }),
        "F11"
    );
}

#[test]
fn only_our_portal_shortcut_toggles() {
    assert!(activation_toggles(PORTAL_SHORTCUT_ID));
    assert!(activation_toggles("toggle-voice-input"));
    assert!(!activation_toggles("toggle-voice-input-2"));
    assert!(!activation_toggles(""));
}

#[test]
fn hotkey_errors_read_as_the_log_shows_them() {
    assert_eq!(
        HotkeyError::Parse("Ctrl+Banana".to_owned()).message(),
        "unrecognised hotkey \"Ctrl+Banana\""
    );
    assert_eq!(
        HotkeyError::Parse("say \"hi\"\n".to_owned()).message(),
        "unrecognised hotkey \"say \\\"hi\\\"\\n\""
    );
    assert_eq!(
        HotkeyError::Register("Ctrl+Space".to_owned(), "taken".to_owned()).message(),
        "could not register global hotkey Ctrl+Space: taken"
    );
    assert_eq!(
        HotkeyError::Unsupported("no portal".to_owned()).message(),
        "global hotkeys are not supported here: no portal"
    );
}

struct CountPresses(Arc<AtomicUsize>);

impl ToggleHandler for CountPresses {
    fn toggled(&self) {
        self.0.fetch_add(1, Ordering::SeqCst);
    }
}

#[test]
fn registration_failure_is_reported_not_swallowed() {
    let mut provider = FakeHotkeyProvider::failing();

    let result = provider.register(
        &Hotkey::default_toggle(),
        Box::new(CountPresses(Arc::new(AtomicUsize::new(0)))),
    );

    assert!(matches!(result, Err(HotkeyError::Register(_, _))));
    assert!(!provider.press());
}

#[test]
fn a_registered_hotkey_calls_its_handler_on_every_press() {
    let presses = Arc::new(AtomicUsize::new(0));
    let mut provider = FakeHotkeyProvider::new();
    assert!(!provider.press());
    provider
        .register(
            &Hotkey::default_toggle(),
            Box::new(CountPresses(Arc::clone(&presses))),
        )
        .unwrap();
    assert!(provider.press());
    assert!(provider.press());
    assert_eq!(presses.load(Ordering::SeqCst), 2);
}
