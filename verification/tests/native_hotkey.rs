use global_hotkey::hotkey::{Code, HotKey, Modifiers};
use voice_input::hotkey::native::to_native;
use voice_input::hotkey::{Hotkey, HotkeyError, Key, Modifier};

#[test]
fn ctrl_space_becomes_control_with_the_space_code() {
    let native = to_native(&Hotkey::default_toggle()).unwrap();
    assert_eq!(native, HotKey::new(Some(Modifiers::CONTROL), Code::Space));
}

#[test]
fn every_modifier_maps_to_its_flag() {
    let hotkey = Hotkey {
        modifiers: vec![
            Modifier::Super,
            Modifier::Shift,
            Modifier::Alt,
            Modifier::Ctrl,
        ],
        key: Key::Letter('V'),
    };
    let expected = HotKey::new(
        Some(Modifiers::SUPER | Modifiers::SHIFT | Modifiers::ALT | Modifiers::CONTROL),
        Code::KeyV,
    );
    assert_eq!(to_native(&hotkey).unwrap(), expected);
}

#[test]
fn letters_are_upper_cased_into_key_codes() {
    let hotkey = Hotkey {
        modifiers: vec![Modifier::Alt],
        key: Key::Letter('q'),
    };
    assert_eq!(
        to_native(&hotkey).unwrap(),
        HotKey::new(Some(Modifiers::ALT), Code::KeyQ)
    );
}

#[test]
fn function_keys_keep_their_number() {
    for (n, code) in [(1u8, Code::F1), (9, Code::F9), (12, Code::F12), (24, Code::F24)] {
        let hotkey = Hotkey {
            modifiers: vec![],
            key: Key::Function(n),
        };
        assert_eq!(to_native(&hotkey).unwrap(), HotKey::new(None, code));
    }
}

#[test]
fn a_key_without_a_code_is_a_parse_error_naming_the_hotkey() {
    let hotkey = Hotkey {
        modifiers: vec![Modifier::Ctrl],
        key: Key::Letter('1'),
    };
    assert_eq!(
        to_native(&hotkey),
        Err(HotkeyError::Parse("Ctrl+1".to_owned()))
    );
}
