use voice_input::input::windows::{unicode_inputs, KeyStroke};
use voice_input::input::x11::keycode_for_keysym;
use voice_input::input::{
    copied_instead, wayland_step, InputError, WaylandStep, NO_NATIVE_INJECTION,
    WAYLAND_WITHOUT_HELPERS,
};

use KeyStroke::{ReturnDown, ReturnUp, UnicodeDown, UnicodeUp};

#[test]
fn text_is_typed_unit_by_unit_with_enter_for_line_breaks() {
    assert_eq!(
        unicode_inputs("a\r\nb"),
        vec![
            UnicodeDown(0x61),
            UnicodeUp(0x61),
            ReturnDown,
            ReturnUp,
            UnicodeDown(0x62),
            UnicodeUp(0x62)
        ]
    );
    assert_eq!(unicode_inputs("\n"), vec![ReturnDown, ReturnUp]);
    // A carriage return not followed by a line feed is typed as it is.
    assert_eq!(unicode_inputs("\r"), vec![UnicodeDown(0x0D), UnicodeUp(0x0D)]);
    assert!(unicode_inputs("").is_empty());
}

#[test]
fn characters_outside_the_basic_plane_become_surrogate_pairs() {
    assert_eq!(
        unicode_inputs("😀"),
        vec![
            UnicodeDown(0xD83D),
            UnicodeUp(0xD83D),
            UnicodeDown(0xDE00),
            UnicodeUp(0xDE00)
        ]
    );
    assert_eq!(
        unicode_inputs("あ"),
        vec![UnicodeDown(0x3042), UnicodeUp(0x3042)]
    );
}

#[test]
fn wayland_tries_wtype_then_ydotool_then_the_clipboard() {
    assert_eq!(
        wayland_step(WaylandStep::RunWtype, Some(Ok(()))),
        WaylandStep::Finished(Ok(()))
    );
    assert_eq!(
        wayland_step(
            WaylandStep::RunWtype,
            Some(Err(InputError::Failed("wtype exited with 1".into())))
        ),
        WaylandStep::RunYdotool
    );
    assert_eq!(
        wayland_step(WaylandStep::RunWtype, None),
        WaylandStep::RunYdotool
    );
    let failed = Err(InputError::Failed("ydotool exited with 1".into()));
    assert_eq!(
        wayland_step(WaylandStep::RunYdotool, Some(failed.clone())),
        WaylandStep::Finished(failed)
    );
    assert_eq!(
        wayland_step(WaylandStep::RunYdotool, None),
        WaylandStep::CopyToClipboard
    );
    assert_eq!(
        wayland_step(WaylandStep::CopyToClipboard, Some(Ok(()))),
        WaylandStep::Finished(Err(InputError::Unsupported(
            WAYLAND_WITHOUT_HELPERS.to_string()
        )))
    );
    assert_eq!(
        wayland_step(
            WaylandStep::CopyToClipboard,
            Some(Err(InputError::Failed("no clipboard".into())))
        ),
        WaylandStep::Finished(Err(InputError::Failed("no clipboard".into())))
    );
}

#[test]
fn copying_instead_of_typing_is_reported_as_unsupported() {
    assert_eq!(
        copied_instead(Ok(()), NO_NATIVE_INJECTION),
        Err(InputError::Unsupported(
            "no native text injection on this platform; text copied to clipboard".into()
        ))
    );
    assert_eq!(
        copied_instead(Err(InputError::Failed("x".into())), NO_NATIVE_INJECTION),
        Err(InputError::Failed("x".into()))
    );
}

#[test]
fn the_first_keycode_with_the_keysym_wins() {
    // Two keysyms per keycode, keycodes from 8 on.
    let mapping = [0x10, 0x11, 0x76, 0x56, 0xffe3, 0x0, 0x76, 0x0];
    assert_eq!(keycode_for_keysym(8, 2, &mapping, 0x76), Some(9));
    assert_eq!(keycode_for_keysym(8, 2, &mapping, 0xffe3), Some(10));
    assert_eq!(keycode_for_keysym(8, 2, &mapping, 0x11), Some(8));
    assert_eq!(keycode_for_keysym(8, 2, &mapping, 0x99), None);
    assert_eq!(keycode_for_keysym(8, 3, &mapping, 0x0), Some(9));
}

#[test]
fn input_error_messages() {
    assert_eq!(
        InputError::Failed("no focus".into()).message(),
        "text injection failed: no focus"
    );
    assert_eq!(
        InputError::Unsupported("wayland".into()).message(),
        "text injection is not supported on this display server: wayland"
    );
}
