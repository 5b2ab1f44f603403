use voice_input::hotkey::HotkeyError;
use voice_input::platform::{
    detect_display_server, hotkey_backend, injector_backend, DisplayServer, HotkeyBackend,
    InjectorBackend,
};

fn env<'a>(pairs: &'a [(&'a str, &'a str)]) -> impl Fn(&str) -> Option<String> + 'a {
    move |name| {
        pairs
            .iter()
            .find(|(k, _)| *k == name)
            .map(|(_, v)| (*v).to_owned())
    }
}

#[test]
fn xdg_session_type_is_authoritative() {
    assert_eq!(
        detect_display_server(env(&[("XDG_SESSION_TYPE", "wayland"), ("DISPLAY", ":0")])),
        DisplayServer::Wayland
    );
    assert_eq!(
        detect_display_server(env(&[
            ("XDG_SESSION_TYPE", "x11"),
            ("WAYLAND_DISPLAY", "wayland-0")
        ])),
        DisplayServer::X11
    );
}

#[test]
fn wayland_display_beats_display_when_session_type_is_missing() {
    assert_eq!(
        detect_display_server(env(&[("WAYLAND_DISPLAY", "wayland-0"), ("DISPLAY", ":0")])),
        DisplayServer::Wayland
    );
    assert_eq!(
        detect_display_server(env(&[("DISPLAY", ":0")])),
        DisplayServer::X11
    );
}

#[test]
fn nothing_set_is_unknown() {
    assert_eq!(detect_display_server(env(&[])), DisplayServer::Unknown);
    assert_eq!(
        detect_display_server(env(&[("XDG_SESSION_TYPE", "tty")])),
        DisplayServer::Unknown
    );
}

#[test]
fn session_type_is_case_insensitive_and_empty_variables_do_not_count() {
    assert_eq!(
        detect_display_server(env(&[("XDG_SESSION_TYPE", "Wayland")])),
        DisplayServer::Wayland
    );
    assert_eq!(
        detect_display_server(env(&[("WAYLAND_DISPLAY", ""), ("DISPLAY", ":1")])),
        DisplayServer::X11
    );
    assert_eq!(
        detect_display_server(env(&[("WAYLAND_DISPLAY", ""), ("DISPLAY", "")])),
        DisplayServer::Unknown
    );
}

#[test]
fn backends_follow_the_display_server() {
    assert_eq!(hotkey_backend(DisplayServer::Wayland), Ok(HotkeyBackend::Portal));
    assert_eq!(hotkey_backend(DisplayServer::X11), Ok(HotkeyBackend::Native));
    assert_eq!(
        hotkey_backend(DisplayServer::Unknown),
        Err(HotkeyError::Unsupported(
            "neither WAYLAND_DISPLAY nor DISPLAY is set".to_string()
        ))
    );
    assert_eq!(injector_backend(DisplayServer::Wayland), InjectorBackend::Wayland);
    assert_eq!(injector_backend(DisplayServer::X11), InjectorBackend::X11);
    assert_eq!(injector_backend(DisplayServer::Unknown), InjectorBackend::X11);
}
