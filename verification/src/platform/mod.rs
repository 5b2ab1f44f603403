//! Chooses the OS adapters. The detection logic lives here; the adapters
//! themselves are constructed by the program.

use crate::hotkey::HotkeyError;
use crate::text::{chars_eq, chars_of, lower_chars, lower_seq, owned};
use vstd::prelude::*;

verus! {

#[derive(Debug, Clone, Copy, PartialEq, Eq, Structural)]
pub enum DisplayServer {
    Wayland,
    X11,
    Unknown,
}

pub const XDG_SESSION_TYPE: &'static str = "XDG_SESSION_TYPE";

pub const WAYLAND_DISPLAY: &'static str = "WAYLAND_DISPLAY";

pub const DISPLAY: &'static str = "DISPLAY";

/// A variable counts as set when it is present and not empty.
pub open spec fn is_set(v: Option<String>) -> bool {
    v matches Some(s) && s@.len() > 0
}

/// What `XDG_SESSION_TYPE` says on its own (compared case-insensitively).
pub open spec fn session_says(v: Option<String>) -> Option<DisplayServer> {
    match v {
        Some(s) => if lower_seq(s@) == "wayland"@ {
            Some(DisplayServer::Wayland)
        } else if lower_seq(s@) == "x11"@ {
            Some(DisplayServer::X11)
        } else {
            None
        },
        None => None,
    }
}

/// `XDG_SESSION_TYPE` wins; then `WAYLAND_DISPLAY`; then `DISPLAY`.
pub open spec fn display_server_from(
    session_type: Option<String>,
    wayland_display: Option<String>,
    display: Option<String>,
) -> DisplayServer {
    match session_says(session_type) {
        Some(server) => server,
        None => if is_set(wayland_display) {
            DisplayServer::Wayland
        } else if is_set(display) {
            DisplayServer::X11
        } else {
            DisplayServer::Unknown
        },
    }
}

/// Only a session type of "wayland" or "x11" (in any case) decides on its
/// own; any other value counts as if it were absent, and then a non-empty
/// `WAYLAND_DISPLAY` means Wayland, else a non-empty `DISPLAY` means X11,
/// else nothing is known.
pub proof fn only_wayland_or_x11_sessions_decide(
    session_type: Option<String>,
    wayland_display: Option<String>,
    display: Option<String>,
)
    ensures
        session_type matches Some(s) && lower_seq(s@) == "wayland"@ ==> display_server_from(
            session_type,
            wayland_display,
            display,
        ) == DisplayServer::Wayland,
        session_type matches Some(s) && lower_seq(s@) == "x11"@ ==> display_server_from(
            session_type,
            wayland_display,
            display,
        ) == DisplayServer::X11,
        !(session_type matches Some(s) && (lower_seq(s@) == "wayland"@ || lower_seq(s@)
            == "x11"@)) ==> display_server_from(session_type, wayland_display, display)
            == display_server_from(None, wayland_display, display),
        !(session_type matches Some(s) && (lower_seq(s@) == "wayland"@ || lower_seq(s@)
            == "x11"@)) ==> display_server_from(session_type, wayland_display, display) == if (
        wayland_display matches Some(w) && w@.len() > 0) {
            DisplayServer::Wayland
        } else if (display matches Some(d) && d@.len() > 0) {
            DisplayServer::X11
        } else {
            DisplayServer::Unknown
        },
{
    reveal_strlit("wayland");
    reveal_strlit("x11");
    assert("x11"@.len() != "wayland"@.len());
}

fn is_set_value(v: &Option<String>) -> (r: bool)
    ensures
        r == is_set(*v),
{
    match v {
        Some(s) => !s.as_str().is_empty(),
        None => false,
    }
}

/// Decides Wayland vs X11 from the session environment, read through
/// `env`: `XDG_SESSION_TYPE` wins; then `WAYLAND_DISPLAY`; then `DISPLAY`.
/// A variable is only read when the ones before it did not decide.
pub fn detect_display_server<E: Fn(&str) -> Option<String>>(env: E) -> (r: DisplayServer)
    requires
        env.requires((XDG_SESSION_TYPE,)),
        env.requires((WAYLAND_DISPLAY,)),
        env.requires((DISPLAY,)),
    ensures
        exists|s: Option<String>, w: Option<String>, d: Option<String>|
            {
                &&& call_ensures(env, (XDG_SESSION_TYPE,), s)
                &&& session_says(s) is None ==> call_ensures(env, (WAYLAND_DISPLAY,), w)
                &&& session_says(s) is None && !is_set(w) ==> call_ensures(env, (DISPLAY,), d)
                &&& r == display_server_from(s, w, d)
            },
{
    let session = env(XDG_SESSION_TYPE);
    let said = match &session {
        Some(v) => {
            let lower = lower_chars(&chars_of(v.as_str()));
            if chars_eq(&lower, &chars_of("wayland")) {
                Some(DisplayServer::Wayland)
            } else if chars_eq(&lower, &chars_of("x11")) {
                Some(DisplayServer::X11)
            } else {
                None
            }
        },
        None => None,
    };
    match said {
        Some(server) => {
            let ghost w: Option<String> = None;
            let ghost d: Option<String> = None;
            assert(display_server_from(session, w, d) == server);
            return server;
        },
        None => {},
    }
    let wayland = env(WAYLAND_DISPLAY);
    if is_set_value(&wayland) {
        let ghost d: Option<String> = None;
        assert(display_server_from(session, wayland, d) == DisplayServer::Wayland);
        return DisplayServer::Wayland;
    }
    let display = env(DISPLAY);
    let r = if is_set_value(&display) {
        DisplayServer::X11
    } else {
        DisplayServer::Unknown
    };
    assert(display_server_from(session, wayland, display) == r);
    r
}

/// Which global-hotkey mechanism serves a display server on Linux.
#[derive(Debug, Clone, Copy, PartialEq, Eq, Structural)]
pub enum HotkeyBackend {
    /// The XDG desktop portal `GlobalShortcuts` interface.
    Portal,
    /// Key grabs through the X server.
    Native,
}

/// The hotkey mechanism for a display server, or why there is none.
pub fn hotkey_backend(server: DisplayServer) -> (r: Result<HotkeyBackend, HotkeyError>)
    ensures
        server == DisplayServer::Wayland ==> r == Ok::<HotkeyBackend, HotkeyError>(
            HotkeyBackend::Portal,
        ),
        server == DisplayServer::X11 ==> r == Ok::<HotkeyBackend, HotkeyError>(
            HotkeyBackend::Native,
        ),
        server == DisplayServer::Unknown ==> (r matches Err(HotkeyError::Unsupported(m)) && m@
            == "neither WAYLAND_DISPLAY nor DISPLAY is set"@),
{
    match server {
        DisplayServer::Wayland => Ok(HotkeyBackend::Portal),
        DisplayServer::X11 => Ok(HotkeyBackend::Native),
        DisplayServer::Unknown => Err(
            HotkeyError::Unsupported(owned("neither WAYLAND_DISPLAY nor DISPLAY is set")),
        ),
    }
}

/// Which text injector serves a display server on Linux.
#[derive(Debug, Clone, Copy, PartialEq, Eq, Structural)]
pub enum InjectorBackend {
    Wayland,
    X11,
}

/// Wayland gets the Wayland injector; everything else the X11 one.
pub fn injector_backend(server: DisplayServer) -> (r: InjectorBackend)
    ensures
        r == (if server == DisplayServer::Wayland {
            InjectorBackend::Wayland
        } else {
            InjectorBackend::X11
        }),
{
    match server {
        DisplayServer::Wayland => InjectorBackend::Wayland,
        _ => InjectorBackend::X11,
    }
}

} // verus!
