//! What the configured values mean once the program starts: the hotkey,
//! the provider, and the two spans of time it runs with.

use crate::clock::{duration_from_millis, duration_new, duration_of};
use crate::hotkey::{parse_hotkey, Hotkey, HotkeyError, Key, Modifier};
use crate::text::str_eq;
use std::time::Duration;
use vstd::prelude::*;

verus! {

/// The one transcription provider there is.
pub const OPENAI_PROVIDER: &'static str = "openai";

/// Presses of the hotkey closer than this to the last accepted one are
/// ignored, in milliseconds.
pub const HOTKEY_DEBOUNCE_MILLIS: u64 = 250;

/// The toggle hotkey: the configured one, or Ctrl+Space together with the
/// reason the configured text was refused.
pub fn configured_hotkey(text: &str) -> (r: (Hotkey, Option<HotkeyError>))
    ensures
        match parse_hotkey(text@) {
            Some((mods, key)) => r.0.modifiers@ == mods && r.0.key == key && r.1 is None,
            None => {
                &&& r.0.modifiers@ == seq![Modifier::Ctrl]
                &&& r.0.key == Key::Space
                &&& r.1 matches Some(HotkeyError::Parse(s)) && s@ == text@
            },
        },
{
    match Hotkey::parse(text) {
        Ok(h) => (h, None),
        Err(e) => (Hotkey::default_toggle(), Some(e)),
    }
}

/// Whether the configuration names a provider there is; any other name
/// falls back to OpenAI.
pub fn is_known_provider(name: &str) -> (r: bool)
    ensures
        r == (name@ == OPENAI_PROVIDER@),
{
    str_eq(name, OPENAI_PROVIDER)
}

/// How long the Error state stays on screen: the configured seconds, and
/// at least one second.
pub fn error_display_time(secs: u64) -> (d: Duration)
    ensures
        d == duration_of(if secs < 1 { 1 } else { secs }, 0),
{
    let secs = if secs < 1 { 1 } else { secs };
    duration_new(secs, 0)
}

/// The hotkey's debounce window: a quarter of a second.
pub fn hotkey_debounce() -> (d: Duration)
    ensures
        d == duration_of(0, 250_000_000),
{
    duration_from_millis(HOTKEY_DEBOUNCE_MILLIS)
}

} // verus!
