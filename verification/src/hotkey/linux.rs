//! Linux: the trigger format of the XDG desktop portal `GlobalShortcuts`
//! interface, which Wayland desktops use for global shortcuts.

use super::roundtrip::{lemma_decimal, lemma_decimal_no_leading_zero};
use super::{all_digits, digits_value, key_text, Hotkey, Key, Modifier};
use crate::text::{ascii_lower, decimal, lower_char, push_char, push_decimal, push_str, str_eq};
use vstd::prelude::*;

verus! {

/// The id under which the toggle shortcut is bound at the portal.
pub const PORTAL_SHORTCUT_ID: &'static str = "toggle-voice-input";

/// How the portal describes the toggle shortcut to the user.
pub const PORTAL_SHORTCUT_DESCRIPTION: &'static str = "Toggle voice input (start / stop recording)";

/// Whether a shortcut activation that the portal reports is the toggle:
/// only the shortcut bound under our id toggles.
pub fn activation_toggles(shortcut_id: &str) -> (r: bool)
    ensures
        r == (shortcut_id@ == PORTAL_SHORTCUT_ID@),
{
    str_eq(shortcut_id, PORTAL_SHORTCUT_ID)
}

pub open spec fn portal_modifier(m: Modifier) -> Seq<char> {
    match m {
        Modifier::Ctrl => "CTRL"@,
        Modifier::Alt => "ALT"@,
        Modifier::Shift => "SHIFT"@,
        Modifier::Super => "LOGO"@,
    }
}

pub open spec fn portal_key(k: Key) -> Seq<char> {
    match k {
        Key::Space => "space"@,
        Key::Letter(c) => seq![lower_char(c)],
        Key::Function(n) => seq!['F'] + decimal(n as nat),
    }
}

/// The portal writes a function key as `F` and its number in decimal, with
/// no leading zero: the digits read back as the number, and they are the
/// ones the hotkey's own text shows.
pub proof fn portal_function_keys_are_f_and_their_number(n: u8)
    requires
        n >= 1,
    ensures
        portal_key(Key::Function(n)).len() >= 2,
        portal_key(Key::Function(n))[0] == 'F',
        portal_key(Key::Function(n))[1] != '0',
        all_digits(portal_key(Key::Function(n)).skip(1)),
        digits_value(portal_key(Key::Function(n)).skip(1)) == n,
        portal_key(Key::Function(n)) == key_text(Key::Function(n)),
{
    lemma_decimal(n as nat);
    lemma_decimal_no_leading_zero(n as nat);
    assert(portal_key(Key::Function(n)).skip(1) =~= decimal(n as nat));
}

/// Every modifier's portal name followed by `+`, in order.
pub open spec fn portal_modifiers(mods: Seq<Modifier>) -> Seq<char>
    decreases mods.len(),
{
    if mods.len() == 0 {
        Seq::<char>::empty()
    } else {
        portal_modifiers(mods.drop_last()) + portal_modifier(mods.last()) + "+"@
    }
}

/// Trigger string in the format the portal expects ("CTRL+space"): the
/// modifiers, then the key, joined by `+`.
pub fn portal_trigger(hotkey: &Hotkey) -> (r: String)
    ensures
        r@ == portal_modifiers(hotkey.modifiers@) + portal_key(hotkey.key),
        hotkey.key is Function && hotkey.key->Function_0 >= 1 ==> r@.len() >= key_text(hotkey.key).len()
            && r@.subrange(r@.len() - key_text(hotkey.key).len(), r@.len() as int) == key_text(
            hotkey.key,
        ),
{
    let mut r = String::new();
    let mut i: usize = 0;
    while i < hotkey.modifiers.len()
        invariant
            i <= hotkey.modifiers.len(),
            r@ == portal_modifiers(hotkey.modifiers@.take(i as int)),
        decreases hotkey.modifiers.len() - i,
    {
        match hotkey.modifiers[i] {
            Modifier::Ctrl => push_str(&mut r, "CTRL"),
            Modifier::Alt => push_str(&mut r, "ALT"),
            Modifier::Shift => push_str(&mut r, "SHIFT"),
            Modifier::Super => push_str(&mut r, "LOGO"),
        }
        push_str(&mut r, "+");
        assert(hotkey.modifiers@.take(i + 1).drop_last() =~= hotkey.modifiers@.take(i as int));
        i = i + 1;
    }
    assert(hotkey.modifiers@.take(hotkey.modifiers@.len() as int) =~= hotkey.modifiers@);
    match hotkey.key {
        Key::Space => push_str(&mut r, "space"),
        Key::Letter(c) => push_char(&mut r, ascii_lower(c)),
        Key::Function(n) => {
            push_char(&mut r, 'F');
            push_decimal(&mut r, n as u64);
        },
    }
    assert(r@ =~= portal_modifiers(hotkey.modifiers@) + portal_key(hotkey.key));
    proof {
        if let Key::Function(n) = hotkey.key {
            if n >= 1 {
                portal_function_keys_are_f_and_their_number(n);
                assert(r@.subrange(r@.len() - key_text(hotkey.key).len(), r@.len() as int)
                    =~= portal_key(hotkey.key));
            }
        }
    }
    r
}

} // verus!
