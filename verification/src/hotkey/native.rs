//! The shortcut that the `global-hotkey` crate registers for a `Hotkey`
//! on X11 and Windows.

use crate::hotkey::{hotkey_text, Hotkey, HotkeyError, Key, Modifier};
use crate::text::{ascii_upper, decimal, push_char, push_decimal, push_str, upper_char};
use global_hotkey::hotkey::{Code, HotKey, Modifiers};
use std::str::FromStr;
use vstd::prelude::*;

verus! {

#[verifier::external_type_specification]
#[verifier::external_body]
pub struct ExCode(Code);

#[verifier::external_type_specification]
#[verifier::external_body]
pub struct ExModifiers(Modifiers);

#[verifier::external_type_specification]
#[verifier::external_body]
pub struct ExHotKey(HotKey);

/// The name under which `Code` knows the key: `Space`, `Key` and the
/// upper-case letter, or `F` and the number.
pub open spec fn native_key_name(k: Key) -> Seq<char> {
    match k {
        Key::Space => "Space"@,
        Key::Letter(c) => "Key"@.push(upper_char(c)),
        Key::Function(n) => seq!['F'] + decimal(n as nat),
    }
}

/// What `Code::from_str` makes of a key name: the key it names, or `None`
/// where it names none.
pub uninterp spec fn code_named(name: Seq<char>) -> Option<Code>;

/// Which of the four hotkey modifiers a set of modifier flags holds.
pub uninterp spec fn modifiers_held(m: Modifiers) -> Set<Modifier>;

/// What `HotKey::new(Some(mods), key)` returns.
pub uninterp spec fn hotkey_made(mods: Modifiers, key: Code) -> HotKey;

/// `Modifiers::empty()`: no flag set.
#[verifier::external_body]
fn no_modifiers() -> (r: Modifiers)
    ensures
        modifiers_held(r) == Set::<Modifier>::empty(),
{
    Modifiers::empty()
}

/// The flag of one modifier: `Ctrl` is `Modifiers::CONTROL`, the others
/// carry their own names. Each constant is a single flag of its own.
#[verifier::external_body]
fn modifier_flag(m: Modifier) -> (r: Modifiers)
    ensures
        modifiers_held(r) == set![m],
{
    match m {
        Modifier::Ctrl => Modifiers::CONTROL,
        Modifier::Alt => Modifiers::ALT,
        Modifier::Shift => Modifiers::SHIFT,
        Modifier::Super => Modifiers::SUPER,
    }
}

/// `Modifiers |= flag`: the union of the two sets of flags.
#[verifier::external_body]
fn add_flags(mods: &mut Modifiers, flag: Modifiers)
    ensures
        modifiers_held(*final(mods)) == modifiers_held(*old(mods)).union(modifiers_held(flag)),
{
    *mods |= flag;
}

/// `Code::from_str`, with its error dropped.
#[verifier::external_body]
fn parse_code(name: &str) -> (r: Option<Code>)
    ensures
        r == code_named(name@),
{
    Code::from_str(name).ok()
}

/// `HotKey::new(Some(mods), key)`.
#[verifier::external_body]
fn new_hotkey(mods: Modifiers, key: Code) -> (r: HotKey)
    ensures
        r == hotkey_made(mods, key),
{
    HotKey::new(Some(mods), key)
}

/// The flags of every modifier in `mods`, and of no other.
fn native_modifiers(mods: &Vec<Modifier>) -> (r: Modifiers)
    ensures
        modifiers_held(r) == mods@.to_set(),
{
    let mut r = no_modifiers();
    let mut i: usize = 0;
    while i < mods.len()
        invariant
            i <= mods.len(),
            modifiers_held(r) == mods@.take(i as int).to_set(),
        decreases mods.len() - i,
    {
        let flag = modifier_flag(mods[i]);
        add_flags(&mut r, flag);
        assert(mods@.take(i + 1).to_set() =~= mods@.take(i as int).to_set().insert(mods@[i as int]))
            by {
            assert(mods@.take(i + 1) =~= mods@.take(i as int).push(mods@[i as int]));
            mods@.take(i as int).lemma_push_to_set_commute(mods@[i as int]);
        }
        i = i + 1;
    }
    assert(mods@.take(mods.len() as int) =~= mods@);
    r
}

/// The key name that `Code::from_str` is given for `k`.
fn key_name(k: Key) -> (r: String)
    ensures
        r@ == native_key_name(k),
{
    let mut r = String::new();
    match k {
        Key::Space => push_str(&mut r, "Space"),
        Key::Letter(c) => {
            push_str(&mut r, "Key");
            push_char(&mut r, ascii_upper(c));
        },
        Key::Function(n) => {
            push_char(&mut r, 'F');
            push_decimal(&mut r, n as u64);
        },
    }
    proof {
        reveal_strlit("Space");
        reveal_strlit("Key");
    }
    r
}

/// The shortcut that the native backends register for `hotkey`: its
/// modifiers' flags, and the key that `Code` knows under the key's name.
/// Where `Code` knows no such key, fails with `Parse` and the hotkey as it
/// is written.
pub fn to_native(hotkey: &Hotkey) -> (r: Result<HotKey, HotkeyError>)
    ensures
        match r {
            Ok(h) => {
                &&& code_named(native_key_name(hotkey.key)) is Some
                &&& exists|m: Modifiers|
                    modifiers_held(m) == hotkey.modifiers@.to_set() && h == hotkey_made(
                        m,
                        code_named(native_key_name(hotkey.key))->0,
                    )
            },
            Err(e) => {
                &&& code_named(native_key_name(hotkey.key)) is None
                &&& e matches HotkeyError::Parse(s) && s@ == hotkey_text(
                    hotkey.modifiers@,
                    hotkey.key,
                )
            },
        },
{
    let mods = native_modifiers(&hotkey.modifiers);
    let name = key_name(hotkey.key);
    match parse_code(name.as_str()) {
        Some(code) => Ok(new_hotkey(mods, code)),
        None => Err(HotkeyError::Parse(hotkey.to_string())),
    }
}

} // verus!
