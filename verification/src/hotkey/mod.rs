//! Global hotkey. The pure helpers (parsing, display, debouncing) live
//! here; the OS adapters implement `HotkeyProvider` outside the library.

pub mod linux;
pub mod native;
mod roundtrip;

pub use roundtrip::{key_is_writable, parse_reads_back_the_displayed_hotkey};




use crate::clock::{
    duration_of, duration_shorter, elapsed_between, instant_plus, shorter_than, time_between,
};
use crate::text::{
    chars_eq, chars_of, debug_quoted, decimal, lower_chars, lower_seq, owned, push_char,
    push_decimal, push_str, quoted, trim, trim_chars, upper_char,
};
use std::time::{Duration, Instant};
use vstd::prelude::*;

verus! {

#[derive(Debug, PartialEq, Eq)]
pub enum HotkeyError {
    Parse(String),
    Register(String, String),
    Unsupported(String),
}

impl Clone for HotkeyError {
    fn clone(&self) -> (r: Self)
        ensures
            r == *self,
    {
        match self {
            HotkeyError::Parse(s) => HotkeyError::Parse(s.clone()),
            HotkeyError::Register(a, b) => HotkeyError::Register(a.clone(), b.clone()),
            HotkeyError::Unsupported(s) => HotkeyError::Unsupported(s.clone()),
        }
    }
}

/// The human-readable text of a hotkey error.
pub open spec fn hotkey_error_text(e: HotkeyError) -> Seq<char> {
    match e {
        HotkeyError::Parse(text) => "unrecognised hotkey "@ + debug_quoted(text@),
        HotkeyError::Register(hotkey, why) => "could not register global hotkey "@ + hotkey@
            + ": "@ + why@,
        HotkeyError::Unsupported(why) => "global hotkeys are not supported here: "@ + why@,
    }
}

impl HotkeyError {
    /// The human-readable message of this error; a refused hotkey text is
    /// quoted as `{:?}` writes it.
    pub fn message(&self) -> (r: String)
        ensures
            r@ == hotkey_error_text(*self),
    {
        match self {
            HotkeyError::Parse(text) => {
                let mut r = owned("unrecognised hotkey ");
                let q = quoted(text.as_str());
                push_str(&mut r, q.as_str());
                r
            },
            HotkeyError::Register(hotkey, why) => {
                let mut r = owned("could not register global hotkey ");
                push_str(&mut r, hotkey.as_str());
                push_str(&mut r, ": ");
                push_str(&mut r, why.as_str());
                r
            },
            HotkeyError::Unsupported(why) => {
                let mut r = owned("global hotkeys are not supported here: ");
                push_str(&mut r, why.as_str());
                r
            },
        }
    }
}

#[derive(Debug, Clone, Copy, PartialEq, Eq, Hash, Structural)]
pub enum Modifier {
    Ctrl,
    Alt,
    Shift,
    Super,
}

#[derive(Debug, Clone, Copy, PartialEq, Eq, Hash, Structural)]
pub enum Key {
    Space,
    /// A single letter, stored upper-case.
    Letter(char),
    /// Function key F1..F24.
    Function(u8),
}

/// What a registered hotkey calls each time it fires.
pub trait ToggleHandler: Send + Sync {
    fn toggled(&self);
}

/// Registers a toggle hotkey and calls `on_toggle` each time it fires.
///
/// The registration lives exactly as long as the provider: dropping it
/// unregisters the hotkey, so the caller must keep it alive.
pub trait HotkeyProvider {
    fn register(&mut self, hotkey: &Hotkey, on_toggle: Box<dyn ToggleHandler>) -> Result<
        (),
        HotkeyError,
    >;
}

/// A modifier combination plus one key, e.g. `Ctrl+Space`.
#[derive(Debug, Clone, PartialEq, Eq, Hash)]
pub struct Hotkey {
    pub modifiers: Vec<Modifier>,
    pub key: Key,
}

/// What one `+`-separated part of a hotkey text means.
#[derive(Debug, Clone, Copy, PartialEq, Eq, Structural)]
pub enum Token {
    Mod(Modifier),
    KeyName(Key),
    Unknown,
}

/// The parts of `s` between `+` signs, as `str::split('+')` yields them:
/// one more part than there are `+` signs, empty parts included.
pub open spec fn split_plus(s: Seq<char>) -> Seq<Seq<char>>
    decreases s.len(),
{
    if s.len() == 0 {
        seq![Seq::<char>::empty()]
    } else {
        let prev = split_plus(s.drop_last());
        if s.last() == '+' {
            prev.push(Seq::<char>::empty())
        } else {
            prev.update(prev.len() - 1, prev.last().push(s.last()))
        }
    }
}

pub open spec fn is_digit(c: char) -> bool {
    '0' <= c && c <= '9'
}

pub open spec fn all_digits(s: Seq<char>) -> bool {
    forall|i: int| 0 <= i < s.len() ==> is_digit(#[trigger] s[i])
}

/// The number that a run of decimal digits writes.
pub open spec fn digits_value(s: Seq<char>) -> nat
    decreases s.len(),
{
    if s.len() == 0 {
        0
    } else {
        digits_value(s.drop_last()) * 10 + ((s.last() as u32) - ('0' as u32)) as nat
    }
}

/// The meaning of one part, already trimmed and lower-cased.
pub open spec fn token_meaning(t: Seq<char>) -> Token {
    if t == "ctrl"@ || t == "control"@ {
        Token::Mod(Modifier::Ctrl)
    } else if t == "alt"@ || t == "option"@ {
        Token::Mod(Modifier::Alt)
    } else if t == "shift"@ {
        Token::Mod(Modifier::Shift)
    } else if t == "super"@ || t == "win"@ || t == "cmd"@ || t == "meta"@ {
        Token::Mod(Modifier::Super)
    } else if t == "space"@ {
        Token::KeyName(Key::Space)
    } else if t.len() == 1 && 'a' <= t[0] && t[0] <= 'z' {
        Token::KeyName(Key::Letter(upper_char(t[0])))
    } else if t.len() >= 2 && t[0] == 'f' && all_digits(t.skip(1)) && 1 <= digits_value(t.skip(1))
        <= 24 {
        Token::KeyName(Key::Function(digits_value(t.skip(1)) as u8))
    } else {
        Token::Unknown
    }
}

/// One part as the parser reads it: whitespace trimmed, ASCII lower-cased.
pub open spec fn normalize(t: Seq<char>) -> Seq<char> {
    lower_seq(trim(t))
}

/// Reading one more part after the modifiers `mods` and the key `key` read
/// so far. Nothing may follow the key.
pub open spec fn read_token(mods: Seq<Modifier>, key: Option<Key>, t: Seq<char>) -> Option<
    (Seq<Modifier>, Option<Key>),
> {
    if key is Some {
        None
    } else {
        match token_meaning(normalize(t)) {
            Token::Mod(m) => Some((mods.push(m), None)),
            Token::KeyName(k) => Some((mods, Some(k))),
            Token::Unknown => None,
        }
    }
}

/// Reading parts left to right; `None` once a part is rejected.
pub open spec fn read_tokens(ts: Seq<Seq<char>>) -> Option<(Seq<Modifier>, Option<Key>)>
    decreases ts.len(),
{
    if ts.len() == 0 {
        Some((Seq::<Modifier>::empty(), None))
    } else {
        match read_tokens(ts.drop_last()) {
            None => None,
            Some((mods, key)) => read_token(mods, key, ts.last()),
        }
    }
}

/// The hotkey a text describes, if any: its modifiers in order and its key.
pub open spec fn parse_hotkey(text: Seq<char>) -> Option<(Seq<Modifier>, Key)> {
    match read_tokens(split_plus(text)) {
        Some((mods, Some(key))) => Some((mods, key)),
        _ => None,
    }
}

pub open spec fn modifier_name(m: Modifier) -> Seq<char> {
    match m {
        Modifier::Ctrl => "Ctrl"@,
        Modifier::Alt => "Alt"@,
        Modifier::Shift => "Shift"@,
        Modifier::Super => "Super"@,
    }
}

pub open spec fn key_text(k: Key) -> Seq<char> {
    match k {
        Key::Space => "Space"@,
        Key::Letter(c) => seq![c],
        Key::Function(n) => seq!['F'] + decimal(n as nat),
    }
}

/// Every modifier's name followed by `+`, in order.
pub open spec fn modifiers_text(mods: Seq<Modifier>) -> Seq<char>
    decreases mods.len(),
{
    if mods.len() == 0 {
        Seq::<char>::empty()
    } else {
        modifiers_text(mods.drop_last()) + modifier_name(mods.last()) + "+"@
    }
}

/// How a hotkey is written, e.g. `Ctrl+Space`, `Super+Shift+F9`.
pub open spec fn hotkey_text(mods: Seq<Modifier>, key: Key) -> Seq<char> {
    modifiers_text(mods) + key_text(key)
}

/// The meaning of one trimmed, lower-cased part.
pub fn classify_token(t: &Vec<char>) -> (r: Token)
    ensures
        r == token_meaning(t@),
{
    if chars_eq(t, &chars_of("ctrl")) || chars_eq(t, &chars_of("control")) {
        Token::Mod(Modifier::Ctrl)
    } else if chars_eq(t, &chars_of("alt")) || chars_eq(t, &chars_of("option")) {
        Token::Mod(Modifier::Alt)
    } else if chars_eq(t, &chars_of("shift")) {
        Token::Mod(Modifier::Shift)
    } else if chars_eq(t, &chars_of("super")) || chars_eq(t, &chars_of("win")) || chars_eq(
        t,
        &chars_of("cmd"),
    ) || chars_eq(t, &chars_of("meta")) {
        Token::Mod(Modifier::Super)
    } else if chars_eq(t, &chars_of("space")) {
        Token::KeyName(Key::Space)
    } else if t.len() == 1 && 'a' <= t[0] && t[0] <= 'z' {
        Token::KeyName(Key::Letter(crate::text::ascii_upper(t[0])))
    } else if t.len() >= 2 && t[0] == 'f' {
        function_key(t)
    } else {
        Token::Unknown
    }
}

/// `digits_value`, saturated at 25 (enough to tell F1..F24 from the rest).
pub open spec fn capped(n: nat) -> nat {
    if n > 24 {
        25
    } else {
        n
    }
}

/// Reads `f<number>` as a function key F1..F24.
fn function_key(t: &Vec<char>) -> (r: Token)
    requires
        t@.len() >= 2,
        t@[0] == 'f',
    ensures
        r == (if all_digits(t@.skip(1)) && 1 <= digits_value(t@.skip(1)) <= 24 {
            Token::KeyName(Key::Function(digits_value(t@.skip(1)) as u8))
        } else {
            Token::Unknown
        }),
{
    let mut value: u64 = 0;
    let mut i: usize = 1;
    while i < t.len()
        invariant
            1 <= i <= t.len(),
            all_digits(t@.subrange(1, i as int)),
            value == capped(digits_value(t@.subrange(1, i as int))),
        decreases t.len() - i,
    {
        let c = t[i];
        let ghost prev = t@.subrange(1, i as int);
        let ghost next = t@.subrange(1, i + 1);
        assert(next.drop_last() =~= prev);
        if !('0' <= c && c <= '9') {
            assert(!all_digits(t@.skip(1))) by {
                assert(t@.skip(1)[i - 1] == c);
            }
            return Token::Unknown;
        }
        let d = (c as u32 - '0' as u32) as u64;
        if value > 24 {
            value = 25;
        } else {
            value = value * 10 + d;
            if value > 24 {
                value = 25;
            }
        }
        i = i + 1;
        assert(all_digits(next)) by {
            assert forall|j: int| 0 <= j < next.len() implies is_digit(#[trigger] next[j]) by {
                if j < prev.len() {
                    assert(next[j] == prev[j]);
                }
            }
        }
    }
    assert(t@.subrange(1, t@.len() as int) =~= t@.skip(1));
    if 1 <= value && value <= 24 {
        Token::KeyName(Key::Function(value as u8))
    } else {
        Token::Unknown
    }
}

/// Reads one more part: the part-by-part step of [`Hotkey::parse`].
fn read_part(mods: &mut Vec<Modifier>, key: &mut Option<Key>, ok: &mut bool, part: &Vec<char>)
    ensures
        !*old(ok) ==> !*final(ok),
        *old(ok) ==> (*final(ok) <==> read_token(old(mods)@, *old(key), part@) is Some),
        *old(ok) && *final(ok) ==> read_token(old(mods)@, *old(key), part@) == Some(
            (final(mods)@, *final(key)),
        ),
{
    if !*ok {
        return;
    }
    if key.is_some() {
        *ok = false;
        return;
    }
    let normal = lower_chars(&trim_chars(part));
    match classify_token(&normal) {
        Token::Mod(m) => {
            mods.push(m);
        },
        Token::KeyName(k) => {
            *key = Some(k);
        },
        Token::Unknown => {
            *ok = false;
        },
    }
}

proof fn lemma_split_plus_nonempty(s: Seq<char>)
    ensures
        split_plus(s).len() >= 1,
    decreases s.len(),
{
    if s.len() > 0 {
        lemma_split_plus_nonempty(s.drop_last());
    }
}

impl Hotkey {
    /// The default toggle: Ctrl+Space.
    pub fn default_toggle() -> (r: Self)
        ensures
            r.modifiers@ == seq![Modifier::Ctrl],
            r.key == Key::Space,
    {
        let mut modifiers: Vec<Modifier> = Vec::new();
        modifiers.push(Modifier::Ctrl);
        Hotkey { modifiers, key: Key::Space }
    }

    /// Parses `"Ctrl+Space"`, `"ctrl+alt+r"`, `"Super+F9"`: `+`-separated
    /// parts, each trimmed and read case-insensitively; any number of
    /// modifiers, then exactly one key, and nothing after it.
    pub fn parse(text: &str) -> (r: Result<Self, HotkeyError>)
        ensures
            match r {
                Ok(h) => parse_hotkey(text@) == Some((h.modifiers@, h.key)),
                Err(e) => parse_hotkey(text@) is None && (e matches HotkeyError::Parse(s)
                    && s@ == text@),
            },
    {
        let chars = chars_of(text);
        let mut mods: Vec<Modifier> = Vec::new();
        let mut key: Option<Key> = None;
        let mut ok = true;
        let mut part: Vec<char> = Vec::new();
        let ghost mut done: Seq<Seq<char>> = Seq::empty();
        let mut i: usize = 0;
        assert(chars@.take(0) =~= Seq::<char>::empty());
        while i < chars.len()
            invariant
                i <= chars.len(),
                split_plus(chars@.take(i as int)) == done.push(part@),
                ok ==> read_tokens(done) == Some((mods@, key)),
                !ok ==> read_tokens(done) is None,
            decreases chars.len() - i,
        {
            let c = chars[i];
            let ghost before = chars@.take(i as int);
            assert(chars@.take(i + 1).drop_last() =~= before);
            assert(chars@.take(i + 1).last() == c);
            if c == '+' {
                let ghost old_ok = ok;
                read_part(&mut mods, &mut key, &mut ok, &part);
                proof {
                    let nd = done.push(part@);
                    assert(nd.drop_last() =~= done);
                    done = nd;
                }
                part = Vec::new();
                assert(split_plus(chars@.take(i + 1)) =~= done.push(part@));
            } else {
                part.push(c);
                assert(split_plus(chars@.take(i + 1)) =~= done.push(part@));
            }
            i = i + 1;
        }
        read_part(&mut mods, &mut key, &mut ok, &part);
        proof {
            let nd = done.push(part@);
            assert(nd.drop_last() =~= done);
            assert(chars@.take(chars@.len() as int) =~= chars@);
        }
        if ok {
            match key {
                Some(k) => {
                    return Ok(Hotkey { modifiers: mods, key: k });
                },
                None => {},
            }
        }
        Err(HotkeyError::Parse(owned(text)))
    }

    /// How this hotkey is written: `Ctrl+Space`, `Super+Shift+F9`, `Ctrl+R`.
    pub fn to_string(&self) -> (r: String)
        ensures
            r@ == hotkey_text(self.modifiers@, self.key),
    {
        let mut r = String::new();
        let mut i: usize = 0;
        while i < self.modifiers.len()
            invariant
                i <= self.modifiers.len(),
                r@ == modifiers_text(self.modifiers@.take(i as int)),
            decreases self.modifiers.len() - i,
        {
            let ghost before = r@;
            match self.modifiers[i] {
                Modifier::Ctrl => push_str(&mut r, "Ctrl"),
                Modifier::Alt => push_str(&mut r, "Alt"),
                Modifier::Shift => push_str(&mut r, "Shift"),
                Modifier::Super => push_str(&mut r, "Super"),
            }
            push_str(&mut r, "+");
            assert(self.modifiers@.take(i + 1).drop_last() =~= self.modifiers@.take(i as int));
            i = i + 1;
        }
        assert(self.modifiers@.take(self.modifiers@.len() as int) =~= self.modifiers@);
        let ghost mods_part = r@;
        match self.key {
            Key::Space => push_str(&mut r, "Space"),
            Key::Letter(c) => push_char(&mut r, c),
            Key::Function(n) => {
                push_char(&mut r, 'F');
                push_decimal(&mut r, n as u64);
            },
        }
        assert(r@ =~= hotkey_text(self.modifiers@, self.key));
        r
    }
}

/// Drops repeated presses that arrive within `window` of the last accepted
/// press (key auto-repeat, bouncing keyboards, duplicate OS events).
#[derive(Debug)]
pub struct Debouncer {
    window: Duration,
    last_accepted: Option<Instant>,
}

impl Debouncer {
    /// The instant of the last accepted press, if any.
    pub closed spec fn last_accepted_at(&self) -> Option<Instant> {
        self.last_accepted
    }

    pub closed spec fn window_length(&self) -> Duration {
        self.window
    }

    pub fn new(window: Duration) -> (r: Self)
        ensures
            r.window_length() == window,
            r.last_accepted_at() is None,
    {
        Debouncer { window, last_accepted: None }
    }

    /// Returns `true` if the press at `now` should be acted upon: the first
    /// press always is, a later one only when at least `window` has passed
    /// since the last accepted press. A rejected press does not move the
    /// window.
    pub fn accept(&mut self, now: Instant) -> (r: bool)
        ensures
            r == match old(self).last_accepted_at() {
                Some(last) => !shorter_than(time_between(now, last), old(self).window_length()),
                None => true,
            },
            old(self).last_accepted_at() matches Some(last) ==> forall|
                d: Duration,
                s1: u64,
                n1: u32,
                s2: u64,
                n2: u32,
            |
                #![trigger instant_plus(last, d), duration_of(s1, n1), duration_of(s2, n2)]
                instant_plus(last, d) == Some(now) && d == duration_of(s1, n1)
                    && old(self).window_length() == duration_of(s2, n2) && n1 < 1_000_000_000
                    && n2 < 1_000_000_000 ==> (r <==> !(s1 < s2 || (s1 == s2 && n1 < n2))),
            r ==> final(self).last_accepted_at() == Some(now),
            !r ==> final(self).last_accepted_at() == old(self).last_accepted_at(),
            final(self).window_length() == old(self).window_length(),
    {
        let too_soon = match self.last_accepted {
            Some(last) => duration_shorter(elapsed_between(now, last), self.window),
            None => false,
        };
        if too_soon {
            return false;
        }
        self.last_accepted = Some(now);
        true
    }
}

} // verus!
