//! Windows: the text is typed as Unicode key events, one key-down/up pair
//! per UTF-16 unit, with Enter for each line break. This module computes
//! that sequence; the program hands it to `SendInput`.

use crate::text::chars_of;
use vstd::prelude::*;

verus! {

/// One synthetic key event.
#[derive(Debug, Clone, Copy, PartialEq, Eq, Structural)]
pub enum KeyStroke {
    /// Key-down of a UTF-16 code unit typed as a Unicode character.
    UnicodeDown(u16),
    /// Key-up of a UTF-16 code unit typed as a Unicode character.
    UnicodeUp(u16),
    ReturnDown,
    ReturnUp,
}

/// The UTF-16 encoding of one character.
pub open spec fn utf16_units(c: char) -> Seq<u16> {
    let u = c as u32;
    if u < 0x10000 {
        seq![u as u16]
    } else {
        let v = (u - 0x10000) as nat;
        seq![(0xD800 + v / 0x400) as u16, (0xDC00 + v % 0x400) as u16]
    }
}

/// A key-down/up pair for every unit, in order.
pub open spec fn unit_strokes(units: Seq<u16>) -> Seq<KeyStroke>
    decreases units.len(),
{
    if units.len() == 0 {
        seq![]
    } else {
        unit_strokes(units.drop_last()) + seq![
            KeyStroke::UnicodeDown(units.last()),
            KeyStroke::UnicodeUp(units.last()),
        ]
    }
}

/// The strokes for the character at `i`: a line feed is Enter, a carriage
/// return right before a line feed is dropped (so `\r\n` is one Enter), any
/// other character is typed unit by unit.
pub open spec fn char_strokes(s: Seq<char>, i: int) -> Seq<KeyStroke> {
    if s[i] == '\n' {
        seq![KeyStroke::ReturnDown, KeyStroke::ReturnUp]
    } else if s[i] == '\r' && i + 1 < s.len() && s[i + 1] == '\n' {
        seq![]
    } else {
        unit_strokes(utf16_units(s[i]))
    }
}

/// The strokes for the first `n` characters of `s`.
pub open spec fn strokes_upto(s: Seq<char>, n: int) -> Seq<KeyStroke>
    decreases n,
{
    if n <= 0 {
        seq![]
    } else {
        strokes_upto(s, n - 1) + char_strokes(s, n - 1)
    }
}

/// Whether UTF-16 units encode the character `c`: a single unit outside the
/// surrogate range equal to its code point, or a high surrogate then a low
/// surrogate that together carry the code point's offset past U+FFFF.
pub open spec fn utf16_decodes_to(units: Seq<u16>, c: char) -> bool {
    ||| units.len() == 1 && !(0xD800 <= units[0] && units[0] <= 0xDFFF) && units[0] as u32
        == c as u32
    ||| units.len() == 2 && 0xD800 <= units[0] && units[0] <= 0xDBFF && 0xDC00 <= units[1]
        && units[1] <= 0xDFFF && 0x10000 + (units[0] - 0xD800) * 0x400 + (units[1] - 0xDC00)
        == c as u32
}

/// The units typed for a character decode back to that character: below
/// U+10000 the one unit is the code point itself, above it a surrogate pair.
pub proof fn typed_units_decode_to_the_character(c: char)
    ensures
        utf16_decodes_to(utf16_units(c), c),
        (c as u32) < 0x10000 <==> utf16_units(c).len() == 1,
{
    let u = c as u32;
    if u < 0x10000 {
        assert(!(0xD800 <= u && u <= 0xDFFF));
        assert((u as u16) as u32 == u);
    } else {
        let v = (u - 0x10000) as nat;
        assert(v < 0x100000);
        let hi = v / 0x400;
        let lo = v % 0x400;
        assert(hi < 0x400);
        assert(v == hi * 0x400 + lo);
        let units = utf16_units(c);
        assert(units[0] as int == 0xD800 + hi);
        assert(units[1] as int == 0xDC00 + lo);
    }
}

/// Each unit is typed as one key-down and then one key-up of that unit, in
/// order, and nothing else.
pub proof fn each_unit_is_one_key_press(units: Seq<u16>)
    ensures
        unit_strokes(units).len() == 2 * units.len(),
        forall|k: int|
            0 <= k < units.len() ==> #[trigger] unit_strokes(units)[2 * k] == KeyStroke::UnicodeDown(
                units[k],
            ) && unit_strokes(units)[2 * k + 1] == KeyStroke::UnicodeUp(units[k]),
    decreases units.len(),
{
    if units.len() > 0 {
        let init = units.drop_last();
        each_unit_is_one_key_press(init);
        assert forall|k: int| 0 <= k < units.len() implies #[trigger] unit_strokes(units)[2 * k]
            == KeyStroke::UnicodeDown(units[k]) && unit_strokes(units)[2 * k + 1]
            == KeyStroke::UnicodeUp(units[k]) by {
            if k < init.len() {
                assert(unit_strokes(init)[2 * k] == KeyStroke::UnicodeDown(init[k]));
                assert(init[k] == units[k]);
            }
        }
    }
}

fn push_unit(out: &mut Vec<KeyStroke>, unit: u16)
    ensures
        final(out)@ == old(out)@ + seq![KeyStroke::UnicodeDown(unit), KeyStroke::UnicodeUp(unit)],
{
    out.push(KeyStroke::UnicodeDown(unit));
    out.push(KeyStroke::UnicodeUp(unit));
    assert(final(out)@ =~= old(out)@ + seq![
        KeyStroke::UnicodeDown(unit),
        KeyStroke::UnicodeUp(unit),
    ]);
}

/// The key events that type `text`, in order.
pub fn unicode_inputs(text: &str) -> (r: Vec<KeyStroke>)
    ensures
        r@ == strokes_upto(text@, text@.len() as int),
{
    let chars = chars_of(text);
    let n = chars.len();
    let mut out: Vec<KeyStroke> = Vec::new();
    let mut i: usize = 0;
    while i < n
        invariant
            n == chars.len(),
            chars@ == text@,
            i <= n,
            out@ == strokes_upto(text@, i as int),
        decreases n - i,
    {
        let c = chars[i];
        let ghost before = out@;
        if c == '\n' {
            out.push(KeyStroke::ReturnDown);
            out.push(KeyStroke::ReturnUp);
            assert(out@ =~= before + char_strokes(text@, i as int));
        } else if c == '\r' && i + 1 < n && chars[i + 1] == '\n' {
            assert(out@ =~= before + char_strokes(text@, i as int));
        } else {
            let u = c as u32;
            assert(c == text@[i as int]);
            assert(char_strokes(text@, i as int) == unit_strokes(utf16_units(c)));
            if u < 0x10000 {
                push_unit(&mut out, u as u16);
                let ghost units = utf16_units(c);
                assert(units =~= seq![u as u16]);
                assert(units.drop_last() =~= Seq::<u16>::empty());
                assert(unit_strokes(units) == unit_strokes(units.drop_last()) + seq![
                    KeyStroke::UnicodeDown(units.last()),
                    KeyStroke::UnicodeUp(units.last()),
                ]);
                assert(out@ =~= before + char_strokes(text@, i as int));
            } else {
                proof {
                    vstd::utf8::char_is_scalar(c);
                }
                assert(u <= 0x10FFFF);
                let v = u - 0x10000;
                assert(v / 0x400 < 0x400 && v % 0x400 < 0x400);
                let hi = (0xD800 + v / 0x400) as u16;
                let lo = (0xDC00 + v % 0x400) as u16;
                push_unit(&mut out, hi);
                push_unit(&mut out, lo);
                let ghost units = utf16_units(c);
                assert(units =~= seq![hi, lo]);
                assert(units.drop_last() =~= seq![hi]);
                assert(units.drop_last().drop_last() =~= Seq::<u16>::empty());
                assert(unit_strokes(units.drop_last()) == unit_strokes(
                    units.drop_last().drop_last(),
                ) + seq![KeyStroke::UnicodeDown(hi), KeyStroke::UnicodeUp(hi)]);
                assert(unit_strokes(units) == unit_strokes(units.drop_last()) + seq![
                    KeyStroke::UnicodeDown(lo),
                    KeyStroke::UnicodeUp(lo),
                ]);
                assert(out@ =~= before + char_strokes(text@, i as int));
            }
        }
        i = i + 1;
    }
    out
}

} // verus!
