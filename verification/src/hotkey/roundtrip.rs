//! Parsing what `Hotkey::to_string` writes gives the same hotkey back.

use super::{
    all_digits, digits_value, hotkey_text, is_digit, key_text, lemma_split_plus_nonempty,
    modifier_name, modifiers_text, normalize, read_tokens, split_plus, token_meaning, Key,
    Modifier, Token, parse_hotkey,
};
use crate::text::{decimal, digit, is_ws, lower_char, lower_seq, trim, trim_end, trim_start, upper_char};
use vstd::prelude::*;

verus! {

pub open spec fn no_plus(t: Seq<char>) -> bool {
    forall|i: int| 0 <= i < t.len() ==> #[trigger] t[i] != '+'
}

/// A key that `to_string` writes in a form `parse` reads back.
pub open spec fn key_is_writable(k: Key) -> bool {
    match k {
        Key::Space => true,
        Key::Letter(c) => 'A' <= c && c <= 'Z',
        Key::Function(n) => 1 <= n && n <= 24,
    }
}

proof fn lemma_split_append(s: Seq<char>, t: Seq<char>)
    requires
        no_plus(t),
    ensures
        split_plus(s + t) == split_plus(s).update(
            split_plus(s).len() - 1,
            split_plus(s).last() + t,
        ),
    decreases t.len(),
{
    lemma_split_plus_nonempty(s);
    let p = split_plus(s);
    if t.len() == 0 {
        assert(s + t =~= s);
        assert(p.last() + t =~= p.last());
        assert(p.update(p.len() - 1, p.last() + t) =~= p);
    } else {
        let t2 = t.drop_last();
        assert(no_plus(t2)) by {
            assert forall|i: int| 0 <= i < t2.len() implies #[trigger] t2[i] != '+' by {
                assert(t2[i] == t[i]);
            }
        }
        lemma_split_append(s, t2);
        assert((s + t).drop_last() =~= s + t2);
        assert((s + t).last() == t.last());
        assert(t.last() != '+') by {
            assert(t[t.len() - 1] != '+');
        }
        let q = split_plus(s + t2);
        assert(q.len() == p.len());
        assert((p.last() + t2).push(t.last()) =~= p.last() + t);
        assert(q.update(q.len() - 1, q.last().push(t.last())) =~= p.update(
            p.len() - 1,
            p.last() + t,
        ));
    }
}

proof fn lemma_split_then_plus(s: Seq<char>)
    ensures
        split_plus(s + "+"@) == split_plus(s).push(Seq::<char>::empty()),
{
    reveal_strlit("+");
    assert((s + "+"@).drop_last() =~= s);
    assert((s + "+"@).last() == '+');
}

proof fn lemma_modifier_name(m: Modifier)
    ensures
        no_plus(modifier_name(m)),
        token_meaning(normalize(modifier_name(m))) == Token::Mod(m),
{
    reveal_strlit("Ctrl");
    reveal_strlit("Alt");
    reveal_strlit("Shift");
    reveal_strlit("Super");
    reveal_strlit("ctrl");
    reveal_strlit("control");
    reveal_strlit("alt");
    reveal_strlit("option");
    reveal_strlit("shift");
    reveal_strlit("super");
    let n = modifier_name(m);
    lemma_trim_plain(n);
    match m {
        Modifier::Ctrl => {
            assert(lower_seq(n) =~= "ctrl"@);
        },
        Modifier::Alt => {
            assert(lower_seq(n) =~= "alt"@);
        },
        Modifier::Shift => {
            assert(lower_seq(n) =~= "shift"@);
        },
        Modifier::Super => {
            assert(lower_seq(n) =~= "super"@);
        },
    }
}

/// Text that neither starts nor ends with whitespace is its own trim.
proof fn lemma_trim_plain(s: Seq<char>)
    requires
        s.len() > 0,
        !is_ws(s[0]),
        !is_ws(s.last()),
    ensures
        trim(s) == s,
{
    assert(trim_start(s) == s);
    assert(trim_end(s) == s);
}

pub(crate) proof fn lemma_digit(d: nat)
    requires
        d < 10,
    ensures
        (digit(d) as u32) == ('0' as u32) + d,
        is_digit(digit(d)),
{
    assert(((('0' as u32) + d) as char) as u32 == ('0' as u32) + d);
}

/// The decimal digits of a positive number start with a nonzero digit.
pub(crate) proof fn lemma_decimal_no_leading_zero(n: nat)
    requires
        n >= 1,
    ensures
        decimal(n).len() >= 1,
        decimal(n)[0] != '0',
    decreases n,
{
    if n < 10 {
        lemma_digit(n);
    } else {
        lemma_decimal_no_leading_zero(n / 10);
        assert(decimal(n)[0] == decimal(n / 10)[0]);
    }
}

pub(crate) proof fn lemma_decimal(n: nat)
    ensures
        all_digits(decimal(n)),
        digits_value(decimal(n)) == n,
        decimal(n).len() >= 1,
        n < 100 ==> decimal(n).len() <= 2,
        forall|i: int| 0 <= i < decimal(n).len() ==> !is_ws(#[trigger] decimal(n)[i]) && decimal(
            n,
        )[i] != '+' && lower_char(decimal(n)[i]) == decimal(n)[i],
    decreases n,
{
    lemma_digit(n % 10);
    if n < 10 {
        assert(decimal(n) == seq![digit(n)]);
        assert(decimal(n).drop_last() =~= Seq::<char>::empty());
        assert(digits_value(Seq::<char>::empty()) == 0);
        assert(digits_value(decimal(n)) == digits_value(decimal(n).drop_last()) * 10 + ((
        decimal(n).last() as u32) - ('0' as u32)) as nat);
    } else {
        lemma_decimal(n / 10);
        let d = decimal(n);
        assert(d.drop_last() =~= decimal(n / 10));
        assert(d.last() == digit(n % 10));
        assert(digits_value(d) == digits_value(d.drop_last()) * 10 + ((d.last() as u32) - ('0' as u32)) as nat);
        assert(n == (n / 10) * 10 + n % 10);
        assert(all_digits(d)) by {
            assert forall|i: int| 0 <= i < d.len() implies is_digit(#[trigger] d[i]) by {
                if i < d.len() - 1 {
                    assert(d[i] == decimal(n / 10)[i]);
                }
            }
        }
        assert forall|i: int| 0 <= i < d.len() implies !is_ws(#[trigger] d[i]) && d[i] != '+'
            && lower_char(d[i]) == d[i] by {
            if i < d.len() - 1 {
                assert(d[i] == decimal(n / 10)[i]);
            }
        }
    }
}

proof fn lemma_key_text(k: Key)
    requires
        key_is_writable(k),
    ensures
        no_plus(key_text(k)),
        token_meaning(normalize(key_text(k))) == Token::KeyName(k),
{
    reveal_strlit("Space");
    reveal_strlit("space");
    reveal_strlit("ctrl");
    reveal_strlit("control");
    reveal_strlit("alt");
    reveal_strlit("option");
    reveal_strlit("shift");
    reveal_strlit("super");
    reveal_strlit("win");
    reveal_strlit("cmd");
    reveal_strlit("meta");
    let t = key_text(k);
    match k {
        Key::Space => {
            lemma_trim_plain(t);
            assert(lower_seq(t) =~= "space"@);
        },
        Key::Letter(c) => {
            lemma_trim_plain(t);
            let l = lower_seq(t);
            assert(l =~= seq![lower_char(c)]);
            assert(upper_char(lower_char(c)) == c);
        },
        Key::Function(n) => {
            lemma_decimal(n as nat);
            let d = decimal(n as nat);
            assert(t.last() == d.last());
            lemma_trim_plain(t);
            let l = lower_seq(t);
            assert(l =~= seq!['f'] + d) by {
                assert forall|i: int| 1 <= i < t.len() implies t[i] == d[i - 1] by {}
            }
            assert(l.skip(1) =~= d);
            assert(l[0] == 'f');
            assert(no_plus(t)) by {
                assert forall|i: int| 0 <= i < t.len() implies #[trigger] t[i] != '+' by {
                    if i > 0 {
                        assert(t[i] == d[i - 1]);
                    }
                }
            }
        },
    }
}

/// The parts of the modifier prefix are the modifier names, then an empty
/// part where the key will go.
proof fn lemma_split_modifiers(mods: Seq<Modifier>)
    ensures
        split_plus(modifiers_text(mods)) == mods.map_values(|m: Modifier| modifier_name(m)).push(
            Seq::<char>::empty(),
        ),
    decreases mods.len(),
{
    let names = mods.map_values(|m: Modifier| modifier_name(m));
    if mods.len() == 0 {
        assert(modifiers_text(mods) =~= Seq::<char>::empty());
        assert(names.push(Seq::<char>::empty()) =~= seq![Seq::<char>::empty()]);
    } else {
        let init = mods.drop_last();
        let m = mods.last();
        lemma_split_modifiers(init);
        lemma_modifier_name(m);
        let prefix = modifiers_text(init);
        lemma_split_append(prefix, modifier_name(m));
        lemma_split_then_plus(prefix + modifier_name(m));
        let init_names = init.map_values(|m: Modifier| modifier_name(m));
        assert(init_names.push(Seq::<char>::empty()).update(
            init_names.len() as int,
            Seq::<char>::empty() + modifier_name(m),
        ) =~= names);
    }
}

proof fn lemma_read_modifiers(mods: Seq<Modifier>)
    ensures
        read_tokens(mods.map_values(|m: Modifier| modifier_name(m))) == Some(
            (mods, Option::<Key>::None),
        ),
    decreases mods.len(),
{
    let names = mods.map_values(|m: Modifier| modifier_name(m));
    if mods.len() > 0 {
        let init = mods.drop_last();
        lemma_read_modifiers(init);
        lemma_modifier_name(mods.last());
        assert(names.drop_last() =~= init.map_values(|m: Modifier| modifier_name(m)));
        assert(init.push(mods.last()) =~= mods);
    }
}

/// Parsing the text of a hotkey gives the same hotkey back, for every key
/// that is written in a parsable form (an upper-case ASCII letter, F1..F24,
/// or Space) and any modifiers.
pub proof fn parse_reads_back_the_displayed_hotkey(mods: Seq<Modifier>, key: Key)
    requires
        key_is_writable(key),
    ensures
        parse_hotkey(hotkey_text(mods, key)) == Some((mods, key)),
{
    let names = mods.map_values(|m: Modifier| modifier_name(m));
    lemma_split_modifiers(mods);
    lemma_key_text(key);
    lemma_split_append(modifiers_text(mods), key_text(key));
    let parts = split_plus(hotkey_text(mods, key));
    assert(parts =~= names.push(key_text(key))) by {
        assert(names.push(Seq::<char>::empty()).update(
            names.len() as int,
            Seq::<char>::empty() + key_text(key),
        ) =~= names.push(key_text(key)));
    }
    lemma_read_modifiers(mods);
    assert(parts.drop_last() =~= names);
}

} // verus!
