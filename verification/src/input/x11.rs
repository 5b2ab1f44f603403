//! X11: finding the keycode that produces a keysym, from the keyboard
//! mapping the X server reports (XTEST sends keycodes, not keysyms).

use vstd::prelude::*;

verus! {

/// `keysym` first occurs at index `j` of `keysyms`.
pub open spec fn first_occurrence(keysyms: Seq<u32>, keysym: u32, j: int) -> bool {
    0 <= j < keysyms.len() && keysyms[j] == keysym && forall|k: int|
        0 <= k < j ==> #[trigger] keysyms[k] != keysym
}

/// The keycode whose keysyms include `keysym`. The mapping lists `per`
/// keysyms for each keycode, starting at keycode `min`; the first keycode
/// whose group holds the keysym wins.
pub fn keycode_for_keysym(min: u8, per: u8, keysyms: &[u32], keysym: u32) -> (r: Option<u8>)
    requires
        per > 0,
        keysyms@.len() == 0 || min + (keysyms@.len() - 1) / (per as int) <= 255,
    ensures
        match r {
            Some(code) => exists|j: int|
                first_occurrence(keysyms@, keysym, j) && code == min + j / (per as int),
            None => forall|k: int| 0 <= k < keysyms@.len() ==> #[trigger] keysyms@[k] != keysym,
        },
{
    let mut j: usize = 0;
    while j < keysyms.len()
        invariant
            per > 0,
            keysyms@.len() == 0 || min + (keysyms@.len() - 1) / (per as int) <= 255,
            j <= keysyms@.len(),
            forall|k: int| 0 <= k < j ==> #[trigger] keysyms@[k] != keysym,
        decreases keysyms.len() - j,
    {
        if keysyms[j] == keysym {
            let group = j / (per as usize);
            assert(group <= (keysyms@.len() - 1) / (per as int)) by (nonlinear_arith)
                requires
                    j < keysyms@.len(),
                    per > 0,
                    group as int == (j as int) / (per as int),
            ;
            let code = min + group as u8;
            assert(first_occurrence(keysyms@, keysym, j as int));
            return Some(code);
        }
        j = j + 1;
    }
    None
}

} // verus!
