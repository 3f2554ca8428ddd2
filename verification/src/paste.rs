//! Pasting text into a single-line field: control characters are dropped
//! and the rest goes in at the cursor, replacing the selection.
use vstd::prelude::*;
use crate::text_edit::{Selection, after_selection_removed, delete_selection, insert_char, string_push, min_nat, spec_normalized_selection};

verus! {

/// A control character (general category Cc): U+0000 to U+001F and
/// U+007F to U+009F.
pub open spec fn is_control_char(c: char) -> bool {
    (c as u32) <= 0x1f || (0x7f <= (c as u32) && (c as u32) <= 0x9f)
}

/// Whether `c` is a control character, as `char::is_control` decides.
pub fn is_control(c: char) -> (r: bool)
    ensures
        r == is_control_char(c),
{
    let n = c as u32;
    n <= 0x1f || (0x7f <= n && n <= 0x9f)
}

/// A pasted character is kept: it is no control character, and no space
/// where spaces are dropped.
pub open spec fn kept_char(c: char, drop_spaces: bool) -> bool {
    !is_control_char(c) && !(drop_spaces && c == ' ')
}

/// The characters of `s` that a paste keeps, in order.
pub open spec fn pasted_chars(s: Seq<char>, drop_spaces: bool) -> Seq<char>
    decreases s.len(),
{
    if s.len() == 0 {
        Seq::empty()
    } else {
        pasted_chars(s.drop_last(), drop_spaces) + if kept_char(s.last(), drop_spaces) {
            seq![s.last()]
        } else {
            Seq::empty()
        }
    }
}

proof fn lemma_pasted_chars_len(s: Seq<char>, drop_spaces: bool)
    ensures
        pasted_chars(s, drop_spaces).len() <= s.len(),
    decreases s.len(),
{
    if s.len() > 0 {
        lemma_pasted_chars_len(s.drop_last(), drop_spaces);
    }
}

/// The pasted text without control characters (and without spaces when
/// `drop_spaces`).
pub fn filter_pasted(pasted: &str, drop_spaces: bool) -> (r: String)
    ensures
        r@ == pasted_chars(pasted@, drop_spaces),
{
    let mut out = String::new();
    for ch in it: pasted.chars()
        invariant
            it.seq() == pasted@,
            out@ == pasted_chars(it.seq().subrange(0, it.index() as int), drop_spaces),
    {
        proof {
            assert(it.seq().subrange(0, it.index() + 1).drop_last() =~= it.seq().subrange(0, it.index() as int));
        }
        if !is_control(ch) && !(drop_spaces && ch == ' ') {
            string_push(&mut out, ch);
        }
        assert(out@ =~= pasted_chars(it.seq().subrange(0, it.index() + 1), drop_spaces));
    }
    assert(pasted@.subrange(0, pasted@.len() as int) =~= pasted@);
    out
}

/// Insert `chars` one by one at the cursor, the first replacing the selection.
pub open spec fn spec_paste(text: Seq<char>, cursor: int, selection: Selection, chars: Seq<char>) -> (Seq<char>, int) {
    let (t, c) = after_selection_removed(text, cursor, selection);
    (t.take(c) + chars + t.skip(c), c + chars.len())
}

/// Paste into a field: nothing happens when the paste holds only control
/// characters (and spaces, when `drop_spaces`); otherwise the kept
/// characters replace the selection, or go in at the cursor, which ends up
/// after them. Returns whether the field changed.
pub fn paste_into(text: &mut String, cursor: &mut usize, selection: &mut Selection, pasted: &str, drop_spaces: bool) -> (changed: bool)
    requires
        old(text)@.len() + pasted@.len() < usize::MAX,
    ensures
        changed == (pasted_chars(pasted@, drop_spaces).len() > 0),
        !changed ==> final(text)@ == old(text)@ && *final(cursor) == *old(cursor) && *final(selection) == *old(selection),
        changed ==> ({
            let (t, c) = spec_paste(old(text)@, *old(cursor) as int, *old(selection), pasted_chars(pasted@, drop_spaces));
            &&& final(text)@ == t
            &&& *final(cursor) == c
            &&& *final(selection) is None
        }),
{
    let filtered = filter_pasted(pasted, drop_spaces);
    let chars = crate::host_search::chars_of(filtered.as_str());
    if chars.len() == 0 {
        return false;
    }
    proof {
        lemma_pasted_chars_len(pasted@, drop_spaces);
    }
    let ghost f = chars@;
    let ghost (t0, c0) = after_selection_removed(old(text)@, *old(cursor) as int, *old(selection));
    let _ = delete_selection(text, cursor, selection);
    proof {
        match spec_normalized_selection(old(text)@.len() as int, *old(selection)) {
            Some((s, e)) => {
                assert(t0.len() == s + (old(text)@.len() - e));
            },
            None => {},
        }
    }
    let mut k: usize = 0;
    while k < chars.len()
        invariant
            f == chars@,
            f == pasted_chars(pasted@, drop_spaces),
            f.len() <= pasted@.len(),
            t0.len() <= old(text)@.len(),
            old(text)@.len() + pasted@.len() < usize::MAX,
            0 <= c0 <= t0.len(),
            k <= f.len(),
            *selection is None,
            k == 0 ==> text@ == t0 && min_nat(*cursor as int, text@.len() as int) == c0,
            k > 0 ==> text@ == t0.take(c0) + f.take(k as int) + t0.skip(c0) && *cursor == c0 + k,
        decreases chars.len() - k,
    {
        let ghost before = text@;
        insert_char(text, cursor, selection, chars[k]);
        proof {
            if k > 0 {
                assert(after_selection_removed(before, (c0 + k) as int, None) == (before, c0 + k));
            }
            assert(text@ =~= t0.take(c0) + f.take(k + 1) + t0.skip(c0));
        }
        k += 1;
    }
    assert(f.take(f.len() as int) =~= f);
    true
}

} // verus!
