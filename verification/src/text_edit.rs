//! Single-line text editing with a character cursor and an optional
//! selection, as used by the search boxes and form fields.
//!
//! Cursor and selection bounds count characters, not bytes.
use vstd::prelude::*;
use vstd::string::StringSliceAdditionalSpecFns;
use vstd::utf8::*;

use crate::host_search::chars_of;
use crate::key_encoding::{KeyCode, KeyInput};

verus! {

/// A selection as given, possibly unordered or out of bounds.
pub type Selection = Option<(usize, usize)>;

/// Appends one character to a string.
///
/// Calls `String::push`, which appends `ch` to the end of the string; the
/// contract claims exactly that of the string's character sequence.
#[verifier::external_body]
pub(crate) fn string_push(s: &mut String, ch: char)
    ensures
        final(s)@ == old(s)@.push(ch),
{
    s.push(ch);
}

/// A string holding the given characters.
pub fn string_from_chars(chars: &Vec<char>) -> (s: String)
    ensures
        s@ == chars@,
{
    let mut s = String::new();
    let mut k: usize = 0;
    while k < chars.len()
        invariant
            k <= chars@.len(),
            s@ == chars@.subrange(0, k as int),
        decreases chars.len() - k,
    {
        string_push(&mut s, chars[k]);
        k += 1;
        assert(s@ =~= chars@.subrange(0, k as int));
    }
    assert(chars@.subrange(0, chars@.len() as int) =~= chars@);
    s
}

/// A string holding the characters `start..end` of `chars`.
pub fn string_from_char_range(chars: &Vec<char>, start: usize, end: usize) -> (s: String)
    requires
        start <= end <= chars@.len(),
    ensures
        s@ == chars@.subrange(start as int, end as int),
{
    let mut s = String::new();
    let mut k: usize = start;
    while k < end
        invariant
            start <= k <= end <= chars@.len(),
            s@ == chars@.subrange(start as int, k as int),
        decreases end - k,
    {
        string_push(&mut s, chars[k]);
        k += 1;
        assert(s@ =~= chars@.subrange(start as int, k as int));
    }
    s
}

/// Number of characters of `text`.
pub fn char_len(text: &str) -> (n: usize)
    ensures
        n == text@.len(),
{
    chars_of(text).len()
}

pub open spec fn min_nat(a: int, b: int) -> int {
    if a <= b {
        a
    } else {
        b
    }
}

/// Bring the cursor back inside the text.
pub fn clamp_cursor(text: &str, cursor: &mut usize)
    ensures
        *final(cursor) == min_nat(*old(cursor) as int, text@.len() as int),
{
    let len = char_len(text);
    if *cursor > len {
        *cursor = len;
    }
}

/// The selection ordered and clamped to the text; `None` when empty.
pub open spec fn spec_normalized_selection(len: int, selection: Selection) -> Option<(int, int)> {
    match selection {
        None => None,
        Some((a, b)) => {
            let s = min_nat(a as int, len);
            let e = min_nat(b as int, len);
            if s == e {
                None
            } else if s < e {
                Some((s, e))
            } else {
                Some((e, s))
            }
        },
    }
}

/// The selection ordered and clamped to `text`; `None` when it is empty.
pub fn normalized_selection(text: &str, selection: Selection) -> (r: Selection)
    ensures
        match r {
            Some((s, e)) => spec_normalized_selection(text@.len() as int, selection) == Some(
                (s as int, e as int),
            ),
            None => spec_normalized_selection(text@.len() as int, selection) is None,
        },
{
    let (start, end) = match selection {
        Some(sel) => sel,
        None => return None,
    };
    let len = char_len(text);
    let start = if start < len { start } else { len };
    let end = if end < len { end } else { len };
    if start == end {
        None
    } else if start < end {
        Some((start, end))
    } else {
        Some((end, start))
    }
}

fn char_utf8_width(c: char) -> (w: usize)
    ensures
        w == encode_utf8(seq![c]).len(),
{
    let v = c as u32;
    assert(seq![c].drop_first() =~= Seq::<char>::empty());
    assert(encode_utf8(Seq::<char>::empty()) =~= Seq::<u8>::empty());
    assert(seq![c][0] == c);
    assert(encode_utf8(seq![c]) =~= encode_scalar(v));
    if v <= 0x7f {
        1
    } else if v <= 0x7ff {
        2
    } else if v <= 0xffff {
        3
    } else {
        4
    }
}

proof fn lemma_encode_utf8_push(chars: Seq<char>, c: char)
    ensures
        encode_utf8(chars.push(c)) == encode_utf8(chars) + encode_utf8(seq![c]),
    decreases chars.len(),
{
    if chars.len() == 0 {
        assert(chars.push(c) =~= seq![c]);
        assert(encode_utf8(chars) =~= Seq::<u8>::empty());
        assert(Seq::<u8>::empty() + encode_utf8(seq![c]) =~= encode_utf8(seq![c]));
    } else {
        lemma_encode_utf8_push(chars.drop_first(), c);
        assert(chars.push(c).drop_first() =~= chars.drop_first().push(c));
        assert(chars.push(c)[0] == chars[0]);
        assert(encode_utf8(chars.push(c)) =~= encode_utf8(chars) + encode_utf8(seq![c]));
    }
}

/// Byte offset in `text` of the character at `char_index` (the text's byte
/// length when the index is at or past its end).
pub fn byte_index_for_char(text: &str, char_index: usize) -> (b: usize)
    ensures
        b == encode_utf8(text@.take(min_nat(char_index as int, text@.len() as int))).len(),
{
    let chars = chars_of(text);
    let limit = if char_index < chars.len() { char_index } else { chars.len() };
    let mut bytes: usize = 0;
    let mut k: usize = 0;
    let raw = text.as_bytes();
    assert(raw@.len() == raw.len());
    proof {
        broadcast use encode_utf8_valid_utf8;
        assert(text@.take(0) =~= Seq::<char>::empty());
        assert(encode_utf8(Seq::<char>::empty()) =~= Seq::<u8>::empty());
    }
    while k < limit
        invariant
            k <= limit <= chars@.len(),
            chars@ == text@,
            bytes == encode_utf8(text@.take(k as int)).len(),
            text.spec_bytes() == encode_utf8(text@),
            raw@ == text.spec_bytes(),
            raw@.len() <= usize::MAX,
        decreases limit - k,
    {
        proof {
            lemma_encode_utf8_push(text@.take(k as int), text@[k as int]);
            assert(text@.take(k + 1) =~= text@.take(k as int).push(text@[k as int]));
            lemma_encode_utf8_prefix_len(text@, k + 1);
        }
        bytes = bytes + char_utf8_width(chars[k]);
        k += 1;
    }
    bytes
}

proof fn lemma_encode_utf8_prefix_len(chars: Seq<char>, k: int)
    requires
        0 <= k <= chars.len(),
    ensures
        encode_utf8(chars.take(k)).len() <= encode_utf8(chars).len(),
    decreases chars.len() - k,
{
    if k < chars.len() {
        lemma_encode_utf8_prefix_len(chars, k + 1);
        lemma_encode_utf8_push(chars.take(k), chars[k]);
        assert(chars.take(k + 1) =~= chars.take(k).push(chars[k]));
    } else {
        assert(chars.take(k) =~= chars);
    }
}


/// Replace the characters `start..end` of `text` with `insert`.
fn splice_chars(text: &mut String, start: usize, end: usize, insert: Option<char>)
    requires
        start <= end <= old(text)@.len(),
    ensures
        final(text)@ == old(text)@.take(start as int) + (match insert {
            Some(c) => seq![c],
            None => Seq::empty(),
        }) + old(text)@.skip(end as int),
{
    let chars = chars_of(text.as_str());
    let mut out: Vec<char> = Vec::new();
    let mut k: usize = 0;
    while k < start
        invariant
            k <= start <= end <= chars@.len(),
            out@ == chars@.take(k as int),
        decreases start - k,
    {
        out.push(chars[k]);
        k += 1;
        assert(out@ =~= chars@.take(k as int));
    }
    if let Some(c) = insert {
        out.push(c);
    }
    let ghost mid = out@;
    let mut j: usize = end;
    while j < chars.len()
        invariant
            end <= j <= chars@.len(),
            out@ == mid + chars@.subrange(end as int, j as int),
        decreases chars.len() - j,
    {
        out.push(chars[j]);
        j += 1;
        assert(out@ =~= mid + chars@.subrange(end as int, j as int));
    }
    *text = string_from_chars(&out);
    assert(chars@.subrange(end as int, chars@.len() as int) =~= chars@.skip(end as int));
    assert(out@ =~= chars@.take(start as int) + (match insert {
        Some(c) => seq![c],
        None => Seq::empty(),
    }) + chars@.skip(end as int));
}

/// Delete the selected characters; the cursor moves to the start of the
/// selection. Returns whether anything was selected.
pub fn delete_selection(text: &mut String, cursor: &mut usize, selection: &mut Selection) -> (deleted: bool)
    ensures
        *final(selection) is None,
        match spec_normalized_selection(old(text)@.len() as int, *old(selection)) {
            Some((s, e)) => deleted && final(text)@ == old(text)@.take(s) + old(text)@.skip(e)
                && *final(cursor) == s,
            None => !deleted && final(text)@ == old(text)@ && *final(cursor) == *old(cursor),
        },
{
    let Some((start, end)) = normalized_selection(text.as_str(), *selection) else {
        *selection = None;
        return false;
    };
    splice_chars(text, start, end, None);
    assert(old(text)@.take(start as int) + Seq::<char>::empty() =~= old(text)@.take(start as int));
    *cursor = start;
    *selection = None;
    true
}

/// Cursor left: to the start of an active selection, else one character back.
pub fn move_cursor_left(text: &str, cursor: &mut usize, selection: &mut Selection)
    ensures
        *final(selection) is None,
        *final(cursor) == match spec_normalized_selection(text@.len() as int, *old(selection)) {
            Some((s, _)) => s,
            None => {
                let c = min_nat(*old(cursor) as int, text@.len() as int);
                if c > 0 { c - 1 } else { c }
            },
        },
{
    clamp_cursor(text, cursor);
    let active_selection = normalized_selection(text, *selection);
    *selection = None;
    if let Some((start, _)) = active_selection {
        *cursor = start;
    } else if *cursor > 0 {
        *cursor -= 1;
    }
}

/// Cursor right: to the end of an active selection, else one character on.
pub fn move_cursor_right(text: &str, cursor: &mut usize, selection: &mut Selection)
    ensures
        *final(selection) is None,
        *final(cursor) == match spec_normalized_selection(text@.len() as int, *old(selection)) {
            Some((_, e)) => e,
            None => {
                let c = min_nat(*old(cursor) as int, text@.len() as int);
                if c < text@.len() { c + 1 } else { c }
            },
        },
{
    clamp_cursor(text, cursor);
    let len = char_len(text);
    let active_selection = normalized_selection(text, *selection);
    *selection = None;
    if let Some((_, end)) = active_selection {
        *cursor = end;
    } else if *cursor < len {
        *cursor += 1;
    }
}

/// Cursor to the start of the text.
pub fn move_cursor_home(cursor: &mut usize, selection: &mut Selection)
    ensures
        *final(cursor) == 0,
        *final(selection) is None,
{
    *cursor = 0;
    *selection = None;
}

/// Cursor to the end of the text.
pub fn move_cursor_end(text: &str, cursor: &mut usize, selection: &mut Selection)
    ensures
        *final(cursor) == text@.len(),
        *final(selection) is None,
{
    *cursor = char_len(text);
    *selection = None;
}

/// Select the whole text (nothing when it is empty); the cursor goes to its end.
pub fn select_all(text: &str, cursor: &mut usize, selection: &mut Selection)
    ensures
        *final(cursor) == text@.len(),
        text@.len() == 0 ==> *final(selection) is None,
        text@.len() > 0 ==> *final(selection) == Some((0usize, text@.len() as usize)),
{
    let len = char_len(text);
    if len == 0 {
        *selection = None;
        *cursor = 0;
    } else {
        *selection = Some((0, len));
        *cursor = len;
    }
}

/// The text and cursor after the selection, if any, is deleted and the
/// cursor clamped.
pub open spec fn after_selection_removed(text: Seq<char>, cursor: int, selection: Selection) -> (Seq<char>, int) {
    match spec_normalized_selection(text.len() as int, selection) {
        Some((s, e)) => (text.take(s) + text.skip(e), s),
        None => (text, min_nat(cursor, text.len() as int)),
    }
}

/// Type a character: it replaces the selection, if any, and goes in at the cursor.
pub fn insert_char(text: &mut String, cursor: &mut usize, selection: &mut Selection, ch: char)
    requires
        old(text)@.len() < usize::MAX,
    ensures
        ({
            let (t, c) = after_selection_removed(old(text)@, *old(cursor) as int, *old(selection));
            &&& final(text)@ == t.take(c) + seq![ch] + t.skip(c)
            &&& *final(cursor) == c + 1
        }),
        *final(selection) is None,
{
    let _ = delete_selection(text, cursor, selection);
    clamp_cursor(text.as_str(), cursor);
    let at = *cursor;
    splice_chars(text, at, at, Some(ch));
    *cursor = at + 1;
    *selection = None;
}

/// Backspace: delete the selection if any, else the character before the
/// cursor. Returns whether the text changed.
pub fn backspace(text: &mut String, cursor: &mut usize, selection: &mut Selection) -> (changed: bool)
    ensures
        *final(selection) is None,
        match spec_normalized_selection(old(text)@.len() as int, *old(selection)) {
            Some((s, e)) => changed && final(text)@ == old(text)@.take(s) + old(text)@.skip(e)
                && *final(cursor) == s,
            None => {
                let c = min_nat(*old(cursor) as int, old(text)@.len() as int);
                if c == 0 {
                    !changed && final(text)@ == old(text)@ && *final(cursor) == 0
                } else {
                    changed && final(text)@ == old(text)@.take(c - 1) + old(text)@.skip(c)
                        && *final(cursor) == c - 1
                }
            },
        },
{
    if delete_selection(text, cursor, selection) {
        return true;
    }
    clamp_cursor(text.as_str(), cursor);
    if *cursor == 0 {
        *selection = None;
        return false;
    }
    let at = *cursor;
    splice_chars(text, at - 1, at, None);
    assert(old(text)@.take(at - 1) + Seq::<char>::empty() =~= old(text)@.take(at - 1));
    *cursor = at - 1;
    *selection = None;
    true
}

/// Delete: delete the selection if any, else the character at the cursor.
/// Returns whether the text changed.
pub fn delete_char(text: &mut String, cursor: &mut usize, selection: &mut Selection) -> (changed: bool)
    ensures
        *final(selection) is None,
        match spec_normalized_selection(old(text)@.len() as int, *old(selection)) {
            Some((s, e)) => changed && final(text)@ == old(text)@.take(s) + old(text)@.skip(e)
                && *final(cursor) == s,
            None => {
                let c = min_nat(*old(cursor) as int, old(text)@.len() as int);
                &&& *final(cursor) == c
                &&& if c >= old(text)@.len() {
                    !changed && final(text)@ == old(text)@
                } else {
                    changed && final(text)@ == old(text)@.take(c) + old(text)@.skip(c + 1)
                }
            },
        },
{
    if delete_selection(text, cursor, selection) {
        return true;
    }
    clamp_cursor(text.as_str(), cursor);
    let len = char_len(text.as_str());
    if *cursor >= len {
        *selection = None;
        return false;
    }
    let at = *cursor;
    splice_chars(text, at, at + 1, None);
    assert(old(text)@.take(at as int) + Seq::<char>::empty() =~= old(text)@.take(at as int));
    *selection = None;
    true
}

/// Typing a character and then pressing backspace gives back the text, with
/// the cursor where the character went in.
pub proof fn lemma_insert_then_backspace(t: Seq<char>, c: int, ch: char)
    requires
        0 <= c <= t.len(),
    ensures
        ({
            let typed = t.take(c) + seq![ch] + t.skip(c);
            typed.take(c + 1 - 1) + typed.skip(c + 1) == t
        }),
{
    let typed = t.take(c) + seq![ch] + t.skip(c);
    assert(typed.take(c) =~= t.take(c));
    assert(typed.skip(c + 1) =~= t.skip(c));
    assert(t.take(c) + t.skip(c) =~= t);
}

/// Whether two texts hold the same characters.
pub fn text_equal(a: &str, b: &str) -> (r: bool)
    ensures
        r == (a@ == b@),
{
    let ac = chars_of(a);
    let bc = chars_of(b);
    if ac.len() != bc.len() {
        return false;
    }
    let mut i: usize = 0;
    while i < ac.len()
        invariant
            ac@ == a@,
            bc@ == b@,
            ac@.len() == bc@.len(),
            i <= ac@.len(),
            forall|j: int| 0 <= j < i ==> #[trigger] ac@[j] == bc@[j],
        decreases ac.len() - i,
    {
        if ac[i] != bc[i] {
            return false;
        }
        i += 1;
    }
    assert(a@ =~= b@);
    true
}

/// A search box: its text, cursor and selection.
#[derive(Debug)]
pub struct SearchQuery {
    pub text: String,
    pub cursor: usize,
    pub selection: Selection,
}

/// A search box as a value: text, cursor, selection.
pub type QueryModel = (Seq<char>, usize, Selection);

impl View for SearchQuery {
    type V = QueryModel;

    open spec fn view(&self) -> QueryModel {
        (self.text@, self.cursor, self.selection)
    }
}

/// An empty search box.
pub open spec fn empty_query() -> QueryModel {
    (Seq::empty(), 0usize, None)
}

impl SearchQuery {
    /// An empty search box.
    pub fn new() -> (q: Self)
        ensures
            q@ == empty_query(),
    {
        SearchQuery { text: String::new(), cursor: 0, selection: None }
    }
}

/// The cursor after Left.
pub open spec fn spec_cursor_left(t: Seq<char>, cursor: usize, selection: Selection) -> int {
    match spec_normalized_selection(t.len() as int, selection) {
        Some((s, _)) => s,
        None => {
            let c = min_nat(cursor as int, t.len() as int);
            if c > 0 { c - 1 } else { c }
        },
    }
}

/// The cursor after Right.
pub open spec fn spec_cursor_right(t: Seq<char>, cursor: usize, selection: Selection) -> int {
    match spec_normalized_selection(t.len() as int, selection) {
        Some((_, e)) => e,
        None => {
            let c = min_nat(cursor as int, t.len() as int);
            if c < t.len() { c + 1 } else { c }
        },
    }
}

/// Backspace: the text and cursor after it, and whether the text changed.
pub open spec fn spec_backspace(t: Seq<char>, cursor: usize, selection: Selection) -> (Seq<char>, int, bool) {
    match spec_normalized_selection(t.len() as int, selection) {
        Some((s, e)) => (t.take(s) + t.skip(e), s, true),
        None => {
            let c = min_nat(cursor as int, t.len() as int);
            if c == 0 { (t, 0, false) } else { (t.take(c - 1) + t.skip(c), c - 1, true) }
        },
    }
}

/// Delete: the text and cursor after it, and whether the text changed.
pub open spec fn spec_delete(t: Seq<char>, cursor: usize, selection: Selection) -> (Seq<char>, int, bool) {
    match spec_normalized_selection(t.len() as int, selection) {
        Some((s, e)) => (t.take(s) + t.skip(e), s, true),
        None => {
            let c = min_nat(cursor as int, t.len() as int);
            if c >= t.len() { (t, c, false) } else { (t.take(c) + t.skip(c + 1), c, true) }
        },
    }
}

/// The editing keys of a search box and what each does: cursor keys,
/// Backspace and Delete, Ctrl+A (select all), Ctrl+E (end), and characters
/// typed without Control or Alt. The flag says whether the text changed
/// (typing always counts as a change); other keys leave the box alone.
pub open spec fn spec_query_edit(q: QueryModel, key: KeyInput) -> (QueryModel, bool) {
    let (t, c, sel) = q;
    let ctrl = key.modifiers.control;
    let alt = key.modifiers.alt;
    match key.code {
        KeyCode::Left => ((t, spec_cursor_left(t, c, sel) as usize, None), false),
        KeyCode::Right => ((t, spec_cursor_right(t, c, sel) as usize, None), false),
        KeyCode::Home => ((t, 0usize, None), false),
        KeyCode::End => ((t, t.len() as usize, None), false),
        KeyCode::Backspace => {
            let (t2, c2, changed) = spec_backspace(t, c, sel);
            ((t2, c2 as usize, None), changed)
        },
        KeyCode::Delete => {
            let (t2, c2, changed) = spec_delete(t, c, sel);
            ((t2, c2 as usize, None), changed)
        },
        KeyCode::Char('a') if ctrl => (
            if t.len() == 0 { (t, 0usize, None) } else { (t, t.len() as usize, Some((0usize, t.len() as usize))) },
            false,
        ),
        KeyCode::Char('e') if ctrl => ((t, t.len() as usize, None), false),
        KeyCode::Char(ch) if !ctrl && !alt => {
            let (t2, c2) = after_selection_removed(t, c as int, sel);
            ((t2.take(c2) + seq![ch] + t2.skip(c2), (c2 + 1) as usize, None), true)
        },
        _ => (q, false),
    }
}

/// Apply an editing key to a search box's text, cursor and selection;
/// returns whether the text changed.
pub fn edit_query_key(text: &mut String, cursor: &mut usize, selection: &mut Selection, key: KeyInput) -> (changed: bool)
    requires
        old(text)@.len() < usize::MAX,
    ensures
        ((final(text)@, *final(cursor), *final(selection)), changed) == spec_query_edit((old(text)@, *old(cursor), *old(selection)), key),
{
    let ctrl = key.modifiers.control;
    let alt = key.modifiers.alt;
    // Other keys leave the box alone.
    let editing = match key.code {
        KeyCode::Left | KeyCode::Right | KeyCode::Home | KeyCode::End | KeyCode::Backspace | KeyCode::Delete => true,
        KeyCode::Char(ch) => ctrl && (ch == 'a' || ch == 'e') || !ctrl && !alt,
        _ => false,
    };
    if !editing {
        return false;
    }
    let changed = match key.code {
        KeyCode::Left => {
            move_cursor_left(text.as_str(), cursor, selection);
            false
        },
        KeyCode::Right => {
            move_cursor_right(text.as_str(), cursor, selection);
            false
        },
        KeyCode::Home => {
            move_cursor_home(cursor, selection);
            false
        },
        KeyCode::End => {
            move_cursor_end(text.as_str(), cursor, selection);
            false
        },
        KeyCode::Backspace => backspace(text, cursor, selection),
        KeyCode::Delete => delete_char(text, cursor, selection),
        KeyCode::Char('a') if ctrl => {
            select_all(text.as_str(), cursor, selection);
            false
        },
        KeyCode::Char('e') if ctrl => {
            move_cursor_end(text.as_str(), cursor, selection);
            false
        },
        KeyCode::Char(ch) if !ctrl && !alt => {
            insert_char(text, cursor, selection, ch);
            true
        },
        _ => false,
    };
    changed
}

impl SearchQuery {
    /// Apply an editing key to the search box; returns whether its text
    /// changed.
    pub fn edit_key(&mut self, key: KeyInput) -> (changed: bool)
        requires
            old(self).text@.len() < usize::MAX,
        ensures
            (final(self)@, changed) == spec_query_edit(old(self)@, key),
    {
        edit_query_key(&mut self.text, &mut self.cursor, &mut self.selection, key)
    }
}

/// A key pressed without modifiers.
pub open spec fn unmodified(code: KeyCode) -> KeyInput {
    KeyInput {
        code,
        modifiers: crate::key_encoding::KeyModifiers { shift: false, control: false, alt: false, super_key: false, hyper: false, meta: false },
    }
}

/// In a search box without a selection, typing a character and then
/// pressing Backspace gives back the text, with the cursor where it was
/// (kept within the text).
pub proof fn lemma_type_then_backspace(q: QueryModel, ch: char)
    requires
        q.2 is None,
        q.0.len() < usize::MAX,
    ensures
        ({
            let typed = spec_query_edit(q, unmodified(KeyCode::Char(ch))).0;
            let erased = spec_query_edit(typed, unmodified(KeyCode::Backspace)).0;
            erased.0 == q.0 && erased.1 == min_nat(q.1 as int, q.0.len() as int) && erased.2 is None
        }),
{
    let c = min_nat(q.1 as int, q.0.len() as int);
    lemma_insert_then_backspace(q.0, c, ch);
}

} // verus!
