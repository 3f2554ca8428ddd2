//! Finding a search query in the rows of a terminal screen: the text of a
//! row built from its cells, every occurrence of the query in it, and the
//! screen column where each occurrence starts.
use vstd::prelude::*;
use vstd::string::StringSliceAdditionalSpecFns;
use vstd::utf8::encode_utf8;
use crate::text_edit::{char_len, string_push};
use crate::text_format::push_str_chars;
use crate::host_search::{lemma_encode_utf8_len, lowercase, to_lowercase};

verus! {

/// The text a cell contributes to its row: its contents, or a space when it
/// is empty.
pub open spec fn cell_text(cell: Option<Seq<char>>) -> Seq<char> {
    match cell {
        Some(t) => if t.len() > 0 { t } else { seq![' '] },
        None => seq![' '],
    }
}

/// The text of the first `n` cells of a row.
pub open spec fn row_prefix(cells: Seq<Option<Seq<char>>>, n: int) -> Seq<char>
    decreases n,
{
    if n <= 0 {
        seq![]
    } else {
        row_prefix(cells, n - 1) + cell_text(cells[n - 1])
    }
}

/// The views of optional strings.
pub open spec fn opt_views(cells: Seq<Option<String>>) -> Seq<Option<Seq<char>>> {
    cells.map_values(|c: Option<String>| match c {
        Some(s) => Some(s@),
        None => None,
    })
}

/// The searchable text of a row and the byte offset at which each cell's
/// text starts in it.
pub fn row_search_text(cells: &[Option<String>]) -> (r: (String, Vec<usize>))
    ensures
        r.0@ == row_prefix(opt_views(cells@), cells@.len() as int),
        r.1@.len() == cells@.len(),
        forall|i: int| 0 <= i < cells@.len() ==> #[trigger] r.1@[i] == encode_utf8(row_prefix(opt_views(cells@), i)).len(),
{
    let ghost views = opt_views(cells@);
    let mut text = String::new();
    let mut starts: Vec<usize> = Vec::new();
    let mut i: usize = 0;
    while i < cells.len()
        invariant
            i <= cells@.len(),
            views == opt_views(cells@),
            text@ == row_prefix(views, i as int),
            starts@.len() == i,
            forall|k: int| 0 <= k < i ==> #[trigger] starts@[k] == encode_utf8(row_prefix(views, k)).len(),
        decreases cells.len() - i,
    {
        let len_now = text.as_str().as_bytes().len();
        starts.push(len_now);
        match &cells[i] {
            Some(content) => {
                if content.as_str().unicode_len() > 0 {
                    push_str_chars(&mut text, content.as_str());
                } else {
                    string_push(&mut text, ' ');
                }
            },
            None => {
                string_push(&mut text, ' ');
            },
        }
        proof {
            assert(cell_text(views[i as int]) == match cells@[i as int] {
                Some(s) => if s@.len() > 0 { s@ } else { seq![' '] },
                None => seq![' '],
            });
        }
        i += 1;
        assert(text@ =~= row_prefix(views, i as int));
    }
    (text, starts)
}

/// The query's bytes occur in `t` at byte `p`.
pub open spec fn occurs_at(t: Seq<u8>, q: Seq<u8>, p: int) -> bool {
    0 <= p && p + q.len() <= t.len() && t.subrange(p, p + q.len()) == q
}

/// The first occurrence at or after byte `start`.
pub open spec fn first_occurrence_from(t: Seq<u8>, q: Seq<u8>, start: int) -> Option<int>
    decreases t.len() + 1 - start,
{
    if start < 0 || start + q.len() > t.len() {
        None
    } else if occurs_at(t, q, start) {
        Some(start)
    } else {
        first_occurrence_from(t, q, start + 1)
    }
}

/// Every occurrence from byte `start` on, each search starting one byte
/// after the previous occurrence (so occurrences may overlap).
pub open spec fn occurrences_from(t: Seq<u8>, q: Seq<u8>, start: int) -> Seq<int>
    decreases t.len() + 1 - start,
{
    if start < 0 || start > t.len() || q.len() == 0 {
        seq![]
    } else {
        match first_occurrence_from(t, q, start) {
            Some(p) => if start <= p <= t.len() { seq![p] + occurrences_from(t, q, p + 1) } else { seq![] },
            None => seq![],
        }
    }
}

/// The column whose text holds byte `pos`: the last cell starting at or
/// before it, scanning from the left and stopping at an exact start or
/// past `pos`.
pub open spec fn column_for(starts: Seq<usize>, pos: int, i: int, best: int) -> int
    decreases starts.len() - i,
{
    if i < 0 || i >= starts.len() {
        best
    } else if starts[i] == pos {
        i
    } else if starts[i] > pos {
        best
    } else {
        column_for(starts, pos, i + 1, i)
    }
}

/// The matches of a query in one row at absolute row `abs_row`: where each
/// occurrence of the lower-cased query in the lower-cased row text starts,
/// as a screen column, and the query's length in characters.
pub open spec fn spec_row_matches(text_lower: Seq<char>, starts: Seq<usize>, query_lower: Seq<char>, abs_row: i64) -> Seq<(i64, u16, usize)> {
    occurrences_from(encode_utf8(text_lower), encode_utf8(query_lower), 0).map_values(
        |p: int| (abs_row, column_for(starts, p, 0, 0) as u16, query_lower.len() as usize),
    )
}

/// The first byte of the query is ASCII, so that the search can resume one
/// byte after an occurrence; otherwise the text holds no occurrence.
pub open spec fn row_search_defined(text_lower: Seq<char>, query_lower: Seq<char>) -> bool {
    query_lower.len() > 0 && ((query_lower[0] as u32) < 0x80 || first_occurrence_from(encode_utf8(text_lower), encode_utf8(query_lower), 0) is None)
}

proof fn lemma_first_occurrence_bounds(t: Seq<u8>, q: Seq<u8>, start: int)
    ensures
        first_occurrence_from(t, q, start) matches Some(p) ==> start <= p && p + q.len() <= t.len(),
    decreases t.len() + 1 - start,
{
    if !(start < 0 || start + q.len() > t.len()) && !occurs_at(t, q, start) {
        lemma_first_occurrence_bounds(t, q, start + 1);
    }
}

fn occurs_here(t: &[u8], q: &[u8], p: usize) -> (r: bool)
    requires
        p + q@.len() <= t@.len(),
        t@.len() <= usize::MAX,
    ensures
        r == occurs_at(t@, q@, p as int),
{
    let mut k: usize = 0;
    while k < q.len()
        invariant
            p + q@.len() <= t@.len(),
            t@.len() <= usize::MAX,
            k <= q@.len(),
            forall|j: int| 0 <= j < k ==> t@[p + j] == q@[j],
        decreases q.len() - k,
    {
        if t[p + k] != q[k] {
            assert(t@.subrange(p as int, p + q@.len())[k as int] != q@[k as int]);
            return false;
        }
        k += 1;
    }
    assert(t@.subrange(p as int, p + q@.len()) =~= q@);
    true
}

fn find_from(t: &[u8], q: &[u8], start: usize) -> (r: Option<usize>)
    requires
        start <= t@.len(),
        t@.len() <= usize::MAX,
        q@.len() > 0,
    ensures
        match r {
            Some(p) => first_occurrence_from(t@, q@, start as int) == Some(p as int),
            None => first_occurrence_from(t@, q@, start as int) is None,
        },
{
    if q.len() > t.len() {
        return None;
    }
    let last = t.len() - q.len();
    let mut p = start;
    while p <= last
        invariant
            start <= p,
            last == t@.len() - q@.len(),
            t@.len() <= usize::MAX,
            q@.len() > 0,
            first_occurrence_from(t@, q@, start as int) == first_occurrence_from(t@, q@, p as int),
        decreases last + 1 - p,
    {
        if occurs_here(t, q, p) {
            return Some(p);
        }
        p += 1;
    }
    None
}

fn column_of(starts: &[usize], pos: usize) -> (c: usize)
    ensures
        c == column_for(starts@, pos as int, 0, 0),
        c == 0 || c < starts@.len(),
{
    let mut best: usize = 0;
    let mut i: usize = 0;
    while i < starts.len()
        invariant
            i <= starts@.len(),
            best == 0 || best < starts@.len(),
            column_for(starts@, pos as int, 0, 0) == column_for(starts@, pos as int, i as int, best as int),
        decreases starts.len() - i,
    {
        if starts[i] == pos {
            return i;
        } else if starts[i] > pos {
            return best;
        }
        best = i;
        i += 1;
    }
    best
}

/// Every match of the lower-cased query in one lower-cased row.
pub fn find_row_matches(text_lower: &str, starts: &[usize], query_lower: &str, abs_row: i64) -> (r: Vec<(i64, u16, usize)>)
    requires
        row_search_defined(text_lower@, query_lower@),
    ensures
        r@ == spec_row_matches(text_lower@, starts@, query_lower@, abs_row),
{
    let t = text_lower.as_bytes();
    let q = query_lower.as_bytes();
    let tl = t.len();
    assert(t@.len() == tl);
    let qlen = char_len(query_lower);
    let ghost all = occurrences_from(t@, q@, 0);
    let mut out: Vec<(i64, u16, usize)> = Vec::new();
    let mut start: usize = 0;
    let ghost f = |p: int| (abs_row, column_for(starts@, p, 0, 0) as u16, query_lower@.len() as usize);
    proof {
        lemma_encode_utf8_len(query_lower@);
    }
    while start <= t.len()
        invariant
            t@ == encode_utf8(text_lower@),
            t@.len() <= usize::MAX,
            q@ == encode_utf8(query_lower@),
            q@.len() > 0,
            qlen == query_lower@.len(),
            row_search_defined(text_lower@, query_lower@),
            all == occurrences_from(t@, q@, 0),
            f == (|p: int| (abs_row, column_for(starts@, p, 0, 0) as u16, query_lower@.len() as usize)),
            all.map_values(f) == out@ + occurrences_from(t@, q@, start as int).map_values(f),
        decreases t.len() + 1 - start,
    {
        match find_from(t, q, start) {
            Some(pos) => {
                let col = column_of(starts, pos);
                let ghost before = out@;
                out.push((abs_row, col as u16, qlen));
                proof {
                    lemma_first_occurrence_bounds(t@, q@, start as int);
                    let rest = occurrences_from(t@, q@, start as int);
                    assert(rest == seq![pos as int] + occurrences_from(t@, q@, pos + 1));
                    assert(rest.map_values(f) =~= seq![f(pos as int)] + occurrences_from(t@, q@, pos + 1).map_values(f));
                    assert(out@ =~= before.push(f(pos as int)));
                    assert(out@ + occurrences_from(t@, q@, pos + 1).map_values(f) =~= before + rest.map_values(f));
                }
                start = pos + 1;
            },
            None => {
                proof {
                    assert(occurrences_from(t@, q@, start as int) =~= Seq::<int>::empty());
                    assert(out@ + Seq::<int>::empty().map_values(f) =~= out@);
                }
                return out;
            },
        }
    }
    proof {
        assert(occurrences_from(t@, q@, start as int) =~= Seq::<int>::empty());
        assert(out@ + Seq::<int>::empty().map_values(f) =~= out@);
    }
    out
}

/// Whether the search of `query_lower` in `text_lower` can run: the query
/// is not empty, and it starts with an ASCII character or does not occur.
pub fn row_search_possible(text_lower: &str, query_lower: &str) -> (r: bool)
    ensures
        r == row_search_defined(text_lower@, query_lower@),
{
    let chars = crate::host_search::chars_of(query_lower);
    if chars.len() == 0 {
        return false;
    }
    if (chars[0] as u32) < 0x80 {
        return true;
    }
    let t = text_lower.as_bytes();
    let q = query_lower.as_bytes();
    let tl = t.len();
    assert(t@.len() == tl);
    proof {
        lemma_encode_utf8_len(query_lower@);
    }
    find_from(t, q, 0).is_none()
}

/// The matches of the lower-cased query in a screen row given by its cells,
/// at absolute row `abs_row`; `None` when the search cannot resume after an
/// occurrence (the query starts with a non-ASCII character and occurs).
pub fn search_row(cells: &[Option<String>], query_lower: &str, abs_row: i64) -> (r: Option<Vec<(i64, u16, usize)>>)
    ensures
        ({
            let text = row_prefix(opt_views(cells@), cells@.len() as int);
            let starts = Seq::new(cells@.len(), |i: int| encode_utf8(row_prefix(opt_views(cells@), i)).len() as usize);
            match r {
                Some(m) => row_search_defined(lowercase(text), query_lower@) && m@ == spec_row_matches(lowercase(text), starts, query_lower@, abs_row),
                None => !row_search_defined(lowercase(text), query_lower@),
            }
        }),
{
    let (text, starts) = row_search_text(cells);
    let text_lower = to_lowercase(text.as_str());
    assert(starts@ =~= Seq::new(cells@.len(), |i: int| encode_utf8(row_prefix(opt_views(cells@), i)).len() as usize));
    if !row_search_possible(text_lower.as_str(), query_lower) {
        return None;
    }
    Some(find_row_matches(text_lower.as_str(), starts.as_slice(), query_lower, abs_row))
}

} // verus!
