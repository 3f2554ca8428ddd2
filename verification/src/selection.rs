//! Terminal text selection geometry.

use vstd::prelude::*;
use crate::text_format::{trim_end, white_space};
use crate::text_edit::string_push;

verus! {

/// A point of the terminal grid: an absolute row (negative rows lie in the
/// scrollback) and a column.
pub type GridPoint = (i64, u16);

/// `a` comes before or at `b` in reading order.
pub open spec fn reading_le(a: GridPoint, b: GridPoint) -> bool {
    a.0 < b.0 || (a.0 == b.0 && a.1 <= b.1)
}

/// Whether the cell `(row, col)` lies inside the selection spanned by the
/// two ordered endpoints `lo <= hi`.
pub open spec fn ordered_contains(lo: GridPoint, hi: GridPoint, row: i64, col: u16) -> bool {
    &&& lo.0 <= row <= hi.0
    &&& (row == lo.0 ==> col >= lo.1)
    &&& (row == hi.0 ==> col <= hi.1)
}

/// The selection between two endpoints, given in either order.
pub open spec fn spec_cell_in_selection(
    row: i64,
    col: u16,
    start: Option<GridPoint>,
    end: Option<GridPoint>,
) -> bool {
    match (start, end) {
        (Some(s), Some(e)) => if reading_le(s, e) {
            ordered_contains(s, e, row, col)
        } else {
            ordered_contains(e, s, row, col)
        },
        _ => false,
    }
}

/// Check if a cell at (row, col) is within the current text selection
pub fn is_cell_in_selection(
    row: i64,
    col: u16,
    start: Option<(i64, u16)>,
    end: Option<(i64, u16)>,
) -> (r: bool)
    ensures
        r == spec_cell_in_selection(row, col, start, end),
{
    let (start, end) = match (start, end) {
        (Some(selection_start), Some(selection_end)) => {
            if selection_start.0 < selection_end.0 || (selection_start.0 == selection_end.0
                && selection_start.1 <= selection_end.1) {
                (selection_start, selection_end)
            } else {
                (selection_end, selection_start)
            }
        },
        _ => return false,
    };
    if row < start.0 || row > end.0 {
        return false;
    }
    if start.0 == end.0 {
        col >= start.1 && col <= end.1
    } else if row == start.0 {
        col >= start.1
    } else if row == end.0 {
        col <= end.1
    } else {
        true
    }
}

/// A selection covers the same cells whichever of its ends was the anchor.
pub proof fn lemma_selection_symmetric(row: i64, col: u16, start: Option<GridPoint>, end: Option<GridPoint>)
    ensures
        spec_cell_in_selection(row, col, start, end) == spec_cell_in_selection(row, col, end, start),
{
}

/// What a selection between two endpoints `a` and `b` (in either order)
/// covers: nothing without both ends; both ends themselves; every column of
/// every row strictly between their rows; no cell of a row above the upper
/// end or below the lower one; and on a single row, exactly the columns
/// between the two ends.
pub proof fn lemma_selection_geometry(row: i64, col: u16, a: GridPoint, b: GridPoint)
    ensures
        !spec_cell_in_selection(row, col, None, Some(b)),
        !spec_cell_in_selection(row, col, Some(a), None),
        spec_cell_in_selection(a.0, a.1, Some(a), Some(b)),
        spec_cell_in_selection(b.0, b.1, Some(a), Some(b)),
        (a.0 < row < b.0 || b.0 < row < a.0) ==> spec_cell_in_selection(row, col, Some(a), Some(b)),
        (row < a.0 && row < b.0) || (row > a.0 && row > b.0) ==> !spec_cell_in_selection(row, col, Some(a), Some(b)),
        a.0 == b.0 && row == a.0 ==> (spec_cell_in_selection(row, col, Some(a), Some(b)) <==> ((a.1 <= col <= b.1) || (b.1 <= col <= a.1))),
        a.0 < b.0 && row == a.0 ==> (spec_cell_in_selection(row, col, Some(a), Some(b)) <==> col >= a.1),
        a.0 < b.0 && row == b.0 ==> (spec_cell_in_selection(row, col, Some(a), Some(b)) <==> col <= b.1),
{
}

/// The selection's endpoints in reading order.
pub open spec fn ordered_ends(a: GridPoint, b: GridPoint) -> (GridPoint, GridPoint) {
    if reading_le(a, b) {
        (a, b)
    } else {
        (b, a)
    }
}

/// The two endpoints of a selection in reading order; none without both.
pub fn ordered_selection(start: Option<(i64, u16)>, end: Option<(i64, u16)>) -> (r: Option<((i64, u16), (i64, u16))>)
    ensures
        match (start, end) {
            (Some(a), Some(b)) => r == Some(ordered_ends(a, b)),
            _ => r is None,
        },
{
    match (start, end) {
        (Some(a), Some(b)) => {
            if a.0 < b.0 || (a.0 == b.0 && a.1 <= b.1) {
                Some((a, b))
            } else {
                Some((b, a))
            }
        },
        _ => None,
    }
}

/// The text of cells `lo..=hi` of a row (of `cells.len()` cells); an empty
/// cell reads as a space.
pub open spec fn cells_text(cells: Seq<Seq<char>>, lo: int, hi: int) -> Seq<char>
    decreases hi - lo + 1,
{
    let last = if hi < cells.len() - 1 { hi } else { cells.len() - 1 };
    if lo > last || lo < 0 {
        seq![]
    } else {
        cells_text(cells, lo, last - 1) + if cells[last].len() > 0 { cells[last] } else { seq![' '] }
    }
}

/// The selected part of row `k` of the selection (rows counted from the
/// first selected row), without trailing white space; empty for a row that
/// is not on the screen.
pub open spec fn selected_line(rows: Seq<Option<Seq<Seq<char>>>>, start: GridPoint, end: GridPoint, k: int) -> Seq<char> {
    match rows[k] {
        None => seq![],
        Some(cells) => {
            let lo = if k == 0 { start.1 as int } else { 0 };
            let hi = if k == rows.len() - 1 { end.1 as int } else { cells.len() - 1 };
            trim_end(cells_text(cells, lo, hi))
        },
    }
}

/// The selected text of the first `n` selected rows, a line feed after
/// each row but the last of the selection.
pub open spec fn selected_text(rows: Seq<Option<Seq<Seq<char>>>>, start: GridPoint, end: GridPoint, n: int) -> Seq<char>
    decreases n,
{
    if n <= 0 {
        seq![]
    } else {
        selected_text(rows, start, end, n - 1) + selected_line(rows, start, end, n - 1) + if n - 1 < rows.len() - 1 {
            seq!['\n']
        } else {
            seq![]
        }
    }
}

/// The views of a screen's rows.
pub open spec fn rows_view(rows: Seq<Option<Vec<String>>>) -> Seq<Option<Seq<Seq<char>>>> {
    rows.map_values(|r: Option<Vec<String>>| match r {
        Some(cells) => Some(cells@.map_values(|c: String| c@)),
        None => None,
    })
}

fn push_cells_text(out: &mut String, cells: &Vec<String>, lo: usize, hi: usize)
    ensures
        final(out)@ == old(out)@ + cells_text(cells@.map_values(|c: String| c@), lo as int, hi as int),
{
    let ghost view = cells@.map_values(|c: String| c@);
    if cells.len() == 0 {
        assert(cells_text(view, lo as int, hi as int) =~= Seq::<char>::empty());
        return;
    }
    let last = if hi < cells.len() - 1 { hi } else { cells.len() - 1 };
    if lo > last {
        return;
    }
    let n_cells = cells.len();
    assert(cells@.len() == n_cells);
    let ghost start = out@;
    let mut c = lo;
    proof {
        lemma_cells_text_empty(view, lo as int, lo as int - 1);
    }
    while c <= last
        invariant
            view == cells@.map_values(|c: String| c@),
            last < cells@.len(),
            cells@.len() <= usize::MAX,
            lo <= c <= last + 1,
            out@ == start + cells_text(view, lo as int, c - 1),
        decreases last + 1 - c,
    {
        let cell = &cells[c];
        let ghost before = out@;
        if cell.as_str().unicode_len() > 0 {
            for ch in it: cell.as_str().chars()
                invariant
                    out@ == before + it.seq().subrange(0, it.index() as int),
            {
                string_push(out, ch);
                assert(out@ =~= before + it.seq().subrange(0, it.index() + 1));
            }
            assert(out@ =~= before + cell@);
        } else {
            string_push(out, ' ');
        }
        proof {
            assert(view[c as int] == cell@);
            assert(cells_text(view, lo as int, c as int) == cells_text(view, lo as int, c - 1) + if view[c as int].len() > 0 { view[c as int] } else { seq![' '] });
            assert(out@ =~= start + cells_text(view, lo as int, c as int));
        }
        c += 1;
    }
    proof {
        if last < hi {
            assert(cells_text(view, lo as int, hi as int) == cells_text(view, lo as int, last as int));
        }
    }
}

proof fn lemma_cells_text_empty(cells: Seq<Seq<char>>, lo: int, hi: int)
    requires
        hi < lo,
    ensures
        cells_text(cells, lo, hi) == Seq::<char>::empty(),
{
}

/// `text` without trailing white space.
pub fn trim_end_text(text: &String) -> (r: String)
    ensures
        r@ == trim_end(text@),
{
    let chars = crate::host_search::chars_of(text.as_str());
    let mut b = chars.len();
    assert(chars@.subrange(0, b as int) =~= chars@);
    while b > 0 && white_space(chars[b - 1])
        invariant
            b <= chars@.len(),
            chars@ == text@,
            trim_end(text@) == trim_end(chars@.subrange(0, b as int)),
        decreases b,
    {
        assert(chars@.subrange(0, b as int).drop_last() =~= chars@.subrange(0, b - 1));
        b -= 1;
    }
    let mut kept: Vec<char> = Vec::new();
    let mut k: usize = 0;
    while k < b
        invariant
            k <= b <= chars@.len(),
            kept@ == chars@.subrange(0, k as int),
        decreases b - k,
    {
        kept.push(chars[k]);
        k += 1;
        assert(kept@ =~= chars@.subrange(0, k as int));
    }
    assert(chars@.subrange(0, 0) =~= Seq::<char>::empty());
    crate::text_edit::string_from_chars(&kept)
}

/// The text of a selection from `start` to `end` (in reading order), given
/// the cells of each selected row from the first to the last (`None` for a
/// row that is not on the screen): each row's selected cells without
/// trailing white space, one line per row.
pub fn selection_text(rows: &Vec<Option<Vec<String>>>, start: (i64, u16), end: (i64, u16)) -> (text: String)
    ensures
        text@ == selected_text(rows_view(rows@), start, end, rows@.len() as int),
{
    let ghost rv = rows_view(rows@);
    let mut text = String::new();
    let n = rows.len();
    let mut k: usize = 0;
    while k < n
        invariant
            n == rows@.len(),
            rv == rows_view(rows@),
            k <= n,
            text@ == selected_text(rv, start, end, k as int),
        decreases n - k,
    {
        match &rows[k] {
            None => {},
            Some(cells) => {
                let lo: usize = if k == 0 { start.1 as usize } else { 0 };
                let hi: usize = if k == n - 1 { end.1 as usize } else if cells.len() > 0 { cells.len() - 1 } else { 0 };
                let mut line = String::new();
                push_cells_text(&mut line, cells, lo, hi);
                let trimmed = trim_end_text(&line);
                let ghost before = text@;
                for ch in it: trimmed.as_str().chars()
                    invariant
                        text@ == before + it.seq().subrange(0, it.index() as int),
                {
                    string_push(&mut text, ch);
                    assert(text@ =~= before + it.seq().subrange(0, it.index() + 1));
                }
                assert(text@ =~= before + trimmed@);
                proof {
                    assert(rv[k as int] == Some(cells@.map_values(|c: String| c@)));
                    if k != n - 1 && cells@.len() == 0 {
                        assert(cells_text(cells@.map_values(|c: String| c@), lo as int, hi as int) =~= cells_text(
                            cells@.map_values(|c: String| c@),
                            lo as int,
                            -1,
                        ));
                    }
                }
            },
        }
        if k < n - 1 {
            string_push(&mut text, '\n');
        }
        k += 1;
        assert(text@ =~= selected_text(rv, start, end, k as int));
    }
    text
}

} // verus!
