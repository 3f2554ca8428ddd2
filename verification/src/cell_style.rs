//! How one cell of a terminal tab is painted: the search, selection and
//! cursor highlights, in that order of precedence, and the cell's own
//! colours otherwise (swapped for inverse video).

use vstd::prelude::*;

verus! {

/// A terminal colour: the terminal's default, an indexed palette colour
/// (0 is black, 15 is white), or a 24-bit colour.
#[derive(Clone, Copy, Debug, PartialEq, Eq, Structural)]
pub enum TermColor {
    Default,
    Idx(u8),
    Rgb(u8, u8, u8),
}

/// Which highlight a cell is painted with.
#[derive(Clone, Copy, Debug, PartialEq, Eq, Structural)]
pub enum CellPaint {
    /// Part of the current search match.
    CurrentMatch,
    /// Part of another search match.
    Match,
    /// Inside the text selection.
    Selected,
    /// Under the terminal cursor.
    Cursor,
    /// The cell's own colours.
    Plain,
}

/// The highlight of a cell: the current search match wins over any other
/// match, a match over the selection, the selection over the cursor. The
/// cursor shows only where it is not hidden and the tab is not scrolled back.
pub open spec fn spec_cell_paint(
    in_current_match: bool,
    in_match: bool,
    selected: bool,
    at_cursor: bool,
    cursor_hidden: bool,
    scroll_offset: usize,
) -> CellPaint {
    if in_current_match {
        CellPaint::CurrentMatch
    } else if in_match {
        CellPaint::Match
    } else if selected {
        CellPaint::Selected
    } else if at_cursor && !cursor_hidden && scroll_offset == 0 {
        CellPaint::Cursor
    } else {
        CellPaint::Plain
    }
}

/// The highlight of one cell of a terminal tab.
pub fn cell_paint(
    in_current_match: bool,
    in_match: bool,
    selected: bool,
    at_cursor: bool,
    cursor_hidden: bool,
    scroll_offset: usize,
) -> (p: CellPaint)
    ensures
        p == spec_cell_paint(in_current_match, in_match, selected, at_cursor, cursor_hidden, scroll_offset),
{
    if in_current_match {
        CellPaint::CurrentMatch
    } else if in_match {
        CellPaint::Match
    } else if selected {
        CellPaint::Selected
    } else if at_cursor && !cursor_hidden && scroll_offset == 0 {
        CellPaint::Cursor
    } else {
        CellPaint::Plain
    }
}

/// The foreground and background of a plain cell: its own, or for inverse
/// video swapped, a default foreground becoming black and a default
/// background white.
pub open spec fn spec_cell_colors(fg: TermColor, bg: TermColor, inverse: bool) -> (TermColor, TermColor) {
    if inverse {
        (
            if bg == TermColor::Default { TermColor::Idx(0) } else { bg },
            if fg == TermColor::Default { TermColor::Idx(15) } else { fg },
        )
    } else {
        (fg, bg)
    }
}

/// The colours of a plain cell.
pub fn cell_colors(fg: TermColor, bg: TermColor, inverse: bool) -> (r: (TermColor, TermColor))
    ensures
        r == spec_cell_colors(fg, bg, inverse),
{
    if inverse {
        let new_fg = match bg {
            TermColor::Default => TermColor::Idx(0),
            other => other,
        };
        let new_bg = match fg {
            TermColor::Default => TermColor::Idx(15),
            other => other,
        };
        (new_fg, new_bg)
    } else {
        (fg, bg)
    }
}

/// How a piece of the failed-session notice is shown.
#[derive(Clone, Copy, Debug, PartialEq, Eq, Structural)]
pub enum NoticeTone {
    /// Red text.
    Error,
    /// The host name, highlighted.
    HostName,
    /// Grey hint text.
    Hint,
    /// A key to press, highlighted.
    Key,
}

/// A line of the notice as values.
pub open spec fn notice_line_model(line: Vec<(String, NoticeTone)>) -> Seq<(Seq<char>, NoticeTone)> {
    line@.map_values(|p: (String, NoticeTone)| (p.0@, p.1))
}

/// The lines of the notice as values.
pub open spec fn notice_lines_model(lines: Seq<Vec<(String, NoticeTone)>>) -> Seq<Seq<(Seq<char>, NoticeTone)>> {
    lines.map_values(|l: Vec<(String, NoticeTone)>| notice_line_model(l))
}

/// What a tab whose session could not start shows: a blank line, the
/// failure with the host's name, a blank line, and how to close the tab.
pub open spec fn spec_session_failed_lines(host_name: Seq<char>) -> Seq<Seq<(Seq<char>, NoticeTone)>> {
    seq![
        seq![],
        seq![("Failed to start SSH session for "@, NoticeTone::Error), (host_name, NoticeTone::HostName)],
        seq![],
        seq![("Press "@, NoticeTone::Hint), ("Ctrl+W"@, NoticeTone::Key), (" to close this tab"@, NoticeTone::Hint)],
    ]
}

/// The lines of a tab whose session could not start.
pub fn session_failed_lines(host_name: &str) -> (lines: Vec<Vec<(String, NoticeTone)>>)
    ensures
        notice_lines_model(lines@) == spec_session_failed_lines(host_name@),
{
    let blank1: Vec<(String, NoticeTone)> = Vec::new();
    let mut failed: Vec<(String, NoticeTone)> = Vec::new();
    failed.push(("Failed to start SSH session for ".to_owned(), NoticeTone::Error));
    failed.push((host_name.to_owned(), NoticeTone::HostName));
    let blank2: Vec<(String, NoticeTone)> = Vec::new();
    let mut hint: Vec<(String, NoticeTone)> = Vec::new();
    hint.push(("Press ".to_owned(), NoticeTone::Hint));
    hint.push(("Ctrl+W".to_owned(), NoticeTone::Key));
    hint.push((" to close this tab".to_owned(), NoticeTone::Hint));
    proof {
        assert(notice_line_model(blank1) =~= Seq::<(Seq<char>, NoticeTone)>::empty());
        assert(notice_line_model(blank2) =~= Seq::<(Seq<char>, NoticeTone)>::empty());
        assert(notice_line_model(failed) =~= seq![("Failed to start SSH session for "@, NoticeTone::Error), (host_name@, NoticeTone::HostName)]);
        assert(notice_line_model(hint) =~= seq![("Press "@, NoticeTone::Hint), ("Ctrl+W"@, NoticeTone::Key), (" to close this tab"@, NoticeTone::Hint)]);
    }
    let mut lines: Vec<Vec<(String, NoticeTone)>> = Vec::new();
    lines.push(blank1);
    lines.push(failed);
    lines.push(blank2);
    lines.push(hint);
    proof {
        assert(notice_lines_model(lines@) =~= spec_session_failed_lines(host_name@));
    }
    lines
}

} // verus!
