//! What the host list panel shows: its title, the lines of the rows in
//! view, and its scrollbar.
use vstd::prelude::*;
use crate::host_tree::{HostTreeRow, HostTreeRowKind};
use crate::text_format::{digits, push_decimal_text};
use crate::text_edit::string_push;

verus! {

/// How a piece of a host list line is drawn.
#[derive(Clone, Copy, Debug, PartialEq, Eq)]
pub enum RowTone {
    /// Indentation and spacing.
    Plain,
    /// The folder's expanded or collapsed marker.
    Glyph,
    FolderName,
    HostName,
}

/// A piece of a host list line.
#[derive(Debug)]
pub struct RowSpan {
    pub text: String,
    pub tone: RowTone,
}

/// `Hosts - N`, or `Hosts - M/N` while searching (`M` hosts matching).
pub open spec fn spec_host_list_title(searching: bool, matched: usize, total: usize) -> Seq<char> {
    if searching {
        "Hosts - "@ + digits(matched as nat) + seq!['/'] + digits(total as nat)
    } else {
        "Hosts - "@ + digits(total as nat)
    }
}

/// The title of the host list.
pub fn host_list_title(searching: bool, matched: usize, total: usize) -> (s: String)
    ensures
        s@ == spec_host_list_title(searching, matched, total),
{
    let mut s = "Hosts - ".to_owned();
    if searching {
        push_decimal_text(&mut s, matched as u64);
        string_push(&mut s, '/');
    }
    push_decimal_text(&mut s, total as u64);
    s
}

/// Two spaces per level.
pub open spec fn indent(depth: nat) -> Seq<char>
    decreases depth,
{
    if depth == 0 { seq![] } else { indent((depth - 1) as nat) + seq![' ', ' '] }
}

/// A row's line: its indentation, then for a folder its marker (`▾`
/// expanded, `▸` collapsed) and a space, then its name.
pub open spec fn spec_row_line(row: HostTreeRow) -> Seq<(Seq<char>, RowTone)> {
    match row.kind {
        HostTreeRowKind::Folder(_) => seq![
            (indent(row.depth as nat), RowTone::Plain),
            (if row.expanded { "▾"@ } else { "▸"@ }, RowTone::Glyph),
            (" "@, RowTone::Plain),
            (row.display_name@, RowTone::FolderName),
        ],
        HostTreeRowKind::Host(_) => seq![
            (indent(row.depth as nat), RowTone::Plain),
            (row.display_name@, RowTone::HostName),
        ],
    }
}

pub open spec fn row_line_model(line: Seq<RowSpan>) -> Seq<(Seq<char>, RowTone)> {
    line.map_values(|s: RowSpan| (s.text@, s.tone))
}

fn indentation(depth: usize) -> (s: String)
    ensures
        s@ == indent(depth as nat),
{
    let mut s = String::new();
    let mut k: usize = 0;
    while k < depth
        invariant
            k <= depth,
            s@ == indent(k as nat),
        decreases depth - k,
    {
        string_push(&mut s, ' ');
        string_push(&mut s, ' ');
        k += 1;
        assert(s@ =~= indent(k as nat));
    }
    s
}

fn row_span(text: String, tone: RowTone) -> (s: RowSpan)
    ensures
        s.text@ == text@ && s.tone == tone,
{
    RowSpan { text, tone }
}

/// The line of a host list row.
pub fn host_row_line(row: &HostTreeRow) -> (line: Vec<RowSpan>)
    ensures
        row_line_model(line@) == spec_row_line(*row),
{
    let mut line: Vec<RowSpan> = Vec::new();
    line.push(row_span(indentation(row.depth), RowTone::Plain));
    match row.kind {
        HostTreeRowKind::Folder(_) => {
            let glyph = if row.expanded { "▾" } else { "▸" };
            line.push(row_span(glyph.to_owned(), RowTone::Glyph));
            line.push(row_span(" ".to_owned(), RowTone::Plain));
            line.push(row_span(row.display_name.clone(), RowTone::FolderName));
        },
        HostTreeRowKind::Host(_) => {
            line.push(row_span(row.display_name.clone(), RowTone::HostName));
        },
    }
    assert(row_line_model(line@) =~= spec_row_line(*row));
    line
}

/// The lines of the rows in view: from row `scroll_offset`, at most
/// `viewport_height` of them.
pub fn visible_host_lines(rows: &Vec<HostTreeRow>, scroll_offset: usize, viewport_height: usize) -> (lines: Vec<Vec<RowSpan>>)
    ensures
        lines@.len() == if scroll_offset >= rows@.len() {
            0
        } else if rows@.len() - scroll_offset < viewport_height {
            rows@.len() - scroll_offset
        } else {
            viewport_height as int
        },
        forall|i: int| 0 <= i < lines@.len() ==> row_line_model(#[trigger] lines@[i]@) == spec_row_line(rows@[scroll_offset + i]),
{
    let mut lines: Vec<Vec<RowSpan>> = Vec::new();
    let mut i = scroll_offset;
    while i < rows.len() && i - scroll_offset < viewport_height
        invariant
            scroll_offset <= i,
            i <= rows@.len() || i == scroll_offset,
            lines@.len() == i - scroll_offset,
            i - scroll_offset <= viewport_height,
            forall|k: int| 0 <= k < lines@.len() ==> row_line_model(#[trigger] lines@[k]@) == spec_row_line(rows@[scroll_offset + k]),
        decreases rows.len() - i,
    {
        lines.push(host_row_line(&rows[i]));
        i += 1;
    }
    lines
}

/// The scrollbar of a list of `total_rows` rows in a viewport `height`
/// rows high, scrolled by `scroll_offset`: the first row and the length of
/// its thumb; none when all rows fit.
pub open spec fn spec_thumb(height: int, total_rows: int, scroll_offset: int) -> Option<(int, int)> {
    if total_rows <= height || height == 0 {
        None
    } else {
        let size = if height * height / total_rows >= 1 { height * height / total_rows } else { 1 };
        let pos = height * scroll_offset / total_rows;
        let max_pos = if height >= size { height - size } else { 0 };
        Some((if pos <= max_pos { pos } else { max_pos }, size))
    }
}

/// The host list's scrollbar thumb.
pub fn host_list_scrollbar_thumb(height: u16, total_rows: usize, scroll_offset: usize) -> (r: Option<(usize, usize)>)
    requires
        height * scroll_offset <= usize::MAX,
    ensures
        match r {
            Some((p, s)) => spec_thumb(height as int, total_rows as int, scroll_offset as int) == Some((p as int, s as int)),
            None => spec_thumb(height as int, total_rows as int, scroll_offset as int) is None,
        },
{
    let h = height as usize;
    if total_rows <= h || h == 0 {
        return None;
    }
    assert(h * h <= 0xffff * 0xffff) by (nonlinear_arith)
        requires
            h <= 0xffff,
    ;
    let quotient = h * h / total_rows;
    let size = if quotient >= 1 { quotient } else { 1 };
    let pos = h * scroll_offset / total_rows;
    let max_pos = if h >= size { h - size } else { 0 };
    Some((if pos <= max_pos { pos } else { max_pos }, size))
}

} // verus!
