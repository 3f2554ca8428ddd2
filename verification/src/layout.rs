//! Screen-area geometry: rectangles, hit tests, and scrolling of lists and
//! scrollbars.
use vstd::prelude::*;

verus! {

/// A rectangle of terminal cells.
#[derive(Clone, Copy, Debug, PartialEq, Eq)]
pub struct Rect {
    pub x: u16,
    pub y: u16,
    pub width: u16,
    pub height: u16,
}

impl Rect {
    pub fn new(x: u16, y: u16, width: u16, height: u16) -> (r: Rect)
        ensures
            r == (Rect { x, y, width, height }),
    {
        Rect { x, y, width, height }
    }
}

pub open spec fn sat_sub(a: int, b: int) -> int {
    if a >= b {
        a - b
    } else {
        0
    }
}

pub open spec fn sat_add_u16(a: int, b: int) -> int {
    if a + b > 0xffff {
        0xffff
    } else {
        a + b
    }
}

pub open spec fn min_int(a: int, b: int) -> int {
    if a <= b {
        a
    } else {
        b
    }
}

/// The cell `(col, row)` lies inside `rect`.
pub open spec fn spec_point_in_rect(rect: Rect, col: int, row: int) -> bool {
    rect.width > 0 && rect.height > 0 && rect.x <= col < rect.x + rect.width && rect.y <= row
        < rect.y + rect.height
}

/// Whether the cell `(col, row)` lies inside `rect`.
pub fn point_in_rect(rect: Rect, col: u16, row: u16) -> (r: bool)
    ensures
        r == spec_point_in_rect(rect, col as int, row as int),
{
    rect.width > 0 && rect.height > 0 && col >= rect.x && (col - rect.x) < rect.width && row
        >= rect.y && (row - rect.y) < rect.height
}

/// The inside of a bordered area: one cell in from each edge.
pub fn modal_inner_rect(area: Rect) -> (r: Rect)
    ensures
        r.x == sat_add_u16(area.x as int, 1),
        r.y == sat_add_u16(area.y as int, 1),
        r.width == sat_sub(area.width as int, 2),
        r.height == sat_sub(area.height as int, 2),
{
    Rect::new(
        area.x.saturating_add(1),
        area.y.saturating_add(1),
        area.width.saturating_sub(2),
        area.height.saturating_sub(2),
    )
}

/// Whether `col` falls on a label of `label_width` cells that starts at `start_col`.
pub fn column_in_label_range(start_col: u16, label_width: u16, col: u16) -> (r: bool)
    ensures
        r == (start_col <= col < sat_add_u16(start_col as int, label_width as int)),
{
    let end_col = start_col.saturating_add(label_width);
    col >= start_col && col < end_col
}

/// Screen coordinates to 1-based terminal coordinates inside `area`.
pub fn mouse_to_vt_coords(area: Rect, column: u16, row: u16) -> (r: Option<(u16, u16)>)
    ensures
        spec_point_in_rect(area, column as int, row as int) ==> r == Some(
            ((column - area.x + 1) as u16, (row - area.y + 1) as u16),
        ),
        !spec_point_in_rect(area, column as int, row as int) ==> r is None,
{
    if point_in_rect(area, column, row) {
        let vt_col = (column - area.x) + 1;
        let vt_row = (row - area.y) + 1;
        Some((vt_col, vt_row))
    } else {
        None
    }
}

/// Lines of the editor footer that fit in `inner_height`.
pub const EDITOR_FOOTER_LINE_COUNT: usize = 3;

pub fn footer_visible_lines(inner_height: u16) -> (n: usize)
    ensures
        n == min_int(EDITOR_FOOTER_LINE_COUNT as int, inner_height as int),
{
    if (inner_height as usize) < EDITOR_FOOTER_LINE_COUNT {
        inner_height as usize
    } else {
        EDITOR_FOOTER_LINE_COUNT
    }
}

/// Height left for the editor body above its footer.
pub fn body_viewport_height(inner_height: u16) -> (n: usize)
    ensures
        n == inner_height - min_int(EDITOR_FOOTER_LINE_COUNT as int, inner_height as int),
{
    inner_height as usize - footer_visible_lines(inner_height)
}

/// The body scroll offset that keeps the selected body row (if any) in view.
pub open spec fn spec_body_scroll_offset(selected_row: Option<usize>, total: int, viewport: int) -> int {
    if viewport == 0 || total <= viewport {
        0
    } else {
        let max_offset = total - viewport;
        let offset = match selected_row {
            Some(r) => if r >= viewport {
                r + 1 - viewport
            } else {
                0
            },
            None => 0,
        };
        min_int(offset, max_offset)
    }
}

/// Scroll offset of the editor body. `selected_row` is the selected item's
/// line in the body, which starts with a file line and a spacer line.
pub fn body_scroll_offset(selected_row: Option<usize>, total_body_lines: usize, viewport_height: usize) -> (r: usize)
    ensures
        r == spec_body_scroll_offset(selected_row, total_body_lines as int, viewport_height as int),
{
    if viewport_height == 0 || total_body_lines <= viewport_height {
        return 0;
    }
    let max_offset = total_body_lines - viewport_height;
    let mut scroll_offset: usize = 0;
    if let Some(selected_row) = selected_row {
        if selected_row >= viewport_height {
            scroll_offset = selected_row - viewport_height + 1;
        }
    }
    if scroll_offset < max_offset { scroll_offset } else { max_offset }
}

/// A vertical scrollbar: its column, thumb position and size, and the
/// largest scroll offset.
#[derive(Clone, Copy, Debug, PartialEq, Eq)]
pub struct EditorScrollbarGeometry {
    pub area: Rect,
    pub thumb_top: u16,
    pub thumb_height: u16,
    pub max_offset: usize,
}

pub open spec fn spec_scrollbar_geometry(inner: Rect, total: int, viewport: int, scroll: int) -> Option<EditorScrollbarGeometry> {
    if inner.width < 2 || viewport == 0 || total <= viewport || viewport > 0xffff {
        None
    } else {
        let area = Rect {
            x: sat_add_u16(inner.x as int, sat_sub(inner.width as int, 1)) as u16,
            y: inner.y,
            width: 1,
            height: viewport as u16,
        };
        let max_offset = total - viewport;
        let thumb = min_int(
            if viewport * viewport / total >= 1 { viewport * viewport / total } else { 1 },
            viewport,
        );
        let track = viewport - thumb;
        let clamped = min_int(scroll, max_offset);
        let thumb_offset = if track == 0 {
            0
        } else {
            min_int(track * clamped, usize::MAX as int) / max_offset
        };
        Some(
            EditorScrollbarGeometry {
                area,
                thumb_top: sat_add_u16(inner.y as int, thumb_offset) as u16,
                thumb_height: thumb as u16,
                max_offset: max_offset as usize,
            },
        )
    }
}

/// `a * b`, or `usize::MAX` when the product does not fit.
pub fn saturating_mul_usize(a: usize, b: usize) -> (r: usize)
    ensures
        r == min_int(a * b, usize::MAX as int),
{
    if b != 0 && a > usize::MAX / b {
        assert(a * b > usize::MAX) by (nonlinear_arith)
            requires
                b > 0,
                a > usize::MAX / b,
        ;
        usize::MAX
    } else {
        assert(a * b <= usize::MAX) by (nonlinear_arith)
            requires
                b == 0 || a <= usize::MAX / b,
                a >= 0,
        ;
        a * b
    }
}

/// Scrollbar geometry for a body of `total_body_lines` lines shown
/// `viewport_height` at a time; `None` when everything fits.
pub fn scrollbar_geometry(inner_area: Rect, total_body_lines: usize, viewport_height: usize, scroll_offset: usize) -> (r: Option<EditorScrollbarGeometry>)
    requires
        viewport_height <= 0xffff,
    ensures
        r == spec_scrollbar_geometry(inner_area, total_body_lines as int, viewport_height as int, scroll_offset as int),
{
    if inner_area.width < 2 || viewport_height == 0 || total_body_lines <= viewport_height {
        return None;
    }
    let area = Rect::new(
        inner_area.x.saturating_add(inner_area.width.saturating_sub(1)),
        inner_area.y,
        1,
        viewport_height as u16,
    );
    let scrollbar_height = area.height as usize;
    let total_rows = total_body_lines;
    let max_offset = total_body_lines - viewport_height;
    assert(scrollbar_height * viewport_height <= 0xffff * 0xffff) by (nonlinear_arith)
        requires
            scrollbar_height <= 0xffff,
            viewport_height <= 0xffff,
    ;
    let ratio = scrollbar_height * viewport_height / total_rows;
    let raw_thumb = if ratio >= 1 { ratio } else { 1 };
    let thumb = if raw_thumb <= scrollbar_height { raw_thumb } else { scrollbar_height };
    let available_track = scrollbar_height - thumb;
    let clamped_offset = if scroll_offset <= max_offset { scroll_offset } else { max_offset };
    let thumb_offset: usize = if available_track == 0 {
        0
    } else {
        saturating_mul_usize(available_track, clamped_offset) / max_offset
    };
    proof {
        if available_track != 0 {
            assert(min_int(available_track * clamped_offset, usize::MAX as int) / (max_offset as int) <= available_track) by (nonlinear_arith)
                requires
                    clamped_offset <= max_offset,
                    max_offset > 0,
                    available_track >= 0,
                    clamped_offset >= 0,
            ;
        }
    }
    Some(
        EditorScrollbarGeometry {
            area,
            thumb_top: area.y.saturating_add(thumb_offset as u16),
            thumb_height: thumb as u16,
            max_offset,
        },
    )
}

/// Width of the body text, one column narrower when a scrollbar is shown.
pub fn body_content_width(inner_width: u16, scrollbar: Option<EditorScrollbarGeometry>) -> (w: u16)
    ensures
        w == if scrollbar is Some { sat_sub(inner_width as int, 1) } else { inner_width as int },
{
    if scrollbar.is_some() {
        inner_width.saturating_sub(1)
    } else {
        inner_width
    }
}

/// The scroll offset for a click or drag on the scrollbar track at `row`,
/// rounded to the nearest offset.
pub open spec fn spec_offset_from_track_row(area_y: int, area_height: int, max_offset: int, row: int) -> int {
    if area_height == 0 || max_offset == 0 || area_height - 1 == 0 {
        0
    } else {
        let track = area_height - 1;
        let local = min_int(sat_sub(row, area_y), area_height - 1);
        (local * max_offset + track / 2) / track
    }
}

/// The scroll offset for a mouse row on the editor scrollbar.
pub fn scroll_offset_from_scrollbar_row(geometry: EditorScrollbarGeometry, mouse_row: u16) -> (r: usize)
    requires
        0xffff * geometry.max_offset + 0x8000 <= usize::MAX,
    ensures
        r == spec_offset_from_track_row(geometry.area.y as int, geometry.area.height as int, geometry.max_offset as int, mouse_row as int),
{
    if geometry.area.height == 0 || geometry.max_offset == 0 {
        return 0;
    }
    let track_len = (geometry.area.height - 1) as usize;
    if track_len == 0 {
        return 0;
    }
    let below = mouse_row.saturating_sub(geometry.area.y);
    let local_row = (if below <= geometry.area.height - 1 { below } else { geometry.area.height - 1 }) as usize;
    assert(local_row * geometry.max_offset <= 0xffff * geometry.max_offset) by (nonlinear_arith)
        requires
            local_row <= 0xffff,
    ;
    (local_row * geometry.max_offset + (track_len / 2)) / track_len
}

/// Scroll offset that centers the selected row of a list where possible.
pub open spec fn spec_folder_picker_scroll_offset(selected: usize, total: usize, viewport: usize) -> int {
    if total <= viewport || viewport == 0 {
        0
    } else {
        min_int(sat_sub(selected as int, viewport as int / 2), total - viewport)
    }
}

/// Scroll offset that centers the selected row of a list where possible.
pub fn folder_picker_scroll_offset(selected: usize, total: usize, viewport: usize) -> (r: usize)
    ensures
        r == spec_folder_picker_scroll_offset(selected, total, viewport),
{
    if total <= viewport || viewport == 0 {
        return 0;
    }
    let half = viewport / 2;
    let max_offset = total - viewport;
    let s = if selected >= half { selected - half } else { 0 };
    if s <= max_offset { s } else { max_offset }
}

/// The list scroll offset that keeps the selected row in a viewport of
/// `viewport_height` rows, moving as little as possible.
pub fn update_host_scroll(selected_row: usize, scroll_offset: usize, row_count: usize, viewport_height: usize) -> (r: usize)
    ensures
        row_count == 0 || viewport_height == 0 ==> r == scroll_offset,
        row_count > 0 && viewport_height > 0 ==> r == if selected_row < scroll_offset {
            selected_row as int
        } else if selected_row >= scroll_offset + viewport_height {
            selected_row - (viewport_height - 1)
        } else {
            scroll_offset as int
        },
        row_count > 0 && viewport_height > 0 ==> r <= selected_row < r + viewport_height,
{
    if row_count == 0 || viewport_height == 0 {
        return scroll_offset;
    }
    if selected_row < scroll_offset {
        selected_row
    } else if selected_row - scroll_offset >= viewport_height {
        selected_row - (viewport_height - 1)
    } else {
        scroll_offset
    }
}

/// Dragging the host list scrollbar to `mouse_row`: the new scroll offset,
/// and the new selected row at the same height in the viewport.
pub open spec fn spec_host_scroll_from_scrollbar_row(
    list_y: int,
    list_height: int,
    total_rows: int,
    selected_row: int,
    scroll_offset: int,
    mouse_row: int,
) -> Option<(int, int)> {
    let viewport = list_height;
    if list_height == 0 || total_rows <= viewport {
        None
    } else {
        let max_offset = total_rows - viewport;
        let track = viewport - 1;
        let local = min_int(sat_sub(mouse_row, list_y), list_height - 1);
        let new_offset = min_int(
            if track == 0 {
                0
            } else {
                (local * max_offset + track / 2) / track
            },
            max_offset,
        );
        let relative = min_int(sat_sub(selected_row, scroll_offset), viewport - 1);
        Some((new_offset, min_int(new_offset + relative, total_rows - 1)))
    }
}

/// Scroll offset and selected row after a drag on the host list scrollbar;
/// `None` when the list has no scrollbar.
pub fn host_scroll_from_scrollbar_row(
    list_y: u16,
    list_height: u16,
    total_rows: usize,
    selected_row: usize,
    scroll_offset: usize,
    mouse_row: u16,
) -> (r: Option<(usize, usize)>)
    requires
        0xffff * total_rows + 0x8000 <= usize::MAX,
    ensures
        match r {
            Some((o, s)) => spec_host_scroll_from_scrollbar_row(list_y as int, list_height as int, total_rows as int, selected_row as int, scroll_offset as int, mouse_row as int) == Some((o as int, s as int)),
            None => spec_host_scroll_from_scrollbar_row(list_y as int, list_height as int, total_rows as int, selected_row as int, scroll_offset as int, mouse_row as int) is None,
        },
{
    let viewport_height = list_height as usize;
    if list_height == 0 || total_rows <= viewport_height {
        return None;
    }
    let max_offset = total_rows - viewport_height;
    let track_len = viewport_height - 1;
    let below = mouse_row.saturating_sub(list_y);
    let local_row = (if below <= list_height - 1 { below } else { list_height - 1 }) as usize;
    let raw = if track_len == 0 {
        0
    } else {
        assert(local_row * max_offset <= 0xffff * total_rows) by (nonlinear_arith)
            requires
                local_row <= 0xffff,
                max_offset <= total_rows,
        ;
        (local_row * max_offset + (track_len / 2)) / track_len
    };
    let new_offset = if raw <= max_offset { raw } else { max_offset };
    let gap = if selected_row >= scroll_offset { selected_row - scroll_offset } else { 0 };
    let relative_row = if gap <= viewport_height - 1 { gap } else { viewport_height - 1 };
    let candidate = new_offset + relative_row;
    let new_selected = if candidate <= total_rows - 1 { candidate } else { total_rows - 1 };
    Some((new_offset, new_selected))
}

/// The empty rectangle.
pub open spec fn no_rect() -> Rect {
    Rect { x: 0, y: 0, width: 0, height: 0 }
}

/// The host panel drawn in `panel` (its last column being the divider):
/// the host list on top and, when the info pane is shown and the panel is
/// more than four lines high, the info pane below it, between three lines
/// (or what is left above four list lines) and all but four lines high.
/// Returns the list's area, the info pane's area (empty when not shown),
/// and the info pane's height kept within those bounds.
pub open spec fn spec_split_host_panel(panel: Rect, info_visible: bool, info_height: u16) -> (Rect, Rect, u16) {
    let w = sat_sub(panel.width as int, 1) as u16;
    let content = Rect { x: panel.x, y: panel.y, width: w, height: panel.height };
    if w == 0 || !info_visible || panel.height <= 4 {
        (content, no_rect(), info_height)
    } else {
        let max_info = panel.height - 4;
        let min_info = min_int(3, max_info);
        let h = if info_height < min_info { min_info } else if info_height > max_info { max_info } else { info_height as int };
        let list_h = panel.height - h;
        (
            Rect { x: panel.x, y: panel.y, width: w, height: list_h as u16 },
            if h > 0 { Rect { x: panel.x, y: sat_add_u16(panel.y as int, list_h) as u16, width: w, height: h as u16 } } else { no_rect() },
            h as u16,
        )
    }
}

/// Split the host panel into the host list and the info pane.
pub fn split_host_panel(panel: Rect, info_visible: bool, info_height: u16) -> (r: (Rect, Rect, u16))
    ensures
        r == spec_split_host_panel(panel, info_visible, info_height),
{
    let w = panel.width.saturating_sub(1);
    let content = Rect::new(panel.x, panel.y, w, panel.height);
    if w == 0 || !info_visible || panel.height <= 4 {
        return (content, Rect::new(0, 0, 0, 0), info_height);
    }
    let max_info = panel.height - 4;
    let min_info = if 3 < max_info { 3 } else { max_info };
    let h = if info_height < min_info { min_info } else if info_height > max_info { max_info } else { info_height };
    let list_h = panel.height - h;
    let info = if h > 0 { Rect::new(panel.x, panel.y.saturating_add(list_h), w, h) } else { Rect::new(0, 0, 0, 0) };
    (Rect::new(panel.x, panel.y, w, list_h), info, h)
}

} // verus!

verus! {

/// The low 16 bits of a non-negative integer, as `as u16` keeps them.
pub open spec fn low_u16(v: int) -> int {
    v % 65536
}

/// Starting width of the host panel and height of the info pane for a
/// terminal of `term_width` x `term_height` cells, given the configured
/// percentages: the panel takes `host_percent`% of the width, clamped to
/// 15..=80 columns; the info pane takes `info_percent`% of the content height
/// (the terminal less its two bar rows), at least 3 rows, and leaves the
/// host list at least 4 rows where the content is taller than 4.
pub open spec fn spec_initial_panel_sizes(term_width: u16, term_height: u16, host_percent: u16, info_percent: u16) -> (u16, u16) {
    let raw_width = low_u16(term_width * host_percent / 100);
    let width = if raw_width < 15 { 15 } else if raw_width > 80 { 80 } else { raw_width };
    let content_height = sat_sub(term_height as int, 2);
    let raw_info = low_u16(content_height * info_percent / 100);
    let info = if raw_info < 3 { 3 } else { raw_info };
    let info = if content_height > 4 && info > content_height - 4 { content_height - 4 } else { info };
    (width as u16, info as u16)
}

/// Initial host panel width and info pane height (see `spec_initial_panel_sizes`).
pub fn initial_panel_sizes(term_width: u16, term_height: u16, host_percent: u16, info_percent: u16) -> (r: (u16, u16))
    ensures
        r == spec_initial_panel_sizes(term_width, term_height, host_percent, info_percent),
{
    assert(term_width * host_percent <= 65535 * 65535) by (nonlinear_arith)
        requires term_width <= 65535, host_percent <= 65535;
    let product: u32 = term_width as u32 * host_percent as u32;
    let raw_width: u32 = (product / 100) % 65536;
    let width: u16 = if raw_width < 15 { 15 } else if raw_width > 80 { 80 } else { raw_width as u16 };
    let content_height: u16 = term_height.saturating_sub(2);
    assert(content_height * info_percent <= 65535 * 65535) by (nonlinear_arith)
        requires content_height <= 65535, info_percent <= 65535;
    let info_product: u32 = content_height as u32 * info_percent as u32;
    let raw_info: u32 = (info_product / 100) % 65536;
    let mut info: u16 = if raw_info < 3 { 3 } else { raw_info as u16 };
    if content_height > 4 && info > content_height - 4 {
        info = content_height - 4;
    }
    (width, info)
}

} // verus!
