//! Routing of mouse events over the session manager's panels: the panel
//! divider, the host-info divider, the host list and its scrollbar, the tab
//! bar, and the terminal area (local text selection or mouse reports for the
//! program in the PTY).
//!
//! The router is a transition function: it takes the manager's UI state, the
//! tabs (as their widths and scroll state) and the event, changes the state,
//! and returns the effects that only the caller can carry out (toggling a
//! folder, connecting, writing a report to the PTY, copying to the clipboard).
use vstd::prelude::*;
use crate::layout::{Rect, spec_point_in_rect, point_in_rect, spec_host_scroll_from_scrollbar_row, host_scroll_from_scrollbar_row, sat_sub, sat_add_u16, min_int};
use crate::tab_strip::{
    TabBarHit, strip_fits, tabs_padded, spec_normalize_offset, spec_tab_bar_hit,
    spec_prev_offset, spec_next_offset, spec_ensure_tab_visible, tab_bar_hit_test,
    prev_tab_scroll_offset, next_tab_scroll_offset, ensure_tab_visible, move_tab,
    lemma_total_remove_insert,
};
use crate::key_encoding::KeyModifiers;

verus! {

/// A mouse button.
#[derive(Clone, Copy, Debug, PartialEq, Eq, Structural)]
pub enum MouseButton {
    Left,
    Right,
    Middle,
}

/// What the mouse did.
#[derive(Clone, Copy, Debug, PartialEq, Eq)]
pub enum MouseEventKind {
    Down(MouseButton),
    Up(MouseButton),
    Drag(MouseButton),
    Moved,
    ScrollDown,
    ScrollUp,
    ScrollLeft,
    ScrollRight,
}

/// A mouse event at a screen cell.
#[derive(Clone, Copy, Debug, PartialEq, Eq)]
pub struct MouseInput {
    pub kind: MouseEventKind,
    pub column: u16,
    pub row: u16,
    pub modifiers: KeyModifiers,
}

/// Which mouse events the program in the PTY asked to receive.
#[derive(Clone, Copy, Debug, PartialEq, Eq, Structural)]
pub enum MouseProtocolMode {
    /// No mouse reporting.
    Disabled,
    Press,
    PressRelease,
    ButtonMotion,
    AnyMotion,
}

/// A mouse report for the program in the PTY (1-based cell coordinates).
#[derive(Clone, Copy, Debug, PartialEq, Eq)]
pub struct MouseReport {
    pub button: u8,
    pub col: u16,
    pub row: u16,
    pub release: bool,
}

/// What the caller has to carry out after routing an event.
#[derive(Clone, Copy, Debug, PartialEq, Eq)]
pub enum MouseEffect {
    /// Close the terminal search of the current tab.
    ClearTerminalSearch,
    /// Hand the event to the open quick-connect modal.
    QuickConnect,
    /// Expand or collapse the folder on this visible host row.
    ToggleFolder(usize),
    /// Connect to the selected host.
    ConnectSelectedHost,
    /// The tab at this index was closed (the caller removes it too).
    TabClosed(usize),
    /// The tab at the first index was moved to the second one.
    TabMoved(usize, usize),
    /// Send this report to the program in the PTY.
    Report(MouseReport),
    /// Copy the selected text to the clipboard.
    CopySelection,
}

/// One tab as the router sees it.
#[derive(Clone, Copy, Debug, PartialEq, Eq)]
pub struct TabView {
    /// Display width in the tab bar (title width plus three).
    pub width: usize,
    /// Lines scrolled back from the bottom.
    pub scroll_offset: usize,
    /// Lines of scrollback available.
    pub max_scrollback: usize,
}

/// The session manager's UI state that mouse handling reads and changes.
#[derive(Clone, Copy, Debug, PartialEq, Eq)]
pub struct ManagerView {
    pub host_panel_area: Rect,
    pub host_info_area: Rect,
    pub host_list_area: Rect,
    pub tab_bar_area: Rect,
    pub tab_content_area: Rect,
    pub host_panel_visible: bool,
    pub host_info_visible: bool,
    pub host_panel_width: u16,
    pub host_info_height: u16,
    pub focus_on_manager: bool,
    pub search_mode: bool,
    pub selected_tab: usize,
    pub tab_scroll_offset: usize,
    pub dragging_tab: Option<usize>,
    pub selected_host_row: usize,
    pub host_scroll_offset: usize,
    pub selection_start: Option<(i64, u16)>,
    pub selection_end: Option<(i64, u16)>,
    pub is_selecting: bool,
    pub selection_dragged: bool,
    pub is_dragging_divider: bool,
    pub is_dragging_host_scrollbar: bool,
    pub is_dragging_host_info_divider: bool,
    /// Time (ms), column and row of the last click on a host row.
    pub last_click: Option<(u64, u16, u16)>,
}

/// What the router reads from outside the manager's own state.
#[derive(Clone, Copy, Debug, PartialEq, Eq)]
pub struct MouseContext {
    /// A password prompt is open: the mouse is ignored.
    pub prompt_open: bool,
    /// The quick-connect modal is open: it takes the event.
    pub quick_connect_open: bool,
    /// The current tab's terminal search is active.
    pub search_active: bool,
    /// Mouse mode of the program in the current tab's PTY.
    pub pty_mouse_mode: MouseProtocolMode,
    /// Current time in milliseconds.
    pub now_ms: u64,
}

/// Narrowest the host panel can be dragged to.
pub const HOST_PANEL_MIN_WIDTH: u16 = 15;
/// Widest the host panel can be dragged to.
pub const HOST_PANEL_MAX_WIDTH: u16 = 80;
/// Rows the host list keeps when the info pane is dragged up.
pub const MIN_HOST_LIST_HEIGHT: u16 = 4;
/// Rows the info pane keeps when it is dragged down.
pub const MIN_HOST_INFO_HEIGHT: u16 = 3;
/// Two clicks on the same cell within this many milliseconds are a double click.
pub const DOUBLE_CLICK_MS: u64 = 400;

/// Largest scroll offset or scrollback a tab may have, so that absolute rows fit in `i64`.
pub open spec fn scroll_limit() -> int {
    0x7fff_ffff_fffe_ffff
}

/// Widths of the tabs, in order.
pub open spec fn widths_of(tabs: Seq<TabView>) -> Seq<usize> {
    tabs.map_values(|t: TabView| t.width)
}

/// A rectangle that lies on a `u16` screen.
pub open spec fn rect_on_screen(r: Rect) -> bool {
    r.x + r.width <= 0xffff && r.y + r.height <= 0xffff
}

/// The tabs and UI state are in a state the router can work on.
pub open spec fn router_ready(ui: ManagerView, tabs: Seq<TabView>, rows: Seq<bool>) -> bool {
    &&& tabs_sound(tabs)
    &&& rect_on_screen(ui.host_panel_area)
    &&& rect_on_screen(ui.host_info_area)
    &&& rect_on_screen(ui.host_list_area)
    &&& rect_on_screen(ui.tab_bar_area)
    &&& rect_on_screen(ui.tab_content_area)
    &&& ui.host_scroll_offset + 0x10000 <= usize::MAX
    &&& 0xffff * rows.len() + 0x8000 <= usize::MAX
}

/// The event is a drag of the info divider on a host panel 5 or 6 rows
/// tall, where the range of split rows is empty and clamping to it fails.
pub open spec fn info_drag_undefined(ui: ManagerView, ctx: MouseContext, ev: MouseInput) -> bool {
    &&& !ctx.prompt_open
    &&& !ctx.quick_connect_open
    &&& ev.kind == MouseEventKind::Drag(MouseButton::Left)
    &&& !(ui.is_dragging_divider && ui.host_panel_visible)
    &&& ui.is_dragging_host_info_divider
    &&& ui.host_panel_visible
    &&& ui.host_info_visible
    &&& MIN_HOST_LIST_HEIGHT < ui.host_panel_area.height < MIN_HOST_LIST_HEIGHT + MIN_HOST_INFO_HEIGHT
}

/// Selection cleared.
pub open spec fn cleared(ui: ManagerView) -> ManagerView {
    ManagerView { selection_start: None, selection_end: None, is_selecting: false, ..ui }
}

/// Focus moved to the host panel, showing it.
pub open spec fn focused(ui: ManagerView) -> ManagerView {
    ManagerView { focus_on_manager: true, host_panel_visible: true, ..ui }
}

/// The row selected in a list of `count` rows when asked for `row`.
pub open spec fn synced_row(row: int, count: int) -> int {
    if count == 0 {
        0
    } else if row >= count {
        count - 1
    } else {
        row
    }
}

/// Any mouse reporting is on.
pub open spec fn pty_active(ctx: MouseContext) -> bool {
    ctx.pty_mouse_mode != MouseProtocolMode::Disabled
}

/// Alt or Shift forces local selection even when the PTY wants the mouse.
pub open spec fn spec_force_local(m: KeyModifiers) -> bool {
    m.alt || m.shift
}

/// The cell as 1-based coordinates of the terminal area, when inside it.
pub open spec fn vt_coords(ui: ManagerView, col: int, row: int) -> Option<(u16, u16)> {
    let a = ui.tab_content_area;
    if spec_point_in_rect(a, col, row) {
        Some(((col - a.x + 1) as u16, (row - a.y + 1) as u16))
    } else {
        None
    }
}

/// A report effect at the cell, when the cell is in the terminal area.
pub open spec fn report_at(ui: ManagerView, ev: MouseInput, button: u8, release: bool) -> Seq<MouseEffect> {
    match vt_coords(ui, ev.column as int, ev.row as int) {
        Some((c, r)) => seq![MouseEffect::Report(MouseReport { button, col: c, row: r, release })],
        None => seq![],
    }
}

/// Column of the divider between the host panel and the tabs.
pub open spec fn divider_col(ui: ManagerView) -> int {
    ui.host_panel_area.x + sat_sub(ui.host_panel_area.width as int, 1)
}

/// Column of the host list scrollbar, shown when the rows overflow.
pub open spec fn host_scrollbar_x(ui: ManagerView, row_count: int) -> Option<int> {
    let a = ui.host_list_area;
    if !ui.host_panel_visible || a.width == 0 || a.height == 0 || row_count <= a.height {
        None
    } else {
        Some(a.x + sat_sub(a.width as int, 1))
    }
}

/// State after dragging the host list scrollbar to `row`.
pub open spec fn scrollbar_dragged(ui: ManagerView, row_count: int, row: int) -> ManagerView {
    match spec_host_scroll_from_scrollbar_row(
        ui.host_list_area.y as int,
        ui.host_list_area.height as int,
        row_count,
        ui.selected_host_row as int,
        ui.host_scroll_offset as int,
        row,
    ) {
        Some((o, s)) => ManagerView {
            host_scroll_offset: o as usize,
            selected_host_row: synced_row(s, row_count) as usize,
            ..ui
        },
        None => ui,
    }
}

/// Tab state after closing the selected tab.
#[verifier::opaque]
pub open spec fn after_close(ui: ManagerView, tabs: Seq<TabView>) -> (ManagerView, Seq<TabView>) {
    if tabs.len() == 0 || ui.selected_tab >= tabs.len() {
        (ui, tabs)
    } else {
        let rest = tabs.remove(ui.selected_tab as int);
        let sel = if ui.selected_tab >= rest.len() && ui.selected_tab > 0 {
            (ui.selected_tab - 1) as usize
        } else {
            ui.selected_tab
        };
        let ui2 = ManagerView { selected_tab: sel, ..ui };
        (if rest.len() == 0 { focused(ui2) } else { ui2 }, rest)
    }
}

/// Tab scroll offset after making the selected tab visible.
#[verifier::opaque]
pub open spec fn visible(ui: ManagerView, tabs: Seq<TabView>) -> ManagerView {
    ManagerView {
        tab_scroll_offset: spec_ensure_tab_visible(
            widths_of(tabs),
            ui.selected_tab as int,
            ui.tab_scroll_offset as int,
            ui.tab_bar_area.width as int,
        ) as usize,
        ..ui
    }
}

/// A tab's scroll offset replaced.
pub open spec fn with_scroll(tabs: Seq<TabView>, i: int, v: int) -> Seq<TabView> {
    tabs.update(i, TabView { scroll_offset: v as usize, ..tabs[i] })
}

/// A click on the left overflow marker: scroll one tab back.
#[verifier::opaque]
pub open spec fn overflow_left(ui: ManagerView, tabs: Seq<TabView>) -> ManagerView {
    match spec_prev_offset(widths_of(tabs), ui.tab_scroll_offset as int, ui.tab_bar_area.width as int) {
        Some(p) => ManagerView { tab_scroll_offset: p as usize, ..ui },
        None => ui,
    }
}

/// A click on the right overflow marker: scroll one tab on.
#[verifier::opaque]
pub open spec fn overflow_right(ui: ManagerView, tabs: Seq<TabView>) -> ManagerView {
    match spec_next_offset(widths_of(tabs), ui.tab_scroll_offset as int, ui.tab_bar_area.width as int) {
        Some(p) => ManagerView { tab_scroll_offset: p as usize, ..ui },
        None => ui,
    }
}

/// A click on the close marker of tab `i`.
#[verifier::opaque]
pub open spec fn close_clicked(ui: ManagerView, tabs: Seq<TabView>, i: usize) -> (ManagerView, Seq<TabView>, Seq<MouseEffect>) {
    let (ui2, rest) = after_close(ManagerView { selected_tab: i, ..ui }, tabs);
    let ui3 = if rest.len() == 0 { ManagerView { selected_tab: 0, ..ui2 } } else { ui2 };
    (
        cleared(visible(ui3, rest)),
        rest,
        if (i as int) < tabs.len() { seq![MouseEffect::TabClosed(i)] } else { seq![] },
    )
}

/// State after a click on the tab bar that hit `hit` (the tab scroll offset
/// already normalized).
#[verifier::opaque]
pub open spec fn tab_bar_clicked(ui: ManagerView, tabs: Seq<TabView>, hit: Option<TabBarHit>) -> (ManagerView, Seq<TabView>, Seq<MouseEffect>) {
    match hit {
        Some(TabBarHit::LeftOverflow) => (overflow_left(ui, tabs), tabs, seq![]),
        Some(TabBarHit::RightOverflow) => (overflow_right(ui, tabs), tabs, seq![]),
        Some(TabBarHit::TabClose(i)) => close_clicked(ui, tabs, i),
        Some(TabBarHit::TabTitle(i)) => (
            cleared(visible(ManagerView { selected_tab: i, focus_on_manager: false, dragging_tab: Some(i), ..ui }, tabs)),
            tabs,
            seq![],
        ),
        None => (cleared(visible(ManagerView { focus_on_manager: false, ..ui }, tabs)), tabs, seq![]),
    }
}

/// The screen areas and the host list scroll position, which tab handling leaves alone.
pub open spec fn same_frame(a: ManagerView, b: ManagerView) -> bool {
    &&& a.host_panel_area == b.host_panel_area
    &&& a.host_info_area == b.host_info_area
    &&& a.host_list_area == b.host_list_area
    &&& a.tab_bar_area == b.tab_bar_area
    &&& a.tab_content_area == b.tab_content_area
    &&& a.host_scroll_offset == b.host_scroll_offset
}

/// Scroll offsets and scrollback of every tab stay within `scroll_limit`.
pub open spec fn scrolls_bounded(tabs: Seq<TabView>) -> bool {
    forall|i: int| 0 <= i < tabs.len() ==> (#[trigger] tabs[i]).scroll_offset <= scroll_limit()
        && tabs[i].max_scrollback <= scroll_limit()
}

/// The tabs fit the tab bar arithmetic, each is at least as wide as its
/// padding, and their scroll state is bounded.
#[verifier::opaque]
pub open spec fn tabs_sound(tabs: Seq<TabView>) -> bool {
    &&& strip_fits(widths_of(tabs))
    &&& tabs_padded(widths_of(tabs))
    &&& scrolls_bounded(tabs)
}

/// The tab scroll offset the tab bar is drawn from.
#[verifier::opaque]
pub open spec fn normalized(ui: ManagerView, tabs: Seq<TabView>) -> ManagerView {
    if tabs.len() == 0 || ui.tab_bar_area.width == 0 {
        ui
    } else {
        ManagerView {
            tab_scroll_offset: spec_normalize_offset(widths_of(tabs), ui.tab_scroll_offset as int, ui.tab_bar_area.width as int) as usize,
            ..ui
        }
    }
}

/// The tab bar hit at the event's column (after normalizing the offset).
#[verifier::opaque]
pub open spec fn bar_hit(ui: ManagerView, tabs: Seq<TabView>, col: int) -> Option<TabBarHit> {
    let n = normalized(ui, tabs);
    if tabs.len() == 0 || ui.tab_bar_area.width == 0 {
        None
    } else {
        spec_tab_bar_hit(widths_of(tabs), ui.tab_bar_area.x as int, ui.tab_bar_area.width as int, n.tab_scroll_offset as int, col)
    }
}

/// A press on the host list (with `ui` already reset for a new press).
#[verifier::opaque]
pub open spec fn spec_host_list_press(ui: ManagerView, rows: Seq<bool>, ctx: MouseContext, ev: MouseInput) -> (ManagerView, Seq<MouseEffect>) {
    let col = ev.column as int;
    let row = ev.row as int;
    let hl = ui.host_list_area;
    if host_scrollbar_x(ui, rows.len() as int) == Some(col) {
        (cleared(scrollbar_dragged(ManagerView { is_dragging_host_scrollbar: true, ..focused(ui) }, rows.len() as int, row)), seq![])
    } else {
        let idx = ui.host_scroll_offset + (row - hl.y);
        if idx < rows.len() {
            let sel = focused(ManagerView { selected_host_row: idx as usize, ..ui });
            if rows[idx] {
                (cleared(ManagerView { last_click: None, ..sel }), seq![MouseEffect::ToggleFolder(idx as usize)])
            } else {
                let double = match ui.last_click {
                    Some((t, c, r)) => sat_sub(ctx.now_ms as int, t as int) < DOUBLE_CLICK_MS && c == ev.column && r == ev.row,
                    None => false,
                };
                if double {
                    (cleared(ManagerView { last_click: None, ..sel }), seq![MouseEffect::ConnectSelectedHost])
                } else {
                    (cleared(ManagerView { last_click: Some((ctx.now_ms, ev.column, ev.row)), ..sel }), seq![])
                }
            }
        } else {
            (cleared(focused(ui)), seq![])
        }
    }
}

/// A press in the terminal area of the selected tab.
#[verifier::opaque]
pub open spec fn spec_content_press(ui: ManagerView, tabs: Seq<TabView>, ctx: MouseContext, ev: MouseInput) -> (ManagerView, Seq<TabView>, Seq<MouseEffect>) {
    let ui2 = ManagerView { focus_on_manager: false, search_mode: false, ..ui };
    let sel = ui.selected_tab as int;
    if pty_active(ctx) && !spec_force_local(ev.modifiers) {
        (ManagerView { selection_dragged: false, ..cleared(ui2) }, with_scroll(tabs, sel, 0), report_at(ui, ev, 0, false))
    } else {
        let vt_row = ev.row - ui.tab_content_area.y;
        let vt_col = ev.column - ui.tab_content_area.x;
        let abs = (vt_row - tabs[sel].scroll_offset) as i64;
        (
            ManagerView {
                selection_start: Some((abs, vt_col as u16)),
                selection_end: Some((abs, vt_col as u16)),
                is_selecting: true,
                selection_dragged: false,
                ..ui2
            },
            tabs,
            seq![],
        )
    }
}

/// A press with the panel drag state reset.
pub open spec fn press_reset(ui: ManagerView) -> ManagerView {
    ManagerView { is_dragging_host_scrollbar: false, is_dragging_host_info_divider: false, dragging_tab: None, ..ui }
}

/// A left-button press.
pub open spec fn spec_left_down(ui0: ManagerView, tabs: Seq<TabView>, rows: Seq<bool>, ctx: MouseContext, ev: MouseInput) -> (ManagerView, Seq<TabView>, Seq<MouseEffect>) {
    let ui = press_reset(ui0);
    let col = ev.column as int;
    let row = ev.row as int;
    let hp = ui.host_panel_area;
    if ui.host_panel_visible && hp.width > 0 && col == divider_col(ui) {
        (cleared(ManagerView { is_dragging_divider: true, ..ui }), tabs, seq![])
    } else if ui.host_panel_visible && ui.host_info_visible && ui.host_info_area.height > 0
        && row == ui.host_info_area.y && hp.x <= col < divider_col(ui) {
        (cleared(ManagerView { is_dragging_host_info_divider: true, ..focused(ui) }), tabs, seq![])
    } else if ui.host_panel_visible && spec_point_in_rect(ui.host_list_area, col, row) {
        let (u, e) = spec_host_list_press(ui, rows, ctx, ev);
        (u, tabs, e)
    } else if ui.host_panel_visible && spec_point_in_rect(hp, col, row) {
        (cleared(focused(ui)), tabs, seq![])
    } else if tabs.len() > 0 && spec_point_in_rect(ui.tab_bar_area, col, row) {
        tab_bar_clicked(normalized(ui, tabs), tabs, bar_hit(ui, tabs, col))
    } else if tabs.len() > 0 && ui.selected_tab < tabs.len() && spec_point_in_rect(ui.tab_content_area, col, row) {
        spec_content_press(ui, tabs, ctx, ev)
    } else {
        (cleared(ui), tabs, seq![])
    }
}

/// Host panel width after dragging its divider to column `col`.
pub open spec fn dragged_panel_width(ui: ManagerView, col: int) -> int {
    let w = sat_add_u16(sat_sub(col, ui.host_panel_area.x as int), 1);
    if w < HOST_PANEL_MIN_WIDTH {
        HOST_PANEL_MIN_WIDTH as int
    } else if w > HOST_PANEL_MAX_WIDTH {
        HOST_PANEL_MAX_WIDTH as int
    } else {
        w
    }
}

/// Info pane height after dragging its divider to row `row`.
pub open spec fn dragged_info_height(ui: ManagerView, row: int) -> int {
    let top = ui.host_panel_area.y as int;
    let h = ui.host_panel_area.height as int;
    let min_split = sat_add_u16(top, MIN_HOST_LIST_HEIGHT as int);
    let max_split = top + sat_sub(h, MIN_HOST_INFO_HEIGHT as int);
    let split = if row < min_split {
        min_split
    } else if row > max_split {
        max_split
    } else {
        row
    };
    sat_sub(h, sat_sub(split, top))
}

/// Moving the tab at `from` to `to`: the selected tab stays the same tab,
/// the selection is cleared and the selected tab is scrolled into view.
#[verifier::opaque]
pub open spec fn tab_moved(ui: ManagerView, tabs: Seq<TabView>, from: usize, to: usize) -> (ManagerView, Seq<TabView>) {
    if from < tabs.len() && to < tabs.len() && from != to {
        let sel = if ui.selected_tab < tabs.len() { ui.selected_tab as int } else { tabs.len() - 1 };
        let new_sel = if sel == from {
            to as int
        } else if from < sel && to >= sel {
            sel - 1
        } else if from > sel && to <= sel {
            sel + 1
        } else {
            sel
        };
        let moved = tabs.remove(from as int).insert(to as int, tabs[from as int]);
        (cleared(visible(ManagerView { selected_tab: new_sel as usize, ..ui }, moved)), moved)
    } else {
        (ui, tabs)
    }
}

/// Dragging tab `d` over the tab bar at column `col`.
#[verifier::opaque]
pub open spec fn spec_tab_drag(ui: ManagerView, tabs: Seq<TabView>, d: usize, col: int) -> (ManagerView, Seq<TabView>, Seq<MouseEffect>) {
    let n = normalized(ui, tabs);
    match bar_hit(ui, tabs, col) {
        Some(TabBarHit::LeftOverflow) => (overflow_left(n, tabs), tabs, seq![]),
        Some(TabBarHit::RightOverflow) => (overflow_right(n, tabs), tabs, seq![]),
        Some(TabBarHit::TabTitle(t)) | Some(TabBarHit::TabClose(t)) => {
            if d != t && d < tabs.len() && t < tabs.len() {
                let (u, moved) = tab_moved(n, tabs, d, t);
                (ManagerView { dragging_tab: Some(t), focus_on_manager: false, ..u }, moved, seq![MouseEffect::TabMoved(d, t)])
            } else {
                (n, tabs, seq![])
            }
        },
        None => (n, tabs, seq![]),
    }
}

/// Extending the selection to the cell under the mouse, scrolling when the
/// mouse is on or beyond the top or bottom edge of the terminal area.
#[verifier::opaque]
pub open spec fn spec_selection_drag(ui: ManagerView, tabs: Seq<TabView>, ev: MouseInput) -> (ManagerView, Seq<TabView>) {
    let col = ev.column as int;
    let row = ev.row as int;
    let ui2 = ManagerView { selection_dragged: true, ..ui };
    let a = ui.tab_content_area;
    if a.width == 0 || a.height == 0 {
        (ui2, tabs)
    } else {
        let sel = ui.selected_tab as int;
        let t = tabs[sel];
        let top = a.y as int;
        let bottom = a.y + a.height - 1;
        let scroll = if row <= top {
            min_int(t.scroll_offset + min_int(top - row + 1, 10), t.max_scrollback as int)
        } else if row >= bottom {
            sat_sub(t.scroll_offset as int, min_int(row - bottom + 1, 10))
        } else {
            t.scroll_offset as int
        };
        let ccol = min_int(if col < a.x { a.x as int } else { col }, a.x + a.width - 1);
        let crow = min_int(if row < top { top } else { row }, bottom);
        let abs = ((crow - a.y) - scroll) as i64;
        (ManagerView { selection_end: Some((abs, (ccol - a.x) as u16)), ..ui2 }, with_scroll(tabs, sel, scroll))
    }
}

/// A left-button drag.
pub open spec fn spec_left_drag(ui: ManagerView, tabs: Seq<TabView>, rows: Seq<bool>, ctx: MouseContext, ev: MouseInput) -> (ManagerView, Seq<TabView>, Seq<MouseEffect>) {
    let col = ev.column as int;
    let row = ev.row as int;
    if ui.is_dragging_divider && ui.host_panel_visible {
        (ManagerView { host_panel_width: dragged_panel_width(ui, col) as u16, ..ui }, tabs, seq![])
    } else if ui.is_dragging_host_info_divider && ui.host_panel_visible && ui.host_info_visible {
        if ui.host_panel_area.height > MIN_HOST_LIST_HEIGHT {
            (ManagerView { host_info_height: dragged_info_height(ui, row) as u16, ..ui }, tabs, seq![])
        } else {
            (ui, tabs, seq![])
        }
    } else if ui.is_dragging_host_scrollbar {
        (scrollbar_dragged(ui, rows.len() as int, row), tabs, seq![])
    } else if ui.dragging_tab is Some {
        if tabs.len() > 0 && spec_point_in_rect(ui.tab_bar_area, col, row) {
            spec_tab_drag(ui, tabs, ui.dragging_tab.unwrap(), col)
        } else {
            (ui, tabs, seq![])
        }
    } else if ui.is_selecting && tabs.len() > 0 && ui.selected_tab < tabs.len() {
        let (u, t) = spec_selection_drag(ui, tabs, ev);
        (u, t, seq![])
    } else if pty_active(ctx) && !spec_force_local(ev.modifiers) {
        if ctx.pty_mouse_mode == MouseProtocolMode::AnyMotion || ctx.pty_mouse_mode == MouseProtocolMode::ButtonMotion {
            (ui, tabs, report_at(ui, ev, 32, false))
        } else {
            (ui, tabs, seq![])
        }
    } else {
        (ui, tabs, seq![])
    }
}

/// A left-button release.
pub open spec fn spec_left_up(ui: ManagerView, tabs: Seq<TabView>, ctx: MouseContext, ev: MouseInput) -> (ManagerView, Seq<MouseEffect>) {
    if ui.is_dragging_divider {
        (ManagerView { is_dragging_divider: false, ..ui }, seq![])
    } else if ui.is_dragging_host_info_divider {
        (ManagerView { is_dragging_host_info_divider: false, ..ui }, seq![])
    } else if ui.is_dragging_host_scrollbar {
        (ManagerView { is_dragging_host_scrollbar: false, ..ui }, seq![])
    } else if ui.dragging_tab is Some {
        (visible(ManagerView { dragging_tab: None, ..ui }, tabs), seq![])
    } else if ui.is_selecting {
        let ui2 = ManagerView { is_selecting: false, ..ui };
        (if !ui.selection_dragged { cleared(ui2) } else { ui2 }, seq![])
    } else if pty_active(ctx) && ctx.pty_mouse_mode != MouseProtocolMode::Press {
        (ui, report_at(ui, ev, 0, true))
    } else {
        (ui, seq![])
    }
}

/// A wheel step up (`up`) or down.
pub open spec fn spec_scroll(ui: ManagerView, tabs: Seq<TabView>, rows: Seq<bool>, ctx: MouseContext, ev: MouseInput, up: bool) -> (ManagerView, Seq<TabView>, Seq<MouseEffect>) {
    let col = ev.column as int;
    let row = ev.row as int;
    let hl = ui.host_list_area;
    if tabs.len() > 0 && spec_point_in_rect(ui.tab_bar_area, col, row) {
        if up && ui.selected_tab > 0 {
            (visible(cleared(ManagerView { selected_tab: (ui.selected_tab - 1) as usize, focus_on_manager: false, ..ui }), tabs), tabs, seq![])
        } else if !up && ui.selected_tab < tabs.len() - 1 {
            (visible(cleared(ManagerView { selected_tab: (ui.selected_tab + 1) as usize, focus_on_manager: false, ..ui }), tabs), tabs, seq![])
        } else {
            (ui, tabs, seq![])
        }
    } else if spec_point_in_rect(hl, col, row) {
        if up && rows.len() > 0 && ui.selected_host_row > 0 {
            (ManagerView { selected_host_row: synced_row(ui.selected_host_row - 1, rows.len() as int) as usize, ..ui }, tabs, seq![])
        } else if !up && rows.len() > 0 && ui.selected_host_row < rows.len() - 1 {
            (ManagerView { selected_host_row: (ui.selected_host_row + 1) as usize, ..ui }, tabs, seq![])
        } else {
            (ui, tabs, seq![])
        }
    } else if tabs.len() > 0 && ui.selected_tab < tabs.len() {
        let sel = ui.selected_tab as int;
        if pty_active(ctx) {
            (ui, tabs, report_at(ui, ev, if up { 64u8 } else { 65u8 }, false))
        } else if up {
            (ui, with_scroll(tabs, sel, min_int(tabs[sel].scroll_offset + 3, tabs[sel].max_scrollback as int)), seq![])
        } else {
            (ui, with_scroll(tabs, sel, sat_sub(tabs[sel].scroll_offset as int, 3)), seq![])
        }
    } else {
        (ui, tabs, seq![])
    }
}

/// Routing of one event once the modals have been considered.
pub open spec fn spec_route(ui: ManagerView, tabs: Seq<TabView>, rows: Seq<bool>, ctx: MouseContext, ev: MouseInput) -> (ManagerView, Seq<TabView>, Seq<MouseEffect>) {
    match ev.kind {
        MouseEventKind::Down(MouseButton::Left) => spec_left_down(ui, tabs, rows, ctx, ev),
        MouseEventKind::Drag(MouseButton::Left) => spec_left_drag(ui, tabs, rows, ctx, ev),
        MouseEventKind::Up(MouseButton::Left) => {
            let (u, e) = spec_left_up(ui, tabs, ctx, ev);
            (u, tabs, e)
        },
        MouseEventKind::Down(MouseButton::Right) => {
            if vt_coords(ui, ev.column as int, ev.row as int) is Some && ui.selection_start is Some && ui.selection_end is Some {
                (ui, tabs, seq![])
            } else if pty_active(ctx) {
                (ui, tabs, report_at(ui, ev, 2, false))
            } else {
                (ui, tabs, seq![])
            }
        },
        MouseEventKind::Up(MouseButton::Right) => {
            if vt_coords(ui, ev.column as int, ev.row as int) is Some && ui.selection_start is Some && ui.selection_end is Some {
                (cleared(ui), tabs, seq![MouseEffect::CopySelection])
            } else if pty_active(ctx) && ctx.pty_mouse_mode != MouseProtocolMode::Press {
                (ui, tabs, report_at(ui, ev, 2, true))
            } else {
                (ui, tabs, seq![])
            }
        },
        MouseEventKind::Down(MouseButton::Middle) => {
            if pty_active(ctx) {
                (ui, tabs, report_at(ui, ev, 1, false))
            } else {
                (ui, tabs, seq![])
            }
        },
        MouseEventKind::Up(MouseButton::Middle) => {
            if pty_active(ctx) && ctx.pty_mouse_mode != MouseProtocolMode::Press {
                (ui, tabs, report_at(ui, ev, 1, true))
            } else {
                (ui, tabs, seq![])
            }
        },
        MouseEventKind::ScrollUp => spec_scroll(ui, tabs, rows, ctx, ev, true),
        MouseEventKind::ScrollDown => spec_scroll(ui, tabs, rows, ctx, ev, false),
        MouseEventKind::Moved => {
            if ctx.pty_mouse_mode == MouseProtocolMode::AnyMotion {
                (ui, tabs, report_at(ui, ev, 35, false))
            } else {
                (ui, tabs, seq![])
            }
        },
        _ => (ui, tabs, seq![]),
    }
}

/// Full handling of one mouse event: ignored under a password prompt, handed
/// to an open quick-connect modal, and otherwise routed after closing an
/// active terminal search when the PTY takes the mouse.
pub open spec fn spec_handle_mouse(ui: ManagerView, tabs: Seq<TabView>, rows: Seq<bool>, ctx: MouseContext, ev: MouseInput) -> (ManagerView, Seq<TabView>, Seq<MouseEffect>) {
    if ctx.prompt_open {
        (ui, tabs, seq![])
    } else if ctx.quick_connect_open {
        (ui, tabs, seq![MouseEffect::QuickConnect])
    } else {
        let (u, t, e) = spec_route(ui, tabs, rows, ctx, ev);
        if ctx.search_active && pty_active(ctx) {
            (u, t, seq![MouseEffect::ClearTerminalSearch] + e)
        } else {
            (u, t, e)
        }
    }
}

/// Alt or Shift forces local selection even when the PTY wants the mouse.
pub fn force_local_selection(m: KeyModifiers) -> (r: bool)
    ensures
        r == spec_force_local(m),
{
    m.alt || m.shift
}

pub(crate) fn clear_selection_state(ui: &mut ManagerView)
    ensures
        *final(ui) == cleared(*old(ui)),
{
    ui.selection_start = None;
    ui.selection_end = None;
    ui.is_selecting = false;
}

pub(crate) fn focus_manager_panel(ui: &mut ManagerView)
    ensures
        *final(ui) == focused(*old(ui)),
{
    ui.focus_on_manager = true;
    ui.host_panel_visible = true;
}

/// The display widths of the tabs.
pub fn tab_widths(tabs: &Vec<TabView>) -> (w: Vec<usize>)
    ensures
        w@ == widths_of(tabs@),
{
    let mut w: Vec<usize> = Vec::new();
    let mut i: usize = 0;
    while i < tabs.len()
        invariant
            i <= tabs@.len(),
            w@ == widths_of(tabs@.subrange(0, i as int)),
        decreases tabs.len() - i,
    {
        w.push(tabs[i].width);
        i += 1;
        assert(widths_of(tabs@.subrange(0, i as int)) =~= widths_of(tabs@.subrange(0, i - 1)).push(tabs@[i - 1].width));
    }
    assert(tabs@.subrange(0, i as int) =~= tabs@);
    w
}

fn push_report(ui: &ManagerView, ev: MouseInput, button: u8, release: bool, effects: &mut Vec<MouseEffect>)
    ensures
        final(effects)@ == old(effects)@ + report_at(*ui, ev, button, release),
{
    let a = ui.tab_content_area;
    if point_in_rect(a, ev.column, ev.row) {
        let report = MouseReport { button, col: (ev.column - a.x) + 1, row: (ev.row - a.y) + 1, release };
        effects.push(MouseEffect::Report(report));
        assert(final(effects)@ =~= old(effects)@ + report_at(*ui, ev, button, release));
    } else {
        assert(old(effects)@ + report_at(*ui, ev, button, release) =~= old(effects)@);
    }
}

fn in_terminal_area(ui: &ManagerView, column: u16, row: u16) -> (r: bool)
    ensures
        r == (vt_coords(*ui, column as int, row as int) is Some),
{
    point_in_rect(ui.tab_content_area, column, row)
}

fn drag_host_scrollbar(ui: &mut ManagerView, row_count: usize, row: u16)
    requires
        0xffff * row_count + 0x8000 <= usize::MAX,
        old(ui).host_scroll_offset + 0x10000 <= usize::MAX,
    ensures
        *final(ui) == scrollbar_dragged(*old(ui), row_count as int, row as int),
        final(ui).host_scroll_offset + 0x10000 <= usize::MAX,
{
    assert(row_count >= 1 ==> row_count + 0x10000 <= usize::MAX) by (nonlinear_arith)
        requires
            0xffff * row_count + 0x8000 <= usize::MAX,
    ;
    match host_scroll_from_scrollbar_row(
        ui.host_list_area.y,
        ui.host_list_area.height,
        row_count,
        ui.selected_host_row,
        ui.host_scroll_offset,
        row,
    ) {
        Some((o, s)) => {
            ui.host_scroll_offset = o;
            ui.selected_host_row = if s >= row_count { row_count - 1 } else { s };
        },
        None => {},
    }
}

pub(crate) fn make_tab_visible(ui: &mut ManagerView, widths: &Vec<usize>, Ghost(tabs): Ghost<Seq<TabView>>)
    requires
        widths@ == widths_of(tabs),
        strip_fits(widths@),
    ensures
        *final(ui) == visible(*old(ui), tabs),
        *final(ui) == (ManagerView { tab_scroll_offset: final(ui).tab_scroll_offset, ..*old(ui) }),
        same_frame(*old(ui), *final(ui)),
{
    proof {
        reveal(visible);
    }
    ui.tab_scroll_offset = ensure_tab_visible(widths.as_slice(), ui.selected_tab, ui.tab_scroll_offset, ui.tab_bar_area.width);
}

/// What a tab move leaves: the tab list with the tab moved, no text
/// selection, and the previously selected tab still selected.
proof fn lemma_tab_moved_facts(ui: ManagerView, tabs: Seq<TabView>, from: usize, to: usize)
    requires
        from < tabs.len(),
        to < tabs.len(),
        from != to,
    ensures
        ({
            let r = tab_moved(ui, tabs, from, to);
            &&& r.1 == tabs.remove(from as int).insert(to as int, tabs[from as int])
            &&& r.0.selection_start is None && r.0.selection_end is None && !r.0.is_selecting
            &&& ui.selected_tab < tabs.len() ==> r.0.selected_tab < r.1.len() && r.1[r.0.selected_tab as int] == tabs[ui.selected_tab as int]
        }),
{
    reveal(tab_moved);
    reveal(visible);
    if ui.selected_tab < tabs.len() {
        crate::tab_strip::lemma_move_tab_keeps_selection(tabs, ui.selected_tab as int, from as int, to as int);
    }
}

/// Move the tab at `from` to `to`, keeping the selected tab selected,
/// clearing the text selection, and scroll it into view. Returns whether
/// anything moved; nothing changes otherwise.
#[verifier::spinoff_prover]
#[verifier::rlimit(40)]
pub fn move_tab_in_view(ui: &mut ManagerView, tabs: &mut Vec<TabView>, from: usize, to: usize) -> (moved: bool)
    requires
        tabs_sound(old(tabs)@),
    ensures
        ({
            let r = tab_moved(*old(ui), old(tabs)@, from, to);
            &&& *final(ui) == r.0
            &&& final(tabs)@ == r.1
        }),
        moved == (from < old(tabs)@.len() && to < old(tabs)@.len() && from != to),
        !moved ==> *final(ui) == *old(ui) && final(tabs)@ == old(tabs)@,
        moved ==> final(tabs)@ == old(tabs)@.remove(from as int).insert(to as int, old(tabs)@[from as int]),
        moved ==> final(ui).selection_start is None && final(ui).selection_end is None && !final(ui).is_selecting,
        moved && old(ui).selected_tab < old(tabs)@.len() ==> final(ui).selected_tab < final(tabs)@.len()
            && final(tabs)@[final(ui).selected_tab as int] == old(tabs)@[old(ui).selected_tab as int],
        tabs_sound(final(tabs)@),
        same_frame(*old(ui), *final(ui)),
        final(ui).dragging_tab == old(ui).dragging_tab,
        final(ui).focus_on_manager == old(ui).focus_on_manager,
{
    proof {
        reveal(tab_moved);
    }
    if from >= tabs.len() || to >= tabs.len() || from == to {
        return false;
    }
    proof {
        lemma_tabs_sound_after_edit(tabs@, from as int, to as int);
        lemma_tab_moved_facts(*ui, tabs@, from, to);
    }
    let mut sel = ui.selected_tab;
    let _ = move_tab(tabs, &mut sel, from, to);
    ui.selected_tab = sel;
    proof {
        lemma_tabs_fit(tabs@);
    }
    let widths_after = tab_widths(tabs);
    make_tab_visible(ui, &widths_after, Ghost(tabs@));
    clear_selection_state(ui);
    true
}

pub(crate) fn set_tab_scroll(tabs: &mut Vec<TabView>, i: usize, v: usize)
    requires
        i < old(tabs)@.len(),
    ensures
        final(tabs)@ == with_scroll(old(tabs)@, i as int, v as int),
{
    let mut t = tabs[i];
    t.scroll_offset = v;
    tabs.set(i, t);
}

/// Removing a tab, or moving one, keeps the tabs sound.
pub proof fn lemma_tabs_sound_after_edit(tabs: Seq<TabView>, i: int, j: int)
    requires
        0 <= i < tabs.len(),
        0 <= j < tabs.len(),
        tabs_sound(tabs),
    ensures
        tabs_sound(tabs.remove(i)),
        tabs_sound(tabs.remove(i).insert(j, tabs[i])),
{
    reveal(tabs_sound);
    let w = widths_of(tabs);
    lemma_total_remove_insert(w, i, j);
    assert(widths_of(tabs.remove(i)) =~= w.remove(i));
    assert(widths_of(tabs.remove(i).insert(j, tabs[i])) =~= w.remove(i).insert(j, w[i]));
    let moved = tabs.remove(i).insert(j, tabs[i]);
    assert forall|k: int| 0 <= k < tabs.len() - 1 implies (#[trigger] tabs.remove(i)[k]).scroll_offset <= scroll_limit()
        && tabs.remove(i)[k].max_scrollback <= scroll_limit() by {
        if k < i {
            assert(tabs.remove(i)[k] == tabs[k]);
        } else {
            assert(tabs.remove(i)[k] == tabs[k + 1]);
        }
    }
    assert forall|k: int| 0 <= k < moved.len() implies (#[trigger] moved[k]).scroll_offset <= scroll_limit()
        && moved[k].max_scrollback <= scroll_limit() by {
        if k < j {
            assert(moved[k] == tabs.remove(i)[k]);
        } else if k > j {
            assert(moved[k] == tabs.remove(i)[k - 1]);
        }
    }
}

fn host_list_press(ui: &mut ManagerView, rows: &[bool], ctx: MouseContext, ev: MouseInput) -> (effects: Vec<MouseEffect>)
    requires
        old(ui).host_panel_visible,
        spec_point_in_rect(old(ui).host_list_area, ev.column as int, ev.row as int),
        rect_on_screen(old(ui).host_list_area),
        old(ui).host_scroll_offset + 0x10000 <= usize::MAX,
        0xffff * rows@.len() + 0x8000 <= usize::MAX,
    ensures
        ({
            let r = spec_host_list_press(*old(ui), rows@, ctx, ev);
            &&& *final(ui) == r.0
            &&& effects@ == r.1
        }),
        final(ui).host_scroll_offset + 0x10000 <= usize::MAX,
        final(ui).host_panel_area == old(ui).host_panel_area,
        final(ui).host_info_area == old(ui).host_info_area,
        final(ui).host_list_area == old(ui).host_list_area,
        final(ui).tab_bar_area == old(ui).tab_bar_area,
        final(ui).tab_content_area == old(ui).tab_content_area,
{
    proof {
        reveal(spec_host_list_press);
    }
    let mut effects: Vec<MouseEffect> = Vec::new();
    let col = ev.column;
    let row = ev.row;
    let hl = ui.host_list_area;
    let row_count = rows.len();
    if row_count > hl.height as usize && col == hl.x + hl.width.saturating_sub(1) {
        focus_manager_panel(ui);
        ui.is_dragging_host_scrollbar = true;
        drag_host_scrollbar(ui, row_count, row);
        clear_selection_state(ui);
        return effects;
    }
    let idx = ui.host_scroll_offset + (row - hl.y) as usize;
    if idx < row_count {
        ui.selected_host_row = idx;
        focus_manager_panel(ui);
        if rows[idx] {
            effects.push(MouseEffect::ToggleFolder(idx));
            ui.last_click = None;
        } else {
            let now = ctx.now_ms;
            let double = match ui.last_click {
                Some((t, c, r)) => now.saturating_sub(t) < DOUBLE_CLICK_MS && c == col && r == row,
                None => false,
            };
            if double {
                ui.last_click = None;
                effects.push(MouseEffect::ConnectSelectedHost);
            } else {
                ui.last_click = Some((now, col, row));
            }
        }
        clear_selection_state(ui);
        return effects;
    }
    focus_manager_panel(ui);
    clear_selection_state(ui);
    effects
}

fn content_press(ui: &mut ManagerView, tabs: &mut Vec<TabView>, ctx: MouseContext, ev: MouseInput) -> (effects: Vec<MouseEffect>)
    requires
        old(ui).selected_tab < old(tabs)@.len(),
        spec_point_in_rect(old(ui).tab_content_area, ev.column as int, ev.row as int),
        tabs_sound(old(tabs)@),
    ensures
        ({
            let r = spec_content_press(*old(ui), old(tabs)@, ctx, ev);
            &&& *final(ui) == r.0
            &&& final(tabs)@ == r.1
            &&& effects@ == r.2
        }),
        tabs_sound(final(tabs)@),
        same_frame(*old(ui), *final(ui)),
{
    proof {
        reveal(spec_content_press);
        reveal(tabs_sound);
    }
    let mut effects: Vec<MouseEffect> = Vec::new();
    let ghost ui0 = *ui;
    ui.focus_on_manager = false;
    ui.search_mode = false;
    let sel = ui.selected_tab;
    let pty_on = match ctx.pty_mouse_mode {
        MouseProtocolMode::Disabled => false,
        _ => true,
    };
    if pty_on && !force_local_selection(ev.modifiers) {
        set_tab_scroll(tabs, sel, 0);
        assert(widths_of(tabs@) =~= widths_of(old(tabs)@));
        clear_selection_state(ui);
        ui.selection_dragged = false;
        push_report(ui, ev, 0, false, &mut effects);
        assert(effects@ =~= report_at(ui0, ev, 0, false));
    } else {
        let vt_row = ev.row - ui.tab_content_area.y;
        let vt_col = ev.column - ui.tab_content_area.x;
        let abs = vt_row as i64 - tabs[sel].scroll_offset as i64;
        ui.selection_start = Some((abs, vt_col));
        ui.selection_end = Some((abs, vt_col));
        ui.is_selecting = true;
        ui.selection_dragged = false;
    }
    effects
}

fn remove_tab_at(ui: &mut ManagerView, tabs: &mut Vec<TabView>, i: usize) -> (effects: Vec<MouseEffect>)
    requires
        tabs_sound(old(tabs)@),
    ensures
        ({
            let (ui2, rest) = after_close(ManagerView { selected_tab: i, ..*old(ui) }, old(tabs)@);
            &&& *final(ui) == if rest.len() == 0 { ManagerView { selected_tab: 0, ..ui2 } } else { ui2 }
            &&& final(tabs)@ == rest
        }),
        effects@ == if (i as int) < old(tabs)@.len() { seq![MouseEffect::TabClosed(i)] } else { seq![] },
        tabs_sound(final(tabs)@),
        same_frame(*old(ui), *final(ui)),
{
    proof {
        reveal(after_close);
    }
    let mut effects: Vec<MouseEffect> = Vec::new();
    ui.selected_tab = i;
    if i < tabs.len() {
        proof {
            lemma_tabs_sound_after_edit(tabs@, i as int, 0);
        }
        let _ = tabs.remove(i);
        if ui.selected_tab >= tabs.len() && ui.selected_tab > 0 {
            ui.selected_tab = ui.selected_tab - 1;
        }
        if tabs.len() == 0 {
            focus_manager_panel(ui);
            ui.selected_tab = 0;
        }
        effects.push(MouseEffect::TabClosed(i));
        assert(effects@ =~= seq![MouseEffect::TabClosed(i)]);
    } else if tabs.len() == 0 {
        ui.selected_tab = 0;
    }
    effects
}

fn close_tab_at(ui: &mut ManagerView, tabs: &mut Vec<TabView>, i: usize) -> (effects: Vec<MouseEffect>)
    requires
        tabs_sound(old(tabs)@),
    ensures
        ({
            let r = close_clicked(*old(ui), old(tabs)@, i);
            &&& *final(ui) == r.0
            &&& final(tabs)@ == r.1
            &&& effects@ == r.2
        }),
        tabs_sound(final(tabs)@),
        same_frame(*old(ui), *final(ui)),
{
    proof {
        reveal(close_clicked);
    }
    let effects = remove_tab_at(ui, tabs, i);
    proof {
        reveal(tabs_sound);
    }
    let widths_after = tab_widths(tabs);
    make_tab_visible(ui, &widths_after, Ghost(tabs@));
    clear_selection_state(ui);
    effects
}

#[verifier::spinoff_prover]
#[verifier::rlimit(60)]
fn apply_tab_bar_hit(ui: &mut ManagerView, tabs: &mut Vec<TabView>, widths: &Vec<usize>, hit: Option<TabBarHit>) -> (effects: Vec<MouseEffect>)
    requires
        widths@ == widths_of(old(tabs)@),
        tabs_sound(old(tabs)@),
    ensures
        ({
            let r = tab_bar_clicked(*old(ui), old(tabs)@, hit);
            &&& *final(ui) == r.0
            &&& final(tabs)@ == r.1
            &&& effects@ == r.2
        }),
        tabs_sound(final(tabs)@),
        same_frame(*old(ui), *final(ui)),
{
    proof {
        reveal(tab_bar_clicked);
        reveal(tabs_sound);
    }
    let avail = ui.tab_bar_area.width as usize;
    match hit {
        Some(TabBarHit::LeftOverflow) => {
            proof {
                reveal(overflow_left);
            }
            if let Some(p) = prev_tab_scroll_offset(widths.as_slice(), ui.tab_scroll_offset, avail) {
                ui.tab_scroll_offset = p;
            }
            Vec::new()
        },
        Some(TabBarHit::RightOverflow) => {
            proof {
                reveal(overflow_right);
            }
            if let Some(p) = next_tab_scroll_offset(widths.as_slice(), ui.tab_scroll_offset, avail) {
                ui.tab_scroll_offset = p;
            }
            Vec::new()
        },
        Some(TabBarHit::TabClose(i)) => close_tab_at(ui, tabs, i),
        Some(TabBarHit::TabTitle(i)) => {
            ui.selected_tab = i;
            ui.focus_on_manager = false;
            ui.dragging_tab = Some(i);
            make_tab_visible(ui, widths, Ghost(old(tabs)@));
            clear_selection_state(ui);
            Vec::new()
        },
        None => {
            ui.focus_on_manager = false;
            make_tab_visible(ui, widths, Ghost(old(tabs)@));
            clear_selection_state(ui);
            Vec::new()
        },
    }
}

fn tab_bar_press(ui: &mut ManagerView, tabs: &mut Vec<TabView>, col: u16) -> (effects: Vec<MouseEffect>)
    requires
        old(tabs)@.len() > 0,
        old(ui).tab_bar_area.width > 0,
        tabs_sound(old(tabs)@),
    ensures
        ({
            let r = tab_bar_clicked(normalized(*old(ui), old(tabs)@), old(tabs)@, bar_hit(*old(ui), old(tabs)@, col as int));
            &&& *final(ui) == r.0
            &&& final(tabs)@ == r.1
            &&& effects@ == r.2
        }),
        tabs_sound(final(tabs)@),
        same_frame(*old(ui), *final(ui)),
{
    proof {
        reveal(normalized);
        reveal(bar_hit);
        reveal(tabs_sound);
    }
    let widths = tab_widths(tabs);
    let mut offset = ui.tab_scroll_offset;
    let hit = tab_bar_hit_test(widths.as_slice(), ui.tab_bar_area.x, ui.tab_bar_area.width, &mut offset, col);
    ui.tab_scroll_offset = offset;
    apply_tab_bar_hit(ui, tabs, &widths, hit)
}

/// A left-button press.
#[verifier::spinoff_prover]
#[verifier::rlimit(60)]
fn left_down(ui: &mut ManagerView, tabs: &mut Vec<TabView>, rows: &[bool], ctx: MouseContext, ev: MouseInput) -> (effects: Vec<MouseEffect>)
    requires
        router_ready(*old(ui), old(tabs)@, rows@),
    ensures
        ({
            let r = spec_left_down(*old(ui), old(tabs)@, rows@, ctx, ev);
            &&& *final(ui) == r.0
            &&& final(tabs)@ == r.1
            &&& effects@ == r.2
        }),
        router_ready(*final(ui), final(tabs)@, rows@),
{
    ui.is_dragging_host_scrollbar = false;
    ui.is_dragging_host_info_divider = false;
    ui.dragging_tab = None;
    let col = ev.column;
    let row = ev.row;
    let hp = ui.host_panel_area;
    let divider = hp.x + hp.width.saturating_sub(1);
    if ui.host_panel_visible && hp.width > 0 && col == divider {
        ui.is_dragging_divider = true;
        clear_selection_state(ui);
        return Vec::new();
    }
    if ui.host_panel_visible && ui.host_info_visible && ui.host_info_area.height > 0 && row == ui.host_info_area.y
        && col >= hp.x && col < divider {
        focus_manager_panel(ui);
        ui.is_dragging_host_info_divider = true;
        clear_selection_state(ui);
        return Vec::new();
    }
    if ui.host_panel_visible && point_in_rect(ui.host_list_area, col, row) {
        return host_list_press(ui, rows, ctx, ev);
    }
    if ui.host_panel_visible && point_in_rect(hp, col, row) {
        focus_manager_panel(ui);
        clear_selection_state(ui);
        return Vec::new();
    }
    if tabs.len() > 0 && point_in_rect(ui.tab_bar_area, col, row) {
        return tab_bar_press(ui, tabs, col);
    }
    if tabs.len() > 0 && ui.selected_tab < tabs.len() && point_in_rect(ui.tab_content_area, col, row) {
        return content_press(ui, tabs, ctx, ev);
    }
    clear_selection_state(ui);
    Vec::new()
}

/// What a single tab's scroll state is allowed to be.
pub proof fn lemma_tab_bounded(tabs: Seq<TabView>, i: int)
    requires
        tabs_sound(tabs),
        0 <= i < tabs.len(),
    ensures
        tabs[i].scroll_offset <= scroll_limit(),
        tabs[i].max_scrollback <= scroll_limit(),
{
    reveal(tabs_sound);
}

/// Setting one tab's scroll offset within bounds keeps the tabs sound.
pub proof fn lemma_with_scroll_sound(tabs: Seq<TabView>, i: int, v: int)
    requires
        tabs_sound(tabs),
        0 <= i < tabs.len(),
        0 <= v <= scroll_limit(),
    ensures
        tabs_sound(with_scroll(tabs, i, v)),
{
    reveal(tabs_sound);
    let t2 = with_scroll(tabs, i, v);
    assert(widths_of(t2) =~= widths_of(tabs));
    assert forall|k: int| 0 <= k < t2.len() implies (#[trigger] t2[k]).scroll_offset <= scroll_limit()
        && t2[k].max_scrollback <= scroll_limit() by {
        if k != i {
            assert(t2[k] == tabs[k]);
        }
    }
}

fn normalized_hit(ui: &mut ManagerView, tabs: &Vec<TabView>, col: u16) -> (r: (Option<TabBarHit>, Vec<usize>))
    requires
        tabs@.len() > 0,
        old(ui).tab_bar_area.width > 0,
        tabs_sound(tabs@),
    ensures
        *final(ui) == normalized(*old(ui), tabs@),
        r.0 == bar_hit(*old(ui), tabs@, col as int),
        r.1@ == widths_of(tabs@),
        strip_fits(r.1@),
{
    proof {
        reveal(normalized);
        reveal(bar_hit);
        reveal(tabs_sound);
    }
    let widths = tab_widths(tabs);
    let mut offset = ui.tab_scroll_offset;
    let hit = tab_bar_hit_test(widths.as_slice(), ui.tab_bar_area.x, ui.tab_bar_area.width, &mut offset, col);
    ui.tab_scroll_offset = offset;
    (hit, widths)
}

fn scroll_tab_bar(ui: &mut ManagerView, widths: &Vec<usize>, left: bool, Ghost(tabs): Ghost<Seq<TabView>>)
    requires
        widths@ == widths_of(tabs),
        strip_fits(widths@),
    ensures
        *final(ui) == if left { overflow_left(*old(ui), tabs) } else { overflow_right(*old(ui), tabs) },
        same_frame(*old(ui), *final(ui)),
{
    proof {
        reveal(overflow_left);
        reveal(overflow_right);
    }
    let avail = ui.tab_bar_area.width as usize;
    let target = if left {
        prev_tab_scroll_offset(widths.as_slice(), ui.tab_scroll_offset, avail)
    } else {
        next_tab_scroll_offset(widths.as_slice(), ui.tab_scroll_offset, avail)
    };
    if let Some(p) = target {
        ui.tab_scroll_offset = p;
    }
}

fn tab_drag(ui: &mut ManagerView, tabs: &mut Vec<TabView>, d: usize, col: u16) -> (effects: Vec<MouseEffect>)
    requires
        old(tabs)@.len() > 0,
        old(ui).tab_bar_area.width > 0,
        tabs_sound(old(tabs)@),
    ensures
        ({
            let r = spec_tab_drag(*old(ui), old(tabs)@, d, col as int);
            &&& *final(ui) == r.0
            &&& final(tabs)@ == r.1
            &&& effects@ == r.2
        }),
        tabs_sound(final(tabs)@),
        same_frame(*old(ui), *final(ui)),
{
    proof {
        reveal(spec_tab_drag);
        reveal(normalized);
    }
    let mut effects: Vec<MouseEffect> = Vec::new();
    let (hit, widths) = normalized_hit(ui, tabs, col);
    match hit {
        Some(TabBarHit::LeftOverflow) => {
            scroll_tab_bar(ui, &widths, true, Ghost(tabs@));
        },
        Some(TabBarHit::RightOverflow) => {
            scroll_tab_bar(ui, &widths, false, Ghost(tabs@));
        },
        Some(TabBarHit::TabTitle(t)) | Some(TabBarHit::TabClose(t)) => {
            if d != t && d < tabs.len() && t < tabs.len() {
                let _ = move_tab_in_view(ui, tabs, d, t);
                ui.dragging_tab = Some(t);
                ui.focus_on_manager = false;
                effects.push(MouseEffect::TabMoved(d, t));
                assert(effects@ =~= seq![MouseEffect::TabMoved(d, t)]);
            }
        },
        None => {},
    }
    effects
}

#[verifier::rlimit(50)]
fn selection_drag(ui: &mut ManagerView, tabs: &mut Vec<TabView>, ev: MouseInput)
    requires
        old(ui).selected_tab < old(tabs)@.len(),
        rect_on_screen(old(ui).tab_content_area),
        tabs_sound(old(tabs)@),
    ensures
        ({
            let r = spec_selection_drag(*old(ui), old(tabs)@, ev);
            &&& *final(ui) == r.0
            &&& final(tabs)@ == r.1
        }),
        tabs_sound(final(tabs)@),
        same_frame(*old(ui), *final(ui)),
{
    proof {
        reveal(spec_selection_drag);
    }
    ui.selection_dragged = true;
    let a = ui.tab_content_area;
    if a.width == 0 || a.height == 0 {
        return;
    }
    let sel = ui.selected_tab;
    let t = tabs[sel];
    proof {
        lemma_tab_bounded(tabs@, sel as int);
    }
    let top = a.y;
    let bottom = a.y + (a.height - 1);
    let row = ev.row;
    let col = ev.column;
    let scroll: usize = if row <= top {
        let edge = (top - row) as usize + 1;
        let step: usize = if edge < 10 { edge } else { 10 };
        let raised = t.scroll_offset.saturating_add(step);
        if raised <= t.max_scrollback { raised } else { t.max_scrollback }
    } else if row >= bottom {
        let edge = (row - bottom) as usize + 1;
        let step: usize = if edge < 10 { edge } else { 10 };
        t.scroll_offset.saturating_sub(step)
    } else {
        t.scroll_offset
    };
    proof {
        lemma_with_scroll_sound(tabs@, sel as int, scroll as int);
    }
    set_tab_scroll(tabs, sel, scroll);
    let right = a.x + (a.width - 1);
    let ccol = if col < a.x { a.x } else if col > right { right } else { col };
    let crow = if row < top { top } else if row > bottom { bottom } else { row };
    let vt_row = (crow - a.y) as i64;
    let back = scroll as i64;
    assert(back == scroll);
    let abs = vt_row - back;
    ui.selection_end = Some((abs, ccol - a.x));
}

fn left_drag(ui: &mut ManagerView, tabs: &mut Vec<TabView>, rows: &[bool], ctx: MouseContext, ev: MouseInput) -> (effects: Vec<MouseEffect>)
    requires
        router_ready(*old(ui), old(tabs)@, rows@),
        !info_drag_undefined(*old(ui), ctx, ev),
        ev.kind == MouseEventKind::Drag(MouseButton::Left),
        !ctx.prompt_open,
        !ctx.quick_connect_open,
    ensures
        ({
            let r = spec_left_drag(*old(ui), old(tabs)@, rows@, ctx, ev);
            &&& *final(ui) == r.0
            &&& final(tabs)@ == r.1
            &&& effects@ == r.2
        }),
        router_ready(*final(ui), final(tabs)@, rows@),
{
    let col = ev.column;
    let row = ev.row;
    if ui.is_dragging_divider && ui.host_panel_visible {
        let w = col.saturating_sub(ui.host_panel_area.x).saturating_add(1);
        ui.host_panel_width = if w < HOST_PANEL_MIN_WIDTH {
            HOST_PANEL_MIN_WIDTH
        } else if w > HOST_PANEL_MAX_WIDTH {
            HOST_PANEL_MAX_WIDTH
        } else {
            w
        };
        return Vec::new();
    }
    if ui.is_dragging_host_info_divider && ui.host_panel_visible && ui.host_info_visible {
        let top = ui.host_panel_area.y;
        let h = ui.host_panel_area.height;
        if h > MIN_HOST_LIST_HEIGHT {
            let min_split = top.saturating_add(MIN_HOST_LIST_HEIGHT);
            let max_split = top + h.saturating_sub(MIN_HOST_INFO_HEIGHT);
            let split = if row < min_split {
                min_split
            } else if row > max_split {
                max_split
            } else {
                row
            };
            let list_height = split.saturating_sub(top);
            ui.host_info_height = h.saturating_sub(list_height);
        }
        return Vec::new();
    }
    if ui.is_dragging_host_scrollbar {
        drag_host_scrollbar(ui, rows.len(), row);
        return Vec::new();
    }
    if let Some(d) = ui.dragging_tab {
        if tabs.len() > 0 && point_in_rect(ui.tab_bar_area, col, row) {
            return tab_drag(ui, tabs, d, col);
        }
        return Vec::new();
    }
    if ui.is_selecting && tabs.len() > 0 && ui.selected_tab < tabs.len() {
        selection_drag(ui, tabs, ev);
        return Vec::new();
    }
    let mut effects: Vec<MouseEffect> = Vec::new();
    let motion = match ctx.pty_mouse_mode {
        MouseProtocolMode::AnyMotion => true,
        MouseProtocolMode::ButtonMotion => true,
        _ => false,
    };
    if motion && !force_local_selection(ev.modifiers) {
        push_report(ui, ev, 32, false, &mut effects);
        assert(effects@ =~= report_at(*ui, ev, 32, false));
    }
    effects
}

/// Sound tabs fit the tab strip arithmetic.
pub proof fn lemma_tabs_fit(tabs: Seq<TabView>)
    requires
        tabs_sound(tabs),
    ensures
        strip_fits(widths_of(tabs)),
{
    reveal(tabs_sound);
}

fn left_up(ui: &mut ManagerView, tabs: &Vec<TabView>, ctx: MouseContext, ev: MouseInput) -> (effects: Vec<MouseEffect>)
    requires
        tabs_sound(tabs@),
    ensures
        ({
            let r = spec_left_up(*old(ui), tabs@, ctx, ev);
            &&& *final(ui) == r.0
            &&& effects@ == r.1
        }),
        same_frame(*old(ui), *final(ui)),
{
    let mut effects: Vec<MouseEffect> = Vec::new();
    if ui.is_dragging_divider {
        ui.is_dragging_divider = false;
    } else if ui.is_dragging_host_info_divider {
        ui.is_dragging_host_info_divider = false;
    } else if ui.is_dragging_host_scrollbar {
        ui.is_dragging_host_scrollbar = false;
    } else if ui.dragging_tab.is_some() {
        ui.dragging_tab = None;
        let widths = tab_widths(tabs);
        proof {
            lemma_tabs_fit(tabs@);
        }
        make_tab_visible(ui, &widths, Ghost(tabs@));
    } else if ui.is_selecting {
        ui.is_selecting = false;
        if !ui.selection_dragged {
            clear_selection_state(ui);
        }
    } else {
        let releases = match ctx.pty_mouse_mode {
            MouseProtocolMode::Disabled => false,
            MouseProtocolMode::Press => false,
            _ => true,
        };
        if releases {
            push_report(ui, ev, 0, true, &mut effects);
            assert(effects@ =~= report_at(*ui, ev, 0, true));
        }
    }
    effects
}

fn wheel(ui: &mut ManagerView, tabs: &mut Vec<TabView>, rows: &[bool], ctx: MouseContext, ev: MouseInput, up: bool) -> (effects: Vec<MouseEffect>)
    requires
        tabs_sound(old(tabs)@),
    ensures
        ({
            let r = spec_scroll(*old(ui), old(tabs)@, rows@, ctx, ev, up);
            &&& *final(ui) == r.0
            &&& final(tabs)@ == r.1
            &&& effects@ == r.2
        }),
        tabs_sound(final(tabs)@),
        same_frame(*old(ui), *final(ui)),
{
    let mut effects: Vec<MouseEffect> = Vec::new();
    let col = ev.column;
    let row = ev.row;
    if tabs.len() > 0 && point_in_rect(ui.tab_bar_area, col, row) {
        let moves = if up { ui.selected_tab > 0 } else { ui.selected_tab < tabs.len() - 1 };
        if moves {
            ui.selected_tab = if up { ui.selected_tab - 1 } else { ui.selected_tab + 1 };
            ui.focus_on_manager = false;
            clear_selection_state(ui);
            let widths = tab_widths(tabs);
            proof {
                lemma_tabs_fit(tabs@);
            }
            make_tab_visible(ui, &widths, Ghost(tabs@));
        }
        return effects;
    }
    if point_in_rect(ui.host_list_area, col, row) {
        let count = rows.len();
        if up && count > 0 && ui.selected_host_row > 0 {
            let r = ui.selected_host_row - 1;
            ui.selected_host_row = if r >= count { count - 1 } else { r };
        } else if !up && count > 0 && ui.selected_host_row < count - 1 {
            ui.selected_host_row = ui.selected_host_row + 1;
        }
        return effects;
    }
    if tabs.len() > 0 && ui.selected_tab < tabs.len() {
        let sel = ui.selected_tab;
        let pty_on = match ctx.pty_mouse_mode {
            MouseProtocolMode::Disabled => false,
            _ => true,
        };
        if pty_on {
            push_report(ui, ev, if up { 64 } else { 65 }, false, &mut effects);
            assert(effects@ =~= report_at(*ui, ev, if up { 64u8 } else { 65u8 }, false));
        } else {
            let t = tabs[sel];
            proof {
                lemma_tab_bounded(tabs@, sel as int);
            }
            let v = if up {
                let raised = t.scroll_offset.saturating_add(3);
                if raised <= t.max_scrollback { raised } else { t.max_scrollback }
            } else {
                t.scroll_offset.saturating_sub(3)
            };
            proof {
                lemma_with_scroll_sound(tabs@, sel as int, v as int);
            }
            set_tab_scroll(tabs, sel, v);
        }
    }
    effects
}

fn press_or_release_report(ui: &ManagerView, ctx: MouseContext, ev: MouseInput, button: u8, release: bool) -> (effects: Vec<MouseEffect>)
    ensures
        effects@ == if pty_active(ctx) && (!release || ctx.pty_mouse_mode != MouseProtocolMode::Press) {
            report_at(*ui, ev, button, release)
        } else {
            seq![]
        },
{
    let mut effects: Vec<MouseEffect> = Vec::new();
    let wanted = match ctx.pty_mouse_mode {
        MouseProtocolMode::Disabled => false,
        MouseProtocolMode::Press => !release,
        _ => true,
    };
    if wanted {
        push_report(ui, ev, button, release, &mut effects);
        assert(effects@ =~= report_at(*ui, ev, button, release));
    }
    effects
}

fn route(ui: &mut ManagerView, tabs: &mut Vec<TabView>, rows: &[bool], ctx: MouseContext, ev: MouseInput) -> (effects: Vec<MouseEffect>)
    requires
        router_ready(*old(ui), old(tabs)@, rows@),
        !info_drag_undefined(*old(ui), ctx, ev),
        !ctx.prompt_open,
        !ctx.quick_connect_open,
    ensures
        ({
            let r = spec_route(*old(ui), old(tabs)@, rows@, ctx, ev);
            &&& *final(ui) == r.0
            &&& final(tabs)@ == r.1
            &&& effects@ == r.2
        }),
        router_ready(*final(ui), final(tabs)@, rows@),
{
    match ev.kind {
        MouseEventKind::Down(MouseButton::Left) => left_down(ui, tabs, rows, ctx, ev),
        MouseEventKind::Drag(MouseButton::Left) => left_drag(ui, tabs, rows, ctx, ev),
        MouseEventKind::Up(MouseButton::Left) => left_up(ui, tabs, ctx, ev),
        MouseEventKind::Down(MouseButton::Right) => {
            if in_terminal_area(ui, ev.column, ev.row) && ui.selection_start.is_some() && ui.selection_end.is_some() {
                Vec::new()
            } else {
                press_or_release_report(ui, ctx, ev, 2, false)
            }
        },
        MouseEventKind::Up(MouseButton::Right) => {
            if in_terminal_area(ui, ev.column, ev.row) && ui.selection_start.is_some() && ui.selection_end.is_some() {
                clear_selection_state(ui);
                let mut effects: Vec<MouseEffect> = Vec::new();
                effects.push(MouseEffect::CopySelection);
                assert(effects@ =~= seq![MouseEffect::CopySelection]);
                effects
            } else {
                press_or_release_report(ui, ctx, ev, 2, true)
            }
        },
        MouseEventKind::Down(MouseButton::Middle) => press_or_release_report(ui, ctx, ev, 1, false),
        MouseEventKind::Up(MouseButton::Middle) => press_or_release_report(ui, ctx, ev, 1, true),
        MouseEventKind::ScrollUp => wheel(ui, tabs, rows, ctx, ev, true),
        MouseEventKind::ScrollDown => wheel(ui, tabs, rows, ctx, ev, false),
        MouseEventKind::Moved => {
            let mut effects: Vec<MouseEffect> = Vec::new();
            match ctx.pty_mouse_mode {
                MouseProtocolMode::AnyMotion => {
                    push_report(ui, ev, 35, false, &mut effects);
                    assert(effects@ =~= report_at(*ui, ev, 35, false));
                },
                _ => {},
            }
            effects
        },
        _ => Vec::new(),
    }
}

/// Handle one mouse event: ignored while a password prompt is open, handed
/// to the quick-connect modal when it is open, and otherwise routed over the
/// host panel, the tab bar and the terminal area. An active terminal search
/// is closed first when the program in the PTY takes the mouse.
///
/// The caller carries out the returned effects in order; a `TabClosed` or
/// `TabMoved` effect has already been applied to `tabs` and is applied by the
/// caller to its own tabs in the same way.
pub fn handle_mouse(ui: &mut ManagerView, tabs: &mut Vec<TabView>, rows: &[bool], ctx: MouseContext, ev: MouseInput) -> (effects: Vec<MouseEffect>)
    requires
        router_ready(*old(ui), old(tabs)@, rows@),
        !info_drag_undefined(*old(ui), ctx, ev),
    ensures
        ({
            let r = spec_handle_mouse(*old(ui), old(tabs)@, rows@, ctx, ev);
            &&& *final(ui) == r.0
            &&& final(tabs)@ == r.1
            &&& effects@ == r.2
        }),
        router_ready(*final(ui), final(tabs)@, rows@),
{
    if ctx.prompt_open {
        return Vec::new();
    }
    if ctx.quick_connect_open {
        let mut effects: Vec<MouseEffect> = Vec::new();
        effects.push(MouseEffect::QuickConnect);
        assert(effects@ =~= seq![MouseEffect::QuickConnect]);
        return effects;
    }
    let pty_on = match ctx.pty_mouse_mode {
        MouseProtocolMode::Disabled => false,
        _ => true,
    };
    let routed = route(ui, tabs, rows, ctx, ev);
    if ctx.search_active && pty_on {
        let mut effects: Vec<MouseEffect> = Vec::new();
        effects.push(MouseEffect::ClearTerminalSearch);
        let mut i: usize = 0;
        while i < routed.len()
            invariant
                i <= routed@.len(),
                effects@ == seq![MouseEffect::ClearTerminalSearch] + routed@.subrange(0, i as int),
            decreases routed.len() - i,
        {
            effects.push(routed[i]);
            i += 1;
            assert(effects@ =~= seq![MouseEffect::ClearTerminalSearch] + routed@.subrange(0, i as int));
        }
        assert(routed@.subrange(0, routed@.len() as int) =~= routed@);
        effects
    } else {
        routed
    }
}

} // verus!
