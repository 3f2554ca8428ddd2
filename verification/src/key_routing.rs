//! Keyboard routing for the session manager: global keys, the host-list
//! search prompt, the host panel, and terminal or editor tabs.
//!
//! Like mouse routing, each handler changes the manager's UI state and tabs
//! and returns the effects that only the caller can carry out.
use vstd::prelude::*;
use crate::key_encoding::{KeyCode, KeyInput};
use crate::layout::sat_sub;
use crate::mouse_routing::{
    ManagerView, TabView, cleared, focused, visible, with_scroll, tabs_sound, tab_moved,
    same_frame, clear_selection_state, focus_manager_panel, make_tab_visible,
    move_tab_in_view, set_tab_scroll, tab_widths, lemma_tabs_sound_after_edit, lemma_tab_bounded,
    lemma_with_scroll_sound, lemma_tabs_fit, synced_row,
};
use crate::host_search::chars_of;
use crate::paste::{paste_into, pasted_chars, spec_paste};
use crate::text_edit::{string_from_chars, char_len, SearchQuery, QueryModel, empty_query, spec_query_edit};

verus! {

/// What the caller has to carry out after a key press.
#[derive(Clone, Copy, Debug, PartialEq, Eq)]
pub enum KeyEffect {
    /// Leave the session manager.
    Exit,
    /// Hand the key to the open quick-connect modal.
    QuickConnectKey,
    /// Send the key to the program in the PTY of the selected tab.
    SendKey,
    /// Copy the selected text to the clipboard.
    CopySelection,
    /// Reconnect the selected tab's exited session.
    Reconnect,
    /// Open the terminal search of the selected tab.
    OpenTerminalSearch,
    /// Hand the key to the terminal search of the selected tab.
    TerminalSearchKey,
    /// Hand the key to the host editor of the selected tab.
    EditorKey,
    /// The tab at this index was closed (already removed from the tabs).
    TabClosed(usize),
    /// The tab was moved from the first index to the second.
    TabMoved(usize, usize),
    /// Connect, in a new manager, to the host of the tab at this index.
    ConnectTab(usize),
    /// Open the quick-connect modal.
    OpenQuickConnect,
    /// The host search text changed: filter the host list again.
    RefreshHostFilter,
    /// Collapse every folder when one is expanded, otherwise expand all.
    ToggleAllFolders,
    /// Expand (`true`) or collapse the folder on this visible host row.
    SetFolderExpanded(usize, bool),
    /// Expand or collapse the folder on this visible host row.
    ToggleFolder(usize),
    /// Connect to the selected host.
    ConnectSelectedHost,
}

/// What key handling reads from outside the manager's own state.
#[derive(Clone, Copy, Debug, PartialEq, Eq)]
pub struct KeyContext {
    /// The quick-connect modal is open.
    pub quick_connect_open: bool,
    /// The selected tab is a host editor.
    pub tab_is_editor: bool,
    /// The selected tab is a terminal.
    pub tab_is_terminal: bool,
    /// The selected tab's terminal search is active.
    pub search_active: bool,
    /// The program in the selected tab's PTY takes the mouse.
    pub pty_mouse_active: bool,
    /// The selected tab's session has exited (or there is none).
    pub session_exited: bool,
}

/// Control is held.
pub open spec fn ctrl(k: KeyInput) -> bool {
    k.modifiers.control
}

/// Alt is held.
pub open spec fn alt(k: KeyInput) -> bool {
    k.modifiers.alt
}

/// No modifier is held.
pub open spec fn plain(k: KeyInput) -> bool {
    let m = k.modifiers;
    !m.shift && !m.control && !m.alt && !m.super_key && !m.hyper && !m.meta
}

/// Exactly Alt is held.
pub open spec fn alt_only(k: KeyInput) -> bool {
    let m = k.modifiers;
    m.alt && !m.shift && !m.control && !m.super_key && !m.hyper && !m.meta
}

/// The key is the character `c`.
pub open spec fn is_char(k: KeyInput, c: char) -> bool {
    k.code == KeyCode::Char(c)
}

/// Closing the selected tab: the selection moves back when the last tab
/// closes, a tab drag ends, and the host panel takes the focus when no tab
/// is left.
#[verifier::opaque]
pub open spec fn tab_closed(ui: ManagerView, tabs: Seq<TabView>) -> (ManagerView, Seq<TabView>, Seq<KeyEffect>) {
    if tabs.len() == 0 || ui.selected_tab >= tabs.len() {
        (ui, tabs, seq![])
    } else {
        let rest = tabs.remove(ui.selected_tab as int);
        let sel = if ui.selected_tab >= rest.len() && ui.selected_tab > 0 {
            (ui.selected_tab - 1) as usize
        } else {
            ui.selected_tab
        };
        let ui2 = ManagerView { selected_tab: sel, dragging_tab: None, ..ui };
        (
            if rest.len() == 0 { focused(ui2) } else { visible(ui2, rest) },
            rest,
            seq![KeyEffect::TabClosed(ui.selected_tab)],
        )
    }
}

/// Moving the selected tab one place left (`left`) or right.
pub open spec fn selected_tab_moved(ui: ManagerView, tabs: Seq<TabView>, left: bool) -> (ManagerView, Seq<TabView>, Seq<KeyEffect>) {
    let s = ui.selected_tab;
    if left && s > 0 {
        let (u, t) = tab_moved(ui, tabs, s, (s - 1) as usize);
        (u, t, if s < tabs.len() { seq![KeyEffect::TabMoved(s, (s - 1) as usize)] } else { seq![] })
    } else if !left && s + 1 < tabs.len() {
        let (u, t) = tab_moved(ui, tabs, s, (s + 1) as usize);
        (u, t, seq![KeyEffect::TabMoved(s, (s + 1) as usize)])
    } else {
        (ui, tabs, seq![])
    }
}

/// Selecting the tab on the left (`left`) or right, when there is one.
pub open spec fn neighbour_selected(ui: ManagerView, tabs: Seq<TabView>, left: bool) -> ManagerView {
    if left && ui.selected_tab > 0 {
        visible(cleared(ManagerView { selected_tab: (ui.selected_tab - 1) as usize, ..ui }), tabs)
    } else if !left && ui.selected_tab < sat_sub(tabs.len() as int, 1) {
        visible(cleared(ManagerView { selected_tab: (ui.selected_tab + 1) as usize, ..ui }), tabs)
    } else {
        ui
    }
}

/// Keys on a host editor tab: panel and tab keys, the rest go to the editor.
#[verifier::opaque]
pub open spec fn spec_editor_tab_key(ui: ManagerView, tabs: Seq<TabView>, key: KeyInput) -> (ManagerView, Seq<TabView>, Seq<KeyEffect>) {
    if is_char(key, 'b') && ctrl(key) {
        (ManagerView { host_panel_visible: !ui.host_panel_visible, ..ui }, tabs, seq![])
    } else if is_char(key, 'w') && ctrl(key) {
        tab_closed(ui, tabs)
    } else if key.code == KeyCode::BackTab {
        (focused(ui), tabs, seq![])
    } else if key.code == KeyCode::Left && ctrl(key) {
        selected_tab_moved(ui, tabs, true)
    } else if key.code == KeyCode::Right && ctrl(key) {
        selected_tab_moved(ui, tabs, false)
    } else if key.code == KeyCode::Left && alt(key) {
        (neighbour_selected(ui, tabs, true), tabs, seq![])
    } else if key.code == KeyCode::Right && alt(key) {
        (neighbour_selected(ui, tabs, false), tabs, seq![])
    } else {
        (ui, tabs, seq![KeyEffect::EditorKey])
    }
}

/// The key goes to the PTY: the view jumps back to the bottom and the
/// selection is cleared.
pub open spec fn typed(ui: ManagerView, tabs: Seq<TabView>) -> (ManagerView, Seq<TabView>, Seq<KeyEffect>) {
    (cleared(ui), with_scroll(tabs, ui.selected_tab as int, 0), seq![KeyEffect::SendKey])
}

/// Keys on a terminal tab whose search is closed.
#[verifier::opaque]
pub open spec fn spec_terminal_tab_key(ui: ManagerView, tabs: Seq<TabView>, ctx: KeyContext, key: KeyInput) -> (ManagerView, Seq<TabView>, Seq<KeyEffect>) {
    let sel = ui.selected_tab as int;
    if is_char(key, 'b') && ctrl(key) {
        (ManagerView { host_panel_visible: !ui.host_panel_visible, ..ui }, tabs, seq![])
    } else if is_char(key, 'c') && alt_only(key) {
        if ui.selection_start is Some && ui.selection_end is Some {
            (cleared(ui), tabs, seq![KeyEffect::CopySelection])
        } else {
            (ui, tabs, seq![])
        }
    } else if is_char(key, 'w') && ctrl(key) {
        tab_closed(ui, tabs)
    } else if key.code == KeyCode::Tab && plain(key) {
        (ui, tabs, seq![KeyEffect::SendKey])
    } else if key.code == KeyCode::BackTab {
        (focused(ui), tabs, seq![])
    } else if key.code == KeyCode::Left && ctrl(key) {
        selected_tab_moved(ui, tabs, true)
    } else if key.code == KeyCode::Right && ctrl(key) {
        selected_tab_moved(ui, tabs, false)
    } else if key.code == KeyCode::Left && alt(key) {
        (neighbour_selected(ui, tabs, true), tabs, seq![])
    } else if key.code == KeyCode::Right && alt(key) {
        (neighbour_selected(ui, tabs, false), tabs, seq![])
    } else if is_char(key, 'f') && ctrl(key) {
        (ui, tabs, seq![if ctx.pty_mouse_active { KeyEffect::SendKey } else { KeyEffect::OpenTerminalSearch }])
    } else if key.code == KeyCode::PageUp && key.modifiers.shift {
        let t = tabs[sel];
        let up = if t.scroll_offset + 10 <= t.max_scrollback { t.scroll_offset + 10 } else { t.max_scrollback as int };
        (ui, with_scroll(tabs, sel, up), seq![])
    } else if key.code == KeyCode::PageDown && key.modifiers.shift {
        (ui, with_scroll(tabs, sel, sat_sub(tabs[sel].scroll_offset as int, 10)), seq![])
    } else if key.code == KeyCode::Enter && ctx.session_exited {
        (ui, tabs, seq![KeyEffect::Reconnect])
    } else {
        typed(ui, tabs)
    }
}

/// Keys on the selected tab.
pub open spec fn spec_tab_key(ui: ManagerView, tabs: Seq<TabView>, ctx: KeyContext, key: KeyInput) -> (ManagerView, Seq<TabView>, Seq<KeyEffect>) {
    if ctx.tab_is_editor {
        spec_editor_tab_key(ui, tabs, key)
    } else if !ctx.tab_is_terminal {
        (ui, tabs, seq![])
    } else if ctx.search_active {
        (ui, tabs, seq![KeyEffect::TerminalSearchKey])
    } else {
        spec_terminal_tab_key(ui, tabs, ctx, key)
    }
}

fn key_is_char(key: KeyInput, c: char) -> (r: bool)
    ensures
        r == is_char(key, c),
{
    match key.code {
        KeyCode::Char(k) => k == c,
        _ => false,
    }
}

fn key_is_alt_only(key: KeyInput) -> (r: bool)
    ensures
        r == alt_only(key),
{
    let m = key.modifiers;
    m.alt && !m.shift && !m.control && !m.super_key && !m.hyper && !m.meta
}

fn key_is_plain(key: KeyInput) -> (r: bool)
    ensures
        r == plain(key),
{
    key.modifiers.is_empty()
}

fn close_selected_tab(ui: &mut ManagerView, tabs: &mut Vec<TabView>) -> (effects: Vec<KeyEffect>)
    requires
        tabs_sound(old(tabs)@),
    ensures
        ({
            let r = tab_closed(*old(ui), old(tabs)@);
            &&& *final(ui) == r.0
            &&& final(tabs)@ == r.1
            &&& effects@ == r.2
        }),
        tabs_sound(final(tabs)@),
        same_frame(*old(ui), *final(ui)),
{
    proof {
        reveal(tab_closed);
    }
    let mut effects: Vec<KeyEffect> = Vec::new();
    if tabs.len() == 0 || ui.selected_tab >= tabs.len() {
        return effects;
    }
    let idx = ui.selected_tab;
    proof {
        lemma_tabs_sound_after_edit(tabs@, idx as int, 0);
    }
    let _ = tabs.remove(idx);
    if ui.selected_tab >= tabs.len() && ui.selected_tab > 0 {
        ui.selected_tab = ui.selected_tab - 1;
    }
    ui.dragging_tab = None;
    if tabs.len() == 0 {
        focus_manager_panel(ui);
    } else {
        proof {
            lemma_tabs_fit(tabs@);
        }
        let widths = tab_widths(tabs);
        make_tab_visible(ui, &widths, Ghost(tabs@));
    }
    effects.push(KeyEffect::TabClosed(idx));
    assert(effects@ =~= seq![KeyEffect::TabClosed(idx)]);
    effects
}

fn move_selected_tab(ui: &mut ManagerView, tabs: &mut Vec<TabView>, left: bool) -> (effects: Vec<KeyEffect>)
    requires
        tabs_sound(old(tabs)@),
    ensures
        ({
            let r = selected_tab_moved(*old(ui), old(tabs)@, left);
            &&& *final(ui) == r.0
            &&& final(tabs)@ == r.1
            &&& effects@ == r.2
        }),
        tabs_sound(final(tabs)@),
        same_frame(*old(ui), *final(ui)),
{
    let mut effects: Vec<KeyEffect> = Vec::new();
    let s = ui.selected_tab;
    if left && s > 0 {
        if move_tab_in_view(ui, tabs, s, s - 1) {
            effects.push(KeyEffect::TabMoved(s, s - 1));
            assert(effects@ =~= seq![KeyEffect::TabMoved(s, (s - 1) as usize)]);
        }
    } else if !left && s < tabs.len() && s + 1 < tabs.len() {
        let _ = move_tab_in_view(ui, tabs, s, s + 1);
        effects.push(KeyEffect::TabMoved(s, s + 1));
        assert(effects@ =~= seq![KeyEffect::TabMoved(s, (s + 1) as usize)]);
    }
    effects
}

fn select_neighbour_tab(ui: &mut ManagerView, tabs: &Vec<TabView>, left: bool)
    requires
        tabs_sound(tabs@),
    ensures
        *final(ui) == neighbour_selected(*old(ui), tabs@, left),
        same_frame(*old(ui), *final(ui)),
{
    let moves = if left { ui.selected_tab > 0 } else { tabs.len() > 0 && ui.selected_tab < tabs.len() - 1 };
    if moves {
        ui.selected_tab = if left { ui.selected_tab - 1 } else { ui.selected_tab + 1 };
        clear_selection_state(ui);
        proof {
            lemma_tabs_fit(tabs@);
        }
        let widths = tab_widths(tabs);
        make_tab_visible(ui, &widths, Ghost(tabs@));
    }
}

fn editor_tab_key(ui: &mut ManagerView, tabs: &mut Vec<TabView>, key: KeyInput) -> (effects: Vec<KeyEffect>)
    requires
        tabs_sound(old(tabs)@),
    ensures
        ({
            let r = spec_editor_tab_key(*old(ui), old(tabs)@, key);
            &&& *final(ui) == r.0
            &&& final(tabs)@ == r.1
            &&& effects@ == r.2
        }),
        tabs_sound(final(tabs)@),
        same_frame(*old(ui), *final(ui)),
{
    proof {
        reveal(spec_editor_tab_key);
    }
    let m = key.modifiers;
    if key_is_char(key, 'b') && m.control {
        ui.host_panel_visible = !ui.host_panel_visible;
        return Vec::new();
    }
    if key_is_char(key, 'w') && m.control {
        return close_selected_tab(ui, tabs);
    }
    match key.code {
        KeyCode::BackTab => {
            focus_manager_panel(ui);
            return Vec::new();
        },
        KeyCode::Left => {
            if m.control {
                return move_selected_tab(ui, tabs, true);
            }
            if m.alt {
                select_neighbour_tab(ui, tabs, true);
                return Vec::new();
            }
        },
        KeyCode::Right => {
            if m.control {
                return move_selected_tab(ui, tabs, false);
            }
            if m.alt {
                select_neighbour_tab(ui, tabs, false);
                return Vec::new();
            }
        },
        _ => {},
    }
    let mut effects: Vec<KeyEffect> = Vec::new();
    effects.push(KeyEffect::EditorKey);
    assert(effects@ =~= seq![KeyEffect::EditorKey]);
    effects
}

fn one_effect(e: KeyEffect) -> (effects: Vec<KeyEffect>)
    ensures
        effects@ == seq![e],
{
    let mut effects: Vec<KeyEffect> = Vec::new();
    effects.push(e);
    assert(effects@ =~= seq![e]);
    effects
}

#[verifier::spinoff_prover]
#[verifier::rlimit(40)]
fn terminal_tab_key(ui: &mut ManagerView, tabs: &mut Vec<TabView>, ctx: KeyContext, key: KeyInput) -> (effects: Vec<KeyEffect>)
    requires
        tabs_sound(old(tabs)@),
        old(ui).selected_tab < old(tabs)@.len(),
    ensures
        ({
            let r = spec_terminal_tab_key(*old(ui), old(tabs)@, ctx, key);
            &&& *final(ui) == r.0
            &&& final(tabs)@ == r.1
            &&& effects@ == r.2
        }),
        tabs_sound(final(tabs)@),
        same_frame(*old(ui), *final(ui)),
{
    proof {
        reveal(spec_terminal_tab_key);
    }
    let m = key.modifiers;
    let sel = ui.selected_tab;
    if key_is_char(key, 'b') && m.control {
        ui.host_panel_visible = !ui.host_panel_visible;
        return Vec::new();
    }
    if key_is_char(key, 'c') && key_is_alt_only(key) {
        if ui.selection_start.is_some() && ui.selection_end.is_some() {
            clear_selection_state(ui);
            return one_effect(KeyEffect::CopySelection);
        }
        return Vec::new();
    }
    if key_is_char(key, 'w') && m.control {
        return close_selected_tab(ui, tabs);
    }
    match key.code {
        KeyCode::Tab => {
            if key_is_plain(key) {
                return one_effect(KeyEffect::SendKey);
            }
        },
        KeyCode::BackTab => {
            focus_manager_panel(ui);
            return Vec::new();
        },
        KeyCode::Left => {
            if m.control {
                return move_selected_tab(ui, tabs, true);
            }
            if m.alt {
                select_neighbour_tab(ui, tabs, true);
                return Vec::new();
            }
        },
        KeyCode::Right => {
            if m.control {
                return move_selected_tab(ui, tabs, false);
            }
            if m.alt {
                select_neighbour_tab(ui, tabs, false);
                return Vec::new();
            }
        },
        KeyCode::PageUp => {
            if m.shift {
                let t = tabs[sel];
                proof {
                    lemma_tab_bounded(tabs@, sel as int);
                }
                let raised = t.scroll_offset.saturating_add(10);
                let v = if raised <= t.max_scrollback { raised } else { t.max_scrollback };
                proof {
                    lemma_with_scroll_sound(tabs@, sel as int, v as int);
                }
                set_tab_scroll(tabs, sel, v);
                return Vec::new();
            }
        },
        KeyCode::PageDown => {
            if m.shift {
                let t = tabs[sel];
                proof {
                    lemma_tab_bounded(tabs@, sel as int);
                }
                let v = t.scroll_offset.saturating_sub(10);
                proof {
                    lemma_with_scroll_sound(tabs@, sel as int, v as int);
                }
                set_tab_scroll(tabs, sel, v);
                return Vec::new();
            }
        },
        KeyCode::Enter => {
            if ctx.session_exited {
                return one_effect(KeyEffect::Reconnect);
            }
        },
        _ => {},
    }
    if key_is_char(key, 'f') && m.control {
        return one_effect(if ctx.pty_mouse_active { KeyEffect::SendKey } else { KeyEffect::OpenTerminalSearch });
    }
    proof {
        lemma_with_scroll_sound(tabs@, sel as int, 0);
    }
    set_tab_scroll(tabs, sel, 0);
    clear_selection_state(ui);
    one_effect(KeyEffect::SendKey)
}

/// Handle a key on the selected tab: an editor tab takes panel and tab keys
/// and hands the rest to the editor; a terminal tab hands keys to its open
/// search, or handles panel, tab, scroll and search keys and sends the rest
/// to the PTY.
pub fn handle_tab_key(ui: &mut ManagerView, tabs: &mut Vec<TabView>, ctx: KeyContext, key: KeyInput) -> (effects: Vec<KeyEffect>)
    requires
        tabs_sound(old(tabs)@),
        old(ui).selected_tab < old(tabs)@.len(),
    ensures
        ({
            let r = spec_tab_key(*old(ui), old(tabs)@, ctx, key);
            &&& *final(ui) == r.0
            &&& final(tabs)@ == r.1
            &&& effects@ == r.2
        }),
        tabs_sound(final(tabs)@),
        same_frame(*old(ui), *final(ui)),
{
    if ctx.tab_is_editor {
        return editor_tab_key(ui, tabs, key);
    }
    if !ctx.tab_is_terminal {
        return Vec::new();
    }
    if ctx.search_active {
        return one_effect(KeyEffect::TerminalSearchKey);
    }
    terminal_tab_key(ui, tabs, ctx, key)
}

/// Rows moved by Page Up / Page Down in a host list `height` rows tall.
pub open spec fn page_size(height: int) -> int {
    if height < 10 {
        10
    } else {
        height
    }
}

/// The selected host row is a folder row.
pub open spec fn selected_is_folder(ui: ManagerView, rows: Seq<bool>) -> bool {
    ui.selected_host_row < rows.len() && rows[ui.selected_host_row as int]
}

/// The selected host row moved to `row`.
pub open spec fn row_selected(ui: ManagerView, rows: Seq<bool>, row: int) -> ManagerView {
    ManagerView { selected_host_row: synced_row(row, rows.len() as int) as usize, ..ui }
}

/// Keys on which handling the host panel overflows a counter: widening
/// the panel past `u16::MAX` or paging past `usize::MAX`.
pub open spec fn manager_key_overflows(ui: ManagerView, rows: Seq<bool>, key: KeyInput) -> bool {
    ||| ui.focus_on_manager && ui.host_panel_visible && ctrl(key) && key.code == KeyCode::Right
        && ui.host_panel_width + 5 > 0xffff
    ||| ui.focus_on_manager && key.code == KeyCode::PageDown && rows.len() > 0
        && ui.selected_host_row + page_size(ui.host_list_area.height as int) > usize::MAX
}

/// Keys while the host panel has the focus (or no tab is shown).
#[verifier::opaque]
pub open spec fn spec_manager_key(ui: ManagerView, tabs: Seq<TabView>, rows: Seq<bool>, query: QueryModel, key: KeyInput) -> (ManagerView, Seq<TabView>, QueryModel, Seq<KeyEffect>) {
    let focus = ui.focus_on_manager;
    let count = rows.len() as int;
    let sel = ui.selected_host_row as int;
    let page = page_size(ui.host_list_area.height as int);
    if key.code == KeyCode::Esc {
        (if !focus { focused(ui) } else { ui }, tabs, query, seq![])
    } else if key.code == KeyCode::BackTab {
        if tabs.len() > 0 {
            (if !focus { focused(ui) } else { ManagerView { focus_on_manager: false, ..ui } }, tabs, query, seq![])
        } else {
            (ui, tabs, query, seq![])
        }
    } else if is_char(key, 'w') && ctrl(key) {
        if !focus && tabs.len() > 0 {
            let r = tab_closed(ui, tabs);
            (r.0, r.1, query, r.2)
        } else {
            (ui, tabs, query, seq![])
        }
    } else if is_char(key, 'o') && ctrl(key) {
        if !focus && tabs.len() > 0 {
            (ui, tabs, query, seq![KeyEffect::ConnectTab(ui.selected_tab), KeyEffect::Exit])
        } else {
            (ui, tabs, query, seq![])
        }
    } else if key.code == KeyCode::Left && !focus {
        (if ui.selected_tab > 0 { ManagerView { selected_tab: (ui.selected_tab - 1) as usize, ..ui } } else { ui }, tabs, query, seq![])
    } else if key.code == KeyCode::Right && !focus {
        (
            if tabs.len() > 0 && ui.selected_tab < tabs.len() - 1 { ManagerView { selected_tab: (ui.selected_tab + 1) as usize, ..ui } } else { ui },
            tabs,
            query,
            seq![],
        )
    } else if is_char(key, 'f') && focus && ctrl(key) {
        (ManagerView { search_mode: true, ..ui }, tabs, (query.0, query.0.len() as usize, None), seq![])
    } else if is_char(key, 'q') && focus && plain(key) {
        (ui, tabs, query, seq![KeyEffect::OpenQuickConnect])
    } else if is_char(key, 'i') && focus && plain(key) {
        (ManagerView { host_info_visible: !ui.host_info_visible, is_dragging_host_info_divider: false, ..ui }, tabs, query, seq![])
    } else if is_char(key, 'c') && focus && plain(key) && query.0.len() == 0 {
        (ui, tabs, query, seq![KeyEffect::ToggleAllFolders])
    } else if is_char(key, 'c') && focus && ctrl(key) && query.0.len() > 0 {
        (ManagerView { search_mode: false, ..ui }, tabs, empty_query(), seq![KeyEffect::RefreshHostFilter])
    } else if key.code == KeyCode::Left && focus && ui.host_panel_visible && ctrl(key) {
        let w = sat_sub(ui.host_panel_width as int, 5);
        (ManagerView { host_panel_width: (if w < 15 { 15 } else { w }) as u16, ..ui }, tabs, query, seq![])
    } else if key.code == KeyCode::Right && focus && ui.host_panel_visible && ctrl(key) {
        let w = ui.host_panel_width + 5;
        (ManagerView { host_panel_width: (if w > 80 { 80 } else { w }) as u16, ..ui }, tabs, query, seq![])
    } else if key.code == KeyCode::Left && focus && plain(key) {
        (ui, tabs, query, if selected_is_folder(ui, rows) { seq![KeyEffect::SetFolderExpanded(ui.selected_host_row, false)] } else { seq![] })
    } else if key.code == KeyCode::Right && focus && plain(key) {
        (ui, tabs, query, if selected_is_folder(ui, rows) { seq![KeyEffect::SetFolderExpanded(ui.selected_host_row, true)] } else { seq![] })
    } else if key.code == KeyCode::Up && focus {
        (if count > 0 && sel > 0 { row_selected(ui, rows, sel - 1) } else { ui }, tabs, query, seq![])
    } else if key.code == KeyCode::Down && focus {
        (if count > 0 && sel < count - 1 { row_selected(ui, rows, sel + 1) } else { ui }, tabs, query, seq![])
    } else if key.code == KeyCode::PageUp && focus {
        (if count > 0 { row_selected(ui, rows, sat_sub(sel, page)) } else { ui }, tabs, query, seq![])
    } else if key.code == KeyCode::PageDown && focus {
        (if count > 0 { row_selected(ui, rows, if sel + page <= count - 1 { sel + page } else { count - 1 }) } else { ui }, tabs, query, seq![])
    } else if key.code == KeyCode::Home && focus {
        (if count > 0 { row_selected(ui, rows, 0) } else { ui }, tabs, query, seq![])
    } else if key.code == KeyCode::End && focus {
        (if count > 0 { row_selected(ui, rows, count - 1) } else { ui }, tabs, query, seq![])
    } else if key.code == KeyCode::Enter && focus {
        (ui, tabs, query, seq![if selected_is_folder(ui, rows) { KeyEffect::ToggleFolder(ui.selected_host_row) } else { KeyEffect::ConnectSelectedHost }])
    } else {
        (ui, tabs, query, seq![])
    }
}

fn select_host_row(ui: &mut ManagerView, count: usize, row: usize)
    ensures
        *final(ui) == (ManagerView { selected_host_row: synced_row(row as int, count as int) as usize, ..*old(ui) }),
{
    ui.selected_host_row = if count == 0 { 0 } else if row >= count { count - 1 } else { row };
}

fn selected_folder_row(ui: &ManagerView, rows: &[bool]) -> (r: bool)
    ensures
        r == selected_is_folder(*ui, rows@),
{
    ui.selected_host_row < rows.len() && rows[ui.selected_host_row]
}

/// Handle a key on the host panel: tab selection and closing while a tab
/// is shown, and otherwise search, quick connect, the info pane, folders,
/// panel width, and moving the selection through the host list.
#[verifier::spinoff_prover]
#[verifier::rlimit(60)]
pub fn handle_manager_key(ui: &mut ManagerView, tabs: &mut Vec<TabView>, rows: &[bool], query: &mut SearchQuery, key: KeyInput) -> (effects: Vec<KeyEffect>)
    requires
        tabs_sound(old(tabs)@),
        old(tabs)@.len() > 0 ==> old(ui).selected_tab < old(tabs)@.len(),
        !manager_key_overflows(*old(ui), rows@, key),
    ensures
        ({
            let r = spec_manager_key(*old(ui), old(tabs)@, rows@, old(query)@, key);
            &&& *final(ui) == r.0
            &&& final(tabs)@ == r.1
            &&& final(query)@ == r.2
            &&& effects@ == r.3
        }),
        tabs_sound(final(tabs)@),
        same_frame(*old(ui), *final(ui)),
{
    proof {
        reveal(spec_manager_key);
    }
    let focus = ui.focus_on_manager;
    let m = key.modifiers;
    let count = rows.len();
    let sel = ui.selected_host_row;
    let page: usize = if (ui.host_list_area.height as usize) < 10 { 10 } else { ui.host_list_area.height as usize };
    match key.code {
        KeyCode::Esc => {
            if !focus {
                focus_manager_panel(ui);
            }
            return Vec::new();
        },
        KeyCode::BackTab => {
            if tabs.len() > 0 {
                if !focus {
                    focus_manager_panel(ui);
                } else {
                    ui.focus_on_manager = false;
                }
            }
            return Vec::new();
        },
        _ => {},
    }
    if key_is_char(key, 'w') && m.control {
        if !focus && tabs.len() > 0 {
            return close_selected_tab(ui, tabs);
        }
        return Vec::new();
    }
    if key_is_char(key, 'o') && m.control {
        if !focus && tabs.len() > 0 {
            let mut effects: Vec<KeyEffect> = Vec::new();
            effects.push(KeyEffect::ConnectTab(ui.selected_tab));
            effects.push(KeyEffect::Exit);
            assert(effects@ =~= seq![KeyEffect::ConnectTab(ui.selected_tab), KeyEffect::Exit]);
            return effects;
        }
        return Vec::new();
    }
    if !focus {
        match key.code {
            KeyCode::Left => {
                if ui.selected_tab > 0 {
                    ui.selected_tab = ui.selected_tab - 1;
                }
            },
            KeyCode::Right => {
                if tabs.len() > 0 && ui.selected_tab < tabs.len() - 1 {
                    ui.selected_tab = ui.selected_tab + 1;
                }
            },
            _ => {},
        }
        return Vec::new();
    }
    if key_is_char(key, 'f') && m.control {
        ui.search_mode = true;
        query.cursor = char_len(query.text.as_str());
        query.selection = None;
        return Vec::new();
    }
    if key_is_char(key, 'q') && key_is_plain(key) {
        return one_effect(KeyEffect::OpenQuickConnect);
    }
    if key_is_char(key, 'i') && key_is_plain(key) {
        ui.host_info_visible = !ui.host_info_visible;
        ui.is_dragging_host_info_divider = false;
        return Vec::new();
    }
    if key_is_char(key, 'c') {
        let empty = char_len(query.text.as_str()) == 0;
        if key_is_plain(key) && empty {
            return one_effect(KeyEffect::ToggleAllFolders);
        }
        if m.control && !empty {
            ui.search_mode = false;
            *query = SearchQuery::new();
            return one_effect(KeyEffect::RefreshHostFilter);
        }
        return Vec::new();
    }
    match key.code {
        KeyCode::Left => {
            if ui.host_panel_visible && m.control {
                let w = ui.host_panel_width.saturating_sub(5);
                ui.host_panel_width = if w < 15 { 15 } else { w };
                return Vec::new();
            }
            if key_is_plain(key) && selected_folder_row(ui, rows) {
                return one_effect(KeyEffect::SetFolderExpanded(sel, false));
            }
            Vec::new()
        },
        KeyCode::Right => {
            if ui.host_panel_visible && m.control {
                let w = ui.host_panel_width + 5;
                ui.host_panel_width = if w > 80 { 80 } else { w };
                return Vec::new();
            }
            if key_is_plain(key) && selected_folder_row(ui, rows) {
                return one_effect(KeyEffect::SetFolderExpanded(sel, true));
            }
            Vec::new()
        },
        KeyCode::Up => {
            if count > 0 && sel > 0 {
                select_host_row(ui, count, sel - 1);
            }
            Vec::new()
        },
        KeyCode::Down => {
            if count > 0 && sel < count - 1 {
                select_host_row(ui, count, sel + 1);
            }
            Vec::new()
        },
        KeyCode::PageUp => {
            if count > 0 {
                select_host_row(ui, count, sel.saturating_sub(page));
            }
            Vec::new()
        },
        KeyCode::PageDown => {
            if count > 0 {
                let target = sel + page;
                select_host_row(ui, count, if target <= count - 1 { target } else { count - 1 });
            }
            Vec::new()
        },
        KeyCode::Home => {
            if count > 0 {
                select_host_row(ui, count, 0);
            }
            Vec::new()
        },
        KeyCode::End => {
            if count > 0 {
                select_host_row(ui, count, count - 1);
            }
            Vec::new()
        },
        KeyCode::Enter => {
            if selected_folder_row(ui, rows) {
                one_effect(KeyEffect::ToggleFolder(sel))
            } else {
                one_effect(KeyEffect::ConnectSelectedHost)
            }
        },
        _ => Vec::new(),
    }
}

/// The text without its last character (unchanged when empty).
pub fn pop_char(text: &mut String)
    ensures
        final(text)@ == if old(text)@.len() > 0 { old(text)@.drop_last() } else { old(text)@ },
{
    let chars = chars_of(text.as_str());
    if chars.len() == 0 {
        return;
    }
    let mut kept: Vec<char> = Vec::new();
    let mut i: usize = 0;
    while i + 1 < chars.len()
        invariant
            chars@ == old(text)@,
            chars@.len() > 0,
            i + 1 <= chars@.len(),
            kept@ == chars@.subrange(0, i as int),
        decreases chars.len() - i,
    {
        kept.push(chars[i]);
        i += 1;
        assert(kept@ =~= chars@.subrange(0, i as int));
    }
    assert(kept@ =~= old(text)@.drop_last());
    *text = string_from_chars(&kept);
}


/// Keys while the host search prompt is open: Ctrl+C and Esc close it and
/// clear the text, Enter closes it keeping the text, and the editing keys
/// of a search box edit it, the host list being filtered again when the
/// text changed.
pub open spec fn spec_search_key(ui: ManagerView, query: QueryModel, key: KeyInput) -> (ManagerView, QueryModel, Seq<KeyEffect>) {
    if (is_char(key, 'c') && ctrl(key)) || key.code == KeyCode::Esc {
        (ManagerView { search_mode: false, ..ui }, empty_query(), seq![KeyEffect::RefreshHostFilter])
    } else if key.code == KeyCode::Enter {
        (ManagerView { search_mode: false, ..ui }, (query.0, query.1, None), seq![])
    } else {
        let (q, changed) = spec_query_edit(query, key);
        (ui, q, if changed { seq![KeyEffect::RefreshHostFilter] } else { seq![] })
    }
}

/// Handle a key while the host search prompt is open.
pub fn handle_search_key(ui: &mut ManagerView, query: &mut SearchQuery, key: KeyInput) -> (effects: Vec<KeyEffect>)
    requires
        old(query).text@.len() < usize::MAX,
    ensures
        ({
            let r = spec_search_key(*old(ui), old(query)@, key);
            &&& *final(ui) == r.0
            &&& final(query)@ == r.1
            &&& effects@ == r.2
        }),
{
    let is_esc = match key.code {
        KeyCode::Esc => true,
        _ => false,
    };
    if (key_is_char(key, 'c') && key.modifiers.control) || is_esc {
        ui.search_mode = false;
        *query = SearchQuery::new();
        return one_effect(KeyEffect::RefreshHostFilter);
    }
    if let KeyCode::Enter = key.code {
        ui.search_mode = false;
        query.selection = None;
        return Vec::new();
    }
    if query.edit_key(key) {
        one_effect(KeyEffect::RefreshHostFilter)
    } else {
        Vec::new()
    }
}

/// Paste into the host search box: control characters are dropped and the
/// rest replaces the selection, or goes in at the cursor. Returns whether
/// the text changed, and so the host list needs filtering again.
pub fn handle_search_paste(query: &mut SearchQuery, pasted: &str) -> (refresh: bool)
    requires
        old(query).text@.len() + pasted@.len() < usize::MAX,
    ensures
        refresh == (pasted_chars(pasted@, false).len() > 0),
        !refresh ==> final(query)@ == old(query)@,
        refresh ==> ({
            let (t, c) = spec_paste(old(query).text@, old(query).cursor as int, old(query).selection, pasted_chars(pasted@, false));
            final(query)@ == (t, c as usize, None::<(usize, usize)>)
        }),
{
    paste_into(&mut query.text, &mut query.cursor, &mut query.selection, pasted, false)
}

/// Keys that the session manager handles before anything else, and where
/// each other key goes.
pub open spec fn spec_handle_key(ui: ManagerView, tabs: Seq<TabView>, rows: Seq<bool>, query: QueryModel, ctx: KeyContext, key: KeyInput) -> (ManagerView, Seq<TabView>, QueryModel, Seq<KeyEffect>) {
    if is_char(key, 'q') && ctrl(key) && !(!ui.focus_on_manager && tabs.len() > 0 && ui.selected_tab < tabs.len()) {
        (ui, tabs, query, seq![KeyEffect::Exit])
    } else if ctx.quick_connect_open {
        (ui, tabs, query, seq![KeyEffect::QuickConnectKey])
    } else if ui.search_mode {
        let (u, q, e) = spec_search_key(ui, query, key);
        (u, tabs, q, e)
    } else if !ui.focus_on_manager && tabs.len() > 0 && ui.selected_tab < tabs.len() {
        let (u, t, e) = spec_tab_key(ui, tabs, ctx, key);
        (u, t, query, e)
    } else {
        spec_manager_key(ui, tabs, rows, query, key)
    }
}

/// Handle a key press: Ctrl+Q leaves unless a tab has the focus (the
/// program in the tab gets it then); otherwise the key goes to the
/// quick-connect modal, the host search prompt, the shown tab, or the host
/// panel, in that order.
pub fn handle_key(ui: &mut ManagerView, tabs: &mut Vec<TabView>, rows: &[bool], query: &mut SearchQuery, ctx: KeyContext, key: KeyInput) -> (effects: Vec<KeyEffect>)
    requires
        old(query).text@.len() < usize::MAX,
        tabs_sound(old(tabs)@),
        old(tabs)@.len() > 0 ==> old(ui).selected_tab < old(tabs)@.len(),
        !manager_key_overflows(*old(ui), rows@, key),
    ensures
        ({
            let r = spec_handle_key(*old(ui), old(tabs)@, rows@, old(query)@, ctx, key);
            &&& *final(ui) == r.0
            &&& final(tabs)@ == r.1
            &&& final(query)@ == r.2
            &&& effects@ == r.3
        }),
        tabs_sound(final(tabs)@),
        same_frame(*old(ui), *final(ui)),
{
    let tab_focused = !ui.focus_on_manager && tabs.len() > 0 && ui.selected_tab < tabs.len();
    if key_is_char(key, 'q') && key.modifiers.control && !tab_focused {
        return one_effect(KeyEffect::Exit);
    }
    if ctx.quick_connect_open {
        return one_effect(KeyEffect::QuickConnectKey);
    }
    if ui.search_mode {
        return handle_search_key(ui, query, key);
    }
    if !ui.focus_on_manager && tabs.len() > 0 && ui.selected_tab < tabs.len() {
        return handle_tab_key(ui, tabs, ctx, key);
    }
    handle_manager_key(ui, tabs, rows, query, key)
}

/// Ctrl-C or Alt-C (either case) copies the selection of an open form.
pub open spec fn spec_is_modal_copy_shortcut(key: KeyInput) -> bool {
    &&& key.code matches KeyCode::Char(c) && (c == 'c' || c == 'C')
    &&& key.modifiers.control || key.modifiers.alt
}

/// Whether `key` is the copy shortcut of the forms.
pub fn is_modal_copy_shortcut(key: &KeyInput) -> (r: bool)
    ensures
        r == spec_is_modal_copy_shortcut(*key),
{
    match key.code {
        KeyCode::Char(c) => (c == 'c' || c == 'C') && (key.modifiers.control || key.modifiers.alt),
        _ => false,
    }
}

} // verus!
