//! Event-loop policy: which handler a key goes to, when a key press needs a
//! redraw, when to draw a frame, and which status line to show.
use vstd::prelude::*;
use crate::key_encoding::{KeyCode, KeyInput};

verus! {

/// Where a key press goes.
#[derive(Clone, Copy, Debug, PartialEq, Eq)]
pub enum AppAction {
    Host,
    Tab,
    TerminalSearch,
    QuickConnect,
    Exit,
}

/// The manager's state as the event loop sees it.
#[derive(Clone, Copy, Debug, PartialEq, Eq)]
pub struct UiFlags {
    pub should_exit: bool,
    /// A password prompt or a vault dialog is open.
    pub modal_open: bool,
    pub quick_connect_open: bool,
    pub search_mode: bool,
    pub focus_on_manager: bool,
    pub tab_count: usize,
    pub selected_tab: usize,
    /// The selected tab's terminal search is active.
    pub terminal_search_active: bool,
}

/// A tab is shown and has the focus.
pub open spec fn spec_terminal_focus(f: UiFlags) -> bool {
    !f.focus_on_manager && f.tab_count > 0 && f.selected_tab < f.tab_count
}

/// Whether a tab is shown and has the focus.
pub fn has_terminal_focus(f: UiFlags) -> (r: bool)
    ensures
        r == spec_terminal_focus(f),
{
    !f.focus_on_manager && f.tab_count > 0 && f.selected_tab < f.tab_count
}

/// Where a key press goes, in order of precedence.
pub open spec fn spec_resolve_action(f: UiFlags) -> AppAction {
    if f.should_exit {
        AppAction::Exit
    } else if f.modal_open {
        AppAction::Tab
    } else if f.quick_connect_open {
        AppAction::QuickConnect
    } else if f.search_mode {
        AppAction::Host
    } else if !f.focus_on_manager && f.terminal_search_active {
        AppAction::TerminalSearch
    } else if spec_terminal_focus(f) {
        AppAction::Tab
    } else {
        AppAction::Host
    }
}

/// Where a key press goes.
pub fn resolve_action(f: UiFlags) -> (a: AppAction)
    ensures
        a == spec_resolve_action(f),
{
    if f.should_exit {
        return AppAction::Exit;
    }
    if f.modal_open {
        return AppAction::Tab;
    }
    if f.quick_connect_open {
        return AppAction::QuickConnect;
    }
    if f.search_mode {
        return AppAction::Host;
    }
    if !f.focus_on_manager && f.terminal_search_active {
        return AppAction::TerminalSearch;
    }
    if has_terminal_focus(f) {
        return AppAction::Tab;
    }
    AppAction::Host
}

/// Keys typed straight into the terminal need no redraw of their own: the
/// PTY's output triggers it.
pub open spec fn spec_marks_ui_dirty(f: UiFlags, key: KeyInput) -> bool {
    let direct = spec_terminal_focus(f) && !f.terminal_search_active && !f.quick_connect_open && !f.modal_open && !f.search_mode;
    let m = key.modifiers;
    let plain = !m.shift && !m.control && !m.alt && !m.super_key && !m.hyper && !m.meta;
    let typing = match key.code {
        KeyCode::Char(_) | KeyCode::Enter | KeyCode::Tab => true,
        _ => false,
    };
    !(direct && plain && typing)
}

/// Whether a key press needs the UI to be redrawn.
pub fn should_mark_ui_dirty_for_key(f: UiFlags, key: KeyInput) -> (r: bool)
    ensures
        r == spec_marks_ui_dirty(f, key),
{
    let direct = has_terminal_focus(f) && !f.terminal_search_active && !f.quick_connect_open && !f.modal_open && !f.search_mode;
    let typing = match key.code {
        KeyCode::Char(_) | KeyCode::Enter | KeyCode::Tab => true,
        _ => false,
    };
    !(direct && key.modifiers.is_empty() && typing)
}

/// Sum of the sessions' render epochs, wrapping around.
pub open spec fn epoch_sum(epochs: Seq<u64>) -> int
    decreases epochs.len(),
{
    if epochs.len() == 0 {
        0
    } else {
        (epoch_sum(epochs.drop_last()) + epochs.last()) % 0x1_0000_0000_0000_0000
    }
}

/// The combined render epoch of all sessions: it changes whenever one of
/// them produced output (barring wrap-around).
pub fn combined_render_epoch(epochs: &[u64]) -> (e: u64)
    ensures
        e == epoch_sum(epochs@),
{
    let mut acc: u64 = 0;
    let mut i: usize = 0;
    while i < epochs.len()
        invariant
            i <= epochs@.len(),
            acc == epoch_sum(epochs@.subrange(0, i as int)),
        decreases epochs.len() - i,
    {
        proof {
            assert(epochs@.subrange(0, i + 1).drop_last() =~= epochs@.subrange(0, i as int));
        }
        let x = epochs[i];
        let next = acc.wrapping_add(x);
        assert(next == (acc + x) % 0x1_0000_0000_0000_0000) by (bit_vector)
            requires
                next == acc.wrapping_add(x),
        ;
        acc = next;
        i += 1;
    }
    assert(epochs@.subrange(0, epochs@.len() as int) =~= epochs@);
    acc
}

/// Draw a frame when the UI changed, some session produced output since the
/// last frame, or the heartbeat interval has passed.
pub fn should_draw(ui_dirty: bool, current_epoch: u64, last_drawn_epoch: u64, since_last_draw_ms: u64, heartbeat_ms: u64) -> (r: bool)
    ensures
        r == (ui_dirty || current_epoch != last_drawn_epoch || since_last_draw_ms >= heartbeat_ms),
{
    ui_dirty || current_epoch != last_drawn_epoch || since_last_draw_ms >= heartbeat_ms
}

/// Which status line the bottom bar shows.
#[derive(Clone, Copy, Debug, PartialEq, Eq)]
pub enum StatusContext {
    HostSearch,
    TerminalSearch,
    Host,
    Terminal,
}

/// Which status line the bottom bar shows.
pub fn resolve_status_context(f: UiFlags) -> (c: StatusContext)
    ensures
        c == if f.search_mode {
            StatusContext::HostSearch
        } else if spec_terminal_focus(f) && f.terminal_search_active {
            StatusContext::TerminalSearch
        } else if spec_terminal_focus(f) {
            StatusContext::Terminal
        } else {
            StatusContext::Host
        },
{
    if f.search_mode {
        return StatusContext::HostSearch;
    }
    if has_terminal_focus(f) && f.terminal_search_active {
        return StatusContext::TerminalSearch;
    }
    if has_terminal_focus(f) {
        return StatusContext::Terminal;
    }
    StatusContext::Host
}

/// What is open on top of the panels, in the order in which it takes keys.
#[derive(Clone, Copy, Debug, PartialEq, Eq)]
pub struct OverlayFlags {
    pub context_menu: bool,
    pub host_delete_confirm: bool,
    pub folder_picker: bool,
    pub folder_create: bool,
    pub folder_rename: bool,
    pub folder_delete_confirm: bool,
    pub vault_unlock: bool,
    pub rdp_credentials: bool,
    pub vault_status: bool,
    pub quick_connect: bool,
}

/// Where a key press goes.
#[derive(Clone, Copy, Debug, PartialEq, Eq)]
pub enum KeyRoute {
    /// Leave the program.
    Exit,
    ContextMenu,
    HostDeleteConfirm,
    FolderPicker,
    FolderCreate,
    FolderRename,
    FolderDeleteConfirm,
    VaultUnlock,
    RdpCredentials,
    VaultStatus,
    QuickConnect,
    HostSearch,
    /// The selected tab.
    Tab,
    /// The host panel.
    Manager,
}

/// Where a key press goes: Ctrl+Q leaves unless a tab is shown; otherwise
/// the first open overlay takes it (context menu, delete confirmation,
/// folder picker, folder dialogs, vault unlock, RDP credentials, vault
/// status, quick connect), then the host search, the shown tab, and the
/// host panel.
pub open spec fn spec_route_key(f: UiFlags, o: OverlayFlags, key: KeyInput) -> KeyRoute {
    let quit = key.code == KeyCode::Char('q') && key.modifiers.control;
    if quit && !spec_terminal_focus(f) {
        KeyRoute::Exit
    } else if o.context_menu {
        KeyRoute::ContextMenu
    } else if o.host_delete_confirm {
        KeyRoute::HostDeleteConfirm
    } else if o.folder_picker {
        KeyRoute::FolderPicker
    } else if o.folder_create {
        KeyRoute::FolderCreate
    } else if o.folder_rename {
        KeyRoute::FolderRename
    } else if o.folder_delete_confirm {
        KeyRoute::FolderDeleteConfirm
    } else if o.vault_unlock {
        KeyRoute::VaultUnlock
    } else if o.rdp_credentials {
        KeyRoute::RdpCredentials
    } else if o.vault_status {
        KeyRoute::VaultStatus
    } else if o.quick_connect {
        KeyRoute::QuickConnect
    } else if f.search_mode {
        KeyRoute::HostSearch
    } else if spec_terminal_focus(f) {
        KeyRoute::Tab
    } else {
        KeyRoute::Manager
    }
}

/// Where a key press goes.
pub fn route_key(f: UiFlags, o: OverlayFlags, key: KeyInput) -> (r: KeyRoute)
    ensures
        r == spec_route_key(f, o, key),
{
    let quit = match key.code {
        KeyCode::Char(c) => c == 'q' && key.modifiers.control,
        _ => false,
    };
    if quit && !has_terminal_focus(f) {
        KeyRoute::Exit
    } else if o.context_menu {
        KeyRoute::ContextMenu
    } else if o.host_delete_confirm {
        KeyRoute::HostDeleteConfirm
    } else if o.folder_picker {
        KeyRoute::FolderPicker
    } else if o.folder_create {
        KeyRoute::FolderCreate
    } else if o.folder_rename {
        KeyRoute::FolderRename
    } else if o.folder_delete_confirm {
        KeyRoute::FolderDeleteConfirm
    } else if o.vault_unlock {
        KeyRoute::VaultUnlock
    } else if o.rdp_credentials {
        KeyRoute::RdpCredentials
    } else if o.vault_status {
        KeyRoute::VaultStatus
    } else if o.quick_connect {
        KeyRoute::QuickConnect
    } else if f.search_mode {
        KeyRoute::HostSearch
    } else if has_terminal_focus(f) {
        KeyRoute::Tab
    } else {
        KeyRoute::Manager
    }
}

/// Where pasted text goes.
#[derive(Clone, Copy, Debug, PartialEq, Eq)]
pub enum PasteRoute {
    Ignore,
    VaultUnlock,
    FolderRename,
    FolderCreate,
    RdpCredentials,
    QuickConnect,
    HostSearch,
    HostEditor,
    TerminalSearch,
    /// Into the selected terminal (its view scrolled to the bottom and
    /// its selection cleared).
    Terminal,
}

/// Where pasted text goes: nowhere when empty; into the first open text
/// overlay (vault unlock, folder rename, folder create, RDP credentials),
/// nowhere while the vault status is shown, then quick connect, the host
/// search, and on a shown tab its editor, its open search or its terminal.
pub open spec fn spec_route_paste(f: UiFlags, o: OverlayFlags, tab_is_editor: bool, empty: bool) -> PasteRoute {
    let on_tab = !f.focus_on_manager;
    if empty {
        PasteRoute::Ignore
    } else if o.vault_unlock {
        PasteRoute::VaultUnlock
    } else if o.folder_rename {
        PasteRoute::FolderRename
    } else if o.folder_create {
        PasteRoute::FolderCreate
    } else if o.rdp_credentials {
        PasteRoute::RdpCredentials
    } else if o.vault_status {
        PasteRoute::Ignore
    } else if o.quick_connect {
        PasteRoute::QuickConnect
    } else if f.search_mode {
        PasteRoute::HostSearch
    } else if on_tab && tab_is_editor {
        PasteRoute::HostEditor
    } else if on_tab && f.terminal_search_active {
        PasteRoute::TerminalSearch
    } else if spec_terminal_focus(f) {
        PasteRoute::Terminal
    } else {
        PasteRoute::Ignore
    }
}

/// Where pasted text goes; `tab_is_editor` tells whether the selected tab
/// is a host editor.
pub fn route_paste(f: UiFlags, o: OverlayFlags, tab_is_editor: bool, pasted: &str) -> (r: PasteRoute)
    ensures
        r == spec_route_paste(f, o, tab_is_editor, pasted@.len() == 0),
{
    let on_tab = !f.focus_on_manager;
    if crate::text_edit::char_len(pasted) == 0 {
        PasteRoute::Ignore
    } else if o.vault_unlock {
        PasteRoute::VaultUnlock
    } else if o.folder_rename {
        PasteRoute::FolderRename
    } else if o.folder_create {
        PasteRoute::FolderCreate
    } else if o.rdp_credentials {
        PasteRoute::RdpCredentials
    } else if o.vault_status {
        PasteRoute::Ignore
    } else if o.quick_connect {
        PasteRoute::QuickConnect
    } else if f.search_mode {
        PasteRoute::HostSearch
    } else if on_tab && tab_is_editor {
        PasteRoute::HostEditor
    } else if on_tab && f.terminal_search_active {
        PasteRoute::TerminalSearch
    } else if has_terminal_focus(f) {
        PasteRoute::Terminal
    } else {
        PasteRoute::Ignore
    }
}

} // verus!
