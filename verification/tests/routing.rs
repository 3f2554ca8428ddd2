use color_ssh::key_encoding::{KeyCode, KeyInput, KeyModifiers};
use color_ssh::key_routing::{handle_key, handle_manager_key, is_modal_copy_shortcut, KeyContext, KeyEffect};
use color_ssh::text_edit::SearchQuery;
use color_ssh::tab_list::{close_selected_editor_tab, open_or_focus_editor_tab, push_host_tab};
use color_ssh::layout::Rect;
use color_ssh::mouse_routing::{
    handle_mouse, move_tab_in_view, ManagerView, MouseButton, MouseContext, MouseEffect, MouseEventKind, MouseInput, MouseProtocolMode, MouseReport, TabView,
};

fn view() -> ManagerView {
    ManagerView {
        host_panel_area: Rect::new(0, 0, 20, 30),
        host_info_area: Rect::new(0, 25, 19, 5),
        host_list_area: Rect::new(0, 1, 19, 20),
        tab_bar_area: Rect::new(20, 0, 60, 1),
        tab_content_area: Rect::new(20, 1, 60, 29),
        host_panel_visible: true,
        host_info_visible: true,
        host_panel_width: 20,
        host_info_height: 5,
        focus_on_manager: true,
        search_mode: false,
        selected_tab: 0,
        tab_scroll_offset: 0,
        dragging_tab: None,
        selected_host_row: 0,
        host_scroll_offset: 0,
        selection_start: None,
        selection_end: None,
        is_selecting: false,
        selection_dragged: false,
        is_dragging_divider: false,
        is_dragging_host_scrollbar: false,
        is_dragging_host_info_divider: false,
        last_click: None,
    }
}

fn tabs() -> Vec<TabView> {
    vec![
        TabView { width: 8, scroll_offset: 0, max_scrollback: 100 },
        TabView { width: 9, scroll_offset: 5, max_scrollback: 100 },
    ]
}

fn ctx(mode: MouseProtocolMode) -> MouseContext {
    MouseContext { prompt_open: false, quick_connect_open: false, search_active: false, pty_mouse_mode: mode, now_ms: 1000 }
}

fn mouse(kind: MouseEventKind, column: u16, row: u16) -> MouseInput {
    MouseInput { kind, column, row, modifiers: KeyModifiers::none() }
}

#[test]
fn pressing_the_divider_starts_a_panel_resize() {
    let mut ui = view();
    let mut t = tabs();
    let effects = handle_mouse(&mut ui, &mut t, &[false; 3], ctx(MouseProtocolMode::Disabled), mouse(MouseEventKind::Down(MouseButton::Left), 19, 10));
    assert!(effects.is_empty());
    assert!(ui.is_dragging_divider);
    let _ = handle_mouse(&mut ui, &mut t, &[false; 3], ctx(MouseProtocolMode::Disabled), mouse(MouseEventKind::Drag(MouseButton::Left), 200, 10));
    assert_eq!(ui.host_panel_width, 80);
    let _ = handle_mouse(&mut ui, &mut t, &[false; 3], ctx(MouseProtocolMode::Disabled), mouse(MouseEventKind::Up(MouseButton::Left), 200, 10));
    assert!(!ui.is_dragging_divider);
}

#[test]
fn clicking_a_folder_row_toggles_it_and_double_click_connects() {
    let mut ui = view();
    let mut t = tabs();
    let rows = [true, false, false];
    let effects = handle_mouse(&mut ui, &mut t, &rows, ctx(MouseProtocolMode::Disabled), mouse(MouseEventKind::Down(MouseButton::Left), 3, 1));
    assert_eq!(effects, vec![MouseEffect::ToggleFolder(0)]);
    let first = handle_mouse(&mut ui, &mut t, &rows, ctx(MouseProtocolMode::Disabled), mouse(MouseEventKind::Down(MouseButton::Left), 3, 2));
    assert!(first.is_empty());
    assert_eq!(ui.selected_host_row, 1);
    let second = handle_mouse(&mut ui, &mut t, &rows, ctx(MouseProtocolMode::Disabled), mouse(MouseEventKind::Down(MouseButton::Left), 3, 2));
    assert_eq!(second, vec![MouseEffect::ConnectSelectedHost]);
}

#[test]
fn pressing_the_terminal_starts_a_selection_at_the_absolute_row() {
    let mut ui = view();
    ui.selected_tab = 1;
    let mut t = tabs();
    let _ = handle_mouse(&mut ui, &mut t, &[], ctx(MouseProtocolMode::Disabled), mouse(MouseEventKind::Down(MouseButton::Left), 25, 4));
    assert_eq!(ui.selection_start, Some((3 - 5, 5)));
    assert!(ui.is_selecting);
    assert!(!ui.focus_on_manager);
}

#[test]
fn mouse_reporting_programs_get_reports() {
    let mut ui = view();
    let mut t = tabs();
    let effects = handle_mouse(&mut ui, &mut t, &[], ctx(MouseProtocolMode::PressRelease), mouse(MouseEventKind::Down(MouseButton::Left), 20, 1));
    assert_eq!(effects, vec![MouseEffect::Report(MouseReport { button: 0, col: 1, row: 1, release: false })]);
    let wheel = handle_mouse(&mut ui, &mut t, &[], ctx(MouseProtocolMode::PressRelease), mouse(MouseEventKind::ScrollDown, 30, 5));
    assert_eq!(wheel, vec![MouseEffect::Report(MouseReport { button: 65, col: 11, row: 5, release: false })]);
}

#[test]
fn the_wheel_scrolls_back_without_mouse_reporting() {
    let mut ui = view();
    let mut t = tabs();
    let _ = handle_mouse(&mut ui, &mut t, &[], ctx(MouseProtocolMode::Disabled), mouse(MouseEventKind::ScrollUp, 30, 5));
    assert_eq!(t[0].scroll_offset, 3);
    let _ = handle_mouse(&mut ui, &mut t, &[], ctx(MouseProtocolMode::Disabled), mouse(MouseEventKind::ScrollDown, 30, 5));
    assert_eq!(t[0].scroll_offset, 0);
}

#[test]
fn clicking_a_close_marker_closes_that_tab() {
    let mut ui = view();
    let mut t = tabs();
    // Tab 0 spans columns 20..28; its close marker is at local column 6.
    let effects = handle_mouse(&mut ui, &mut t, &[], ctx(MouseProtocolMode::Disabled), mouse(MouseEventKind::Down(MouseButton::Left), 26, 0));
    assert_eq!(effects, vec![MouseEffect::TabClosed(0)]);
    assert_eq!(t.len(), 1);
    assert_eq!(ui.selected_tab, 0);
}

#[test]
fn a_prompt_swallows_the_mouse_and_quick_connect_takes_it() {
    let mut ui = view();
    let mut t = tabs();
    let mut c = ctx(MouseProtocolMode::Disabled);
    c.prompt_open = true;
    assert!(handle_mouse(&mut ui, &mut t, &[], c, mouse(MouseEventKind::Down(MouseButton::Left), 19, 10)).is_empty());
    c.prompt_open = false;
    c.quick_connect_open = true;
    assert_eq!(handle_mouse(&mut ui, &mut t, &[], c, mouse(MouseEventKind::Down(MouseButton::Left), 19, 10)), vec![MouseEffect::QuickConnect]);
}

fn key(code: KeyCode, control: bool, alt: bool) -> KeyInput {
    KeyInput::new(code, KeyModifiers::from_flags(false, control, alt))
}

fn kctx() -> KeyContext {
    KeyContext { quick_connect_open: false, tab_is_editor: false, tab_is_terminal: true, search_active: false, pty_mouse_active: false, session_exited: false }
}

#[test]
fn ctrl_q_exits_unless_a_tab_has_focus() {
    let mut ui = view();
    let mut t = tabs();
    let mut q = SearchQuery::new();
    assert_eq!(handle_key(&mut ui, &mut t, &[], &mut q, kctx(), key(KeyCode::Char('q'), true, false)), vec![KeyEffect::Exit]);
    ui.focus_on_manager = false;
    let to_tab = handle_key(&mut ui, &mut t, &[], &mut q, kctx(), key(KeyCode::Char('q'), true, false));
    assert!(!to_tab.contains(&KeyEffect::Exit));
    assert_eq!(to_tab, vec![KeyEffect::SendKey]);
}

#[test]
fn keys_on_a_terminal_tab() {
    let mut ui = view();
    ui.focus_on_manager = false;
    ui.selected_tab = 1;
    let mut t = tabs();
    let mut q = SearchQuery::new();
    let typed = handle_key(&mut ui, &mut t, &[], &mut q, kctx(), key(KeyCode::Char('x'), false, false));
    assert_eq!(typed, vec![KeyEffect::SendKey]);
    assert_eq!(t[1].scroll_offset, 0);
    let _ = handle_key(&mut ui, &mut t, &[], &mut q, kctx(), key(KeyCode::Left, false, true));
    assert_eq!(ui.selected_tab, 0);
    let moved = handle_key(&mut ui, &mut t, &[], &mut q, kctx(), key(KeyCode::Right, true, false));
    assert_eq!(moved, vec![KeyEffect::TabMoved(0, 1)]);
    assert_eq!(ui.selected_tab, 1);
    assert_eq!(t[1].width, 8);
    let closed = handle_key(&mut ui, &mut t, &[], &mut q, kctx(), key(KeyCode::Char('w'), true, false));
    assert_eq!(closed, vec![KeyEffect::TabClosed(1)]);
    assert_eq!(t.len(), 1);
    assert_eq!(ui.selected_tab, 0);
}

#[test]
fn keys_on_the_host_panel() {
    let mut ui = view();
    let mut t: Vec<TabView> = Vec::new();
    let rows = [true, false, false];
    let mut q = SearchQuery::new();
    let _ = handle_key(&mut ui, &mut t, &rows, &mut q, kctx(), key(KeyCode::End, false, false));
    assert_eq!(ui.selected_host_row, 2);
    let enter = handle_key(&mut ui, &mut t, &rows, &mut q, kctx(), key(KeyCode::Enter, false, false));
    assert_eq!(enter, vec![KeyEffect::ConnectSelectedHost]);
    let _ = handle_key(&mut ui, &mut t, &rows, &mut q, kctx(), key(KeyCode::Home, false, false));
    let enter = handle_key(&mut ui, &mut t, &rows, &mut q, kctx(), key(KeyCode::Enter, false, false));
    assert_eq!(enter, vec![KeyEffect::ToggleFolder(0)]);
    let _ = handle_key(&mut ui, &mut t, &rows, &mut q, kctx(), key(KeyCode::Left, true, false));
    assert_eq!(ui.host_panel_width, 15);
    let _ = handle_key(&mut ui, &mut t, &rows, &mut q, kctx(), key(KeyCode::Char('f'), true, false));
    assert!(ui.search_mode);
    let typed = handle_key(&mut ui, &mut t, &rows, &mut q, kctx(), key(KeyCode::Char('d'), false, false));
    assert_eq!(typed, vec![KeyEffect::RefreshHostFilter]);
    assert_eq!(q.text, "d");
    assert_eq!(q.cursor, 1);
    let _ = handle_key(&mut ui, &mut t, &rows, &mut q, kctx(), key(KeyCode::Backspace, false, false));
    assert_eq!(q.text, "");
    let _ = handle_key(&mut ui, &mut t, &rows, &mut q, kctx(), key(KeyCode::Enter, false, false));
    assert!(!ui.search_mode);
}

#[test]
fn host_search_box_edits_at_the_cursor() {
    let mut ui = view();
    let mut t: Vec<TabView> = Vec::new();
    let mut q = SearchQuery::new();
    let _ = handle_key(&mut ui, &mut t, &[], &mut q, kctx(), key(KeyCode::Char('f'), true, false));
    for c in ['a', 'c'] {
        let _ = handle_key(&mut ui, &mut t, &[], &mut q, kctx(), key(KeyCode::Char(c), false, false));
    }
    assert!(handle_key(&mut ui, &mut t, &[], &mut q, kctx(), key(KeyCode::Left, false, false)).is_empty());
    let _ = handle_key(&mut ui, &mut t, &[], &mut q, kctx(), key(KeyCode::Char('b'), false, false));
    assert_eq!(q.text, "abc");
    assert_eq!(q.cursor, 2);
    let _ = handle_key(&mut ui, &mut t, &[], &mut q, kctx(), key(KeyCode::Char('a'), true, false));
    assert_eq!(q.selection, Some((0, 3)));
    let _ = handle_key(&mut ui, &mut t, &[], &mut q, kctx(), key(KeyCode::Char('z'), false, false));
    assert_eq!(q.text, "z");
    assert!(handle_key(&mut ui, &mut t, &[], &mut q, kctx(), key(KeyCode::Delete, false, false)).is_empty());
    let cleared = handle_key(&mut ui, &mut t, &[], &mut q, kctx(), key(KeyCode::Char('c'), true, false));
    assert_eq!(cleared, vec![KeyEffect::RefreshHostFilter]);
    assert_eq!(q.text, "");
    assert!(!ui.search_mode);
}

#[test]
fn modal_copy_shortcut_is_ctrl_or_alt_c() {
    let ctrl = KeyModifiers::from_flags(false, true, false);
    let alt = KeyModifiers::from_flags(false, false, true);
    assert!(is_modal_copy_shortcut(&KeyInput::new(KeyCode::Char('c'), ctrl)));
    assert!(is_modal_copy_shortcut(&KeyInput::new(KeyCode::Char('C'), alt)));
    assert!(!is_modal_copy_shortcut(&KeyInput::new(KeyCode::Char('c'), KeyModifiers::none())));
    assert!(!is_modal_copy_shortcut(&KeyInput::new(KeyCode::Char('x'), ctrl)));
    assert!(!is_modal_copy_shortcut(&KeyInput::new(KeyCode::Enter, ctrl)));
}

#[test]
fn tabs_open_focus_and_close() {
    let mut ui = view();
    let mut t = tabs();
    push_host_tab(&mut ui, &mut t, TabView { width: 7, scroll_offset: 0, max_scrollback: 0 });
    assert_eq!(t.len(), 3);
    assert_eq!(ui.selected_tab, 2);
    assert!(!ui.focus_on_manager);

    let editor = TabView { width: 10, scroll_offset: 0, max_scrollback: 0 };
    open_or_focus_editor_tab(&mut ui, &mut t, Some(1), editor);
    assert_eq!(t.len(), 3);
    assert_eq!(ui.selected_tab, 1);
    open_or_focus_editor_tab(&mut ui, &mut t, None, editor);
    assert_eq!(t.len(), 4);
    assert_eq!(ui.selected_tab, 3);

    assert!(!close_selected_editor_tab(&mut ui, &mut t, false));
    assert_eq!(t.len(), 4);
    assert!(close_selected_editor_tab(&mut ui, &mut t, true));
    assert_eq!(t, vec![tabs()[0], tabs()[1], TabView { width: 7, scroll_offset: 0, max_scrollback: 0 }]);
    assert_eq!(ui.selected_tab, 2);

    let mut ui = view();
    ui.focus_on_manager = false;
    let mut one = vec![editor];
    assert!(close_selected_editor_tab(&mut ui, &mut one, true));
    assert!(one.is_empty());
    assert!(ui.focus_on_manager);
}

#[test]
fn ctrl_w_from_the_host_panel_closes_like_a_tab_key() {
    let mut ui = view();
    ui.focus_on_manager = false;
    ui.selected_tab = 1;
    ui.dragging_tab = Some(0);
    ui.tab_scroll_offset = 8;
    let mut t = tabs();
    let mut q = SearchQuery::new();
    let closed = handle_manager_key(&mut ui, &mut t, &[false; 3], &mut q, key(KeyCode::Char('w'), true, false));
    assert_eq!(closed, vec![KeyEffect::TabClosed(1)]);
    assert_eq!(t.len(), 1);
    assert_eq!(ui.selected_tab, 0);
    assert_eq!(ui.dragging_tab, None);
    assert_eq!(ui.tab_scroll_offset, 0);
}

#[test]
fn moving_a_tab_keeps_it_selected_and_clears_the_text_selection() {
    let mut ui = view();
    ui.selected_tab = 0;
    ui.selection_start = Some((0, 1));
    ui.selection_end = Some((0, 4));
    let mut t = tabs();
    assert!(move_tab_in_view(&mut ui, &mut t, 0, 1));
    assert_eq!(ui.selected_tab, 1);
    assert_eq!(t[1].width, 8);
    assert_eq!(ui.selection_start, None);
    assert_eq!(ui.selection_end, None);
    let before = ui;
    assert!(!move_tab_in_view(&mut ui, &mut t, 1, 1));
    assert_eq!(ui, before);
}
