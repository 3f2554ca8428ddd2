use color_ssh::event_policy::{
    combined_render_epoch, has_terminal_focus, resolve_action, resolve_status_context, route_key, route_paste, should_draw,
    should_mark_ui_dirty_for_key, AppAction, KeyRoute, OverlayFlags, PasteRoute, StatusContext, UiFlags,
};
use color_ssh::key_encoding::{KeyCode, KeyInput, KeyModifiers};
use color_ssh::selection::{selection_text, trim_end_text};
use color_ssh::status_line::{
    build_search_mode_status_spans, build_manager_status_spans, spans_display_width, build_terminal_search_status_spans,
    build_terminal_status_spans, StatusSpan, Tone,
};

fn flags() -> UiFlags {
    UiFlags {
        should_exit: false,
        modal_open: false,
        quick_connect_open: false,
        search_mode: false,
        focus_on_manager: false,
        tab_count: 2,
        selected_tab: 1,
        terminal_search_active: false,
    }
}

fn texts(spans: &[StatusSpan]) -> Vec<(String, Tone)> {
    spans.iter().map(|s| (s.text.clone(), s.tone)).collect()
}

#[test]
fn key_presses_go_to_the_handler_in_precedence_order() {
    let f = flags();
    assert!(has_terminal_focus(f));
    assert_eq!(resolve_action(f), AppAction::Tab);
    assert_eq!(resolve_action(UiFlags { should_exit: true, modal_open: true, ..f }), AppAction::Exit);
    assert_eq!(resolve_action(UiFlags { modal_open: true, quick_connect_open: true, ..f }), AppAction::Tab);
    assert_eq!(resolve_action(UiFlags { quick_connect_open: true, search_mode: true, ..f }), AppAction::QuickConnect);
    assert_eq!(resolve_action(UiFlags { search_mode: true, terminal_search_active: true, ..f }), AppAction::Host);
    assert_eq!(resolve_action(UiFlags { terminal_search_active: true, ..f }), AppAction::TerminalSearch);
    assert_eq!(resolve_action(UiFlags { focus_on_manager: true, terminal_search_active: true, ..f }), AppAction::Host);
    assert_eq!(resolve_action(UiFlags { selected_tab: 2, ..f }), AppAction::Host);
    assert_eq!(resolve_action(UiFlags { tab_count: 0, selected_tab: 0, ..f }), AppAction::Host);
}

#[test]
fn typing_into_the_terminal_needs_no_redraw() {
    let f = flags();
    let plain_a = KeyInput::new(KeyCode::Char('a'), KeyModifiers::none());
    let ctrl_a = KeyInput::new(KeyCode::Char('a'), KeyModifiers::from_flags(false, true, false));
    let up = KeyInput::new(KeyCode::Up, KeyModifiers::none());
    assert!(!should_mark_ui_dirty_for_key(f, plain_a));
    assert!(!should_mark_ui_dirty_for_key(f, KeyInput::new(KeyCode::Enter, KeyModifiers::none())));
    assert!(should_mark_ui_dirty_for_key(f, ctrl_a));
    assert!(should_mark_ui_dirty_for_key(f, up));
    assert!(should_mark_ui_dirty_for_key(UiFlags { focus_on_manager: true, ..f }, plain_a));
    assert!(should_mark_ui_dirty_for_key(UiFlags { terminal_search_active: true, ..f }, plain_a));
}

#[test]
fn render_epochs_add_up_and_wrap() {
    assert_eq!(combined_render_epoch(&[]), 0);
    assert_eq!(combined_render_epoch(&[3, 4, 5]), 12);
    assert_eq!(combined_render_epoch(&[u64::MAX, 2]), 1);
}

#[test]
fn frames_are_drawn_on_change_or_heartbeat() {
    assert!(!should_draw(false, 7, 7, 10, 250));
    assert!(should_draw(true, 7, 7, 10, 250));
    assert!(should_draw(false, 8, 7, 10, 250));
    assert!(should_draw(false, 7, 7, 250, 250));
}

#[test]
fn status_context_follows_the_focus() {
    let f = flags();
    assert_eq!(resolve_status_context(f), StatusContext::Terminal);
    assert_eq!(resolve_status_context(UiFlags { terminal_search_active: true, ..f }), StatusContext::TerminalSearch);
    assert_eq!(resolve_status_context(UiFlags { search_mode: true, ..f }), StatusContext::HostSearch);
    assert_eq!(resolve_status_context(UiFlags { focus_on_manager: true, ..f }), StatusContext::Host);
}

#[test]
fn manager_status_line_names_the_selection() {
    let (left, right) = build_manager_status_spans(Some("web-01"), false);
    assert_eq!(
        texts(&left),
        vec![("Host".to_string(), Tone::Title), (" || ".to_string(), Tone::Muted), ("web-01".to_string(), Tone::Value)]
    );
    assert_eq!(right.len(), 14);
    assert_eq!(right[12].text, "Esc");
    let (left, right) = build_manager_status_spans(None, true);
    assert_eq!(left[2].text, "none");
    assert_eq!(right.len(), 16);
    assert_eq!(right[12].text, "S-Tab");
}

#[test]
fn terminal_status_line_shows_state_and_scrollback() {
    let (left, right) = build_terminal_status_spans(Some(("db", true, 12)));
    assert_eq!(
        texts(&left),
        vec![
            ("Terminal".to_string(), Tone::Title),
            (" || ".to_string(), Tone::Muted),
            ("●".to_string(), Tone::Exited),
            (" ".to_string(), Tone::Value),
            ("db".to_string(), Tone::Value),
            (" sb:".to_string(), Tone::Muted),
            (" +12".to_string(), Tone::Counter),
        ]
    );
    assert_eq!(right[0].text, "Enter");
    assert_eq!(right[1].text, ":reconnect | ");
    let (left, right) = build_terminal_status_spans(Some(("db", false, 0)));
    assert_eq!(left.len(), 5);
    assert_eq!(left[2].tone, Tone::Running);
    assert_eq!(right.len(), 14);
    let (left, right) = build_terminal_status_spans(None);
    assert_eq!(left[2].text, "No active terminal");
    assert!(right.is_empty());
}

#[test]
fn search_status_lines_show_query_and_counter() {
    let (left, right) = build_search_mode_status_spans("web");
    assert_eq!(left[2].text, "web");
    assert_eq!(left[3].text, "_");
    assert_eq!(right.len(), 4);
    let (left, _) = build_terminal_search_status_spans("err", 1, 5);
    assert_eq!(left[5].text, "(2/5)");
    assert_eq!(left[5].tone, Tone::Counter);
    let (left, right) = build_terminal_search_status_spans("", 0, 0);
    assert_eq!(left[5].text, "(0/0)");
    assert_eq!(spans_display_width(&right), "Enter | Esc:clear | ↑/↓:next/prev".chars().count());
}

#[test]
fn selection_text_trims_rows_and_joins_lines() {
    let row = |cells: &[&str]| Some(cells.iter().map(|c| c.to_string()).collect::<Vec<String>>());
    let rows = vec![row(&["a", "b", " ", ""]), None, row(&["c", "", "d", "e"])];
    assert_eq!(selection_text(&rows, (0, 1), (2, 2)), "b\n\nc d");
    let single = vec![row(&["x", "y", "z"])];
    assert_eq!(selection_text(&single, (5, 0), (5, 9)), "xyz");
    assert_eq!(trim_end_text(&"ab \t ".to_string()), "ab");
}

fn no_overlay() -> OverlayFlags {
    OverlayFlags {
        context_menu: false,
        host_delete_confirm: false,
        folder_picker: false,
        folder_create: false,
        folder_rename: false,
        folder_delete_confirm: false,
        vault_unlock: false,
        rdp_credentials: false,
        vault_status: false,
        quick_connect: false,
    }
}

#[test]
fn keys_go_to_the_topmost_overlay() {
    let f = flags();
    let ctrl_q = KeyInput::new(KeyCode::Char('q'), KeyModifiers::from_flags(false, true, false));
    let x = KeyInput::new(KeyCode::Char('x'), KeyModifiers::none());
    assert_eq!(route_key(f, no_overlay(), ctrl_q), KeyRoute::Tab);
    assert_eq!(route_key(UiFlags { focus_on_manager: true, ..f }, no_overlay(), ctrl_q), KeyRoute::Exit);
    let both = OverlayFlags { folder_picker: true, quick_connect: true, ..no_overlay() };
    assert_eq!(route_key(f, both, x), KeyRoute::FolderPicker);
    assert_eq!(route_key(f, OverlayFlags { quick_connect: true, ..no_overlay() }, x), KeyRoute::QuickConnect);
    assert_eq!(route_key(UiFlags { search_mode: true, ..f }, no_overlay(), x), KeyRoute::HostSearch);
    assert_eq!(route_key(UiFlags { focus_on_manager: true, ..f }, no_overlay(), x), KeyRoute::Manager);
}

#[test]
fn pasted_text_goes_to_the_focused_box() {
    let f = flags();
    assert_eq!(route_paste(f, no_overlay(), false, ""), PasteRoute::Ignore);
    assert_eq!(route_paste(f, no_overlay(), false, "ls"), PasteRoute::Terminal);
    assert_eq!(route_paste(f, no_overlay(), true, "ls"), PasteRoute::HostEditor);
    assert_eq!(route_paste(UiFlags { terminal_search_active: true, ..f }, no_overlay(), false, "ls"), PasteRoute::TerminalSearch);
    assert_eq!(route_paste(f, OverlayFlags { vault_status: true, ..no_overlay() }, false, "ls"), PasteRoute::Ignore);
    assert_eq!(route_paste(f, OverlayFlags { vault_status: true, vault_unlock: true, ..no_overlay() }, false, "ls"), PasteRoute::VaultUnlock);
    assert_eq!(route_paste(UiFlags { focus_on_manager: true, ..f }, no_overlay(), false, "ls"), PasteRoute::Ignore);
}
