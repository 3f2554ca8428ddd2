use color_ssh::host_editor::{
    editor_message_line, unselected_value, value_column_width, value_window,
    body_items, delete_confirm_key, delete_confirm_target, editor_delete_name, execute_host_context_menu_action,
    handle_host_context_menu_key, handle_host_context_menu_mouse, handle_host_editor_key, handle_host_editor_mouse,
    host_context_menu_layout, host_editor_tab_layout, host_editor_action_hit, host_editor_click_effect, host_editor_item_at_point,
    host_editor_text_offset, host_name_exists, selected_body_row, ContextMenuTarget, EditorEffect, EditorItem,
    EditorKeyContext, EditorMouseAction, HostContextMenuAction, HostEditorField, MenuEffect, MenuOperation,
};
use color_ssh::key_encoding::{KeyCode, KeyInput, KeyModifiers};
use color_ssh::layout::Rect;
use color_ssh::rdp_prompt::ValueTone;
use color_ssh::mouse_routing::{MouseButton, MouseEventKind, MouseInput};
use color_ssh::paste::{filter_pasted, is_control, paste_into};
use color_ssh::terminal_search::{build_search_row_ranges_from_matches, SearchKeyOutcome, TerminalSearchState};

fn key(code: KeyCode) -> KeyInput {
    KeyInput::new(code, KeyModifiers::none())
}

fn ctrl(c: char) -> KeyInput {
    KeyInput::new(KeyCode::Char(c), KeyModifiers::from_flags(false, true, false))
}

fn ctx(selected: EditorItem) -> EditorKeyContext {
    EditorKeyContext { delete_confirm_open: false, selected: Some(selected), edit_mode: true, selected_has_text: true }
}

fn mouse(kind: MouseEventKind, column: u16, row: u16) -> MouseInput {
    MouseInput { kind, column, row, modifiers: KeyModifiers::none() }
}

#[test]
fn editor_keys_act_on_the_selected_row() {
    let name = EditorItem::Field(HostEditorField::Name);
    let protocol = EditorItem::Field(HostEditorField::Protocol);
    assert_eq!(handle_host_editor_key(ctx(name), key(KeyCode::Esc)), EditorEffect::Close);
    assert_eq!(handle_host_editor_key(ctx(name), key(KeyCode::Tab)), EditorEffect::SelectNextField);
    assert_eq!(handle_host_editor_key(ctx(name), key(KeyCode::Enter)), EditorEffect::SelectNextField);
    assert_eq!(handle_host_editor_key(ctx(EditorItem::SectionHeader(2)), key(KeyCode::Enter)), EditorEffect::ToggleSection(2));
    assert_eq!(handle_host_editor_key(ctx(EditorItem::Field(HostEditorField::Save)), key(KeyCode::Enter)), EditorEffect::Submit);
    assert_eq!(handle_host_editor_key(ctx(protocol), key(KeyCode::Left)), EditorEffect::ProtocolBackward);
    assert_eq!(handle_host_editor_key(ctx(name), key(KeyCode::Left)), EditorEffect::CursorLeft(HostEditorField::Name));
    assert_eq!(handle_host_editor_key(ctx(protocol), key(KeyCode::Home)), EditorEffect::Nothing);
    assert_eq!(handle_host_editor_key(ctx(name), key(KeyCode::Char('x'))), EditorEffect::Insert(HostEditorField::Name, 'x'));
    assert_eq!(handle_host_editor_key(ctx(name), key(KeyCode::Char(' '))), EditorEffect::Nothing);
    assert_eq!(
        handle_host_editor_key(ctx(EditorItem::Field(HostEditorField::Description)), key(KeyCode::Char(' '))),
        EditorEffect::Insert(HostEditorField::Description, ' ')
    );
    assert_eq!(handle_host_editor_key(ctx(name), ctrl('d')), EditorEffect::OpenDeleteConfirm);
    let creating = EditorKeyContext { edit_mode: false, ..ctx(name) };
    assert_eq!(handle_host_editor_key(creating, ctrl('d')), EditorEffect::Nothing);
    assert_eq!(handle_host_editor_key(ctx(name), ctrl('a')), EditorEffect::CursorHome(HostEditorField::Name));
    let no_text = EditorKeyContext { selected_has_text: false, ..ctx(EditorItem::Field(HostEditorField::Hidden)) };
    assert_eq!(handle_host_editor_key(no_text, key(KeyCode::Char('y'))), EditorEffect::Nothing);
    let none = EditorKeyContext { selected: None, ..ctx(name) };
    assert_eq!(handle_host_editor_key(none, key(KeyCode::Esc)), EditorEffect::Nothing);
}

#[test]
fn delete_confirmation_takes_the_keys() {
    let open = EditorKeyContext { delete_confirm_open: true, ..ctx(EditorItem::Field(HostEditorField::Name)) };
    assert_eq!(handle_host_editor_key(open, key(KeyCode::Char('y'))), EditorEffect::ConfirmDelete);
    assert_eq!(handle_host_editor_key(open, key(KeyCode::Esc)), EditorEffect::CancelDelete);
    assert_eq!(delete_confirm_key(key(KeyCode::Char('n'))), EditorEffect::CancelDelete);
    assert_eq!(delete_confirm_key(ctrl('y')), EditorEffect::Nothing);
    assert_eq!(delete_confirm_target("  web  "), Some("web".to_string()));
    assert_eq!(delete_confirm_target("   "), None);
    assert_eq!(editor_delete_name(Some("old"), "new"), "old");
    assert_eq!(editor_delete_name(None, " new "), "new");
    assert_eq!(editor_delete_name(None, " "), "entry");
}

#[test]
fn editor_rows_and_action_buttons() {
    let items = vec![
        EditorItem::Field(HostEditorField::Name),
        EditorItem::SectionHeader(0),
        EditorItem::Field(HostEditorField::Host),
        EditorItem::Field(HostEditorField::Save),
        EditorItem::Field(HostEditorField::Cancel),
    ];
    assert_eq!(body_items(&items).len(), 3);
    assert_eq!(selected_body_row(&items, EditorItem::Field(HostEditorField::Host)), Some(4));
    assert_eq!(selected_body_row(&items, EditorItem::Field(HostEditorField::Save)), None);
    assert_eq!(host_editor_item_at_point(3, 10, 0, &items, false), Some(EditorItem::SectionHeader(0)));
    assert_eq!(host_editor_item_at_point(1, 10, 0, &items, false), None);
    assert_eq!(host_editor_item_at_point(8, 5, 0, &items, false), Some(EditorItem::Field(HostEditorField::Save)));
    assert_eq!(host_editor_action_hit(0, 19, true), Some(HostEditorField::Save));
    assert_eq!(host_editor_action_hit(0, 21, true), None);
    assert_eq!(host_editor_action_hit(0, 23, true), Some(HostEditorField::Delete));
    assert_eq!(host_editor_action_hit(0, 23, false), Some(HostEditorField::Cancel));
    assert_eq!(host_editor_action_hit(0, 44, true), Some(HostEditorField::Cancel));
    assert_eq!(host_editor_action_hit(0, 58, true), None);
    assert_eq!(host_editor_text_offset(HostEditorField::Host, 1, 4, 3, 10), Some(6));
    assert_eq!(host_editor_text_offset(HostEditorField::Protocol, 1, 4, 3, 10), None);
    assert_eq!(host_editor_click_effect(EditorItem::Field(HostEditorField::Host), Some(6)), EditorEffect::BeginSelection(HostEditorField::Host, 6));
    assert_eq!(host_editor_click_effect(EditorItem::Field(HostEditorField::Cancel), None), EditorEffect::Close);
    let area = Rect::new(0, 1, 40, 20);
    let inner = Rect::new(1, 2, 38, 18);
    assert_eq!(handle_host_editor_mouse(area, inner, mouse(MouseEventKind::Down(MouseButton::Left), 5, 7)), EditorMouseAction::Click(5, 5));
    assert_eq!(handle_host_editor_mouse(area, inner, mouse(MouseEventKind::Down(MouseButton::Left), 0, 7)), EditorMouseAction::EndSelection);
    assert_eq!(handle_host_editor_mouse(area, inner, mouse(MouseEventKind::Up(MouseButton::Left), 9, 7)), EditorMouseAction::Release(9));
}

#[test]
fn context_menu_keys_clicks_and_operations() {
    let actions = vec![HostContextMenuAction::Connect, HostContextMenuAction::EditEntry, HostContextMenuAction::DeleteEntry];
    assert_eq!(handle_host_context_menu_key(&actions, 1, key(KeyCode::Enter)), MenuEffect::Run(HostContextMenuAction::EditEntry));
    assert_eq!(handle_host_context_menu_key(&actions, 7, key(KeyCode::Enter)), MenuEffect::Nothing);
    assert_eq!(handle_host_context_menu_key(&actions, 0, key(KeyCode::Char('c'))), MenuEffect::Run(HostContextMenuAction::Connect));
    assert_eq!(handle_host_context_menu_key(&actions, 0, ctrl('d')), MenuEffect::Run(HostContextMenuAction::DeleteEntry));
    assert_eq!(handle_host_context_menu_key(&actions, 0, key(KeyCode::Char('m'))), MenuEffect::Nothing);
    assert_eq!(handle_host_context_menu_key(&actions, 0, key(KeyCode::Down)), MenuEffect::SelectNext);
    let (area, inner) = host_context_menu_layout(80, 24, 12, 3, 75, 22).unwrap();
    assert_eq!(area, Rect::new(64, 19, 16, 5));
    assert_eq!(inner, Rect::new(65, 20, 14, 3));
    assert_eq!(host_context_menu_layout(0, 24, 12, 3, 0, 0), None);
    let small = host_context_menu_layout(80, 24, 3, 1, 2, 2).unwrap().0;
    assert_eq!(small, Rect::new(2, 2, 12, 3));
    assert_eq!(
        handle_host_context_menu_mouse(area, inner, &actions, mouse(MouseEventKind::Down(MouseButton::Left), 70, 21)),
        MenuEffect::SelectAndRun(1, HostContextMenuAction::EditEntry)
    );
    assert_eq!(handle_host_context_menu_mouse(area, inner, &actions, mouse(MouseEventKind::Down(MouseButton::Left), 1, 1)), MenuEffect::Close);
    assert_eq!(handle_host_context_menu_mouse(area, inner, &actions, mouse(MouseEventKind::Down(MouseButton::Left), 64, 19)), MenuEffect::Nothing);
    assert_eq!(execute_host_context_menu_action(HostContextMenuAction::EditEntry, ContextMenuTarget::Host(4)), Some(MenuOperation::EditHost(4)));
    assert_eq!(execute_host_context_menu_action(HostContextMenuAction::EditEntry, ContextMenuTarget::Folder(4)), None);
    assert_eq!(execute_host_context_menu_action(HostContextMenuAction::NewFolder, ContextMenuTarget::Background), Some(MenuOperation::NewFolderAtRoot));
    assert_eq!(execute_host_context_menu_action(HostContextMenuAction::NewEntryInFolder, ContextMenuTarget::Host(2)), Some(MenuOperation::NewEntryBesideHost(2)));
}

#[test]
fn entry_names_must_be_unique() {
    let names = vec!["web".to_string(), "db".to_string()];
    assert!(host_name_exists(&names, "db", None));
    assert!(!host_name_exists(&names, "db", Some("db")));
    assert!(host_name_exists(&names, "db", Some("web")));
    assert!(!host_name_exists(&names, "cache", None));
}

#[test]
fn pasting_drops_control_characters() {
    assert!(is_control('\n'));
    assert!(is_control('\u{7f}'));
    assert!(is_control('\u{9f}'));
    assert!(!is_control(' '));
    assert!(!is_control('é'));
    assert_eq!(filter_pasted("a\tb\r\nc d", false), "abc d");
    assert_eq!(filter_pasted("a\tb\r\nc d", true), "abcd");
    let mut text = "hello".to_string();
    let mut cursor = 5;
    let mut selection = Some((1, 4));
    assert!(paste_into(&mut text, &mut cursor, &mut selection, "EY\n", false));
    assert_eq!(text, "hEYo");
    assert_eq!(cursor, 3);
    assert_eq!(selection, None);
    assert!(!paste_into(&mut text, &mut cursor, &mut selection, "\r\n", false));
    assert_eq!(text, "hEYo");
}

#[test]
fn terminal_search_query_edits_at_the_cursor() {
    let mut search = TerminalSearchState::new();
    let mut cursor = 0;
    let mut selection = None;
    for c in ['e', 'r'] {
        assert_eq!(search.handle_query_key(&mut cursor, &mut selection, key(KeyCode::Char(c))), SearchKeyOutcome::Rescan);
    }
    assert_eq!(search.handle_query_key(&mut cursor, &mut selection, key(KeyCode::Home)), SearchKeyOutcome::Done);
    assert_eq!(search.handle_query_key(&mut cursor, &mut selection, key(KeyCode::Delete)), SearchKeyOutcome::Rescan);
    assert_eq!(search.query, "r");
    assert_eq!(search.handle_query_key(&mut cursor, &mut selection, key(KeyCode::Backspace)), SearchKeyOutcome::Done);
    assert!(search.paste_query(&mut cursor, &mut selection, "o\tr"));
    assert_eq!(search.query, "orr");
    assert_eq!(cursor, 2);
    assert_eq!(search.handle_query_key(&mut cursor, &mut selection, key(KeyCode::Down)), SearchKeyOutcome::Done);
    assert_eq!(search.handle_query_key(&mut cursor, &mut selection, key(KeyCode::Esc)), SearchKeyOutcome::Done);
    assert_eq!(search.query, "");
    assert_eq!(cursor, 0);
}

#[test]
fn search_highlights_are_grouped_by_row() {
    let matches = [(3, 10, 12), (-2, 4, 6), (3, 1, 2), (3, 5, 9)];
    let (rows, current) = build_search_row_ranges_from_matches(&matches, 2);
    assert_eq!(rows.len(), 2);
    assert_eq!(rows[&3], vec![(1, 2), (5, 9), (10, 12)]);
    assert_eq!(rows[&-2], vec![(4, 6)]);
    assert_eq!(current, Some((3, 1, 2)));
    let (rows, current) = build_search_row_ranges_from_matches(&[], 0);
    assert!(rows.is_empty());
    assert_eq!(current, None);
    assert_eq!(build_search_row_ranges_from_matches(&matches, 9).1, None);
}

#[test]
fn host_editor_tab_layout_borders_the_content_area() {
    assert_eq!(host_editor_tab_layout(Rect::new(20, 1, 60, 29)), Some((Rect::new(20, 1, 60, 29), Rect::new(21, 2, 58, 27))));
    assert_eq!(host_editor_tab_layout(Rect::new(20, 1, 0, 29)), None);
    assert_eq!(host_editor_tab_layout(Rect::new(0, 0, 1, 1)), Some((Rect::new(0, 0, 1, 1), Rect::new(1, 1, 0, 0))));
}

#[test]
fn editor_value_window_and_messages() {
    assert_eq!(value_column_width(40, 8), 30);
    assert_eq!(value_column_width(5, 8), 0);
    assert_eq!(value_window("abcdefghij", 3, 4, 5, Some((1, 9))), ("defg".to_string(), 2, Some((0, 4))));
    assert_eq!(value_window("abc", 5, 4, 1, None), (String::new(), 0, None));
    assert_eq!(value_window("abc", 0, 10, 3, None), ("abc".to_string(), 3, None));
    assert_eq!(unselected_value("", Some("22")), ("22".to_string(), ValueTone::Placeholder));
    assert_eq!(unselected_value("", None), (String::new(), ValueTone::Normal));
    assert_eq!(unselected_value("web", Some("x")), ("web".to_string(), ValueTone::Normal));
    assert_eq!(editor_message_line(Some("bad port"), true), (true, "bad port".to_string()));
    assert_eq!(
        editor_message_line(None, false),
        (false, "List/map fields accept YAML-compatible input; unknown custom keys are preserved on save.".to_string())
    );
    assert_eq!(
        editor_message_line(None, true),
        (false, "List/map fields accept YAML-compatible input (for example [\"a\", \"b\"] or {Opt: [\"v\"]}).".to_string())
    );
}
