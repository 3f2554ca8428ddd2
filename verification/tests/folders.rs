use color_ssh::folder_modals::{
    create_dialog_rows, folder_create_modal_layout, folder_delete_confirm_closes, folder_picker_modal_layout,
    folder_rename_modal_layout, handle_folder_picker_key, handle_folder_picker_mouse, name_cursor_from_column,
    rename_dialog_rows, NameDialogEffect, NameField, PickerEffect,
};
use color_ssh::key_encoding::{KeyCode, KeyInput, KeyModifiers};
use color_ssh::layout::Rect;
use color_ssh::mouse_routing::{MouseButton, MouseEventKind, MouseInput};

fn key(code: KeyCode) -> KeyInput {
    KeyInput::new(code, KeyModifiers::none())
}

fn mouse(kind: MouseEventKind, column: u16, row: u16) -> MouseInput {
    MouseInput { kind, column, row, modifiers: KeyModifiers::none() }
}

fn field(name: &str) -> NameField {
    NameField { name: name.to_string(), cursor: name.chars().count(), selection: None, drag_anchor: None }
}

#[test]
fn folder_modal_layouts() {
    let (area, inner) = folder_picker_modal_layout(100, 40, 10).unwrap();
    assert_eq!(area, Rect::new(4, 13, 92, 14));
    assert_eq!(inner, Rect::new(5, 14, 90, 12));
    let (small, _) = folder_picker_modal_layout(40, 10, 2).unwrap();
    assert_eq!(small, Rect::new(0, 1, 40, 8));
    assert_eq!(folder_picker_modal_layout(0, 10, 2), None);
    assert_eq!(folder_rename_modal_layout(120, 30).unwrap().0, Rect::new(16, 11, 88, 8));
    assert_eq!(folder_create_modal_layout(60, 4).unwrap().0, Rect::new(0, 0, 60, 4));
}

#[test]
fn folder_picker_keys_and_clicks() {
    assert_eq!(handle_folder_picker_key(key(KeyCode::Esc)), PickerEffect::Cancel);
    assert_eq!(handle_folder_picker_key(key(KeyCode::Down)), PickerEffect::SelectNext);
    assert_eq!(handle_folder_picker_key(key(KeyCode::Enter)), PickerEffect::Submit);
    assert_eq!(handle_folder_picker_key(key(KeyCode::Char('x'))), PickerEffect::Nothing);
    let area = Rect::new(4, 13, 92, 14);
    let inner = Rect::new(5, 14, 90, 12);
    let down = MouseEventKind::Down(MouseButton::Left);
    assert_eq!(handle_folder_picker_mouse(area, inner, mouse(down, 0, 0), 0, 20), PickerEffect::Cancel);
    assert_eq!(handle_folder_picker_mouse(area, inner, mouse(down, 6, 25), 0, 20), PickerEffect::Submit);
    assert_eq!(handle_folder_picker_mouse(area, inner, mouse(down, 26, 25), 0, 20), PickerEffect::Cancel);
    assert_eq!(handle_folder_picker_mouse(area, inner, mouse(down, 6, 14), 0, 20), PickerEffect::Nothing);
    assert_eq!(handle_folder_picker_mouse(area, inner, mouse(down, 6, 17), 0, 20), PickerEffect::Select(2));
    assert_eq!(handle_folder_picker_mouse(area, inner, mouse(down, 6, 17), 15, 20), PickerEffect::Select(12));
    assert_eq!(handle_folder_picker_mouse(area, inner, mouse(down, 6, 17), 0, 2), PickerEffect::Nothing);
    assert_eq!(handle_folder_picker_mouse(area, inner, mouse(MouseEventKind::ScrollUp, 6, 17), 0, 2), PickerEffect::SelectPrev);
}

#[test]
fn name_dialog_keys_edit_the_name() {
    let mut f = field("lab");
    assert_eq!(f.handle_key(key(KeyCode::Char('s'))), NameDialogEffect::Edited);
    assert_eq!(f.name, "labs");
    assert_eq!(f.handle_key(key(KeyCode::Home)), NameDialogEffect::Nothing);
    assert_eq!(f.cursor, 0);
    assert_eq!(f.handle_key(key(KeyCode::Delete)), NameDialogEffect::Edited);
    assert_eq!(f.name, "abs");
    assert_eq!(f.handle_key(key(KeyCode::Tab)), NameDialogEffect::PickParent);
    let ctrl_p = KeyInput::new(KeyCode::Char('p'), KeyModifiers::from_flags(false, true, false));
    assert_eq!(f.handle_key(ctrl_p), NameDialogEffect::PickParent);
    assert_eq!(f.handle_key(key(KeyCode::Enter)), NameDialogEffect::Submit);
    assert_eq!(f.handle_key(key(KeyCode::Esc)), NameDialogEffect::Close);
    assert_eq!(f.name, "abs");
}

#[test]
fn name_dialog_mouse_selects_text() {
    let area = Rect::new(10, 5, 40, 6);
    let inner = Rect::new(11, 6, 38, 4);
    let rows = create_dialog_rows(inner);
    assert_eq!(rows.name_row, 7);
    assert_eq!(rows.action_row, 9);
    assert_eq!(rows.parent_row, Some(6));
    assert_eq!(rename_dialog_rows(inner).action_row, 9);
    assert_eq!(name_cursor_from_column(inner, 6, "backup", 19), 2);
    assert_eq!(name_cursor_from_column(inner, 6, "backup", 40), 6);
    let mut f = field("backup");
    assert_eq!(f.handle_mouse(area, inner, rows, mouse(MouseEventKind::Down(MouseButton::Left), 18, 7)), NameDialogEffect::Nothing);
    assert_eq!((f.cursor, f.drag_anchor), (1, Some(1)));
    let _ = f.handle_mouse(area, inner, rows, mouse(MouseEventKind::Drag(MouseButton::Left), 21, 7));
    assert_eq!((f.cursor, f.selection), (4, Some((1, 4))));
    let _ = f.handle_mouse(area, inner, rows, mouse(MouseEventKind::Up(MouseButton::Left), 22, 7));
    assert_eq!((f.cursor, f.selection, f.drag_anchor), (5, Some((1, 5)), None));
    assert_eq!(f.handle_mouse(area, inner, rows, mouse(MouseEventKind::Down(MouseButton::Left), 12, 6)), NameDialogEffect::PickParent);
    assert_eq!(f.handle_mouse(area, inner, rows, mouse(MouseEventKind::Down(MouseButton::Left), 12, 9)), NameDialogEffect::Submit);
    assert_eq!(f.handle_mouse(area, inner, rows, mouse(MouseEventKind::Down(MouseButton::Left), 29, 9)), NameDialogEffect::Close);
    assert_eq!(f.handle_mouse(area, inner, rows, mouse(MouseEventKind::Down(MouseButton::Left), 0, 0)), NameDialogEffect::Close);
    let restored = NameField::restored("abc".to_string(), 9, Some((5, 1)));
    assert_eq!((restored.cursor, restored.selection), (3, Some((1, 3))));
    assert!(folder_delete_confirm_closes(area, mouse(MouseEventKind::Down(MouseButton::Left), 0, 0)));
    assert!(!folder_delete_confirm_closes(area, mouse(MouseEventKind::Down(MouseButton::Left), 12, 6)));
}
