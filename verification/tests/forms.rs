use color_ssh::key_encoding::{KeyCode, KeyInput, KeyModifiers};
use color_ssh::layout::Rect;
use color_ssh::mouse_routing::{MouseButton, MouseEventKind, MouseInput};
use color_ssh::profiles::{discover_quick_connect_profiles, profile_of_file};
use color_ssh::quick_connect_form::{
    handle_quick_connect_click, handle_quick_connect_key, handle_quick_connect_mouse, quick_connect_modal_layout,
    quick_connect_text_offset, validation_focus, FormEffect, FormField, FormMouseAction, FormRow, QuickConnectError,
};

fn key(code: KeyCode) -> KeyInput {
    KeyInput::new(code, KeyModifiers::none())
}

#[test]
fn quick_connect_form_with_protocols_keys() {
    assert_eq!(handle_quick_connect_key(FormField::Host, key(KeyCode::Esc)), FormEffect::Close);
    assert_eq!(handle_quick_connect_key(FormField::Host, key(KeyCode::Enter)), FormEffect::NextField);
    assert_eq!(handle_quick_connect_key(FormField::Connect, key(KeyCode::Enter)), FormEffect::Submit);
    assert_eq!(handle_quick_connect_key(FormField::Logging, key(KeyCode::Char(' '))), FormEffect::ToggleLogging);
    assert_eq!(handle_quick_connect_key(FormField::Host, key(KeyCode::Char(' '))), FormEffect::Nothing);
    assert_eq!(handle_quick_connect_key(FormField::Protocol, key(KeyCode::Left)), FormEffect::ProtocolBackward);
    assert_eq!(handle_quick_connect_key(FormField::Port, key(KeyCode::Left)), FormEffect::CursorLeft(FormField::Port));
    assert_eq!(handle_quick_connect_key(FormField::Logging, key(KeyCode::Right)), FormEffect::Nothing);
    assert_eq!(handle_quick_connect_key(FormField::User, key(KeyCode::Char('r'))), FormEffect::Insert(FormField::User, 'r'));
    let ctrl_a = KeyInput::new(KeyCode::Char('a'), KeyModifiers::from_flags(false, true, false));
    assert_eq!(handle_quick_connect_key(FormField::User, ctrl_a), FormEffect::SelectAll(FormField::User));
    assert_eq!(handle_quick_connect_key(FormField::User, key(KeyCode::Backspace)), FormEffect::Backspace(FormField::User));
}

#[test]
fn quick_connect_form_clicks() {
    let profiles = vec!["default".to_string(), "prod".to_string()];
    assert_eq!(
        handle_quick_connect_click(FormRow::Field(FormField::Host), 10, 20, &profiles),
        (Some(FormField::Host), FormEffect::BeginSelection(FormField::Host, 4))
    );
    assert_eq!(
        handle_quick_connect_click(FormRow::ProfileOptions, 10, 31, &profiles),
        (Some(FormField::Profile), FormEffect::ChooseProfile(1))
    );
    assert_eq!(handle_quick_connect_click(FormRow::ProfileOptions, 10, 28, &profiles), (Some(FormField::Profile), FormEffect::Nothing));
    assert_eq!(handle_quick_connect_click(FormRow::Actions, 10, 12, &profiles), (Some(FormField::Connect), FormEffect::Submit));
    assert_eq!(handle_quick_connect_click(FormRow::Actions, 10, 31, &profiles), (Some(FormField::Cancel), FormEffect::Close));
    assert_eq!(handle_quick_connect_click(FormRow::Message, 10, 31, &profiles), (None, FormEffect::Nothing));
    assert_eq!(quick_connect_text_offset(10, FormField::Domain, 25), Some(7));
    assert_eq!(quick_connect_text_offset(10, FormField::Password, 25), None);
    assert_eq!(validation_focus(QuickConnectError::HostRequired), (FormField::Host, true));
    assert_eq!(validation_focus(QuickConnectError::InvalidPort), (FormField::Port, false));
}

#[test]
fn quick_connect_form_mouse_and_layout() {
    let (area, inner) = quick_connect_modal_layout(100, 30, 12);
    assert_eq!(area, Rect::new(7, 9, 86, 12));
    assert_eq!(inner, Rect::new(8, 10, 84, 10));
    let ev = |kind: MouseEventKind, column: u16, row: u16| MouseInput { kind, column, row, modifiers: KeyModifiers::none() };
    assert_eq!(handle_quick_connect_mouse(area, inner, FormRow::Other, ev(MouseEventKind::Down(MouseButton::Left), 9, 11)), FormMouseAction::Click);
    assert_eq!(handle_quick_connect_mouse(area, inner, FormRow::Other, ev(MouseEventKind::Down(MouseButton::Left), 7, 9)), FormMouseAction::EndSelection);
    assert_eq!(handle_quick_connect_mouse(area, inner, FormRow::ProfileOptions, ev(MouseEventKind::ScrollUp, 9, 11)), FormMouseAction::Profile(false));
    assert_eq!(handle_quick_connect_mouse(area, inner, FormRow::Other, ev(MouseEventKind::ScrollUp, 9, 11)), FormMouseAction::Nothing);
}

#[test]
fn profiles_come_from_config_file_names() {
    assert_eq!(profile_of_file(".cossh-config.yaml"), Some("default".to_string()));
    assert_eq!(profile_of_file("work.cossh-config.yaml"), Some("work".to_string()));
    assert_eq!(profile_of_file(".hidden.cossh-config.yaml"), None);
    assert_eq!(profile_of_file("notes.txt"), None);
    assert_eq!(profile_of_file("cossh-config.yaml"), None);
    let files: Vec<String> = ["zeta.cossh-config.yaml", "Alpha.cossh-config.yaml", "readme.md", ".cossh-config.yaml", "beta.cossh-config.yaml", "zeta.cossh-config.yaml"]
        .iter()
        .map(|s| s.to_string())
        .collect();
    assert_eq!(discover_quick_connect_profiles(&files), vec!["default", "Alpha", "beta", "zeta"]);
    assert_eq!(discover_quick_connect_profiles(&Vec::new()), vec!["default"]);
}
