use color_ssh::key_encoding::{KeyCode, KeyInput, KeyModifiers};
use color_ssh::layout::Rect;
use color_ssh::mouse_routing::{MouseButton, MouseEventKind, MouseInput};
use color_ssh::rdp_prompt::{
    handle_rdp_credentials_key, password_spans, rdp_message_line, ValueTone, unselected_field_text, MessageStyle, handle_rdp_credentials_mouse, rdp_auth_resolution, rdp_credentials_modal_layout,
    rdp_credentials_text_offset, rdp_error_field, PassResolution, RdpField, RdpKeyEffect, RdpMouseEffect, RdpValidationError,
};
use color_ssh::text_edit::SearchQuery;
use color_ssh::vault_prompt::{
    apply_vault_status_modal_lock_result, cancel_vault_unlock, handle_vault_status_modal_key, handle_vault_unlock_key,
    submit_vault_unlock, vault_unlock_fallback_notice, LaunchProtocol, LockOutcome, StatusKeyEffect, StatusUpdate,
    UnlockKeyEffect, UnlockOutcome, UnlockPrompt, UnlockStep,
};

fn key(code: KeyCode) -> KeyInput {
    KeyInput::new(code, KeyModifiers::none())
}

fn ctrl(c: char) -> KeyInput {
    KeyInput::new(KeyCode::Char(c), KeyModifiers::from_flags(false, true, false))
}

fn prompt(manual: bool, back: bool, attempts: u32) -> UnlockPrompt {
    UnlockPrompt { manual, return_to_vault_status: back, entry_name: "web".to_string(), attempts, max_attempts: 3 }
}

fn notice(step: &UnlockStep) -> Option<String> {
    match step {
        UnlockStep::Complete { notice, .. } => notice.clone(),
        _ => None,
    }
}

#[test]
fn fallback_notices_name_the_way_forward() {
    assert_eq!(
        vault_unlock_fallback_notice(&Some(LaunchProtocol::Rdp), "Vault closed"),
        "Vault closed; continuing with the FreeRDP password prompt."
    );
    assert_eq!(
        vault_unlock_fallback_notice(&Some(LaunchProtocol::Other("vnc".to_string())), "Vault closed"),
        "Vault closed; protocol 'vnc' is not supported for launch."
    );
    assert_eq!(vault_unlock_fallback_notice(&None, "X"), "X; continuing with the standard SSH password prompt.");
}

#[test]
fn unlock_attempts_lead_to_the_next_step() {
    let mut p = prompt(false, false, 0);
    let step = submit_vault_unlock(&mut p, &Some(LaunchProtocol::Ssh), UnlockOutcome::Unlocked);
    assert!(matches!(step, UnlockStep::Complete { pass_entry: Some(ref e), notice: None } if e == "web"));
    let step = submit_vault_unlock(&mut p, &None, UnlockOutcome::InvalidMasterPassword);
    assert!(matches!(step, UnlockStep::Retry(ref e) if e == "Invalid master password. Try again."));
    assert_eq!(p.attempts, 1);
    let mut last = prompt(false, false, 2);
    let step = submit_vault_unlock(&mut last, &Some(LaunchProtocol::Rdp), UnlockOutcome::InvalidMasterPassword);
    assert_eq!(
        notice(&step),
        Some("Password auto-login is unavailable because vault unlock failed after multiple attempts; continuing with the FreeRDP password prompt.".to_string())
    );
    let mut manual = prompt(true, true, 2);
    let step = submit_vault_unlock(&mut manual, &None, UnlockOutcome::InvalidMasterPassword);
    assert!(matches!(step, UnlockStep::BackToStatus(Some(ref m)) if m == "Vault unlock failed after multiple attempts. Try again."));
    let mut manual_alone = prompt(true, false, 2);
    assert!(matches!(submit_vault_unlock(&mut manual_alone, &None, UnlockOutcome::InvalidMasterPassword), UnlockStep::Close));
    let mut m = prompt(true, false, 0);
    let step = submit_vault_unlock(&mut m, &None, UnlockOutcome::AgentUnavailable("no socket".to_string()));
    assert!(matches!(step, UnlockStep::Retry(ref e) if e == "Password vault agent could not be started (no socket)."));
    let mut l = prompt(false, false, 0);
    let step = submit_vault_unlock(&mut l, &None, UnlockOutcome::Failed("denied".to_string()));
    assert_eq!(
        notice(&step),
        Some("Password auto-login is unavailable because the password vault could not be unlocked (denied); continuing with the standard SSH password prompt.".to_string())
    );
    let step = submit_vault_unlock(&mut m, &None, UnlockOutcome::NotInitialized);
    assert!(matches!(step, UnlockStep::Retry(ref e) if e.starts_with("Password vault is not initialized.")));
    let mut back = prompt(true, true, 0);
    assert!(matches!(submit_vault_unlock(&mut back, &None, UnlockOutcome::Unlocked), UnlockStep::BackToStatus(None)));
}

#[test]
fn cancelling_the_unlock_prompt() {
    assert!(matches!(cancel_vault_unlock(&prompt(true, true, 0), &None), UnlockStep::BackToStatus(None)));
    assert!(matches!(cancel_vault_unlock(&prompt(true, false, 0), &None), UnlockStep::Complete { pass_entry: None, notice: None }));
    assert_eq!(
        notice(&cancel_vault_unlock(&prompt(false, false, 0), &None)),
        Some("Password vault unlock canceled; continuing with the standard SSH password prompt.".to_string())
    );
}

#[test]
fn vault_prompt_keys() {
    assert_eq!(handle_vault_unlock_key(key(KeyCode::Esc)), UnlockKeyEffect::Cancel);
    assert_eq!(handle_vault_unlock_key(ctrl('a')), UnlockKeyEffect::CursorHome);
    assert_eq!(handle_vault_unlock_key(key(KeyCode::Char('s'))), UnlockKeyEffect::Insert('s'));
    assert_eq!(handle_vault_unlock_key(ctrl('s')), UnlockKeyEffect::Nothing);
    assert_eq!(handle_vault_status_modal_key(false, key(KeyCode::Char('v'))), StatusKeyEffect::OpenUnlock);
    assert_eq!(handle_vault_status_modal_key(true, key(KeyCode::Char('v'))), StatusKeyEffect::Close);
    assert_eq!(handle_vault_status_modal_key(false, key(KeyCode::Char('l'))), StatusKeyEffect::AlreadyLocked);
    assert_eq!(handle_vault_status_modal_key(true, key(KeyCode::Char('l'))), StatusKeyEffect::Lock);
    assert_eq!(handle_vault_status_modal_key(true, key(KeyCode::Enter)), StatusKeyEffect::Close);
    let (update, message, error) = apply_vault_status_modal_lock_result(LockOutcome::Failed("timeout".to_string()));
    assert_eq!((update, message.as_str(), error), (StatusUpdate::Unchanged, "Failed to lock vault: timeout", true));
    let (update, message, error) = apply_vault_status_modal_lock_result(LockOutcome::AgentUnreachable);
    assert_eq!((update, message.as_str(), error), (StatusUpdate::Locked, "Vault already locked.", false));
}

#[test]
fn rdp_prompt_keys_and_clicks() {
    let mut user = SearchQuery::new();
    assert_eq!(handle_rdp_credentials_key(RdpField::User, &mut user, key(KeyCode::Char('b'))), RdpKeyEffect::Edited);
    assert_eq!(user.text, "b");
    assert_eq!(handle_rdp_credentials_key(RdpField::User, &mut user, key(KeyCode::Tab)), RdpKeyEffect::Select(RdpField::Domain));
    assert_eq!(handle_rdp_credentials_key(RdpField::User, &mut user, key(KeyCode::Up)), RdpKeyEffect::Select(RdpField::Password));
    assert_eq!(handle_rdp_credentials_key(RdpField::Port, &mut user, key(KeyCode::Enter)), RdpKeyEffect::Submit);
    assert_eq!(handle_rdp_credentials_key(RdpField::Port, &mut user, key(KeyCode::Left)), RdpKeyEffect::Nothing);
    assert_eq!(user.cursor, 0);
    let (area, inner) = rdp_credentials_modal_layout(100, 30);
    assert_eq!(area, Rect::new(5, 10, 90, 9));
    assert_eq!(inner, Rect::new(6, 11, 88, 7));
    let click = |col: u16, row: u16| MouseInput { kind: MouseEventKind::Down(MouseButton::Left), column: col, row, modifiers: KeyModifiers::none() };
    assert_eq!(handle_rdp_credentials_mouse(inner, click(16, 13)), RdpMouseEffect::BeginSelection(RdpField::Domain, 2));
    assert_eq!(handle_rdp_credentials_mouse(inner, click(16, 15)), RdpMouseEffect::SelectPassword);
    assert_eq!(handle_rdp_credentials_mouse(inner, click(7, 17)), RdpMouseEffect::Submit);
    assert_eq!(handle_rdp_credentials_mouse(inner, click(26, 17)), RdpMouseEffect::Close);
    assert_eq!(handle_rdp_credentials_mouse(inner, click(22, 17)), RdpMouseEffect::EndSelection);
    assert_eq!(handle_rdp_credentials_mouse(inner, click(0, 0)), RdpMouseEffect::EndSelection);
    assert_eq!(rdp_credentials_text_offset(6, RdpField::User, 15), Some(3));
    assert_eq!(rdp_credentials_text_offset(6, RdpField::Password, 15), None);
    assert_eq!(rdp_error_field(RdpValidationError::InvalidPort), RdpField::Port);
    let launch = PassResolution {
        pass_entry_override: Some("shared".to_string()),
        pass_fallback_notice: None,
        disable_vault_autologin: false,
        manual_rdp_password: None,
    };
    let typed = rdp_auth_resolution(Some("pw".to_string()), launch);
    assert!(typed.disable_vault_autologin && typed.pass_entry_override.is_none());
    assert_eq!(typed.manual_rdp_password.as_deref(), Some("pw"));
}

#[test]
fn rdp_prompt_message_and_placeholders() {
    assert_eq!(rdp_message_line(Some("bad port"), Some("n"), true), (MessageStyle::Error, "bad port".to_string()));
    assert_eq!(rdp_message_line(None, Some("vault locked"), true), (MessageStyle::Notice, "vault locked".to_string()));
    assert_eq!(
        rdp_message_line(None, None, true),
        (MessageStyle::Hint, "Leave password blank to use the unlocked vault entry.".to_string())
    );
    assert_eq!(
        rdp_message_line(None, None, false),
        (MessageStyle::Hint, "Leave password blank to continue with the FreeRDP password prompt.".to_string())
    );
    assert_eq!(unselected_field_text(RdpField::User, "  "), "(required)");
    assert_eq!(unselected_field_text(RdpField::Domain, ""), "(optional)");
    assert_eq!(unselected_field_text(RdpField::Port, "3390"), "3390");
    assert_eq!(unselected_field_text(RdpField::User, " admin"), " admin");
}

#[test]
fn rdp_password_spans_mark_the_cursor() {
    let sp = |v: Vec<(String, ValueTone)>| v;
    assert_eq!(password_spans("", 0, true), sp(vec![(" ".to_string(), ValueTone::Cursor)]));
    assert_eq!(
        password_spans("****", 1, true),
        vec![("*".to_string(), ValueTone::Selected), ("*".to_string(), ValueTone::Cursor), ("**".to_string(), ValueTone::Selected)]
    );
    assert_eq!(password_spans("**", 9, true), vec![("**".to_string(), ValueTone::Selected), (" ".to_string(), ValueTone::Cursor)]);
    assert_eq!(password_spans("", 0, false), vec![("(optional)".to_string(), ValueTone::Normal)]);
    assert_eq!(password_spans("***", 0, false), vec![("***".to_string(), ValueTone::Normal)]);
}
