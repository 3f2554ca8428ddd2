//! The quick-connect form with protocol, port, domain and password fields:
//! what its keys and clicks ask of the form, and where its rows are.
use vstd::prelude::*;
use crate::key_encoding::{KeyCode, KeyInput};
use crate::layout::{Rect, sat_sub, sat_add_u16, spec_point_in_rect, point_in_rect, modal_inner_rect};
use crate::mouse_routing::{MouseButton, MouseEventKind, MouseInput};
use crate::quick_connect::{QuickConnectAction, quick_connect_action_hit, quick_connect_profile_index_at_column, profile_at_column, profile_widths};
use crate::vault_modal::{clamp_u16, spec_centered_rect, centered_rect, inner_of};

verus! {

/// A field of the form.
#[derive(Clone, Copy, Debug, PartialEq, Eq, Structural)]
pub enum FormField {
    Protocol,
    User,
    Host,
    Port,
    Domain,
    Password,
    Profile,
    Logging,
    Connect,
    Cancel,
}

/// A field holding text.
pub open spec fn is_text_field(f: FormField) -> bool {
    f == FormField::User || f == FormField::Host || f == FormField::Port || f == FormField::Domain || f == FormField::Password
}

/// What a key or click asks of the form.
#[derive(Clone, Copy, Debug, PartialEq, Eq)]
pub enum FormEffect {
    Nothing,
    Close,
    Submit,
    NextField,
    PrevField,
    ProtocolForward,
    ProtocolBackward,
    NextProfile,
    PrevProfile,
    ToggleLogging,
    CursorLeft(FormField),
    CursorRight(FormField),
    CursorHome(FormField),
    CursorEnd(FormField),
    SelectAll(FormField),
    /// Delete before the cursor; clears the error (and, on the host field,
    /// the host-required mark).
    Backspace(FormField),
    /// Delete at the cursor; clears the error (and the host-required mark).
    DeleteForward(FormField),
    /// Type a character; clears the error (and the host-required mark).
    Insert(FormField, char),
    /// Start a mouse selection at this character of the field's text.
    BeginSelection(FormField, usize),
    /// Put the password field's cursor at its end.
    PasswordCursorEnd,
    /// Choose the profile with this index.
    ChooseProfile(usize),
}

/// A key on the form whose selected field is `selected`.
pub open spec fn spec_form_key(selected: FormField, key: KeyInput) -> FormEffect {
    let ctrl = key.modifiers.control;
    let alt = key.modifiers.alt;
    match key.code {
        KeyCode::Esc => FormEffect::Close,
        KeyCode::Tab | KeyCode::Down => FormEffect::NextField,
        KeyCode::BackTab | KeyCode::Up => FormEffect::PrevField,
        KeyCode::Enter => match selected {
            FormField::Protocol => FormEffect::ProtocolForward,
            FormField::Profile => FormEffect::NextProfile,
            FormField::Logging => FormEffect::ToggleLogging,
            FormField::Connect => FormEffect::Submit,
            FormField::Cancel => FormEffect::Close,
            _ => FormEffect::NextField,
        },
        KeyCode::Char(' ') => match selected {
            FormField::Protocol => FormEffect::ProtocolForward,
            FormField::Logging => FormEffect::ToggleLogging,
            _ => FormEffect::Nothing,
        },
        KeyCode::Left => match selected {
            FormField::Protocol => FormEffect::ProtocolBackward,
            FormField::Profile => FormEffect::PrevProfile,
            _ => if is_text_field(selected) { FormEffect::CursorLeft(selected) } else { FormEffect::Nothing },
        },
        KeyCode::Right => match selected {
            FormField::Protocol => FormEffect::ProtocolForward,
            FormField::Profile => FormEffect::NextProfile,
            _ => if is_text_field(selected) { FormEffect::CursorRight(selected) } else { FormEffect::Nothing },
        },
        KeyCode::Home => FormEffect::CursorHome(selected),
        KeyCode::End => FormEffect::CursorEnd(selected),
        KeyCode::Backspace => FormEffect::Backspace(selected),
        KeyCode::Delete => FormEffect::DeleteForward(selected),
        KeyCode::Char(ch) if !ctrl && !alt => FormEffect::Insert(selected, ch),
        KeyCode::Char('a') if ctrl => FormEffect::SelectAll(selected),
        KeyCode::Char('e') if ctrl => FormEffect::CursorEnd(selected),
        _ => FormEffect::Nothing,
    }
}

/// A key on the quick-connect form.
pub fn handle_quick_connect_key(selected: FormField, key: KeyInput) -> (e: FormEffect)
    ensures
        e == spec_form_key(selected, key),
{
    let ctrl = key.modifiers.control;
    let alt = key.modifiers.alt;
    let text = match selected {
        FormField::User | FormField::Host | FormField::Port | FormField::Domain | FormField::Password => true,
        _ => false,
    };
    match key.code {
        KeyCode::Esc => FormEffect::Close,
        KeyCode::Tab | KeyCode::Down => FormEffect::NextField,
        KeyCode::BackTab | KeyCode::Up => FormEffect::PrevField,
        KeyCode::Enter => match selected {
            FormField::Protocol => FormEffect::ProtocolForward,
            FormField::Profile => FormEffect::NextProfile,
            FormField::Logging => FormEffect::ToggleLogging,
            FormField::Connect => FormEffect::Submit,
            FormField::Cancel => FormEffect::Close,
            _ => FormEffect::NextField,
        },
        KeyCode::Char(' ') => match selected {
            FormField::Protocol => FormEffect::ProtocolForward,
            FormField::Logging => FormEffect::ToggleLogging,
            _ => FormEffect::Nothing,
        },
        KeyCode::Left => match selected {
            FormField::Protocol => FormEffect::ProtocolBackward,
            FormField::Profile => FormEffect::PrevProfile,
            _ => if text { FormEffect::CursorLeft(selected) } else { FormEffect::Nothing },
        },
        KeyCode::Right => match selected {
            FormField::Protocol => FormEffect::ProtocolForward,
            FormField::Profile => FormEffect::NextProfile,
            _ => if text { FormEffect::CursorRight(selected) } else { FormEffect::Nothing },
        },
        KeyCode::Home => FormEffect::CursorHome(selected),
        KeyCode::End => FormEffect::CursorEnd(selected),
        KeyCode::Backspace => FormEffect::Backspace(selected),
        KeyCode::Delete => FormEffect::DeleteForward(selected),
        KeyCode::Char(ch) if !ctrl && !alt => FormEffect::Insert(selected, ch),
        KeyCode::Char('a') if ctrl => FormEffect::SelectAll(selected),
        KeyCode::Char('e') if ctrl => FormEffect::CursorEnd(selected),
        _ => FormEffect::Nothing,
    }
}

/// What a line of the form shows.
#[derive(Clone, Copy, Debug, PartialEq, Eq)]
pub enum FormRow {
    Field(FormField),
    /// The list of profiles to choose from.
    ProfileOptions,
    /// The message line.
    Message,
    /// The Connect and Cancel buttons.
    Actions,
    /// A spacer or any other line.
    Other,
}

/// Labels in front of the text fields, in cells.
pub const USER_LABEL_WIDTH: u16 = 6;
pub const HOST_LABEL_WIDTH: u16 = 6;
pub const PORT_LABEL_WIDTH: u16 = 6;
pub const DOMAIN_LABEL_WIDTH: u16 = 8;
/// `Profiles: ` in front of the profile list.
pub const PROFILE_LIST_PREFIX_WIDTH: u16 = 10;

/// Where in a text field a click at `col` falls, after its label; the
/// password's text is not clickable.
pub open spec fn spec_form_text_offset(inner_x: int, field: FormField, col: int) -> Option<int> {
    match field {
        FormField::User => Some(sat_sub(col, sat_add_u16(inner_x, USER_LABEL_WIDTH as int))),
        FormField::Host => Some(sat_sub(col, sat_add_u16(inner_x, HOST_LABEL_WIDTH as int))),
        FormField::Port => Some(sat_sub(col, sat_add_u16(inner_x, PORT_LABEL_WIDTH as int))),
        FormField::Domain => Some(sat_sub(col, sat_add_u16(inner_x, DOMAIN_LABEL_WIDTH as int))),
        _ => None,
    }
}

/// Where in a text field a click falls.
pub fn quick_connect_text_offset(inner_x: u16, field: FormField, col: u16) -> (r: Option<usize>)
    ensures
        match r {
            Some(n) => spec_form_text_offset(inner_x as int, field, col as int) == Some(n as int),
            None => spec_form_text_offset(inner_x as int, field, col as int) is None,
        },
{
    let start = match field {
        FormField::User => inner_x.saturating_add(USER_LABEL_WIDTH),
        FormField::Host => inner_x.saturating_add(HOST_LABEL_WIDTH),
        FormField::Port => inner_x.saturating_add(PORT_LABEL_WIDTH),
        FormField::Domain => inner_x.saturating_add(DOMAIN_LABEL_WIDTH),
        _ => return None,
    };
    Some(col.saturating_sub(start) as usize)
}

/// A left click on the line `row` of the form, at column `col` (the form's
/// inside starting at `inner_x`, the profiles being `profiles`): the field
/// to select, if the click selects one, and what else it does.
pub open spec fn spec_form_click(row: FormRow, inner_x: u16, col: u16, profiles: Seq<String>) -> (Option<FormField>, FormEffect) {
    match row {
        FormRow::Field(f) => match f {
            FormField::Protocol => (Some(f), FormEffect::ProtocolForward),
            FormField::User | FormField::Host | FormField::Port | FormField::Domain => (
                Some(f),
                FormEffect::BeginSelection(f, spec_form_text_offset(inner_x as int, f, col as int)->0 as usize),
            ),
            FormField::Password => (Some(f), FormEffect::PasswordCursorEnd),
            FormField::Logging => (Some(f), FormEffect::ToggleLogging),
            FormField::Profile => (Some(f), FormEffect::Nothing),
            _ => (None, FormEffect::Nothing),
        },
        FormRow::ProfileOptions => {
            let start = inner_x + PROFILE_LIST_PREFIX_WIDTH;
            let hit = if col < start { None } else { profile_at_column(profile_widths(profiles), start, col as int, 0, start) };
            (Some(FormField::Profile), match hit { Some(i) => FormEffect::ChooseProfile(i), None => FormEffect::Nothing })
        },
        FormRow::Actions => {
            let connect_end = sat_add_u16(inner_x as int, 17);
            let cancel_start = sat_add_u16(connect_end, 3);
            if inner_x <= col < connect_end {
                (Some(FormField::Connect), FormEffect::Submit)
            } else if cancel_start <= col < sat_add_u16(cancel_start, 14) {
                (Some(FormField::Cancel), FormEffect::Close)
            } else {
                (None, FormEffect::Nothing)
            }
        },
        _ => (None, FormEffect::Nothing),
    }
}

/// What a left click on a line of the form does. Every click but one that
/// starts a text selection ends any mouse selection.
pub fn handle_quick_connect_click(row: FormRow, inner_x: u16, col: u16, profiles: &[String]) -> (r: (Option<FormField>, FormEffect))
    requires
        inner_x + PROFILE_LIST_PREFIX_WIDTH <= u16::MAX,
    ensures
        r == spec_form_click(row, inner_x, col, profiles@),
{
    match row {
        FormRow::Field(f) => match f {
            FormField::Protocol => (Some(f), FormEffect::ProtocolForward),
            FormField::User | FormField::Host | FormField::Port | FormField::Domain => {
                let offset = match quick_connect_text_offset(inner_x, f, col) {
                    Some(o) => o,
                    None => 0,
                };
                (Some(f), FormEffect::BeginSelection(f, offset))
            },
            FormField::Password => (Some(f), FormEffect::PasswordCursorEnd),
            FormField::Logging => (Some(f), FormEffect::ToggleLogging),
            FormField::Profile => (Some(f), FormEffect::Nothing),
            _ => (None, FormEffect::Nothing),
        },
        FormRow::ProfileOptions => {
            let hit = quick_connect_profile_index_at_column(profiles, inner_x + PROFILE_LIST_PREFIX_WIDTH, col);
            (Some(FormField::Profile), match hit {
                Some(i) => FormEffect::ChooseProfile(i),
                None => FormEffect::Nothing,
            })
        },
        FormRow::Actions => match quick_connect_action_hit(inner_x, col) {
            Some(QuickConnectAction::Connect) => (Some(FormField::Connect), FormEffect::Submit),
            Some(QuickConnectAction::Cancel) => (Some(FormField::Cancel), FormEffect::Close),
            None => (None, FormEffect::Nothing),
        },
        _ => (None, FormEffect::Nothing),
    }
}

/// What a mouse event on the open form does, `area` being its box and
/// `inner` its inside; `row` is the kind of the line under the pointer.
#[derive(Clone, Copy, Debug, PartialEq, Eq)]
pub enum FormMouseAction {
    Nothing,
    /// End any mouse selection (a press outside the form).
    EndSelection,
    /// A left click on the line under the pointer.
    Click,
    /// Extend the mouse selection to this column.
    Drag(u16),
    /// Extend the mouse selection to this column and end it.
    Release(u16),
    /// Select the profile field and the profile before (wheel up) or
    /// after (wheel down).
    Profile(bool),
}

/// A mouse event on the form: the wheel over the profile lines changes the
/// profile.
pub open spec fn spec_form_mouse(area: Rect, inner: Rect, row: FormRow, ev: MouseInput) -> FormMouseAction {
    let inside = spec_point_in_rect(inner, ev.column as int, ev.row as int);
    let on_profiles = inside && (row == FormRow::Field(FormField::Profile) || row == FormRow::ProfileOptions);
    match ev.kind {
        MouseEventKind::Down(MouseButton::Left) => if !spec_point_in_rect(area, ev.column as int, ev.row as int) || !inside {
            FormMouseAction::EndSelection
        } else {
            FormMouseAction::Click
        },
        MouseEventKind::Drag(MouseButton::Left) => FormMouseAction::Drag(ev.column),
        MouseEventKind::Up(MouseButton::Left) => FormMouseAction::Release(ev.column),
        MouseEventKind::ScrollUp => if on_profiles { FormMouseAction::Profile(false) } else { FormMouseAction::Nothing },
        MouseEventKind::ScrollDown => if on_profiles { FormMouseAction::Profile(true) } else { FormMouseAction::Nothing },
        _ => FormMouseAction::Nothing,
    }
}

/// A mouse event on the quick-connect form.
pub fn handle_quick_connect_mouse(area: Rect, inner: Rect, row: FormRow, ev: MouseInput) -> (a: FormMouseAction)
    ensures
        a == spec_form_mouse(area, inner, row, ev),
{
    let inside = point_in_rect(inner, ev.column, ev.row);
    let profile_row = match row {
        FormRow::Field(FormField::Profile) | FormRow::ProfileOptions => true,
        _ => false,
    };
    let on_profiles = inside && profile_row;
    match ev.kind {
        MouseEventKind::Down(MouseButton::Left) => {
            if !point_in_rect(area, ev.column, ev.row) || !inside {
                FormMouseAction::EndSelection
            } else {
                FormMouseAction::Click
            }
        },
        MouseEventKind::Drag(MouseButton::Left) => FormMouseAction::Drag(ev.column),
        MouseEventKind::Up(MouseButton::Left) => FormMouseAction::Release(ev.column),
        MouseEventKind::ScrollUp => if on_profiles { FormMouseAction::Profile(false) } else { FormMouseAction::Nothing },
        MouseEventKind::ScrollDown => if on_profiles { FormMouseAction::Profile(true) } else { FormMouseAction::Nothing },
        _ => FormMouseAction::Nothing,
    }
}

/// The form's box on a `term_width` x `term_height` screen: 58 to 86
/// cells wide and `height` lines high, centred and shrunk to fit.
pub fn quick_connect_modal_layout(term_width: u16, term_height: u16, height: u16) -> (r: (Rect, Rect))
    ensures
        r.0 == spec_centered_rect(clamp_u16(term_width as int, 58, 86), height as int, Rect { x: 0, y: 0, width: term_width, height: term_height }),
        r.1 == inner_of(r.0),
{
    let width = if term_width < 58 { 58 } else if term_width > 86 { 86 } else { term_width };
    let area = centered_rect(width, height, Rect::new(0, 0, term_width, term_height));
    (area, modal_inner_rect(area))
}

/// Why a quick connection was refused.
#[derive(Clone, Copy, Debug, PartialEq, Eq)]
pub enum QuickConnectError {
    HostRequired,
    RdpUserRequired,
    InvalidPort,
    PasswordEncoding,
}

/// The field to fix after a refusal, and whether the host field is marked
/// as required.
pub fn validation_focus(err: QuickConnectError) -> (r: (FormField, bool))
    ensures
        r == match err {
            QuickConnectError::HostRequired => (FormField::Host, true),
            QuickConnectError::RdpUserRequired => (FormField::User, false),
            QuickConnectError::InvalidPort => (FormField::Port, false),
            QuickConnectError::PasswordEncoding => (FormField::Password, false),
        },
{
    match err {
        QuickConnectError::HostRequired => (FormField::Host, true),
        QuickConnectError::RdpUserRequired => (FormField::User, false),
        QuickConnectError::InvalidPort => (FormField::Port, false),
        QuickConnectError::PasswordEncoding => (FormField::Password, false),
    }
}

} // verus!
