//! The prompt for RDP credentials shown before a launch: its fields, keys,
//! clicks and layout.
use vstd::prelude::*;
use crate::key_encoding::{KeyCode, KeyInput};
use crate::layout::{Rect, sat_sub, sat_add_u16, spec_point_in_rect, point_in_rect, modal_inner_rect};
use crate::mouse_routing::{MouseButton, MouseEventKind, MouseInput};
use crate::text_edit::{SearchQuery, spec_query_edit};
use crate::vault_modal::{clamp_u16, spec_centered_rect, centered_rect, inner_of};
use crate::text_format::{trim, trim_text};
use crate::text_edit::{char_len, string_from_char_range};
use crate::host_search::chars_of;

verus! {

/// A field of the prompt, in the order of its lines.
#[derive(Clone, Copy, Debug, PartialEq, Eq, Structural)]
pub enum RdpField {
    User,
    Domain,
    Port,
    Password,
}

impl RdpField {
    pub open spec fn spec_next(self) -> RdpField {
        match self {
            RdpField::User => RdpField::Domain,
            RdpField::Domain => RdpField::Port,
            RdpField::Port => RdpField::Password,
            RdpField::Password => RdpField::User,
        }
    }

    pub open spec fn spec_prev(self) -> RdpField {
        match self {
            RdpField::User => RdpField::Password,
            RdpField::Domain => RdpField::User,
            RdpField::Port => RdpField::Domain,
            RdpField::Password => RdpField::Port,
        }
    }

    /// The field on the next line, wrapping to the first.
    pub fn next(self) -> (r: RdpField)
        ensures
            r == self.spec_next(),
    {
        match self {
            RdpField::User => RdpField::Domain,
            RdpField::Domain => RdpField::Port,
            RdpField::Port => RdpField::Password,
            RdpField::Password => RdpField::User,
        }
    }

    /// The field on the line before, wrapping to the last.
    pub fn prev(self) -> (r: RdpField)
        ensures
            r == self.spec_prev(),
    {
        match self {
            RdpField::User => RdpField::Password,
            RdpField::Domain => RdpField::User,
            RdpField::Port => RdpField::Domain,
            RdpField::Password => RdpField::Port,
        }
    }
}

/// Moving to the next field and back returns to the same field, and the
/// other way round.
pub proof fn lemma_rdp_field_cycle(f: RdpField)
    ensures
        f.spec_next().spec_prev() == f,
        f.spec_prev().spec_next() == f,
{
}

/// What a key on the prompt asks of the caller.
#[derive(Clone, Copy, Debug, PartialEq, Eq)]
pub enum RdpKeyEffect {
    /// Nothing beyond the edit, if any, of the selected field.
    Nothing,
    /// The selected field was edited: clear the prompt's error.
    Edited,
    Close,
    Submit,
    /// Select this field and clear the prompt's error.
    Select(RdpField),
}

/// A key on the prompt whose selected field is `selected`: Esc closes,
/// Enter launches, Tab/Down and BackTab/Up change the field, and the
/// editing keys of a text box edit the selected field (Backspace, Delete
/// and typed characters clearing the error).
pub open spec fn spec_rdp_key(selected: RdpField, key: KeyInput) -> RdpKeyEffect {
    match key.code {
        KeyCode::Esc => RdpKeyEffect::Close,
        KeyCode::Tab | KeyCode::Down => RdpKeyEffect::Select(selected.spec_next()),
        KeyCode::BackTab | KeyCode::Up => RdpKeyEffect::Select(selected.spec_prev()),
        KeyCode::Enter => RdpKeyEffect::Submit,
        KeyCode::Backspace | KeyCode::Delete => RdpKeyEffect::Edited,
        KeyCode::Char(_) => if !key.modifiers.control && !key.modifiers.alt { RdpKeyEffect::Edited } else { RdpKeyEffect::Nothing },
        _ => RdpKeyEffect::Nothing,
    }
}

/// The effect keys other than Esc, Enter and the field moves have on the
/// selected field.
pub open spec fn edits_field(key: KeyInput) -> bool {
    match key.code {
        KeyCode::Esc | KeyCode::Tab | KeyCode::Down | KeyCode::BackTab | KeyCode::Up | KeyCode::Enter => false,
        _ => true,
    }
}

/// A key on the prompt; `field` is the selected field's text box.
pub fn handle_rdp_credentials_key(selected: RdpField, field: &mut SearchQuery, key: KeyInput) -> (e: RdpKeyEffect)
    requires
        old(field).text@.len() < usize::MAX,
    ensures
        e == spec_rdp_key(selected, key),
        edits_field(key) ==> final(field)@ == spec_query_edit(old(field)@, key).0,
        !edits_field(key) ==> final(field)@ == old(field)@,
{
    match key.code {
        KeyCode::Esc => return RdpKeyEffect::Close,
        KeyCode::Tab | KeyCode::Down => return RdpKeyEffect::Select(selected.next()),
        KeyCode::BackTab | KeyCode::Up => return RdpKeyEffect::Select(selected.prev()),
        KeyCode::Enter => return RdpKeyEffect::Submit,
        _ => {},
    }
    let typing = match key.code {
        KeyCode::Backspace | KeyCode::Delete => true,
        KeyCode::Char(_) => !key.modifiers.control && !key.modifiers.alt,
        _ => false,
    };
    let _ = field.edit_key(key);
    if typing {
        RdpKeyEffect::Edited
    } else {
        RdpKeyEffect::Nothing
    }
}

/// The prompt's box on a `term_width` x `term_height` screen: 56 to 90
/// cells wide and 9 lines high, centred and shrunk to fit.
pub open spec fn spec_rdp_layout(term_width: u16, term_height: u16) -> (Rect, Rect) {
    let area = spec_centered_rect(clamp_u16(term_width as int, 56, 90), 9, Rect { x: 0, y: 0, width: term_width, height: term_height });
    (area, inner_of(area))
}

/// The prompt's box and its inside.
pub fn rdp_credentials_modal_layout(term_width: u16, term_height: u16) -> (r: (Rect, Rect))
    ensures
        r == spec_rdp_layout(term_width, term_height),
{
    let width = if term_width < 56 { 56 } else if term_width > 90 { 90 } else { term_width };
    let area = centered_rect(width, 9, Rect::new(0, 0, term_width, term_height));
    (area, modal_inner_rect(area))
}

/// Lines of the prompt, inside its border.
pub const USER_ROW: u16 = 1;
pub const DOMAIN_ROW: u16 = 2;
pub const PORT_ROW: u16 = 3;
pub const PASSWORD_ROW: u16 = 4;
pub const ACTION_ROW: u16 = 6;

/// Where in a field's text a click at `col` falls: after the label
/// (`User: `, `Domain: `, `Port: `); never in the hidden password.
pub open spec fn spec_rdp_text_offset(inner_x: int, field: RdpField, col: int) -> Option<int> {
    match field {
        RdpField::User => Some(sat_sub(col, sat_add_u16(inner_x, 6))),
        RdpField::Domain => Some(sat_sub(col, sat_add_u16(inner_x, 8))),
        RdpField::Port => Some(sat_sub(col, sat_add_u16(inner_x, 6))),
        RdpField::Password => None,
    }
}

/// Where in a field's text a click falls.
pub fn rdp_credentials_text_offset(inner_x: u16, field: RdpField, col: u16) -> (r: Option<usize>)
    ensures
        match r {
            Some(n) => spec_rdp_text_offset(inner_x as int, field, col as int) == Some(n as int),
            None => spec_rdp_text_offset(inner_x as int, field, col as int) is None,
        },
{
    let start = match field {
        RdpField::User => inner_x.saturating_add(6),
        RdpField::Domain => inner_x.saturating_add(8),
        RdpField::Port => inner_x.saturating_add(6),
        RdpField::Password => return None,
    };
    Some(col.saturating_sub(start) as usize)
}

/// What a mouse event on the prompt asks of the caller.
#[derive(Clone, Copy, Debug, PartialEq, Eq)]
pub enum RdpMouseEffect {
    Nothing,
    /// End any mouse selection.
    EndSelection,
    /// Select the field, start a mouse selection at this offset of its
    /// text, and clear the error.
    BeginSelection(RdpField, usize),
    /// Select the password field with its cursor at the end, and clear
    /// the error.
    SelectPassword,
    /// Extend the mouse selection to this column.
    Drag(u16),
    /// Extend the mouse selection to this column and end it.
    Release(u16),
    /// As Enter.
    Submit,
    /// As Esc.
    Close,
}

/// A mouse event on the prompt whose inside is `inner`: a press outside or
/// on a line without a field ends a selection; on a field's line it selects
/// the field; on the action line, `[Enter] Launch` and `[Esc] Cancel` (two
/// spaces, a bar and two spaces apart) act like their keys.
pub open spec fn spec_rdp_mouse(inner: Rect, ev: MouseInput) -> RdpMouseEffect {
    match ev.kind {
        MouseEventKind::Down(MouseButton::Left) => if !spec_point_in_rect(inner, ev.column as int, ev.row as int) {
            RdpMouseEffect::EndSelection
        } else {
            let line = ev.row - inner.y;
            let col = ev.column as int;
            if line == USER_ROW {
                RdpMouseEffect::BeginSelection(RdpField::User, sat_sub(col, sat_add_u16(inner.x as int, 6)) as usize)
            } else if line == DOMAIN_ROW {
                RdpMouseEffect::BeginSelection(RdpField::Domain, sat_sub(col, sat_add_u16(inner.x as int, 8)) as usize)
            } else if line == PORT_ROW {
                RdpMouseEffect::BeginSelection(RdpField::Port, sat_sub(col, sat_add_u16(inner.x as int, 6)) as usize)
            } else if line == PASSWORD_ROW {
                RdpMouseEffect::SelectPassword
            } else if line == ACTION_ROW {
                let submit_end = sat_add_u16(inner.x as int, 14);
                let cancel_start = sat_add_u16(submit_end, 5);
                if inner.x <= col < submit_end {
                    RdpMouseEffect::Submit
                } else if cancel_start <= col < sat_add_u16(cancel_start, 12) {
                    RdpMouseEffect::Close
                } else {
                    RdpMouseEffect::EndSelection
                }
            } else {
                RdpMouseEffect::EndSelection
            }
        },
        MouseEventKind::Drag(MouseButton::Left) => RdpMouseEffect::Drag(ev.column),
        MouseEventKind::Up(MouseButton::Left) => RdpMouseEffect::Release(ev.column),
        _ => RdpMouseEffect::Nothing,
    }
}

/// A mouse event on the prompt.
pub fn handle_rdp_credentials_mouse(inner: Rect, ev: MouseInput) -> (e: RdpMouseEffect)
    ensures
        e == spec_rdp_mouse(inner, ev),
{
    match ev.kind {
        MouseEventKind::Down(MouseButton::Left) => {
            if !point_in_rect(inner, ev.column, ev.row) {
                return RdpMouseEffect::EndSelection;
            }
            let line = ev.row - inner.y;
            let col = ev.column;
            if line == USER_ROW {
                RdpMouseEffect::BeginSelection(RdpField::User, col.saturating_sub(inner.x.saturating_add(6)) as usize)
            } else if line == DOMAIN_ROW {
                RdpMouseEffect::BeginSelection(RdpField::Domain, col.saturating_sub(inner.x.saturating_add(8)) as usize)
            } else if line == PORT_ROW {
                RdpMouseEffect::BeginSelection(RdpField::Port, col.saturating_sub(inner.x.saturating_add(6)) as usize)
            } else if line == PASSWORD_ROW {
                RdpMouseEffect::SelectPassword
            } else if line == ACTION_ROW {
                let submit_end = inner.x.saturating_add(14);
                let cancel_start = submit_end.saturating_add(5);
                if col >= inner.x && col < submit_end {
                    RdpMouseEffect::Submit
                } else if col >= cancel_start && col < cancel_start.saturating_add(12) {
                    RdpMouseEffect::Close
                } else {
                    RdpMouseEffect::EndSelection
                }
            } else {
                RdpMouseEffect::EndSelection
            }
        },
        MouseEventKind::Drag(MouseButton::Left) => RdpMouseEffect::Drag(ev.column),
        MouseEventKind::Up(MouseButton::Left) => RdpMouseEffect::Release(ev.column),
        _ => RdpMouseEffect::Nothing,
    }
}

/// Why the typed credentials were refused.
#[derive(Clone, Copy, Debug, PartialEq, Eq)]
pub enum RdpValidationError {
    UserRequired,
    InvalidPort,
    PasswordEncoding,
}

/// The field to fix for each refusal.
pub fn rdp_error_field(err: RdpValidationError) -> (f: RdpField)
    ensures
        f == match err {
            RdpValidationError::UserRequired => RdpField::User,
            RdpValidationError::InvalidPort => RdpField::Port,
            RdpValidationError::PasswordEncoding => RdpField::Password,
        },
{
    match err {
        RdpValidationError::UserRequired => RdpField::User,
        RdpValidationError::InvalidPort => RdpField::Port,
        RdpValidationError::PasswordEncoding => RdpField::Password,
    }
}

/// How a launch logs in: the vault entry to use instead of the host's, the
/// notice when the vault cannot help, whether vault auto-login is off, and
/// a password typed for RDP.
#[derive(Debug)]
pub struct PassResolution {
    pub pass_entry_override: Option<String>,
    pub pass_fallback_notice: Option<String>,
    pub disable_vault_autologin: bool,
    pub manual_rdp_password: Option<String>,
}

/// The login of a launch from the RDP prompt: a typed password is used as
/// it is, with the vault left out; without one the launch logs in as it was
/// going to (`launch`, which holds no typed password).
pub fn rdp_auth_resolution(manual_password: Option<String>, launch: PassResolution) -> (r: PassResolution)
    ensures
        match manual_password {
            Some(p) => r.pass_entry_override is None && r.pass_fallback_notice is None && r.disable_vault_autologin
                && r.manual_rdp_password == Some(p),
            None => r.pass_entry_override == launch.pass_entry_override && r.pass_fallback_notice == launch.pass_fallback_notice
                && r.disable_vault_autologin == launch.disable_vault_autologin && r.manual_rdp_password is None,
        },
{
    match manual_password {
        Some(p) => PassResolution {
            pass_entry_override: None,
            pass_fallback_notice: None,
            disable_vault_autologin: true,
            manual_rdp_password: Some(p),
        },
        None => PassResolution {
            pass_entry_override: launch.pass_entry_override,
            pass_fallback_notice: launch.pass_fallback_notice,
            disable_vault_autologin: launch.disable_vault_autologin,
            manual_rdp_password: None,
        },
    }
}

/// How the prompt's message line is shown.
#[derive(Clone, Copy, Debug, PartialEq, Eq, Structural)]
pub enum MessageStyle {
    Error,
    Notice,
    Hint,
}

/// The message line of the prompt: the error if there is one, else the
/// notice, else a hint on what a blank password does: the unlocked vault
/// entry is used when there is one, FreeRDP asks otherwise.
pub open spec fn spec_rdp_message(error: Option<Seq<char>>, notice: Option<Seq<char>>, has_vault_entry: bool) -> (MessageStyle, Seq<char>) {
    match error {
        Some(e) => (MessageStyle::Error, e),
        None => match notice {
            Some(n) => (MessageStyle::Notice, n),
            None => (MessageStyle::Hint, if has_vault_entry {
                "Leave password blank to use the unlocked vault entry."@
            } else {
                "Leave password blank to continue with the FreeRDP password prompt."@
            }),
        },
    }
}

/// The message line of the RDP credentials prompt.
pub fn rdp_message_line(error: Option<&str>, notice: Option<&str>, has_vault_entry: bool) -> (r: (MessageStyle, String))
    ensures
        (r.0, r.1@) == spec_rdp_message(
            match error { Some(e) => Some(e@), None => None },
            match notice { Some(n) => Some(n@), None => None },
            has_vault_entry,
        ),
{
    match error {
        Some(e) => (MessageStyle::Error, e.to_owned()),
        None => match notice {
            Some(n) => (MessageStyle::Notice, n.to_owned()),
            None => (MessageStyle::Hint, if has_vault_entry {
                "Leave password blank to use the unlocked vault entry.".to_owned()
            } else {
                "Leave password blank to continue with the FreeRDP password prompt.".to_owned()
            }),
        },
    }
}

/// What an unselected field of the prompt shows: its text, or `(required)`
/// for the user name and `(optional)` for the others when it is blank.
pub open spec fn spec_unselected_field_text(field: RdpField, value: Seq<char>) -> Seq<char> {
    if trim(value).len() == 0 {
        if field == RdpField::User { "(required)"@ } else { "(optional)"@ }
    } else {
        value
    }
}

/// The text of an unselected field of the prompt (the password is passed
/// already masked).
pub fn unselected_field_text(field: RdpField, value: &str) -> (r: String)
    ensures
        r@ == spec_unselected_field_text(field, value@),
{
    let t = trim_text(value);
    if char_len(t.as_str()) == 0 {
        match field {
            RdpField::User => "(required)".to_owned(),
            _ => "(optional)".to_owned(),
        }
    } else {
        value.to_owned()
    }
}

/// How a piece of a field's value is shown.
#[derive(Clone, Copy, Debug, PartialEq, Eq, Structural)]
pub enum ValueTone {
    /// The value of a field that is not selected.
    Normal,
    /// The value of the selected field.
    Selected,
    /// The character under the text cursor.
    Cursor,
    /// An example shown in an empty field.
    Placeholder,
}

/// Spans as values.
pub open spec fn spans_model(spans: Seq<(String, ValueTone)>) -> Seq<(Seq<char>, ValueTone)> {
    spans.map_values(|p: (String, ValueTone)| (p.0@, p.1))
}

/// The password line's value: for the selected field the masked password
/// with the character under the cursor marked (a blank cursor cell after the
/// end, or alone when it is empty); otherwise the masked password, or
/// `(optional)` when there is none.
pub open spec fn spec_password_spans(masked: Seq<char>, cursor: int, selected: bool) -> Seq<(Seq<char>, ValueTone)> {
    let n = masked.len() as int;
    if selected {
        let c = if cursor < n { cursor } else { n };
        if n == 0 {
            seq![(seq![' '], ValueTone::Cursor)]
        } else if c < n {
            seq![
                (masked.subrange(0, c), ValueTone::Selected),
                (masked.subrange(c, c + 1), ValueTone::Cursor),
                (masked.subrange(c + 1, n), ValueTone::Selected),
            ]
        } else {
            seq![(masked, ValueTone::Selected), (seq![' '], ValueTone::Cursor)]
        }
    } else if n == 0 {
        seq![("(optional)"@, ValueTone::Normal)]
    } else {
        seq![(masked, ValueTone::Normal)]
    }
}

/// The spans of the password line of the RDP credentials prompt, from the
/// password already masked.
pub fn password_spans(masked: &str, cursor: usize, selected: bool) -> (spans: Vec<(String, ValueTone)>)
    ensures
        spans_model(spans@) == spec_password_spans(masked@, cursor as int, selected),
{
    let chars = chars_of(masked);
    let n = chars.len();
    let mut spans: Vec<(String, ValueTone)> = Vec::new();
    let blank = " ".to_owned();
    proof {
        reveal_strlit(" ");
    }
    assert(blank@ =~= seq![' ']);
    if selected {
        let c = if cursor < n { cursor } else { n };
        if n == 0 {
            spans.push((blank, ValueTone::Cursor));
        } else if c < n {
            spans.push((string_from_char_range(&chars, 0, c), ValueTone::Selected));
            spans.push((string_from_char_range(&chars, c, c + 1), ValueTone::Cursor));
            spans.push((string_from_char_range(&chars, c + 1, n), ValueTone::Selected));
        } else {
            spans.push((masked.to_owned(), ValueTone::Selected));
            spans.push((blank, ValueTone::Cursor));
        }
    } else if n == 0 {
        spans.push(("(optional)".to_owned(), ValueTone::Normal));
    } else {
        spans.push((masked.to_owned(), ValueTone::Normal));
    }
    assert(spans_model(spans@) =~= spec_password_spans(masked@, cursor as int, selected));
    spans
}

} // verus!
