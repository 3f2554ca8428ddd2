//! The host editor tab and the host context menu: which edit a key press or
//! a click asks of the form, where the form's rows and action buttons are,
//! and which operation a context-menu entry stands for.
//!
//! The form itself (its fields' texts, sections and option lists) belongs
//! to the caller; these functions decide, from the form's selected row and
//! mode, what the caller does to it.
use vstd::prelude::*;
use crate::key_encoding::{KeyCode, KeyInput};
use crate::layout::{Rect, sat_sub, sat_add_u16, min_int, spec_point_in_rect, point_in_rect, modal_inner_rect};
use crate::mouse_routing::{MouseButton, MouseEventKind, MouseInput};
use crate::text_format::{trim, trim_text};
use crate::text_edit::{char_len, text_equal, string_from_char_range, Selection};
use crate::host_search::chars_of;
use crate::rdp_prompt::ValueTone;

verus! {

/// A row of the host editor form.
#[derive(Clone, Copy, Debug, PartialEq, Eq, Structural)]
pub enum HostEditorField {
    Name,
    Description,
    Protocol,
    Host,
    User,
    Port,
    Profile,
    VaultPass,
    IdentityFile,
    IdentitiesOnly,
    ProxyJump,
    ProxyCommand,
    ForwardAgent,
    LocalForward,
    RemoteForward,
    SshOptions,
    RdpDomain,
    RdpArgs,
    Hidden,
    FolderPath,
    Save,
    Delete,
    Cancel,
}

/// The buttons of the bottom action row.
pub open spec fn spec_is_action(f: HostEditorField) -> bool {
    f == HostEditorField::Save || f == HostEditorField::Delete || f == HostEditorField::Cancel
}

impl HostEditorField {
    /// Whether this is a button of the bottom action row.
    pub fn is_action(self) -> (r: bool)
        ensures
            r == spec_is_action(self),
    {
        match self {
            HostEditorField::Save | HostEditorField::Delete | HostEditorField::Cancel => true,
            _ => false,
        }
    }
}

/// A row the form shows: a collapsible section's header, or a field.
#[derive(Clone, Copy, Debug, PartialEq, Eq, Structural)]
pub enum EditorItem {
    /// The header of the section with this index.
    SectionHeader(usize),
    Field(HostEditorField),
}

/// What the caller does to the form after a key press or a click.
#[derive(Clone, Copy, Debug, PartialEq, Eq)]
pub enum EditorEffect {
    Nothing,
    /// Close the editor tab (and any delete confirmation).
    Close,
    /// Save the entry.
    Submit,
    /// Ask whether to delete the entry.
    OpenDeleteConfirm,
    /// Dismiss the delete confirmation.
    CancelDelete,
    /// Delete the entry.
    ConfirmDelete,
    SelectNextField,
    SelectPrevField,
    /// Expand or collapse the section with this index.
    ToggleSection(usize),
    ProtocolForward,
    ProtocolBackward,
    NextProfile,
    PrevProfile,
    NextVaultPass,
    PrevVaultPass,
    IdentitiesOnlyForward,
    IdentitiesOnlyBackward,
    /// Open the folder picker for the entry's placement.
    OpenFolderPicker,
    CursorLeft(HostEditorField),
    CursorRight(HostEditorField),
    CursorHome(HostEditorField),
    CursorEnd(HostEditorField),
    /// Delete before the cursor (and clear the form's error).
    Backspace(HostEditorField),
    /// Delete at the cursor (and clear the form's error).
    DeleteForward(HostEditorField),
    /// Type a character (and clear the form's error).
    Insert(HostEditorField, char),
    /// Start a mouse selection in a text field at this character offset.
    BeginSelection(HostEditorField, usize),
}

/// The form as key handling reads it.
#[derive(Clone, Copy, Debug, PartialEq, Eq)]
pub struct EditorKeyContext {
    /// The delete confirmation is open: keys go to it.
    pub delete_confirm_open: bool,
    /// The form's selected row; `None` when no editor form is selected.
    pub selected: Option<EditorItem>,
    /// The form edits an existing entry (rather than creating one).
    pub edit_mode: bool,
    /// The selected field holds editable text.
    pub selected_has_text: bool,
}

/// A key of the delete confirmation: Esc or `n` cancels, Enter or `y`
/// deletes, both without modifiers.
pub open spec fn spec_delete_confirm_key(key: KeyInput) -> EditorEffect {
    let plain = !key.modifiers.shift && !key.modifiers.control && !key.modifiers.alt
        && !key.modifiers.super_key && !key.modifiers.hyper && !key.modifiers.meta;
    if !plain {
        EditorEffect::Nothing
    } else {
        match key.code {
            KeyCode::Esc | KeyCode::Char('n') => EditorEffect::CancelDelete,
            KeyCode::Enter | KeyCode::Char('y') => EditorEffect::ConfirmDelete,
            _ => EditorEffect::Nothing,
        }
    }
}

/// A key on the delete confirmation of an entry.
pub fn delete_confirm_key(key: KeyInput) -> (e: EditorEffect)
    ensures
        e == spec_delete_confirm_key(key),
{
    let plain = key.modifiers.is_empty();
    if !plain {
        EditorEffect::Nothing
    } else {
        match key.code {
            KeyCode::Esc | KeyCode::Char('n') => EditorEffect::CancelDelete,
            KeyCode::Enter | KeyCode::Char('y') => EditorEffect::ConfirmDelete,
            _ => EditorEffect::Nothing,
        }
    }
}

/// A field whose text cursor keys move: not the protocol switch, not the
/// folder placement.
pub open spec fn cursor_field(item: EditorItem) -> Option<HostEditorField> {
    match item {
        EditorItem::Field(f) => if f != HostEditorField::Protocol && f != HostEditorField::FolderPath {
            Some(f)
        } else {
            None
        },
        EditorItem::SectionHeader(_) => None,
    }
}

/// Enter on the selected row.
pub open spec fn spec_enter_effect(item: EditorItem) -> EditorEffect {
    match item {
        EditorItem::SectionHeader(s) => EditorEffect::ToggleSection(s),
        EditorItem::Field(f) => match f {
            HostEditorField::Protocol => EditorEffect::ProtocolForward,
            HostEditorField::Profile => EditorEffect::NextProfile,
            HostEditorField::VaultPass => EditorEffect::NextVaultPass,
            HostEditorField::FolderPath => EditorEffect::OpenFolderPicker,
            HostEditorField::Save => EditorEffect::Submit,
            HostEditorField::Delete => EditorEffect::OpenDeleteConfirm,
            HostEditorField::Cancel => EditorEffect::Close,
            HostEditorField::IdentitiesOnly => EditorEffect::IdentitiesOnlyForward,
            _ => EditorEffect::SelectNextField,
        },
    }
}

/// Space without Control or Alt on the selected row.
pub open spec fn spec_space_effect(item: EditorItem) -> EditorEffect {
    match item {
        EditorItem::SectionHeader(s) => EditorEffect::ToggleSection(s),
        EditorItem::Field(HostEditorField::IdentitiesOnly) => EditorEffect::IdentitiesOnlyForward,
        EditorItem::Field(HostEditorField::FolderPath) => EditorEffect::OpenFolderPicker,
        EditorItem::Field(HostEditorField::Description) => EditorEffect::Insert(HostEditorField::Description, ' '),
        EditorItem::Field(_) => EditorEffect::Nothing,
    }
}

/// Left (`forward` false) or Right on the selected row: option fields
/// cycle, text fields move their cursor.
pub open spec fn spec_side_effect(item: EditorItem, forward: bool) -> EditorEffect {
    match item {
        EditorItem::SectionHeader(_) => EditorEffect::Nothing,
        EditorItem::Field(f) => match f {
            HostEditorField::Protocol => if forward { EditorEffect::ProtocolForward } else { EditorEffect::ProtocolBackward },
            HostEditorField::Profile => if forward { EditorEffect::NextProfile } else { EditorEffect::PrevProfile },
            HostEditorField::VaultPass => if forward { EditorEffect::NextVaultPass } else { EditorEffect::PrevVaultPass },
            HostEditorField::IdentitiesOnly => if forward {
                EditorEffect::IdentitiesOnlyForward
            } else {
                EditorEffect::IdentitiesOnlyBackward
            },
            HostEditorField::FolderPath => EditorEffect::Nothing,
            _ => if forward { EditorEffect::CursorRight(f) } else { EditorEffect::CursorLeft(f) },
        },
    }
}

/// An edit of the selected text field, or nothing on other rows.
pub open spec fn on_cursor_field(item: EditorItem, e: spec_fn(HostEditorField) -> EditorEffect) -> EditorEffect {
    match cursor_field(item) {
        Some(f) => e(f),
        None => EditorEffect::Nothing,
    }
}

/// A key on the form whose selected row is `item`.
pub open spec fn spec_form_key(ctx: EditorKeyContext, item: EditorItem, key: KeyInput) -> EditorEffect {
    let ctrl = key.modifiers.control;
    let alt = key.modifiers.alt;
    match key.code {
        KeyCode::Esc => EditorEffect::Close,
        KeyCode::Tab | KeyCode::Down => EditorEffect::SelectNextField,
        KeyCode::BackTab | KeyCode::Up => EditorEffect::SelectPrevField,
        KeyCode::Enter => spec_enter_effect(item),
        KeyCode::Char('d') if ctrl && ctx.edit_mode => EditorEffect::OpenDeleteConfirm,
        KeyCode::Char(' ') if !ctrl && !alt => spec_space_effect(item),
        KeyCode::Left => spec_side_effect(item, false),
        KeyCode::Right => spec_side_effect(item, true),
        KeyCode::Home => on_cursor_field(item, |f: HostEditorField| EditorEffect::CursorHome(f)),
        KeyCode::End => on_cursor_field(item, |f: HostEditorField| EditorEffect::CursorEnd(f)),
        KeyCode::Backspace => on_cursor_field(item, |f: HostEditorField| EditorEffect::Backspace(f)),
        KeyCode::Delete => on_cursor_field(item, |f: HostEditorField| EditorEffect::DeleteForward(f)),
        KeyCode::Char('a') if ctrl => on_cursor_field(item, |f: HostEditorField| EditorEffect::CursorHome(f)),
        KeyCode::Char('e') if ctrl => on_cursor_field(item, |f: HostEditorField| EditorEffect::CursorEnd(f)),
        KeyCode::Char(ch) if !ctrl && !alt => if ctx.selected_has_text {
            on_cursor_field(item, |f: HostEditorField| EditorEffect::Insert(f, ch))
        } else {
            EditorEffect::Nothing
        },
        _ => EditorEffect::Nothing,
    }
}

/// A key on the host editor tab: the delete confirmation takes it when
/// open; otherwise it acts on the form's selected row.
pub open spec fn spec_editor_key(ctx: EditorKeyContext, key: KeyInput) -> EditorEffect {
    if ctx.delete_confirm_open {
        spec_delete_confirm_key(key)
    } else {
        match ctx.selected {
            None => EditorEffect::Nothing,
            Some(item) => spec_form_key(ctx, item, key),
        }
    }
}

fn cursor_field_of(item: EditorItem) -> (r: Option<HostEditorField>)
    ensures
        r == cursor_field(item),
{
    match item {
        EditorItem::Field(f) => match f {
            HostEditorField::Protocol | HostEditorField::FolderPath => None,
            _ => Some(f),
        },
        EditorItem::SectionHeader(_) => None,
    }
}

fn enter_effect(item: EditorItem) -> (e: EditorEffect)
    ensures
        e == spec_enter_effect(item),
{
    match item {
        EditorItem::SectionHeader(s) => EditorEffect::ToggleSection(s),
        EditorItem::Field(f) => match f {
            HostEditorField::Protocol => EditorEffect::ProtocolForward,
            HostEditorField::Profile => EditorEffect::NextProfile,
            HostEditorField::VaultPass => EditorEffect::NextVaultPass,
            HostEditorField::FolderPath => EditorEffect::OpenFolderPicker,
            HostEditorField::Save => EditorEffect::Submit,
            HostEditorField::Delete => EditorEffect::OpenDeleteConfirm,
            HostEditorField::Cancel => EditorEffect::Close,
            HostEditorField::IdentitiesOnly => EditorEffect::IdentitiesOnlyForward,
            _ => EditorEffect::SelectNextField,
        },
    }
}

fn space_effect(item: EditorItem) -> (e: EditorEffect)
    ensures
        e == spec_space_effect(item),
{
    match item {
        EditorItem::SectionHeader(s) => EditorEffect::ToggleSection(s),
        EditorItem::Field(HostEditorField::IdentitiesOnly) => EditorEffect::IdentitiesOnlyForward,
        EditorItem::Field(HostEditorField::FolderPath) => EditorEffect::OpenFolderPicker,
        EditorItem::Field(HostEditorField::Description) => EditorEffect::Insert(HostEditorField::Description, ' '),
        EditorItem::Field(_) => EditorEffect::Nothing,
    }
}

fn side_effect(item: EditorItem, forward: bool) -> (e: EditorEffect)
    ensures
        e == spec_side_effect(item, forward),
{
    match item {
        EditorItem::SectionHeader(_) => EditorEffect::Nothing,
        EditorItem::Field(f) => match f {
            HostEditorField::Protocol => if forward { EditorEffect::ProtocolForward } else { EditorEffect::ProtocolBackward },
            HostEditorField::Profile => if forward { EditorEffect::NextProfile } else { EditorEffect::PrevProfile },
            HostEditorField::VaultPass => if forward { EditorEffect::NextVaultPass } else { EditorEffect::PrevVaultPass },
            HostEditorField::IdentitiesOnly => if forward {
                EditorEffect::IdentitiesOnlyForward
            } else {
                EditorEffect::IdentitiesOnlyBackward
            },
            HostEditorField::FolderPath => EditorEffect::Nothing,
            _ => if forward { EditorEffect::CursorRight(f) } else { EditorEffect::CursorLeft(f) },
        },
    }
}

/// A key on the host editor tab, from the state of its form.
///
/// Whenever a form is selected and the delete confirmation is closed, the
/// caller also ends any mouse selection in the form before the edit.
pub fn handle_host_editor_key(ctx: EditorKeyContext, key: KeyInput) -> (e: EditorEffect)
    ensures
        e == spec_editor_key(ctx, key),
{
    if ctx.delete_confirm_open {
        return delete_confirm_key(key);
    }
    let item = match ctx.selected {
        None => return EditorEffect::Nothing,
        Some(item) => item,
    };
    let ctrl = key.modifiers.control;
    let alt = key.modifiers.alt;
    let field = cursor_field_of(item);
    match key.code {
        KeyCode::Esc => EditorEffect::Close,
        KeyCode::Tab | KeyCode::Down => EditorEffect::SelectNextField,
        KeyCode::BackTab | KeyCode::Up => EditorEffect::SelectPrevField,
        KeyCode::Enter => enter_effect(item),
        KeyCode::Char('d') if ctrl && ctx.edit_mode => EditorEffect::OpenDeleteConfirm,
        KeyCode::Char(' ') if !ctrl && !alt => space_effect(item),
        KeyCode::Left => side_effect(item, false),
        KeyCode::Right => side_effect(item, true),
        KeyCode::Home => match field {
            Some(f) => EditorEffect::CursorHome(f),
            None => EditorEffect::Nothing,
        },
        KeyCode::End => match field {
            Some(f) => EditorEffect::CursorEnd(f),
            None => EditorEffect::Nothing,
        },
        KeyCode::Backspace => match field {
            Some(f) => EditorEffect::Backspace(f),
            None => EditorEffect::Nothing,
        },
        KeyCode::Delete => match field {
            Some(f) => EditorEffect::DeleteForward(f),
            None => EditorEffect::Nothing,
        },
        KeyCode::Char('a') if ctrl => match field {
            Some(f) => EditorEffect::CursorHome(f),
            None => EditorEffect::Nothing,
        },
        KeyCode::Char('e') if ctrl => match field {
            Some(f) => EditorEffect::CursorEnd(f),
            None => EditorEffect::Nothing,
        },
        KeyCode::Char(ch) if !ctrl && !alt => match field {
            Some(f) if ctx.selected_has_text => EditorEffect::Insert(f, ch),
            _ => EditorEffect::Nothing,
        },
        _ => EditorEffect::Nothing,
    }
}

/// Labels of the editor's action row, in cells.
pub const SAVE_LABEL_WIDTH: u16 = 20;
pub const DELETE_LABEL_WIDTH: u16 = 18;
pub const CANCEL_LABEL_WIDTH: u16 = 14;
pub const ACTION_SEPARATOR_WIDTH: u16 = 3;
/// Rows between the last body row and the action row: a spacer, the
/// message and the hint.
pub const ACTION_ROW_OFFSET_AFTER_FIELDS: usize = 3;

/// The button of the action row under `mouse_col`, the row starting at
/// `x`: `[ Enter ] Save Entry | [ d ] Delete Entry | [ Esc ] Cancel`, the
/// delete button only when `include_delete`.
pub open spec fn spec_action_hit(x: int, mouse_col: int, include_delete: bool) -> Option<HostEditorField> {
    let save_end = sat_add_u16(x, SAVE_LABEL_WIDTH as int);
    let after_save = sat_add_u16(save_end, ACTION_SEPARATOR_WIDTH as int);
    let delete_end = sat_add_u16(after_save, DELETE_LABEL_WIDTH as int);
    let cancel_start = if include_delete { sat_add_u16(delete_end, ACTION_SEPARATOR_WIDTH as int) } else { after_save };
    if x <= mouse_col < save_end {
        Some(HostEditorField::Save)
    } else if include_delete && after_save <= mouse_col < delete_end {
        Some(HostEditorField::Delete)
    } else if cancel_start <= mouse_col < sat_add_u16(cancel_start, CANCEL_LABEL_WIDTH as int) {
        Some(HostEditorField::Cancel)
    } else {
        None
    }
}

/// The button of the editor's action row under `mouse_col`.
pub fn host_editor_action_hit(inner_x: u16, mouse_col: u16, include_delete: bool) -> (r: Option<HostEditorField>)
    ensures
        r == spec_action_hit(inner_x as int, mouse_col as int, include_delete),
{
    let mut col = inner_x;
    if mouse_col >= col && mouse_col < col.saturating_add(SAVE_LABEL_WIDTH) {
        return Some(HostEditorField::Save);
    }
    col = col.saturating_add(SAVE_LABEL_WIDTH).saturating_add(ACTION_SEPARATOR_WIDTH);
    if include_delete {
        if mouse_col >= col && mouse_col < col.saturating_add(DELETE_LABEL_WIDTH) {
            return Some(HostEditorField::Delete);
        }
        col = col.saturating_add(DELETE_LABEL_WIDTH).saturating_add(ACTION_SEPARATOR_WIDTH);
    }
    if mouse_col >= col && mouse_col < col.saturating_add(CANCEL_LABEL_WIDTH) {
        return Some(HostEditorField::Cancel);
    }
    None
}

/// The form's rows without the action buttons.
pub open spec fn spec_body_items(items: Seq<EditorItem>) -> Seq<EditorItem> {
    items.filter(|item: EditorItem| !(item matches EditorItem::Field(f) && spec_is_action(f)))
}

/// The rows of the form's body: its visible rows without the action buttons.
pub fn body_items(items: &Vec<EditorItem>) -> (r: Vec<EditorItem>)
    ensures
        r@ == spec_body_items(items@),
{
    let mut out: Vec<EditorItem> = Vec::new();
    let mut k: usize = 0;
    while k < items.len()
        invariant
            k <= items@.len(),
            out@ == spec_body_items(items@.subrange(0, k as int)),
        decreases items.len() - k,
    {
        let item = items[k];
        let keep = match item {
            EditorItem::Field(f) => !f.is_action(),
            EditorItem::SectionHeader(_) => true,
        };
        proof {
            assert(items@.subrange(0, k + 1).drop_last() =~= items@.subrange(0, k as int));
            assert(items@.subrange(0, k + 1).last() == item);
            assert(keep == !(item matches EditorItem::Field(f) && spec_is_action(f)));
            let ghost pred = |item: EditorItem| !(item matches EditorItem::Field(f) && spec_is_action(f));
            items@.subrange(0, k as int).lemma_filter_push(item, pred);
            assert(items@.subrange(0, k as int).push(item) =~= items@.subrange(0, k + 1));
            assert(items@.subrange(0, k + 1).filter(pred) == if keep {
                items@.subrange(0, k as int).filter(pred).push(item)
            } else {
                items@.subrange(0, k as int).filter(pred)
            });
        }
        if keep {
            out.push(item);
        }
        k += 1;
        assert(out@ =~= spec_body_items(items@.subrange(0, k as int)));
    }
    assert(items@.subrange(0, items@.len() as int) =~= items@);
    out
}

/// The first index, from `i` on, at which `items` holds `x`.
pub open spec fn index_from(items: Seq<EditorItem>, x: EditorItem, i: int) -> Option<int>
    decreases items.len() - i,
{
    if i < 0 || i >= items.len() {
        None
    } else if items[i] == x {
        Some(i)
    } else {
        index_from(items, x, i + 1)
    }
}

/// The line of the editor body that shows the selected row: the body rows
/// follow the file line and a spacer.
pub open spec fn spec_selected_body_row(items: Seq<EditorItem>, selected: EditorItem) -> Option<int> {
    match index_from(spec_body_items(items), selected, 0) {
        Some(i) => Some(if i + 2 > usize::MAX { usize::MAX as int } else { i + 2 }),
        None => None,
    }
}

/// The body line of the selected row, if it is a body row.
pub fn selected_body_row(items: &Vec<EditorItem>, selected: EditorItem) -> (r: Option<usize>)
    ensures
        match r {
            Some(n) => spec_selected_body_row(items@, selected) == Some(n as int),
            None => spec_selected_body_row(items@, selected) is None,
        },
{
    let body = body_items(items);
    let mut i: usize = 0;
    while i < body.len()
        invariant
            i <= body@.len(),
            body@ == spec_body_items(items@),
            index_from(body@, selected, 0) == index_from(body@, selected, i as int),
        decreases body.len() - i,
    {
        if body[i] == selected {
            return Some(i.saturating_add(2));
        }
        i += 1;
    }
    None
}

/// The row of the form under a click on body line `local_row` (counted
/// from the top of the inside of the tab): a body row, or a button of the
/// action row three lines below the last body row.
pub open spec fn spec_item_at_point(local_row: int, mouse_col: int, inner_x: int, items: Seq<EditorItem>, include_delete: bool) -> Option<EditorItem> {
    let body = spec_body_items(items);
    let action_row = if body.len() + ACTION_ROW_OFFSET_AFTER_FIELDS > usize::MAX {
        usize::MAX as int
    } else {
        body.len() + ACTION_ROW_OFFSET_AFTER_FIELDS
    };
    if local_row < 2 {
        None
    } else if local_row - 2 < body.len() {
        Some(body[local_row - 2])
    } else if local_row - 2 == action_row {
        match spec_action_hit(inner_x, mouse_col, include_delete) {
            Some(f) => Some(EditorItem::Field(f)),
            None => None,
        }
    } else {
        None
    }
}

/// The row of the form under a click.
pub fn host_editor_item_at_point(local_row: u16, mouse_col: u16, inner_x: u16, items: &Vec<EditorItem>, include_delete: bool) -> (r: Option<EditorItem>)
    ensures
        r == spec_item_at_point(local_row as int, mouse_col as int, inner_x as int, items@, include_delete),
{
    if local_row < 2 {
        return None;
    }
    let row_idx = (local_row - 2) as usize;
    let body = body_items(items);
    if row_idx < body.len() {
        return Some(body[row_idx]);
    }
    if row_idx == body.len().saturating_add(ACTION_ROW_OFFSET_AFTER_FIELDS) {
        return match host_editor_action_hit(inner_x, mouse_col, include_delete) {
            Some(f) => Some(EditorItem::Field(f)),
            None => None,
        };
    }
    None
}

/// The fields whose text a click places the cursor in.
pub open spec fn spec_text_editable(f: HostEditorField) -> bool {
    match f {
        HostEditorField::Name | HostEditorField::Description | HostEditorField::Host | HostEditorField::User
        | HostEditorField::Port | HostEditorField::Profile | HostEditorField::VaultPass | HostEditorField::IdentityFile
        | HostEditorField::ProxyJump | HostEditorField::ProxyCommand | HostEditorField::ForwardAgent
        | HostEditorField::LocalForward | HostEditorField::RemoteForward | HostEditorField::SshOptions
        | HostEditorField::RdpDomain | HostEditorField::RdpArgs => true,
        _ => false,
    }
}

/// The character offset, in `field`'s text, of a click at `mouse_col`: the
/// value starts two cells after the field's label of `label_width` cells,
/// and the text is scrolled by `scroll_offset` characters.
pub open spec fn spec_text_offset(field: HostEditorField, inner_x: int, label_width: int, scroll_offset: int, mouse_col: int) -> Option<int> {
    if !spec_text_editable(field) {
        None
    } else {
        let start_col = sat_add_u16(sat_add_u16(inner_x, label_width), 2);
        let offset = scroll_offset + sat_sub(mouse_col, start_col);
        Some(if offset > usize::MAX { usize::MAX as int } else { offset })
    }
}

/// Where in a text field a click falls.
pub fn host_editor_text_offset(field: HostEditorField, inner_x: u16, label_width: u16, scroll_offset: usize, mouse_col: u16) -> (r: Option<usize>)
    ensures
        match r {
            Some(n) => spec_text_offset(field, inner_x as int, label_width as int, scroll_offset as int, mouse_col as int) == Some(n as int),
            None => spec_text_offset(field, inner_x as int, label_width as int, scroll_offset as int, mouse_col as int) is None,
        },
{
    let editable = match field {
        HostEditorField::Name | HostEditorField::Description | HostEditorField::Host | HostEditorField::User
        | HostEditorField::Port | HostEditorField::Profile | HostEditorField::VaultPass | HostEditorField::IdentityFile
        | HostEditorField::ProxyJump | HostEditorField::ProxyCommand | HostEditorField::ForwardAgent
        | HostEditorField::LocalForward | HostEditorField::RemoteForward | HostEditorField::SshOptions
        | HostEditorField::RdpDomain | HostEditorField::RdpArgs => true,
        _ => false,
    };
    if !editable {
        return None;
    }
    let start_col = inner_x.saturating_add(label_width).saturating_add(2);
    Some(scroll_offset.saturating_add(mouse_col.saturating_sub(start_col) as usize))
}

/// A left click on the row `item` of the form (nothing when the click hit
/// no row); `text_offset` is where in the clicked field's text it fell.
/// The clicked row becomes the selected one.
pub open spec fn spec_click_effect(item: EditorItem, text_offset: Option<usize>) -> EditorEffect {
    match item {
        EditorItem::SectionHeader(s) => EditorEffect::ToggleSection(s),
        EditorItem::Field(f) => match f {
            HostEditorField::Save => EditorEffect::Submit,
            HostEditorField::Delete => EditorEffect::OpenDeleteConfirm,
            HostEditorField::Cancel => EditorEffect::Close,
            HostEditorField::IdentitiesOnly => EditorEffect::IdentitiesOnlyForward,
            HostEditorField::Protocol => EditorEffect::Nothing,
            HostEditorField::FolderPath => EditorEffect::OpenFolderPicker,
            _ => match text_offset {
                Some(o) => EditorEffect::BeginSelection(f, o),
                None => EditorEffect::Nothing,
            },
        },
    }
}

/// What a left click on a row of the form does, after the row is selected.
pub fn host_editor_click_effect(item: EditorItem, text_offset: Option<usize>) -> (e: EditorEffect)
    ensures
        e == spec_click_effect(item, text_offset),
{
    match item {
        EditorItem::SectionHeader(s) => EditorEffect::ToggleSection(s),
        EditorItem::Field(f) => match f {
            HostEditorField::Save => EditorEffect::Submit,
            HostEditorField::Delete => EditorEffect::OpenDeleteConfirm,
            HostEditorField::Cancel => EditorEffect::Close,
            HostEditorField::IdentitiesOnly => EditorEffect::IdentitiesOnlyForward,
            HostEditorField::Protocol => EditorEffect::Nothing,
            HostEditorField::FolderPath => EditorEffect::OpenFolderPicker,
            _ => match text_offset {
                Some(o) => EditorEffect::BeginSelection(f, o),
                None => EditorEffect::Nothing,
            },
        },
    }
}

/// What a mouse event on the host editor tab asks for.
#[derive(Clone, Copy, Debug, PartialEq, Eq)]
pub enum EditorMouseAction {
    Nothing,
    /// End any mouse selection in the form (a press outside the form).
    EndSelection,
    /// A left click at this line (from the top of the inside) and column.
    Click(u16, u16),
    /// Extend the mouse selection to this column.
    Drag(u16),
    /// Extend the mouse selection to this column and end it.
    Release(u16),
}

/// What a mouse event does on the host editor tab drawn in `area`, with
/// `inner` inside its border.
pub open spec fn spec_editor_mouse(area: Rect, inner: Rect, ev: MouseInput) -> EditorMouseAction {
    match ev.kind {
        MouseEventKind::Down(MouseButton::Left) => if !spec_point_in_rect(area, ev.column as int, ev.row as int)
            || !spec_point_in_rect(inner, ev.column as int, ev.row as int) {
            EditorMouseAction::EndSelection
        } else {
            EditorMouseAction::Click(sat_sub(ev.row as int, inner.y as int) as u16, ev.column)
        },
        MouseEventKind::Drag(MouseButton::Left) => EditorMouseAction::Drag(ev.column),
        MouseEventKind::Up(MouseButton::Left) => EditorMouseAction::Release(ev.column),
        _ => EditorMouseAction::Nothing,
    }
}

/// What a mouse event does on the host editor tab.
pub fn handle_host_editor_mouse(area: Rect, inner: Rect, ev: MouseInput) -> (a: EditorMouseAction)
    ensures
        a == spec_editor_mouse(area, inner, ev),
{
    match ev.kind {
        MouseEventKind::Down(MouseButton::Left) => {
            if !point_in_rect(area, ev.column, ev.row) || !point_in_rect(inner, ev.column, ev.row) {
                EditorMouseAction::EndSelection
            } else {
                EditorMouseAction::Click(ev.row.saturating_sub(inner.y), ev.column)
            }
        },
        MouseEventKind::Drag(MouseButton::Left) => EditorMouseAction::Drag(ev.column),
        MouseEventKind::Up(MouseButton::Left) => EditorMouseAction::Release(ev.column),
        _ => EditorMouseAction::Nothing,
    }
}

/// An entry of the host panel's context menu.
#[derive(Clone, Copy, Debug, PartialEq, Eq, Structural)]
pub enum HostContextMenuAction {
    Connect,
    EditEntry,
    DuplicateEntry,
    MoveToFolder,
    DeleteEntry,
    NewEntryInFolder,
    NewFolder,
    RenameFolder,
    DeleteFolder,
}

/// What a key or click on the context menu does.
#[derive(Clone, Copy, Debug, PartialEq, Eq)]
pub enum MenuEffect {
    Nothing,
    Close,
    SelectNext,
    SelectPrev,
    /// Close the menu and carry out this entry.
    Run(HostContextMenuAction),
    /// Select the entry on this row, then close the menu and carry it out.
    SelectAndRun(usize, HostContextMenuAction),
}

/// The menu offers `a`.
pub open spec fn offers(actions: Seq<HostContextMenuAction>, a: HostContextMenuAction) -> bool {
    actions.contains(a)
}

/// A key on the context menu with entries `actions`, `selected` being the
/// highlighted row: Esc closes, Tab/Down and BackTab/Up move, Enter runs
/// the highlighted entry, and each entry the menu offers has a shortcut.
pub open spec fn spec_menu_key(actions: Seq<HostContextMenuAction>, selected: int, key: KeyInput) -> MenuEffect {
    let m = key.modifiers;
    let plain = !m.shift && !m.control && !m.alt && !m.super_key && !m.hyper && !m.meta;
    let ctrl = m.control;
    match key.code {
        KeyCode::Esc => MenuEffect::Close,
        KeyCode::Tab | KeyCode::Down => MenuEffect::SelectNext,
        KeyCode::BackTab | KeyCode::Up => MenuEffect::SelectPrev,
        KeyCode::Enter => if 0 <= selected < actions.len() { MenuEffect::Run(actions[selected]) } else { MenuEffect::Nothing },
        KeyCode::Char('c') if plain && offers(actions, HostContextMenuAction::Connect) => MenuEffect::Run(HostContextMenuAction::Connect),
        KeyCode::Char('d') if ctrl && offers(actions, HostContextMenuAction::DeleteEntry) => MenuEffect::Run(HostContextMenuAction::DeleteEntry),
        KeyCode::Char('d') if ctrl && offers(actions, HostContextMenuAction::DeleteFolder) => MenuEffect::Run(HostContextMenuAction::DeleteFolder),
        KeyCode::Char('e') if plain && offers(actions, HostContextMenuAction::EditEntry) => MenuEffect::Run(HostContextMenuAction::EditEntry),
        KeyCode::Char('c') if ctrl && offers(actions, HostContextMenuAction::DuplicateEntry) => MenuEffect::Run(HostContextMenuAction::DuplicateEntry),
        KeyCode::Char('u') if plain && offers(actions, HostContextMenuAction::DuplicateEntry) => MenuEffect::Run(HostContextMenuAction::DuplicateEntry),
        KeyCode::Char('x') if ctrl && offers(actions, HostContextMenuAction::MoveToFolder) => MenuEffect::Run(HostContextMenuAction::MoveToFolder),
        KeyCode::Char('m') if plain && offers(actions, HostContextMenuAction::MoveToFolder) => MenuEffect::Run(HostContextMenuAction::MoveToFolder),
        KeyCode::Char('n') if plain && offers(actions, HostContextMenuAction::NewEntryInFolder) => MenuEffect::Run(HostContextMenuAction::NewEntryInFolder),
        KeyCode::Char('n') if ctrl && offers(actions, HostContextMenuAction::NewFolder) => MenuEffect::Run(HostContextMenuAction::NewFolder),
        KeyCode::Char('r') if ctrl && offers(actions, HostContextMenuAction::RenameFolder) => MenuEffect::Run(HostContextMenuAction::RenameFolder),
        _ => MenuEffect::Nothing,
    }
}

/// Whether `actions` holds `a`.
pub fn has_action(actions: &Vec<HostContextMenuAction>, a: HostContextMenuAction) -> (r: bool)
    ensures
        r == offers(actions@, a),
{
    let mut i: usize = 0;
    while i < actions.len()
        invariant
            i <= actions@.len(),
            forall|j: int| 0 <= j < i ==> actions@[j] != a,
        decreases actions.len() - i,
    {
        if actions[i] == a {
            assert(actions@[i as int] == a);
            return true;
        }
        i += 1;
    }
    false
}

/// A key on the host panel's context menu.
pub fn handle_host_context_menu_key(actions: &Vec<HostContextMenuAction>, selected: usize, key: KeyInput) -> (e: MenuEffect)
    ensures
        e == spec_menu_key(actions@, selected as int, key),
{
    let plain = key.modifiers.is_empty();
    let ctrl = key.modifiers.control;
    match key.code {
        KeyCode::Esc => MenuEffect::Close,
        KeyCode::Tab | KeyCode::Down => MenuEffect::SelectNext,
        KeyCode::BackTab | KeyCode::Up => MenuEffect::SelectPrev,
        KeyCode::Enter => if selected < actions.len() { MenuEffect::Run(actions[selected]) } else { MenuEffect::Nothing },
        KeyCode::Char(c) => {
            if c == 'c' && plain && has_action(actions, HostContextMenuAction::Connect) {
                MenuEffect::Run(HostContextMenuAction::Connect)
            } else if c == 'd' && ctrl && has_action(actions, HostContextMenuAction::DeleteEntry) {
                MenuEffect::Run(HostContextMenuAction::DeleteEntry)
            } else if c == 'd' && ctrl && has_action(actions, HostContextMenuAction::DeleteFolder) {
                MenuEffect::Run(HostContextMenuAction::DeleteFolder)
            } else if c == 'e' && plain && has_action(actions, HostContextMenuAction::EditEntry) {
                MenuEffect::Run(HostContextMenuAction::EditEntry)
            } else if c == 'c' && ctrl && has_action(actions, HostContextMenuAction::DuplicateEntry) {
                MenuEffect::Run(HostContextMenuAction::DuplicateEntry)
            } else if c == 'u' && plain && has_action(actions, HostContextMenuAction::DuplicateEntry) {
                MenuEffect::Run(HostContextMenuAction::DuplicateEntry)
            } else if c == 'x' && ctrl && has_action(actions, HostContextMenuAction::MoveToFolder) {
                MenuEffect::Run(HostContextMenuAction::MoveToFolder)
            } else if c == 'm' && plain && has_action(actions, HostContextMenuAction::MoveToFolder) {
                MenuEffect::Run(HostContextMenuAction::MoveToFolder)
            } else if c == 'n' && plain && has_action(actions, HostContextMenuAction::NewEntryInFolder) {
                MenuEffect::Run(HostContextMenuAction::NewEntryInFolder)
            } else if c == 'n' && ctrl && has_action(actions, HostContextMenuAction::NewFolder) {
                MenuEffect::Run(HostContextMenuAction::NewFolder)
            } else if c == 'r' && ctrl && has_action(actions, HostContextMenuAction::RenameFolder) {
                MenuEffect::Run(HostContextMenuAction::RenameFolder)
            } else {
                MenuEffect::Nothing
            }
        },
        _ => MenuEffect::Nothing,
    }
}

/// Where the context menu is drawn on a `term_width` x `term_height`
/// screen: a bordered box wide enough for its widest label (of
/// `label_width` cells, at least ten inside), one line per entry, placed
/// at the clicked cell and pushed back on screen. `None` on an empty screen.
pub open spec fn spec_menu_layout(term_width: int, term_height: int, label_width: int, action_count: int, column: int, row: int) -> Option<(Rect, Rect)> {
    if term_width == 0 || term_height == 0 {
        None
    } else {
        let lw = if label_width >= 1 { label_width } else { 1 };
        let inside = if lw + 2 >= 10 { lw + 2 } else { 10 };
        let w = min_int(sat_add_u16(inside, 2), term_width);
        let h = min_int(sat_add_u16(if action_count >= 1 { action_count } else { 1 }, 2), term_height);
        let x = min_int(column, term_width - w);
        let y = min_int(row, term_height - h);
        Some((
            Rect { x: x as u16, y: y as u16, width: w as u16, height: h as u16 },
            Rect { x: sat_add_u16(x, 1) as u16, y: sat_add_u16(y, 1) as u16, width: sat_sub(w, 2) as u16, height: sat_sub(h, 2) as u16 },
        ))
    }
}

/// The context menu's box and the inside of its border.
pub fn host_context_menu_layout(term_width: u16, term_height: u16, label_width: u16, action_count: u16, column: u16, row: u16) -> (r: Option<(Rect, Rect)>)
    requires
        label_width <= u16::MAX - 2,
    ensures
        r == spec_menu_layout(term_width as int, term_height as int, label_width as int, action_count as int, column as int, row as int),
{
    if term_width == 0 || term_height == 0 {
        return None;
    }
    let lw = if label_width >= 1 { label_width } else { 1 };
    let inside = if lw + 2 >= 10 { lw + 2 } else { 10 };
    let wide = inside.saturating_add(2);
    let menu_width = if wide < term_width { wide } else { term_width };
    let count = if action_count >= 1 { action_count } else { 1 };
    let tall = count.saturating_add(2);
    let menu_height = if tall < term_height { tall } else { term_height };
    let max_x = term_width - menu_width;
    let max_y = term_height - menu_height;
    let menu_x = if column < max_x { column } else { max_x };
    let menu_y = if row < max_y { row } else { max_y };
    let area = Rect::new(menu_x, menu_y, menu_width, menu_height);
    Some((area, modal_inner_rect(area)))
}

/// A mouse event on the open context menu drawn in `area` (`inner` inside
/// its border) with `action_count` entries: a left press off the menu or a
/// right press closes it, a left press on an entry's line runs it.
pub open spec fn spec_menu_mouse(area: Rect, inner: Rect, actions: Seq<HostContextMenuAction>, ev: MouseInput) -> MenuEffect {
    match ev.kind {
        MouseEventKind::Down(MouseButton::Left) => if !spec_point_in_rect(area, ev.column as int, ev.row as int) {
            MenuEffect::Close
        } else if !spec_point_in_rect(inner, ev.column as int, ev.row as int) {
            MenuEffect::Nothing
        } else {
            let line = ev.row - inner.y;
            if line < actions.len() {
                MenuEffect::SelectAndRun(line as usize, actions[line])
            } else {
                MenuEffect::Nothing
            }
        },
        MouseEventKind::Down(MouseButton::Right) => MenuEffect::Close,
        _ => MenuEffect::Nothing,
    }
}

/// A mouse event on the open context menu.
pub fn handle_host_context_menu_mouse(area: Rect, inner: Rect, actions: &Vec<HostContextMenuAction>, ev: MouseInput) -> (e: MenuEffect)
    ensures
        e == spec_menu_mouse(area, inner, actions@, ev),
{
    match ev.kind {
        MouseEventKind::Down(MouseButton::Left) => {
            if !point_in_rect(area, ev.column, ev.row) {
                return MenuEffect::Close;
            }
            if !point_in_rect(inner, ev.column, ev.row) {
                return MenuEffect::Nothing;
            }
            let line = (ev.row - inner.y) as usize;
            if line < actions.len() {
                MenuEffect::SelectAndRun(line, actions[line])
            } else {
                MenuEffect::Nothing
            }
        },
        MouseEventKind::Down(MouseButton::Right) => MenuEffect::Close,
        _ => MenuEffect::Nothing,
    }
}

/// What the context menu was opened on.
#[derive(Clone, Copy, Debug, PartialEq, Eq)]
pub enum ContextMenuTarget {
    /// The host with this index.
    Host(usize),
    /// The folder with this id.
    Folder(usize),
    /// The empty part of the panel.
    Background,
}

/// An operation on the host inventory that a context-menu entry starts.
#[derive(Clone, Copy, Debug, PartialEq, Eq)]
pub enum MenuOperation {
    EditHost(usize),
    DuplicateHost(usize),
    MoveHost(usize),
    ConfirmDeleteHost(usize),
    /// Select the host's row and connect to it.
    ConnectHost(usize),
    NewEntryInFolder(usize),
    NewEntryAtRoot,
    /// A new entry in the folder of this host.
    NewEntryBesideHost(usize),
    NewFolderIn(usize),
    NewFolderAtRoot,
    /// A new folder in the folder of this host.
    NewFolderBesideHost(usize),
    RenameFolder(usize),
    ConfirmDeleteFolder(usize),
}

/// The operation that the entry `action` starts on `target`; entries for
/// hosts do nothing on folders and the other way round.
pub open spec fn spec_menu_operation(action: HostContextMenuAction, target: ContextMenuTarget) -> Option<MenuOperation> {
    match (action, target) {
        (HostContextMenuAction::EditEntry, ContextMenuTarget::Host(h)) => Some(MenuOperation::EditHost(h)),
        (HostContextMenuAction::DuplicateEntry, ContextMenuTarget::Host(h)) => Some(MenuOperation::DuplicateHost(h)),
        (HostContextMenuAction::MoveToFolder, ContextMenuTarget::Host(h)) => Some(MenuOperation::MoveHost(h)),
        (HostContextMenuAction::DeleteEntry, ContextMenuTarget::Host(h)) => Some(MenuOperation::ConfirmDeleteHost(h)),
        (HostContextMenuAction::Connect, ContextMenuTarget::Host(h)) => Some(MenuOperation::ConnectHost(h)),
        (HostContextMenuAction::NewEntryInFolder, ContextMenuTarget::Folder(f)) => Some(MenuOperation::NewEntryInFolder(f)),
        (HostContextMenuAction::NewEntryInFolder, ContextMenuTarget::Background) => Some(MenuOperation::NewEntryAtRoot),
        (HostContextMenuAction::NewEntryInFolder, ContextMenuTarget::Host(h)) => Some(MenuOperation::NewEntryBesideHost(h)),
        (HostContextMenuAction::NewFolder, ContextMenuTarget::Folder(f)) => Some(MenuOperation::NewFolderIn(f)),
        (HostContextMenuAction::NewFolder, ContextMenuTarget::Background) => Some(MenuOperation::NewFolderAtRoot),
        (HostContextMenuAction::NewFolder, ContextMenuTarget::Host(h)) => Some(MenuOperation::NewFolderBesideHost(h)),
        (HostContextMenuAction::RenameFolder, ContextMenuTarget::Folder(f)) => Some(MenuOperation::RenameFolder(f)),
        (HostContextMenuAction::DeleteFolder, ContextMenuTarget::Folder(f)) => Some(MenuOperation::ConfirmDeleteFolder(f)),
        _ => None,
    }
}

/// The operation that a context-menu entry starts; the menu closes either way.
pub fn execute_host_context_menu_action(action: HostContextMenuAction, target: ContextMenuTarget) -> (r: Option<MenuOperation>)
    ensures
        r == spec_menu_operation(action, target),
{
    match (action, target) {
        (HostContextMenuAction::EditEntry, ContextMenuTarget::Host(h)) => Some(MenuOperation::EditHost(h)),
        (HostContextMenuAction::DuplicateEntry, ContextMenuTarget::Host(h)) => Some(MenuOperation::DuplicateHost(h)),
        (HostContextMenuAction::MoveToFolder, ContextMenuTarget::Host(h)) => Some(MenuOperation::MoveHost(h)),
        (HostContextMenuAction::DeleteEntry, ContextMenuTarget::Host(h)) => Some(MenuOperation::ConfirmDeleteHost(h)),
        (HostContextMenuAction::Connect, ContextMenuTarget::Host(h)) => Some(MenuOperation::ConnectHost(h)),
        (HostContextMenuAction::NewEntryInFolder, ContextMenuTarget::Folder(f)) => Some(MenuOperation::NewEntryInFolder(f)),
        (HostContextMenuAction::NewEntryInFolder, ContextMenuTarget::Background) => Some(MenuOperation::NewEntryAtRoot),
        (HostContextMenuAction::NewEntryInFolder, ContextMenuTarget::Host(h)) => Some(MenuOperation::NewEntryBesideHost(h)),
        (HostContextMenuAction::NewFolder, ContextMenuTarget::Folder(f)) => Some(MenuOperation::NewFolderIn(f)),
        (HostContextMenuAction::NewFolder, ContextMenuTarget::Background) => Some(MenuOperation::NewFolderAtRoot),
        (HostContextMenuAction::NewFolder, ContextMenuTarget::Host(h)) => Some(MenuOperation::NewFolderBesideHost(h)),
        (HostContextMenuAction::RenameFolder, ContextMenuTarget::Folder(f)) => Some(MenuOperation::RenameFolder(f)),
        (HostContextMenuAction::DeleteFolder, ContextMenuTarget::Folder(f)) => Some(MenuOperation::ConfirmDeleteFolder(f)),
        _ => None,
    }
}

/// The name a delete confirmation asks about: the entry's name trimmed, or
/// nothing (no confirmation) when that is blank.
pub fn delete_confirm_target(host_name: &str) -> (r: Option<String>)
    ensures
        match r {
            Some(t) => trim(host_name@).len() > 0 && t@ == trim(host_name@),
            None => trim(host_name@).len() == 0,
        },
{
    let t = trim_text(host_name);
    if char_len(t.as_str()) == 0 {
        None
    } else {
        Some(t)
    }
}

/// The name of the entry that the editor's delete button refers to: the
/// name it was opened with, else its name field trimmed, else `entry`.
pub open spec fn spec_editor_delete_name(original_name: Option<Seq<char>>, name_field: Seq<char>) -> Seq<char> {
    match original_name {
        Some(o) => o,
        None => if trim(name_field).len() > 0 { trim(name_field) } else { "entry"@ },
    }
}

/// The name of the entry that the editor's delete button refers to.
pub fn editor_delete_name(original_name: Option<&str>, name_field: &str) -> (r: String)
    ensures
        r@ == spec_editor_delete_name(
            match original_name { Some(o) => Some(o@), None => None },
            name_field@,
        ),
{
    match original_name {
        Some(o) => o.to_owned(),
        None => {
            let t = trim_text(name_field);
            if char_len(t.as_str()) > 0 {
                t
            } else {
                "entry".to_owned()
            }
        },
    }
}

/// Another entry already has the name `candidate`: an entry named so that
/// is not the one being edited (named `original`, if any).
pub open spec fn spec_name_taken(names: Seq<Seq<char>>, candidate: Seq<char>, original: Option<Seq<char>>) -> bool {
    exists|i: int| 0 <= i < names.len() && #[trigger] names[i] == candidate && match original {
        Some(o) => names[i] != o,
        None => true,
    }
}

/// Whether another entry already has the name `candidate`.
pub fn host_name_exists(names: &Vec<String>, candidate: &str, original: Option<&str>) -> (r: bool)
    ensures
        r == spec_name_taken(
            names@.map_values(|s: String| s@),
            candidate@,
            match original { Some(o) => Some(o@), None => None },
        ),
{
    let ghost views = names@.map_values(|s: String| s@);
    let ghost orig = match original { Some(o) => Some(o@), None => None };
    let mut i: usize = 0;
    while i < names.len()
        invariant
            i <= names@.len(),
            views == names@.map_values(|s: String| s@),
            orig == match original { Some(o) => Some(o@), None => None::<Seq<char>> },
            forall|j: int| 0 <= j < i ==> !(#[trigger] views[j] == candidate@ && match orig {
                Some(o) => views[j] != o,
                None => true,
            }),
        decreases names.len() - i,
    {
        let taken = text_equal(names[i].as_str(), candidate) && match original {
            Some(o) => !text_equal(names[i].as_str(), o),
            None => true,
        };
        assert(views[i as int] == names@[i as int]@);
        if taken {
            return true;
        }
        i += 1;
    }
    false
}

/// The host editor fills its tab's content area, with a one-cell border
/// around its inner area; nothing where that area is empty.
pub fn host_editor_tab_layout(tab_content_area: Rect) -> (r: Option<(Rect, Rect)>)
    ensures
        tab_content_area.width == 0 || tab_content_area.height == 0 ==> r is None,
        tab_content_area.width > 0 && tab_content_area.height > 0 ==> r == Some((tab_content_area, Rect {
            x: sat_add_u16(tab_content_area.x as int, 1) as u16,
            y: sat_add_u16(tab_content_area.y as int, 1) as u16,
            width: sat_sub(tab_content_area.width as int, 2) as u16,
            height: sat_sub(tab_content_area.height as int, 2) as u16,
        })),
{
    if tab_content_area.width == 0 || tab_content_area.height == 0 {
        return None;
    }
    Some((tab_content_area, modal_inner_rect(tab_content_area)))
}

/// Columns left for a field's value after its label, `: ` and the border.
pub open spec fn spec_value_column_width(inner_width: u16, label_width: u16) -> int {
    sat_sub(sat_sub(inner_width as int, label_width as int), 2)
}

/// Columns left for a field's value on its line.
pub fn value_column_width(inner_width: u16, label_width: u16) -> (w: u16)
    ensures
        w == spec_value_column_width(inner_width, label_width),
{
    inner_width.saturating_sub(label_width).saturating_sub(2)
}

/// The part of the selected field's value that is shown, scrolled right by
/// `scroll` characters and at most `limit` wide, with the cursor and the
/// selection moved into it and clipped to it.
pub open spec fn spec_value_window(value: Seq<char>, scroll: int, limit: int, cursor: int, selection: Selection) -> (Seq<char>, int, Option<(int, int)>) {
    let n = value.len() as int;
    let start = if scroll < n { scroll } else { n };
    let end = if scroll + limit < n { scroll + limit } else { n };
    let shown = value.subrange(start, end);
    let len = shown.len() as int;
    let clip = |p: int| if sat_sub(p, scroll) < len { sat_sub(p, scroll) } else { len };
    (
        shown,
        clip(cursor),
        match selection {
            Some((a, b)) => Some((clip(a as int), clip(b as int))),
            None => None,
        },
    )
}

/// The shown part of the selected field's value, with its cursor and
/// selection.
pub fn value_window(value: &str, scroll: usize, limit: u16, cursor: usize, selection: Selection) -> (r: (String, usize, Selection))
    ensures
        ({
            let w = spec_value_window(value@, scroll as int, limit as int, cursor as int, selection);
            &&& r.0@ == w.0
            &&& r.1 == w.1
            &&& match r.2 {
                Some((a, b)) => w.2 == Some((a as int, b as int)),
                None => w.2 is None,
            }
        }),
{
    let chars = chars_of(value);
    let n = chars.len();
    let start = if scroll < n { scroll } else { n };
    let end = if (limit as usize) < n && scroll < n - limit as usize { scroll + limit as usize } else { n };
    let shown = string_from_char_range(&chars, start, end);
    let len = end - start;
    let c = if cursor.saturating_sub(scroll) < len { cursor.saturating_sub(scroll) } else { len };
    let sel = match selection {
        Some((a, b)) => {
            let a2 = if a.saturating_sub(scroll) < len { a.saturating_sub(scroll) } else { len };
            let b2 = if b.saturating_sub(scroll) < len { b.saturating_sub(scroll) } else { len };
            Some((a2, b2))
        },
        None => None,
    };
    (shown, c, sel)
}

/// What a field that is not selected shows: its value, or when it is empty
/// the field's example (as a placeholder), or nothing.
pub open spec fn spec_unselected_value(value: Seq<char>, example: Option<Seq<char>>) -> (Seq<char>, ValueTone) {
    if value.len() == 0 {
        match example {
            Some(e) => (e, ValueTone::Placeholder),
            None => (seq![], ValueTone::Normal),
        }
    } else {
        (value, ValueTone::Normal)
    }
}

/// The value shown by a field that is not selected.
pub fn unselected_value(value: &str, example: Option<&str>) -> (r: (String, ValueTone))
    ensures
        (r.0@, r.1) == spec_unselected_value(value@, match example { Some(e) => Some(e@), None => None }),
{
    if char_len(value) == 0 {
        match example {
            Some(e) => (e.to_owned(), ValueTone::Placeholder),
            None => {
                let s = String::new();
                (s, ValueTone::Normal)
            },
        }
    } else {
        (value.to_owned(), ValueTone::Normal)
    }
}

/// The editor's last line: its error when there is one, otherwise the help
/// on list and map fields (for an edited entry, that unknown keys are kept).
pub open spec fn spec_editor_message(error: Option<Seq<char>>, creating: bool) -> (bool, Seq<char>) {
    match error {
        Some(e) => (true, e),
        None => (false, if creating {
            "List/map fields accept YAML-compatible input (for example [\"a\", \"b\"] or {Opt: [\"v\"]})."@
        } else {
            "List/map fields accept YAML-compatible input; unknown custom keys are preserved on save."@
        }),
    }
}

/// The editor's message line; the flag says whether it is an error.
pub fn editor_message_line(error: Option<&str>, creating: bool) -> (r: (bool, String))
    ensures
        (r.0, r.1@) == spec_editor_message(match error { Some(e) => Some(e@), None => None }, creating),
{
    match error {
        Some(e) => (true, e.to_owned()),
        None => (false, if creating {
            "List/map fields accept YAML-compatible input (for example [\"a\", \"b\"] or {Opt: [\"v\"]}).".to_owned()
        } else {
            "List/map fields accept YAML-compatible input; unknown custom keys are preserved on save.".to_owned()
        }),
    }
}

} // verus!
