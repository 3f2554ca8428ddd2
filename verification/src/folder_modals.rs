//! The folder modals of the host panel: the folder picker, the dialogs
//! that create or rename a folder, and the delete confirmation. Where they
//! are drawn, what keys and clicks do, and how a folder name is edited.
use vstd::prelude::*;
use crate::key_encoding::{KeyCode, KeyInput};
use crate::layout::{Rect, sat_sub, sat_add_u16, min_int, spec_point_in_rect, point_in_rect, modal_inner_rect, spec_folder_picker_scroll_offset, folder_picker_scroll_offset};
use crate::mouse_routing::{MouseButton, MouseEventKind, MouseInput};
use crate::text_edit::{Selection, edit_query_key, spec_query_edit, char_len, clamp_cursor, normalized_selection, spec_normalized_selection, min_nat};
use crate::vault_modal::{clamp_u16, spec_centered_rect, centered_rect, inner_of};

verus! {

/// The whole screen.
pub open spec fn screen(w: u16, h: u16) -> Rect {
    Rect { x: 0, y: 0, width: w, height: h }
}

/// The folder picker's box on a `term_width` x `term_height` screen, for
/// `row_count` folders: 50 to 92 cells wide, a list of 4 rows up to 8 less
/// than the screen's height, and four more lines. `None` on an empty screen.
pub open spec fn spec_picker_layout(term_width: u16, term_height: u16, row_count: u16) -> Option<(Rect, Rect)> {
    if term_width == 0 || term_height == 0 {
        None
    } else {
        let max_list = if sat_sub(term_height as int, 8) >= 4 { sat_sub(term_height as int, 8) } else { 4 };
        let list = clamp_u16(row_count as int, 4, max_list);
        let height = min_int(sat_add_u16(list, 4), term_height as int);
        let area = spec_centered_rect(clamp_u16(term_width as int, 50, 92), height, screen(term_width, term_height));
        Some((area, inner_of(area)))
    }
}

/// The folder picker's box and its inside.
pub fn folder_picker_modal_layout(term_width: u16, term_height: u16, row_count: u16) -> (r: Option<(Rect, Rect)>)
    ensures
        r == spec_picker_layout(term_width, term_height, row_count),
{
    if term_width == 0 || term_height == 0 {
        return None;
    }
    let width = if term_width < 50 { 50 } else if term_width > 92 { 92 } else { term_width };
    let reduced = term_height.saturating_sub(8);
    let max_list = if reduced >= 4 { reduced } else { 4 };
    let list = if row_count < 4 { 4 } else if row_count > max_list { max_list } else { row_count };
    let tall = list.saturating_add(4);
    let height = if tall < term_height { tall } else { term_height };
    let area = centered_rect(width, height, Rect::new(0, 0, term_width, term_height));
    Some((area, modal_inner_rect(area)))
}

/// A dialog `min_width` to `max_width` cells wide and `height` lines high,
/// centred on the screen. `None` on an empty screen.
pub open spec fn spec_dialog_layout(term_width: u16, term_height: u16, min_width: u16, max_width: u16, height: u16) -> Option<(Rect, Rect)> {
    if term_width == 0 || term_height == 0 {
        None
    } else {
        let area = spec_centered_rect(
            clamp_u16(term_width as int, min_width as int, max_width as int),
            min_int(height as int, term_height as int),
            screen(term_width, term_height),
        );
        Some((area, inner_of(area)))
    }
}

fn dialog_layout(term_width: u16, term_height: u16, min_width: u16, max_width: u16, height: u16) -> (r: Option<(Rect, Rect)>)
    requires
        min_width <= max_width,
    ensures
        r == spec_dialog_layout(term_width, term_height, min_width, max_width, height),
{
    if term_width == 0 || term_height == 0 {
        return None;
    }
    let width = if term_width < min_width { min_width } else if term_width > max_width { max_width } else { term_width };
    let h = if height < term_height { height } else { term_height };
    let area = centered_rect(width, h, Rect::new(0, 0, term_width, term_height));
    Some((area, modal_inner_rect(area)))
}

/// The rename dialog: 56 to 88 cells wide, 8 lines high.
pub fn folder_rename_modal_layout(term_width: u16, term_height: u16) -> (r: Option<(Rect, Rect)>)
    ensures
        r == spec_dialog_layout(term_width, term_height, 56, 88, 8),
{
    dialog_layout(term_width, term_height, 56, 88, 8)
}

/// The create dialog: 46 to 76 cells wide, 6 lines high.
pub fn folder_create_modal_layout(term_width: u16, term_height: u16) -> (r: Option<(Rect, Rect)>)
    ensures
        r == spec_dialog_layout(term_width, term_height, 46, 76, 6),
{
    dialog_layout(term_width, term_height, 46, 76, 6)
}

/// The delete confirmation: 46 to 80 cells wide, 6 lines high.
pub fn folder_delete_confirm_modal_layout(term_width: u16, term_height: u16) -> (r: Option<(Rect, Rect)>)
    ensures
        r == spec_dialog_layout(term_width, term_height, 46, 80, 6),
{
    dialog_layout(term_width, term_height, 46, 80, 6)
}

/// What a key or click on the folder picker does.
#[derive(Clone, Copy, Debug, PartialEq, Eq)]
pub enum PickerEffect {
    Nothing,
    /// Close the picker (returning to the dialog it was opened from).
    Cancel,
    /// Take the highlighted folder.
    Submit,
    SelectNext,
    SelectPrev,
    /// Highlight the folder on this row of the list.
    Select(usize),
}

/// A key on the folder picker: Esc cancels, Enter takes the highlighted
/// folder, Tab/Down and BackTab/Up move.
pub open spec fn spec_picker_key(key: KeyInput) -> PickerEffect {
    match key.code {
        KeyCode::Esc => PickerEffect::Cancel,
        KeyCode::Tab | KeyCode::Down => PickerEffect::SelectNext,
        KeyCode::BackTab | KeyCode::Up => PickerEffect::SelectPrev,
        KeyCode::Enter => PickerEffect::Submit,
        _ => PickerEffect::Nothing,
    }
}

/// A key on the folder picker.
pub fn handle_folder_picker_key(key: KeyInput) -> (e: PickerEffect)
    ensures
        e == spec_picker_key(key),
{
    match key.code {
        KeyCode::Esc => PickerEffect::Cancel,
        KeyCode::Tab | KeyCode::Down => PickerEffect::SelectNext,
        KeyCode::BackTab | KeyCode::Up => PickerEffect::SelectPrev,
        KeyCode::Enter => PickerEffect::Submit,
        _ => PickerEffect::Nothing,
    }
}

/// Widths of the action labels, in cells.
pub const SELECT_LABEL_WIDTH: u16 = 16;
pub const SAVE_LABEL_WIDTH: u16 = 14;
pub const CANCEL_LABEL_WIDTH: u16 = 14;
pub const SEPARATOR_WIDTH: u16 = 3;

/// Which of two action buttons, `[ first ] | [ Esc ] Cancel` starting at
/// `x`, is under `col`: `Some(true)` for the first, `Some(false)` for cancel.
pub open spec fn spec_two_button_hit(x: int, first_width: int, col: int) -> Option<bool> {
    let first_end = sat_add_u16(x, first_width);
    let cancel_start = sat_add_u16(first_end, SEPARATOR_WIDTH as int);
    if x <= col < first_end {
        Some(true)
    } else if cancel_start <= col < sat_add_u16(cancel_start, CANCEL_LABEL_WIDTH as int) {
        Some(false)
    } else {
        None
    }
}

fn two_button_hit(x: u16, first_width: u16, col: u16) -> (r: Option<bool>)
    ensures
        r == spec_two_button_hit(x as int, first_width as int, col as int),
{
    let first_end = x.saturating_add(first_width);
    if col >= x && col < first_end {
        return Some(true);
    }
    let cancel_start = first_end.saturating_add(SEPARATOR_WIDTH);
    if col >= cancel_start && col < cancel_start.saturating_add(CANCEL_LABEL_WIDTH) {
        Some(false)
    } else {
        None
    }
}

/// A mouse event on the folder picker drawn in `area` (inside `inner`),
/// whose highlighted row is `selected` of `total`: a press off it cancels;
/// on its bottom line, the buttons select or cancel; on the list (below the
/// first inner line) it highlights the row under it; the wheel moves.
pub open spec fn spec_picker_mouse(area: Rect, inner: Rect, ev: MouseInput, selected: usize, total: usize) -> PickerEffect {
    match ev.kind {
        MouseEventKind::Down(MouseButton::Left) => {
            let action_row = sat_add_u16(inner.y as int, sat_sub(inner.height as int, 1));
            let list_height = sat_sub(inner.height as int, 2);
            if !spec_point_in_rect(area, ev.column as int, ev.row as int) {
                PickerEffect::Cancel
            } else if !spec_point_in_rect(inner, ev.column as int, ev.row as int) {
                PickerEffect::Nothing
            } else if ev.row == action_row {
                match spec_two_button_hit(inner.x as int, SELECT_LABEL_WIDTH as int, ev.column as int) {
                    Some(true) => PickerEffect::Submit,
                    Some(false) => PickerEffect::Cancel,
                    None => PickerEffect::Nothing,
                }
            } else if ev.row <= inner.y || list_height == 0 {
                PickerEffect::Nothing
            } else {
                let offset = spec_folder_picker_scroll_offset(selected, total, list_height as usize);
                let row = offset + sat_sub(ev.row as int, sat_add_u16(inner.y as int, 1));
                let row = if row > usize::MAX { usize::MAX as int } else { row };
                if row < total { PickerEffect::Select(row as usize) } else { PickerEffect::Nothing }
            }
        },
        MouseEventKind::ScrollUp => PickerEffect::SelectPrev,
        MouseEventKind::ScrollDown => PickerEffect::SelectNext,
        _ => PickerEffect::Nothing,
    }
}

/// A mouse event on the folder picker.
pub fn handle_folder_picker_mouse(area: Rect, inner: Rect, ev: MouseInput, selected: usize, total: usize) -> (e: PickerEffect)
    ensures
        e == spec_picker_mouse(area, inner, ev, selected, total),
{
    match ev.kind {
        MouseEventKind::Down(MouseButton::Left) => {
            if !point_in_rect(area, ev.column, ev.row) {
                return PickerEffect::Cancel;
            }
            if !point_in_rect(inner, ev.column, ev.row) {
                return PickerEffect::Nothing;
            }
            let action_row = inner.y.saturating_add(inner.height.saturating_sub(1));
            if ev.row == action_row {
                return match two_button_hit(inner.x, SELECT_LABEL_WIDTH, ev.column) {
                    Some(true) => PickerEffect::Submit,
                    Some(false) => PickerEffect::Cancel,
                    None => PickerEffect::Nothing,
                };
            }
            let list_height = inner.height.saturating_sub(2) as usize;
            if ev.row <= inner.y || list_height == 0 {
                return PickerEffect::Nothing;
            }
            let offset = folder_picker_scroll_offset(selected, total, list_height);
            let local = ev.row.saturating_sub(inner.y.saturating_add(1)) as usize;
            let row = offset.saturating_add(local);
            if row < total {
                PickerEffect::Select(row)
            } else {
                PickerEffect::Nothing
            }
        },
        MouseEventKind::ScrollUp => PickerEffect::SelectPrev,
        MouseEventKind::ScrollDown => PickerEffect::SelectNext,
        _ => PickerEffect::Nothing,
    }
}

/// The name being typed in the create or rename dialog, with its cursor,
/// selection and the anchor of a mouse selection in progress.
#[derive(Debug)]
pub struct NameField {
    pub name: String,
    pub cursor: usize,
    pub selection: Selection,
    pub drag_anchor: Option<usize>,
}

/// What a key or click on the create or rename dialog asks of the caller.
#[derive(Clone, Copy, Debug, PartialEq, Eq)]
pub enum NameDialogEffect {
    /// Nothing beyond the edit, if any, of the name field.
    Nothing,
    /// The name field was edited: clear the dialog's error.
    Edited,
    Close,
    Submit,
    /// Open the folder picker for the new folder's parent.
    PickParent,
}

/// Keys that clear the dialog's error: Backspace, Delete, and characters
/// typed without Control or Alt.
pub open spec fn typing_key(key: KeyInput) -> bool {
    match key.code {
        KeyCode::Backspace | KeyCode::Delete => true,
        KeyCode::Char(_) => !key.modifiers.control && !key.modifiers.alt,
        _ => false,
    }
}

/// A key on the create or rename dialog: Esc closes, Enter saves, Tab,
/// BackTab and Ctrl+P pick the parent folder, and the editing keys of a
/// text box edit the name. Any key ends a mouse selection.
pub open spec fn spec_name_dialog_key(key: KeyInput) -> NameDialogEffect {
    match key.code {
        KeyCode::Esc => NameDialogEffect::Close,
        KeyCode::Enter => NameDialogEffect::Submit,
        KeyCode::Tab | KeyCode::BackTab => NameDialogEffect::PickParent,
        KeyCode::Char('p') if key.modifiers.control => NameDialogEffect::PickParent,
        _ => if typing_key(key) { NameDialogEffect::Edited } else { NameDialogEffect::Nothing },
    }
}

impl NameField {
    /// The field as text, cursor and selection.
    pub open spec fn box_model(self) -> (Seq<char>, usize, Selection) {
        (self.name@, self.cursor, self.selection)
    }

    /// Handle a key on the create or rename dialog.
    pub fn handle_key(&mut self, key: KeyInput) -> (e: NameDialogEffect)
        requires
            old(self).name@.len() < usize::MAX,
        ensures
            e == spec_name_dialog_key(key),
            final(self).drag_anchor is None,
            e == NameDialogEffect::Nothing || e == NameDialogEffect::Edited ==> final(self).box_model() == spec_query_edit(old(self).box_model(), key).0,
            !(e == NameDialogEffect::Nothing || e == NameDialogEffect::Edited) ==> final(self).box_model() == old(self).box_model(),
    {
        self.drag_anchor = None;
        match key.code {
            KeyCode::Esc => return NameDialogEffect::Close,
            KeyCode::Enter => return NameDialogEffect::Submit,
            KeyCode::Tab | KeyCode::BackTab => return NameDialogEffect::PickParent,
            KeyCode::Char('p') if key.modifiers.control => return NameDialogEffect::PickParent,
            _ => {},
        }
        let typing = match key.code {
            KeyCode::Backspace | KeyCode::Delete => true,
            KeyCode::Char(_) => !key.modifiers.control && !key.modifiers.alt,
            _ => false,
        };
        let _ = edit_query_key(&mut self.name, &mut self.cursor, &mut self.selection, key);
        if typing {
            NameDialogEffect::Edited
        } else {
            NameDialogEffect::Nothing
        }
    }
}

/// The cursor position for a click at `col` on the name line, the name
/// starting after a label of `label_width` cells: the clicked character,
/// at most the end of the name; the start when no room is left for it.
pub open spec fn spec_cursor_from_column(inner: Rect, label_width: int, name_len: int, col: int) -> int {
    let start = sat_add_u16(inner.x as int, label_width);
    if sat_sub(inner.width as int, label_width) == 0 {
        0
    } else {
        min_int(sat_sub(col, start), name_len)
    }
}

/// Where a click at `col` puts the cursor of the name field.
pub fn name_cursor_from_column(inner: Rect, label_width: u16, name: &str, col: u16) -> (c: usize)
    ensures
        c == spec_cursor_from_column(inner, label_width as int, name@.len() as int, col as int),
{
    let start = inner.x.saturating_add(label_width);
    let width = inner.width.saturating_sub(label_width);
    if width == 0 {
        return 0;
    }
    let offset = col.saturating_sub(start) as usize;
    let len = char_len(name);
    if offset < len { offset } else { len }
}

/// Labels in front of the name, in cells: `New Name: ` and `Name: `.
pub const RENAME_LABEL_WIDTH: u16 = 10;
pub const CREATE_LABEL_WIDTH: u16 = 6;

/// Where the lines of a name dialog are, inside its border.
#[derive(Clone, Copy, Debug, PartialEq, Eq)]
pub struct NameDialogRows {
    pub name_row: u16,
    pub action_row: u16,
    /// The line showing the parent folder, which opens the picker.
    pub parent_row: Option<u16>,
    pub label_width: u16,
}

/// The rename dialog: the name on the second line, the buttons on the last.
pub open spec fn spec_rename_rows(inner: Rect) -> NameDialogRows {
    NameDialogRows {
        name_row: sat_add_u16(inner.y as int, 1) as u16,
        action_row: sat_add_u16(inner.y as int, sat_sub(inner.height as int, 1)) as u16,
        parent_row: None,
        label_width: RENAME_LABEL_WIDTH,
    }
}

/// The create dialog: the parent on the first line, the name on the
/// second and the buttons on the fourth, as far as the dialog is high.
pub open spec fn spec_create_rows(inner: Rect) -> NameDialogRows {
    let last = sat_sub(inner.height as int, 1);
    NameDialogRows {
        name_row: sat_add_u16(inner.y as int, min_int(1, last)) as u16,
        action_row: sat_add_u16(inner.y as int, min_int(3, last)) as u16,
        parent_row: Some(inner.y),
        label_width: CREATE_LABEL_WIDTH,
    }
}

/// Where the lines of the rename dialog are.
pub fn rename_dialog_rows(inner: Rect) -> (r: NameDialogRows)
    ensures
        r == spec_rename_rows(inner),
{
    NameDialogRows {
        name_row: inner.y.saturating_add(1),
        action_row: inner.y.saturating_add(inner.height.saturating_sub(1)),
        parent_row: None,
        label_width: RENAME_LABEL_WIDTH,
    }
}

/// Where the lines of the create dialog are.
pub fn create_dialog_rows(inner: Rect) -> (r: NameDialogRows)
    ensures
        r == spec_create_rows(inner),
{
    let last = inner.height.saturating_sub(1);
    NameDialogRows {
        name_row: inner.y.saturating_add(if last < 1 { last } else { 1 }),
        action_row: inner.y.saturating_add(if last < 3 { last } else { 3 }),
        parent_row: Some(inner.y),
        label_width: CREATE_LABEL_WIDTH,
    }
}

/// The selection made by dragging from `anchor` to `cursor`.
pub open spec fn drag_selection(anchor: usize, cursor: usize) -> Selection {
    if cursor == anchor { None } else { Some((anchor, cursor)) }
}

impl NameField {
    /// A mouse event on a name dialog drawn in `area` (inside `inner`, its
    /// lines at `rows`): a press off the dialog closes it; on the button
    /// line, Save submits and Cancel closes; on the parent line it picks
    /// the parent; on the name line it places the cursor and starts a
    /// mouse selection, which dragging extends and releasing ends.
    pub fn handle_mouse(&mut self, area: Rect, inner: Rect, rows: NameDialogRows, ev: MouseInput) -> (e: NameDialogEffect)
        ensures
            ({
                let col = ev.column as int;
                let row = ev.row;
                let at = spec_cursor_from_column(inner, rows.label_width as int, old(self).name@.len() as int, col) as usize;
                &&& final(self).name@ == old(self).name@
                &&& match ev.kind {
                    MouseEventKind::Down(MouseButton::Left) => if !spec_point_in_rect(area, col, row as int) {
                        e == NameDialogEffect::Close && final(self).box_model() == old(self).box_model()
                            && final(self).drag_anchor == old(self).drag_anchor
                    } else if !spec_point_in_rect(inner, col, row as int) {
                        e == NameDialogEffect::Nothing && final(self).box_model() == old(self).box_model()
                            && final(self).drag_anchor == old(self).drag_anchor
                    } else if row == rows.action_row {
                        &&& e == match spec_two_button_hit(inner.x as int, SAVE_LABEL_WIDTH as int, col) {
                            Some(true) => NameDialogEffect::Submit,
                            Some(false) => NameDialogEffect::Close,
                            None => NameDialogEffect::Nothing,
                        }
                        &&& final(self).box_model() == old(self).box_model() && final(self).drag_anchor is None
                    } else if rows.parent_row == Some(row) {
                        e == NameDialogEffect::PickParent && final(self).box_model() == old(self).box_model()
                            && final(self).drag_anchor is None
                    } else if row == rows.name_row {
                        e == NameDialogEffect::Nothing && final(self).cursor == at && final(self).selection is None
                            && final(self).drag_anchor == Some(at)
                    } else {
                        e == NameDialogEffect::Nothing && final(self).box_model() == old(self).box_model()
                            && final(self).drag_anchor == old(self).drag_anchor
                    },
                    MouseEventKind::Drag(MouseButton::Left) | MouseEventKind::Up(MouseButton::Left) => {
                        &&& e == NameDialogEffect::Nothing
                        &&& match old(self).drag_anchor {
                            Some(anchor) => final(self).cursor == at && final(self).selection == drag_selection(anchor, at)
                                && final(self).drag_anchor == if ev.kind is Drag { Some(anchor) } else { None },
                            None => final(self).box_model() == old(self).box_model() && final(self).drag_anchor is None,
                        }
                    },
                    _ => e == NameDialogEffect::Nothing && final(self).box_model() == old(self).box_model()
                        && final(self).drag_anchor == old(self).drag_anchor,
                }
            }),
    {
        let at = name_cursor_from_column(inner, rows.label_width, self.name.as_str(), ev.column);
        match ev.kind {
            MouseEventKind::Down(MouseButton::Left) => {
                if !point_in_rect(area, ev.column, ev.row) {
                    return NameDialogEffect::Close;
                }
                if !point_in_rect(inner, ev.column, ev.row) {
                    return NameDialogEffect::Nothing;
                }
                if ev.row == rows.action_row {
                    self.drag_anchor = None;
                    return match two_button_hit(inner.x, SAVE_LABEL_WIDTH, ev.column) {
                        Some(true) => NameDialogEffect::Submit,
                        Some(false) => NameDialogEffect::Close,
                        None => NameDialogEffect::Nothing,
                    };
                }
                if let Some(p) = rows.parent_row {
                    if ev.row == p {
                        self.drag_anchor = None;
                        return NameDialogEffect::PickParent;
                    }
                }
                if ev.row == rows.name_row {
                    self.cursor = at;
                    self.selection = None;
                    self.drag_anchor = Some(at);
                }
                NameDialogEffect::Nothing
            },
            MouseEventKind::Drag(MouseButton::Left) => {
                if let Some(anchor) = self.drag_anchor {
                    self.cursor = at;
                    self.selection = if at == anchor { None } else { Some((anchor, at)) };
                }
                NameDialogEffect::Nothing
            },
            MouseEventKind::Up(MouseButton::Left) => {
                if let Some(anchor) = self.drag_anchor {
                    self.cursor = at;
                    self.selection = if at == anchor { None } else { Some((anchor, at)) };
                    self.drag_anchor = None;
                }
                NameDialogEffect::Nothing
            },
            _ => NameDialogEffect::Nothing,
        }
    }

    /// The name field as it comes back from the folder picker: the cursor
    /// kept within the name and the selection ordered and clamped.
    pub fn restored(name: String, cursor: usize, selection: Selection) -> (f: NameField)
        ensures
            f.name@ == name@,
            f.cursor == min_nat(cursor as int, name@.len() as int),
            match f.selection {
                Some((s, e)) => spec_normalized_selection(name@.len() as int, selection) == Some((s as int, e as int)),
                None => spec_normalized_selection(name@.len() as int, selection) is None,
            },
            f.drag_anchor is None,
    {
        let mut c = cursor;
        clamp_cursor(name.as_str(), &mut c);
        let sel = normalized_selection(name.as_str(), selection);
        NameField { name, cursor: c, selection: sel, drag_anchor: None }
    }
}

/// A press on the delete confirmation drawn in `area`: off it, the
/// confirmation closes.
pub fn folder_delete_confirm_closes(area: Rect, ev: MouseInput) -> (close: bool)
    ensures
        close == (ev.kind == MouseEventKind::Down(MouseButton::Left) && !spec_point_in_rect(area, ev.column as int, ev.row as int)),
{
    match ev.kind {
        MouseEventKind::Down(MouseButton::Left) => !point_in_rect(area, ev.column, ev.row),
        _ => false,
    }
}

} // verus!
