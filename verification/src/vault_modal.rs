//! Layout and mouse hit tests of the password vault modals: the unlock
//! prompt and the vault status dialog.
use vstd::prelude::*;
use crate::layout::{Rect, modal_inner_rect, point_in_rect, spec_point_in_rect, sat_sub, sat_add_u16, column_in_label_range};
use crate::text_edit::char_len;

verus! {

/// A click on the unlock prompt's action row.
#[derive(Clone, Copy, Debug, PartialEq, Eq)]
pub enum VaultUnlockMouseAction {
    Submit,
    Close,
}

/// A click on the status dialog's action row.
#[derive(Clone, Copy, Debug, PartialEq, Eq)]
pub enum VaultStatusMouseAction {
    Lock,
    Unlock,
    Close,
}

/// Row of the unlock prompt's actions, inside its border.
pub const VAULT_UNLOCK_ACTION_ROW: u16 = 3;
/// Row of the status dialog's actions, inside its border.
pub const VAULT_STATUS_ACTION_ROW: u16 = 4;

/// `v` clamped to `lo..=hi`.
pub open spec fn clamp_u16(v: int, lo: int, hi: int) -> int {
    if v < lo {
        lo
    } else if v > hi {
        hi
    } else {
        v
    }
}

/// A `width` × `height` rectangle centred in `area` (shrunk to fit).
pub open spec fn spec_centered_rect(width: int, height: int, area: Rect) -> Rect {
    let w = if width <= area.width { width } else { area.width as int };
    let h = if height <= area.height { height } else { area.height as int };
    Rect {
        x: (area.x + sat_sub(area.width as int, w) / 2) as u16,
        y: (area.y + sat_sub(area.height as int, h) / 2) as u16,
        width: w as u16,
        height: h as u16,
    }
}

/// A `width` × `height` rectangle centred in `area`, shrunk to fit it.
pub fn centered_rect(width: u16, height: u16, area: Rect) -> (r: Rect)
    requires
        area.x + area.width <= 0xffff,
        area.y + area.height <= 0xffff,
    ensures
        r == spec_centered_rect(width as int, height as int, area),
{
    let popup_width = if width <= area.width { width } else { area.width };
    let popup_height = if height <= area.height { height } else { area.height };
    let popup_x = area.x + area.width.saturating_sub(popup_width) / 2;
    let popup_y = area.y + area.height.saturating_sub(popup_height) / 2;
    Rect::new(popup_x, popup_y, popup_width, popup_height)
}

/// The inside of a bordered area.
pub open spec fn inner_of(a: Rect) -> Rect {
    Rect {
        x: sat_add_u16(a.x as int, 1) as u16,
        y: sat_add_u16(a.y as int, 1) as u16,
        width: sat_sub(a.width as int, 2) as u16,
        height: sat_sub(a.height as int, 2) as u16,
    }
}

/// The unlock prompt's area on a terminal of the given size.
pub open spec fn unlock_area(term_width: u16, term_height: u16) -> Rect {
    spec_centered_rect(clamp_u16(term_width as int, 44, 72), 6, Rect { x: 0, y: 0, width: term_width, height: term_height })
}

/// The status dialog's area on a terminal of the given size.
pub open spec fn status_area(term_width: u16, term_height: u16) -> Rect {
    spec_centered_rect(clamp_u16(term_width as int, 52, 80), 7, Rect { x: 0, y: 0, width: term_width, height: term_height })
}

/// The unlock prompt's outer area and inside, on a terminal of the given size.
pub fn vault_unlock_modal_layout(term_width: u16, term_height: u16) -> (r: (Rect, Rect))
    ensures
        r.0 == unlock_area(term_width, term_height),
        r.1 == inner_of(r.0),
{
    let full = Rect::new(0, 0, term_width, term_height);
    let width = if term_width < 44 { 44 } else if term_width > 72 { 72 } else { term_width };
    let area = centered_rect(width, 6, full);
    (area, modal_inner_rect(area))
}

/// The status dialog's outer area and inside, on a terminal of the given size.
pub fn vault_status_modal_layout(term_width: u16, term_height: u16) -> (r: (Rect, Rect))
    ensures
        r.0 == status_area(term_width, term_height),
        r.1 == inner_of(r.0),
{
    let full = Rect::new(0, 0, term_width, term_height);
    let width = if term_width < 52 { 52 } else if term_width > 80 { 80 } else { term_width };
    let area = centered_rect(width, 7, full);
    (area, modal_inner_rect(area))
}

/// Text between two actions on an action row.
pub fn action_separator() -> (s: &'static str)
    ensures
        s@ == "  |  "@,
{
    "  |  "
}

/// The status dialog's first action: lock when unlocked, else unlock.
pub fn vault_status_primary_label(unlocked: bool) -> (s: &'static str)
    ensures
        s@ == if unlocked { "[l] Lock"@ } else { "[v] Unlock"@ },
{
    if unlocked { "[l] Lock" } else { "[v] Unlock" }
}

/// The status dialog's close action.
pub fn vault_status_close_label(unlocked: bool) -> (s: &'static str)
    ensures
        s@ == if unlocked { "[Enter/Esc/v] Close"@ } else { "[Enter/Esc] Close"@ },
{
    if unlocked { "[Enter/Esc/v] Close" } else { "[Enter/Esc] Close" }
}

/// Which of two labels on an action row, the first at `start`, the second
/// after it and a separator, is under column `col` (1 or 2; 0 for none).
pub open spec fn label_hit(start: int, first: Seq<char>, second: Seq<char>, sep: Seq<char>, col: int) -> int {
    let first_end = sat_add_u16(start, first.len() as u16 as int);
    let second_start = sat_add_u16(sat_add_u16(start, first.len() as u16 as int), sep.len() as u16 as int);
    let second_end = sat_add_u16(second_start, second.len() as u16 as int);
    if start <= col < first_end {
        1
    } else if second_start <= col < second_end {
        2
    } else {
        0
    }
}

fn action_row_hit(inner: Rect, action_row: u16, first: &str, second: &str, col: u16, row: u16) -> (r: u8)
    ensures
        r == if !spec_point_in_rect(inner, col as int, row as int) || sat_sub(row as int, inner.y as int) != action_row {
            0
        } else {
            label_hit(inner.x as int, first@, second@, "  |  "@, col as int)
        },
{
    if !point_in_rect(inner, col, row) || row.saturating_sub(inner.y) != action_row {
        return 0;
    }
    let sep = action_separator();
    let first_width = char_len(first) as u16;
    if column_in_label_range(inner.x, first_width, col) {
        return 1;
    }
    let second_start = inner.x.saturating_add(first_width).saturating_add(char_len(sep) as u16);
    if column_in_label_range(second_start, char_len(second) as u16, col) {
        return 2;
    }
    0
}

/// The unlock prompt's action under the cell, given its submit and cancel
/// hints.
pub fn vault_unlock_modal_action_at(
    term_width: u16,
    term_height: u16,
    submit_label: &str,
    cancel_label: &str,
    col: u16,
    row: u16,
) -> (r: Option<VaultUnlockMouseAction>)
    ensures
        ({
            let inner = inner_of(unlock_area(term_width, term_height));
            let hit = if !spec_point_in_rect(inner, col as int, row as int) || sat_sub(row as int, inner.y as int) != VAULT_UNLOCK_ACTION_ROW {
                0
            } else {
                label_hit(inner.x as int, submit_label@, cancel_label@, "  |  "@, col as int)
            };
            r == if hit == 1 {
                Some(VaultUnlockMouseAction::Submit)
            } else if hit == 2 {
                Some(VaultUnlockMouseAction::Close)
            } else {
                None
            }
        }),
{
    let (_, inner) = vault_unlock_modal_layout(term_width, term_height);
    let hit = action_row_hit(inner, VAULT_UNLOCK_ACTION_ROW, submit_label, cancel_label, col, row);
    if hit == 1 {
        Some(VaultUnlockMouseAction::Submit)
    } else if hit == 2 {
        Some(VaultUnlockMouseAction::Close)
    } else {
        None
    }
}

/// The status dialog's action under the cell.
pub fn vault_status_modal_action_at(term_width: u16, term_height: u16, unlocked: bool, col: u16, row: u16) -> (r: Option<VaultStatusMouseAction>)
    ensures
        ({
            let inner = inner_of(status_area(term_width, term_height));
            let first = if unlocked { "[l] Lock"@ } else { "[v] Unlock"@ };
            let second = if unlocked { "[Enter/Esc/v] Close"@ } else { "[Enter/Esc] Close"@ };
            let hit = if !spec_point_in_rect(inner, col as int, row as int) || sat_sub(row as int, inner.y as int) != VAULT_STATUS_ACTION_ROW {
                0
            } else {
                label_hit(inner.x as int, first, second, "  |  "@, col as int)
            };
            r == if hit == 1 {
                Some(if unlocked { VaultStatusMouseAction::Lock } else { VaultStatusMouseAction::Unlock })
            } else if hit == 2 {
                Some(VaultStatusMouseAction::Close)
            } else {
                None
            }
        }),
{
    let (_, inner) = vault_status_modal_layout(term_width, term_height);
    let primary = vault_status_primary_label(unlocked);
    let close = vault_status_close_label(unlocked);
    let hit = action_row_hit(inner, VAULT_STATUS_ACTION_ROW, primary, close, col, row);
    if hit == 1 {
        Some(if unlocked { VaultStatusMouseAction::Lock } else { VaultStatusMouseAction::Unlock })
    } else if hit == 2 {
        Some(VaultStatusMouseAction::Close)
    } else {
        None
    }
}

} // verus!
