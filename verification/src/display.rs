//! What the key dialog shows, as plain values: sizes, masked keys, focus and hints.

use vstd::prelude::*;

use crate::dialog::{mask_key, masked, FreeModeDialogState, FreeModeField};
use crate::text::char_vec;

verus! {

/// The widest the dialog gets, in cells.
pub const DIALOG_MAX_WIDTH: u16 = 76;

/// The tallest the dialog gets, in cells.
pub const DIALOG_MAX_HEIGHT: u16 = 22;

/// The title of the dialog.
pub open spec fn dialog_title() -> Seq<char> {
    "Connect Free (Zen \u{2192} OpenRouter)"@
}

/// `a - b`, or zero when `b` is larger.
pub open spec fn saturating_diff(a: int, b: int) -> int {
    if a >= b {
        a - b
    } else {
        0
    }
}

/// `a` or `b`, whichever is smaller.
pub open spec fn smaller(a: int, b: int) -> int {
    if a <= b {
        a
    } else {
        b
    }
}

/// One key field as drawn.
pub struct KeyFieldLine {
    /// The key as displayed (see `masked`).
    pub text: String,
    /// The field has the focus: drawn bold and followed by a cursor.
    pub focused: bool,
    /// The key is empty: the placeholder is drawn dimmed.
    pub empty: bool,
}

/// The variable content of the dialog.
pub struct DialogContent {
    pub zen: KeyFieldLine,
    pub openrouter: KeyFieldLine,
    /// Whether the footer offers to confirm (see `DialogView::can_submit`).
    pub can_submit: bool,
}

/// Whether `line` shows `key`, focused exactly when `field` is `active`.
pub open spec fn shows_key(line: KeyFieldLine, key: Seq<char>, field: FreeModeField, active: FreeModeField) -> bool {
    &&& line.text@ == masked(key)
    &&& line.focused == (field == active)
    &&& line.empty == (key.len() == 0)
}

fn key_field_line(key: &String, field: FreeModeField, active: FreeModeField) -> (r: KeyFieldLine)
    ensures
        shows_key(r, key@, field, active),
{
    KeyFieldLine { text: mask_key(key.as_str()), focused: field == active, empty: key.as_str().is_empty() }
}

/// The content to draw, or nothing while the dialog is hidden.
pub fn dialog_content(state: &FreeModeDialogState) -> (r: Option<DialogContent>)
    ensures
        r is Some <==> state@.visible,
        r matches Some(c) ==> {
            &&& shows_key(c.zen, state@.zen_key, FreeModeField::ZenKey, state@.active_field)
            &&& shows_key(c.openrouter, state@.openrouter_key, FreeModeField::OpenRouterKey, state@.active_field)
            &&& c.can_submit == state@.can_submit()
        },
{
    if !state.visible {
        return None;
    }
    Some(DialogContent {
        zen: key_field_line(&state.zen_key, FreeModeField::ZenKey, state.active_field),
        openrouter: key_field_line(&state.openrouter_key, FreeModeField::OpenRouterKey, state.active_field),
        can_submit: state.can_submit(),
    })
}

/// The footer hint: confirming is offered only when a key is present.
pub fn confirm_hint(can_submit: bool) -> (r: &'static str)
    ensures
        r@ == (if can_submit { " enter confirm"@ } else { " paste at least one key"@ }),
{
    if can_submit {
        " enter confirm"
    } else {
        " paste at least one key"
    }
}

/// Width and height of the dialog in an area of the given size: at most
/// 76 by 22 cells, and at least 4 columns and 2 rows smaller than the area.
pub fn dialog_size(area_width: u16, area_height: u16) -> (r: (u16, u16))
    ensures
        r.0 == smaller(DIALOG_MAX_WIDTH as int, saturating_diff(area_width as int, 4)),
        r.1 == smaller(DIALOG_MAX_HEIGHT as int, saturating_diff(area_height as int, 2)),
{
    let w = area_width.saturating_sub(4);
    let h = area_height.saturating_sub(2);
    (
        if DIALOG_MAX_WIDTH <= w { DIALOG_MAX_WIDTH } else { w },
        if DIALOG_MAX_HEIGHT <= h { DIALOG_MAX_HEIGHT } else { h },
    )
}

/// The area inside the dialog's border: one cell in from each side.
pub fn inner_area(x: u16, y: u16, width: u16, height: u16) -> (r: (u16, u16, u16, u16))
    requires
        x < u16::MAX,
        y < u16::MAX,
    ensures
        r.0 == x + 1,
        r.1 == y + 1,
        r.2 == saturating_diff(width as int, 2),
        r.3 == saturating_diff(height as int, 2),
{
    (x + 1, y + 1, width.saturating_sub(2), height.saturating_sub(2))
}

/// The blank space between the title and the right-aligned `esc` hint.
pub fn title_padding(inner_width: u16) -> (r: usize)
    ensures
        r == saturating_diff(inner_width as int, dialog_title().len() + 5 as int),
{
    let title = char_vec("Connect Free (Zen \u{2192} OpenRouter)");
    proof {
        reveal_strlit("Connect Free (Zen \u{2192} OpenRouter)");
    }
    let used: u16 = title.len() as u16 + 5;
    inner_width.saturating_sub(used) as usize
}

} // verus!
