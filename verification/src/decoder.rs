//! What the decoder screen decides before anything is drawn: the hint in
//! a block's title, the width left for the text of an input box, and the
//! place of its cursor.

use crate::route::{ActiveBlock, Route};
use vstd::prelude::*;

verus! {

/// Whether an input box is being typed into.
#[derive(Clone, Copy, Debug, PartialEq, Eq, Structural)]
pub enum InputMode {
    Normal,
    Editing,
}

/// The columns that an input box spends on its two borders and its
/// cursor.
pub const INPUT_FRAME: u16 = 3;

/// The hint of an input box: which keys apply in `mode`, and nothing
/// while the box is not the active one.
pub open spec fn hint_text(mode: InputMode, is_active: bool) -> Seq<char> {
    if is_active {
        match mode {
            InputMode::Normal => "(Press <e> to edit | <c> to copy) "@,
            InputMode::Editing => "(Press <esc> to stop editing | <c> to copy) "@,
        }
    } else {
        ""@
    }
}

/// The hint of a block: that of an input box where the block is one, else
/// the copy key while the block is the active one.
pub open spec fn title_hint_text(input_mode: Option<InputMode>, is_active: bool) -> Seq<char> {
    match input_mode {
        Some(mode) => hint_text(mode, is_active),
        None => if is_active {
            "(Press <c> to copy) "@
        } else {
            ""@
        },
    }
}

/// The hint shown in the title of an input box.
pub fn get_hint(input_mode: &InputMode, is_active: bool) -> (hint: &str)
    ensures
        hint@ == hint_text(*input_mode, is_active),
{
    if is_active {
        match input_mode {
            InputMode::Normal => "(Press <e> to edit | <c> to copy) ",
            InputMode::Editing => "(Press <esc> to stop editing | <c> to copy) ",
        }
    } else {
        ""
    }
}

/// Whether `block` is the one that `route` gives the focus to, and the
/// hint to show in its title.
pub fn selectable_block_hint<'a>(
    route: &Route,
    block: ActiveBlock,
    input_mode: Option<&'a InputMode>,
) -> (shown: (bool, &'a str))
    ensures
        shown.0 == (route.active_block == block),
        shown.1@ == title_hint_text(
            match input_mode {
                Some(mode) => Some(*mode),
                None => None,
            },
            shown.0,
        ),
{
    let is_active = route.active_block == block;
    let title_hint = if let Some(im) = input_mode {
        get_hint(im, is_active)
    } else if is_active {
        "(Press <c> to copy) "
    } else {
        ""
    };
    (is_active, title_hint)
}

/// The columns left for the text of an input box in an area
/// `area_width` wide.
pub fn input_text_width(area_width: u16) -> (width: u16)
    ensures
        width == if area_width >= INPUT_FRAME {
            area_width - INPUT_FRAME
        } else {
            0
        },
{
    if area_width >= INPUT_FRAME {
        area_width - INPUT_FRAME
    } else {
        0
    }
}

/// The column of the cursor of an input box: one past the border at
/// `area_x`, plus as far as the cursor lies beyond the scrolled-off part.
pub open spec fn cursor_column(area_x: u16, visual_cursor: usize, scroll: usize) -> int {
    area_x + (if visual_cursor >= scroll {
        visual_cursor - scroll
    } else {
        0
    }) + 1
}

/// The cell of the cursor of an input box whose area starts at
/// (`area_x`, `area_y`): one line below the border, in the column that
/// `cursor_column` gives. `None` where the cell lies beyond what a
/// terminal can address.
pub fn input_cursor_position(
    area_x: u16,
    area_y: u16,
    visual_cursor: usize,
    scroll: usize,
) -> (cell: Option<(u16, u16)>)
    ensures
        cell == if cursor_column(area_x, visual_cursor, scroll) <= u16::MAX && area_y < u16::MAX {
            Some((cursor_column(area_x, visual_cursor, scroll) as u16, (area_y + 1) as u16))
        } else {
            None
        },
{
    let offset: usize = if visual_cursor >= scroll {
        visual_cursor - scroll
    } else {
        0
    };
    if area_y < u16::MAX && offset < u16::MAX as usize && area_x < u16::MAX - offset as u16 {
        Some((area_x + offset as u16 + 1, area_y + 1))
    } else {
        None
    }
}

} // verus!
