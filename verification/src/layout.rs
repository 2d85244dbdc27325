//! Where the parts of the main window go on the screen.

use vstd::prelude::*;

verus! {

/// A rectangle of the screen, in cells.
#[derive(Clone, Copy, PartialEq, Eq, Structural, Debug)]
pub struct Area {
    pub x: u16,
    pub y: u16,
    pub width: u16,
    pub height: u16,
}

/// The width of the sidebar.
pub const SIDEBAR_WIDTH: u16 = 30;

/// The cells that the transcript leaves free in a line: the margins, the
/// border of a turn, the place of the avatar, and one cell to keep wide
/// characters in line.
pub const CHAT_MARGIN: u16 = 16;

/// `length` cut down to `limit`.
pub open spec fn at_most(length: int, limit: int) -> int {
    if length <= limit {
        length
    } else {
        limit
    }
}

/// `wide` less `less`, and zero where that would fall below zero.
pub open spec fn less_or_zero(wide: int, less: int) -> int {
    if wide >= less {
        wide - less
    } else {
        0
    }
}

/// The rectangle of a popup of the given size in the middle of `area`. A
/// popup that is larger than the area is cut down to it, and a corner that
/// would lie past the last cell that can be addressed lies on it.
pub open spec fn centered(area: Area, width: int, height: int) -> Area {
    let w = at_most(width, area.width as int);
    let h = at_most(height, area.height as int);
    Area {
        x: at_most(area.x + (area.width - w) / 2, u16::MAX as int) as u16,
        y: at_most(area.y + (area.height - h) / 2, u16::MAX as int) as u16,
        width: w as u16,
        height: h as u16,
    }
}

/// `start` moved on by `step`, but not past the last cell that can be
/// addressed.
fn moved(start: u16, step: u16) -> (cell: u16)
    ensures
        cell == at_most(start + step, u16::MAX as int),
{
    if step <= u16::MAX - start {
        start + step
    } else {
        u16::MAX
    }
}

/// The rectangle of a popup of the given size in the middle of `area`.
pub fn popup_area(area: Area, width: usize, height: usize) -> (rect: Area)
    ensures
        rect == centered(area, width as int, height as int),
        rect.width <= area.width,
        rect.height <= area.height,
        area.x <= rect.x,
        area.y <= rect.y,
        area.x + area.width <= u16::MAX ==> rect.x + rect.width <= area.x + area.width,
        area.y + area.height <= u16::MAX ==> rect.y + rect.height <= area.y + area.height,
{
    let w: u16 = if width <= area.width as usize {
        width as u16
    } else {
        area.width
    };
    let h: u16 = if height <= area.height as usize {
        height as u16
    } else {
        area.height
    };
    Area {
        x: moved(area.x, (area.width - w) / 2),
        y: moved(area.y, (area.height - h) / 2),
        width: w,
        height: h,
    }
}

/// The width in which the turns of the transcript are wrapped, for a
/// transcript that is `width` cells wide.
pub fn chat_area_width(width: u16) -> (cells: usize)
    ensures
        cells == less_or_zero(width as int, CHAT_MARGIN as int),
{
    if width >= CHAT_MARGIN {
        (width - CHAT_MARGIN) as usize
    } else {
        0
    }
}

/// The width of the text of the input line, inside its border.
pub fn input_width(width: u16) -> (cells: usize)
    ensures
        cells == less_or_zero(width as int, 2),
{
    if width >= 2 {
        (width - 2) as usize
    } else {
        0
    }
}

/// The width of the popup for the image path on a screen that is `width`
/// cells wide: fifty cells less than the screen, but fifty at least.
pub fn image_popup_width(width: u16) -> (cells: usize)
    ensures
        cells == if less_or_zero(width as int, 50) >= 50 {
            less_or_zero(width as int, 50)
        } else {
            50
        },
{
    let narrowed: u16 = if width >= 50 {
        width - 50
    } else {
        0
    };
    if narrowed >= 50 {
        narrowed as usize
    } else {
        50
    }
}

} // verus!
