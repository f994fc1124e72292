//! Where the input box goes on the screen, and how much text fits in it.

use vstd::prelude::*;
use ratatui::layout::Rect;

verus! {

/// A rectangle of screen cells.
#[derive(Clone, Copy, Debug, PartialEq, Eq, Structural)]
pub struct Area {
    /// The column of the left edge.
    pub x: u16,
    /// The row of the top edge.
    pub y: u16,
    /// The number of columns.
    pub width: u16,
    /// The number of rows.
    pub height: u16,
}

/// Which sides of the box are drawn.
#[derive(Clone, Copy, Debug, PartialEq, Eq, Structural)]
pub enum Borders {
    /// No side.
    Absent,
    /// The top side only.
    Top,
    /// All four sides.
    All,
}

/// The shape of the input box.
#[derive(Clone, Copy, Debug, PartialEq, Eq, Structural)]
pub struct BoxStyle {
    /// The columns left free on either side of the box.
    pub margin: u16,
    /// The rows that the box takes at the bottom of the screen.
    pub lines: u16,
}

/// Where everything goes for one frame.
#[derive(Clone, Copy, Debug, PartialEq, Eq, Structural)]
pub struct Placement {
    /// The box and its title.
    pub frame: Area,
    /// The text inside the box.
    pub text: Area,
    /// The column of the cursor.
    pub cursor_x: u16,
    /// The row of the cursor.
    pub cursor_y: u16,
}

/// The extent left to a rectangle that starts at `origin`, so that it ends on
/// the screen's coordinates.
pub open spec fn clamped_extent(origin: u16, extent: u16) -> int {
    if origin + extent > u16::MAX {
        u16::MAX - origin
    } else {
        extent as int
    }
}

/// `ratatui::layout::Rect::new`: the rectangle at `x`, `y`, with its width and
/// height cut down where the right or bottom edge would pass the largest
/// coordinate.
#[verifier::external_body]
fn clamped_area(x: u16, y: u16, width: u16, height: u16) -> (area: Area)
    ensures
        area.x == x,
        area.y == y,
        area.width == clamped_extent(x, width),
        area.height == clamped_extent(y, height),
{
    let rect = Rect::new(x, y, width, height);
    Area { x: rect.x, y: rect.y, width: rect.width, height: rect.height }
}

impl BoxStyle {
    /// The characters that fit beside the margins and the box's own padding
    /// on a screen `available_width` columns wide; negative or zero where
    /// nothing fits.
    pub open spec fn room(self, available_width: u16) -> int {
        available_width - 2 * (self.margin + 2)
    }

    /// The screen is large enough: the box has its two rows at least and no
    /// more than the screen, the margins and the text fit in the width, and
    /// the cursor's column is a coordinate.
    pub open spec fn fits(self, width: u16, height: u16, cursor: usize) -> bool {
        &&& 2 <= self.lines <= height
        &&& 4 * self.margin <= width
        &&& width - 4 * self.margin + 2 <= u16::MAX
        &&& cursor + self.margin + 2 <= u16::MAX
    }

    /// The placement on a screen that fits. The box takes the bottom rows
    /// between the margins; the text starts two columns inside the box, on
    /// the row above the last, and is cut down where it would pass the
    /// largest coordinate; the cursor stands at its offset into the text.
    pub open spec fn placement(self, width: u16, height: u16, cursor: usize) -> Placement {
        Placement {
            frame: Area {
                x: self.margin,
                y: (height - self.lines) as u16,
                width: (width - 2 * self.margin) as u16,
                height: self.lines,
            },
            text: Area {
                x: (self.margin + 2) as u16,
                y: (height - 2) as u16,
                width: clamped_extent(
                    (self.margin + 2) as u16,
                    (width - 4 * self.margin + 2) as u16,
                ) as u16,
                height: clamped_extent((height - 2) as u16, (self.lines - 2) as u16) as u16,
            },
            cursor_x: (cursor + self.margin + 2) as u16,
            cursor_y: (height - 2) as u16,
        }
    }

    /// The placement, where the screen is large enough.
    pub open spec fn place_on(self, width: u16, height: u16, cursor: usize) -> Option<Placement> {
        if self.fits(width, height, cursor) {
            Some(self.placement(width, height, cursor))
        } else {
            None
        }
    }

    /// The width limit on a screen `available_width` columns wide: the room,
    /// where there is any.
    pub open spec fn limit_on(self, available_width: u16) -> Option<usize> {
        if self.room(available_width) > 0 {
            Some(self.room(available_width) as usize)
        } else {
            None
        }
    }

    /// The sides to draw: none for a box of one row, the top for two rows,
    /// all otherwise.
    pub fn borders(&self) -> (borders: Borders)
        ensures
            borders == (match self.lines {
                1 => Borders::Absent,
                2 => Borders::Top,
                _ => Borders::All,
            }),
    {
        if self.lines == 1 {
            Borders::Absent
        } else if self.lines == 2 {
            Borders::Top
        } else {
            Borders::All
        }
    }

    /// The width limit for a screen `available_width` columns wide, or `None`
    /// where no character fits.
    pub fn width_limit(&self, available_width: u16) -> (limit: Option<usize>)
        ensures
            limit == self.limit_on(available_width),
    {
        let taken: u32 = 2 * (self.margin as u32 + 2);
        let width: u32 = available_width as u32;
        if width > taken {
            Some((width - taken) as usize)
        } else {
            None
        }
    }

    /// The placement of the box, the text and the cursor on a screen of
    /// `width` by `height` cells, or `None` where they do not fit.
    pub fn place(&self, width: u16, height: u16, cursor: usize) -> (placed: Option<Placement>)
        ensures
            placed == self.place_on(width, height, cursor),
    {
        let margin: u32 = self.margin as u32;
        if self.lines < 2 || self.lines > height || 4 * margin > width as u32 {
            return None;
        }
        let text_width: u32 = width as u32 - 4 * margin + 2;
        if text_width > u16::MAX as u32 || cursor > u16::MAX as usize {
            return None;
        }
        let cursor_x: u32 = cursor as u32 + margin + 2;
        if cursor_x > u16::MAX as u32 {
            return None;
        }
        let frame = clamped_area(
            self.margin,
            height - self.lines,
            width - 2 * self.margin,
            self.lines,
        );
        let text = clamped_area(self.margin + 2, height - 2, text_width as u16, self.lines - 2);
        Some(Placement { frame, text, cursor_x: cursor_x as u16, cursor_y: height - 2 })
    }
}

} // verus!
