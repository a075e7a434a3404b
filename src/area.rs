//! Rectangular screen regions, in terminal cells.

use vstd::prelude::*;

verus! {

/// A rectangle on the screen: its top-left cell and its size.
#[derive(Clone, Copy, Debug, PartialEq, Eq, Structural)]
pub struct Area {
    pub x: u16,
    pub y: u16,
    pub width: u16,
    pub height: u16,
}

impl Area {
    pub fn new(x: u16, y: u16, width: u16, height: u16) -> (r: Area)
        ensures
            r == (Area { x, y, width, height }),
    {
        Area { x, y, width, height }
    }

    /// Column of the left edge.
    pub fn left(&self) -> (r: u16)
        ensures
            r == self.x,
    {
        self.x
    }

    /// Row of the top edge.
    pub fn top(&self) -> (r: u16)
        ensures
            r == self.y,
    {
        self.y
    }
}

/// Moves the top-left corner of `area` by `margin` cells right and down, and
/// shrinks its width and height by `margin`, so that the right and bottom
/// edges stay where they were.
pub fn edge_inset(area: &Area, margin: u16) -> (r: Area)
    requires
        margin <= area.width,
        margin <= area.height,
        area.x + margin <= u16::MAX,
        area.y + margin <= u16::MAX,
    ensures
        r.x == area.x + margin,
        r.y == area.y + margin,
        r.width == area.width - margin,
        r.height == area.height - margin,
        r.x + r.width == area.x + area.width,
        r.y + r.height == area.y + area.height,
{
    let mut inset_area = *area;
    inset_area.x = inset_area.x + margin;
    inset_area.y = inset_area.y + margin;
    inset_area.height = inset_area.height - margin;
    inset_area.width = inset_area.width - margin;
    inset_area
}

} // verus!
