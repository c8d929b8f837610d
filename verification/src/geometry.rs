//! Window geometry in X11 screen coordinates and the placement rules derived
//! from it.

use vstd::prelude::*;

verus! {

/// Position and size of a window as the X server reports them: the top-left
/// corner relative to the root window, x to the right and y down.
#[derive(Clone, Copy, Debug, PartialEq, Eq, Structural)]
pub struct Geometry {
    pub x: i16,
    pub y: i16,
    pub width: u16,
    pub height: u16,
}

impl Geometry {
    /// Horizontal centre of the window, in pixels.
    pub open spec fn center_x(self) -> int {
        self.x + self.width / 2
    }

    /// Vertical centre of the window, in pixels.
    pub open spec fn center_y(self) -> int {
        self.y + self.height / 2
    }

    /// The window lies entirely outside a root window of the given size: its
    /// right or bottom edge is at or before the origin, or its left or top edge
    /// is at or beyond the root's far edge.
    pub open spec fn off_screen(self, root_width: u16, root_height: u16) -> bool {
        ||| self.x + self.width <= 0
        ||| self.y + self.height <= 0
        ||| self.x >= root_width
        ||| self.y >= root_height
    }

    pub fn new(x: i16, y: i16, width: u16, height: u16) -> (g: Geometry)
        ensures
            g == (Geometry { x, y, width, height }),
    {
        Geometry { x, y, width, height }
    }

    /// Centre of the window in pixels, computed without overflow.
    pub fn center(&self) -> (c: (i32, i32))
        ensures
            c.0 == self.center_x(),
            c.1 == self.center_y(),
    {
        let cx: i32 = self.x as i32 + (self.width / 2) as i32;
        let cy: i32 = self.y as i32 + (self.height / 2) as i32;
        (cx, cy)
    }

    /// Whether no pixel of the window can be visible on a root window of the
    /// given size.
    pub fn is_off_screen(&self, root_width: u16, root_height: u16) -> (r: bool)
        ensures
            r == self.off_screen(root_width, root_height),
    {
        let right: i32 = self.x as i32 + self.width as i32;
        let bottom: i32 = self.y as i32 + self.height as i32;
        right <= 0 || bottom <= 0 || self.x as i32 >= root_width as i32 || self.y as i32
            >= root_height as i32
    }
}

} // verus!
