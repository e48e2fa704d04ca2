//! The window record: where the window stands on the desktop and how large
//! it is, in whole pixels.
use vstd::prelude::*;

verus! {

/// Position and size of the window.
#[derive(Clone, Copy, Debug, Default, PartialEq, Eq, Structural)]
pub struct WindowGeometry {
    pub x: u32,
    pub y: u32,
    pub width: u32,
    pub height: u32,
}

/// A desktop coordinate as the record keeps it: negative ones become 0.
pub open spec fn unsigned_coord(v: i32) -> u32 {
    if v < 0 {
        0
    } else {
        v as u32
    }
}

impl WindowGeometry {
    /// The record for a window of the given size. `position` is where the
    /// window was placed, or `None` when the platform chose the place, which
    /// the record then shows as the origin.
    pub fn from_window(position: Option<(i32, i32)>, width: u32, height: u32) -> (r: Self)
        ensures
            r.width == width,
            r.height == height,
            match position {
                Some((px, py)) => r.x == unsigned_coord(px) && r.y == unsigned_coord(py),
                None => r.x == 0 && r.y == 0,
            },
    {
        let (x, y) = match position {
            Some((px, py)) => (
                if px < 0 {
                    0
                } else {
                    px as u32
                },
                if py < 0 {
                    0
                } else {
                    py as u32
                },
            ),
            None => (0, 0),
        };
        WindowGeometry { x, y, width, height }
    }
}

} // verus!
