//! The window's position and size, as it is kept between runs.
use vstd::prelude::*;

verus! {

/// A window's size and the position of its top left corner.
#[derive(Clone, Copy, Debug, PartialEq, Eq, Structural)]
pub struct WindowGeometry {
    pub width: i32,
    pub height: i32,
    pub x: i32,
    pub y: i32,
}

impl WindowGeometry {
    /// The geometry of a window that has none saved: the window's minimum
    /// size, near the top left corner.
    pub fn default_geometry() -> (r: WindowGeometry)
        ensures
            r == (WindowGeometry { width: 1000, height: 600, x: 100, y: 100 }),
    {
        WindowGeometry { width: 1000, height: 600, x: 100, y: 100 }
    }

    /// The geometry to open the window with: the saved one where it could be
    /// read, else the default.
    pub fn restore(saved: Option<WindowGeometry>) -> (r: WindowGeometry)
        ensures
            r == (match saved {
                Some(g) => g,
                None => WindowGeometry { width: 1000, height: 600, x: 100, y: 100 },
            }),
    {
        match saved {
            Some(g) => g,
            None => WindowGeometry::default_geometry(),
        }
    }
}

} // verus!
