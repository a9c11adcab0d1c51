//! Position and extent of a window on screen.

use vstd::prelude::*;

verus! {

/// Where a window sits and how large it is.
#[derive(Debug, Clone, Copy, PartialEq, Eq, Structural)]
pub struct WindowPosition {
    pub x: i32,
    pub y: i32,
    pub width: i32,
    pub height: i32,
    pub is_full_screen: bool,
}

impl WindowPosition {
    /// Builds a position from its raw coordinates.
    pub fn new(x: i32, y: i32, width: i32, height: i32, is_full_screen: bool) -> (r:
        WindowPosition)
        ensures
            r == (WindowPosition { x, y, width, height, is_full_screen }),
    {
        WindowPosition { x, y, width, height, is_full_screen }
    }
}

} // verus!
