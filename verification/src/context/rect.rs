use vstd::prelude::*;

verus! {

/// Extent of a rectangle in pixels.
#[derive(Debug, Clone, Copy, PartialEq, Eq, Structural)]
pub struct Size {
    pub width: u32,
    pub height: u32,
}

/// A rectangle in window coordinates, given by its lower left corner and its extent.
#[derive(Debug, Clone, Copy, PartialEq, Eq, Structural)]
pub struct Rect {
    pub x: u32,
    pub y: u32,
    pub size: Size,
}

impl Default for Size {
    fn default() -> (size: Self)
        ensures
            size == (Size { width: 0, height: 0 }),
    {
        Size { width: 0, height: 0 }
    }
}

impl Default for Rect {
    fn default() -> (rect: Self)
        ensures
            rect == (Rect { x: 0, y: 0, size: Size { width: 0, height: 0 } }),
    {
        Rect { x: 0, y: 0, size: Size { width: 0, height: 0 } }
    }
}

} // verus!
