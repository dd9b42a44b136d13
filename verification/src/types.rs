use vstd::prelude::*;

verus! {

/// Size of the viewport in pixels. It stays the same for a whole run.
#[derive(Clone, Copy, Debug, PartialEq, Eq, Structural)]
pub struct WindowSize {
    pub height: usize,
    pub width: usize,
}

impl WindowSize {
    /// Number of pixels of a viewport of this size.
    pub open spec fn area(&self) -> int {
        self.width * self.height
    }
}

/// What the engine tells every game object once per frame.
#[derive(Clone, Copy, Debug, PartialEq, Eq, Structural)]
pub struct ObjectInfo {
    pub window_size: WindowSize,
}

/// A position on the pixel grid: the top-left corner at which a sprite is
/// anchored, with the fractional part of the object's position cut off.
/// Coordinates may lie outside the viewport, on either side.
#[derive(Clone, Copy, Debug, PartialEq, Eq, Structural)]
pub struct PixelCoords {
    pub x: i64,
    pub y: i64,
}

} // verus!
