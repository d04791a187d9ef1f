//! Panel geometry: fixed process-wide constants and pixel rectangles.

use vstd::prelude::*;

verus! {

/// Panel width in pixels.
pub const WIDTH: usize = 800;

/// Panel height in pixels.
pub const HEIGHT: usize = 480;

/// Size in bytes of a full 1-bit-per-pixel frame.
pub const BUF_SIZE: usize = (WIDTH * HEIGHT) / 8;

/// A rectangle in pixel coordinates.
///
/// Partial updates address the panel in byte columns, so a rectangle used as
/// a partial window has `x` and `w` aligned to multiples of 8.
#[derive(Clone, Copy, Debug, PartialEq, Eq, Structural)]
pub struct Rect {
    pub x: usize,
    pub y: usize,
    pub w: usize,
    pub h: usize,
}

impl Rect {
    /// The rectangle lies within the panel and is byte-aligned, as the
    /// panel's partial-window addressing requires.
    pub open spec fn is_partial_window(self) -> bool {
        &&& self.x % 8 == 0
        &&& self.w % 8 == 0
        &&& self.w >= 1
        &&& self.h >= 1
        &&& self.x + self.w <= WIDTH
        &&& self.y + self.h <= HEIGHT
    }
}

} // verus!
