//! The terminal-size descriptor handed to the pseudo-terminal request:
//! four unsigned 32-bit quantities, immutable once passed into `open`.

use vstd::prelude::*;

verus! {

/// Width and height of the local terminal, in characters and in pixels.
#[derive(Clone, Copy, Debug, PartialEq, Eq, Structural)]
pub struct TerminalSize {
    pub width: u32,
    pub height: u32,
    pub width_pixels: u32,
    pub height_pixels: u32,
}

impl TerminalSize {
    pub fn new(width: u32, height: u32, width_pixels: u32, height_pixels: u32) -> (r:
        TerminalSize)
        ensures
            r.width == width,
            r.height == height,
            r.width_pixels == width_pixels,
            r.height_pixels == height_pixels,
    {
        TerminalSize { width, height, width_pixels, height_pixels }
    }

    /// The four quantities as an ordered tuple, in width-chars,
    /// height-chars, width-pixels, height-pixels order.
    pub fn fetch(&self) -> (r: (u32, u32, u32, u32))
        ensures
            r.0 == self.width,
            r.1 == self.height,
            r.2 == self.width_pixels,
            r.3 == self.height_pixels,
    {
        (self.width, self.height, self.width_pixels, self.height_pixels)
    }
}

} // verus!
