//! The display sink: the GPU hands it one decoded scanline at a time and a
//! whole-frame flush signal; what it does with them is the back-end's
//! business.

use vstd::prelude::*;

verus! {

/// A consumer of decoded video output. `write_scanline` receives a logical
/// 256-pixel row of 2-bit colour values for line `y`; `render_framebuffer`
/// asks for the finished frame to be shown, windowed by the scroll
/// registers.
pub trait Display {
    fn write_scanline(&mut self, y: u8, data: &[u8]);

    fn render_framebuffer(&mut self, scrollx: u8, scrolly: u8);
}

/// A sink that discards everything; handy for headless runs and tests.
pub struct DebugDisplay;

impl Display for DebugDisplay {
    fn write_scanline(&mut self, y: u8, data: &[u8]) {
    }

    fn render_framebuffer(&mut self, scrollx: u8, scrolly: u8) {
    }
}

} // verus!
