//! A buffered display sink: scanlines are shaded into a full logical frame,
//! and a flush copies the scroll-windowed visible region into an output
//! buffer and raises a dirty flag for the embedding front end to poll.

use vstd::prelude::*;
use crate::cpu::add8;
use crate::display::Display;

verus! {

/// The grey level shown for each 2-bit colour value; colours above 3 cannot
/// come out of the scanline decoder and shade to black.
pub open spec fn shade_of(pixel: u8) -> u8 {
    if pixel == 0 {
        255
    } else if pixel == 1 {
        192
    } else if pixel == 2 {
        96
    } else {
        0
    }
}

/// A display sink that keeps the whole 256-by-256 logical frame, plus the
/// 160-by-144 visible window that the last flush produced.
pub struct WasmDisplay {
    dirty: bool,
    buffer: Vec<u8>,
    output_buf: Vec<u8>,
}

impl WasmDisplay {
    /// The logical frame, one shaded byte per pixel, row-major with rows of
    /// 256.
    pub closed spec fn frame(&self) -> Seq<u8> {
        self.buffer@
    }

    /// The visible window the last flush produced, row-major with rows of
    /// 160.
    pub closed spec fn output(&self) -> Seq<u8> {
        self.output_buf@
    }

    /// Whether a flush has happened since the flag was last polled.
    pub closed spec fn spec_dirty(&self) -> bool {
        self.dirty
    }

    #[verifier::type_invariant]
    spec fn wf(self) -> bool {
        self.buffer@.len() == 0x10000 && self.output_buf@.len() == 160 * 144
    }

    /// A blank display: both buffers white, nothing to show yet.
    pub fn new() -> (r: WasmDisplay)
        ensures
            r.frame().len() == 0x10000,
            forall|i: int| 0 <= i < 0x10000 ==> r.frame()[i] == 255,
            r.output().len() == 160 * 144,
            forall|i: int| 0 <= i < 160 * 144 ==> r.output()[i] == 255,
            !r.spec_dirty(),
    {
        let mut buffer: Vec<u8> = Vec::new();
        let mut i: usize = 0;
        while i < 0x10000
            invariant
                i <= 0x10000,
                buffer@.len() == i,
                forall|k: int| 0 <= k < i ==> buffer@[k] == 255,
            decreases 0x10000 - i,
        {
            buffer.push(255);
            i = i + 1;
        }
        let mut output_buf: Vec<u8> = Vec::new();
        let mut j: usize = 0;
        while j < 160 * 144
            invariant
                j <= 160 * 144,
                output_buf@.len() == j,
                forall|k: int| 0 <= k < j ==> output_buf@[k] == 255,
            decreases 160 * 144 - j,
        {
            output_buf.push(255);
            j = j + 1;
        }
        WasmDisplay { dirty: false, buffer, output_buf }
    }

    /// A copy of the visible window.
    pub fn buffer(&self) -> (r: Vec<u8>)
        ensures
            r@ == self.output(),
    {
        proof {
            use_type_invariant(self);
        }
        let mut r: Vec<u8> = Vec::new();
        let mut i: usize = 0;
        while i < self.output_buf.len()
            invariant
                i <= self.output_buf@.len(),
                r@ == self.output_buf@.subrange(0, i as int),
            decreases self.output_buf@.len() - i,
        {
            r.push(self.output_buf[i]);
            proof {
                assert(self.output_buf@.subrange(0, i + 1) == self.output_buf@.subrange(
                    0,
                    i as int,
                ).push(self.output_buf@[i as int]));
            }
            i = i + 1;
        }
        proof {
            assert(self.output_buf@.subrange(0, self.output_buf@.len() as int)
                == self.output_buf@);
        }
        r
    }

    /// Report and clear the dirty flag.
    pub fn is_dirty(&mut self) -> (r: bool)
        ensures
            r == old(self).spec_dirty(),
            !final(self).spec_dirty(),
            final(self).frame() == old(self).frame(),
            final(self).output() == old(self).output(),
    {
        proof {
            use_type_invariant(&*self);
        }
        let ret = self.dirty;
        self.dirty = false;
        ret
    }

    /// Shade one scanline into row `y` of the logical frame.
    pub fn blit_scanline(&mut self, y: u8, data: &[u8])
        requires
            data@.len() <= 256,
        ensures
            final(self).frame().len() == old(self).frame().len(),
            forall|i: int|
                0 <= i < data@.len() ==> final(self).frame()[256 * (y as int) + i] == shade_of(
                    data@[i],
                ),
            forall|k: int|
                0 <= k < 0x10000 && !(256 * (y as int) <= k < 256 * (y as int) + data@.len())
                    ==> final(self).frame()[k] == old(self).frame()[k],
            final(self).output() == old(self).output(),
            final(self).spec_dirty() == old(self).spec_dirty(),
    {
        proof {
            use_type_invariant(&*self);
        }
        let mut i: usize = 0;
        while i < data.len()
            invariant
                i <= data@.len(),
                data@.len() <= 256,
                y < 256,
                self.buffer@.len() == 0x10000,
                self.output_buf == old(self).output_buf,
                self.output_buf@.len() == 160 * 144,
                self.dirty == old(self).dirty,
                forall|k: int|
                    0 <= k < i ==> self.buffer@[256 * (y as int) + k] == shade_of(data@[k]),
                forall|k: int|
                    0 <= k < 0x10000 && !(256 * (y as int) <= k < 256 * (y as int) + i)
                        ==> self.buffer@[k] == old(self).buffer@[k],
            decreases data@.len() - i,
        {
            let pixel = data[i];
            let shaded: u8 = if pixel == 0 {
                255
            } else if pixel == 1 {
                192
            } else if pixel == 2 {
                96
            } else {
                0
            };
            self.buffer[256 * (y as usize) + i] = shaded;
            i = i + 1;
        }
    }

    /// Copy the visible 160-by-144 window out of the logical frame, with
    /// both coordinates offset by the scroll registers and wrapping at the
    /// frame edge, and raise the dirty flag.
    pub fn flush_frame(&mut self, scrollx: u8, scrolly: u8)
        ensures
            final(self).frame() == old(self).frame(),
            final(self).output().len() == 160 * 144,
            forall|y: int, x: int|
                0 <= y < 144 && 0 <= x < 160 ==> final(self).output()[y * 160 + x] == old(
                    self,
                ).frame()[(#[trigger] add8(y as u8, scrolly) as int) * 256 + (#[trigger] add8(
                    x as u8,
                    scrollx,
                ) as int)],
            final(self).spec_dirty(),
    {
        proof {
            use_type_invariant(&*self);
        }
        let mut y: usize = 0;
        while y < 144
            invariant
                y <= 144,
                self.buffer == old(self).buffer,
                self.buffer@.len() == 0x10000,
                self.output_buf@.len() == 160 * 144,
                forall|yy: int, x: int|
                    0 <= yy < y && 0 <= x < 160 ==> self.output_buf@[yy * 160 + x] == self.buffer@[(
                    #[trigger] add8(yy as u8, scrolly) as int) * 256 + (#[trigger] add8(
                        x as u8,
                        scrollx,
                    ) as int)],
            decreases 144 - y,
        {
            let mut x: usize = 0;
            while x < 160
                invariant
                    y < 144,
                    x <= 160,
                    self.buffer == old(self).buffer,
                    self.buffer@.len() == 0x10000,
                    self.output_buf@.len() == 160 * 144,
                    forall|yy: int, xx: int|
                        0 <= yy < y && 0 <= xx < 160 ==> self.output_buf@[yy * 160 + xx]
                            == self.buffer@[(#[trigger] add8(yy as u8, scrolly) as int) * 256 + (
                        #[trigger] add8(xx as u8, scrollx) as int)],
                    forall|xx: int|
                        0 <= xx < x ==> self.output_buf@[y as int * 160 + xx] == self.buffer@[(add8(
                        y as u8,
                        scrolly,
                        ) as int) * 256 + (#[trigger] add8(xx as u8, scrollx) as int)],
                decreases 160 - x,
            {
                let scrolled_x = (x as u8).wrapping_add(scrollx);
                let scrolled_y = (y as u8).wrapping_add(scrolly);
                let v = self.buffer[(scrolled_y as usize) * 256 + scrolled_x as usize];
                self.output_buf[y * 160 + x] = v;
                x = x + 1;
            }
            y = y + 1;
        }
        self.dirty = true;
    }
}

impl Display for WasmDisplay {
    fn write_scanline(&mut self, y: u8, data: &[u8]) {
        if data.len() <= 256 {
            self.blit_scanline(y, data);
        }
    }

    fn render_framebuffer(&mut self, scrollx: u8, scrolly: u8) {
        self.flush_frame(scrollx, scrolly);
    }
}

} // verus!
