use vstd::prelude::*;

use crate::tile::Pixel;

verus! {

pub const LCD_WIDTH: usize = 160;

pub const LCD_HEIGHT: usize = 144;

/// Pixels of one frame.
pub const FRAME_SIZE: usize = 23040;

/// Where the PPU puts its pixels.
pub trait Renderer {
    fn set_pixel(&mut self, pixel: Pixel, y: usize, x: usize);

    fn get_framebuffer(&self) -> Vec<Pixel>;

    fn v_blank(&mut self);

    fn h_blank(&mut self);
}

/// A framebuffer of 144 rows of 160 pixels, row after row.
#[derive(Debug, Clone)]
pub struct WGPURenderer {
    pub frame_buffer: Vec<Pixel>,
}

impl WGPURenderer {
    pub open spec fn wf(&self) -> bool {
        self.frame_buffer@.len() == FRAME_SIZE
    }

    /// The pixel at row `y`, column `x`.
    pub open spec fn at(&self, y: int, x: int) -> Pixel {
        self.frame_buffer@[y * 160 + x]
    }

    pub fn new() -> (r: Self)
        ensures
            r.wf(),
            forall|i: int| 0 <= i < FRAME_SIZE ==> r.frame_buffer@[i] == Pixel::Color0,
    {
        let mut v: Vec<Pixel> = Vec::new();
        let mut i: usize = 0;
        while i < FRAME_SIZE
            invariant
                i <= FRAME_SIZE,
                v@.len() == i,
                forall|j: int| 0 <= j < i ==> v@[j] == Pixel::Color0,
            decreases FRAME_SIZE - i,
        {
            v.push(Pixel::Color0);
            i = i + 1;
        }
        WGPURenderer { frame_buffer: v }
    }

    pub fn put_pixel(&mut self, pixel: Pixel, y: usize, x: usize)
        requires
            old(self).wf(),
            y < LCD_HEIGHT,
            x < LCD_WIDTH,
        ensures
            final(self).frame_buffer@ == old(self).frame_buffer@.update(y * 160 + x, pixel),
    {
        self.frame_buffer.set(y * 160 + x, pixel);
    }

    /// A copy of the frame, row after row.
    pub fn framebuffer(&self) -> (r: Vec<Pixel>)
        ensures
            r@ == self.frame_buffer@,
    {
        self.frame_buffer.clone()
    }
}

impl Renderer for WGPURenderer {
    fn set_pixel(&mut self, pixel: Pixel, y: usize, x: usize) {
        if y < LCD_HEIGHT && x < LCD_WIDTH && self.frame_buffer.len() == FRAME_SIZE {
            self.put_pixel(pixel, y, x);
        }
    }

    fn get_framebuffer(&self) -> Vec<Pixel> {
        self.framebuffer()
    }

    fn v_blank(&mut self) {
    }

    fn h_blank(&mut self) {
    }
}

} // verus!
