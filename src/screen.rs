//! Output pixels, the frame buffer and the NES master palette.
use vstd::prelude::*;

verus! {

/// An RGB colour.
#[derive(Clone, Copy, Debug, PartialEq, Eq, Structural)]
pub struct Pixel(pub u8, pub u8, pub u8);

impl Pixel {
    pub fn red(&self) -> (r: u8)
        ensures
            r == self.0,
    {
        self.0
    }

    pub fn green(&self) -> (r: u8)
        ensures
            r == self.1,
    {
        self.1
    }

    pub fn blue(&self) -> (r: u8)
        ensures
            r == self.2,
    {
        self.2
    }
}

/// A width x height grid of pixels, stored row by row.
pub struct Sprite {
    pub width: u32,
    pub height: u32,
    pub data: Vec<Pixel>,
}

impl Sprite {
    pub open spec fn wf(&self) -> bool {
        self.data@.len() == self.width as int * self.height as int
    }

    /// A black sprite.
    pub fn new(width: u32, height: u32) -> (r: Sprite)
        requires
            width as int * height as int <= 0x10000,
        ensures
            r.wf(),
            r.width == width,
            r.height == height,
            forall|i: int| 0 <= i < r.data@.len() ==> r.data@[i] == Pixel(0, 0, 0),
    {
        let n: usize = width as usize * height as usize;
        let mut data: Vec<Pixel> = Vec::new();
        let mut i: usize = 0;
        while i < n
            invariant
                i <= n,
                n == width as int * height as int,
                data@.len() == i,
                forall|k: int| 0 <= k < i ==> data@[k] == Pixel(0, 0, 0),
            decreases n - i,
        {
            data.push(Pixel(0, 0, 0));
            i = i + 1;
        }
        Sprite { width, height, data }
    }

    /// Sets the pixel at column `x`, row `y`; positions outside the sprite are ignored.
    pub fn set_pixel(&mut self, x: u32, y: u32, pixel: Pixel)
        requires
            old(self).wf(),
        ensures
            final(self).wf(),
            final(self).width == old(self).width,
            final(self).height == old(self).height,
            final(self).data@ == (if x < old(self).width && y < old(self).height {
                old(self).data@.update(y as int * old(self).width as int + x as int, pixel)
            } else {
                old(self).data@
            }),
    {
        if x < self.width && y < self.height {
            proof {
                lemma_cell_in_grid(x as int, y as int, self.width as int, self.height as int);
            }
            let n = self.data.len();
            let i: usize = y as usize * self.width as usize + x as usize;
            self.data.set(i, pixel);
        }
    }

    /// The pixel at column `x`, row `y`.
    pub fn get_pixel(&self, x: u32, y: u32) -> (r: Pixel)
        requires
            self.wf(),
            x < self.width,
            y < self.height,
        ensures
            r == self.data@[y as int * self.width as int + x as int],
    {
        proof {
            lemma_cell_in_grid(x as int, y as int, self.width as int, self.height as int);
        }
        let n = self.data.len();
        self.data[y as usize * self.width as usize + x as usize]
    }
}

/// A cell of a grid lies inside it.
pub proof fn lemma_cell_in_grid(x: int, y: int, w: int, h: int)
    requires
        0 <= x < w,
        0 <= y < h,
    ensures
        0 <= y * w + x < w * h,
{
    assert(0 <= y * w + x < w * h) by (nonlinear_arith)
        requires
            0 <= x < w,
            0 <= y < h,
    ;
}

/// The 64-colour NES master palette.
pub open spec fn master_palette(index: u8) -> (u8, u8, u8) {
    match index {
        0x0 => (84, 84, 84),
        0x1 => (0, 30, 116),
        0x2 => (8, 16, 144),
        0x3 => (48, 0, 136),
        0x4 => (68, 0, 100),
        0x5 => (92, 0, 48),
        0x6 => (84, 4, 0),
        0x7 => (60, 24, 0),
        0x8 => (32, 42, 0),
        0x9 => (8, 58, 0),
        0xa => (0, 64, 0),
        0xb => (0, 60, 0),
        0xc => (0, 50, 60),
        0xd => (0, 0, 0),
        0xe => (0, 0, 0),
        0xf => (0, 0, 0),
        0x10 => (152, 150, 152),
        0x11 => (8, 76, 196),
        0x12 => (48, 50, 236),
        0x13 => (92, 30, 228),
        0x14 => (136, 20, 176),
        0x15 => (160, 20, 100),
        0x16 => (152, 34, 32),
        0x17 => (120, 60, 0),
        0x18 => (84, 90, 0),
        0x19 => (40, 114, 0),
        0x1a => (8, 124, 0),
        0x1b => (0, 118, 40),
        0x1c => (0, 102, 120),
        0x1d => (0, 0, 0),
        0x1e => (0, 0, 0),
        0x1f => (0, 0, 0),
        0x20 => (236, 238, 236),
        0x21 => (76, 154, 236),
        0x22 => (120, 124, 236),
        0x23 => (176, 98, 236),
        0x24 => (228, 84, 236),
        0x25 => (236, 88, 180),
        0x26 => (236, 106, 100),
        0x27 => (212, 136, 32),
        0x28 => (160, 170, 0),
        0x29 => (116, 196, 0),
        0x2a => (76, 208, 32),
        0x2b => (56, 204, 108),
        0x2c => (56, 180, 204),
        0x2d => (60, 60, 60),
        0x2e => (0, 0, 0),
        0x2f => (0, 0, 0),
        0x30 => (236, 238, 236),
        0x31 => (168, 204, 236),
        0x32 => (188, 188, 236),
        0x33 => (212, 178, 236),
        0x34 => (236, 174, 236),
        0x35 => (236, 174, 212),
        0x36 => (236, 180, 176),
        0x37 => (228, 196, 144),
        0x38 => (204, 210, 120),
        0x39 => (180, 222, 120),
        0x3a => (168, 226, 144),
        0x3b => (152, 226, 180),
        0x3c => (160, 214, 228),
        0x3d => (160, 162, 160),
        0x3e => (0, 0, 0),
        _ => (0, 0, 0),
    }
}

/// The RGB colour of a 6-bit palette index (higher bits are ignored).
pub fn get_color(color: u8) -> (r: Pixel)
    ensures
        (r.0, r.1, r.2) == master_palette(color & 0x3F),
{
    let index: u8 = color & 0x3F;
    proof {
        assert(color & 0x3F <= 0x3F) by (bit_vector);
    }
    match index {
        0x0 => Pixel(84, 84, 84),
        0x1 => Pixel(0, 30, 116),
        0x2 => Pixel(8, 16, 144),
        0x3 => Pixel(48, 0, 136),
        0x4 => Pixel(68, 0, 100),
        0x5 => Pixel(92, 0, 48),
        0x6 => Pixel(84, 4, 0),
        0x7 => Pixel(60, 24, 0),
        0x8 => Pixel(32, 42, 0),
        0x9 => Pixel(8, 58, 0),
        0xa => Pixel(0, 64, 0),
        0xb => Pixel(0, 60, 0),
        0xc => Pixel(0, 50, 60),
        0xd => Pixel(0, 0, 0),
        0xe => Pixel(0, 0, 0),
        0xf => Pixel(0, 0, 0),
        0x10 => Pixel(152, 150, 152),
        0x11 => Pixel(8, 76, 196),
        0x12 => Pixel(48, 50, 236),
        0x13 => Pixel(92, 30, 228),
        0x14 => Pixel(136, 20, 176),
        0x15 => Pixel(160, 20, 100),
        0x16 => Pixel(152, 34, 32),
        0x17 => Pixel(120, 60, 0),
        0x18 => Pixel(84, 90, 0),
        0x19 => Pixel(40, 114, 0),
        0x1a => Pixel(8, 124, 0),
        0x1b => Pixel(0, 118, 40),
        0x1c => Pixel(0, 102, 120),
        0x1d => Pixel(0, 0, 0),
        0x1e => Pixel(0, 0, 0),
        0x1f => Pixel(0, 0, 0),
        0x20 => Pixel(236, 238, 236),
        0x21 => Pixel(76, 154, 236),
        0x22 => Pixel(120, 124, 236),
        0x23 => Pixel(176, 98, 236),
        0x24 => Pixel(228, 84, 236),
        0x25 => Pixel(236, 88, 180),
        0x26 => Pixel(236, 106, 100),
        0x27 => Pixel(212, 136, 32),
        0x28 => Pixel(160, 170, 0),
        0x29 => Pixel(116, 196, 0),
        0x2a => Pixel(76, 208, 32),
        0x2b => Pixel(56, 204, 108),
        0x2c => Pixel(56, 180, 204),
        0x2d => Pixel(60, 60, 60),
        0x2e => Pixel(0, 0, 0),
        0x2f => Pixel(0, 0, 0),
        0x30 => Pixel(236, 238, 236),
        0x31 => Pixel(168, 204, 236),
        0x32 => Pixel(188, 188, 236),
        0x33 => Pixel(212, 178, 236),
        0x34 => Pixel(236, 174, 236),
        0x35 => Pixel(236, 174, 212),
        0x36 => Pixel(236, 180, 176),
        0x37 => Pixel(228, 196, 144),
        0x38 => Pixel(204, 210, 120),
        0x39 => Pixel(180, 222, 120),
        0x3a => Pixel(168, 226, 144),
        0x3b => Pixel(152, 226, 180),
        0x3c => Pixel(160, 214, 228),
        0x3d => Pixel(160, 162, 160),
        0x3e => Pixel(0, 0, 0),
        _ => Pixel(0, 0, 0),
    }
}

} // verus!
