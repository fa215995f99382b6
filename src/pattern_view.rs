//! A picture of a pattern table: its 256 tiles as a 16 x 16 grid of 8 x 8 pixels.
use vstd::prelude::*;
use crate::ppu::Ppu2C02;
use crate::screen::{Pixel, Sprite, master_palette};

verus! {

/// The 2-bit value of pixel (`x`, `y`) of pattern table `table` as a 128 x 128 picture:
/// tile `(y / 8) * 16 + x / 8`, row `y % 8`, bit `7 - x % 8` of the two bit planes.
pub open spec fn pattern_value(p: &Ppu2C02, table: int, x: int, y: int) -> int {
    let addr = table * 0x1000 + ((y / 8) * 16 + x / 8) * 16 + y % 8;
    let bit = (7 - x % 8) as u8;
    let lo = p.spec_ppu_read(addr as u16);
    let hi = p.spec_ppu_read((addr + 8) as u16);
    (if (hi >> bit) & 1 != 0 {
        2int
    } else {
        0int
    }) + (if (lo >> bit) & 1 != 0 {
        1int
    } else {
        0int
    })
}

/// The colour `value` has in `palette`, as the PPU would show it.
pub open spec fn palette_colour(p: &Ppu2C02, palette: int, value: int) -> (u8, u8, u8) {
    master_palette(p.spec_ppu_read((0x3F00 + palette * 4 + value) as u16) & 0x3F)
}

impl Ppu2C02 {
    /// Draws pattern table `i` (0 or 1) with `palette` (0-7) into a 128 x 128 sprite.
    pub fn get_pattern_table(&self, i: u8, palette: u8) -> (r: Sprite)
        requires
            self.wf(),
            i < 2,
            palette < 8,
        ensures
            r.wf(),
            r.width == 128,
            r.height == 128,
            forall|x: int, y: int|
                0 <= x < 128 && 0 <= y < 128 ==> {
                    let c = #[trigger] r.data@[y * 128 + x];
                    (c.0, c.1, c.2) == palette_colour(
                        self,
                        palette as int,
                        pattern_value(self, i as int, x, y),
                    )
                },
    {
        let mut data: Vec<Pixel> = Vec::new();
        let mut y: u16 = 0;
        while y < 128
            invariant
                self.wf(),
                i < 2,
                palette < 8,
                y <= 128,
                data@.len() == y * 128,
                forall|px: int, py: int|
                    0 <= px < 128 && 0 <= py < y ==> {
                        let c = #[trigger] data@[py * 128 + px];
                        (c.0, c.1, c.2) == palette_colour(
                            self,
                            palette as int,
                            pattern_value(self, i as int, px, py),
                        )
                    },
            decreases 128 - y,
        {
            let mut x: u16 = 0;
            while x < 128
                invariant
                    self.wf(),
                    i < 2,
                    palette < 8,
                    y < 128,
                    x <= 128,
                    data@.len() == y * 128 + x,
                    forall|px: int, py: int|
                        0 <= px < 128 && 0 <= py < y || 0 <= px < x && py == y ==> {
                            let c = #[trigger] data@[py * 128 + px];
                            (c.0, c.1, c.2) == palette_colour(
                                self,
                                palette as int,
                                pattern_value(self, i as int, px, py),
                            )
                        },
                decreases 128 - x,
            {
                let addr: u16 = i as u16 * 0x1000 + ((y / 8) * 16 + x / 8) * 16 + y % 8;
                let bit: u8 = (7 - x % 8) as u8;
                let lo = self.ppu_read(addr);
                let hi = self.ppu_read(addr + 8);
                let value: u8 = (if (hi >> bit) & 1 != 0 {
                    2
                } else {
                    0
                }) + (if (lo >> bit) & 1 != 0 {
                    1
                } else {
                    0
                });
                let colour = self.get_colour_from_palette_ram(palette, value);
                data.push(colour);
                x = x + 1;
            }
            y = y + 1;
        }
        Sprite { width: 128, height: 128, data }
    }
}

} // verus!
