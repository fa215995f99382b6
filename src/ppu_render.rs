//! The PPU's rendering pipeline: scrolling, background and sprite shifters, pixel
//! composition, and the dot clock.
use vstd::prelude::*;
use crate::ppu::Ppu2C02;
use crate::registers::{LoopyRegister, Mask, with_field_u16};

verus! {

/// Background or sprites are shown, so the scroll registers move.
pub open spec fn rendering_enabled(m: Mask) -> bool {
    m.spec_render_background() > 0 || m.spec_render_sprites() > 0
}

/// `v` moved one tile right, wrapping into the horizontally adjacent nametable.
pub open spec fn scrolled_x(v: LoopyRegister) -> u16 {
    if v.spec_coarse_x() == 31 {
        with_field_u16(with_field_u16(v.reg, 0, 5, 0), 10, 1, (v.spec_nametable_x() ^ 1) as u16)
    } else {
        with_field_u16(v.reg, 0, 5, (v.spec_coarse_x() + 1) as u16)
    }
}

/// `v` moved one pixel down: fine Y rolls into coarse Y, which wraps at row 29 into the
/// vertically adjacent nametable, or at row 31 (attribute rows) in place.
pub open spec fn scrolled_y(v: LoopyRegister) -> u16 {
    if v.spec_fine_y() < 7 {
        with_field_u16(v.reg, 12, 3, (v.spec_fine_y() + 1) as u16)
    } else {
        let r = with_field_u16(v.reg, 12, 3, 0);
        if v.spec_coarse_y() == 29 {
            with_field_u16(with_field_u16(r, 5, 5, 0), 11, 1, (v.spec_nametable_y() ^ 1) as u16)
        } else if v.spec_coarse_y() == 31 {
            with_field_u16(r, 5, 5, 0)
        } else {
            with_field_u16(r, 5, 5, (v.spec_coarse_y() + 1) as u16)
        }
    }
}

/// `v` with the horizontal scroll (nametable X, coarse X) of `t`.
pub open spec fn transferred_x(v: LoopyRegister, t: LoopyRegister) -> u16 {
    with_field_u16(with_field_u16(v.reg, 10, 1, t.spec_nametable_x() as u16), 0, 5, t.spec_coarse_x() as u16)
}

/// `v` with the vertical scroll (fine Y, nametable Y, coarse Y) of `t`.
pub open spec fn transferred_y(v: LoopyRegister, t: LoopyRegister) -> u16 {
    with_field_u16(
        with_field_u16(with_field_u16(v.reg, 12, 3, t.spec_fine_y() as u16), 11, 1, t.spec_nametable_y() as u16),
        5,
        5,
        t.spec_coarse_y() as u16,
    )
}

/// A shifter's low byte replaced by `next`.
pub open spec fn reloaded(shifter: u16, next: u16) -> u16 {
    (shifter & 0xFF00) | next
}

/// An attribute shifter's low byte filled with one palette bit.
pub open spec fn attribute_fill(bit: bool) -> u16 {
    if bit {
        0xFF
    } else {
        0x00
    }
}

impl Ppu2C02 {
    /// Moves `vram_addr` one tile right while rendering is enabled.
    pub fn increment_scroll_x(&mut self)
        requires
            old(self).wf(),
        ensures
            final(self).wf(),
            final(self).unchanged_except(old(self), true, false, false, false, false),
            final(self).vram_addr.reg == (if rendering_enabled(old(self).mask) {
                scrolled_x(old(self).vram_addr)
            } else {
                old(self).vram_addr.reg
            }),
    {
        if self.mask.get_render_background() || self.mask.get_render_sprites() {
            let cx = self.vram_addr.get_coarse_x();
            let nx = self.vram_addr.get_nametable_x();
            if cx == 31 {
                self.vram_addr.set_coarse_x(0);
                self.vram_addr.set_nametable_x(nx ^ 1);
            } else {
                self.vram_addr.set_coarse_x(cx + 1);
            }
        }
    }

    /// Moves `vram_addr` one pixel row down while rendering is enabled.
    pub fn increment_scroll_y(&mut self)
        requires
            old(self).wf(),
        ensures
            final(self).wf(),
            final(self).unchanged_except(old(self), true, false, false, false, false),
            final(self).vram_addr.reg == (if rendering_enabled(old(self).mask) {
                scrolled_y(old(self).vram_addr)
            } else {
                old(self).vram_addr.reg
            }),
    {
        if self.mask.get_render_background() || self.mask.get_render_sprites() {
            let fy = self.vram_addr.get_fine_y();
            let cy = self.vram_addr.get_coarse_y();
            let ny = self.vram_addr.get_nametable_y();
            if fy < 7 {
                self.vram_addr.set_fine_y(fy + 1);
            } else {
                self.vram_addr.set_fine_y(0);
                if cy == 29 {
                    self.vram_addr.set_coarse_y(0);
                    self.vram_addr.set_nametable_y(ny ^ 1);
                } else if cy == 31 {
                    self.vram_addr.set_coarse_y(0);
                } else {
                    self.vram_addr.set_coarse_y(cy + 1);
                }
            }
        }
    }

    /// Copies the horizontal scroll from `tram_addr` while rendering is enabled.
    pub fn transfer_address_x(&mut self)
        requires
            old(self).wf(),
        ensures
            final(self).wf(),
            final(self).unchanged_except(old(self), true, false, false, false, false),
            final(self).vram_addr.reg == (if rendering_enabled(old(self).mask) {
                transferred_x(old(self).vram_addr, old(self).tram_addr)
            } else {
                old(self).vram_addr.reg
            }),
    {
        if self.mask.get_render_background() || self.mask.get_render_sprites() {
            let nx = self.tram_addr.get_nametable_x();
            let cx = self.tram_addr.get_coarse_x();
            self.vram_addr.set_nametable_x(nx);
            self.vram_addr.set_coarse_x(cx);
        }
    }

    /// Copies the vertical scroll from `tram_addr` while rendering is enabled.
    pub fn transfer_address_y(&mut self)
        requires
            old(self).wf(),
        ensures
            final(self).wf(),
            final(self).unchanged_except(old(self), true, false, false, false, false),
            final(self).vram_addr.reg == (if rendering_enabled(old(self).mask) {
                transferred_y(old(self).vram_addr, old(self).tram_addr)
            } else {
                old(self).vram_addr.reg
            }),
    {
        if self.mask.get_render_background() || self.mask.get_render_sprites() {
            let fy = self.tram_addr.get_fine_y();
            let ny = self.tram_addr.get_nametable_y();
            let cy = self.tram_addr.get_coarse_y();
            self.vram_addr.set_fine_y(fy);
            self.vram_addr.set_nametable_y(ny);
            self.vram_addr.set_coarse_y(cy);
        }
    }

    /// Moves the fetched tile into the low bytes of the background shifters.
    pub fn load_background_shifters(&mut self)
        requires
            old(self).wf(),
        ensures
            final(self).wf(),
            final(self).unchanged_except(old(self), false, false, true, false, false),
            final(self).bg_next_tile_id == old(self).bg_next_tile_id,
            final(self).bg_next_tile_attrib == old(self).bg_next_tile_attrib,
            final(self).bg_next_tile_lsb == old(self).bg_next_tile_lsb,
            final(self).bg_next_tile_msb == old(self).bg_next_tile_msb,
            final(self).bg_shifter_pattern_lo == reloaded(
                old(self).bg_shifter_pattern_lo,
                old(self).bg_next_tile_lsb as u16,
            ),
            final(self).bg_shifter_pattern_hi == reloaded(
                old(self).bg_shifter_pattern_hi,
                old(self).bg_next_tile_msb as u16,
            ),
            final(self).bg_shifter_attrib_lo == reloaded(
                old(self).bg_shifter_attrib_lo,
                attribute_fill(old(self).bg_next_tile_attrib & 0x01 != 0),
            ),
            final(self).bg_shifter_attrib_hi == reloaded(
                old(self).bg_shifter_attrib_hi,
                attribute_fill(old(self).bg_next_tile_attrib & 0x02 != 0),
            ),
    {
        self.bg_shifter_pattern_lo = (self.bg_shifter_pattern_lo & 0xFF00)
            | self.bg_next_tile_lsb as u16;
        self.bg_shifter_pattern_hi = (self.bg_shifter_pattern_hi & 0xFF00)
            | self.bg_next_tile_msb as u16;
        self.bg_shifter_attrib_lo = (self.bg_shifter_attrib_lo & 0xFF00) | (
        if self.bg_next_tile_attrib & 0x01 != 0 {
            0xFF
        } else {
            0x00
        });
        self.bg_shifter_attrib_hi = (self.bg_shifter_attrib_hi & 0xFF00) | (
        if self.bg_next_tile_attrib & 0x02 != 0 {
            0xFF
        } else {
            0x00
        });
    }
}

} // verus!

verus! {

use crate::registers::{ObjectAttributeEntry, PpuControl, field_u8, with_field_u8, lemma_field_u8_same, lemma_field_u8_other};
use crate::ppu::{SCREEN_WIDTH, SCREEN_HEIGHT};
use crate::screen::master_palette;

/// One step of a sprite slot on a dot: its X counter counts down to zero, after which its
/// pattern shifters move.
pub open spec fn stepped_entry(e: ObjectAttributeEntry) -> ObjectAttributeEntry {
    if e.x > 0 {
        ObjectAttributeEntry { x: (e.x - 1) as u8, ..e }
    } else {
        e
    }
}

/// Sprite slot `i` takes part in this dot's sprite shifting.
pub open spec fn sprite_slot_active(p: &Ppu2C02, i: int) -> bool {
    p.mask.spec_render_sprites() > 0 && 1 <= p.cycle < 258 && i < p.sprite_count
}

/// Bit `15 - fine_x` of a background shifter.
pub open spec fn selected_bit(shifter: u16, fine_x: u8) -> int {
    if shifter & (0x8000u16 >> fine_x as u16) != 0 {
        1
    } else {
        0
    }
}

/// The background's 2-bit pixel and palette at dot `cycle`, from the four shifters.
pub open spec fn bg_pixel_of(m: Mask, fine_x: u8, cycle: i16, lo: u16, hi: u16, alo: u16, ahi: u16) -> (u8, u8) {
    if m.spec_render_background() > 0 && (m.spec_render_background_left() > 0 || cycle >= 9) {
        (
            (selected_bit(hi, fine_x) * 2 + selected_bit(lo, fine_x)) as u8,
            (selected_bit(ahi, fine_x) * 2 + selected_bit(alo, fine_x)) as u8,
        )
    } else {
        (0, 0)
    }
}

/// The background's 2-bit pixel and palette at the current dot.
pub open spec fn background_pixel(p: &Ppu2C02) -> (u8, u8) {
    bg_pixel_of(
        p.mask,
        p.fine_x,
        p.cycle,
        p.bg_shifter_pattern_lo,
        p.bg_shifter_pattern_hi,
        p.bg_shifter_attrib_lo,
        p.bg_shifter_attrib_hi,
    )
}

/// The 2-bit pattern value at the top of sprite slot `i`'s shifters.
pub open spec fn slot_pixel_of(lo: Seq<u8>, hi: Seq<u8>, i: int) -> int {
    (if hi[i] & 0x80 != 0 {
        2int
    } else {
        0int
    }) + (if lo[i] & 0x80 != 0 {
        1int
    } else {
        0int
    })
}

/// The 2-bit pattern value at the top of sprite slot `i`'s shifters.
pub open spec fn sprite_slot_pixel(p: &Ppu2C02, i: int) -> int {
    slot_pixel_of(p.sprite_shifter_pattern_lo@, p.sprite_shifter_pattern_hi@, i)
}

/// The first of the `count` sprite slots from `i` on that is active and opaque, or 8.
pub open spec fn first_opaque_of(
    count: u8,
    scan: Seq<ObjectAttributeEntry>,
    lo: Seq<u8>,
    hi: Seq<u8>,
    i: int,
) -> int
    decreases 8 - i,
{
    if i >= 8 || i >= count {
        8
    } else if scan[i].x == 0 && slot_pixel_of(lo, hi, i) != 0 {
        i
    } else {
        first_opaque_of(count, scan, lo, hi, i + 1)
    }
}

/// The first sprite slot from `i` on that is active and opaque at this dot, or 8.
pub open spec fn first_opaque_sprite(p: &Ppu2C02, i: int) -> int {
    first_opaque_of(
        p.sprite_count,
        p.sprite_scanline@,
        p.sprite_shifter_pattern_lo@,
        p.sprite_shifter_pattern_hi@,
        i,
    )
}

/// Sprites are drawn at dot `cycle`.
pub open spec fn fg_shown_of(m: Mask, cycle: i16) -> bool {
    m.spec_render_sprites() > 0 && (m.spec_render_sprites_left() > 0 || cycle >= 9)
}

/// Sprites are drawn at this dot.
pub open spec fn foreground_shown(p: &Ppu2C02) -> bool {
    fg_shown_of(p.mask, p.cycle)
}

/// The sprites' 2-bit pixel, palette (4-7) and front priority at dot `cycle`.
pub open spec fn fg_pixel_of(
    m: Mask,
    cycle: i16,
    count: u8,
    scan: Seq<ObjectAttributeEntry>,
    lo: Seq<u8>,
    hi: Seq<u8>,
) -> (u8, u8, bool) {
    let i = first_opaque_of(count, scan, lo, hi, 0);
    if fg_shown_of(m, cycle) && i < 8 {
        let a = scan[i].attribute;
        (slot_pixel_of(lo, hi, i) as u8, ((a & 0x03) + 4) as u8, a & 0x20 == 0)
    } else {
        (0, 0, false)
    }
}

/// The sprites' 2-bit pixel, palette (4-7) and front priority at the current dot.
pub open spec fn foreground_pixel(p: &Ppu2C02) -> (u8, u8, bool) {
    fg_pixel_of(
        p.mask,
        p.cycle,
        p.sprite_count,
        p.sprite_scanline@,
        p.sprite_shifter_pattern_lo@,
        p.sprite_shifter_pattern_hi@,
    )
}

/// Priority between the background and the sprites: transparent background shows the
/// sprite, transparent sprite shows the background, and between two opaque pixels the
/// sprite's priority bit decides. Both transparent gives the backdrop (0, 0).
pub open spec fn composed_pixel(bg: (u8, u8), fg: (u8, u8, bool)) -> (u8, u8) {
    if bg.0 == 0 && fg.0 == 0 {
        (0, 0)
    } else if bg.0 == 0 {
        (fg.0, fg.1)
    } else if fg.0 == 0 {
        (bg.0, bg.1)
    } else if fg.2 {
        (fg.0, fg.1)
    } else {
        (bg.0, bg.1)
    }
}

/// Sprite 0 and the background are both opaque at a dot where both layers are shown:
/// dots 1-255, or 9-255 when either layer is clipped at the left edge.
pub open spec fn zero_hits_of(
    m: Mask,
    cycle: i16,
    possible: bool,
    bg: (u8, u8),
    fg: (u8, u8, bool),
    first: int,
) -> bool {
    &&& bg.0 != 0
    &&& fg.0 != 0
    &&& possible
    &&& first == 0
    &&& m.spec_render_background() > 0
    &&& m.spec_render_sprites() > 0
    &&& (if m.spec_render_background_left() > 0 && m.spec_render_sprites_left() > 0 {
        1 <= cycle <= 255
    } else {
        9 <= cycle <= 255
    })
}

/// Sprite 0 and the background are both opaque at this dot, where both layers are shown.
pub open spec fn sprite_zero_hits(p: &Ppu2C02) -> bool {
    zero_hits_of(
        p.mask,
        p.cycle,
        p.sprite_zero_hit_possible,
        background_pixel(p),
        foreground_pixel(p),
        first_opaque_sprite(p, 0),
    )
}

/// Sprite height in pixels: 8, or 16 in 8x16 mode.
pub open spec fn sprite_height(c: PpuControl) -> int {
    if c.spec_sprite_size() > 0 {
        16
    } else {
        8
    }
}

/// The sprite covers the line after `scanline`, the one being prepared: its rows are
/// `[y, y + height)`.
pub open spec fn on_scanline(e: ObjectAttributeEntry, scanline: i16, height: int) -> bool {
    0 <= scanline + 1 - e.y < height
}

/// The sprites among the first `n` of OAM that cover the line after `scanline`, in OAM
/// order.
pub open spec fn sprites_on_line(
    oam: Seq<ObjectAttributeEntry>,
    n: int,
    scanline: i16,
    height: int,
) -> Seq<ObjectAttributeEntry>
    decreases n,
{
    if n <= 0 {
        Seq::empty()
    } else {
        let s = sprites_on_line(oam, n - 1, scanline, height);
        if on_scanline(oam[n - 1], scanline, height) {
            s.push(oam[n - 1])
        } else {
            s
        }
    }
}

/// The row of the sprite that the line after `scanline` shows, counted from its top.
pub open spec fn sprite_row(e: ObjectAttributeEntry, scanline: i16) -> int {
    if scanline + 1 >= e.y {
        scanline + 1 - e.y
    } else {
        0
    }
}

/// Address of the low pattern byte of the row of sprite `e` on `scanline`, honouring
/// vertical flip and, for 8x16 sprites, the table chosen by bit 0 of the tile and the
/// tile of the pair chosen by the row.
pub open spec fn sprite_pattern_addr(c: PpuControl, e: ObjectAttributeEntry, scanline: i16) -> int {
    let row = sprite_row(e, scanline);
    let vflip = e.attribute & 0x80 != 0;
    let fine = if vflip {
        7 - row % 8
    } else {
        row % 8
    };
    if c.spec_sprite_size() == 0 {
        c.spec_pattern_sprite() as int * 0x1000 + e.id as int * 16 + fine
    } else {
        let top = row % 16 < 8;
        let tile = if top != vflip {
            (e.id & 0xFE) as int
        } else {
            (e.id & 0xFE) as int + 1
        };
        let table = if e.id & 0x01 != 0 {
            0x1000int
        } else {
            0int
        };
        table + tile * 16 + fine
    }
}

/// `v` with its bits in reverse order.
pub open spec fn reversed_byte(v: u8) -> u8 {
    (((v & 0x01) << 7u8) | ((v & 0x02) << 5u8) | ((v & 0x04) << 3u8) | ((v & 0x08) << 1u8) | ((v
        & 0x10) >> 1u8) | ((v & 0x20) >> 3u8) | ((v & 0x40) >> 5u8) | ((v & 0x80) >> 7u8)) as u8
}

/// The pattern byte of a sprite row as it enters the shifter: reversed when flipped
/// horizontally.
pub open spec fn oriented(e: ObjectAttributeEntry, b: u8) -> u8 {
    if e.attribute & 0x40 != 0 {
        reversed_byte(b)
    } else {
        b
    }
}

/// Reverses the bits of a byte.
fn flip_byte(value: u8) -> (r: u8)
    ensures
        r == reversed_byte(value),
{
    let mut temp = value;
    temp = (temp & 0xF0) >> 4u8 | (temp & 0x0F) << 4u8;
    temp = (temp & 0xCC) >> 2u8 | (temp & 0x33) << 2u8;
    temp = (temp & 0xAA) >> 1u8 | (temp & 0x55) << 1u8;
    proof {
        let v = value;
        let t1 = ((v & 0xF0) >> 4u8 | (v & 0x0F) << 4u8) as u8;
        let t2 = ((t1 & 0xCC) >> 2u8 | (t1 & 0x33) << 2u8) as u8;
        assert(((t2 & 0xAA) >> 1u8 | (t2 & 0x55) << 1u8) as u8 == (((v & 0x01) << 7u8) | ((v
            & 0x02) << 5u8) | ((v & 0x04) << 3u8) | ((v & 0x08) << 1u8) | ((v & 0x10) >> 1u8) | ((v
            & 0x20) >> 3u8) | ((v & 0x40) >> 5u8) | ((v & 0x80) >> 7u8)) as u8) by (bit_vector)
            requires
                t1 == ((v & 0xF0) >> 4u8 | (v & 0x0F) << 4u8) as u8,
                t2 == ((t1 & 0xCC) >> 2u8 | (t1 & 0x33) << 2u8) as u8,
        ;
    }
    temp
}

impl Ppu2C02 {
    /// Shifts the background shifters, and steps each active sprite slot, for one dot.
    pub fn update_shifters(&mut self)
        requires
            old(self).wf(),
        ensures
            final(self).wf(),
            final(self).unchanged_except(old(self), false, false, true, true, false),
            final(self).bg_next_tile_id == old(self).bg_next_tile_id,
            final(self).bg_next_tile_attrib == old(self).bg_next_tile_attrib,
            final(self).bg_next_tile_lsb == old(self).bg_next_tile_lsb,
            final(self).bg_next_tile_msb == old(self).bg_next_tile_msb,
            old(self).mask.spec_render_background() > 0 ==> {
                &&& final(self).bg_shifter_pattern_lo == (old(self).bg_shifter_pattern_lo << 1u16) as u16
                &&& final(self).bg_shifter_pattern_hi == (old(self).bg_shifter_pattern_hi << 1u16) as u16
                &&& final(self).bg_shifter_attrib_lo == (old(self).bg_shifter_attrib_lo << 1u16) as u16
                &&& final(self).bg_shifter_attrib_hi == (old(self).bg_shifter_attrib_hi << 1u16) as u16
            },
            old(self).mask.spec_render_background() == 0 ==> {
                &&& final(self).bg_shifter_pattern_lo == old(self).bg_shifter_pattern_lo
                &&& final(self).bg_shifter_pattern_hi == old(self).bg_shifter_pattern_hi
                &&& final(self).bg_shifter_attrib_lo == old(self).bg_shifter_attrib_lo
                &&& final(self).bg_shifter_attrib_hi == old(self).bg_shifter_attrib_hi
            },
            final(self).sprite_count == old(self).sprite_count,
            final(self).sprite_zero_hit_possible == old(self).sprite_zero_hit_possible,
            final(self).sprite_zero_being_rendered == old(self).sprite_zero_being_rendered,
            forall|i: int|
                0 <= i < 8 ==> #[trigger] final(self).sprite_scanline@[i] == (if sprite_slot_active(old(self), i) {
                    stepped_entry(old(self).sprite_scanline@[i])
                } else {
                    old(self).sprite_scanline@[i]
                }),
            forall|i: int|
                0 <= i < 8 ==> #[trigger] final(self).sprite_shifter_pattern_lo@[i] == (if sprite_slot_active(old(self), i)
                    && old(self).sprite_scanline@[i].x == 0 {
                    (old(self).sprite_shifter_pattern_lo@[i] << 1u8) as u8
                } else {
                    old(self).sprite_shifter_pattern_lo@[i]
                }),
            forall|i: int|
                0 <= i < 8 ==> #[trigger] final(self).sprite_shifter_pattern_hi@[i] == (if sprite_slot_active(old(self), i)
                    && old(self).sprite_scanline@[i].x == 0 {
                    (old(self).sprite_shifter_pattern_hi@[i] << 1u8) as u8
                } else {
                    old(self).sprite_shifter_pattern_hi@[i]
                }),
    {
        if self.mask.get_render_background() {
            self.bg_shifter_pattern_lo = self.bg_shifter_pattern_lo << 1u16;
            self.bg_shifter_pattern_hi = self.bg_shifter_pattern_hi << 1u16;
            self.bg_shifter_attrib_lo = self.bg_shifter_attrib_lo << 1u16;
            self.bg_shifter_attrib_hi = self.bg_shifter_attrib_hi << 1u16;
        }
        if self.mask.get_render_sprites() && self.cycle >= 1 && self.cycle < 258 {
            let count = self.sprite_count as usize;
            let mut i: usize = 0;
            while i < count
                invariant
                    self.wf(),
                    old(self).wf(),
                    count == old(self).sprite_count,
                    i <= count <= 8,
                    old(self).mask.spec_render_sprites() > 0,
                    1 <= old(self).cycle < 258,
                    self.unchanged_except(old(self), false, false, true, true, false),
                    self.bg_next_tile_id == old(self).bg_next_tile_id,
                    self.bg_next_tile_attrib == old(self).bg_next_tile_attrib,
                    self.bg_next_tile_lsb == old(self).bg_next_tile_lsb,
                    self.bg_next_tile_msb == old(self).bg_next_tile_msb,
                    old(self).mask.spec_render_background() > 0 ==> {
                        &&& self.bg_shifter_pattern_lo == (old(self).bg_shifter_pattern_lo << 1u16) as u16
                        &&& self.bg_shifter_pattern_hi == (old(self).bg_shifter_pattern_hi << 1u16) as u16
                        &&& self.bg_shifter_attrib_lo == (old(self).bg_shifter_attrib_lo << 1u16) as u16
                        &&& self.bg_shifter_attrib_hi == (old(self).bg_shifter_attrib_hi << 1u16) as u16
                    },
                    old(self).mask.spec_render_background() == 0 ==> {
                        &&& self.bg_shifter_pattern_lo == old(self).bg_shifter_pattern_lo
                        &&& self.bg_shifter_pattern_hi == old(self).bg_shifter_pattern_hi
                        &&& self.bg_shifter_attrib_lo == old(self).bg_shifter_attrib_lo
                        &&& self.bg_shifter_attrib_hi == old(self).bg_shifter_attrib_hi
                    },
                    self.sprite_count == old(self).sprite_count,
                    self.sprite_zero_hit_possible == old(self).sprite_zero_hit_possible,
                    self.sprite_zero_being_rendered == old(self).sprite_zero_being_rendered,
                    forall|k: int|
                        0 <= k < 8 ==> #[trigger] self.sprite_scanline@[k] == (if k < i {
                            stepped_entry(old(self).sprite_scanline@[k])
                        } else {
                            old(self).sprite_scanline@[k]
                        }),
                    forall|k: int|
                        0 <= k < 8 ==> #[trigger] self.sprite_shifter_pattern_lo@[k] == (if k < i
                            && old(self).sprite_scanline@[k].x == 0 {
                            (old(self).sprite_shifter_pattern_lo@[k] << 1u8) as u8
                        } else {
                            old(self).sprite_shifter_pattern_lo@[k]
                        }),
                    forall|k: int|
                        0 <= k < 8 ==> #[trigger] self.sprite_shifter_pattern_hi@[k] == (if k < i
                            && old(self).sprite_scanline@[k].x == 0 {
                            (old(self).sprite_shifter_pattern_hi@[k] << 1u8) as u8
                        } else {
                            old(self).sprite_shifter_pattern_hi@[k]
                        }),
                decreases count - i,
            {
                let mut e = self.sprite_scanline[i];
                if e.x > 0 {
                    e.x = e.x - 1;
                    self.sprite_scanline.set(i, e);
                } else {
                    let lo = self.sprite_shifter_pattern_lo[i];
                    let hi = self.sprite_shifter_pattern_hi[i];
                    self.sprite_shifter_pattern_lo.set(i, lo << 1u8);
                    self.sprite_shifter_pattern_hi.set(i, hi << 1u8);
                }
                i = i + 1;
            }
        }
    }

    /// The background's pixel and palette at this dot.
    fn get_backgroud_pixel(&self) -> (r: (u8, u8))
        requires
            self.wf(),
        ensures
            r == background_pixel(self),
            r.0 < 4,
            r.1 < 4,
    {
        if self.mask.get_render_background() {
            if self.mask.get_render_background_left() || self.cycle >= 9 {
                let bit_mux: u16 = 0x8000u16 >> self.fine_x as u16;
                let lsb_pixel: u8 = if self.bg_shifter_pattern_lo & bit_mux != 0 { 1 } else { 0 };
                let msb_pixel: u8 = if self.bg_shifter_pattern_hi & bit_mux != 0 { 1 } else { 0 };
                let lsb_palette: u8 = if self.bg_shifter_attrib_lo & bit_mux != 0 { 1 } else { 0 };
                let msb_palette: u8 = if self.bg_shifter_attrib_hi & bit_mux != 0 { 1 } else { 0 };
                return (msb_pixel * 2 + lsb_pixel, msb_palette * 2 + lsb_palette);
            }
        }
        (0, 0)
    }

    /// The sprites' pixel, palette and priority at this dot; notes whether sprite slot 0
    /// supplies it.
    fn get_foreground_pixel(&mut self) -> (r: (u8, u8, bool))
        requires
            old(self).wf(),
        ensures
            final(self).wf(),
            final(self).unchanged_except(old(self), false, false, false, true, false),
            final(self).sprite_scanline@ == old(self).sprite_scanline@,
            final(self).sprite_count == old(self).sprite_count,
            final(self).sprite_shifter_pattern_lo@ == old(self).sprite_shifter_pattern_lo@,
            final(self).sprite_shifter_pattern_hi@ == old(self).sprite_shifter_pattern_hi@,
            final(self).sprite_zero_hit_possible == old(self).sprite_zero_hit_possible,
            final(self).sprite_zero_being_rendered == (foreground_shown(old(self))
                && first_opaque_sprite(old(self), 0) == 0),
            r == foreground_pixel(old(self)),
            r.0 < 4,
            r.1 < 8,
    {
        self.sprite_zero_being_rendered = false;
        if self.mask.get_render_sprites() {
            if self.mask.get_render_sprites_left() || self.cycle >= 9 {
                let count = self.sprite_count as usize;
                let mut i: usize = 0;
                while i < count
                    invariant
                        self.wf(),
                        count == self.sprite_count,
                        i <= count <= 8,
                        foreground_shown(old(self)),
                        self.unchanged_except(old(self), false, false, false, true, false),
                        self.sprite_scanline@ == old(self).sprite_scanline@,
                        self.sprite_count == old(self).sprite_count,
                        self.sprite_shifter_pattern_lo@ == old(self).sprite_shifter_pattern_lo@,
                        self.sprite_shifter_pattern_hi@ == old(self).sprite_shifter_pattern_hi@,
                        self.sprite_zero_hit_possible == old(self).sprite_zero_hit_possible,
                        !self.sprite_zero_being_rendered,
                        first_opaque_sprite(old(self), 0) == first_opaque_sprite(old(self), i as int),
                    decreases count - i,
                {
                    let e = self.sprite_scanline[i];
                    let pixel_lsb: u8 = if self.sprite_shifter_pattern_lo[i] & 0x80 != 0 { 1 } else { 0 };
                    let pixel_msb: u8 = if self.sprite_shifter_pattern_hi[i] & 0x80 != 0 { 1 } else { 0 };
                    let fg_pixel: u8 = pixel_msb * 2 + pixel_lsb;
                    if e.x == 0 && fg_pixel != 0 {
                        if i == 0 {
                            self.sprite_zero_being_rendered = true;
                        }
                        proof {
                            let a = e.attribute;
                            assert(a & 0x03 <= 3) by (bit_vector);
                        }
                        let fg_palette: u8 = (e.attribute & 0x03) + 4;
                        let fg_priority = (e.attribute & 0x20) == 0;
                        return (fg_pixel, fg_palette, fg_priority);
                    }
                    i = i + 1;
                }
            }
        }
        (0, 0, false)
    }

    /// The pixel and palette shown at this dot; records a sprite-zero hit.
    pub fn get_cycle_pixel(&mut self) -> (r: (u8, u8))
        requires
            old(self).wf(),
        ensures
            final(self).wf(),
            final(self).unchanged_except(old(self), false, true, false, true, false),
            final(self).sprite_scanline@ == old(self).sprite_scanline@,
            final(self).sprite_count == old(self).sprite_count,
            final(self).sprite_shifter_pattern_lo@ == old(self).sprite_shifter_pattern_lo@,
            final(self).sprite_shifter_pattern_hi@ == old(self).sprite_shifter_pattern_hi@,
            final(self).sprite_zero_hit_possible == old(self).sprite_zero_hit_possible,
            r == composed_pixel(background_pixel(old(self)), foreground_pixel(old(self))),
            r.0 < 4,
            r.1 < 8,
            final(self).status.reg == (if sprite_zero_hits(old(self)) {
                with_field_u8(old(self).status.reg, 6, 1, 1)
            } else {
                old(self).status.reg
            }),
    {
        let (bg_pixel, bg_palette) = self.get_backgroud_pixel();
        let (fg_pixel, fg_palette, fg_priority) = self.get_foreground_pixel();
        if bg_pixel == 0 && fg_pixel == 0 {
            return (0, 0);
        }
        if bg_pixel == 0 {
            return (fg_pixel, fg_palette);
        }
        if fg_pixel == 0 {
            return (bg_pixel, bg_palette);
        }
        if self.sprite_zero_hit_possible && self.sprite_zero_being_rendered
            && self.mask.get_render_background() && self.mask.get_render_sprites() {
            let in_range = if self.mask.get_render_background_left()
                && self.mask.get_render_sprites_left() {
                self.cycle >= 1 && self.cycle <= 255
            } else {
                self.cycle >= 9 && self.cycle <= 255
            };
            if in_range {
                self.status.set_sprite_zero_hit(1);
            }
        }
        if fg_priority {
            (fg_pixel, fg_palette)
        } else {
            (bg_pixel, bg_palette)
        }
    }

    /// Fills secondary OAM with 0xFF.
    pub fn clear_sprite_scanline(&mut self)
        requires
            old(self).wf(),
        ensures
            final(self).wf(),
            final(self).unchanged_except(old(self), false, false, false, true, false),
            final(self).sprite_count == old(self).sprite_count,
            final(self).sprite_shifter_pattern_lo@ == old(self).sprite_shifter_pattern_lo@,
            final(self).sprite_shifter_pattern_hi@ == old(self).sprite_shifter_pattern_hi@,
            final(self).sprite_zero_hit_possible == old(self).sprite_zero_hit_possible,
            final(self).sprite_zero_being_rendered == old(self).sprite_zero_being_rendered,
            forall|i: int|
                0 <= i < 8 ==> final(self).sprite_scanline@[i] == (ObjectAttributeEntry {
                    y: 0xFF,
                    id: 0xFF,
                    attribute: 0xFF,
                    x: 0xFF,
                }),
    {
        let mut i: usize = 0;
        while i < 8
            invariant
                i <= 8,
                self.wf(),
                self.unchanged_except(old(self), false, false, false, true, false),
                self.sprite_count == old(self).sprite_count,
                self.sprite_shifter_pattern_lo@ == old(self).sprite_shifter_pattern_lo@,
                self.sprite_shifter_pattern_hi@ == old(self).sprite_shifter_pattern_hi@,
                self.sprite_zero_hit_possible == old(self).sprite_zero_hit_possible,
                self.sprite_zero_being_rendered == old(self).sprite_zero_being_rendered,
                forall|k: int|
                    0 <= k < i ==> self.sprite_scanline@[k] == (ObjectAttributeEntry {
                        y: 0xFF,
                        id: 0xFF,
                        attribute: 0xFF,
                        x: 0xFF,
                    }),
            decreases 8 - i,
        {
            self.sprite_scanline.set(i, ObjectAttributeEntry { y: 0xFF, id: 0xFF, attribute: 0xFF, x: 0xFF });
            i = i + 1;
        }
    }
}


/// The dot after (`scanline`, `cycle`): 341 dots a line, lines -1 to 260.
pub open spec fn next_dot(scanline: i16, cycle: i16) -> (i16, i16) {
    if cycle + 1 >= 341 {
        if scanline + 1 >= 261 {
            (-1i16, 0i16)
        } else {
            ((scanline + 1) as i16, 0i16)
        }
    } else {
        (scanline, (cycle + 1) as i16)
    }
}

/// Dot 0 of line 0 is skipped on odd frames while rendering is enabled.
pub open spec fn skips_dot(p: &Ppu2C02) -> bool {
    p.scanline == 0 && p.cycle == 0 && p.odd_frame && rendering_enabled(p.mask)
}

/// The dot the PPU works on in this step.
pub open spec fn effective_cycle(p: &Ppu2C02) -> i16 {
    if skips_dot(p) {
        1
    } else {
        p.cycle
    }
}

/// This step draws a pixel: a visible line, dots 1 to 256.
pub open spec fn draws_pixel(p: &Ppu2C02) -> bool {
    0 <= p.scanline < 240 && 1 <= effective_cycle(p) <= 256
}

/// The background and sprite shifters move at this dot.
pub open spec fn shifts_on(e: i16) -> bool {
    (2 <= e < 258) || (321 <= e < 338)
}

/// This step evaluates the sprites of the next line (dot 257 of a visible line).
pub open spec fn evaluates_sprites(p: &Ppu2C02) -> bool {
    0 <= p.scanline < 240 && effective_cycle(p) == 257
}

/// This step fetches the sprite patterns of the next line (dot 340 of a visible line).
pub open spec fn loads_sprites(p: &Ppu2C02) -> bool {
    0 <= p.scanline < 240 && p.cycle == 340
}

/// `vram_addr` after the line work of this dot: a tile to the right after each eighth
/// fetch dot, a row down at dot 256, the horizontal scroll copied back at dot 257, and on
/// the pre-render line the vertical scroll copied back at dots 280-304, all while
/// rendering is enabled.
pub open spec fn pipeline_vram(p: &Ppu2C02) -> u16 {
    let e = effective_cycle(p);
    let r = rendering_enabled(p.mask);
    let v0 = p.vram_addr;
    let v1 = if shifts_on(e) && (e - 1) % 8 == 7 && r {
        LoopyRegister { reg: scrolled_x(v0) }
    } else {
        v0
    };
    let v2 = if e == 256 && r {
        LoopyRegister { reg: scrolled_y(v1) }
    } else {
        v1
    };
    let v3 = if e == 257 && r {
        LoopyRegister { reg: transferred_x(v2, p.tram_addr) }
    } else {
        v2
    };
    let v4 = if p.scanline == -1 && 280 <= e < 305 && r {
        LoopyRegister { reg: transferred_y(v3, p.tram_addr) }
    } else {
        v3
    };
    v4.reg
}

/// Sprite slot `i` steps at this dot.
pub open spec fn slot_steps(p: &Ppu2C02, i: int) -> bool {
    let e = effective_cycle(p);
    shifts_on(e) && p.mask.spec_render_sprites() > 0 && 1 <= e < 258 && i < p.sprite_count
}

/// Secondary OAM after this dot's sprite step.
pub open spec fn scan_after(p: &Ppu2C02) -> Seq<ObjectAttributeEntry> {
    Seq::new(
        8,
        |i: int|
            if slot_steps(p, i) {
                stepped_entry(p.sprite_scanline@[i])
            } else {
                p.sprite_scanline@[i]
            },
    )
}

/// The low sprite pattern shifters after this dot's sprite step.
pub open spec fn slo_after(p: &Ppu2C02) -> Seq<u8> {
    Seq::new(
        8,
        |i: int|
            if slot_steps(p, i) && p.sprite_scanline@[i].x == 0 {
                (p.sprite_shifter_pattern_lo@[i] << 1u8) as u8
            } else {
                p.sprite_shifter_pattern_lo@[i]
            },
    )
}

/// The high sprite pattern shifters after this dot's sprite step.
pub open spec fn shi_after(p: &Ppu2C02) -> Seq<u8> {
    Seq::new(
        8,
        |i: int|
            if slot_steps(p, i) && p.sprite_scanline@[i].x == 0 {
                (p.sprite_shifter_pattern_hi@[i] << 1u8) as u8
            } else {
                p.sprite_shifter_pattern_hi@[i]
            },
    )
}

/// A background shifter after this dot's shift.
pub open spec fn shifted_bg(p: &Ppu2C02, s: u16) -> u16 {
    if shifts_on(effective_cycle(p)) && p.mask.spec_render_background() > 0 {
        (s << 1u16) as u16
    } else {
        s
    }
}

/// The background pixel shown at this dot.
pub open spec fn bg_after(p: &Ppu2C02) -> (u8, u8) {
    bg_pixel_of(
        p.mask,
        p.fine_x,
        effective_cycle(p),
        shifted_bg(p, p.bg_shifter_pattern_lo),
        shifted_bg(p, p.bg_shifter_pattern_hi),
        shifted_bg(p, p.bg_shifter_attrib_lo),
        shifted_bg(p, p.bg_shifter_attrib_hi),
    )
}

/// The sprite pixel shown at this dot.
pub open spec fn fg_after(p: &Ppu2C02) -> (u8, u8, bool) {
    fg_pixel_of(p.mask, effective_cycle(p), p.sprite_count, scan_after(p), slo_after(p), shi_after(p))
}

/// Sprite 0 hits the background at this dot.
pub open spec fn zero_hit_after(p: &Ppu2C02) -> bool {
    zero_hits_of(
        p.mask,
        effective_cycle(p),
        p.sprite_zero_hit_possible,
        bg_after(p),
        fg_after(p),
        first_opaque_of(p.sprite_count, scan_after(p), slo_after(p), shi_after(p), 0),
    )
}

/// The colour drawn at this dot: the composed pixel looked up in palette RAM, then in the
/// master palette.
pub open spec fn colour_after(p: &Ppu2C02) -> crate::screen::Pixel {
    let (px, pal) = composed_pixel(bg_after(p), fg_after(p));
    let c = master_palette(
        p.spec_ppu_read((0x3F00 + pal as int * 4 + px as int) as u16) & 0x3F,
    );
    crate::screen::Pixel(c.0, c.1, c.2)
}

/// Reloading the low byte of a shifter leaves the bit the pixel is taken from.
proof fn lemma_reload_keeps_selected(x: u16, n: u16, f: u8)
    requires
        n <= 0xFF,
        f < 8,
    ensures
        selected_bit(reloaded(x, n), f) == selected_bit(x, f),
{
    let g = f as u16;
    assert((((x & 0xFF00) | n) & (0x8000u16 >> g) != 0) == (x & (0x8000u16 >> g) != 0)) by (bit_vector)
        requires
            n <= 0xFF,
            g < 8,
    ;
}

/// This step ends the frame.
pub open spec fn ends_frame(p: &Ppu2C02) -> bool {
    p.scanline == 260 && effective_cycle(p) == 340
}

/// This step starts vertical blank.
pub open spec fn starts_vblank(p: &Ppu2C02) -> bool {
    p.scanline == 241 && p.cycle == 1
}

/// This step is the pre-render line's flag clear.
pub open spec fn clears_flags(p: &Ppu2C02) -> bool {
    p.scanline == -1 && p.cycle == 1
}

/// Attribute byte address for the tile `v` points at.
pub open spec fn attribute_addr(v: LoopyRegister) -> u16 {
    (0x23C0u16 | ((v.spec_nametable_y() as u16) << 11u16) | ((v.spec_nametable_x() as u16)
        << 10u16) | (((v.spec_coarse_y() as u16) >> 2u16) << 3u16) | ((v.spec_coarse_x() as u16)
        >> 2u16)) as u16
}

/// The two palette bits of an attribute byte for the quadrant of the tile `v` points at.
pub open spec fn attribute_bits(v: LoopyRegister, attrib: u8) -> u8 {
    let a1 = if v.spec_coarse_y() & 0x02 != 0 {
        attrib >> 4u8
    } else {
        attrib
    };
    let a2 = if v.spec_coarse_x() & 0x02 != 0 {
        a1 >> 2u8
    } else {
        a1
    };
    a2 & 0x03
}

impl Ppu2C02 {
    /// Fills secondary OAM with the sprites of OAM that cover the next scanline, in OAM
    /// order, at most eight; a ninth sets the overflow flag.
    fn evaluate_sprites(&mut self)
        requires
            old(self).wf(),
        ensures
            final(self).wf(),
            final(self).unchanged_except(old(self), false, true, false, true, false),
            ({
                let sel = sprites_on_line(
                    old(self).oam@,
                    64,
                    old(self).scanline,
                    sprite_height(old(self).control),
                );
                &&& final(self).sprite_count as int == (if sel.len() > 8 {
                    8
                } else {
                    sel.len() as int
                })
                &&& forall|k: int|
                    0 <= k < final(self).sprite_count ==> #[trigger] final(self).sprite_scanline@[k]
                        == sel[k]
                &&& final(self).status.reg == with_field_u8(
                    old(self).status.reg,
                    5,
                    1,
                    if sel.len() > 8 {
                        1u8
                    } else {
                        0u8
                    },
                )
            }),
            final(self).sprite_zero_hit_possible == on_scanline(
                old(self).oam@[0],
                old(self).scanline,
                sprite_height(old(self).control),
            ),
            final(self).sprite_zero_being_rendered == old(self).sprite_zero_being_rendered,
            forall|k: int| 0 <= k < 8 ==> #[trigger] final(self).sprite_shifter_pattern_lo@[k] == 0,
            forall|k: int| 0 <= k < 8 ==> #[trigger] final(self).sprite_shifter_pattern_hi@[k] == 0,
    {
        self.clear_sprite_scanline();
        self.sprite_count = 0;
        self.sprite_shifter_pattern_lo = crate::memory::zeroed(8);
        self.sprite_shifter_pattern_hi = crate::memory::zeroed(8);
        let height: i32 = if self.control.get_sprite_size() > 0 {
            16
        } else {
            8
        };
        let ghost h = sprite_height(old(self).control);
        let mut zero = false;
        let mut overflow = false;
        let mut count: usize = 0;
        let mut j: usize = 0;
        while j < 64
            invariant
                self.wf(),
                old(self).wf(),
                j <= 64,
                count <= 8,
                height == h,
                self.unchanged_except(old(self), false, false, false, true, false),
                self.sprite_count == 0,
                self.sprite_zero_being_rendered == old(self).sprite_zero_being_rendered,
                forall|k: int| 0 <= k < 8 ==> #[trigger] self.sprite_shifter_pattern_lo@[k] == 0,
                forall|k: int| 0 <= k < 8 ==> #[trigger] self.sprite_shifter_pattern_hi@[k] == 0,
                ({
                    let sel = sprites_on_line(old(self).oam@, j as int, old(self).scanline, h);
                    &&& count as int == (if sel.len() > 8 {
                        8
                    } else {
                        sel.len() as int
                    })
                    &&& overflow == (sel.len() > 8)
                    &&& forall|k: int| 0 <= k < count ==> #[trigger] self.sprite_scanline@[k] == sel[k]
                }),
                zero == (j > 0 && on_scanline(old(self).oam@[0], old(self).scanline, h)),
            decreases 64 - j,
        {
            let e = self.oam[j];
            let diff: i32 = self.scanline as i32 + 1 - e.y as i32;
            let ghost prev = sprites_on_line(old(self).oam@, j as int, old(self).scanline, h);
            let ghost next = sprites_on_line(old(self).oam@, j + 1, old(self).scanline, h);
            assert(next == if on_scanline(old(self).oam@[j as int], old(self).scanline, h) {
                prev.push(old(self).oam@[j as int])
            } else {
                prev
            });
            if diff >= 0 && diff < height {
                if count < 8 {
                    if j == 0 {
                        zero = true;
                    }
                    self.sprite_scanline.set(count, e);
                    count = count + 1;
                } else {
                    overflow = true;
                }
            }
            j = j + 1;
        }
        self.sprite_count = count as u8;
        self.sprite_zero_hit_possible = zero;
        self.status.set_sprite_overflow(if overflow {
            1
        } else {
            0
        });
    }

    /// Fetches the pattern row of each sprite in secondary OAM for the next scanline.
    fn load_sprite_patterns(&mut self)
        requires
            old(self).wf(),
        ensures
            final(self).wf(),
            final(self).unchanged_except(old(self), false, false, false, true, false),
            final(self).sprite_scanline@ == old(self).sprite_scanline@,
            final(self).sprite_count == old(self).sprite_count,
            final(self).sprite_zero_hit_possible == old(self).sprite_zero_hit_possible,
            final(self).sprite_zero_being_rendered == old(self).sprite_zero_being_rendered,
            forall|i: int|
                0 <= i < 8 ==> #[trigger] final(self).sprite_shifter_pattern_lo@[i] == (if i
                    < old(self).sprite_count {
                    oriented(
                        old(self).sprite_scanline@[i],
                        old(self).spec_ppu_read(
                            sprite_pattern_addr(
                                old(self).control,
                                old(self).sprite_scanline@[i],
                                old(self).scanline,
                            ) as u16,
                        ),
                    )
                } else {
                    old(self).sprite_shifter_pattern_lo@[i]
                }),
            forall|i: int|
                0 <= i < 8 ==> #[trigger] final(self).sprite_shifter_pattern_hi@[i] == (if i
                    < old(self).sprite_count {
                    oriented(
                        old(self).sprite_scanline@[i],
                        old(self).spec_ppu_read(
                            (sprite_pattern_addr(
                                old(self).control,
                                old(self).sprite_scanline@[i],
                                old(self).scanline,
                            ) + 8) as u16,
                        ),
                    )
                } else {
                    old(self).sprite_shifter_pattern_hi@[i]
                }),
    {
        let count = self.sprite_count as usize;
        let mut i: usize = 0;
        while i < count
            invariant
                self.wf(),
                old(self).wf(),
                i <= count <= 8,
                count == old(self).sprite_count,
                self.unchanged_except(old(self), false, false, false, true, false),
                self.sprite_scanline@ == old(self).sprite_scanline@,
                self.sprite_count == old(self).sprite_count,
                self.sprite_zero_hit_possible == old(self).sprite_zero_hit_possible,
                self.sprite_zero_being_rendered == old(self).sprite_zero_being_rendered,
                forall|k: int|
                    0 <= k < 8 ==> #[trigger] self.sprite_shifter_pattern_lo@[k] == (if k < i {
                        oriented(
                            old(self).sprite_scanline@[k],
                            old(self).spec_ppu_read(
                                sprite_pattern_addr(
                                    old(self).control,
                                    old(self).sprite_scanline@[k],
                                    old(self).scanline,
                                ) as u16,
                            ),
                        )
                    } else {
                        old(self).sprite_shifter_pattern_lo@[k]
                    }),
                forall|k: int|
                    0 <= k < 8 ==> #[trigger] self.sprite_shifter_pattern_hi@[k] == (if k < i {
                        oriented(
                            old(self).sprite_scanline@[k],
                            old(self).spec_ppu_read(
                                (sprite_pattern_addr(
                                    old(self).control,
                                    old(self).sprite_scanline@[k],
                                    old(self).scanline,
                                ) + 8) as u16,
                            ),
                        )
                    } else {
                        old(self).sprite_shifter_pattern_hi@[k]
                    }),
            decreases count - i,
        {
            let e = self.sprite_scanline[i];
            let line: i16 = self.scanline;
            let row: u16 = if line + 1 >= e.y as i16 {
                (line + 1 - e.y as i16) as u16
            } else {
                0
            };
            let vflip = e.attribute & 0x80 != 0;
            let fine: u16 = if vflip {
                7 - row % 8
            } else {
                row % 8
            };
            let addr: u16 = if self.control.get_sprite_size() == 0 {
                self.control.get_pattern_sprite() as u16 * 0x1000 + e.id as u16 * 16 + fine
            } else {
                let top = row % 16 < 8;
                let tile: u16 = if top != vflip {
                    (e.id & 0xFE) as u16
                } else {
                    (e.id & 0xFE) as u16 + 1
                };
                let table: u16 = if e.id & 0x01 != 0 {
                    0x1000
                } else {
                    0
                };
                table + tile * 16 + fine
            };
            let lo = self.ppu_read(addr);
            let hi = self.ppu_read(addr + 8);
            let (lo, hi) = if e.attribute & 0x40 != 0 {
                (flip_byte(lo), flip_byte(hi))
            } else {
                (lo, hi)
            };
            self.sprite_shifter_pattern_lo.set(i, lo);
            self.sprite_shifter_pattern_hi.set(i, hi);
            i = i + 1;
        }
    }
}


/// Pattern address of the background tile row being fetched (`plane` 0 for the low byte,
/// 8 for the high byte).
pub open spec fn background_pattern_addr(p: &Ppu2C02, plane: int) -> u16 {
    (p.control.spec_pattern_background() as int * 0x1000 + p.bg_next_tile_id as int * 16
        + p.vram_addr.spec_fine_y() as int + plane) as u16
}

/// Nametable address of the tile `v` points at.
pub open spec fn tile_addr(v: LoopyRegister) -> u16 {
    0x2000u16 | (v.reg & 0x0FFF)
}

impl Ppu2C02 {
    /// One step of the eight-dot background fetch, chosen by `(cycle - 1) % 8`: reload the
    /// shifters and fetch the tile id (0), its attribute bits (2), its pattern low (4) and
    /// high (6) bytes, then move to the next tile (7).
    fn fetch_background(&mut self)
        requires
            old(self).wf(),
            old(self).cycle >= 1,
        ensures
            final(self).wf(),
            final(self).unchanged_except(old(self), true, false, true, false, false),
            ({
                let phase = (old(self).cycle - 1) % 8;
                &&& phase == 0 ==> {
                    &&& final(self).bg_next_tile_id == old(self).spec_ppu_read(
                        tile_addr(old(self).vram_addr),
                    )
                    &&& final(self).bg_shifter_pattern_lo == reloaded(
                        old(self).bg_shifter_pattern_lo,
                        old(self).bg_next_tile_lsb as u16,
                    )
                    &&& final(self).bg_shifter_pattern_hi == reloaded(
                        old(self).bg_shifter_pattern_hi,
                        old(self).bg_next_tile_msb as u16,
                    )
                }
                &&& phase == 2 ==> final(self).bg_next_tile_attrib == attribute_bits(
                    old(self).vram_addr,
                    old(self).spec_ppu_read(attribute_addr(old(self).vram_addr)),
                )
                &&& phase == 4 ==> final(self).bg_next_tile_lsb == old(self).spec_ppu_read(
                    background_pattern_addr(old(self), 0),
                )
                &&& phase == 6 ==> final(self).bg_next_tile_msb == old(self).spec_ppu_read(
                    background_pattern_addr(old(self), 8),
                )
                &&& phase == 7 ==> final(self).vram_addr.reg == (if rendering_enabled(
                    old(self).mask,
                ) {
                    scrolled_x(old(self).vram_addr)
                } else {
                    old(self).vram_addr.reg
                })
                &&& phase != 7 ==> final(self).vram_addr == old(self).vram_addr
                &&& phase != 0 ==> {
                    &&& final(self).bg_shifter_pattern_lo == old(self).bg_shifter_pattern_lo
                    &&& final(self).bg_shifter_pattern_hi == old(self).bg_shifter_pattern_hi
                    &&& final(self).bg_shifter_attrib_lo == old(self).bg_shifter_attrib_lo
                    &&& final(self).bg_shifter_attrib_hi == old(self).bg_shifter_attrib_hi
                }
                &&& phase == 0 ==> {
                    &&& final(self).bg_shifter_attrib_lo == reloaded(
                        old(self).bg_shifter_attrib_lo,
                        attribute_fill(old(self).bg_next_tile_attrib & 0x01 != 0),
                    )
                    &&& final(self).bg_shifter_attrib_hi == reloaded(
                        old(self).bg_shifter_attrib_hi,
                        attribute_fill(old(self).bg_next_tile_attrib & 0x02 != 0),
                    )
                }
            }),
    {
        let phase = (self.cycle - 1) % 8;
        if phase == 0 {
            self.load_background_shifters();
            self.bg_next_tile_id = self.ppu_read(0x2000 | (self.vram_addr.reg & 0x0FFF));
        } else if phase == 2 {
            let v = self.vram_addr;
            let addr: u16 = 0x23C0u16 | ((v.get_nametable_y() as u16) << 11u16) | ((
            v.get_nametable_x() as u16) << 10u16) | (((v.get_coarse_y() as u16) >> 2u16) << 3u16)
                | ((v.get_coarse_x() as u16) >> 2u16);
            let mut attrib = self.ppu_read(addr);
            if v.get_coarse_y() & 0x02 != 0 {
                attrib = attrib >> 4u8;
            }
            if v.get_coarse_x() & 0x02 != 0 {
                attrib = attrib >> 2u8;
            }
            self.bg_next_tile_attrib = attrib & 0x03;
        } else if phase == 4 {
            let addr: u16 = self.control.get_pattern_background() as u16 * 0x1000
                + self.bg_next_tile_id as u16 * 16 + self.vram_addr.get_fine_y() as u16;
            self.bg_next_tile_lsb = self.ppu_read(addr);
        } else if phase == 6 {
            let addr: u16 = self.control.get_pattern_background() as u16 * 0x1000
                + self.bg_next_tile_id as u16 * 16 + self.vram_addr.get_fine_y() as u16 + 8;
            self.bg_next_tile_msb = self.ppu_read(addr);
        } else if phase == 7 {
            self.increment_scroll_x();
        }
    }

    /// The state after the line work of this dot (`pipeline_dot`).
    pub open spec fn pipeline_post(&self, post: &Ppu2C02) -> bool {
        &&& (post.same_memory(self))
        &&& (post.control == self.control)
        &&& (post.mask == self.mask)
        &&& (post.tram_addr == self.tram_addr)
        &&& (post.fine_x == self.fine_x)
        &&& (post.address_latch == self.address_latch)
        &&& (post.ppu_data_buffer == self.ppu_data_buffer)
        &&& (post.oam_addr == self.oam_addr)
        &&& (post.scanline == self.scanline)
        &&& (post.odd_frame == self.odd_frame)
        &&& (post.frame_complete == self.frame_complete)
        &&& (post.nmi == self.nmi)
        &&& (post.sprite_screen.data@ == self.sprite_screen.data@)
        &&& (post.cycle == effective_cycle(self))
        &&& (clears_flags(self) ==> post.status.reg == self.status.reg & 0x1F)
        &&& (!clears_flags(self) ==> post.status.spec_vertical_blank() == self.status.spec_vertical_blank())
        &&& post.vram_addr.reg == pipeline_vram(self)
        &&& (!clears_flags(self) && !evaluates_sprites(self) ==> post.status == self.status)
        &&& (evaluates_sprites(self) ==> {
            let sel = sprites_on_line(self.oam@, 64, self.scanline, sprite_height(self.control));
            &&& post.sprite_count as int == (if sel.len() > 8 {
                8
            } else {
                sel.len() as int
            })
            &&& forall|k: int|
                0 <= k < post.sprite_count ==> #[trigger] post.sprite_scanline@[k] == sel[k]
            &&& post.status.reg == with_field_u8(
                self.status.reg,
                5,
                1,
                if sel.len() > 8 {
                    1u8
                } else {
                    0u8
                },
            )
            &&& post.sprite_zero_hit_possible == on_scanline(
                self.oam@[0],
                self.scanline,
                sprite_height(self.control),
            )
        })
        &&& (draws_pixel(self) ==> {
            &&& post.sprite_scanline@ == scan_after(self)
            &&& post.sprite_shifter_pattern_lo@ == slo_after(self)
            &&& post.sprite_shifter_pattern_hi@ == shi_after(self)
            &&& post.sprite_count == self.sprite_count
            &&& post.sprite_zero_hit_possible == self.sprite_zero_hit_possible
            &&& background_pixel(post) == bg_after(self)
        })
        &&& (loads_sprites(self) ==> {
            &&& post.sprite_scanline@ == self.sprite_scanline@
            &&& post.sprite_count == self.sprite_count
            &&& forall|i: int|
                0 <= i < 8 ==> #[trigger] post.sprite_shifter_pattern_lo@[i] == (if i
                    < self.sprite_count {
                    oriented(
                        self.sprite_scanline@[i],
                        self.spec_ppu_read(
                            sprite_pattern_addr(self.control, self.sprite_scanline@[i], self.scanline)
                                as u16,
                        ),
                    )
                } else {
                    self.sprite_shifter_pattern_lo@[i]
                })
            &&& forall|i: int|
                0 <= i < 8 ==> #[trigger] post.sprite_shifter_pattern_hi@[i] == (if i
                    < self.sprite_count {
                    oriented(
                        self.sprite_scanline@[i],
                        self.spec_ppu_read(
                            (sprite_pattern_addr(self.control, self.sprite_scanline@[i], self.scanline)
                                + 8) as u16,
                        ),
                    )
                } else {
                    self.sprite_shifter_pattern_hi@[i]
                })
        })
    }

    /// The work of a visible or pre-render line at this dot.
    fn pipeline_dot(&mut self)
        requires
            old(self).wf(),
            -1 <= old(self).scanline < 240,
        ensures
            final(self).wf(),
            old(self).pipeline_post(final(self)),

    {
        if self.scanline == 0 && self.cycle == 0 && self.odd_frame && (
        self.mask.get_render_background() || self.mask.get_render_sprites()) {
            self.cycle = 1;
        }
        if self.scanline == -1 && self.cycle == 1 {
            self.status.reg = self.status.reg & 0x1F;
            self.sprite_shifter_pattern_lo = crate::memory::zeroed(8);
            self.sprite_shifter_pattern_hi = crate::memory::zeroed(8);
        }
        let ghost s0 = self.status;
        let ghost pre = *self;
        if (self.cycle >= 2 && self.cycle < 258) || (self.cycle >= 321 && self.cycle < 338) {
            self.update_shifters();
            let ghost u = *self;
            self.fetch_background();
            proof {
                if (u.cycle - 1) % 8 == 0 {
                    lemma_reload_keeps_selected(u.bg_shifter_pattern_lo, u.bg_next_tile_lsb as u16, u.fine_x);
                    lemma_reload_keeps_selected(u.bg_shifter_pattern_hi, u.bg_next_tile_msb as u16, u.fine_x);
                    lemma_reload_keeps_selected(u.bg_shifter_attrib_lo, attribute_fill(u.bg_next_tile_attrib & 0x01 != 0), u.fine_x);
                    lemma_reload_keeps_selected(u.bg_shifter_attrib_hi, attribute_fill(u.bg_next_tile_attrib & 0x02 != 0), u.fine_x);
                }
            }
        }
        proof {
            if draws_pixel(old(self)) {
                assert(self.sprite_scanline@ =~= scan_after(old(self)));
                assert(self.sprite_shifter_pattern_lo@ =~= slo_after(old(self)));
                assert(self.sprite_shifter_pattern_hi@ =~= shi_after(old(self)));
            }
        }
        if self.cycle == 256 {
            self.increment_scroll_y();
        }
        if self.cycle == 257 {
            self.load_background_shifters();
            self.transfer_address_x();
        }
        if self.cycle == 338 || self.cycle == 340 {
            self.bg_next_tile_id = self.ppu_read(0x2000 | (self.vram_addr.reg & 0x0FFF));
        }
        if self.scanline == -1 && self.cycle >= 280 && self.cycle < 305 {
            self.transfer_address_y();
        }
        if self.cycle == 257 && self.scanline >= 0 {
            self.evaluate_sprites();
            proof {
                crate::registers::lemma_field_u8_other(s0.reg, 5, 1, 7, 1, self.status.spec_sprite_overflow());
                lemma_field_u8_other_any(s0.reg, 5, 7);
            }
        }
        if self.cycle == 340 && self.scanline >= 0 {
            self.load_sprite_patterns();
        }
    }

    /// The PPU after one dot of `clock`.
    pub open spec fn clock_post(&self, post: &Ppu2C02) -> bool {
        &&& (post.same_memory(self))
        &&& (post.control == self.control)
        &&& (post.mask == self.mask)
        &&& (post.tram_addr == self.tram_addr)
        &&& (post.fine_x == self.fine_x)
        &&& (post.address_latch == self.address_latch)
        &&& (post.ppu_data_buffer == self.ppu_data_buffer)
        &&& (post.oam_addr == self.oam_addr)
        &&& ((post.scanline, post.cycle) == next_dot(self.scanline, effective_cycle(self)))
        &&& (post.frame_complete == (self.frame_complete || ends_frame(self)))
        &&& (post.odd_frame == (self.odd_frame != ends_frame(self)))
        &&& (post.nmi == (self.nmi || (starts_vblank(self)
                && self.control.spec_enable_nmi() > 0)))
        &&& (starts_vblank(self) ==> post.status.spec_vertical_blank() == 1)
        &&& (clears_flags(self) ==> post.status.reg == self.status.reg & 0x1F)
        &&& (!starts_vblank(self) && !clears_flags(self) ==> post.status.spec_vertical_blank() == self.status.spec_vertical_blank())
        &&& (draws_pixel(self) ==> post.sprite_screen.data@ == self.sprite_screen.data@.update(
                self.scanline * 256 + effective_cycle(self) - 1,
                colour_after(self)))
        &&& (draws_pixel(self) ==> post.status.reg == (if zero_hit_after(self) {
                with_field_u8(self.status.reg, 6, 1, 1)
            } else {
                self.status.reg
            }))
        &&& (!draws_pixel(self) ==> post.sprite_screen.data@ == self.sprite_screen.data@)
        &&& (starts_vblank(self) ==> post.status.reg == with_field_u8(self.status.reg, 7, 1, 1))
        &&& (!draws_pixel(self) && !evaluates_sprites(self) && !clears_flags(self)
            && !starts_vblank(self) ==> post.status == self.status)
        &&& (-1 <= self.scanline < 240 ==> post.vram_addr.reg == pipeline_vram(self))
        &&& (!(-1 <= self.scanline < 240) ==> post.vram_addr == self.vram_addr)
        &&& (evaluates_sprites(self) ==> ({
                let sel = sprites_on_line(self.oam@, 64, self.scanline, sprite_height(self.control));
                &&& post.sprite_count as int == (if sel.len() > 8 {
                    8
                } else {
                    sel.len() as int
                })
                &&& forall|k: int|
                    0 <= k < post.sprite_count ==> #[trigger] post.sprite_scanline@[k] == sel[k]
                &&& post.status.reg == with_field_u8(
                    self.status.reg,
                    5,
                    1,
                    if sel.len() > 8 {
                        1u8
                    } else {
                        0u8
                    },
                )
                &&& post.sprite_zero_hit_possible == on_scanline(
                    self.oam@[0],
                    self.scanline,
                    sprite_height(self.control),
                )
            }))
        &&& (loads_sprites(self) ==> ({
                &&& forall|i: int|
                    0 <= i < 8 ==> #[trigger] post.sprite_shifter_pattern_lo@[i] == (if i
                        < self.sprite_count {
                        oriented(
                            self.sprite_scanline@[i],
                            self.spec_ppu_read(
                                sprite_pattern_addr(self.control, self.sprite_scanline@[i], self.scanline)
                                    as u16,
                            ),
                        )
                    } else {
                        self.sprite_shifter_pattern_lo@[i]
                    })
                &&& forall|i: int|
                    0 <= i < 8 ==> #[trigger] post.sprite_shifter_pattern_hi@[i] == (if i
                        < self.sprite_count {
                        oriented(
                            self.sprite_scanline@[i],
                            self.spec_ppu_read(
                                (sprite_pattern_addr(self.control, self.sprite_scanline@[i], self.scanline)
                                    + 8) as u16,
                            ),
                        )
                    } else {
                        self.sprite_shifter_pattern_hi@[i]
                    })
            }))
    }

    /// Advances the PPU by one dot: runs the background and sprite pipelines on the
    /// visible and pre-render lines, draws the visible pixel, raises vertical blank and
    /// NMI at line 241 dot 1, clears the flags at line -1 dot 1, and moves to the next
    /// dot, skipping dot 0 of line 0 on odd frames while rendering.
    pub fn clock(&mut self)
        requires
            old(self).wf(),
        ensures
            final(self).wf(),
            old(self).clock_post(final(self)),

    {
        if self.scanline >= -1 && self.scanline < 240 {
            self.pipeline_dot();
        }
        let ghost mid = *self;
        if self.scanline == 241 && self.cycle == 1 {
            self.status.set_vertical_blank(1);
            proof {
                crate::registers::lemma_field_u8_same(old(self).status.reg, 7, 1, 1);
                assert(1u8 & (0xFFu8 >> 7u8) == 1) by (bit_vector);
            }
            if self.control.get_enable_nmi() > 0 {
                self.nmi = true;
            }
        }
        if self.scanline >= 0 && self.scanline < 240 && self.cycle >= 1 && self.cycle <= 256 {
            let ghost s1 = self.status;
            let (pixel, palette) = self.get_cycle_pixel();
            proof {
                lemma_field_u8_other_any(s1.reg, 6, 7);
            }
            let colour = self.get_colour_from_palette_ram(palette, pixel);
            let x: u32 = (self.cycle - 1) as u32;
            let y: u32 = self.scanline as u32;
            self.sprite_screen.set_pixel(x, y, colour);
        }
        self.cycle = self.cycle + 1;
        if self.cycle >= 341 {
            self.cycle = 0;
            self.scanline = self.scanline + 1;
            if self.scanline >= 261 {
                self.scanline = -1;
                self.frame_complete = true;
                self.odd_frame = !self.odd_frame;
            }
        }
    }
}

/// Setting a one-bit field of a byte to any value leaves another one-bit field unchanged.
proof fn lemma_field_u8_other_any(value: u8, p: u8, q: u8)
    requires
        p < 8,
        q < 8,
        p != q,
    ensures
        forall|d: u8| #[trigger] field_u8(with_field_u8(value, p, 1, d), q, 1) == field_u8(value, q, 1),
{
    assert forall|d: u8| #[trigger] field_u8(with_field_u8(value, p, 1, d), q, 1) == field_u8(value, q, 1) by {
        crate::registers::lemma_field_u8_other(value, p, 1, q, 1, d);
    }
}

/// The position of a dot in the frame, counted from dot 0 of the pre-render line.
pub open spec fn dot_index(scanline: i16, cycle: i16) -> int {
    (scanline as int + 1) * 341 + cycle as int
}

/// Master clock steps left in the frame from (`scanline`, `cycle`), counting the one that
/// ends it; `skip` says whether dot 0 of line 0 is skipped in this frame.
pub open spec fn frame_dots_left(scanline: i16, cycle: i16, skip: bool) -> int {
    89342 - dot_index(scanline, cycle) - (if skip && dot_index(scanline, cycle) <= 341 {
        1int
    } else {
        0int
    })
}

/// Each step of the clock takes one dot off what is left of the frame, and the frame ends
/// on the step that had one left.
pub proof fn lemma_frame_countdown(scanline: i16, cycle: i16, skip: bool)
    requires
        -1 <= scanline <= 260,
        0 <= cycle <= 340,
    ensures
        ({
            let e = if skip && scanline == 0 && cycle == 0 {
                1i16
            } else {
                cycle
            };
            let (s2, c2) = next_dot(scanline, e);
            &&& (scanline == 260 && e == 340) <==> frame_dots_left(scanline, cycle, skip) == 1
            &&& !(scanline == 260 && e == 340) ==> frame_dots_left(s2, c2, skip)
                == frame_dots_left(scanline, cycle, skip) - 1
            &&& -1 <= s2 <= 260 && 0 <= c2 <= 340
        }),
{
}

/// A frame is 262 lines of 341 dots, 89,342 clock steps, one fewer when the odd-frame dot
/// is skipped.
pub proof fn lemma_frame_length(skip: bool)
    ensures
        frame_dots_left(-1i16, 0i16, skip) == (if skip {
            89341int
        } else {
            89342int
        }),
{
}

/// Vertical blank starts, and with it the NMI, at exactly one point of the countdown of
/// a frame: the step with 6,819 steps left. Since each step takes exactly one off the
/// countdown, a frame raises NMI once while PPUCTRL enables it.
pub proof fn lemma_nmi_point(scanline: i16, cycle: i16, skip: bool)
    requires
        -1 <= scanline <= 260,
        0 <= cycle <= 340,
    ensures
        (scanline == 241 && cycle == 1) <==> frame_dots_left(scanline, cycle, skip) == 6819,
{
    if frame_dots_left(scanline, cycle, skip) == 6819 {
        assert(dot_index(scanline, cycle) == 82523);
        assert(scanline == 241 && cycle == 1) by (nonlinear_arith)
            requires
                (scanline as int + 1) * 341 + cycle as int == 82523,
                0 <= cycle <= 340,
        ;
    }
}

} // verus!
