//! Bitfield views of the PPU's control, mask, status and scroll registers.
use vstd::prelude::*;

verus! {

/// The `bits`-wide field of `value` that starts at bit `position`.
pub open spec fn field_u8(value: u8, position: u8, bits: u8) -> u8 {
    (value >> position) & (0xFFu8 >> ((8 - bits) as u8))
}

/// `value` with its `bits`-wide field at `position` replaced by the low bits of `data`.
pub open spec fn with_field_u8(value: u8, position: u8, bits: u8, data: u8) -> u8 {
    let m = 0xFFu8 >> ((8 - bits) as u8);
    (value & !((m << position) as u8)) | (((data & m) << position) as u8)
}

/// The `bits`-wide field of `value` that starts at bit `position`.
pub open spec fn field_u16(value: u16, position: u16, bits: u16) -> u16 {
    (value >> position) & (0xFFFFu16 >> ((16 - bits) as u16))
}

/// `value` with its `bits`-wide field at `position` replaced by the low bits of `data`.
pub open spec fn with_field_u16(value: u16, position: u16, bits: u16, data: u16) -> u16 {
    let m = 0xFFFFu16 >> ((16 - bits) as u16);
    (value & !((m << position) as u16)) | (((data & m) << position) as u16)
}

pub open spec fn field_fits_u8(position: u8, bits: u8) -> bool {
    1 <= bits <= 8 && position + bits <= 8
}

pub open spec fn field_fits_u16(position: u16, bits: u16) -> bool {
    1 <= bits <= 16 && position + bits <= 16
}

fn get_bits_u8(value: u8, position: u8, bits: u8) -> (r: u8)
    requires
        field_fits_u8(position, bits),
    ensures
        r == field_u8(value, position, bits),
{
    (value >> position) & (0xFFu8 >> (8 - bits))
}

fn set_bits_u8(value: u8, position: u8, bits: u8, data: u8) -> (r: u8)
    requires
        field_fits_u8(position, bits),
    ensures
        r == with_field_u8(value, position, bits, data),
{
    let m: u8 = 0xFFu8 >> (8 - bits);
    (value & !(m << position)) | ((data & m) << position)
}

fn get_bits_u16(value: u16, position: u16, bits: u16) -> (r: u16)
    requires
        field_fits_u16(position, bits),
    ensures
        r == field_u16(value, position, bits),
{
    (value >> position) & (0xFFFFu16 >> (16 - bits))
}

fn set_bits_u16(value: u16, position: u16, bits: u16, data: u16) -> (r: u16)
    requires
        field_fits_u16(position, bits),
    ensures
        r == with_field_u16(value, position, bits, data),
{
    let m: u16 = 0xFFFFu16 >> (16 - bits);
    (value & !(m << position)) | ((data & m) << position)
}

/// Writing a field and reading it back gives the low bits of what was written.
pub proof fn lemma_field_u8_same(value: u8, position: u8, bits: u8, data: u8)
    requires
        field_fits_u8(position, bits),
    ensures
        field_u8(with_field_u8(value, position, bits, data), position, bits)
            == data & (0xFFu8 >> ((8 - bits) as u8)),
{
    let nb = (8 - bits) as u8;
    assert(((((value & !(((0xFFu8 >> nb) << position) as u8)) | ((((data & (0xFFu8 >> nb))
        << position) as u8))) >> position) & (0xFFu8 >> nb)) == data & (0xFFu8 >> nb))
        by (bit_vector)
        requires
            1 <= bits <= 8,
            position + bits <= 8,
            nb == 8 - bits,
    ;
}

/// PPUSTATUS: bits 0-4 unused, 5 sprite overflow, 6 sprite-zero hit, 7 vertical blank.
#[derive(Clone, Copy, Debug, PartialEq, Eq, Structural)]
pub struct Status {
    pub reg: u8,
}

impl Status {
    /// Low five bits, which reads fill from the data buffer.
    pub open spec fn spec_unused(self) -> u8 {
        field_u8(self.reg, 0, 5)
    }

    /// Set when more than eight sprites fall on one scanline.
    pub open spec fn spec_sprite_overflow(self) -> u8 {
        field_u8(self.reg, 5, 1)
    }

    /// Set when an opaque sprite-zero pixel overlaps an opaque background pixel.
    pub open spec fn spec_sprite_zero_hit(self) -> u8 {
        field_u8(self.reg, 6, 1)
    }

    /// Set during vertical blank.
    pub open spec fn spec_vertical_blank(self) -> u8 {
        field_u8(self.reg, 7, 1)
    }

    pub fn get_unused(&self) -> (r: u8)
        ensures
            r == self.spec_unused(),
    {
        get_bits_u8(self.reg, 0, 5)
    }

    pub fn set_unused(&mut self, data: u8)
        ensures
            final(self).reg == with_field_u8(old(self).reg, 0, 5, data),
    {
        self.reg = set_bits_u8(self.reg, 0, 5, data);
    }

    pub fn get_sprite_overflow(&self) -> (r: u8)
        ensures
            r == self.spec_sprite_overflow(),
    {
        get_bits_u8(self.reg, 5, 1)
    }

    pub fn set_sprite_overflow(&mut self, data: u8)
        ensures
            final(self).reg == with_field_u8(old(self).reg, 5, 1, data),
    {
        self.reg = set_bits_u8(self.reg, 5, 1, data);
    }

    pub fn get_sprite_zero_hit(&self) -> (r: u8)
        ensures
            r == self.spec_sprite_zero_hit(),
    {
        get_bits_u8(self.reg, 6, 1)
    }

    pub fn set_sprite_zero_hit(&mut self, data: u8)
        ensures
            final(self).reg == with_field_u8(old(self).reg, 6, 1, data),
    {
        self.reg = set_bits_u8(self.reg, 6, 1, data);
    }

    pub fn get_vertical_blank(&self) -> (r: u8)
        ensures
            r == self.spec_vertical_blank(),
    {
        get_bits_u8(self.reg, 7, 1)
    }

    pub fn set_vertical_blank(&mut self, data: u8)
        ensures
            final(self).reg == with_field_u8(old(self).reg, 7, 1, data),
    {
        self.reg = set_bits_u8(self.reg, 7, 1, data);
    }

    pub fn new() -> (r: Status)
        ensures
            r.reg == 0,
    {
        Status { reg: 0 }
    }

    pub fn get_reg(&self) -> (r: u8)
        ensures
            r == self.reg,
    {
        self.reg
    }

    pub fn set_reg(&mut self, value: u8)
        ensures
            final(self).reg == value,
    {
        self.reg = value;
    }
}

/// PPUMASK: greyscale, left-edge clipping, layer enables and colour emphasis.
#[derive(Clone, Copy, Debug, PartialEq, Eq, Structural)]
pub struct Mask {
    pub reg: u8,
}

impl Mask {
    /// Greyscale output.
    pub open spec fn spec_grayscale(self) -> u8 {
        field_u8(self.reg, 0, 1)
    }

    /// Show the background in the leftmost eight pixels.
    pub open spec fn spec_render_background_left(self) -> u8 {
        field_u8(self.reg, 1, 1)
    }

    /// Show sprites in the leftmost eight pixels.
    pub open spec fn spec_render_sprites_left(self) -> u8 {
        field_u8(self.reg, 2, 1)
    }

    /// Show the background.
    pub open spec fn spec_render_background(self) -> u8 {
        field_u8(self.reg, 3, 1)
    }

    /// Show sprites.
    pub open spec fn spec_render_sprites(self) -> u8 {
        field_u8(self.reg, 4, 1)
    }

    /// Emphasise red.
    pub open spec fn spec_enhance_red(self) -> u8 {
        field_u8(self.reg, 5, 1)
    }

    /// Emphasise green.
    pub open spec fn spec_enhance_green(self) -> u8 {
        field_u8(self.reg, 6, 1)
    }

    /// Emphasise blue.
    pub open spec fn spec_enhance_blue(self) -> u8 {
        field_u8(self.reg, 7, 1)
    }

    pub fn get_grayscale(&self) -> (r: bool)
        ensures
            r == (self.spec_grayscale() > 0),
    {
        get_bits_u8(self.reg, 0, 1) > 0
    }

    pub fn set_grayscale(&mut self, data: bool)
        ensures
            final(self).reg == with_field_u8(old(self).reg, 0, 1, data as u8),
    {
        self.reg = set_bits_u8(self.reg, 0, 1, data as u8);
    }

    pub fn get_render_background_left(&self) -> (r: bool)
        ensures
            r == (self.spec_render_background_left() > 0),
    {
        get_bits_u8(self.reg, 1, 1) > 0
    }

    pub fn set_render_background_left(&mut self, data: bool)
        ensures
            final(self).reg == with_field_u8(old(self).reg, 1, 1, data as u8),
    {
        self.reg = set_bits_u8(self.reg, 1, 1, data as u8);
    }

    pub fn get_render_sprites_left(&self) -> (r: bool)
        ensures
            r == (self.spec_render_sprites_left() > 0),
    {
        get_bits_u8(self.reg, 2, 1) > 0
    }

    pub fn set_render_sprites_left(&mut self, data: bool)
        ensures
            final(self).reg == with_field_u8(old(self).reg, 2, 1, data as u8),
    {
        self.reg = set_bits_u8(self.reg, 2, 1, data as u8);
    }

    pub fn get_render_background(&self) -> (r: bool)
        ensures
            r == (self.spec_render_background() > 0),
    {
        get_bits_u8(self.reg, 3, 1) > 0
    }

    pub fn set_render_background(&mut self, data: bool)
        ensures
            final(self).reg == with_field_u8(old(self).reg, 3, 1, data as u8),
    {
        self.reg = set_bits_u8(self.reg, 3, 1, data as u8);
    }

    pub fn get_render_sprites(&self) -> (r: bool)
        ensures
            r == (self.spec_render_sprites() > 0),
    {
        get_bits_u8(self.reg, 4, 1) > 0
    }

    pub fn set_render_sprites(&mut self, data: bool)
        ensures
            final(self).reg == with_field_u8(old(self).reg, 4, 1, data as u8),
    {
        self.reg = set_bits_u8(self.reg, 4, 1, data as u8);
    }

    pub fn get_enhance_red(&self) -> (r: bool)
        ensures
            r == (self.spec_enhance_red() > 0),
    {
        get_bits_u8(self.reg, 5, 1) > 0
    }

    pub fn set_enhance_red(&mut self, data: bool)
        ensures
            final(self).reg == with_field_u8(old(self).reg, 5, 1, data as u8),
    {
        self.reg = set_bits_u8(self.reg, 5, 1, data as u8);
    }

    pub fn get_enhance_green(&self) -> (r: bool)
        ensures
            r == (self.spec_enhance_green() > 0),
    {
        get_bits_u8(self.reg, 6, 1) > 0
    }

    pub fn set_enhance_green(&mut self, data: bool)
        ensures
            final(self).reg == with_field_u8(old(self).reg, 6, 1, data as u8),
    {
        self.reg = set_bits_u8(self.reg, 6, 1, data as u8);
    }

    pub fn get_enhance_blue(&self) -> (r: bool)
        ensures
            r == (self.spec_enhance_blue() > 0),
    {
        get_bits_u8(self.reg, 7, 1) > 0
    }

    pub fn set_enhance_blue(&mut self, data: bool)
        ensures
            final(self).reg == with_field_u8(old(self).reg, 7, 1, data as u8),
    {
        self.reg = set_bits_u8(self.reg, 7, 1, data as u8);
    }

    pub fn new() -> (r: Mask)
        ensures
            r.reg == 0,
    {
        Mask { reg: 0 }
    }

    pub fn get_reg(&self) -> (r: u8)
        ensures
            r == self.reg,
    {
        self.reg
    }

    pub fn set_reg(&mut self, value: u8)
        ensures
            final(self).reg == value,
    {
        self.reg = value;
    }
}

/// PPUCTRL: base nametable, VRAM increment, pattern tables, sprite size, NMI enable.
#[derive(Clone, Copy, Debug, PartialEq, Eq, Structural)]
pub struct PpuControl {
    pub reg: u8,
}

impl PpuControl {
    /// Base nametable, horizontal bit.
    pub open spec fn spec_nametable_x(self) -> u8 {
        field_u8(self.reg, 0, 1)
    }

    /// Base nametable, vertical bit.
    pub open spec fn spec_nametable_y(self) -> u8 {
        field_u8(self.reg, 1, 1)
    }

    /// VRAM address increment: 0 adds 1, 1 adds 32.
    pub open spec fn spec_increment_mode(self) -> u8 {
        field_u8(self.reg, 2, 1)
    }

    /// Pattern table of 8x8 sprites.
    pub open spec fn spec_pattern_sprite(self) -> u8 {
        field_u8(self.reg, 3, 1)
    }

    /// Pattern table of the background.
    pub open spec fn spec_pattern_background(self) -> u8 {
        field_u8(self.reg, 4, 1)
    }

    /// Sprite height: 0 is 8, 1 is 16.
    pub open spec fn spec_sprite_size(self) -> u8 {
        field_u8(self.reg, 5, 1)
    }

    /// Master/slave select, unused.
    pub open spec fn spec_slave_mode(self) -> u8 {
        field_u8(self.reg, 6, 1)
    }

    /// Raise NMI at the start of vertical blank.
    pub open spec fn spec_enable_nmi(self) -> u8 {
        field_u8(self.reg, 7, 1)
    }

    pub fn get_nametable_x(&self) -> (r: u8)
        ensures
            r == self.spec_nametable_x(),
            r < 2,
    {
        proof {
            lemma_bit_u8(self.reg, 0);
        }
        get_bits_u8(self.reg, 0, 1)
    }

    pub fn set_nametable_x(&mut self, data: u8)
        ensures
            final(self).reg == with_field_u8(old(self).reg, 0, 1, data),
    {
        self.reg = set_bits_u8(self.reg, 0, 1, data);
    }

    pub fn get_nametable_y(&self) -> (r: u8)
        ensures
            r == self.spec_nametable_y(),
            r < 2,
    {
        proof {
            lemma_bit_u8(self.reg, 1);
        }
        get_bits_u8(self.reg, 1, 1)
    }

    pub fn set_nametable_y(&mut self, data: u8)
        ensures
            final(self).reg == with_field_u8(old(self).reg, 1, 1, data),
    {
        self.reg = set_bits_u8(self.reg, 1, 1, data);
    }

    pub fn get_increment_mode(&self) -> (r: u8)
        ensures
            r == self.spec_increment_mode(),
            r < 2,
    {
        proof {
            lemma_bit_u8(self.reg, 2);
        }
        get_bits_u8(self.reg, 2, 1)
    }

    pub fn set_increment_mode(&mut self, data: u8)
        ensures
            final(self).reg == with_field_u8(old(self).reg, 2, 1, data),
    {
        self.reg = set_bits_u8(self.reg, 2, 1, data);
    }

    pub fn get_pattern_sprite(&self) -> (r: u8)
        ensures
            r == self.spec_pattern_sprite(),
            r < 2,
    {
        proof {
            lemma_bit_u8(self.reg, 3);
        }
        get_bits_u8(self.reg, 3, 1)
    }

    pub fn set_pattern_sprite(&mut self, data: u8)
        ensures
            final(self).reg == with_field_u8(old(self).reg, 3, 1, data),
    {
        self.reg = set_bits_u8(self.reg, 3, 1, data);
    }

    pub fn get_pattern_background(&self) -> (r: u8)
        ensures
            r == self.spec_pattern_background(),
            r < 2,
    {
        proof {
            lemma_bit_u8(self.reg, 4);
        }
        get_bits_u8(self.reg, 4, 1)
    }

    pub fn set_pattern_background(&mut self, data: u8)
        ensures
            final(self).reg == with_field_u8(old(self).reg, 4, 1, data),
    {
        self.reg = set_bits_u8(self.reg, 4, 1, data);
    }

    pub fn get_sprite_size(&self) -> (r: u8)
        ensures
            r == self.spec_sprite_size(),
            r < 2,
    {
        proof {
            lemma_bit_u8(self.reg, 5);
        }
        get_bits_u8(self.reg, 5, 1)
    }

    pub fn set_sprite_size(&mut self, data: u8)
        ensures
            final(self).reg == with_field_u8(old(self).reg, 5, 1, data),
    {
        self.reg = set_bits_u8(self.reg, 5, 1, data);
    }

    pub fn get_slave_mode(&self) -> (r: u8)
        ensures
            r == self.spec_slave_mode(),
            r < 2,
    {
        proof {
            lemma_bit_u8(self.reg, 6);
        }
        get_bits_u8(self.reg, 6, 1)
    }

    pub fn set_slave_mode(&mut self, data: u8)
        ensures
            final(self).reg == with_field_u8(old(self).reg, 6, 1, data),
    {
        self.reg = set_bits_u8(self.reg, 6, 1, data);
    }

    pub fn get_enable_nmi(&self) -> (r: u8)
        ensures
            r == self.spec_enable_nmi(),
            r < 2,
    {
        proof {
            lemma_bit_u8(self.reg, 7);
        }
        get_bits_u8(self.reg, 7, 1)
    }

    pub fn set_enable_nmi(&mut self, data: u8)
        ensures
            final(self).reg == with_field_u8(old(self).reg, 7, 1, data),
    {
        self.reg = set_bits_u8(self.reg, 7, 1, data);
    }

    pub fn new() -> (r: PpuControl)
        ensures
            r.reg == 0,
    {
        PpuControl { reg: 0 }
    }

    pub fn get_reg(&self) -> (r: u8)
        ensures
            r == self.reg,
    {
        self.reg
    }

    pub fn set_reg(&mut self, value: u8)
        ensures
            final(self).reg == value,
    {
        self.reg = value;
    }
}

/// The 15-bit "loopy" scroll/address register:
/// `fine_y(3) | nametable_y(1) | nametable_x(1) | coarse_y(5) | coarse_x(5)`.
#[derive(Clone, Copy, Debug, PartialEq, Eq, Structural)]
pub struct LoopyRegister {
    pub reg: u16,
}

impl LoopyRegister {
    /// Bit 15 is clear.
    pub open spec fn wf(self) -> bool {
        self.reg < 0x8000
    }

    /// Tile column, 0-31.
    pub open spec fn spec_coarse_x(self) -> u8 {
        field_u16(self.reg, 0, 5) as u8
    }

    /// Tile row, 0-31 (30 and 31 address the attribute area).
    pub open spec fn spec_coarse_y(self) -> u8 {
        field_u16(self.reg, 5, 5) as u8
    }

    /// Horizontal nametable select.
    pub open spec fn spec_nametable_x(self) -> u8 {
        field_u16(self.reg, 10, 1) as u8
    }

    /// Vertical nametable select.
    pub open spec fn spec_nametable_y(self) -> u8 {
        field_u16(self.reg, 11, 1) as u8
    }

    /// Pixel row within the tile, 0-7.
    pub open spec fn spec_fine_y(self) -> u8 {
        field_u16(self.reg, 12, 3) as u8
    }

    /// Bit 15, never set by the PPU.
    pub open spec fn spec_unused(self) -> u8 {
        field_u16(self.reg, 15, 1) as u8
    }

    pub fn get_coarse_x(&self) -> (r: u8)
        ensures
            r == self.spec_coarse_x(),
            r < 32,
    {
        proof {
            lemma_field_u16_width(self.reg, 0, 5);
        }
        get_bits_u16(self.reg, 0, 5) as u8
    }

    pub fn set_coarse_x(&mut self, data: u8)
        ensures
            final(self).reg == with_field_u16(old(self).reg, 0, 5, data as u16),
            old(self).wf() ==> final(self).wf(),
    {
        proof {
            lemma_with_field_u16_15bit(self.reg, 0, 5, data as u16);
        }
        self.reg = set_bits_u16(self.reg, 0, 5, data as u16);
    }

    pub fn get_coarse_y(&self) -> (r: u8)
        ensures
            r == self.spec_coarse_y(),
            r < 32,
    {
        proof {
            lemma_field_u16_width(self.reg, 5, 5);
        }
        get_bits_u16(self.reg, 5, 5) as u8
    }

    pub fn set_coarse_y(&mut self, data: u8)
        ensures
            final(self).reg == with_field_u16(old(self).reg, 5, 5, data as u16),
            old(self).wf() ==> final(self).wf(),
    {
        proof {
            lemma_with_field_u16_15bit(self.reg, 5, 5, data as u16);
        }
        self.reg = set_bits_u16(self.reg, 5, 5, data as u16);
    }

    pub fn get_nametable_x(&self) -> (r: u8)
        ensures
            r == self.spec_nametable_x(),
            r < 2,
    {
        proof {
            lemma_field_u16_width(self.reg, 10, 1);
        }
        get_bits_u16(self.reg, 10, 1) as u8
    }

    pub fn set_nametable_x(&mut self, data: u8)
        ensures
            final(self).reg == with_field_u16(old(self).reg, 10, 1, data as u16),
            old(self).wf() ==> final(self).wf(),
    {
        proof {
            lemma_with_field_u16_15bit(self.reg, 10, 1, data as u16);
        }
        self.reg = set_bits_u16(self.reg, 10, 1, data as u16);
    }

    pub fn get_nametable_y(&self) -> (r: u8)
        ensures
            r == self.spec_nametable_y(),
            r < 2,
    {
        proof {
            lemma_field_u16_width(self.reg, 11, 1);
        }
        get_bits_u16(self.reg, 11, 1) as u8
    }

    pub fn set_nametable_y(&mut self, data: u8)
        ensures
            final(self).reg == with_field_u16(old(self).reg, 11, 1, data as u16),
            old(self).wf() ==> final(self).wf(),
    {
        proof {
            lemma_with_field_u16_15bit(self.reg, 11, 1, data as u16);
        }
        self.reg = set_bits_u16(self.reg, 11, 1, data as u16);
    }

    pub fn get_fine_y(&self) -> (r: u8)
        ensures
            r == self.spec_fine_y(),
            r < 8,
    {
        proof {
            lemma_field_u16_width(self.reg, 12, 3);
        }
        get_bits_u16(self.reg, 12, 3) as u8
    }

    pub fn set_fine_y(&mut self, data: u8)
        ensures
            final(self).reg == with_field_u16(old(self).reg, 12, 3, data as u16),
            old(self).wf() ==> final(self).wf(),
    {
        proof {
            lemma_with_field_u16_15bit(self.reg, 12, 3, data as u16);
        }
        self.reg = set_bits_u16(self.reg, 12, 3, data as u16);
    }

    pub fn get_unused(&self) -> (r: u8)
        ensures
            r == self.spec_unused(),
            r < 2,
    {
        proof {
            lemma_field_u16_width(self.reg, 15, 1);
        }
        get_bits_u16(self.reg, 15, 1) as u8
    }

    pub fn set_unused(&mut self, data: u8)
        ensures
            final(self).reg == with_field_u16(old(self).reg, 15, 1, data as u16),
    {
        proof {
            lemma_with_field_u16_15bit(self.reg, 15, 1, data as u16);
        }
        self.reg = set_bits_u16(self.reg, 15, 1, data as u16);
    }

    pub fn new() -> (r: LoopyRegister)
        ensures
            r.reg == 0,
            r.wf(),
    {
        LoopyRegister { reg: 0 }
    }

    pub fn get_reg(&self) -> (r: u16)
        ensures
            r == self.reg,
    {
        self.reg
    }

    pub fn set_reg(&mut self, value: u16)
        ensures
            final(self).reg == value,
    {
        self.reg = value;
    }
}

/// A one-bit field is 0 or 1.
pub proof fn lemma_bit_u8(value: u8, position: u8)
    requires
        position < 8,
    ensures
        field_u8(value, position, 1) < 2,
{
    assert((value >> position) & (0xFFu8 >> 7u8) < 2) by (bit_vector);
}

/// Writing one field of a byte leaves a disjoint field as it was.
pub proof fn lemma_field_u8_other(value: u8, p: u8, b: u8, q: u8, c: u8, data: u8)
    requires
        field_fits_u8(p, b),
        field_fits_u8(q, c),
        q + c <= p || p + b <= q,
    ensures
        field_u8(with_field_u8(value, p, b, data), q, c) == field_u8(value, q, c),
{
    let nb = (8 - b) as u8;
    let nc = (8 - c) as u8;
    assert((((value & !(((0xFFu8 >> nb) << p) as u8)) | ((((data & (0xFFu8 >> nb)) << p) as u8)))
        >> q) & (0xFFu8 >> nc) == (value >> q) & (0xFFu8 >> nc)) by (bit_vector)
        requires
            nb == 8 - b,
            nc == 8 - c,
            1 <= b <= 8,
            1 <= c <= 8,
            p + b <= 8,
            q + c <= 8,
            q + c <= p || p + b <= q,
    ;
}

/// A field of one, three or five bits is below 2, 8 or 32.
pub proof fn lemma_field_u16_width(value: u16, position: u16, bits: u16)
    requires
        field_fits_u16(position, bits),
        bits == 1 || bits == 3 || bits == 5,
    ensures
        bits == 1 ==> field_u16(value, position, bits) < 2,
        bits == 3 ==> field_u16(value, position, bits) < 8,
        bits == 5 ==> field_u16(value, position, bits) < 32,
{
    let nb = (16 - bits) as u16;
    assert((bits == 1 ==> (value >> position) & (0xFFFFu16 >> nb) < 2) && (bits == 3 ==> (value
        >> position) & (0xFFFFu16 >> nb) < 8) && (bits == 5 ==> (value >> position) & (0xFFFFu16
        >> nb) < 32)) by (bit_vector)
        requires
            nb == 16 - bits,
            1 <= bits <= 16,
            position + bits <= 16,
    ;
}

/// Replacing a field that lies below bit 15 keeps bit 15 as it was.
pub proof fn lemma_with_field_u16_15bit(value: u16, position: u16, bits: u16, data: u16)
    requires
        field_fits_u16(position, bits),
    ensures
        position + bits <= 15 && value < 0x8000 ==> with_field_u16(value, position, bits, data)
            < 0x8000,
{
    let nb = (16 - bits) as u16;
    assert(position + bits <= 15 && value < 0x8000 ==> ((value & !(((0xFFFFu16 >> nb) << position)
        as u16)) | ((((data & (0xFFFFu16 >> nb)) << position) as u16))) < 0x8000) by (bit_vector)
        requires
            nb == 16 - bits,
            1 <= bits <= 16,
            position + bits <= 16,
    ;
}

/// One sprite of object attribute memory.
#[derive(Clone, Copy, Debug, PartialEq, Eq, Structural)]
pub struct ObjectAttributeEntry {
    /// Top row of the sprite, one less than the scanline it first appears on.
    pub y: u8,
    /// Tile index in pattern memory.
    pub id: u8,
    /// Palette (bits 0-1), priority (bit 5), horizontal flip (bit 6), vertical flip (bit 7).
    pub attribute: u8,
    /// Left column of the sprite.
    pub x: u8,
}

impl ObjectAttributeEntry {
    pub fn new() -> (r: ObjectAttributeEntry)
        ensures
            r == (ObjectAttributeEntry { y: 0, id: 0, attribute: 0, x: 0 }),
    {
        ObjectAttributeEntry { y: 0, id: 0, attribute: 0, x: 0 }
    }
}

} // verus!
