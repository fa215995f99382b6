//! The 2C02 PPU: its state, its memory map and its CPU-facing registers.
use vstd::prelude::*;
use crate::cartridge::{ChrRom, Mirror};
use crate::memory::zeroed;
use crate::registers::{
    LoopyRegister, Mask, ObjectAttributeEntry, PpuControl, Status,
    with_field_u16, field_u16,
};
use crate::screen::{Pixel, Sprite, get_color, master_palette};

verus! {

/// Frame buffer width in pixels.
pub const SCREEN_WIDTH: u32 = 256;

/// Frame buffer height in pixels.
pub const SCREEN_HEIGHT: u32 = 240;

pub struct Ppu2C02 {
    /// Two physical 1 KiB nametables, back to back.
    pub table_name: Vec<u8>,
    /// Two 4 KiB pattern tables, used for addresses the cartridge does not answer.
    pub table_pattern: Vec<u8>,
    /// 32 bytes of palette RAM.
    pub table_palette: Vec<u8>,
    pub chr_rom: ChrRom,
    /// The 256x240 picture being drawn.
    pub sprite_screen: Sprite,
    pub frame_complete: bool,
    pub status: Status,
    pub mask: Mask,
    pub control: PpuControl,
    /// Current VRAM address and scroll position.
    pub vram_addr: LoopyRegister,
    /// Scroll position to be copied into `vram_addr`.
    pub tram_addr: LoopyRegister,
    /// Horizontal pixel offset within a tile, 0-7.
    pub fine_x: u8,
    /// Write toggle shared by PPUSCROLL and PPUADDR.
    pub address_latch: u8,
    /// The delayed result of PPUDATA reads.
    pub ppu_data_buffer: u8,
    /// -1 (pre-render) to 260.
    pub scanline: i16,
    /// Dot within the scanline, 0 to 340.
    pub cycle: i16,
    pub odd_frame: bool,
    pub bg_next_tile_id: u8,
    pub bg_next_tile_attrib: u8,
    pub bg_next_tile_lsb: u8,
    pub bg_next_tile_msb: u8,
    pub bg_shifter_pattern_lo: u16,
    pub bg_shifter_pattern_hi: u16,
    pub bg_shifter_attrib_lo: u16,
    pub bg_shifter_attrib_hi: u16,
    /// Primary object attribute memory: 64 sprites.
    pub oam: Vec<ObjectAttributeEntry>,
    pub oam_addr: u8,
    /// Secondary OAM: the sprites of the next scanline.
    pub sprite_scanline: Vec<ObjectAttributeEntry>,
    pub sprite_count: u8,
    pub sprite_shifter_pattern_lo: Vec<u8>,
    pub sprite_shifter_pattern_hi: Vec<u8>,
    /// Sprite 0 is among the sprites of this scanline.
    pub sprite_zero_hit_possible: bool,
    /// The pixel being drawn comes from sprite 0.
    pub sprite_zero_being_rendered: bool,
    /// Raised at the start of vertical blank when PPUCTRL asks for it.
    pub nmi: bool,
}

/// Which physical nametable a logical nametable address uses.
pub open spec fn nametable_page(mirror: Mirror, addr: u16) -> u16 {
    match mirror {
        Mirror::Vertical => (addr & 0x0400) >> 10u16,
        Mirror::Horizontal => (addr & 0x0800) >> 11u16,
        Mirror::OneScreenLo => 0,
        Mirror::OneScreenHi => 1,
    }
}

/// Offset into the nametable memory of the PPU address `addr` (0x2000-0x3EFF).
pub open spec fn nametable_offset(mirror: Mirror, addr: u16) -> int {
    nametable_page(mirror, addr) as int * 1024 + (addr & 0x03FF) as int
}

/// Palette RAM index of a PPU address: mirrored every 32 bytes, with the backdrop
/// entries of the sprite palettes (0x10, 0x14, 0x18, 0x1C) aliased to 0x00-0x0C.
pub open spec fn palette_index(addr: u16) -> int {
    let a = addr & 0x001F;
    if a == 0x10 || a == 0x14 || a == 0x18 || a == 0x1C {
        a as int - 0x10
    } else {
        a as int
    }
}

/// Byte `addr` of OAM seen as 256 bytes: y, tile, attribute, x for each sprite.
pub open spec fn oam_byte(oam: Seq<ObjectAttributeEntry>, addr: u8) -> u8 {
    let e = oam[(addr / 4) as int];
    if addr % 4 == 0 {
        e.y
    } else if addr % 4 == 1 {
        e.id
    } else if addr % 4 == 2 {
        e.attribute
    } else {
        e.x
    }
}

/// OAM after writing `data` to byte `addr`.
pub open spec fn oam_with_byte(oam: Seq<ObjectAttributeEntry>, addr: u8, data: u8) -> Seq<
    ObjectAttributeEntry,
> {
    let i = (addr / 4) as int;
    let e = oam[i];
    oam.update(
        i,
        if addr % 4 == 0 {
            ObjectAttributeEntry { y: data, ..e }
        } else if addr % 4 == 1 {
            ObjectAttributeEntry { id: data, ..e }
        } else if addr % 4 == 2 {
            ObjectAttributeEntry { attribute: data, ..e }
        } else {
            ObjectAttributeEntry { x: data, ..e }
        },
    )
}

/// The greyscale mask applied to palette reads.
pub open spec fn grey_mask(m: Mask) -> u8 {
    if m.spec_grayscale() > 0 {
        0x30u8
    } else {
        0x3Fu8
    }
}

/// Palette aliasing: the backdrop entries of the sprite palettes (0x3F10, 0x3F14, 0x3F18,
/// 0x3F1C) and those of the background palettes (0x3F00, 0x3F04, 0x3F08, 0x3F0C) are one
/// cell each, whichever side is written and whichever is read.
pub proof fn lemma_palette_aliasing(p: Ppu2C02, post: Ppu2C02, i: u16, d: u8)
    requires
        p.wf(),
        i == 0x00 || i == 0x04 || i == 0x08 || i == 0x0C,
        post.mask == p.mask,
        post.chr_rom.mapper == p.chr_rom.mapper,
    ensures
        p.ppu_write_post(&post, (0x3F10 + i) as u16, d) ==> post.spec_ppu_read(
            (0x3F00 + i) as u16,
        ) == d & grey_mask(p.mask),
        p.ppu_write_post(&post, (0x3F00 + i) as u16, d) ==> post.spec_ppu_read(
            (0x3F10 + i) as u16,
        ) == d & grey_mask(p.mask),
{
    let lo = (0x3F00 + i) as u16;
    let hi = (0x3F10 + i) as u16;
    assert(lo & 0x3FFF == lo && hi & 0x3FFF == hi && (lo & 0x3FFF) & 0x001F == i && (hi
        & 0x3FFF) & 0x001F == i + 0x10) by (bit_vector)
        requires
            i == 0x00 || i == 0x04 || i == 0x08 || i == 0x0C,
            lo == 0x3F00 + i,
            hi == 0x3F10 + i,
    ;
}

pub proof fn lemma_nametable_offset_bound(mirror: Mirror, addr: u16)
    ensures
        0 <= nametable_offset(mirror, addr) < 2048,
{
    assert((addr & 0x0400) >> 10u16 <= 1 && (addr & 0x0800) >> 11u16 <= 1 && addr & 0x03FF
        <= 0x03FF) by (bit_vector);
}

pub proof fn lemma_palette_index_bound(addr: u16)
    ensures
        0 <= palette_index(addr) < 32,
{
    assert(addr & 0x001F <= 0x1F) by (bit_vector);
}

fn nametable_index(mirror: Mirror, addr: u16) -> (r: usize)
    ensures
        r as int == nametable_offset(mirror, addr),
        r < 2048,
{
    proof {
        lemma_nametable_offset_bound(mirror, addr);
    }
    let page: u16 = match mirror {
        Mirror::Vertical => (addr & 0x0400) >> 10u16,
        Mirror::Horizontal => (addr & 0x0800) >> 11u16,
        Mirror::OneScreenLo => 0,
        Mirror::OneScreenHi => 1,
    };
    page as usize * 1024 + (addr & 0x03FF) as usize
}

fn palette_slot(addr: u16) -> (r: usize)
    ensures
        r as int == palette_index(addr),
        r < 32,
{
    proof {
        lemma_palette_index_bound(addr);
    }
    let a = addr & 0x001F;
    if a == 0x10 || a == 0x14 || a == 0x18 || a == 0x1C {
        (a - 0x10) as usize
    } else {
        a as usize
    }
}

/// The VRAM address step after a PPUDATA access: 1, or 32 when PPUCTRL bit 2 is set.
pub open spec fn vram_step(control: PpuControl) -> u16 {
    if control.spec_increment_mode() > 0 {
        32
    } else {
        1
    }
}

/// The VRAM address after a PPUDATA access, kept to 15 bits.
pub open spec fn advanced_vram(reg: u16, control: PpuControl) -> u16 {
    ((reg + vram_step(control)) as u16) & 0x7FFF
}

impl Ppu2C02 {
    pub open spec fn wf(&self) -> bool {
        &&& self.table_name@.len() == 2048
        &&& self.table_pattern@.len() == 8192
        &&& self.table_palette@.len() == 32
        &&& self.chr_rom.wf()
        &&& self.sprite_screen.wf()
        &&& self.sprite_screen.width == SCREEN_WIDTH
        &&& self.sprite_screen.height == SCREEN_HEIGHT
        &&& self.vram_addr.wf()
        &&& self.tram_addr.wf()
        &&& self.fine_x < 8
        &&& -1 <= self.scanline <= 260
        &&& 0 <= self.cycle <= 340
        &&& self.oam@.len() == 64
        &&& self.sprite_scanline@.len() == 8
        &&& self.sprite_shifter_pattern_lo@.len() == 8
        &&& self.sprite_shifter_pattern_hi@.len() == 8
        &&& self.sprite_count <= 8
    }

    /// The memories the PPU bus reaches, and OAM.
    pub open spec fn same_memory(&self, o: &Ppu2C02) -> bool {
        &&& self.table_name@ == o.table_name@
        &&& self.table_pattern@ == o.table_pattern@
        &&& self.table_palette@ == o.table_palette@
        &&& self.chr_rom.chr_memory@ == o.chr_rom.chr_memory@
        &&& self.chr_rom.mapper == o.chr_rom.mapper
        &&& self.chr_rom.mirror == o.chr_rom.mirror
        &&& self.oam@ == o.oam@
    }

    /// The registers the CPU reaches.
    pub open spec fn same_registers(&self, o: &Ppu2C02) -> bool {
        &&& self.status == o.status
        &&& self.mask == o.mask
        &&& self.control == o.control
        &&& self.vram_addr == o.vram_addr
        &&& self.tram_addr == o.tram_addr
        &&& self.fine_x == o.fine_x
        &&& self.address_latch == o.address_latch
        &&& self.ppu_data_buffer == o.ppu_data_buffer
        &&& self.oam_addr == o.oam_addr
    }

    /// The rendering pipeline, its position in the frame and its outputs.
    pub open spec fn same_render(&self, o: &Ppu2C02) -> bool {
        &&& self.scanline == o.scanline
        &&& self.cycle == o.cycle
        &&& self.odd_frame == o.odd_frame
        &&& self.frame_complete == o.frame_complete
        &&& self.nmi == o.nmi
        &&& self.bg_next_tile_id == o.bg_next_tile_id
        &&& self.bg_next_tile_attrib == o.bg_next_tile_attrib
        &&& self.bg_next_tile_lsb == o.bg_next_tile_lsb
        &&& self.bg_next_tile_msb == o.bg_next_tile_msb
        &&& self.bg_shifter_pattern_lo == o.bg_shifter_pattern_lo
        &&& self.bg_shifter_pattern_hi == o.bg_shifter_pattern_hi
        &&& self.bg_shifter_attrib_lo == o.bg_shifter_attrib_lo
        &&& self.bg_shifter_attrib_hi == o.bg_shifter_attrib_hi
        &&& self.sprite_scanline@ == o.sprite_scanline@
        &&& self.sprite_count == o.sprite_count
        &&& self.sprite_shifter_pattern_lo@ == o.sprite_shifter_pattern_lo@
        &&& self.sprite_shifter_pattern_hi@ == o.sprite_shifter_pattern_hi@
        &&& self.sprite_zero_hit_possible == o.sprite_zero_hit_possible
        &&& self.sprite_zero_being_rendered == o.sprite_zero_being_rendered
        &&& self.sprite_screen.data@ == o.sprite_screen.data@
        &&& self.sprite_screen.width == o.sprite_screen.width
        &&& self.sprite_screen.height == o.sprite_screen.height
    }

    /// Equal to `o` except in the groups flagged: the VRAM address, the status register,
    /// the background pipeline, the sprite pipeline and the frame buffer.
    pub open spec fn unchanged_except(
        &self,
        o: &Ppu2C02,
        vram: bool,
        status: bool,
        bg: bool,
        spr: bool,
        screen: bool,
    ) -> bool {
        &&& self.same_memory(o)
        &&& self.control == o.control
        &&& self.mask == o.mask
        &&& self.tram_addr == o.tram_addr
        &&& self.fine_x == o.fine_x
        &&& self.address_latch == o.address_latch
        &&& self.ppu_data_buffer == o.ppu_data_buffer
        &&& self.oam_addr == o.oam_addr
        &&& self.scanline == o.scanline
        &&& self.cycle == o.cycle
        &&& self.odd_frame == o.odd_frame
        &&& self.frame_complete == o.frame_complete
        &&& self.nmi == o.nmi
        &&& (!vram ==> self.vram_addr == o.vram_addr)
        &&& (!status ==> self.status == o.status)
        &&& (!bg ==> {
            &&& self.bg_next_tile_id == o.bg_next_tile_id
            &&& self.bg_next_tile_attrib == o.bg_next_tile_attrib
            &&& self.bg_next_tile_lsb == o.bg_next_tile_lsb
            &&& self.bg_next_tile_msb == o.bg_next_tile_msb
            &&& self.bg_shifter_pattern_lo == o.bg_shifter_pattern_lo
            &&& self.bg_shifter_pattern_hi == o.bg_shifter_pattern_hi
            &&& self.bg_shifter_attrib_lo == o.bg_shifter_attrib_lo
            &&& self.bg_shifter_attrib_hi == o.bg_shifter_attrib_hi
        })
        &&& (!spr ==> {
            &&& self.sprite_scanline@ == o.sprite_scanline@
            &&& self.sprite_count == o.sprite_count
            &&& self.sprite_shifter_pattern_lo@ == o.sprite_shifter_pattern_lo@
            &&& self.sprite_shifter_pattern_hi@ == o.sprite_shifter_pattern_hi@
            &&& self.sprite_zero_hit_possible == o.sprite_zero_hit_possible
            &&& self.sprite_zero_being_rendered == o.sprite_zero_being_rendered
        })
        &&& (!screen ==> self.sprite_screen.data@ == o.sprite_screen.data@)
        &&& self.sprite_screen.width == o.sprite_screen.width
        &&& self.sprite_screen.height == o.sprite_screen.height
    }

    /// The byte at `addr` of the PPU address space (14 bits, mirrored into 16).
    pub open spec fn spec_ppu_read(&self, addr: u16) -> u8 {
        let a = addr & 0x3FFF;
        let (hit, data) = self.chr_rom.spec_read(a);
        if hit {
            data
        } else if a <= 0x1FFF {
            self.table_pattern@[a as int]
        } else if a <= 0x3EFF {
            self.table_name@[nametable_offset(self.chr_rom.mirror, a)]
        } else {
            self.table_palette@[palette_index(a)] & (if self.mask.spec_grayscale() > 0 {
                0x30u8
            } else {
                0x3Fu8
            })
        }
    }

    /// The PPU after writing `data` at `addr` of its address space: which memory changes.
    pub open spec fn ppu_write_post(&self, post: &Ppu2C02, addr: u16, data: u8) -> bool {
        let a = addr & 0x3FFF;
        let chr_hit = self.chr_rom.mapper.spec_ppu_map_write(a).0;
        &&& post.oam@ == self.oam@
        &&& post.chr_rom.mapper == self.chr_rom.mapper
        &&& post.chr_rom.mirror == self.chr_rom.mirror
        &&& post.chr_rom.chr_memory@ == (if chr_hit {
            self.chr_rom.chr_memory@.update(a as int, data)
        } else {
            self.chr_rom.chr_memory@
        })
        &&& post.table_pattern@ == (if !chr_hit && a <= 0x1FFF {
            self.table_pattern@.update(a as int, data)
        } else {
            self.table_pattern@
        })
        &&& post.table_name@ == (if 0x2000 <= a <= 0x3EFF {
            self.table_name@.update(nametable_offset(self.chr_rom.mirror, a), data)
        } else {
            self.table_name@
        })
        &&& post.table_palette@ == (if a >= 0x3F00 {
            self.table_palette@.update(palette_index(a), data)
        } else {
            self.table_palette@
        })
    }

    pub fn new(chr_rom: ChrRom) -> (r: Ppu2C02)
        requires
            chr_rom.wf(),
        ensures
            r.wf(),
            r.scanline == 0,
            r.cycle == 0,
            !r.odd_frame,
            !r.nmi,
            !r.frame_complete,
            r.status.reg == 0,
            r.mask.reg == 0,
            r.control.reg == 0,
            r.vram_addr.reg == 0,
            r.tram_addr.reg == 0,
            r.address_latch == 0,
            r.oam_addr == 0,
            r.chr_rom.chr_memory@ == chr_rom.chr_memory@,
            r.chr_rom.mapper == chr_rom.mapper,
            r.chr_rom.mirror == chr_rom.mirror,
            r.table_palette@ == Seq::new(32, |i: int| 0u8),
            r.table_name@ == Seq::new(2048, |i: int| 0u8),
    {
        let mut oam: Vec<ObjectAttributeEntry> = Vec::new();
        let mut i: usize = 0;
        while i < 64
            invariant
                i <= 64,
                oam@.len() == i,
            decreases 64 - i,
        {
            oam.push(ObjectAttributeEntry::new());
            i = i + 1;
        }
        let mut sprite_scanline: Vec<ObjectAttributeEntry> = Vec::new();
        let mut j: usize = 0;
        while j < 8
            invariant
                j <= 8,
                sprite_scanline@.len() == j,
            decreases 8 - j,
        {
            sprite_scanline.push(ObjectAttributeEntry::new());
            j = j + 1;
        }
        Ppu2C02 {
            table_name: zeroed(2048),
            table_pattern: zeroed(8192),
            table_palette: zeroed(32),
            chr_rom,
            sprite_screen: Sprite::new(SCREEN_WIDTH, SCREEN_HEIGHT),
            frame_complete: false,
            status: Status::new(),
            mask: Mask::new(),
            control: PpuControl::new(),
            vram_addr: LoopyRegister::new(),
            tram_addr: LoopyRegister::new(),
            fine_x: 0,
            address_latch: 0,
            ppu_data_buffer: 0,
            scanline: 0,
            cycle: 0,
            odd_frame: false,
            bg_next_tile_id: 0,
            bg_next_tile_attrib: 0,
            bg_next_tile_lsb: 0,
            bg_next_tile_msb: 0,
            bg_shifter_pattern_lo: 0,
            bg_shifter_pattern_hi: 0,
            bg_shifter_attrib_lo: 0,
            bg_shifter_attrib_hi: 0,
            oam,
            oam_addr: 0,
            sprite_scanline,
            sprite_count: 0,
            sprite_shifter_pattern_lo: zeroed(8),
            sprite_shifter_pattern_hi: zeroed(8),
            sprite_zero_hit_possible: false,
            sprite_zero_being_rendered: false,
            nmi: false,
        }
    }

    /// Plugs in another cartridge's character memory.
    pub fn connect_cartridge(&mut self, chr_rom: ChrRom)
        requires
            old(self).wf(),
            chr_rom.wf(),
        ensures
            final(self).wf(),
            final(self).chr_rom.chr_memory@ == chr_rom.chr_memory@,
            final(self).chr_rom.mapper == chr_rom.mapper,
            final(self).chr_rom.mirror == chr_rom.mirror,
            final(self).same_registers(old(self)),
            final(self).same_render(old(self)),
    {
        self.chr_rom = chr_rom;
    }

    /// Returns the registers, the scroll state and the frame position to power-on values.
    pub fn reset(&mut self)
        requires
            old(self).wf(),
        ensures
            final(self).wf(),
            final(self).same_memory(old(self)),
            final(self).scanline == 0,
            final(self).cycle == 0,
            final(self).status.reg == 0,
            final(self).mask.reg == 0,
            final(self).control.reg == 0,
            final(self).vram_addr.reg == 0,
            final(self).tram_addr.reg == 0,
            final(self).fine_x == 0,
            final(self).address_latch == 0,
            final(self).ppu_data_buffer == 0,
            final(self).bg_shifter_pattern_lo == 0,
            final(self).bg_shifter_pattern_hi == 0,
            final(self).bg_shifter_attrib_lo == 0,
            final(self).bg_shifter_attrib_hi == 0,
            final(self).nmi == old(self).nmi,
    {
        self.fine_x = 0x00;
        self.address_latch = 0x00;
        self.ppu_data_buffer = 0x00;
        self.scanline = 0;
        self.cycle = 0;
        self.bg_next_tile_id = 0x00;
        self.bg_next_tile_attrib = 0x00;
        self.bg_next_tile_lsb = 0x00;
        self.bg_next_tile_msb = 0x00;
        self.bg_shifter_pattern_lo = 0x0000;
        self.bg_shifter_pattern_hi = 0x0000;
        self.bg_shifter_attrib_lo = 0x0000;
        self.bg_shifter_attrib_hi = 0x0000;
        self.status.reg = 0x00;
        self.mask.reg = 0x00;
        self.control.reg = 0x00;
        self.vram_addr.reg = 0x0000;
        self.tram_addr.reg = 0x0000;
    }

    /// Reads the PPU address space.
    pub fn ppu_read(&self, addr: u16) -> (r: u8)
        requires
            self.wf(),
        ensures
            r == self.spec_ppu_read(addr),
    {
        let address: u16 = addr & 0x3FFF;
        let (hit, data) = self.chr_rom.read(address);
        if hit {
            return data;
        }
        if address <= 0x1FFF {
            return self.table_pattern[address as usize];
        }
        if address <= 0x3EFF {
            return self.table_name[nametable_index(self.chr_rom.mirror, address)];
        }
        let mask: u8 = if self.mask.get_grayscale() {
            0x30
        } else {
            0x3F
        };
        self.table_palette[palette_slot(address)] & mask
    }

    /// Writes the PPU address space; CHR-ROM ignores writes.
    pub fn ppu_write(&mut self, addr: u16, data: u8)
        requires
            old(self).wf(),
        ensures
            final(self).wf(),
            old(self).ppu_write_post(final(self), addr, data),
            final(self).same_registers(old(self)),
            final(self).same_render(old(self)),
    {
        let address: u16 = addr & 0x3FFF;
        proof {
            assert(address <= 0x3FFF) by (bit_vector)
                requires
                    address == addr & 0x3FFF,
            ;
        }
        if self.chr_rom.write(address, data) {
            return;
        }
        if address <= 0x1FFF {
            self.table_pattern.set(address as usize, data);
            return;
        }
        if address <= 0x3EFF {
            let i = nametable_index(self.chr_rom.mirror, address);
            self.table_name.set(i, data);
            return;
        }
        let i = palette_slot(address);
        self.table_palette.set(i, data);
    }

    /// Byte `addr` of OAM.
    pub fn oam_read(&self, addr: u8) -> (r: u8)
        requires
            self.wf(),
        ensures
            r == oam_byte(self.oam@, addr),
    {
        let index: usize = (addr / 4) as usize;
        let prop: u8 = addr % 4;
        let e = self.oam[index];
        if prop == 0 {
            e.y
        } else if prop == 1 {
            e.id
        } else if prop == 2 {
            e.attribute
        } else {
            e.x
        }
    }

    /// Writes byte `addr` of OAM.
    pub fn oam_write(&mut self, addr: u8, data: u8)
        requires
            old(self).wf(),
        ensures
            final(self).wf(),
            final(self).oam@ == oam_with_byte(old(self).oam@, addr, data),
            final(self).same_registers(old(self)),
            final(self).same_render(old(self)),
            final(self).table_name@ == old(self).table_name@,
            final(self).table_pattern@ == old(self).table_pattern@,
            final(self).table_palette@ == old(self).table_palette@,
            final(self).chr_rom.chr_memory@ == old(self).chr_rom.chr_memory@,
            final(self).chr_rom.mapper == old(self).chr_rom.mapper,
            final(self).chr_rom.mirror == old(self).chr_rom.mirror,
    {
        let index: usize = (addr / 4) as usize;
        let prop: u8 = addr % 4;
        let mut e = self.oam[index];
        if prop == 0 {
            e.y = data;
        } else if prop == 1 {
            e.id = data;
        } else if prop == 2 {
            e.attribute = data;
        } else {
            e.x = data;
        }
        self.oam.set(index, e);
    }

    /// The colour of `pixel` (0-3) in `palette` (0-7): palette RAM at
    /// `0x3F00 | palette << 2 | pixel`, looked up in the master palette.
    pub fn get_colour_from_palette_ram(&self, palette: u8, pixel: u8) -> (r: Pixel)
        requires
            self.wf(),
            palette < 8,
            pixel < 4,
        ensures
            (r.0, r.1, r.2) == master_palette(
                self.spec_ppu_read((0x3F00 + palette as int * 4 + pixel as int) as u16) & 0x3F,
            ),
    {
        let color = self.ppu_read(0x3F00 + palette as u16 * 4 + pixel as u16);
        get_color(color)
    }
}

} // verus!
