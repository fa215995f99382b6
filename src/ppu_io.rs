//! The eight PPU registers as the CPU sees them (0x2000-0x2007, mirrored).
use vstd::prelude::*;
use crate::ppu::{Ppu2C02, advanced_vram, oam_byte, oam_with_byte};
use crate::registers::{field_u8, with_field_u16};

verus! {

/// What a debugger peek of register `addr` shows, without side effects.
pub open spec fn peek_register(ppu: &Ppu2C02, addr: u16) -> u8 {
    if addr == 0 {
        ppu.control.reg
    } else if addr == 1 {
        ppu.mask.reg
    } else if addr == 2 {
        ppu.status.reg
    } else {
        0
    }
}

/// PPUSTATUS as read: the three flags over the low bits of the data buffer.
pub open spec fn status_read_value(ppu: &Ppu2C02) -> u8 {
    (ppu.status.reg & 0xE0) | (ppu.ppu_data_buffer & 0x1F)
}

/// The VRAM address of PPUDATA accesses, in the 14-bit PPU space.
pub open spec fn data_address(ppu: &Ppu2C02) -> u16 {
    ppu.vram_addr.reg & 0x3FFF
}

/// `tram` after the first PPUADDR write: its high six bits, bit 14 cleared.
pub open spec fn addr_hi(tram: u16, data: u8) -> u16 {
    (((data as u16 & 0x3F) << 8u16) as u16) | (tram & 0x00FF)
}

/// `tram` after the second PPUADDR write: its low byte.
pub open spec fn addr_lo(tram: u16, data: u8) -> u16 {
    (tram & 0xFF00) | data as u16
}

proof fn lemma_addr_writes_15bit(tram: u16, data: u8)
    ensures
        tram < 0x8000 ==> addr_hi(tram, data) < 0x8000 && addr_lo(tram, data) < 0x8000,
        addr_hi(tram, data) < 0x8000,
{
    let d = data as u16;
    assert(((((d & 0x3F) << 8u16) as u16) | (tram & 0x00FF)) < 0x8000) by (bit_vector);
    assert(tram < 0x8000 ==> (tram & 0xFF00) | d < 0x8000) by (bit_vector)
        requires
            d < 256,
    ;
}

proof fn lemma_advanced_vram_15bit(reg: u16, step: u16)
    ensures
        ((reg + step) as u16) & 0x7FFF < 0x8000,
{
    let s = (reg + step) as u16;
    assert(s & 0x7FFF < 0x8000) by (bit_vector);
}

impl Ppu2C02 {
    /// How a read of register `addr` relates the PPU before (`self`) and after (`post`) to the byte returned.
    pub open spec fn cpu_read_post(&self, post: &Ppu2C02, addr: u16, read_only: bool, r: u8) -> bool {
        &&& (post.same_memory(self))
        &&& (post.same_render(self))
        &&& (post.mask == self.mask)
        &&& (post.control == self.control)
        &&& (post.tram_addr == self.tram_addr)
        &&& (post.fine_x == self.fine_x)
        &&& (post.oam_addr == self.oam_addr)
        &&& (read_only ==> post == self)
        &&& (read_only ==> r == peek_register(self, addr) && post.same_registers(self))
        &&& (!read_only && addr == 2 ==> {
                &&& r == status_read_value(self)
                &&& post.status.reg == self.status.reg & 0x7F
                &&& post.address_latch == 0
                &&& post.vram_addr == self.vram_addr
                &&& post.ppu_data_buffer == self.ppu_data_buffer
            })
        &&& (!read_only && addr == 4 ==> r == oam_byte(self.oam@, self.oam_addr)
                && post.same_registers(self))
        &&& (!read_only && addr == 7 ==> {
                let a = data_address(self);
                &&& a >= 0x3F00 ==> r == self.spec_ppu_read(a)
                    && post.ppu_data_buffer == self.spec_ppu_read(
                    (a - 0x1000) as u16,
                )
                &&& a < 0x3F00 ==> r == self.ppu_data_buffer
                    && post.ppu_data_buffer == self.spec_ppu_read(a)
                &&& post.vram_addr.reg == advanced_vram(
                    self.vram_addr.reg,
                    self.control,
                )
                &&& post.status == self.status
                &&& post.address_latch == self.address_latch
            })
        &&& (!read_only && addr != 2 && addr != 4 && addr != 7 ==> r == 0 && post.same_registers(self))
    }

    /// Reads register `addr` (0-7). With `read_only` it is a peek that changes nothing.
    pub fn cpu_read(&mut self, addr: u16, read_only: bool) -> (r: u8)
        requires
            old(self).wf(),
            addr <= 7,
        ensures
            final(self).wf(),
            old(self).cpu_read_post(final(self), addr, read_only, r),

    {
        if read_only {
            return if addr == 0 {
                self.control.reg
            } else if addr == 1 {
                self.mask.reg
            } else if addr == 2 {
                self.status.reg
            } else {
                0
            };
        }
        if addr == 2 {
            let data = (self.status.reg & 0xE0) | (self.ppu_data_buffer & 0x1F);
            self.status.set_vertical_blank(0);
            proof {
                let s = old(self).status.reg;
                assert(((s & !((((0xFFu8 >> 7u8) << 7u8)) as u8)) | ((((0u8 & (0xFFu8 >> 7u8))
                    << 7u8)) as u8)) == s & 0x7F) by (bit_vector);
            }
            self.address_latch = 0;
            return data;
        }
        if addr == 4 {
            return self.oam_read(self.oam_addr);
        }
        if addr == 7 {
            let a: u16 = self.vram_addr.reg & 0x3FFF;
            let data: u8;
            if a >= 0x3F00 {
                data = self.ppu_read(a);
                self.ppu_data_buffer = self.ppu_read(a - 0x1000);
            } else {
                data = self.ppu_data_buffer;
                self.ppu_data_buffer = self.ppu_read(a);
            }
            self.advance_vram();
            return data;
        }
        0
    }

    /// Steps the VRAM address after a PPUDATA access.
    fn advance_vram(&mut self)
        requires
            old(self).wf(),
        ensures
            final(self).wf(),
            final(self).vram_addr.reg == advanced_vram(old(self).vram_addr.reg, old(self).control),
            final(self).same_memory(old(self)),
            final(self).same_render(old(self)),
            final(self).status == old(self).status,
            final(self).mask == old(self).mask,
            final(self).control == old(self).control,
            final(self).tram_addr == old(self).tram_addr,
            final(self).fine_x == old(self).fine_x,
            final(self).address_latch == old(self).address_latch,
            final(self).ppu_data_buffer == old(self).ppu_data_buffer,
            final(self).oam_addr == old(self).oam_addr,
    {
        let step: u16 = if self.control.get_increment_mode() > 0 {
            32
        } else {
            1
        };
        proof {
            lemma_advanced_vram_15bit(self.vram_addr.reg, step);
        }
        self.vram_addr.reg = self.vram_addr.reg.wrapping_add(step) & 0x7FFF;
    }

    /// How a write of `data` to register `addr` relates the PPU before (`self`) and after (`post`).
    pub open spec fn cpu_write_post(&self, post: &Ppu2C02, addr: u16, data: u8) -> bool {
        &&& (post.same_render(self))
        &&& (post.status == self.status)
        &&& (post.ppu_data_buffer == self.ppu_data_buffer)
        &&& (addr != 7 ==> post.same_memory(self) || addr == 4)
        &&& (addr == 0 ==> {
                &&& post.control.reg == data
                &&& post.tram_addr.reg == with_field_u16(
                    with_field_u16(self.tram_addr.reg, 10, 1, field_u8(data, 0, 1) as u16),
                    11,
                    1,
                    field_u8(data, 1, 1) as u16,
                )
                &&& post.mask == self.mask
                &&& post.vram_addr == self.vram_addr
                &&& post.fine_x == self.fine_x
                &&& post.address_latch == self.address_latch
                &&& post.oam_addr == self.oam_addr
            })
        &&& (addr == 1 ==> post.mask.reg == data && post.control == self.control
                && post.tram_addr == self.tram_addr && post.vram_addr == self.vram_addr && post.fine_x == self.fine_x && post.address_latch
                == self.address_latch && post.oam_addr == self.oam_addr)
        &&& (addr == 2 ==> post.same_registers(self))
        &&& (addr == 3 ==> post.oam_addr == data && post.control == self.control
                && post.mask == self.mask && post.tram_addr == self.tram_addr && post.vram_addr == self.vram_addr && post.fine_x
                == self.fine_x && post.address_latch == self.address_latch)
        &&& (addr == 4 ==> {
                &&& post.oam@ == oam_with_byte(self.oam@, self.oam_addr, data)
                &&& post.oam_addr as int == (self.oam_addr as int + 1) % 256
                &&& post.table_name@ == self.table_name@
                &&& post.table_palette@ == self.table_palette@
                &&& post.table_pattern@ == self.table_pattern@
                &&& post.chr_rom.chr_memory@ == self.chr_rom.chr_memory@
                &&& post.chr_rom.mirror == self.chr_rom.mirror
                &&& post.chr_rom.mapper == self.chr_rom.mapper
                &&& post.control == self.control
                &&& post.mask == self.mask
                &&& post.tram_addr == self.tram_addr
                &&& post.vram_addr == self.vram_addr
                &&& post.fine_x == self.fine_x
                &&& post.address_latch == self.address_latch
            })
        &&& (addr == 5 && self.address_latch == 0 ==> {
                &&& post.fine_x == data & 0x07
                &&& post.tram_addr.reg == with_field_u16(
                    self.tram_addr.reg,
                    0,
                    5,
                    (data >> 3u8) as u16,
                )
                &&& post.address_latch == 1
                &&& post.vram_addr == self.vram_addr
            })
        &&& (addr == 5 && self.address_latch != 0 ==> {
                &&& post.fine_x == self.fine_x
                &&& post.tram_addr.reg == with_field_u16(
                    with_field_u16(self.tram_addr.reg, 12, 3, (data & 0x07) as u16),
                    5,
                    5,
                    (data >> 3u8) as u16,
                )
                &&& post.address_latch == 0
                &&& post.vram_addr == self.vram_addr
            })
        &&& (addr == 6 && self.address_latch == 0 ==> {
                &&& post.tram_addr.reg == addr_hi(self.tram_addr.reg, data)
                &&& post.address_latch == 1
                &&& post.vram_addr == self.vram_addr
                &&& post.fine_x == self.fine_x
            })
        &&& (addr == 6 && self.address_latch != 0 ==> {
                &&& post.tram_addr.reg == addr_lo(self.tram_addr.reg, data)
                &&& post.vram_addr.reg == addr_lo(self.tram_addr.reg, data)
                &&& post.address_latch == 0
                &&& post.fine_x == self.fine_x
            })
        &&& ((addr == 5 || addr == 6) ==> post.control == self.control && post.mask == self.mask && post.oam_addr == self.oam_addr)
        &&& (addr == 7 ==> {
                &&& self.ppu_write_post(post, self.vram_addr.reg, data)
                &&& post.vram_addr.reg == advanced_vram(
                    self.vram_addr.reg,
                    self.control,
                )
                &&& post.control == self.control
                &&& post.mask == self.mask
                &&& post.tram_addr == self.tram_addr
                &&& post.fine_x == self.fine_x
                &&& post.address_latch == self.address_latch
                &&& post.oam_addr == self.oam_addr
            })
    }

    /// Writes register `addr` (0-7).
    pub fn cpu_write(&mut self, addr: u16, data: u8)
        requires
            old(self).wf(),
            addr <= 7,
        ensures
            final(self).wf(),
            old(self).cpu_write_post(final(self), addr, data),

    {
        if addr == 0 {
            self.control.reg = data;
            let nx = self.control.get_nametable_x();
            let ny = self.control.get_nametable_y();
            self.tram_addr.set_nametable_x(nx);
            self.tram_addr.set_nametable_y(ny);
        } else if addr == 1 {
            self.mask.reg = data;
        } else if addr == 3 {
            self.oam_addr = data;
        } else if addr == 4 {
            self.oam_write(self.oam_addr, data);
            self.oam_addr = if self.oam_addr == 255 {
                0
            } else {
                self.oam_addr + 1
            };
        } else if addr == 5 {
            if self.address_latch == 0 {
                self.fine_x = data & 0x07;
                self.tram_addr.set_coarse_x(data >> 3u8);
                self.address_latch = 1;
            } else {
                self.tram_addr.set_fine_y(data & 0x07);
                self.tram_addr.set_coarse_y(data >> 3u8);
                self.address_latch = 0;
            }
        } else if addr == 6 {
            proof {
                lemma_addr_writes_15bit(self.tram_addr.reg, data);
            }
            if self.address_latch == 0 {
                self.tram_addr.reg = ((data as u16 & 0x3F) << 8u16) | (self.tram_addr.reg
                    & 0x00FF);
                self.address_latch = 1;
            } else {
                self.tram_addr.reg = (self.tram_addr.reg & 0xFF00) | data as u16;
                self.vram_addr = self.tram_addr;
                self.address_latch = 0;
            }
        } else if addr == 7 {
            self.ppu_write(self.vram_addr.reg, data);
            self.advance_vram();
        }
        proof {
            assert(data & 0x07 < 8) by (bit_vector);
        }
    }
}

} // verus!
