//! The CPU bus: RAM, PPU registers, controllers and cartridge, and the OAM-DMA engine.
use vstd::prelude::*;
use crate::cartridge::{Cartridge, PrgRom};
use crate::memory::zeroed;
use crate::pad::Pad;
use crate::ppu::{Ppu2C02, oam_with_byte};

verus! {

pub struct Bus {
    pub ppu: Ppu2C02,
    pub prg_rom: PrgRom,
    pub pad1: Pad,
    pub pad2: Pad,
    /// 2 KiB of work RAM, mirrored through 0x0000-0x1FFF.
    pub ram: Vec<u8>,
    /// PPU dots since power-on.
    pub system_clock_counter: u32,
    /// High byte of the page being copied to OAM.
    pub dma_page: u8,
    /// Low byte of the next address to copy.
    pub dma_addr: u8,
    /// The byte read and not yet written.
    pub dma_data: u8,
    /// The copy waits for an odd CPU cycle before it starts.
    pub dma_dummy: bool,
    /// A copy to OAM is in progress and the CPU is halted.
    pub dma_transfer: bool,
}

/// Index into the 2 KiB of RAM of a CPU address below 0x2000.
pub open spec fn ram_index(addr: u16) -> int {
    (addr & 0x07FF) as int
}

/// A RAM address's index is below 2048, and page 0 to 7 addresses are their own index.
pub proof fn lemma_ram_index(addr: u16)
    ensures
        0 <= ram_index(addr) < 2048,
        addr <= 0x07FF ==> ram_index(addr) == addr as int,
{
    assert(addr & 0x07FF <= 0x07FF && (addr <= 0x07FF ==> addr & 0x07FF == addr)) by (bit_vector);
}

/// CPU reads and writes never move the PPU in its frame, touch its NMI line, or change the
/// program ROM; reads leave RAM as it is.
pub proof fn lemma_access_keeps_timing()
    ensures
        forall|b1: Bus, b2: Bus, a: u16, ro: bool, r: u8|
            #[trigger] b1.read_post(&b2, a, ro, r) ==> b2.keeps_clock_and_rom(&b1) && b2.ram@
                == b1.ram@,
        forall|b1: Bus, b2: Bus, a: u16, d: u8|
            #[trigger] b1.write_post(&b2, a, d) ==> b2.keeps_clock_and_rom(&b1),
{
}

/// Mirroring of the CPU address space: an address below 0x2000 reads and writes the RAM
/// byte of its image in 0x0000-0x07FF, and an address in 0x2000-0x3FFF reaches the PPU
/// register of its low three bits, exactly as that register's own address does.
pub proof fn lemma_bus_mirroring(b: Bus, post: Bus, a: u16, read_only: bool, r: u8, d: u8)
    ensures
        a <= 0x1FFF ==> (b.read_post(&post, a, read_only, r) <==> b.read_post(
            &post,
            a & 0x07FF,
            read_only,
            r,
        )),
        a <= 0x1FFF ==> (b.write_post(&post, a, d) <==> b.write_post(&post, a & 0x07FF, d)),
        0x2000 <= a <= 0x3FFF ==> (b.read_post(&post, a, read_only, r) <==> b.read_post(
            &post,
            0x2000 | (a & 0x0007),
            read_only,
            r,
        )),
        0x2000 <= a <= 0x3FFF ==> (b.write_post(&post, a, d) <==> b.write_post(
            &post,
            0x2000 | (a & 0x0007),
            d,
        )),
{
    assert(((a & 0x07FF) & 0x07FF) == a & 0x07FF && a & 0x07FF <= 0x07FF && ((0x2000u16 | (a
        & 0x0007)) & 0x0007) == a & 0x0007 && 0x2000 <= (0x2000u16 | (a & 0x0007)) && (0x2000u16
        | (a & 0x0007)) <= 0x2007) by (bit_vector);
}

/// The DMA engine's state after one CPU cycle of a transfer: `(transfer, dummy, addr)`.
/// While `dummy`, it waits for an odd cycle; then even cycles read and odd cycles write and
/// advance the address, and the wrap of the address back to 0 ends the transfer.
pub open spec fn dma_next(dummy: bool, addr: u8, odd: bool) -> (bool, bool, u8) {
    if dummy {
        (true, !odd, addr)
    } else if !odd {
        (true, false, addr)
    } else if addr == 255 {
        (false, true, 0)
    } else {
        (true, false, (addr + 1) as u8)
    }
}

/// CPU cycles until the transfer ends, counting this one.
pub open spec fn dma_cycles_left(dummy: bool, addr: u8, odd: bool) -> int {
    if dummy {
        (if odd {
            1int
        } else {
            2int
        }) + 512
    } else {
        2 * (256 - addr) - (if odd {
            1int
        } else {
            0int
        })
    }
}

/// One cycle of a transfer takes one cycle off what is left, and the transfer ends on the
/// cycle that had one left. While the engine waits for alignment its address is 0, and it
/// stays so.
pub proof fn lemma_dma_cycle(dummy: bool, addr: u8, odd: bool)
    requires
        dummy ==> addr == 0,
    ensures
        ({
            let (transfer, d2, a2) = dma_next(dummy, addr, odd);
            &&& !transfer <==> dma_cycles_left(dummy, addr, odd) == 1
            &&& transfer ==> dma_cycles_left(d2, a2, !odd) == dma_cycles_left(dummy, addr, odd) - 1
            &&& d2 ==> a2 == 0
        }),
{
    if !dummy && odd && addr < 255 {
        assert(((addr + 1) as u8) as int == addr + 1);
    }
}

/// A transfer started by a write to 0x4014 keeps the CPU halted for 513 CPU cycles when
/// its first cycle is odd and 514 when it is even.
pub proof fn lemma_dma_length(odd: bool)
    ensures
        dma_cycles_left(true, 0, odd) == (if odd {
            513int
        } else {
            514int
        }),
{
}

impl Bus {
    pub open spec fn wf(&self) -> bool {
        &&& self.ppu.wf()
        &&& self.prg_rom.wf()
        &&& self.ram@.len() == 2048
        &&& (self.dma_dummy ==> self.dma_addr == 0)
    }

    /// Equal to `o` but for the parts flagged.
    pub open spec fn same_except(&self, o: &Bus, ram: bool, ppu: bool, pads: bool, dma: bool) -> bool {
        &&& (!ram ==> self.ram@ == o.ram@)
        &&& (!ppu ==> self.ppu == o.ppu)
        &&& (!pads ==> self.pad1 == o.pad1 && self.pad2 == o.pad2)
        &&& (!dma ==> {
            &&& self.dma_page == o.dma_page
            &&& self.dma_addr == o.dma_addr
            &&& self.dma_data == o.dma_data
            &&& self.dma_dummy == o.dma_dummy
            &&& self.dma_transfer == o.dma_transfer
        })
        &&& self.prg_rom == o.prg_rom
        &&& self.system_clock_counter == o.system_clock_counter
    }

    /// The PPU's position in the frame, its NMI line, the master clock and the cartridge's
    /// program ROM are those of `o`.
    pub open spec fn keeps_clock_and_rom(&self, o: &Bus) -> bool {
        &&& self.prg_rom == o.prg_rom
        &&& self.ppu.scanline == o.ppu.scanline
        &&& self.ppu.cycle == o.ppu.cycle
        &&& self.ppu.frame_complete == o.ppu.frame_complete
        &&& self.ppu.odd_frame == o.ppu.odd_frame
        &&& self.ppu.nmi == o.ppu.nmi
        &&& self.system_clock_counter == o.system_clock_counter
    }

    /// Reading `addr` has no side effect: it is not a PPU register or a controller.
    pub open spec fn quiet(&self, addr: u16) -> bool {
        self.prg_rom.spec_read(addr).0 || addr <= 0x1FFF || (0x4000 <= addr && addr != 0x4016
            && addr != 0x4017)
    }

    /// What a read of a quiet address returns.
    pub open spec fn peek(&self, addr: u16) -> u8 {
        if self.prg_rom.spec_read(addr).0 {
            self.prg_rom.spec_read(addr).1
        } else if addr <= 0x1FFF {
            self.ram@[ram_index(addr)]
        } else {
            0
        }
    }

    /// How a CPU read of `addr` relates the bus before (`self`) and after (`post`) to the
    /// byte `r` returned. Unmapped addresses read as 0.
    pub open spec fn read_post(&self, post: &Bus, addr: u16, read_only: bool, r: u8) -> bool {
        if self.quiet(addr) {
            r == self.peek(addr) && post.same_except(self, false, false, false, false)
        } else if addr <= 0x3FFF {
            self.ppu.cpu_read_post(&post.ppu, addr & 0x0007, read_only, r) && post.same_except(
                self,
                false,
                true,
                false,
                false,
            )
        } else if read_only {
            r == (if addr == 0x4016 {
                self.pad1.spec_peek()
            } else {
                self.pad2.spec_peek()
            }) && post.same_except(self, false, false, false, false)
        } else if addr == 0x4016 {
            self.pad1.read_post(&post.pad1, r) && post.pad2 == self.pad2 && post.same_except(
                self,
                false,
                false,
                true,
                false,
            )
        } else {
            self.pad2.read_post(&post.pad2, r) && post.pad1 == self.pad1 && post.same_except(
                self,
                false,
                false,
                true,
                false,
            )
        }
    }

    /// How a CPU write of `data` to `addr` relates the bus before and after. Writes to the
    /// cartridge's ROM and to unmapped addresses change nothing.
    pub open spec fn write_post(&self, post: &Bus, addr: u16, data: u8) -> bool {
        if self.prg_rom.mapper.spec_cpu_map_write(addr).0 {
            post.same_except(self, false, false, false, false)
        } else if addr <= 0x1FFF {
            post.ram@ == self.ram@.update(ram_index(addr), data) && post.same_except(
                self,
                true,
                false,
                false,
                false,
            )
        } else if addr <= 0x3FFF {
            self.ppu.cpu_write_post(&post.ppu, addr & 0x0007, data) && post.same_except(
                self,
                false,
                true,
                false,
                false,
            )
        } else if addr == 0x4014 {
            &&& post.dma_page == data
            &&& post.dma_addr == 0
            &&& post.dma_transfer
            &&& post.dma_dummy
            &&& post.dma_data == self.dma_data
            &&& post.same_except(self, false, false, false, true)
        } else if addr == 0x4016 {
            self.pad1.write_post(&post.pad1, data & 0x01 == 1) && post.pad2 == self.pad2
                && post.same_except(self, false, false, true, false)
        } else if addr == 0x4017 {
            self.pad2.write_post(&post.pad2, data & 0x01 == 1) && post.pad1 == self.pad1
                && post.same_except(self, false, false, true, false)
        } else {
            post.same_except(self, false, false, false, false)
        }
    }

    /// A bus around `cartridge`, with zeroed RAM and idle DMA.
    pub fn new(cartridge: Cartridge) -> (r: Bus)
        requires
            cartridge.wf(),
        ensures
            r.wf(),
            r.ram@ == Seq::new(2048, |i: int| 0u8),
            r.prg_rom.prg_memory@ == cartridge.prg_memory@,
            r.prg_rom.mapper == cartridge.mapper,
            r.ppu.chr_rom.chr_memory@ == cartridge.chr_memory@,
            r.ppu.chr_rom.mirror == cartridge.mirror,
            r.system_clock_counter == 0,
            !r.dma_transfer,
            r.dma_dummy,
            r.ppu.scanline == 0,
            r.ppu.cycle == 0,
            !r.ppu.nmi,
            r.ppu.address_latch == 0,
            r.ppu.mask.reg == 0,
            r.ppu.control.reg == 0,
            r.ppu.status.reg == 0,
            r.ppu.vram_addr.reg == 0,
            r.ppu.tram_addr.reg == 0,
            r.ppu.oam_addr == 0,
            r.ppu.table_palette@ == Seq::new(32, |i: int| 0u8),
            r.ppu.table_name@ == Seq::new(2048, |i: int| 0u8),
    {
        let (prg_rom, chr_rom) = cartridge.get_roms();
        Bus {
            ppu: Ppu2C02::new(chr_rom),
            prg_rom,
            ram: zeroed(2048),
            pad1: Pad::new(),
            pad2: Pad::new(),
            system_clock_counter: 0,
            dma_addr: 0,
            dma_data: 0,
            dma_page: 0,
            dma_dummy: true,
            dma_transfer: false,
        }
    }

    /// Reads the CPU address space. `read_only` makes PPU register and controller reads
    /// side-effect free.
    pub fn read(&mut self, addr: u16, read_only: bool) -> (r: u8)
        requires
            old(self).wf(),
        ensures
            final(self).wf(),
            old(self).read_post(final(self), addr, read_only, r),
    {
        let (hit, data) = self.prg_rom.read(addr);
        if hit {
            return data;
        }
        if addr <= 0x1FFF {
            proof {
                crate::memory::lemma_and_le_u16(addr, 0x07FF);
            }
            return self.ram[(addr & 0x07FF) as usize];
        }
        if addr <= 0x3FFF {
            if addr >= 0x2000 {
                proof {
                    crate::memory::lemma_and_le_u16(addr, 0x0007);
                }
                return self.ppu.cpu_read(addr & 0x0007, read_only);
            }
        }
        if read_only {
            return if addr == 0x4016 {
                self.pad1.peek()
            } else if addr == 0x4017 {
                self.pad2.peek()
            } else {
                0
            };
        }
        if addr == 0x4016 {
            return self.pad1.read();
        }
        if addr == 0x4017 {
            return self.pad2.read();
        }
        0
    }

    /// Writes the CPU address space.
    pub fn write(&mut self, addr: u16, data: u8)
        requires
            old(self).wf(),
        ensures
            final(self).wf(),
            old(self).write_post(final(self), addr, data),
    {
        if self.prg_rom.write(addr, data) {
            return;
        }
        if addr <= 0x1FFF {
            proof {
                crate::memory::lemma_and_le_u16(addr, 0x07FF);
            }
            self.ram.set((addr & 0x07FF) as usize, data);
            return;
        }
        if addr <= 0x3FFF {
            proof {
                crate::memory::lemma_and_le_u16(addr, 0x0007);
            }
            self.ppu.cpu_write(addr & 0x0007, data);
            return;
        }
        if addr == 0x4014 {
            self.dma_page = data;
            self.dma_addr = 0x00;
            self.dma_transfer = true;
            self.dma_dummy = true;
            return;
        }
        if addr == 0x4016 {
            self.pad1.write(data & 0x01 == 1);
        } else if addr == 0x4017 {
            self.pad2.write(data & 0x01 == 1);
        }
    }

    /// The bus after one CPU cycle of an OAM-DMA transfer, on an odd or even cycle.
    pub open spec fn dma_cycle_post(&self, post: &Bus, odd: bool) -> bool {
        &&& ((post.dma_transfer, post.dma_dummy, post.dma_addr) == dma_next(
                self.dma_dummy,
                self.dma_addr,
                odd))
        &&& (post.dma_page == self.dma_page)
        &&& (post.system_clock_counter == self.system_clock_counter)
        &&& (post.prg_rom == self.prg_rom)
        &&& (!self.dma_dummy && !odd ==> self.read_post(
                &Bus { dma_data: self.dma_data, ..*post },
                ((self.dma_page as u16) << 8u16) | self.dma_addr as u16,
                false,
                post.dma_data))
        &&& (!self.dma_dummy && odd ==> {
                &&& post.ppu.oam@ == oam_with_byte(
                    self.ppu.oam@,
                    ((self.ppu.oam_addr as int + self.dma_addr as int) % 256) as u8,
                    self.dma_data,
                )
                &&& post.ppu.same_registers(&self.ppu)
                &&& post.ppu.same_render(&self.ppu)
                &&& post.ram@ == self.ram@
            })
        &&& (self.dma_dummy ==> post.same_except(self, false, false, false, true))
        &&& (post.keeps_clock_and_rom(self))
    }

    /// One CPU cycle of an OAM-DMA transfer: wait for alignment, read a byte of the source
    /// page on even cycles, or write it to OAM (offset by OAMADDR) on odd ones.
    pub fn dma_cycle(&mut self, odd: bool)
        requires
            old(self).wf(),
            old(self).dma_transfer,
        ensures
            final(self).wf(),
            old(self).dma_cycle_post(final(self), odd),

    {
        proof {
            lemma_access_keeps_timing();
            lemma_dma_cycle(self.dma_dummy, self.dma_addr, odd);
        }
        if self.dma_dummy {
            if odd {
                self.dma_dummy = false;
            }
        } else if !odd {
            let addr: u16 = ((self.dma_page as u16) << 8u16) | self.dma_addr as u16;
            self.dma_data = self.read(addr, false);
        } else {
            let offset: u8 = ((self.ppu.oam_addr as u16 + self.dma_addr as u16) % 256) as u8;
            self.ppu.oam_write(offset, self.dma_data);
            if self.dma_addr == 255 {
                self.dma_addr = 0;
                self.dma_transfer = false;
                self.dma_dummy = true;
            } else {
                self.dma_addr = self.dma_addr + 1;
            }
        }
    }
}

} // verus!
