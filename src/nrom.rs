//! Mapper 0 (NROM): 16 or 32 KiB of PRG at 0x8000-0xFFFF, 8 KiB of CHR at 0x0000-0x1FFF.
use vstd::prelude::*;
use crate::mapper::Mapper;

verus! {

/// The PRG offset mask: one 16 KiB bank is mirrored, two fill the range.
pub open spec fn prg_mask(prg_banks: u8) -> u16 {
    if prg_banks > 1 {
        0x7FFF
    } else {
        0x3FFF
    }
}

pub open spec fn spec_cpu_map(prg_banks: u8, addr: u16) -> (bool, u32) {
    if addr >= 0x8000 {
        (true, (addr & prg_mask(prg_banks)) as u32)
    } else {
        (false, 0)
    }
}

pub open spec fn spec_ppu_map_read(addr: u16) -> (bool, u32) {
    if addr <= 0x1FFF {
        (true, addr as u32)
    } else {
        (false, 0)
    }
}

/// CHR is writable only where the cartridge has CHR-RAM (no CHR banks).
pub open spec fn spec_ppu_map_write(chr_banks: u8, addr: u16) -> (bool, u32) {
    if addr <= 0x1FFF && chr_banks == 0 {
        (true, addr as u32)
    } else {
        (false, 0)
    }
}

pub fn cpu_map_read(mapper: &Mapper, addr: u16) -> (r: (bool, u32))
    ensures
        r == spec_cpu_map(mapper.prg_banks, addr),
{
    if addr >= 0x8000 {
        let mask: u16 = if mapper.prg_banks > 1 {
            0x7FFF
        } else {
            0x3FFF
        };
        return (true, (addr & mask) as u32);
    }
    (false, 0)
}

/// The cartridge claims writes to its PRG range; the ROM itself ignores them.
pub fn cpu_map_write(mapper: &Mapper, addr: u16, data: u8) -> (r: (bool, u32))
    ensures
        r == spec_cpu_map(mapper.prg_banks, addr),
{
    if addr >= 0x8000 {
        let mask: u16 = if mapper.prg_banks > 1 {
            0x7FFF
        } else {
            0x3FFF
        };
        return (true, (addr & mask) as u32);
    }
    (false, 0)
}

pub fn ppu_map_read(mapper: &Mapper, addr: u16) -> (r: (bool, u32))
    ensures
        r == spec_ppu_map_read(addr),
{
    if addr <= 0x1FFF {
        return (true, addr as u32);
    }
    (false, 0)
}

pub fn ppu_map_write(mapper: &Mapper, addr: u16) -> (r: (bool, u32))
    ensures
        r == spec_ppu_map_write(mapper.chr_banks, addr),
{
    if addr <= 0x1FFF && mapper.chr_banks == 0 {
        return (true, addr as u32);
    }
    (false, 0)
}

} // verus!
