//! The cartridge mapper: translation of CPU and PPU addresses to ROM offsets.
use vstd::prelude::*;
use crate::nrom;

verus! {

/// The mappers this emulator knows.
#[derive(Clone, Copy, Debug, PartialEq, Eq, Structural)]
pub enum MapperType {
    Mapper000,
}

/// A mapper and the bank counts it was made with.
#[derive(Clone, Copy, Debug, PartialEq, Eq, Structural)]
pub struct Mapper {
    pub prg_banks: u8,
    pub chr_banks: u8,
    pub mapper_type: MapperType,
}

impl Mapper {
    /// Where a CPU read of `addr` lands in PRG memory, if the cartridge answers it.
    pub open spec fn spec_cpu_map_read(self, addr: u16) -> (bool, u32) {
        match self.mapper_type {
            MapperType::Mapper000 => nrom::spec_cpu_map(self.prg_banks, addr),
        }
    }

    /// Whether the cartridge claims a CPU write to `addr`, and its PRG offset.
    pub open spec fn spec_cpu_map_write(self, addr: u16) -> (bool, u32) {
        match self.mapper_type {
            MapperType::Mapper000 => nrom::spec_cpu_map(self.prg_banks, addr),
        }
    }

    /// Where a PPU read of `addr` lands in CHR memory, if the cartridge answers it.
    pub open spec fn spec_ppu_map_read(self, addr: u16) -> (bool, u32) {
        match self.mapper_type {
            MapperType::Mapper000 => nrom::spec_ppu_map_read(addr),
        }
    }

    /// Where a PPU write to `addr` lands in CHR memory, if it is writable.
    pub open spec fn spec_ppu_map_write(self, addr: u16) -> (bool, u32) {
        match self.mapper_type {
            MapperType::Mapper000 => nrom::spec_ppu_map_write(self.chr_banks, addr),
        }
    }

    pub fn cpu_map_read(&self, addr: u16) -> (r: (bool, u32))
        ensures
            r == self.spec_cpu_map_read(addr),
    {
        match self.mapper_type {
            MapperType::Mapper000 => nrom::cpu_map_read(self, addr),
        }
    }

    pub fn cpu_map_write(&self, addr: u16, data: u8) -> (r: (bool, u32))
        ensures
            r == self.spec_cpu_map_write(addr),
    {
        match self.mapper_type {
            MapperType::Mapper000 => nrom::cpu_map_write(self, addr, data),
        }
    }

    pub fn ppu_map_read(&self, addr: u16) -> (r: (bool, u32))
        ensures
            r == self.spec_ppu_map_read(addr),
    {
        match self.mapper_type {
            MapperType::Mapper000 => nrom::ppu_map_read(self, addr),
        }
    }

    pub fn ppu_map_write(&self, addr: u16) -> (r: (bool, u32))
        ensures
            r == self.spec_ppu_map_write(addr),
    {
        match self.mapper_type {
            MapperType::Mapper000 => nrom::ppu_map_write(self, addr),
        }
    }

    /// NROM has no bank state, so a reset leaves it as it is.
    pub fn reset(&self) {
    }

    pub fn create_mapper_000(prg_banks: u8, chr_banks: u8) -> (r: Mapper)
        ensures
            r == (Mapper { prg_banks, chr_banks, mapper_type: MapperType::Mapper000 }),
    {
        Mapper { prg_banks, chr_banks, mapper_type: MapperType::Mapper000 }
    }

    pub fn get_type(&self) -> (r: &'static str)
        ensures
            self.mapper_type == MapperType::Mapper000 ==> r@ == "Mapper000"@,
    {
        proof {
            reveal_strlit("Mapper000");
        }
        match self.mapper_type {
            MapperType::Mapper000 => "Mapper000",
        }
    }
}

} // verus!
