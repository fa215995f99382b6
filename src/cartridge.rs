//! The cartridge: PRG and CHR memories, nametable mirroring, and loading of iNES images.
use vstd::prelude::*;
use crate::mapper::Mapper;
use crate::memory::{copy_range, zeroed};

verus! {

/// How the two physical nametables fill the four logical ones.
#[derive(Clone, Copy, Debug, PartialEq, Eq, Structural)]
pub enum Mirror {
    Horizontal,
    Vertical,
    OneScreenLo,
    OneScreenHi,
}

/// Why an iNES image was refused.
#[derive(Clone, Copy, Debug, PartialEq, Eq, Structural)]
pub enum LoadError {
    /// The first four bytes are not `NES\x1A`.
    BadMagic,
    /// The header names a mapper other than NROM.
    UnsupportedMapper(u8),
    /// The image ends before the header, the program ROM or the character ROM does.
    Truncated,
    /// The image ends inside the 512-byte trainer.
    TrainerOverflow,
}

/// Program ROM, as seen from the CPU bus.
pub struct PrgRom {
    pub mirror: Mirror,
    pub mapper_id: u8,
    pub prg_memory: Vec<u8>,
    pub prg_banks: u8,
    pub mapper: Mapper,
}

/// Character ROM or RAM, as seen from the PPU bus.
pub struct ChrRom {
    pub mirror: Mirror,
    pub mapper_id: u8,
    pub chr_banks: u8,
    pub chr_memory: Vec<u8>,
    pub mapper: Mapper,
}

pub struct Cartridge {
    pub image_valid: bool,
    pub mirror: Mirror,
    pub mapper_id: u8,
    /// Number of 16 KiB program banks.
    pub prg_banks: u8,
    /// Number of 8 KiB character banks; 0 means 8 KiB of CHR-RAM.
    pub chr_banks: u8,
    pub prg_memory: Vec<u8>,
    pub chr_memory: Vec<u8>,
    pub mapper: Mapper,
}

/// The 16-byte iNES header.
#[derive(Clone, Copy, Debug)]
pub struct Header {
    pub name: [u8; 4],
    pub prg_rom_chunks: u8,
    pub chr_rom_chunks: u8,
    pub mapper1: u8,
    pub mapper2: u8,
    pub prg_ram_size: u8,
    pub tv_system1: u8,
    pub tv_system2: u8,
    pub unused: [u8; 5],
}

impl PrgRom {
    /// The banks counted here are the mapper's, and PRG memory holds 16 KiB for each.
    pub open spec fn wf(&self) -> bool {
        &&& self.prg_banks == self.mapper.prg_banks
        &&& self.prg_memory@.len() == self.prg_banks as int * 16384
    }

    /// What a CPU read of `addr` gives: whether the cartridge answers, and the byte. An
    /// offset past the end of PRG memory (a cartridge without program ROM) is unmapped.
    pub open spec fn spec_read(&self, addr: u16) -> (bool, u8) {
        let (hit, offset) = self.mapper.spec_cpu_map_read(addr);
        if hit && offset < self.prg_memory@.len() {
            (true, self.prg_memory@[offset as int])
        } else {
            (false, 0)
        }
    }

    pub fn read(&self, addr: u16) -> (r: (bool, u8))
        requires
            self.wf(),
        ensures
            r == self.spec_read(addr),
    {
        let (hit, mapped_addr) = self.mapper.cpu_map_read(addr);
        if hit && (mapped_addr as usize) < self.prg_memory.len() {
            return (true, self.prg_memory[mapped_addr as usize]);
        }
        (false, 0)
    }

    /// Claims writes to the cartridge range, which leave the ROM as it is.
    pub fn write(&self, addr: u16, data: u8) -> (r: bool)
        ensures
            r == self.mapper.spec_cpu_map_write(addr).0,
    {
        let (hit, _mapped_addr) = self.mapper.cpu_map_write(addr, data);
        hit
    }

    pub fn reset(&self) {
        self.mapper.reset();
    }
}

impl ChrRom {
    pub open spec fn wf(&self) -> bool {
        self.chr_memory@.len() >= 0x2000
    }

    /// What a PPU read of `addr` gives: whether the cartridge answers, and the byte.
    pub open spec fn spec_read(&self, addr: u16) -> (bool, u8) {
        let (hit, offset) = self.mapper.spec_ppu_map_read(addr);
        if hit {
            (true, self.chr_memory@[offset as int])
        } else {
            (false, 0)
        }
    }

    pub fn read(&self, addr: u16) -> (r: (bool, u8))
        requires
            self.wf(),
        ensures
            r == self.spec_read(addr),
    {
        let (hit, mapped_addr) = self.mapper.ppu_map_read(addr);
        if hit {
            return (true, self.chr_memory[mapped_addr as usize]);
        }
        (false, 0)
    }

    /// Writes CHR-RAM; CHR-ROM is left unchanged and the write is not claimed.
    pub fn write(&mut self, addr: u16, data: u8) -> (r: bool)
        requires
            old(self).wf(),
        ensures
            r == old(self).mapper.spec_ppu_map_write(addr).0,
            final(self).chr_memory@ == (if r {
                old(self).chr_memory@.update(addr as int, data)
            } else {
                old(self).chr_memory@
            }),
            final(self).mapper == old(self).mapper,
            final(self).mirror == old(self).mirror,
            final(self).wf(),
    {
        let (hit, mapped_addr) = self.mapper.ppu_map_write(addr);
        if hit {
            self.chr_memory.set(mapped_addr as usize, data);
            return true;
        }
        false
    }

    pub fn reset(&self) {
        self.mapper.reset();
    }
}

/// Size in bytes of one program bank.
pub const PRG_BANK_SIZE: usize = 16384;

/// Size in bytes of one character bank, and of CHR-RAM.
pub const CHR_BANK_SIZE: usize = 8192;

/// Where program ROM starts in an image: after the header and the trainer, if any.
pub open spec fn ines_prg_start(b: Seq<u8>) -> int {
    if b[6] & 0x04 != 0 {
        528int
    } else {
        16int
    }
}

pub open spec fn ines_prg_len(b: Seq<u8>) -> int {
    b[4] as int * 16384
}

/// Bytes of character ROM stored in the image (none for CHR-RAM).
pub open spec fn ines_chr_len(b: Seq<u8>) -> int {
    b[5] as int * 8192
}

pub open spec fn ines_mapper_id(b: Seq<u8>) -> u8 {
    (b[7] & 0xF0) | (b[6] >> 4)
}

pub open spec fn ines_mirror(b: Seq<u8>) -> Mirror {
    if b[6] & 0x01 != 0 {
        Mirror::Vertical
    } else {
        Mirror::Horizontal
    }
}

/// Why the image `b` is refused, checked in this order; `None` if it loads.
pub open spec fn ines_error(b: Seq<u8>) -> Option<LoadError> {
    if b.len() < 16 {
        Some(LoadError::Truncated)
    } else if b[0] != 0x4E || b[1] != 0x45 || b[2] != 0x53 || b[3] != 0x1A {
        Some(LoadError::BadMagic)
    } else if ines_mapper_id(b) != 0 {
        Some(LoadError::UnsupportedMapper(ines_mapper_id(b)))
    } else if b.len() < ines_prg_start(b) {
        Some(LoadError::TrainerOverflow)
    } else if b.len() < ines_prg_start(b) + ines_prg_len(b) + ines_chr_len(b) {
        Some(LoadError::Truncated)
    } else {
        None
    }
}

/// The program ROM of a valid image.
pub open spec fn ines_prg(b: Seq<u8>) -> Seq<u8> {
    b.subrange(ines_prg_start(b), ines_prg_start(b) + ines_prg_len(b))
}

/// The character memory of a valid image: its CHR-ROM, or 8 KiB of zeroed CHR-RAM.
pub open spec fn ines_chr(b: Seq<u8>) -> Seq<u8> {
    if b[5] == 0 {
        Seq::new(8192, |i: int| 0u8)
    } else {
        let start = ines_prg_start(b) + ines_prg_len(b);
        b.subrange(start, start + ines_chr_len(b))
    }
}

impl Header {
    /// Reads the header fields from the first 16 bytes of an image.
    pub fn from_bytes(image: &Vec<u8>) -> (r: Option<Header>)
        ensures
            image@.len() < 16 <==> r is None,
            r matches Some(h) ==> {
                &&& h.name@ == image@.subrange(0, 4)
                &&& h.prg_rom_chunks == image@[4]
                &&& h.chr_rom_chunks == image@[5]
                &&& h.mapper1 == image@[6]
                &&& h.mapper2 == image@[7]
                &&& h.prg_ram_size == image@[8]
                &&& h.tv_system1 == image@[9]
                &&& h.tv_system2 == image@[10]
                &&& h.unused@ == image@.subrange(11, 16)
            },
    {
        if image.len() < 16 {
            return None;
        }
        let h = Header {
            name: [image[0], image[1], image[2], image[3]],
            prg_rom_chunks: image[4],
            chr_rom_chunks: image[5],
            mapper1: image[6],
            mapper2: image[7],
            prg_ram_size: image[8],
            tv_system1: image[9],
            tv_system2: image[10],
            unused: [image[11], image[12], image[13], image[14], image[15]],
        };
        assert(h.name@ =~= image@.subrange(0, 4));
        assert(h.unused@ =~= image@.subrange(11, 16));
        Some(h)
    }
}

impl Cartridge {
    /// The memories match what the mapper can address.
    pub open spec fn wf(&self) -> bool {
        &&& self.mapper.prg_banks == self.prg_banks
        &&& self.mapper.chr_banks == self.chr_banks
        &&& self.prg_memory@.len() == self.prg_banks as int * 16384
        &&& self.chr_memory@.len() >= 0x2000
    }

    /// Loads an iNES image held in memory.
    pub fn new(image: &Vec<u8>) -> (r: Result<Cartridge, LoadError>)
        ensures
            ines_error(image@) is None <==> r is Ok,
            r matches Err(e) ==> ines_error(image@) == Some(e),
            r matches Ok(c) ==> {
                &&& c.wf()
                &&& c.image_valid
                &&& c.mapper_id == 0
                &&& c.prg_banks == image@[4]
                &&& c.chr_banks == image@[5]
                &&& c.mirror == ines_mirror(image@)
                &&& c.prg_memory@ == ines_prg(image@)
                &&& c.chr_memory@ == ines_chr(image@)
            },
    {
        let header = match Header::from_bytes(image) {
            Some(h) => h,
            None => {
                return Err(LoadError::Truncated);
            },
        };
        if header.name[0] != 0x4E || header.name[1] != 0x45 || header.name[2] != 0x53
            || header.name[3] != 0x1A {
            return Err(LoadError::BadMagic);
        }
        let mapper_id: u8 = (header.mapper2 & 0xF0) | (header.mapper1 >> 4);
        if mapper_id != 0 {
            return Err(LoadError::UnsupportedMapper(mapper_id));
        }
        let prg_start: usize = if header.mapper1 & 0x04 != 0 {
            16 + 512
        } else {
            16
        };
        if image.len() < prg_start {
            return Err(LoadError::TrainerOverflow);
        }
        let prg_len: usize = header.prg_rom_chunks as usize * PRG_BANK_SIZE;
        let chr_len: usize = header.chr_rom_chunks as usize * CHR_BANK_SIZE;
        if image.len() - prg_start < prg_len || image.len() - prg_start - prg_len < chr_len {
            return Err(LoadError::Truncated);
        }
        let mirror = if header.mapper1 & 0x01 != 0 {
            Mirror::Vertical
        } else {
            Mirror::Horizontal
        };
        let prg_memory = copy_range(image, prg_start, prg_len);
        let chr_memory = if header.chr_rom_chunks == 0 {
            zeroed(CHR_BANK_SIZE)
        } else {
            copy_range(image, prg_start + prg_len, chr_len)
        };
        proof {
            if header.chr_rom_chunks == 0 {
                assert(chr_memory@ =~= ines_chr(image@));
            }
        }
        Ok(
            Cartridge {
                image_valid: true,
                mirror,
                mapper_id,
                prg_banks: header.prg_rom_chunks,
                chr_banks: header.chr_rom_chunks,
                prg_memory,
                chr_memory,
                mapper: Mapper::create_mapper_000(header.prg_rom_chunks, header.chr_rom_chunks),
            },
        )
    }

    /// A cartridge with one zeroed program bank and 8 KiB of zeroed CHR-RAM.
    pub fn empty() -> (r: Cartridge)
        ensures
            r.wf(),
            r.prg_banks == 1,
            r.chr_banks == 0,
            r.mirror == Mirror::Horizontal,
            r.prg_memory@ == Seq::new(16384, |i: int| 0u8),
            r.chr_memory@ == Seq::new(8192, |i: int| 0u8),
    {
        Cartridge {
            image_valid: false,
            mirror: Mirror::Horizontal,
            mapper_id: 0,
            prg_banks: 1,
            chr_banks: 0,
            prg_memory: zeroed(PRG_BANK_SIZE),
            chr_memory: zeroed(CHR_BANK_SIZE),
            mapper: Mapper::create_mapper_000(1, 0),
        }
    }

    /// Copies of the two memories, each with the mapper and mirroring.
    pub fn get_roms(&self) -> (r: (PrgRom, ChrRom))
        requires
            self.wf(),
        ensures
            r.0.wf(),
            r.1.wf(),
            r.0.prg_memory@ == self.prg_memory@,
            r.1.chr_memory@ == self.chr_memory@,
            r.0.mapper == self.mapper,
            r.1.mapper == self.mapper,
            r.0.mirror == self.mirror,
            r.1.mirror == self.mirror,
    {
        let prg_rom = PrgRom {
            mapper: self.mapper,
            prg_banks: self.prg_banks,
            prg_memory: copy_range(&self.prg_memory, 0, self.prg_memory.len()),
            mapper_id: self.mapper_id,
            mirror: self.mirror,
        };
        let chr_rom = ChrRom {
            mapper: self.mapper,
            chr_banks: self.chr_banks,
            chr_memory: copy_range(&self.chr_memory, 0, self.chr_memory.len()),
            mapper_id: self.mapper_id,
            mirror: self.mirror,
        };
        assert(prg_rom.prg_memory@ =~= self.prg_memory@);
        assert(chr_rom.chr_memory@ =~= self.chr_memory@);
        (prg_rom, chr_rom)
    }
}

} // verus!
