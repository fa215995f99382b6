//! Cycle-stepped emulation of the NES core: 6502 CPU, 2C02 PPU, NROM cartridge,
//! controllers and the bus with its OAM-DMA engine and master clock.

pub mod registers;
pub mod memory;
pub mod mapper;
pub mod nrom;
pub mod cartridge;
pub mod pad;
pub mod screen;
pub mod ppu;
pub mod ppu_io;
pub mod ppu_render;
pub mod bus;
pub mod cpu;
pub mod alu;
pub mod addressing;
pub mod instruction;
pub mod opcode;
pub mod cpu_clock;
pub mod nes;
pub mod disasm;
pub mod pattern_view;
