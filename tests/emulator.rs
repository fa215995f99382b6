use nes_core::alu::{add_with_carry, subtract_with_carry};
use nes_core::bus::Bus;
use nes_core::cartridge::{Cartridge, LoadError, Mirror};
use nes_core::cpu::Cpu6502;
use nes_core::disasm::to_hex;
use nes_core::mapper::Mapper;
use nes_core::nes::{Key, Nes};
use nes_core::pad::{Pad, PadButton};
use nes_core::ppu::Ppu2C02;
use nes_core::registers::LoopyRegister;
use nes_core::screen::get_color;

/// An iNES image with `prg_banks` banks of program ROM and `chr_banks` of character ROM.
fn image(prg_banks: u8, chr_banks: u8, flags6: u8, flags7: u8) -> Vec<u8> {
    let mut v = vec![0x4E, 0x45, 0x53, 0x1A, prg_banks, chr_banks, flags6, flags7];
    v.extend_from_slice(&[0; 8]);
    if flags6 & 0x04 != 0 {
        v.extend_from_slice(&[0; 512]);
    }
    v.extend(std::iter::repeat(0u8).take(prg_banks as usize * 16384));
    v.extend(std::iter::repeat(0u8).take(chr_banks as usize * 8192));
    v
}

fn cpu_with_program(org: u16, prog: &[u8]) -> Cpu6502 {
    let bus = Bus::new(Cartridge::empty());
    let mut cpu = Cpu6502::new_with_bus(bus);
    for (i, b) in prog.iter().enumerate() {
        cpu.write(org + i as u16, *b);
    }
    cpu.pc = org;
    cpu.stkp = 0xFD;
    cpu.status = 0x24;
    cpu.cycles = 0;
    cpu
}

/// Runs one instruction and returns the cycles it took.
fn step(cpu: &mut Cpu6502) -> u32 {
    cpu.cpu_clock();
    let mut n = 1;
    while cpu.cycles > 0 {
        cpu.cpu_clock();
        n += 1;
    }
    n
}

#[test]
fn reset_vector() {
    let mut img = image(1, 1, 0, 0);
    img[16 + 0x3FFC] = 0x34;
    img[16 + 0x3FFD] = 0x12;
    let cart = Cartridge::new(&img).unwrap();
    let mut cpu = Cpu6502::new_with_bus(Bus::new(cart));
    cpu.reset();
    assert_eq!(cpu.pc, 0x1234);
    assert_eq!(cpu.stkp, 0xFD);
    assert_eq!(cpu.status, 0x24);
    assert_eq!(cpu.cycles, 8);
}

#[test]
fn palette_write_read() {
    // LDA #$3F; STA $2006; LDA #$00; STA $2006; LDA #$2A; STA $2007
    let prog = [0xA9, 0x3F, 0x8D, 0x06, 0x20, 0xA9, 0x00, 0x8D, 0x06, 0x20, 0xA9, 0x2A, 0x8D, 0x07, 0x20];
    let mut cpu = cpu_with_program(0x0200, &prog);
    for _ in 0..6 {
        step(&mut cpu);
    }
    cpu.write(0x2006, 0x3F);
    cpu.write(0x2006, 0x00);
    assert_eq!(cpu.read(0x2007), 0x2A);
    assert_eq!(cpu.bus.ppu.ppu_read(0x3F00), 0x2A);
}

#[test]
fn scroll_hi_lo() {
    let mut bus = Bus::new(Cartridge::empty());
    bus.write(0x2005, 0x7D);
    bus.write(0x2005, 0x5E);
    bus.write(0x2006, 0x3D);
    bus.write(0x2006, 0xF0);
    assert_eq!(bus.ppu.vram_addr.reg, 0x3DF0);
    assert_eq!(bus.ppu.fine_x, 0x7D & 0x07);
    assert_eq!(bus.ppu.address_latch, 0);
}

#[test]
fn nrom_mirror() {
    let mut img = image(1, 1, 0, 0);
    img[16] = 0xAB;
    img[16 + 0x1234] = 0xCD;
    let mut bus = Bus::new(Cartridge::new(&img).unwrap());
    assert_eq!(bus.read(0x8000, false), 0xAB);
    assert_eq!(bus.read(0xC000, false), 0xAB);
    assert_eq!(bus.read(0x9234, false), 0xCD);
    assert_eq!(bus.read(0xD234, false), 0xCD);
    // writes to ROM are ignored
    bus.write(0x8000, 0x11);
    assert_eq!(bus.read(0xC000, false), 0xAB);
}

#[test]
fn sprite_zero_hit() {
    let mut bus = Bus::new(Cartridge::empty());
    let ppu = &mut bus.ppu;
    for i in 0..8u16 {
        ppu.ppu_write(0x0010 + i, 0xFF);
    }
    for i in 0..64u16 {
        ppu.ppu_write(0x2000 + i, 1);
    }
    ppu.oam_write(0, 0);
    ppu.oam_write(1, 1);
    ppu.oam_write(2, 0);
    ppu.oam_write(3, 16);
    ppu.cpu_write(1, 0x1E);
    while !(ppu.scanline == 5 && ppu.cycle == 0) {
        ppu.clock();
    }
    assert_eq!(ppu.cpu_read(2, true) & 0x40, 0x40);
    while !(ppu.scanline == -1 && ppu.cycle == 2) {
        ppu.clock();
    }
    assert_eq!(ppu.cpu_read(2, true) & 0x40, 0);
}

#[test]
fn ram_and_register_mirroring() {
    let mut bus = Bus::new(Cartridge::empty());
    bus.write(0x0005, 0x77);
    for a in [0x0005u16, 0x0805, 0x1005, 0x1805] {
        assert_eq!(bus.read(a, false), 0x77);
    }
    bus.write(0x1FFF, 0x42);
    assert_eq!(bus.read(0x07FF, false), 0x42);
    // 0x3FFE is PPUADDR, mirrored
    bus.write(0x3FFE, 0x21);
    bus.write(0x200E, 0x08);
    assert_eq!(bus.ppu.vram_addr.reg, 0x2108);
}

#[test]
fn palette_aliasing() {
    let mut ppu = Ppu2C02::new(Cartridge::empty().get_roms().1);
    for (hi, lo) in [(0x3F10u16, 0x3F00u16), (0x3F14, 0x3F04), (0x3F18, 0x3F08), (0x3F1C, 0x3F0C)] {
        ppu.ppu_write(hi, 0x11);
        assert_eq!(ppu.ppu_read(lo), 0x11);
        ppu.ppu_write(lo, 0x22);
        assert_eq!(ppu.ppu_read(hi), 0x22);
    }
    // mirrored every 32 bytes
    ppu.ppu_write(0x3F01, 0x05);
    assert_eq!(ppu.ppu_read(0x3FE1), 0x05);
}

#[test]
fn push_pull_round_trip() {
    // LDA #$80; PHA; LDA #$00; PLA
    let mut cpu = cpu_with_program(0x0200, &[0xA9, 0x80, 0x48, 0xA9, 0x00, 0x68]);
    let sp = cpu.stkp;
    step(&mut cpu);
    step(&mut cpu);
    assert_eq!(cpu.stkp, sp.wrapping_sub(1));
    step(&mut cpu);
    assert_eq!(cpu.a, 0);
    step(&mut cpu);
    assert_eq!(cpu.a, 0x80);
    assert_eq!(cpu.stkp, sp);
    assert_eq!(cpu.status & 0x80, 0x80);
    assert_eq!(cpu.status & 0x02, 0);
}

#[test]
fn indirect_jmp_page_bug() {
    // JMP ($10FF): 0x10FF mirrors RAM 0x00FF, 0x1000 mirrors 0x0000, 0x1100 mirrors 0x0100
    let mut cpu = cpu_with_program(0x0200, &[0x6C, 0xFF, 0x10]);
    cpu.write(0x00FF, 0x34);
    cpu.write(0x0000, 0x12);
    cpu.write(0x0100, 0x56);
    let cycles = step(&mut cpu);
    assert_eq!(cpu.pc, 0x1234);
    assert_eq!(cycles, 5);
}

#[test]
fn sbc_matches_adc_of_complement() {
    for p in [0x00u8, 0x01] {
        for a in 0..=255u8 {
            for m in 0..=255u8 {
                let s = subtract_with_carry(p, a, m);
                let t = add_with_carry(p, a, m ^ 0xFF);
                assert_eq!(s.0, t.0);
                assert_eq!(s.1 & 0xC3, t.1 & 0xC3);
            }
        }
    }
    // 0x50 - 0xF0 with carry set: 0x60, no borrow out, no overflow
    assert_eq!(subtract_with_carry(0x01, 0x50, 0xF0), (0x60, 0x00));
    // 0x50 - 0xB0: 0xA0, borrow, overflow, negative
    assert_eq!(subtract_with_carry(0x01, 0x50, 0xB0), (0xA0, 0xC0));
}

#[test]
fn adc_exact_values() {
    assert_eq!(add_with_carry(0x00, 0x50, 0x50), (0xA0, 0xC0));
    assert_eq!(add_with_carry(0x00, 0xFF, 0x01), (0x00, 0x03));
    assert_eq!(add_with_carry(0x01, 0x01, 0x01), (0x03, 0x00));
}

#[test]
fn branch_cycle_counting() {
    // LDX #$01 (Z clear); BEQ +2 (not taken); BNE +2 (taken, same page)
    let mut cpu = cpu_with_program(0x0200, &[0xA2, 0x01, 0xF0, 0x02, 0xD0, 0x02]);
    step(&mut cpu);
    assert_eq!(step(&mut cpu), 2);
    assert_eq!(cpu.pc, 0x0204);
    assert_eq!(step(&mut cpu), 3);
    assert_eq!(cpu.pc, 0x0208);
    // BNE from 0x02FC to 0x0300 crosses a page
    let mut cpu = cpu_with_program(0x02FB, &[0xA2, 0x01, 0xD0, 0x7F]);
    step(&mut cpu);
    assert_eq!(step(&mut cpu), 4);
    assert_eq!(cpu.pc, 0x037E);
}

#[test]
fn oam_dma_timing() {
    let bus = Bus::new(Cartridge::empty());
    let mut cpu = Cpu6502::new_with_bus(bus);
    for i in 0..256u16 {
        cpu.write(0x0300 + i, i as u8);
    }
    cpu.write(0x2003, 4);
    cpu.write(0x4014, 0x03);
    let mut cpu_cycles = 0;
    while cpu.bus.dma_transfer {
        if cpu.bus.system_clock_counter % 3 == 0 {
            cpu_cycles += 1;
        }
        cpu.clock();
    }
    assert!(cpu_cycles == 513 || cpu_cycles == 514, "{}", cpu_cycles);
    for i in 0..256u16 {
        assert_eq!(cpu.bus.ppu.oam_read((4 + i) as u8), i as u8);
    }
}

#[test]
fn frame_length() {
    let mut ppu = Ppu2C02::new(Cartridge::empty().get_roms().1);
    while !(ppu.scanline == -1 && ppu.cycle == 0) {
        ppu.clock();
    }
    let mut dots = 0;
    loop {
        ppu.clock();
        dots += 1;
        if ppu.scanline == -1 && ppu.cycle == 0 {
            break;
        }
    }
    assert_eq!(dots, 89342);
    // rendering enabled: even frames keep every dot, odd frames skip dot 0 of line 0
    ppu.cpu_write(1, 0x08);
    assert!(!ppu.odd_frame);
    let mut dots = 0;
    loop {
        ppu.clock();
        dots += 1;
        if ppu.scanline == -1 && ppu.cycle == 0 {
            break;
        }
    }
    assert_eq!(dots, 89342);
    assert!(ppu.odd_frame);
    let mut dots = 0;
    loop {
        ppu.clock();
        dots += 1;
        if ppu.scanline == -1 && ppu.cycle == 0 {
            break;
        }
    }
    assert_eq!(dots, 89341);
}

#[test]
fn nmi_once_per_frame() {
    let mut ppu = Ppu2C02::new(Cartridge::empty().get_roms().1);
    ppu.cpu_write(0, 0x80);
    let mut nmis = 0;
    for _ in 0..(2 * 89342) {
        ppu.clock();
        if ppu.nmi {
            nmis += 1;
            ppu.nmi = false;
        }
    }
    assert_eq!(nmis, 2);
}

#[test]
fn nmi_enters_handler() {
    let mut img = image(1, 1, 0, 0);
    img[16 + 0x3FFA] = 0x00;
    img[16 + 0x3FFB] = 0x90;
    img[16 + 0x3FFC] = 0x00;
    img[16 + 0x3FFD] = 0x80;
    // JMP $8000
    img[16] = 0x4C;
    img[17] = 0x00;
    img[18] = 0x80;
    let mut cpu = Cpu6502::new_with_bus(Bus::new(Cartridge::new(&img).unwrap()));
    cpu.reset();
    cpu.bus.write(0x2000, 0x80);
    let sp = cpu.stkp;
    while !(cpu.bus.ppu.scanline == 241 && cpu.bus.ppu.cycle == 2) {
        cpu.clock();
    }
    assert!(!cpu.bus.ppu.nmi);
    assert!(cpu.nmi_pending);
    // served at the next instruction boundary, at most one JMP (3 cycles) away
    let mut dots = 0;
    while cpu.pc != 0x9000 && dots < 12 {
        cpu.clock();
        dots += 1;
    }
    assert_eq!(cpu.pc, 0x9000);
    assert_eq!(cpu.stkp, sp.wrapping_sub(3));
    assert!(!cpu.nmi_pending);
    assert_eq!(cpu.status & 0x04, 0x04);
}

#[test]
fn loader_errors() {
    assert_eq!(Cartridge::new(&vec![0x4E, 0x45]).err(), Some(LoadError::Truncated));
    let mut bad = image(1, 1, 0, 0);
    bad[3] = 0;
    assert_eq!(Cartridge::new(&bad).err(), Some(LoadError::BadMagic));
    assert_eq!(Cartridge::new(&image(1, 1, 0x10, 0)).err(), Some(LoadError::UnsupportedMapper(1)));
    assert_eq!(Cartridge::new(&image(1, 1, 0x00, 0x40)).err(), Some(LoadError::UnsupportedMapper(0x40)));
    let mut short = image(1, 1, 0, 0);
    short.truncate(16 + 16384 + 100);
    assert_eq!(Cartridge::new(&short).err(), Some(LoadError::Truncated));
    let trainer = image(0, 0, 0x04, 0)[..100].to_vec();
    assert_eq!(Cartridge::new(&trainer).err(), Some(LoadError::TrainerOverflow));
    // a cartridge without program ROM loads; its program range reads as unmapped
    let mut bus = Bus::new(Cartridge::new(&image(0, 1, 0, 0)).unwrap());
    assert_eq!(bus.read(0x8000, false), 0);
    assert_eq!(bus.read(0xFFFC, false), 0);
}

#[test]
fn loader_success() {
    let mut img = image(2, 0, 0x05, 0);
    img[16 + 512] = 0x99;
    let cart = Cartridge::new(&img).unwrap();
    assert_eq!(cart.prg_banks, 2);
    assert_eq!(cart.chr_banks, 0);
    assert_eq!(cart.prg_memory.len(), 32768);
    assert_eq!(cart.prg_memory[0], 0x99);
    assert_eq!(cart.chr_memory.len(), 8192);
    assert_eq!(cart.mirror, Mirror::Vertical);
    let mut bus = Bus::new(cart);
    assert_eq!(bus.read(0x8000, false), 0x99);
    // two banks are not mirrored
    assert_eq!(bus.read(0xC000, false), 0x00);
    // CHR-RAM is writable
    bus.ppu.ppu_write(0x0123, 0x5A);
    assert_eq!(bus.ppu.ppu_read(0x0123), 0x5A);
}

#[test]
fn chr_rom_is_read_only() {
    let mut img = image(1, 1, 0, 0);
    img[16 + 16384 + 5] = 0x3C;
    let mut bus = Bus::new(Cartridge::new(&img).unwrap());
    bus.ppu.ppu_write(0x0005, 0x00);
    assert_eq!(bus.ppu.ppu_read(0x0005), 0x3C);
}

#[test]
fn nametable_mirroring() {
    let mut img = image(1, 1, 0x01, 0);
    img[0] = 0x4E;
    let mut bus = Bus::new(Cartridge::new(&img).unwrap());
    bus.ppu.ppu_write(0x2000, 0x12);
    assert_eq!(bus.ppu.ppu_read(0x2800), 0x12);
    assert_ne!(bus.ppu.ppu_read(0x2400), 0x12);
    let mut bus = Bus::new(Cartridge::new(&image(1, 1, 0x00, 0)).unwrap());
    bus.ppu.ppu_write(0x2000, 0x34);
    assert_eq!(bus.ppu.ppu_read(0x2400), 0x34);
    assert_ne!(bus.ppu.ppu_read(0x2800), 0x34);
}

#[test]
fn controller_order() {
    let mut pad = Pad::new();
    pad.press_button(PadButton::A);
    pad.press_button(PadButton::Start);
    pad.press_button(PadButton::Right);
    pad.write(true);
    assert_eq!(pad.read(), 1);
    assert_eq!(pad.read(), 1);
    pad.write(false);
    let bits: Vec<u8> = (0..10).map(|_| pad.read()).collect();
    assert_eq!(bits, vec![1, 0, 0, 1, 0, 0, 0, 1, 1, 1]);
    pad.release_button(PadButton::A);
    assert_eq!(pad.get_reg(), 0x11);
}

#[test]
fn controller_through_bus() {
    let mut bus = Bus::new(Cartridge::empty());
    bus.pad1.press_button(PadButton::B);
    bus.write(0x4016, 1);
    bus.write(0x4016, 0);
    assert_eq!(bus.read(0x4016, false), 0);
    assert_eq!(bus.read(0x4016, false), 1);
}

#[test]
fn status_read_clears_vblank_and_latch() {
    let mut ppu = Ppu2C02::new(Cartridge::empty().get_roms().1);
    ppu.status.set_vertical_blank(1);
    ppu.ppu_data_buffer = 0x1F;
    ppu.address_latch = 1;
    assert_eq!(ppu.cpu_read(2, false), 0x9F);
    assert_eq!(ppu.status.get_vertical_blank(), 0);
    assert_eq!(ppu.address_latch, 0);
}

#[test]
fn ppudata_reads_are_buffered() {
    let mut bus = Bus::new(Cartridge::empty());
    bus.ppu.ppu_write(0x2005, 0x66);
    bus.write(0x2006, 0x20);
    bus.write(0x2006, 0x05);
    assert_eq!(bus.read(0x2007, false), 0x00);
    assert_eq!(bus.read(0x2007, false), 0x66);
    // increment of 32
    bus.write(0x2000, 0x04);
    bus.write(0x2006, 0x20);
    bus.write(0x2006, 0x00);
    bus.read(0x2007, false);
    assert_eq!(bus.ppu.vram_addr.reg, 0x2020);
}

#[test]
fn loopy_fields() {
    let mut v = LoopyRegister::new();
    v.set_coarse_x(31);
    v.set_coarse_y(29);
    v.set_nametable_x(1);
    v.set_nametable_y(1);
    v.set_fine_y(7);
    assert_eq!(v.get_reg(), 0x7FBF);
    assert_eq!(v.get_coarse_x(), 31);
    assert_eq!(v.get_coarse_y(), 29);
    assert_eq!(v.get_fine_y(), 7);
    v.set_coarse_x(40);
    assert_eq!(v.get_coarse_x(), 8);
}

#[test]
fn master_palette() {
    let p = get_color(0x2A);
    assert_eq!((p.red(), p.green(), p.blue()), (76, 208, 32));
    let p = get_color(0x40 | 0x01);
    assert_eq!((p.red(), p.green(), p.blue()), (0, 30, 116));
}

#[test]
fn jsr_rts_round_trip() {
    // JSR $0210; ... at $0210: RTS
    let mut cpu = cpu_with_program(0x0200, &[0x20, 0x10, 0x02]);
    cpu.write(0x0210, 0x60);
    let sp = cpu.stkp;
    assert_eq!(step(&mut cpu), 6);
    assert_eq!(cpu.pc, 0x0210);
    assert_eq!(cpu.read(0x0100 + sp as u16), 0x02);
    assert_eq!(cpu.read(0x0100 + sp as u16 - 1), 0x02);
    step(&mut cpu);
    assert_eq!(cpu.pc, 0x0203);
    assert_eq!(cpu.stkp, sp);
}

#[test]
fn page_cross_penalty() {
    // LDX #$FF; LDA $02F0,X (crosses into page 3): 5 cycles; STA $02F0,X: 5 cycles always
    let mut cpu = cpu_with_program(0x0200, &[0xA2, 0xFF, 0xBD, 0xF0, 0x02, 0x9D, 0xF0, 0x02]);
    step(&mut cpu);
    assert_eq!(step(&mut cpu), 5);
    assert_eq!(step(&mut cpu), 5);
}

#[test]
fn brk_and_rti() {
    let mut img = image(1, 1, 0, 0);
    img[16 + 0x3FFE] = 0x00;
    img[16 + 0x3FFF] = 0x03;
    let mut cpu = Cpu6502::new_with_bus(Bus::new(Cartridge::new(&img).unwrap()));
    cpu.write(0x0200, 0x00);
    cpu.write(0x0300, 0x40);
    cpu.pc = 0x0200;
    cpu.stkp = 0xFD;
    cpu.status = 0x21;
    cpu.cycles = 0;
    assert_eq!(step(&mut cpu), 7);
    assert_eq!(cpu.pc, 0x0300);
    assert_eq!(cpu.status & 0x04, 0x04);
    assert_eq!(cpu.read(0x01FB), 0x31);
    step(&mut cpu);
    assert_eq!(cpu.pc, 0x0202);
    assert_eq!(cpu.status, 0x21);
    assert_eq!(cpu.stkp, 0xFD);
}

#[test]
fn hex_text() {
    assert_eq!(to_hex(0x1A2B, 4), "1A2B");
    assert_eq!(to_hex(0xAB, 2), "AB");
    assert_eq!(to_hex(0x5, 4), "0005");
    assert_eq!(to_hex(0x12345, 4), "2345");
    assert_eq!(to_hex(0xFF, 0), "");
}

#[test]
fn disassembly_lines() {
    let mut cpu = cpu_with_program(0x0200, &[0xA9, 0x2A, 0xEA, 0x6C, 0xFF, 0x10, 0xD0, 0xFE, 0x0A]);
    assert_eq!(cpu.disassemble_instruction(), "$0200: LDA #$2A {IMM}");
    cpu.pc = 0x0202;
    assert_eq!(cpu.disassemble_instruction(), "$0202: NOP  {IMP}");
    cpu.pc = 0x0203;
    assert_eq!(cpu.disassemble_instruction(), "$0203: JMP ($10FF) {IND}");
    cpu.pc = 0x0206;
    assert_eq!(cpu.disassemble_instruction(), "$0206: BNE $FE [$0206] {REL}");
    cpu.pc = 0x0208;
    assert_eq!(cpu.disassemble_instruction(), "$0208: ASL  {ACC}");
    cpu.pc = 0x0200;
    let map = cpu.disassemble(0x0200, 0x0208);
    let mut keys: Vec<u16> = map.keys().copied().collect();
    keys.sort();
    assert_eq!(keys, vec![0x0200, 0x0202, 0x0203, 0x0206, 0x0208]);
    assert_eq!(map[&0x0203], "$0203: JMP ($10FF) {IND}");
    assert_eq!(cpu.pc, 0x0200);
}

#[test]
fn mapper_000() {
    let m = Mapper::create_mapper_000(1, 0);
    assert_eq!(m.get_type(), "Mapper000");
    assert_eq!(m.cpu_map_read(0xC123), (true, 0x0123));
    assert_eq!(m.cpu_map_read(0x7FFF), (false, 0));
    assert_eq!(m.ppu_map_write(0x1FFF), (true, 0x1FFF));
    let m = Mapper::create_mapper_000(2, 1);
    assert_eq!(m.cpu_map_read(0xC123), (true, 0x4123));
    assert_eq!(m.ppu_map_write(0x0000), (false, 0));
    assert_eq!(m.ppu_map_read(0x2000), (false, 0));
}

#[test]
fn run_frame_completes() {
    let mut img = image(1, 1, 0, 0);
    img[16 + 0x3FFC] = 0x00;
    img[16 + 0x3FFD] = 0x80;
    img[16] = 0x4C;
    img[17] = 0x00;
    img[18] = 0x80;
    let mut nes = nes_core::nes::Nes::new_with_cartridge(Cartridge::new(&img).unwrap());
    nes.start();
    assert_eq!(nes.cpu.pc, 0x8000);
    assert!(nes.run_frame());
    assert!(nes.run_frame());
    assert!(!nes.cpu.bus.ppu.frame_complete);
}

fn looping_nes() -> Nes {
    let mut img = image(1, 1, 0, 0);
    img[16 + 0x3FFC] = 0x00;
    img[16 + 0x3FFD] = 0x80;
    // LDA #$01; JMP $8000
    img[16..21].copy_from_slice(&[0xA9, 0x01, 0x4C, 0x00, 0x80]);
    Nes::new_with_cartridge(Cartridge::new(&img).unwrap())
}

#[test]
fn key_handling() {
    let mut nes = looping_nes();
    nes.on_buttom_press(Key::X);
    nes.on_buttom_press(Key::Space);
    assert_eq!(nes.cpu.bus.pad1.get_reg(), 0x90);
    nes.on_buttom_release(Key::X);
    assert_eq!(nes.cpu.bus.pad1.get_reg(), 0x10);
    nes.on_buttom_press(Key::P);
    assert!(nes.running);
    nes.on_buttom_press(Key::P);
    assert!(!nes.running);
    nes.palette_table = 7;
    nes.on_buttom_press(Key::T);
    assert_eq!(nes.palette_table, 0);
    nes.on_buttom_press(Key::T);
    assert_eq!(nes.palette_table, 1);
    nes.on_buttom_press(Key::PageDown);
    assert_eq!(nes.ram_offset, 100);
    nes.ram_offset = 0xFFA0;
    nes.on_buttom_press(Key::PageDown);
    assert_eq!(nes.ram_offset, 0xFFFF);
    nes.ram_offset = 50;
    nes.on_buttom_press(Key::PageUp);
    assert_eq!(nes.ram_offset, 0);
    nes.on_buttom_press(Key::NumPadMinus);
    assert_eq!(nes.ram_offset, 0);
    nes.ram_offset = 0xFFFE;
    nes.on_buttom_press(Key::NumPadPlus);
    assert_eq!(nes.ram_offset, 0xFFFE);
    nes.on_buttom_press(Key::Other);
    assert_eq!(nes.ram_offset, 0xFFFE);
}

#[test]
fn history_and_single_step() {
    let mut nes = looping_nes();
    nes.start();
    assert_eq!(nes.history, vec!["$8000: LDA #$01 {IMM}".to_string()]);
    for _ in 0..6 {
        nes.on_buttom_press(Key::N);
    }
    assert_eq!(nes.history.len(), 5);
    assert!(nes.history.iter().all(|l| l == "$8000: LDA #$01 {IMM}" || l == "$8002: JMP $8000 {ABS}"));
}

#[test]
fn pattern_table_view() {
    let mut ppu = Ppu2C02::new(Cartridge::empty().get_roms().1);
    // tile 1 of table 0: leftmost pixel of row 2 has value 1, rightmost value 3
    ppu.ppu_write(0x0010 + 2, 0x81);
    ppu.ppu_write(0x0018 + 2, 0x01);
    ppu.ppu_write(0x3F00, 0x0F);
    ppu.ppu_write(0x3F05, 0x2A);
    ppu.ppu_write(0x3F07, 0x30);
    let view = ppu.get_pattern_table(0, 1);
    assert_eq!((view.width, view.height), (128, 128));
    let at = |x: u32, y: u32| {
        let p = view.get_pixel(x, y);
        (p.red(), p.green(), p.blue())
    };
    assert_eq!(at(8, 2), (76, 208, 32));
    assert_eq!(at(15, 2), (236, 238, 236));
    // value 0 shows entry 0 of palette 1 (0x3F04), still 0x00
    assert_eq!(at(9, 2), (84, 84, 84));
    assert_eq!(at(0, 0), (84, 84, 84));
}

#[test]
fn sprites_are_evaluated_for_the_next_line() {
    let mut ppu = Ppu2C02::new(Cartridge::empty().get_roms().1);
    ppu.oam_write(0, 11);
    ppu.oam_write(4, 3);
    ppu.cpu_write(1, 0x18);
    while !(ppu.scanline == 10 && ppu.cycle == 258) {
        ppu.clock();
    }
    assert!(ppu.sprite_zero_hit_possible);
    assert_eq!(ppu.sprite_count, 1);
    assert_eq!(ppu.sprite_scanline[0].y, 11);
    while !(ppu.scanline == 9 + 9 && ppu.cycle == 258) {
        ppu.clock();
    }
    // line 19 lies past the sprite's rows 11 to 18
    assert!(!ppu.sprite_zero_hit_possible);
}
