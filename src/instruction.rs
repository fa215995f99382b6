//! The instruction table: the operation, addressing mode and base cycles of each of the
//! 256 opcodes, official and unofficial.
use vstd::prelude::*;
use crate::addressing::{AddressMode, implied};
use crate::cpu::Cpu6502;

verus! {

/// The operations of the 6502, with the unofficial ones the table uses.
#[derive(Clone, Copy, Debug, PartialEq, Eq, Structural)]
pub enum Opcode {
    ADC,
    AND,
    ASL,
    BCC,
    BCS,
    BEQ,
    BIT,
    BMI,
    BNE,
    BPL,
    BRK,
    BVC,
    BVS,
    CLC,
    CLD,
    CLI,
    CLV,
    CMP,
    CPX,
    CPY,
    DEC,
    DEX,
    DEY,
    EOR,
    INC,
    INX,
    INY,
    JMP,
    JSR,
    LDA,
    LDX,
    LDY,
    LSR,
    NOP,
    ORA,
    PHA,
    PHP,
    PLA,
    PLP,
    ROL,
    ROR,
    RTI,
    RTS,
    SBC,
    SEC,
    SED,
    SEI,
    STA,
    STX,
    STY,
    TAX,
    TAY,
    TSX,
    TXA,
    TXS,
    TYA,
    ALR,
    ANC,
    ARR,
    AXS,
    LAX,
    SAX,
    DCP,
    ISC,
    RLA,
    RRA,
    SLO,
    SRE,
    SKB,
    IGN,
    XXX,
}

/// A row of the instruction table.
#[derive(Clone, Copy, Debug)]
pub struct Instruct(pub &'static str, pub Opcode, pub AddressMode, pub u8);

/// A decoded instruction.
#[derive(Clone, Copy, Debug)]
pub struct Instruction {
    pub opcode: Opcode,
    pub addres_mode: AddressMode,
    /// Base cycles, before page-cross and branch penalties.
    pub cycles: u8,
    /// The mnemonic.
    pub name: &'static str,
}

/// Row 0x0 of the table: opcodes 0x00 to 0x0F.
pub open spec fn decode_row_0(lo: u8) -> (Opcode, AddressMode, u8) {
    match lo {
        0 => (Opcode::BRK, AddressMode::IMP, 7),
        1 => (Opcode::ORA, AddressMode::IZX, 6),
        2 => (Opcode::XXX, AddressMode::IMP, 2),
        3 => (Opcode::SLO, AddressMode::IZX, 8),
        4 => (Opcode::IGN, AddressMode::ZP0, 3),
        5 => (Opcode::ORA, AddressMode::ZP0, 3),
        6 => (Opcode::ASL, AddressMode::ZP0, 5),
        7 => (Opcode::SLO, AddressMode::ZP0, 5),
        8 => (Opcode::PHP, AddressMode::IMP, 3),
        9 => (Opcode::ORA, AddressMode::IMM, 2),
        10 => (Opcode::ASL, AddressMode::ACC, 2),
        11 => (Opcode::ANC, AddressMode::IMM, 2),
        12 => (Opcode::IGN, AddressMode::ABS, 4),
        13 => (Opcode::ORA, AddressMode::ABS, 4),
        14 => (Opcode::ASL, AddressMode::ABS, 6),
        _ => (Opcode::SLO, AddressMode::ABS, 6),
    }
}

/// Row 0x1 of the table: opcodes 0x10 to 0x1F.
pub open spec fn decode_row_1(lo: u8) -> (Opcode, AddressMode, u8) {
    match lo {
        0 => (Opcode::BPL, AddressMode::REL, 2),
        1 => (Opcode::ORA, AddressMode::IZY, 5),
        2 => (Opcode::XXX, AddressMode::IMP, 2),
        3 => (Opcode::SLO, AddressMode::IZY, 8),
        4 => (Opcode::IGN, AddressMode::ZPX, 4),
        5 => (Opcode::ORA, AddressMode::ZPX, 4),
        6 => (Opcode::ASL, AddressMode::ZPX, 6),
        7 => (Opcode::SLO, AddressMode::ZPX, 6),
        8 => (Opcode::CLC, AddressMode::IMP, 2),
        9 => (Opcode::ORA, AddressMode::ABY, 4),
        10 => (Opcode::NOP, AddressMode::IMP, 2),
        11 => (Opcode::SLO, AddressMode::ABY, 7),
        12 => (Opcode::IGN, AddressMode::ABX, 4),
        13 => (Opcode::ORA, AddressMode::ABX, 4),
        14 => (Opcode::ASL, AddressMode::ABX, 7),
        _ => (Opcode::SLO, AddressMode::ABX, 7),
    }
}

/// Row 0x2 of the table: opcodes 0x20 to 0x2F.
pub open spec fn decode_row_2(lo: u8) -> (Opcode, AddressMode, u8) {
    match lo {
        0 => (Opcode::JSR, AddressMode::ABS, 6),
        1 => (Opcode::AND, AddressMode::IZX, 6),
        2 => (Opcode::XXX, AddressMode::IMP, 2),
        3 => (Opcode::RLA, AddressMode::IZX, 8),
        4 => (Opcode::BIT, AddressMode::ZP0, 3),
        5 => (Opcode::AND, AddressMode::ZP0, 3),
        6 => (Opcode::ROL, AddressMode::ZP0, 5),
        7 => (Opcode::RLA, AddressMode::ZP0, 5),
        8 => (Opcode::PLP, AddressMode::IMP, 4),
        9 => (Opcode::AND, AddressMode::IMM, 2),
        10 => (Opcode::ROL, AddressMode::ACC, 2),
        11 => (Opcode::ANC, AddressMode::IMM, 2),
        12 => (Opcode::BIT, AddressMode::ABS, 4),
        13 => (Opcode::AND, AddressMode::ABS, 4),
        14 => (Opcode::ROL, AddressMode::ABS, 6),
        _ => (Opcode::RLA, AddressMode::ABS, 6),
    }
}

/// Row 0x3 of the table: opcodes 0x30 to 0x3F.
pub open spec fn decode_row_3(lo: u8) -> (Opcode, AddressMode, u8) {
    match lo {
        0 => (Opcode::BMI, AddressMode::REL, 2),
        1 => (Opcode::AND, AddressMode::IZY, 5),
        2 => (Opcode::XXX, AddressMode::IMP, 2),
        3 => (Opcode::RLA, AddressMode::IZY, 8),
        4 => (Opcode::IGN, AddressMode::ZPX, 4),
        5 => (Opcode::AND, AddressMode::ZPX, 4),
        6 => (Opcode::ROL, AddressMode::ZPX, 6),
        7 => (Opcode::RLA, AddressMode::ZPX, 6),
        8 => (Opcode::SEC, AddressMode::IMP, 2),
        9 => (Opcode::AND, AddressMode::ABY, 4),
        10 => (Opcode::NOP, AddressMode::IMP, 2),
        11 => (Opcode::RLA, AddressMode::ABY, 7),
        12 => (Opcode::IGN, AddressMode::ABX, 4),
        13 => (Opcode::AND, AddressMode::ABX, 4),
        14 => (Opcode::ROL, AddressMode::ABX, 7),
        _ => (Opcode::RLA, AddressMode::ABX, 7),
    }
}

/// Row 0x4 of the table: opcodes 0x40 to 0x4F.
pub open spec fn decode_row_4(lo: u8) -> (Opcode, AddressMode, u8) {
    match lo {
        0 => (Opcode::RTI, AddressMode::IMP, 6),
        1 => (Opcode::EOR, AddressMode::IZX, 6),
        2 => (Opcode::XXX, AddressMode::IMP, 2),
        3 => (Opcode::SRE, AddressMode::IZX, 8),
        4 => (Opcode::IGN, AddressMode::ZP0, 3),
        5 => (Opcode::EOR, AddressMode::ZP0, 3),
        6 => (Opcode::LSR, AddressMode::ZP0, 5),
        7 => (Opcode::SRE, AddressMode::ZP0, 5),
        8 => (Opcode::PHA, AddressMode::IMP, 3),
        9 => (Opcode::EOR, AddressMode::IMM, 2),
        10 => (Opcode::LSR, AddressMode::ACC, 2),
        11 => (Opcode::ALR, AddressMode::IMM, 2),
        12 => (Opcode::JMP, AddressMode::ABS, 3),
        13 => (Opcode::EOR, AddressMode::ABS, 4),
        14 => (Opcode::LSR, AddressMode::ABS, 6),
        _ => (Opcode::SRE, AddressMode::ABS, 6),
    }
}

/// Row 0x5 of the table: opcodes 0x50 to 0x5F.
pub open spec fn decode_row_5(lo: u8) -> (Opcode, AddressMode, u8) {
    match lo {
        0 => (Opcode::BVC, AddressMode::REL, 2),
        1 => (Opcode::EOR, AddressMode::IZY, 5),
        2 => (Opcode::XXX, AddressMode::IMP, 2),
        3 => (Opcode::SRE, AddressMode::IZY, 8),
        4 => (Opcode::IGN, AddressMode::ZPX, 4),
        5 => (Opcode::EOR, AddressMode::ZPX, 4),
        6 => (Opcode::LSR, AddressMode::ZPX, 6),
        7 => (Opcode::SRE, AddressMode::ZPX, 6),
        8 => (Opcode::CLI, AddressMode::IMP, 2),
        9 => (Opcode::EOR, AddressMode::ABY, 4),
        10 => (Opcode::NOP, AddressMode::IMP, 2),
        11 => (Opcode::SRE, AddressMode::ABY, 7),
        12 => (Opcode::IGN, AddressMode::ABX, 4),
        13 => (Opcode::EOR, AddressMode::ABX, 4),
        14 => (Opcode::LSR, AddressMode::ABX, 7),
        _ => (Opcode::SRE, AddressMode::ABX, 7),
    }
}

/// Row 0x6 of the table: opcodes 0x60 to 0x6F.
pub open spec fn decode_row_6(lo: u8) -> (Opcode, AddressMode, u8) {
    match lo {
        0 => (Opcode::RTS, AddressMode::IMP, 6),
        1 => (Opcode::ADC, AddressMode::IZX, 6),
        2 => (Opcode::XXX, AddressMode::IMP, 2),
        3 => (Opcode::RRA, AddressMode::IZX, 8),
        4 => (Opcode::IGN, AddressMode::ZP0, 3),
        5 => (Opcode::ADC, AddressMode::ZP0, 3),
        6 => (Opcode::ROR, AddressMode::ZP0, 5),
        7 => (Opcode::RRA, AddressMode::ZP0, 5),
        8 => (Opcode::PLA, AddressMode::IMP, 4),
        9 => (Opcode::ADC, AddressMode::IMM, 2),
        10 => (Opcode::ROR, AddressMode::ACC, 2),
        11 => (Opcode::ARR, AddressMode::IMM, 2),
        12 => (Opcode::JMP, AddressMode::IND, 5),
        13 => (Opcode::ADC, AddressMode::ABS, 4),
        14 => (Opcode::ROR, AddressMode::ABS, 6),
        _ => (Opcode::RRA, AddressMode::ABS, 6),
    }
}

/// Row 0x7 of the table: opcodes 0x70 to 0x7F.
pub open spec fn decode_row_7(lo: u8) -> (Opcode, AddressMode, u8) {
    match lo {
        0 => (Opcode::BVS, AddressMode::REL, 2),
        1 => (Opcode::ADC, AddressMode::IZY, 5),
        2 => (Opcode::XXX, AddressMode::IMP, 2),
        3 => (Opcode::RRA, AddressMode::IZY, 8),
        4 => (Opcode::IGN, AddressMode::ZPX, 4),
        5 => (Opcode::ADC, AddressMode::ZPX, 4),
        6 => (Opcode::ROR, AddressMode::ZPX, 6),
        7 => (Opcode::RRA, AddressMode::ZPX, 6),
        8 => (Opcode::SEI, AddressMode::IMP, 2),
        9 => (Opcode::ADC, AddressMode::ABY, 4),
        10 => (Opcode::NOP, AddressMode::IMP, 2),
        11 => (Opcode::RRA, AddressMode::ABY, 7),
        12 => (Opcode::IGN, AddressMode::ABX, 4),
        13 => (Opcode::ADC, AddressMode::ABX, 4),
        14 => (Opcode::ROR, AddressMode::ABX, 7),
        _ => (Opcode::RRA, AddressMode::ABX, 7),
    }
}

/// Row 0x8 of the table: opcodes 0x80 to 0x8F.
pub open spec fn decode_row_8(lo: u8) -> (Opcode, AddressMode, u8) {
    match lo {
        0 => (Opcode::SKB, AddressMode::IMM, 2),
        1 => (Opcode::STA, AddressMode::IZX, 6),
        2 => (Opcode::SKB, AddressMode::IMM, 2),
        3 => (Opcode::SAX, AddressMode::IZX, 6),
        4 => (Opcode::STY, AddressMode::ZP0, 3),
        5 => (Opcode::STA, AddressMode::ZP0, 3),
        6 => (Opcode::STX, AddressMode::ZP0, 3),
        7 => (Opcode::SAX, AddressMode::ZP0, 3),
        8 => (Opcode::DEY, AddressMode::IMP, 2),
        9 => (Opcode::SKB, AddressMode::IMM, 2),
        10 => (Opcode::TXA, AddressMode::IMP, 2),
        11 => (Opcode::XXX, AddressMode::IMP, 2),
        12 => (Opcode::STY, AddressMode::ABS, 4),
        13 => (Opcode::STA, AddressMode::ABS, 4),
        14 => (Opcode::STX, AddressMode::ABS, 4),
        _ => (Opcode::SAX, AddressMode::ABS, 4),
    }
}

/// Row 0x9 of the table: opcodes 0x90 to 0x9F.
pub open spec fn decode_row_9(lo: u8) -> (Opcode, AddressMode, u8) {
    match lo {
        0 => (Opcode::BCC, AddressMode::REL, 2),
        1 => (Opcode::STA, AddressMode::IZY, 6),
        2 => (Opcode::XXX, AddressMode::IMP, 2),
        3 => (Opcode::XXX, AddressMode::IMP, 6),
        4 => (Opcode::STY, AddressMode::ZPX, 4),
        5 => (Opcode::STA, AddressMode::ZPX, 4),
        6 => (Opcode::STX, AddressMode::ZPY, 4),
        7 => (Opcode::SAX, AddressMode::ZPY, 4),
        8 => (Opcode::TYA, AddressMode::IMP, 2),
        9 => (Opcode::STA, AddressMode::ABY, 5),
        10 => (Opcode::TXS, AddressMode::IMP, 2),
        11 => (Opcode::XXX, AddressMode::IMP, 5),
        12 => (Opcode::XXX, AddressMode::IMP, 5),
        13 => (Opcode::STA, AddressMode::ABX, 5),
        14 => (Opcode::XXX, AddressMode::IMP, 5),
        _ => (Opcode::XXX, AddressMode::IMP, 5),
    }
}

/// Row 0xa of the table: opcodes 0xa0 to 0xaF.
pub open spec fn decode_row_a(lo: u8) -> (Opcode, AddressMode, u8) {
    match lo {
        0 => (Opcode::LDY, AddressMode::IMM, 2),
        1 => (Opcode::LDA, AddressMode::IZX, 6),
        2 => (Opcode::LDX, AddressMode::IMM, 2),
        3 => (Opcode::LAX, AddressMode::IZX, 6),
        4 => (Opcode::LDY, AddressMode::ZP0, 3),
        5 => (Opcode::LDA, AddressMode::ZP0, 3),
        6 => (Opcode::LDX, AddressMode::ZP0, 3),
        7 => (Opcode::LAX, AddressMode::ZP0, 3),
        8 => (Opcode::TAY, AddressMode::IMP, 2),
        9 => (Opcode::LDA, AddressMode::IMM, 2),
        10 => (Opcode::TAX, AddressMode::IMP, 2),
        11 => (Opcode::XXX, AddressMode::IMP, 2),
        12 => (Opcode::LDY, AddressMode::ABS, 4),
        13 => (Opcode::LDA, AddressMode::ABS, 4),
        14 => (Opcode::LDX, AddressMode::ABS, 4),
        _ => (Opcode::LAX, AddressMode::ABS, 4),
    }
}

/// Row 0xb of the table: opcodes 0xb0 to 0xbF.
pub open spec fn decode_row_b(lo: u8) -> (Opcode, AddressMode, u8) {
    match lo {
        0 => (Opcode::BCS, AddressMode::REL, 2),
        1 => (Opcode::LDA, AddressMode::IZY, 5),
        2 => (Opcode::XXX, AddressMode::IMP, 2),
        3 => (Opcode::LAX, AddressMode::IZY, 5),
        4 => (Opcode::LDY, AddressMode::ZPX, 4),
        5 => (Opcode::LDA, AddressMode::ZPX, 4),
        6 => (Opcode::LDX, AddressMode::ZPY, 4),
        7 => (Opcode::LAX, AddressMode::ZPY, 4),
        8 => (Opcode::CLV, AddressMode::IMP, 2),
        9 => (Opcode::LDA, AddressMode::ABY, 4),
        10 => (Opcode::TSX, AddressMode::IMP, 2),
        11 => (Opcode::XXX, AddressMode::IMP, 4),
        12 => (Opcode::LDY, AddressMode::ABX, 4),
        13 => (Opcode::LDA, AddressMode::ABX, 4),
        14 => (Opcode::LDX, AddressMode::ABY, 4),
        _ => (Opcode::LAX, AddressMode::ABY, 4),
    }
}

/// Row 0xc of the table: opcodes 0xc0 to 0xcF.
pub open spec fn decode_row_c(lo: u8) -> (Opcode, AddressMode, u8) {
    match lo {
        0 => (Opcode::CPY, AddressMode::IMM, 2),
        1 => (Opcode::CMP, AddressMode::IZX, 6),
        2 => (Opcode::SKB, AddressMode::IMM, 2),
        3 => (Opcode::DCP, AddressMode::IZX, 8),
        4 => (Opcode::CPY, AddressMode::ZP0, 3),
        5 => (Opcode::CMP, AddressMode::ZP0, 3),
        6 => (Opcode::DEC, AddressMode::ZP0, 5),
        7 => (Opcode::DCP, AddressMode::ZP0, 5),
        8 => (Opcode::INY, AddressMode::IMP, 2),
        9 => (Opcode::CMP, AddressMode::IMM, 2),
        10 => (Opcode::DEX, AddressMode::IMP, 2),
        11 => (Opcode::AXS, AddressMode::IMM, 2),
        12 => (Opcode::CPY, AddressMode::ABS, 4),
        13 => (Opcode::CMP, AddressMode::ABS, 4),
        14 => (Opcode::DEC, AddressMode::ABS, 6),
        _ => (Opcode::DCP, AddressMode::ABS, 6),
    }
}

/// Row 0xd of the table: opcodes 0xd0 to 0xdF.
pub open spec fn decode_row_d(lo: u8) -> (Opcode, AddressMode, u8) {
    match lo {
        0 => (Opcode::BNE, AddressMode::REL, 2),
        1 => (Opcode::CMP, AddressMode::IZY, 5),
        2 => (Opcode::XXX, AddressMode::IMP, 2),
        3 => (Opcode::DCP, AddressMode::IZY, 8),
        4 => (Opcode::IGN, AddressMode::ZPX, 4),
        5 => (Opcode::CMP, AddressMode::ZPX, 4),
        6 => (Opcode::DEC, AddressMode::ZPX, 6),
        7 => (Opcode::DCP, AddressMode::ZPX, 6),
        8 => (Opcode::CLD, AddressMode::IMP, 2),
        9 => (Opcode::CMP, AddressMode::ABY, 4),
        10 => (Opcode::NOP, AddressMode::IMP, 2),
        11 => (Opcode::DCP, AddressMode::ABY, 7),
        12 => (Opcode::IGN, AddressMode::ABX, 4),
        13 => (Opcode::CMP, AddressMode::ABX, 4),
        14 => (Opcode::DEC, AddressMode::ABX, 7),
        _ => (Opcode::DCP, AddressMode::ABX, 7),
    }
}

/// Row 0xe of the table: opcodes 0xe0 to 0xeF.
pub open spec fn decode_row_e(lo: u8) -> (Opcode, AddressMode, u8) {
    match lo {
        0 => (Opcode::CPX, AddressMode::IMM, 2),
        1 => (Opcode::SBC, AddressMode::IZX, 6),
        2 => (Opcode::SKB, AddressMode::IMM, 2),
        3 => (Opcode::ISC, AddressMode::IZX, 8),
        4 => (Opcode::CPX, AddressMode::ZP0, 3),
        5 => (Opcode::SBC, AddressMode::ZP0, 3),
        6 => (Opcode::INC, AddressMode::ZP0, 5),
        7 => (Opcode::ISC, AddressMode::ZP0, 5),
        8 => (Opcode::INX, AddressMode::IMP, 2),
        9 => (Opcode::SBC, AddressMode::IMM, 2),
        10 => (Opcode::NOP, AddressMode::IMP, 2),
        11 => (Opcode::SBC, AddressMode::IMM, 2),
        12 => (Opcode::CPX, AddressMode::ABS, 4),
        13 => (Opcode::SBC, AddressMode::ABS, 4),
        14 => (Opcode::INC, AddressMode::ABS, 6),
        _ => (Opcode::ISC, AddressMode::ABS, 6),
    }
}

/// Row 0xf of the table: opcodes 0xf0 to 0xfF.
pub open spec fn decode_row_f(lo: u8) -> (Opcode, AddressMode, u8) {
    match lo {
        0 => (Opcode::BEQ, AddressMode::REL, 2),
        1 => (Opcode::SBC, AddressMode::IZY, 5),
        2 => (Opcode::XXX, AddressMode::IMP, 2),
        3 => (Opcode::ISC, AddressMode::IZY, 8),
        4 => (Opcode::IGN, AddressMode::ZPX, 4),
        5 => (Opcode::SBC, AddressMode::ZPX, 4),
        6 => (Opcode::INC, AddressMode::ZPX, 6),
        7 => (Opcode::ISC, AddressMode::ZPX, 6),
        8 => (Opcode::SED, AddressMode::IMP, 2),
        9 => (Opcode::SBC, AddressMode::ABY, 4),
        10 => (Opcode::NOP, AddressMode::IMP, 2),
        11 => (Opcode::ISC, AddressMode::ABY, 7),
        12 => (Opcode::IGN, AddressMode::ABX, 4),
        13 => (Opcode::SBC, AddressMode::ABX, 4),
        14 => (Opcode::INC, AddressMode::ABX, 7),
        _ => (Opcode::ISC, AddressMode::ABX, 7),
    }
}

/// The operation, addressing mode and base cycles of opcode byte `code`.
pub open spec fn decode(code: u8) -> (Opcode, AddressMode, u8) {
    match code / 16 {
        0 => decode_row_0(code % 16),
        1 => decode_row_1(code % 16),
        2 => decode_row_2(code % 16),
        3 => decode_row_3(code % 16),
        4 => decode_row_4(code % 16),
        5 => decode_row_5(code % 16),
        6 => decode_row_6(code % 16),
        7 => decode_row_7(code % 16),
        8 => decode_row_8(code % 16),
        9 => decode_row_9(code % 16),
        10 => decode_row_a(code % 16),
        11 => decode_row_b(code % 16),
        12 => decode_row_c(code % 16),
        13 => decode_row_d(code % 16),
        14 => decode_row_e(code % 16),
        _ => decode_row_f(code % 16),
    }
}

/// Mnemonics of row 0x0 of the table.
pub open spec fn mnemonic_row_0(lo: u8) -> Seq<char> {
    match lo {
        0 => "BRK"@,
        1 => "ORA"@,
        2 => "???"@,
        3 => "SLO"@,
        4 => "IGN"@,
        5 => "ORA"@,
        6 => "ASL"@,
        7 => "SLO"@,
        8 => "PHP"@,
        9 => "ORA"@,
        10 => "ASL"@,
        11 => "ANC"@,
        12 => "IGN"@,
        13 => "ORA"@,
        14 => "ASL"@,
        _ => "SLO"@,
    }
}

/// Mnemonics of row 0x1 of the table.
pub open spec fn mnemonic_row_1(lo: u8) -> Seq<char> {
    match lo {
        0 => "BPL"@,
        1 => "ORA"@,
        2 => "???"@,
        3 => "SLO"@,
        4 => "IGN"@,
        5 => "ORA"@,
        6 => "ASL"@,
        7 => "SLO"@,
        8 => "CLC"@,
        9 => "ORA"@,
        10 => "NOP"@,
        11 => "SLO"@,
        12 => "IGN"@,
        13 => "ORA"@,
        14 => "ASL"@,
        _ => "SLO"@,
    }
}

/// Mnemonics of row 0x2 of the table.
pub open spec fn mnemonic_row_2(lo: u8) -> Seq<char> {
    match lo {
        0 => "JSR"@,
        1 => "AND"@,
        2 => "???"@,
        3 => "RLA"@,
        4 => "BIT"@,
        5 => "AND"@,
        6 => "ROL"@,
        7 => "RLA"@,
        8 => "PLP"@,
        9 => "AND"@,
        10 => "ROL"@,
        11 => "ANC"@,
        12 => "BIT"@,
        13 => "AND"@,
        14 => "ROL"@,
        _ => "RLA"@,
    }
}

/// Mnemonics of row 0x3 of the table.
pub open spec fn mnemonic_row_3(lo: u8) -> Seq<char> {
    match lo {
        0 => "BMI"@,
        1 => "AND"@,
        2 => "???"@,
        3 => "RLA"@,
        4 => "IGN"@,
        5 => "AND"@,
        6 => "ROL"@,
        7 => "RLA"@,
        8 => "SEC"@,
        9 => "AND"@,
        10 => "NOP"@,
        11 => "RLA"@,
        12 => "IGN"@,
        13 => "AND"@,
        14 => "ROL"@,
        _ => "RLA"@,
    }
}

/// Mnemonics of row 0x4 of the table.
pub open spec fn mnemonic_row_4(lo: u8) -> Seq<char> {
    match lo {
        0 => "RTI"@,
        1 => "EOR"@,
        2 => "???"@,
        3 => "SRE"@,
        4 => "IGN"@,
        5 => "EOR"@,
        6 => "LSR"@,
        7 => "SRE"@,
        8 => "PHA"@,
        9 => "EOR"@,
        10 => "LSR"@,
        11 => "ALR"@,
        12 => "JMP"@,
        13 => "EOR"@,
        14 => "LSR"@,
        _ => "SRE"@,
    }
}

/// Mnemonics of row 0x5 of the table.
pub open spec fn mnemonic_row_5(lo: u8) -> Seq<char> {
    match lo {
        0 => "BVC"@,
        1 => "EOR"@,
        2 => "???"@,
        3 => "SRE"@,
        4 => "IGN"@,
        5 => "EOR"@,
        6 => "LSR"@,
        7 => "SRE"@,
        8 => "CLI"@,
        9 => "EOR"@,
        10 => "NOP"@,
        11 => "SRE"@,
        12 => "IGN"@,
        13 => "EOR"@,
        14 => "LSR"@,
        _ => "SRE"@,
    }
}

/// Mnemonics of row 0x6 of the table.
pub open spec fn mnemonic_row_6(lo: u8) -> Seq<char> {
    match lo {
        0 => "RTS"@,
        1 => "ADC"@,
        2 => "???"@,
        3 => "RRA"@,
        4 => "IGN"@,
        5 => "ADC"@,
        6 => "ROR"@,
        7 => "RRA"@,
        8 => "PLA"@,
        9 => "ADC"@,
        10 => "ROR"@,
        11 => "ARR"@,
        12 => "JMP"@,
        13 => "ADC"@,
        14 => "ROR"@,
        _ => "RRA"@,
    }
}

/// Mnemonics of row 0x7 of the table.
pub open spec fn mnemonic_row_7(lo: u8) -> Seq<char> {
    match lo {
        0 => "BVS"@,
        1 => "ADC"@,
        2 => "???"@,
        3 => "RRA"@,
        4 => "IGN"@,
        5 => "ADC"@,
        6 => "ROR"@,
        7 => "RRA"@,
        8 => "SEI"@,
        9 => "ADC"@,
        10 => "NOP"@,
        11 => "RRA"@,
        12 => "IGN"@,
        13 => "ADC"@,
        14 => "ROR"@,
        _ => "RRA"@,
    }
}

/// Mnemonics of row 0x8 of the table.
pub open spec fn mnemonic_row_8(lo: u8) -> Seq<char> {
    match lo {
        0 => "SKB"@,
        1 => "STA"@,
        2 => "SKB"@,
        3 => "SAX"@,
        4 => "STY"@,
        5 => "STA"@,
        6 => "STX"@,
        7 => "SAX"@,
        8 => "DEY"@,
        9 => "SKB"@,
        10 => "TXA"@,
        11 => "???"@,
        12 => "STY"@,
        13 => "STA"@,
        14 => "STX"@,
        _ => "SAX"@,
    }
}

/// Mnemonics of row 0x9 of the table.
pub open spec fn mnemonic_row_9(lo: u8) -> Seq<char> {
    match lo {
        0 => "BCC"@,
        1 => "STA"@,
        2 => "???"@,
        3 => "???"@,
        4 => "STY"@,
        5 => "STA"@,
        6 => "STX"@,
        7 => "SAX"@,
        8 => "TYA"@,
        9 => "STA"@,
        10 => "TXS"@,
        11 => "???"@,
        12 => "???"@,
        13 => "STA"@,
        14 => "???"@,
        _ => "???"@,
    }
}

/// Mnemonics of row 0xa of the table.
pub open spec fn mnemonic_row_a(lo: u8) -> Seq<char> {
    match lo {
        0 => "LDY"@,
        1 => "LDA"@,
        2 => "LDX"@,
        3 => "LAX"@,
        4 => "LDY"@,
        5 => "LDA"@,
        6 => "LDX"@,
        7 => "LAX"@,
        8 => "TAY"@,
        9 => "LDA"@,
        10 => "TAX"@,
        11 => "???"@,
        12 => "LDY"@,
        13 => "LDA"@,
        14 => "LDX"@,
        _ => "LAX"@,
    }
}

/// Mnemonics of row 0xb of the table.
pub open spec fn mnemonic_row_b(lo: u8) -> Seq<char> {
    match lo {
        0 => "BCS"@,
        1 => "LDA"@,
        2 => "???"@,
        3 => "LAX"@,
        4 => "LDY"@,
        5 => "LDA"@,
        6 => "LDX"@,
        7 => "LAX"@,
        8 => "CLV"@,
        9 => "LDA"@,
        10 => "TSX"@,
        11 => "???"@,
        12 => "LDY"@,
        13 => "LDA"@,
        14 => "LDX"@,
        _ => "LAX"@,
    }
}

/// Mnemonics of row 0xc of the table.
pub open spec fn mnemonic_row_c(lo: u8) -> Seq<char> {
    match lo {
        0 => "CPY"@,
        1 => "CMP"@,
        2 => "SKB"@,
        3 => "DCP"@,
        4 => "CPY"@,
        5 => "CMP"@,
        6 => "DEC"@,
        7 => "DCP"@,
        8 => "INY"@,
        9 => "CMP"@,
        10 => "DEX"@,
        11 => "AXS"@,
        12 => "CPY"@,
        13 => "CMP"@,
        14 => "DEC"@,
        _ => "DCP"@,
    }
}

/// Mnemonics of row 0xd of the table.
pub open spec fn mnemonic_row_d(lo: u8) -> Seq<char> {
    match lo {
        0 => "BNE"@,
        1 => "CMP"@,
        2 => "???"@,
        3 => "DCP"@,
        4 => "IGN"@,
        5 => "CMP"@,
        6 => "DEC"@,
        7 => "DCP"@,
        8 => "CLD"@,
        9 => "CMP"@,
        10 => "NOP"@,
        11 => "DCP"@,
        12 => "IGN"@,
        13 => "CMP"@,
        14 => "DEC"@,
        _ => "DCP"@,
    }
}

/// Mnemonics of row 0xe of the table.
pub open spec fn mnemonic_row_e(lo: u8) -> Seq<char> {
    match lo {
        0 => "CPX"@,
        1 => "SBC"@,
        2 => "SKB"@,
        3 => "ISC"@,
        4 => "CPX"@,
        5 => "SBC"@,
        6 => "INC"@,
        7 => "ISC"@,
        8 => "INX"@,
        9 => "SBC"@,
        10 => "NOP"@,
        11 => "SBC"@,
        12 => "CPX"@,
        13 => "SBC"@,
        14 => "INC"@,
        _ => "ISC"@,
    }
}

/// Mnemonics of row 0xf of the table.
pub open spec fn mnemonic_row_f(lo: u8) -> Seq<char> {
    match lo {
        0 => "BEQ"@,
        1 => "SBC"@,
        2 => "???"@,
        3 => "ISC"@,
        4 => "IGN"@,
        5 => "SBC"@,
        6 => "INC"@,
        7 => "ISC"@,
        8 => "SED"@,
        9 => "SBC"@,
        10 => "NOP"@,
        11 => "ISC"@,
        12 => "IGN"@,
        13 => "SBC"@,
        14 => "INC"@,
        _ => "ISC"@,
    }
}

/// The mnemonic of opcode byte `code` ("???" for the opcodes that halt the CPU).
pub open spec fn mnemonic(code: u8) -> Seq<char> {
    match code / 16 {
        0 => mnemonic_row_0(code % 16),
        1 => mnemonic_row_1(code % 16),
        2 => mnemonic_row_2(code % 16),
        3 => mnemonic_row_3(code % 16),
        4 => mnemonic_row_4(code % 16),
        5 => mnemonic_row_5(code % 16),
        6 => mnemonic_row_6(code % 16),
        7 => mnemonic_row_7(code % 16),
        8 => mnemonic_row_8(code % 16),
        9 => mnemonic_row_9(code % 16),
        10 => mnemonic_row_a(code % 16),
        11 => mnemonic_row_b(code % 16),
        12 => mnemonic_row_c(code % 16),
        13 => mnemonic_row_d(code % 16),
        14 => mnemonic_row_e(code % 16),
        _ => mnemonic_row_f(code % 16),
    }
}

impl Instruction {
    pub fn new(name: &'static str, opcode: Opcode, addres_mode: AddressMode, cycles: u8) -> (r: Instruction)
        ensures
            r.opcode == opcode,
            r.addres_mode == addres_mode,
            r.cycles == cycles,
            r.name == name,
    {
        Instruction { name, addres_mode, cycles, opcode }
    }

    /// Decodes an opcode byte.
    pub fn from(inst_code: u8) -> (r: Instruction)
        ensures
            (r.opcode, r.addres_mode, r.cycles) == decode(inst_code),
            r.name@ == mnemonic(inst_code),
    {
        let lo = inst_code % 16;
        match inst_code / 16 {
            0 => Instruction::from_row_0(lo),
            1 => Instruction::from_row_1(lo),
            2 => Instruction::from_row_2(lo),
            3 => Instruction::from_row_3(lo),
            4 => Instruction::from_row_4(lo),
            5 => Instruction::from_row_5(lo),
            6 => Instruction::from_row_6(lo),
            7 => Instruction::from_row_7(lo),
            8 => Instruction::from_row_8(lo),
            9 => Instruction::from_row_9(lo),
            10 => Instruction::from_row_a(lo),
            11 => Instruction::from_row_b(lo),
            12 => Instruction::from_row_c(lo),
            13 => Instruction::from_row_d(lo),
            14 => Instruction::from_row_e(lo),
            _ => Instruction::from_row_f(lo),
        }
    }

    fn from_row_0(lo: u8) -> (r: Instruction)
        ensures
            (r.opcode, r.addres_mode, r.cycles) == decode_row_0(lo),
            r.name@ == mnemonic_row_0(lo),
    {
        match lo {
            0 => Instruction::new("BRK", Opcode::BRK, AddressMode::IMP, 7),
            1 => Instruction::new("ORA", Opcode::ORA, AddressMode::IZX, 6),
            2 => Instruction::new("???", Opcode::XXX, AddressMode::IMP, 2),
            3 => Instruction::new("SLO", Opcode::SLO, AddressMode::IZX, 8),
            4 => Instruction::new("IGN", Opcode::IGN, AddressMode::ZP0, 3),
            5 => Instruction::new("ORA", Opcode::ORA, AddressMode::ZP0, 3),
            6 => Instruction::new("ASL", Opcode::ASL, AddressMode::ZP0, 5),
            7 => Instruction::new("SLO", Opcode::SLO, AddressMode::ZP0, 5),
            8 => Instruction::new("PHP", Opcode::PHP, AddressMode::IMP, 3),
            9 => Instruction::new("ORA", Opcode::ORA, AddressMode::IMM, 2),
            10 => Instruction::new("ASL", Opcode::ASL, AddressMode::ACC, 2),
            11 => Instruction::new("ANC", Opcode::ANC, AddressMode::IMM, 2),
            12 => Instruction::new("IGN", Opcode::IGN, AddressMode::ABS, 4),
            13 => Instruction::new("ORA", Opcode::ORA, AddressMode::ABS, 4),
            14 => Instruction::new("ASL", Opcode::ASL, AddressMode::ABS, 6),
            _ => Instruction::new("SLO", Opcode::SLO, AddressMode::ABS, 6),
        }
    }

    fn from_row_1(lo: u8) -> (r: Instruction)
        ensures
            (r.opcode, r.addres_mode, r.cycles) == decode_row_1(lo),
            r.name@ == mnemonic_row_1(lo),
    {
        match lo {
            0 => Instruction::new("BPL", Opcode::BPL, AddressMode::REL, 2),
            1 => Instruction::new("ORA", Opcode::ORA, AddressMode::IZY, 5),
            2 => Instruction::new("???", Opcode::XXX, AddressMode::IMP, 2),
            3 => Instruction::new("SLO", Opcode::SLO, AddressMode::IZY, 8),
            4 => Instruction::new("IGN", Opcode::IGN, AddressMode::ZPX, 4),
            5 => Instruction::new("ORA", Opcode::ORA, AddressMode::ZPX, 4),
            6 => Instruction::new("ASL", Opcode::ASL, AddressMode::ZPX, 6),
            7 => Instruction::new("SLO", Opcode::SLO, AddressMode::ZPX, 6),
            8 => Instruction::new("CLC", Opcode::CLC, AddressMode::IMP, 2),
            9 => Instruction::new("ORA", Opcode::ORA, AddressMode::ABY, 4),
            10 => Instruction::new("NOP", Opcode::NOP, AddressMode::IMP, 2),
            11 => Instruction::new("SLO", Opcode::SLO, AddressMode::ABY, 7),
            12 => Instruction::new("IGN", Opcode::IGN, AddressMode::ABX, 4),
            13 => Instruction::new("ORA", Opcode::ORA, AddressMode::ABX, 4),
            14 => Instruction::new("ASL", Opcode::ASL, AddressMode::ABX, 7),
            _ => Instruction::new("SLO", Opcode::SLO, AddressMode::ABX, 7),
        }
    }

    fn from_row_2(lo: u8) -> (r: Instruction)
        ensures
            (r.opcode, r.addres_mode, r.cycles) == decode_row_2(lo),
            r.name@ == mnemonic_row_2(lo),
    {
        match lo {
            0 => Instruction::new("JSR", Opcode::JSR, AddressMode::ABS, 6),
            1 => Instruction::new("AND", Opcode::AND, AddressMode::IZX, 6),
            2 => Instruction::new("???", Opcode::XXX, AddressMode::IMP, 2),
            3 => Instruction::new("RLA", Opcode::RLA, AddressMode::IZX, 8),
            4 => Instruction::new("BIT", Opcode::BIT, AddressMode::ZP0, 3),
            5 => Instruction::new("AND", Opcode::AND, AddressMode::ZP0, 3),
            6 => Instruction::new("ROL", Opcode::ROL, AddressMode::ZP0, 5),
            7 => Instruction::new("RLA", Opcode::RLA, AddressMode::ZP0, 5),
            8 => Instruction::new("PLP", Opcode::PLP, AddressMode::IMP, 4),
            9 => Instruction::new("AND", Opcode::AND, AddressMode::IMM, 2),
            10 => Instruction::new("ROL", Opcode::ROL, AddressMode::ACC, 2),
            11 => Instruction::new("ANC", Opcode::ANC, AddressMode::IMM, 2),
            12 => Instruction::new("BIT", Opcode::BIT, AddressMode::ABS, 4),
            13 => Instruction::new("AND", Opcode::AND, AddressMode::ABS, 4),
            14 => Instruction::new("ROL", Opcode::ROL, AddressMode::ABS, 6),
            _ => Instruction::new("RLA", Opcode::RLA, AddressMode::ABS, 6),
        }
    }

    fn from_row_3(lo: u8) -> (r: Instruction)
        ensures
            (r.opcode, r.addres_mode, r.cycles) == decode_row_3(lo),
            r.name@ == mnemonic_row_3(lo),
    {
        match lo {
            0 => Instruction::new("BMI", Opcode::BMI, AddressMode::REL, 2),
            1 => Instruction::new("AND", Opcode::AND, AddressMode::IZY, 5),
            2 => Instruction::new("???", Opcode::XXX, AddressMode::IMP, 2),
            3 => Instruction::new("RLA", Opcode::RLA, AddressMode::IZY, 8),
            4 => Instruction::new("IGN", Opcode::IGN, AddressMode::ZPX, 4),
            5 => Instruction::new("AND", Opcode::AND, AddressMode::ZPX, 4),
            6 => Instruction::new("ROL", Opcode::ROL, AddressMode::ZPX, 6),
            7 => Instruction::new("RLA", Opcode::RLA, AddressMode::ZPX, 6),
            8 => Instruction::new("SEC", Opcode::SEC, AddressMode::IMP, 2),
            9 => Instruction::new("AND", Opcode::AND, AddressMode::ABY, 4),
            10 => Instruction::new("NOP", Opcode::NOP, AddressMode::IMP, 2),
            11 => Instruction::new("RLA", Opcode::RLA, AddressMode::ABY, 7),
            12 => Instruction::new("IGN", Opcode::IGN, AddressMode::ABX, 4),
            13 => Instruction::new("AND", Opcode::AND, AddressMode::ABX, 4),
            14 => Instruction::new("ROL", Opcode::ROL, AddressMode::ABX, 7),
            _ => Instruction::new("RLA", Opcode::RLA, AddressMode::ABX, 7),
        }
    }

    fn from_row_4(lo: u8) -> (r: Instruction)
        ensures
            (r.opcode, r.addres_mode, r.cycles) == decode_row_4(lo),
            r.name@ == mnemonic_row_4(lo),
    {
        match lo {
            0 => Instruction::new("RTI", Opcode::RTI, AddressMode::IMP, 6),
            1 => Instruction::new("EOR", Opcode::EOR, AddressMode::IZX, 6),
            2 => Instruction::new("???", Opcode::XXX, AddressMode::IMP, 2),
            3 => Instruction::new("SRE", Opcode::SRE, AddressMode::IZX, 8),
            4 => Instruction::new("IGN", Opcode::IGN, AddressMode::ZP0, 3),
            5 => Instruction::new("EOR", Opcode::EOR, AddressMode::ZP0, 3),
            6 => Instruction::new("LSR", Opcode::LSR, AddressMode::ZP0, 5),
            7 => Instruction::new("SRE", Opcode::SRE, AddressMode::ZP0, 5),
            8 => Instruction::new("PHA", Opcode::PHA, AddressMode::IMP, 3),
            9 => Instruction::new("EOR", Opcode::EOR, AddressMode::IMM, 2),
            10 => Instruction::new("LSR", Opcode::LSR, AddressMode::ACC, 2),
            11 => Instruction::new("ALR", Opcode::ALR, AddressMode::IMM, 2),
            12 => Instruction::new("JMP", Opcode::JMP, AddressMode::ABS, 3),
            13 => Instruction::new("EOR", Opcode::EOR, AddressMode::ABS, 4),
            14 => Instruction::new("LSR", Opcode::LSR, AddressMode::ABS, 6),
            _ => Instruction::new("SRE", Opcode::SRE, AddressMode::ABS, 6),
        }
    }

    fn from_row_5(lo: u8) -> (r: Instruction)
        ensures
            (r.opcode, r.addres_mode, r.cycles) == decode_row_5(lo),
            r.name@ == mnemonic_row_5(lo),
    {
        match lo {
            0 => Instruction::new("BVC", Opcode::BVC, AddressMode::REL, 2),
            1 => Instruction::new("EOR", Opcode::EOR, AddressMode::IZY, 5),
            2 => Instruction::new("???", Opcode::XXX, AddressMode::IMP, 2),
            3 => Instruction::new("SRE", Opcode::SRE, AddressMode::IZY, 8),
            4 => Instruction::new("IGN", Opcode::IGN, AddressMode::ZPX, 4),
            5 => Instruction::new("EOR", Opcode::EOR, AddressMode::ZPX, 4),
            6 => Instruction::new("LSR", Opcode::LSR, AddressMode::ZPX, 6),
            7 => Instruction::new("SRE", Opcode::SRE, AddressMode::ZPX, 6),
            8 => Instruction::new("CLI", Opcode::CLI, AddressMode::IMP, 2),
            9 => Instruction::new("EOR", Opcode::EOR, AddressMode::ABY, 4),
            10 => Instruction::new("NOP", Opcode::NOP, AddressMode::IMP, 2),
            11 => Instruction::new("SRE", Opcode::SRE, AddressMode::ABY, 7),
            12 => Instruction::new("IGN", Opcode::IGN, AddressMode::ABX, 4),
            13 => Instruction::new("EOR", Opcode::EOR, AddressMode::ABX, 4),
            14 => Instruction::new("LSR", Opcode::LSR, AddressMode::ABX, 7),
            _ => Instruction::new("SRE", Opcode::SRE, AddressMode::ABX, 7),
        }
    }

    fn from_row_6(lo: u8) -> (r: Instruction)
        ensures
            (r.opcode, r.addres_mode, r.cycles) == decode_row_6(lo),
            r.name@ == mnemonic_row_6(lo),
    {
        match lo {
            0 => Instruction::new("RTS", Opcode::RTS, AddressMode::IMP, 6),
            1 => Instruction::new("ADC", Opcode::ADC, AddressMode::IZX, 6),
            2 => Instruction::new("???", Opcode::XXX, AddressMode::IMP, 2),
            3 => Instruction::new("RRA", Opcode::RRA, AddressMode::IZX, 8),
            4 => Instruction::new("IGN", Opcode::IGN, AddressMode::ZP0, 3),
            5 => Instruction::new("ADC", Opcode::ADC, AddressMode::ZP0, 3),
            6 => Instruction::new("ROR", Opcode::ROR, AddressMode::ZP0, 5),
            7 => Instruction::new("RRA", Opcode::RRA, AddressMode::ZP0, 5),
            8 => Instruction::new("PLA", Opcode::PLA, AddressMode::IMP, 4),
            9 => Instruction::new("ADC", Opcode::ADC, AddressMode::IMM, 2),
            10 => Instruction::new("ROR", Opcode::ROR, AddressMode::ACC, 2),
            11 => Instruction::new("ARR", Opcode::ARR, AddressMode::IMM, 2),
            12 => Instruction::new("JMP", Opcode::JMP, AddressMode::IND, 5),
            13 => Instruction::new("ADC", Opcode::ADC, AddressMode::ABS, 4),
            14 => Instruction::new("ROR", Opcode::ROR, AddressMode::ABS, 6),
            _ => Instruction::new("RRA", Opcode::RRA, AddressMode::ABS, 6),
        }
    }

    fn from_row_7(lo: u8) -> (r: Instruction)
        ensures
            (r.opcode, r.addres_mode, r.cycles) == decode_row_7(lo),
            r.name@ == mnemonic_row_7(lo),
    {
        match lo {
            0 => Instruction::new("BVS", Opcode::BVS, AddressMode::REL, 2),
            1 => Instruction::new("ADC", Opcode::ADC, AddressMode::IZY, 5),
            2 => Instruction::new("???", Opcode::XXX, AddressMode::IMP, 2),
            3 => Instruction::new("RRA", Opcode::RRA, AddressMode::IZY, 8),
            4 => Instruction::new("IGN", Opcode::IGN, AddressMode::ZPX, 4),
            5 => Instruction::new("ADC", Opcode::ADC, AddressMode::ZPX, 4),
            6 => Instruction::new("ROR", Opcode::ROR, AddressMode::ZPX, 6),
            7 => Instruction::new("RRA", Opcode::RRA, AddressMode::ZPX, 6),
            8 => Instruction::new("SEI", Opcode::SEI, AddressMode::IMP, 2),
            9 => Instruction::new("ADC", Opcode::ADC, AddressMode::ABY, 4),
            10 => Instruction::new("NOP", Opcode::NOP, AddressMode::IMP, 2),
            11 => Instruction::new("RRA", Opcode::RRA, AddressMode::ABY, 7),
            12 => Instruction::new("IGN", Opcode::IGN, AddressMode::ABX, 4),
            13 => Instruction::new("ADC", Opcode::ADC, AddressMode::ABX, 4),
            14 => Instruction::new("ROR", Opcode::ROR, AddressMode::ABX, 7),
            _ => Instruction::new("RRA", Opcode::RRA, AddressMode::ABX, 7),
        }
    }

    fn from_row_8(lo: u8) -> (r: Instruction)
        ensures
            (r.opcode, r.addres_mode, r.cycles) == decode_row_8(lo),
            r.name@ == mnemonic_row_8(lo),
    {
        match lo {
            0 => Instruction::new("SKB", Opcode::SKB, AddressMode::IMM, 2),
            1 => Instruction::new("STA", Opcode::STA, AddressMode::IZX, 6),
            2 => Instruction::new("SKB", Opcode::SKB, AddressMode::IMM, 2),
            3 => Instruction::new("SAX", Opcode::SAX, AddressMode::IZX, 6),
            4 => Instruction::new("STY", Opcode::STY, AddressMode::ZP0, 3),
            5 => Instruction::new("STA", Opcode::STA, AddressMode::ZP0, 3),
            6 => Instruction::new("STX", Opcode::STX, AddressMode::ZP0, 3),
            7 => Instruction::new("SAX", Opcode::SAX, AddressMode::ZP0, 3),
            8 => Instruction::new("DEY", Opcode::DEY, AddressMode::IMP, 2),
            9 => Instruction::new("SKB", Opcode::SKB, AddressMode::IMM, 2),
            10 => Instruction::new("TXA", Opcode::TXA, AddressMode::IMP, 2),
            11 => Instruction::new("???", Opcode::XXX, AddressMode::IMP, 2),
            12 => Instruction::new("STY", Opcode::STY, AddressMode::ABS, 4),
            13 => Instruction::new("STA", Opcode::STA, AddressMode::ABS, 4),
            14 => Instruction::new("STX", Opcode::STX, AddressMode::ABS, 4),
            _ => Instruction::new("SAX", Opcode::SAX, AddressMode::ABS, 4),
        }
    }

    fn from_row_9(lo: u8) -> (r: Instruction)
        ensures
            (r.opcode, r.addres_mode, r.cycles) == decode_row_9(lo),
            r.name@ == mnemonic_row_9(lo),
    {
        match lo {
            0 => Instruction::new("BCC", Opcode::BCC, AddressMode::REL, 2),
            1 => Instruction::new("STA", Opcode::STA, AddressMode::IZY, 6),
            2 => Instruction::new("???", Opcode::XXX, AddressMode::IMP, 2),
            3 => Instruction::new("???", Opcode::XXX, AddressMode::IMP, 6),
            4 => Instruction::new("STY", Opcode::STY, AddressMode::ZPX, 4),
            5 => Instruction::new("STA", Opcode::STA, AddressMode::ZPX, 4),
            6 => Instruction::new("STX", Opcode::STX, AddressMode::ZPY, 4),
            7 => Instruction::new("SAX", Opcode::SAX, AddressMode::ZPY, 4),
            8 => Instruction::new("TYA", Opcode::TYA, AddressMode::IMP, 2),
            9 => Instruction::new("STA", Opcode::STA, AddressMode::ABY, 5),
            10 => Instruction::new("TXS", Opcode::TXS, AddressMode::IMP, 2),
            11 => Instruction::new("???", Opcode::XXX, AddressMode::IMP, 5),
            12 => Instruction::new("???", Opcode::XXX, AddressMode::IMP, 5),
            13 => Instruction::new("STA", Opcode::STA, AddressMode::ABX, 5),
            14 => Instruction::new("???", Opcode::XXX, AddressMode::IMP, 5),
            _ => Instruction::new("???", Opcode::XXX, AddressMode::IMP, 5),
        }
    }

    fn from_row_a(lo: u8) -> (r: Instruction)
        ensures
            (r.opcode, r.addres_mode, r.cycles) == decode_row_a(lo),
            r.name@ == mnemonic_row_a(lo),
    {
        match lo {
            0 => Instruction::new("LDY", Opcode::LDY, AddressMode::IMM, 2),
            1 => Instruction::new("LDA", Opcode::LDA, AddressMode::IZX, 6),
            2 => Instruction::new("LDX", Opcode::LDX, AddressMode::IMM, 2),
            3 => Instruction::new("LAX", Opcode::LAX, AddressMode::IZX, 6),
            4 => Instruction::new("LDY", Opcode::LDY, AddressMode::ZP0, 3),
            5 => Instruction::new("LDA", Opcode::LDA, AddressMode::ZP0, 3),
            6 => Instruction::new("LDX", Opcode::LDX, AddressMode::ZP0, 3),
            7 => Instruction::new("LAX", Opcode::LAX, AddressMode::ZP0, 3),
            8 => Instruction::new("TAY", Opcode::TAY, AddressMode::IMP, 2),
            9 => Instruction::new("LDA", Opcode::LDA, AddressMode::IMM, 2),
            10 => Instruction::new("TAX", Opcode::TAX, AddressMode::IMP, 2),
            11 => Instruction::new("???", Opcode::XXX, AddressMode::IMP, 2),
            12 => Instruction::new("LDY", Opcode::LDY, AddressMode::ABS, 4),
            13 => Instruction::new("LDA", Opcode::LDA, AddressMode::ABS, 4),
            14 => Instruction::new("LDX", Opcode::LDX, AddressMode::ABS, 4),
            _ => Instruction::new("LAX", Opcode::LAX, AddressMode::ABS, 4),
        }
    }

    fn from_row_b(lo: u8) -> (r: Instruction)
        ensures
            (r.opcode, r.addres_mode, r.cycles) == decode_row_b(lo),
            r.name@ == mnemonic_row_b(lo),
    {
        match lo {
            0 => Instruction::new("BCS", Opcode::BCS, AddressMode::REL, 2),
            1 => Instruction::new("LDA", Opcode::LDA, AddressMode::IZY, 5),
            2 => Instruction::new("???", Opcode::XXX, AddressMode::IMP, 2),
            3 => Instruction::new("LAX", Opcode::LAX, AddressMode::IZY, 5),
            4 => Instruction::new("LDY", Opcode::LDY, AddressMode::ZPX, 4),
            5 => Instruction::new("LDA", Opcode::LDA, AddressMode::ZPX, 4),
            6 => Instruction::new("LDX", Opcode::LDX, AddressMode::ZPY, 4),
            7 => Instruction::new("LAX", Opcode::LAX, AddressMode::ZPY, 4),
            8 => Instruction::new("CLV", Opcode::CLV, AddressMode::IMP, 2),
            9 => Instruction::new("LDA", Opcode::LDA, AddressMode::ABY, 4),
            10 => Instruction::new("TSX", Opcode::TSX, AddressMode::IMP, 2),
            11 => Instruction::new("???", Opcode::XXX, AddressMode::IMP, 4),
            12 => Instruction::new("LDY", Opcode::LDY, AddressMode::ABX, 4),
            13 => Instruction::new("LDA", Opcode::LDA, AddressMode::ABX, 4),
            14 => Instruction::new("LDX", Opcode::LDX, AddressMode::ABY, 4),
            _ => Instruction::new("LAX", Opcode::LAX, AddressMode::ABY, 4),
        }
    }

    fn from_row_c(lo: u8) -> (r: Instruction)
        ensures
            (r.opcode, r.addres_mode, r.cycles) == decode_row_c(lo),
            r.name@ == mnemonic_row_c(lo),
    {
        match lo {
            0 => Instruction::new("CPY", Opcode::CPY, AddressMode::IMM, 2),
            1 => Instruction::new("CMP", Opcode::CMP, AddressMode::IZX, 6),
            2 => Instruction::new("SKB", Opcode::SKB, AddressMode::IMM, 2),
            3 => Instruction::new("DCP", Opcode::DCP, AddressMode::IZX, 8),
            4 => Instruction::new("CPY", Opcode::CPY, AddressMode::ZP0, 3),
            5 => Instruction::new("CMP", Opcode::CMP, AddressMode::ZP0, 3),
            6 => Instruction::new("DEC", Opcode::DEC, AddressMode::ZP0, 5),
            7 => Instruction::new("DCP", Opcode::DCP, AddressMode::ZP0, 5),
            8 => Instruction::new("INY", Opcode::INY, AddressMode::IMP, 2),
            9 => Instruction::new("CMP", Opcode::CMP, AddressMode::IMM, 2),
            10 => Instruction::new("DEX", Opcode::DEX, AddressMode::IMP, 2),
            11 => Instruction::new("AXS", Opcode::AXS, AddressMode::IMM, 2),
            12 => Instruction::new("CPY", Opcode::CPY, AddressMode::ABS, 4),
            13 => Instruction::new("CMP", Opcode::CMP, AddressMode::ABS, 4),
            14 => Instruction::new("DEC", Opcode::DEC, AddressMode::ABS, 6),
            _ => Instruction::new("DCP", Opcode::DCP, AddressMode::ABS, 6),
        }
    }

    fn from_row_d(lo: u8) -> (r: Instruction)
        ensures
            (r.opcode, r.addres_mode, r.cycles) == decode_row_d(lo),
            r.name@ == mnemonic_row_d(lo),
    {
        match lo {
            0 => Instruction::new("BNE", Opcode::BNE, AddressMode::REL, 2),
            1 => Instruction::new("CMP", Opcode::CMP, AddressMode::IZY, 5),
            2 => Instruction::new("???", Opcode::XXX, AddressMode::IMP, 2),
            3 => Instruction::new("DCP", Opcode::DCP, AddressMode::IZY, 8),
            4 => Instruction::new("IGN", Opcode::IGN, AddressMode::ZPX, 4),
            5 => Instruction::new("CMP", Opcode::CMP, AddressMode::ZPX, 4),
            6 => Instruction::new("DEC", Opcode::DEC, AddressMode::ZPX, 6),
            7 => Instruction::new("DCP", Opcode::DCP, AddressMode::ZPX, 6),
            8 => Instruction::new("CLD", Opcode::CLD, AddressMode::IMP, 2),
            9 => Instruction::new("CMP", Opcode::CMP, AddressMode::ABY, 4),
            10 => Instruction::new("NOP", Opcode::NOP, AddressMode::IMP, 2),
            11 => Instruction::new("DCP", Opcode::DCP, AddressMode::ABY, 7),
            12 => Instruction::new("IGN", Opcode::IGN, AddressMode::ABX, 4),
            13 => Instruction::new("CMP", Opcode::CMP, AddressMode::ABX, 4),
            14 => Instruction::new("DEC", Opcode::DEC, AddressMode::ABX, 7),
            _ => Instruction::new("DCP", Opcode::DCP, AddressMode::ABX, 7),
        }
    }

    fn from_row_e(lo: u8) -> (r: Instruction)
        ensures
            (r.opcode, r.addres_mode, r.cycles) == decode_row_e(lo),
            r.name@ == mnemonic_row_e(lo),
    {
        match lo {
            0 => Instruction::new("CPX", Opcode::CPX, AddressMode::IMM, 2),
            1 => Instruction::new("SBC", Opcode::SBC, AddressMode::IZX, 6),
            2 => Instruction::new("SKB", Opcode::SKB, AddressMode::IMM, 2),
            3 => Instruction::new("ISC", Opcode::ISC, AddressMode::IZX, 8),
            4 => Instruction::new("CPX", Opcode::CPX, AddressMode::ZP0, 3),
            5 => Instruction::new("SBC", Opcode::SBC, AddressMode::ZP0, 3),
            6 => Instruction::new("INC", Opcode::INC, AddressMode::ZP0, 5),
            7 => Instruction::new("ISC", Opcode::ISC, AddressMode::ZP0, 5),
            8 => Instruction::new("INX", Opcode::INX, AddressMode::IMP, 2),
            9 => Instruction::new("SBC", Opcode::SBC, AddressMode::IMM, 2),
            10 => Instruction::new("NOP", Opcode::NOP, AddressMode::IMP, 2),
            11 => Instruction::new("SBC", Opcode::SBC, AddressMode::IMM, 2),
            12 => Instruction::new("CPX", Opcode::CPX, AddressMode::ABS, 4),
            13 => Instruction::new("SBC", Opcode::SBC, AddressMode::ABS, 4),
            14 => Instruction::new("INC", Opcode::INC, AddressMode::ABS, 6),
            _ => Instruction::new("ISC", Opcode::ISC, AddressMode::ABS, 6),
        }
    }

    fn from_row_f(lo: u8) -> (r: Instruction)
        ensures
            (r.opcode, r.addres_mode, r.cycles) == decode_row_f(lo),
            r.name@ == mnemonic_row_f(lo),
    {
        match lo {
            0 => Instruction::new("BEQ", Opcode::BEQ, AddressMode::REL, 2),
            1 => Instruction::new("SBC", Opcode::SBC, AddressMode::IZY, 5),
            2 => Instruction::new("???", Opcode::XXX, AddressMode::IMP, 2),
            3 => Instruction::new("ISC", Opcode::ISC, AddressMode::IZY, 8),
            4 => Instruction::new("IGN", Opcode::IGN, AddressMode::ZPX, 4),
            5 => Instruction::new("SBC", Opcode::SBC, AddressMode::ZPX, 4),
            6 => Instruction::new("INC", Opcode::INC, AddressMode::ZPX, 6),
            7 => Instruction::new("ISC", Opcode::ISC, AddressMode::ZPX, 6),
            8 => Instruction::new("SED", Opcode::SED, AddressMode::IMP, 2),
            9 => Instruction::new("SBC", Opcode::SBC, AddressMode::ABY, 4),
            10 => Instruction::new("NOP", Opcode::NOP, AddressMode::IMP, 2),
            11 => Instruction::new("ISC", Opcode::ISC, AddressMode::ABY, 7),
            12 => Instruction::new("IGN", Opcode::IGN, AddressMode::ABX, 4),
            13 => Instruction::new("SBC", Opcode::SBC, AddressMode::ABX, 4),
            14 => Instruction::new("INC", Opcode::INC, AddressMode::ABX, 7),
            _ => Instruction::new("ISC", Opcode::ISC, AddressMode::ABX, 7),
        }
    }
}

impl Cpu6502 {
    /// The addressing mode of the instruction being executed.
    pub open spec fn current_mode(&self) -> AddressMode {
        decode(self.opcode).1
    }

    /// The operand was fetched: the accumulator for the implied modes, else the byte read
    /// at the effective address.
    pub open spec fn fetch_post(&self, post: &Cpu6502) -> bool {
        &&& implied(self.current_mode()) ==> post.fetched == self.a && post.bus.same_except(
            &self.bus,
            false,
            false,
            false,
            false,
        )
        &&& !implied(self.current_mode()) ==> self.bus.read_post(
            &post.bus,
            self.addr_abs,
            false,
            post.fetched,
        )
        &&& post.unchanged_except(self, false, false, false, false, false, false, false, true)
        &&& post.wf()
    }

    /// Decodes the opcode being executed.
    pub fn get_instruction(&self) -> (r: Instruction)
        ensures
            (r.opcode, r.addres_mode, r.cycles) == decode(self.opcode),
    {
        Instruction::from(self.opcode)
    }

    /// Loads the operand into `fetched` and returns it.
    pub fn fetch(&mut self) -> (r: u8)
        requires
            old(self).wf(),
        ensures
            old(self).fetch_post(final(self)),
            r == final(self).fetched,
    {
        let mode = self.get_instruction().addres_mode;
        if mode != AddressMode::IMP && mode != AddressMode::ACC {
            self.fetched = self.read(self.addr_abs);
        } else {
            self.fetched = self.a;
        }
        self.fetched
    }
}

} // verus!
