//! A disassembler: the text of the instruction at an address.
use vstd::prelude::*;
use std::collections::HashMap;
use crate::addressing::{AddressMode, operand_len};
use crate::cpu::{Cpu6502, inc16, word, wrapping_inc16};
use crate::instruction::{Instruction, decode, mnemonic};
use vstd::string::StringExecFns;

verus! {

broadcast use vstd::std_specs::hash::group_hash_axioms;

/// The hexadecimal digit of `d` (0-15), upper case.
pub open spec fn hex_digit(d: int) -> Seq<char> {
    if d == 0 {
        "0"@
    } else if d == 1 {
        "1"@
    } else if d == 2 {
        "2"@
    } else if d == 3 {
        "3"@
    } else if d == 4 {
        "4"@
    } else if d == 5 {
        "5"@
    } else if d == 6 {
        "6"@
    } else if d == 7 {
        "7"@
    } else if d == 8 {
        "8"@
    } else if d == 9 {
        "9"@
    } else if d == 10 {
        "A"@
    } else if d == 11 {
        "B"@
    } else if d == 12 {
        "C"@
    } else if d == 13 {
        "D"@
    } else if d == 14 {
        "E"@
    } else {
        "F"@
    }
}

/// The low `n` hexadecimal digits of `v`, most significant first.
pub open spec fn hex_text(v: nat, n: nat) -> Seq<char>
    decreases n,
{
    if n == 0 {
        Seq::empty()
    } else {
        hex_text(v / 16, (n - 1) as nat) + hex_digit((v % 16) as int)
    }
}

fn digit_str(d: u32) -> (r: &'static str)
    requires
        d < 16,
    ensures
        r@ == hex_digit(d as int),
{
    if d == 0 {
        "0"
    } else if d == 1 {
        "1"
    } else if d == 2 {
        "2"
    } else if d == 3 {
        "3"
    } else if d == 4 {
        "4"
    } else if d == 5 {
        "5"
    } else if d == 6 {
        "6"
    } else if d == 7 {
        "7"
    } else if d == 8 {
        "8"
    } else if d == 9 {
        "9"
    } else if d == 10 {
        "A"
    } else if d == 11 {
        "B"
    } else if d == 12 {
        "C"
    } else if d == 13 {
        "D"
    } else if d == 14 {
        "E"
    } else {
        "F"
    }
}

/// The low `hex_size` hexadecimal digits of `value`, most significant first.
pub fn to_hex(value: u32, hex_size: u8) -> (r: String)
    ensures
        r@ == hex_text(value as nat, hex_size as nat),
{
    let n = hex_size as usize;
    let mut qs: Vec<u32> = Vec::new();
    qs.push(value);
    let mut k: usize = 0;
    while k < n
        invariant
            k <= n,
            n == hex_size,
            qs@.len() == k + 1,
            qs@[0] == value,
            forall|j: int| 0 <= j < k ==> #[trigger] qs@[j + 1] == qs@[j] / 16,
        decreases n - k,
    {
        let q = qs[k] / 16;
        qs.push(q);
        k = k + 1;
    }
    let mut s = String::new();
    let mut i: usize = n;
    while i > 0
        invariant
            i <= n,
            n == hex_size,
            qs@.len() == n + 1,
            qs@[0] == value,
            forall|j: int| 0 <= j < n ==> #[trigger] qs@[j + 1] == qs@[j] / 16,
            s@ == hex_text(qs@[i as int] as nat, (n - i) as nat),
        decreases i,
    {
        i = i - 1;
        let d = qs[i] % 16;
        s.append(digit_str(d));
        assert(qs@[i as int + 1] == qs@[i as int] / 16);
    }
    s
}

/// The operand as the disassembly shows it, for an instruction at `addr` whose operand
/// bytes are `b1` and `b2`.
pub open spec fn operand_text(mode: AddressMode, addr: u16, b1: u8, b2: u8) -> Seq<char> {
    let w = word(b1, b2) as nat;
    match mode {
        AddressMode::IMP => " {IMP}"@,
        AddressMode::ACC => " {ACC}"@,
        AddressMode::IMM => "#$"@ + hex_text(b1 as nat, 2) + " {IMM}"@,
        AddressMode::ZP0 => "$"@ + hex_text(b1 as nat, 2) + " {ZP0}"@,
        AddressMode::ZPX => "$"@ + hex_text(b1 as nat, 2) + ", X {ZPX}"@,
        AddressMode::ZPY => "$"@ + hex_text(b1 as nat, 2) + ", Y {ZPY}"@,
        AddressMode::IZX => "$"@ + hex_text(b1 as nat, 2) + ", X {IZX}"@,
        AddressMode::IZY => "$"@ + hex_text(b1 as nat, 2) + ", Y {IZY}"@,
        AddressMode::ABS => "$"@ + hex_text(w, 4) + " {ABS}"@,
        AddressMode::ABX => "$"@ + hex_text(w, 4) + ", X {ABX}"@,
        AddressMode::ABY => "$"@ + hex_text(w, 4) + ", Y {ABY}"@,
        AddressMode::IND => "($"@ + hex_text(w, 4) + ") {IND}"@,
        AddressMode::REL => "$"@ + hex_text(b1 as nat, 2) + " [$"@ + hex_text(
            branch_target(addr, b1) as nat,
            4,
        ) + "] {REL}"@,
    }
}

/// Where a branch at `addr` with offset byte `b` goes.
pub open spec fn branch_target(addr: u16, b: u8) -> u16 {
    ((addr as int + 2 + (if b >= 128 {
        b as int - 256
    } else {
        b as int
    }) + 65536) % 65536) as u16
}

/// The disassembly of the instruction at `addr` with opcode `op` and operand bytes `b1`,
/// `b2`: `$AAAA: MNEMONIC operand`.
pub open spec fn line_text(addr: u16, op: u8, b1: u8, b2: u8) -> Seq<char> {
    "$"@ + hex_text(addr as nat, 4) + ": "@ + mnemonic(op) + " "@ + operand_text(
        decode(op).1,
        addr,
        b1,
        b2,
    )
}

fn branch_target_exec(addr: u16, b: u8) -> (r: u16)
    ensures
        r == branch_target(addr, b),
{
    let offset: u32 = if b >= 128 {
        b as u32 + 0xFF00
    } else {
        b as u32
    };
    ((addr as u32 + 2 + offset) % 65536) as u16
}

impl Cpu6502 {
    /// The bytes at `addr`, `addr + 1` and `addr + 2` read without side effects.
    pub open spec fn instruction_quiet(&self, addr: u16) -> bool {
        &&& self.bus.quiet(addr)
        &&& self.bus.quiet(inc16(addr))
        &&& self.bus.quiet(inc16(inc16(addr)))
    }

    /// The disassembly of the instruction at `addr`, from the bus as it is.
    pub open spec fn spec_line(&self, addr: u16) -> Seq<char> {
        line_text(
            addr,
            self.bus.peek(addr),
            self.bus.peek(inc16(addr)),
            self.bus.peek(inc16(inc16(addr))),
        )
    }

    /// The disassembly of the instruction at the program counter. PPU registers are
    /// peeked without side effects.
    pub fn disassemble_instruction(&mut self) -> (r: String)
        requires
            old(self).wf(),
        ensures
            final(self).wf(),
            final(self).unchanged_except(old(self), false, false, false, false, false, false, false, true),
            final(self).bus.keeps_clock_and_rom(&old(self).bus),
            final(self).bus.ram@ == old(self).bus.ram@,
            final(self).bus.same_except(&old(self).bus, false, false, false, false),
            old(self).instruction_quiet(old(self).pc) ==> r@ == old(self).spec_line(old(self).pc)
                && final(self).bus.same_except(&old(self).bus, false, false, false, false),
    {
        proof {
            crate::bus::lemma_access_keeps_timing();
        }
        let addr = self.pc;
        let opcode = self.bus_read(addr, true);
        let b1 = self.bus_read(wrapping_inc16(addr), true);
        let b2 = self.bus_read(wrapping_inc16(wrapping_inc16(addr)), true);
        let instruction = Instruction::from(opcode);
        let mut line = String::new();
        line.append("$");
        let a = to_hex(addr as u32, 4);
        line.append(a.as_str());
        line.append(": ");
        line.append(instruction.name);
        line.append(" ");
        let w: u32 = b2 as u32 * 256 + b1 as u32;
        match instruction.addres_mode {
            AddressMode::IMP => {
                line.append(" {IMP}");
            },
            AddressMode::ACC => {
                line.append(" {ACC}");
            },
            AddressMode::IMM => {
                line.append("#$");
                line.append(to_hex(b1 as u32, 2).as_str());
                line.append(" {IMM}");
            },
            AddressMode::ZP0 => {
                line.append("$");
                line.append(to_hex(b1 as u32, 2).as_str());
                line.append(" {ZP0}");
            },
            AddressMode::ZPX => {
                line.append("$");
                line.append(to_hex(b1 as u32, 2).as_str());
                line.append(", X {ZPX}");
            },
            AddressMode::ZPY => {
                line.append("$");
                line.append(to_hex(b1 as u32, 2).as_str());
                line.append(", Y {ZPY}");
            },
            AddressMode::IZX => {
                line.append("$");
                line.append(to_hex(b1 as u32, 2).as_str());
                line.append(", X {IZX}");
            },
            AddressMode::IZY => {
                line.append("$");
                line.append(to_hex(b1 as u32, 2).as_str());
                line.append(", Y {IZY}");
            },
            AddressMode::ABS => {
                line.append("$");
                line.append(to_hex(w, 4).as_str());
                line.append(" {ABS}");
            },
            AddressMode::ABX => {
                line.append("$");
                line.append(to_hex(w, 4).as_str());
                line.append(", X {ABX}");
            },
            AddressMode::ABY => {
                line.append("$");
                line.append(to_hex(w, 4).as_str());
                line.append(", Y {ABY}");
            },
            AddressMode::IND => {
                line.append("($");
                line.append(to_hex(w, 4).as_str());
                line.append(") {IND}");
            },
            AddressMode::REL => {
                line.append("$");
                line.append(to_hex(b1 as u32, 2).as_str());
                line.append(" [$");
                line.append(to_hex(branch_target_exec(addr, b1) as u32, 4).as_str());
                line.append("] {REL}");
            },
        }
        proof {
            if old(self).instruction_quiet(old(self).pc) {
                assert(line@ =~= old(self).spec_line(old(self).pc));
            }
        }
        line
    }

    /// The disassembly of the instructions from `start` to `stop`, keyed by address. Each
    /// instruction's line starts where the previous one's operand ends.
    pub fn disassemble(&mut self, start: u16, stop: u16) -> (r: HashMap<u16, String>)
        requires
            old(self).wf(),
        ensures
            final(self).wf(),
            final(self).unchanged_except(old(self), false, false, false, false, false, false, false, true),
            final(self).bus.same_except(&old(self).bus, false, false, false, false),
            forall|k: u16| #[trigger] r@.contains_key(k) ==> start <= k <= stop,
            start <= stop ==> r@.contains_key(start),
            forall|k: u16|
                #[trigger] r@.contains_key(k) && old(self).instruction_quiet(k) ==> r@[k]@
                    == old(self).spec_line(k),
    {
        proof {
            crate::bus::lemma_access_keeps_timing();
        }
        let mut map: HashMap<u16, String> = HashMap::new();
        let mut addr: u32 = start as u32;
        let saved_pc = self.pc;
        while addr <= stop as u32
            invariant
                self.wf(),
                start <= addr,
                addr <= stop as u32 + 3 || addr == start,
                self.unchanged_except(old(self), false, false, false, false, true, false, false, true),
                self.bus.same_except(&old(self).bus, false, false, false, false),
                forall|k: u16| #[trigger] map@.contains_key(k) ==> start <= k < addr && k <= stop,
                addr > start ==> map@.contains_key(start),
                forall|k: u16|
                    #[trigger] map@.contains_key(k) && old(self).instruction_quiet(k) ==> map@[k]@
                        == old(self).spec_line(k),
            decreases stop as u32 + 3 - addr,
        {
            let line_addr = addr as u16;
            self.pc = line_addr;
            let line = self.disassemble_instruction();
            let opcode = self.bus_read(line_addr, true);
            let mode = Instruction::from(opcode).addres_mode;
            let len: u32 = match mode {
                AddressMode::IMP | AddressMode::ACC => 1,
                AddressMode::ABS | AddressMode::ABX | AddressMode::ABY | AddressMode::IND => 3,
                _ => 2,
            };
            map.insert(line_addr, line);
            addr = addr + len;
        }
        self.pc = saved_pc;
        map
    }
}

} // verus!
