//! The addressing modes: where an instruction's operand is, and whether reaching it
//! crosses a page.
use vstd::prelude::*;
use crate::cpu::{Cpu6502, inc16, word};

verus! {

#[derive(Clone, Copy, Debug, PartialEq, Eq, Structural)]
pub enum AddressMode {
    /// Implied: no operand.
    IMP,
    /// Immediate: the byte after the opcode.
    IMM,
    /// Zero page.
    ZP0,
    /// Zero page plus X, wrapping in page 0.
    ZPX,
    /// Zero page plus Y, wrapping in page 0.
    ZPY,
    /// Relative: a signed branch offset.
    REL,
    /// Absolute.
    ABS,
    /// Absolute plus X.
    ABX,
    /// Absolute plus Y.
    ABY,
    /// Indirect, with the page-wrap bug of the pointer's high byte.
    IND,
    /// Indexed indirect: `(zp + X)` holds the address.
    IZX,
    /// Indirect indexed: `(zp)` plus Y.
    IZY,
    /// Accumulator.
    ACC,
}

/// The operand is the accumulator or nothing.
pub open spec fn implied(m: AddressMode) -> bool {
    m == AddressMode::IMP || m == AddressMode::ACC
}

/// Bytes of operand that follow the opcode.
pub open spec fn operand_len(m: AddressMode) -> int {
    match m {
        AddressMode::IMP | AddressMode::ACC => 0,
        AddressMode::ABS | AddressMode::ABX | AddressMode::ABY | AddressMode::IND => 2,
        _ => 1,
    }
}

/// Where IND reads the high byte of its target: the next byte, except that a pointer at
/// the end of a page wraps to the start of that same page.
pub open spec fn indirect_hi_addr(ptr: u16) -> u16 {
    if ptr % 256 == 255 {
        (ptr - 255) as u16
    } else {
        (ptr + 1) as u16
    }
}

/// The indirect jump's page bug: a pointer at the last byte of a page takes the high byte
/// of its target from the first byte of the same page (0x10FF reads 0x1000, not 0x1100);
/// any other pointer takes it from the next byte.
pub proof fn lemma_indirect_page_wrap(ptr: u16)
    ensures
        ptr % 256 == 255 ==> indirect_hi_addr(ptr) / 256 == ptr / 256 && indirect_hi_addr(ptr)
            % 256 == 0,
        ptr % 256 != 255 ==> indirect_hi_addr(ptr) == ptr + 1,
        indirect_hi_addr(0x10FF) == 0x1000,
{
}

/// JMP (ptr) with a pointer at the end of a page: addressing in mode IND takes the low
/// byte of the target at the pointer and the high byte at the start of the same page.
pub proof fn lemma_indirect_jump_bug(c: Cpu6502, post: Cpu6502, r: u8)
    requires
        c.addressing_post(&post, AddressMode::IND, r),
        operand_quiet(&c, AddressMode::IND),
        operand_word(&c) % 256 == 255,
    ensures
        post.addr_abs == word(
            c.bus.peek(operand_word(&c)),
            c.bus.peek((operand_word(&c) - 255) as u16),
        ),
        post.pc == next_pc(&c, AddressMode::IND),
        r == 0,
{
}

/// The 16-bit pointer in the two operand bytes.
pub open spec fn operand_word(c: &Cpu6502) -> u16 {
    word(c.bus.peek(c.pc), c.bus.peek(inc16(c.pc)))
}

/// The zero-page pointer of IZX.
pub open spec fn izx_ptr(c: &Cpu6502) -> int {
    (c.bus.peek(c.pc) as int + c.x as int) % 256
}

/// The base address of IZY, read from page 0.
pub open spec fn izy_base(c: &Cpu6502) -> u16 {
    let t = c.bus.peek(c.pc) as int;
    word(c.bus.peek(t as u16), c.bus.peek(((t + 1) % 256) as u16))
}

/// The reads of the operand have no side effects.
pub open spec fn operand_quiet(c: &Cpu6502, m: AddressMode) -> bool {
    match m {
        AddressMode::IMP | AddressMode::ACC | AddressMode::IMM => true,
        AddressMode::ABS | AddressMode::ABX | AddressMode::ABY => c.bus.quiet(c.pc) && c.bus.quiet(
            inc16(c.pc),
        ),
        AddressMode::IND => {
            let ptr = operand_word(c);
            &&& c.bus.quiet(c.pc)
            &&& c.bus.quiet(inc16(c.pc))
            &&& c.bus.quiet(ptr)
            &&& c.bus.quiet(indirect_hi_addr(ptr))
        },
        _ => c.bus.quiet(c.pc),
    }
}

/// The effective address of the operand (REL and the implied modes leave it as it was).
pub open spec fn effective_addr(c: &Cpu6502, m: AddressMode) -> u16 {
    match m {
        AddressMode::IMP | AddressMode::ACC | AddressMode::REL => c.addr_abs,
        AddressMode::IMM => c.pc,
        AddressMode::ZP0 => c.bus.peek(c.pc) as u16,
        AddressMode::ZPX => ((c.bus.peek(c.pc) as int + c.x as int) % 256) as u16,
        AddressMode::ZPY => ((c.bus.peek(c.pc) as int + c.y as int) % 256) as u16,
        AddressMode::ABS => operand_word(c),
        AddressMode::ABX => ((operand_word(c) as int + c.x as int) % 65536) as u16,
        AddressMode::ABY => ((operand_word(c) as int + c.y as int) % 65536) as u16,
        AddressMode::IND => {
            let ptr = operand_word(c);
            word(c.bus.peek(ptr), c.bus.peek(indirect_hi_addr(ptr)))
        },
        AddressMode::IZX => word(
            c.bus.peek(izx_ptr(c) as u16),
            c.bus.peek(((izx_ptr(c) + 1) % 256) as u16),
        ),
        AddressMode::IZY => ((izy_base(c) as int + c.y as int) % 65536) as u16,
    }
}

/// Reaching the operand crossed a page (ABX, ABY, IZY).
pub open spec fn mode_penalty(c: &Cpu6502, m: AddressMode) -> bool {
    match m {
        AddressMode::ABX => effective_addr(c, m) / 256 != operand_word(c) / 256,
        AddressMode::ABY => effective_addr(c, m) / 256 != operand_word(c) / 256,
        AddressMode::IZY => effective_addr(c, m) / 256 != izy_base(c) / 256,
        _ => false,
    }
}

/// The sign-extended branch offset.
pub open spec fn rel_offset(c: &Cpu6502) -> u16 {
    let b = c.bus.peek(c.pc);
    if b >= 128 {
        (b as int + 0xFF00) as u16
    } else {
        b as u16
    }
}

/// The program counter after the operand.
pub open spec fn next_pc(c: &Cpu6502, m: AddressMode) -> u16 {
    ((c.pc as int + operand_len(m)) % 65536) as u16
}

impl Cpu6502 {
    /// What addressing in mode `m` keeps: the registers and the instruction bookkeeping.
    pub open spec fn addressing_frame(&self, post: &Cpu6502) -> bool {
        &&& post.a == self.a
        &&& post.x == self.x
        &&& post.y == self.y
        &&& post.stkp == self.stkp
        &&& post.status == self.status
        &&& post.opcode == self.opcode
        &&& post.cycles == self.cycles
        &&& post.clock_count == self.clock_count
        &&& post.nmi_pending == self.nmi_pending
    }

    /// The state after addressing in mode `m` returned `r` (1 for a page-cross penalty).
    pub open spec fn addressing_post(&self, post: &Cpu6502, m: AddressMode, r: u8) -> bool {
        &&& self.addressing_frame(post)
        &&& post.bus.keeps_clock_and_rom(&self.bus)
        &&& post.pc == next_pc(self, m)
        &&& r <= 1
        &&& implied(m) ==> post.fetched == self.a && post.addr_abs == self.addr_abs
        &&& m != AddressMode::REL ==> post.addr_rel == self.addr_rel
        &&& operand_quiet(self, m) ==> {
            &&& post.addr_abs == effective_addr(self, m)
            &&& (r == 1) == mode_penalty(self, m)
            &&& post.bus.same_except(&self.bus, false, false, false, false)
            &&& m == AddressMode::REL ==> post.addr_rel == rel_offset(self)
        }
    }

    /// Computes the operand address of mode `m`; returns 1 when a page was crossed.
    pub fn addres_mode(&mut self, addr_mode: AddressMode) -> (r: u8)
        requires
            old(self).wf(),
        ensures
            final(self).wf(),
            old(self).addressing_post(final(self), addr_mode, r),
    {
        match addr_mode {
            AddressMode::IMP => self.imp(),
            AddressMode::IMM => self.imm(),
            AddressMode::ZP0 => self.zp0(),
            AddressMode::ZPX => self.zpx(),
            AddressMode::ZPY => self.zpy(),
            AddressMode::REL => self.rel(),
            AddressMode::ABS => self.abs(),
            AddressMode::ABX => self.abx(),
            AddressMode::ABY => self.aby(),
            AddressMode::IND => self.ind(),
            AddressMode::IZX => self.izx(),
            AddressMode::IZY => self.izy(),
            AddressMode::ACC => self.acc(),
        }
    }

    fn acc(&mut self) -> (r: u8)
        requires
            old(self).wf(),
        ensures
            final(self).wf(),
            old(self).addressing_post(final(self), AddressMode::ACC, r),
    {
        proof {
            crate::bus::lemma_access_keeps_timing();
        }
        self.fetched = self.a;
        0
    }

    fn imp(&mut self) -> (r: u8)
        requires
            old(self).wf(),
        ensures
            final(self).wf(),
            old(self).addressing_post(final(self), AddressMode::IMP, r),
    {
        proof {
            crate::bus::lemma_access_keeps_timing();
        }
        self.fetched = self.a;
        0
    }

    fn imm(&mut self) -> (r: u8)
        requires
            old(self).wf(),
        ensures
            final(self).wf(),
            old(self).addressing_post(final(self), AddressMode::IMM, r),
    {
        proof {
            crate::bus::lemma_access_keeps_timing();
        }
        self.addr_abs = self.pc;
        self.pc_next();
        0
    }

    fn zp0(&mut self) -> (r: u8)
        requires
            old(self).wf(),
        ensures
            final(self).wf(),
            old(self).addressing_post(final(self), AddressMode::ZP0, r),
    {
        proof {
            crate::bus::lemma_access_keeps_timing();
        }
        self.addr_abs = self.read(self.pc) as u16;
        self.pc_next();
        0
    }

    fn zpx(&mut self) -> (r: u8)
        requires
            old(self).wf(),
        ensures
            final(self).wf(),
            old(self).addressing_post(final(self), AddressMode::ZPX, r),
    {
        proof {
            crate::bus::lemma_access_keeps_timing();
        }
        self.addr_abs = (self.read(self.pc) as u16 + self.x as u16) % 256;
        self.pc_next();
        0
    }

    fn zpy(&mut self) -> (r: u8)
        requires
            old(self).wf(),
        ensures
            final(self).wf(),
            old(self).addressing_post(final(self), AddressMode::ZPY, r),
    {
        proof {
            crate::bus::lemma_access_keeps_timing();
        }
        self.addr_abs = (self.read(self.pc) as u16 + self.y as u16) % 256;
        self.pc_next();
        0
    }

    fn rel(&mut self) -> (r: u8)
        requires
            old(self).wf(),
        ensures
            final(self).wf(),
            old(self).addressing_post(final(self), AddressMode::REL, r),
    {
        proof {
            crate::bus::lemma_access_keeps_timing();
        }
        let b = self.read(self.pc) as u16;
        self.pc_next();
        self.addr_rel = if b >= 128 {
            b + 0xFF00
        } else {
            b
        };
        0
    }

    fn abs(&mut self) -> (r: u8)
        requires
            old(self).wf(),
        ensures
            final(self).wf(),
            old(self).addressing_post(final(self), AddressMode::ABS, r),
    {
        proof {
            crate::bus::lemma_access_keeps_timing();
        }
        self.addr_abs = self.read_next_16b();
        0
    }

    fn abx(&mut self) -> (r: u8)
        requires
            old(self).wf(),
        ensures
            final(self).wf(),
            old(self).addressing_post(final(self), AddressMode::ABX, r),
    {
        proof {
            crate::bus::lemma_access_keeps_timing();
        }
        let base = self.read_next_16b();
        self.addr_abs = ((base as u32 + self.x as u32) % 65536) as u16;
        if self.addr_abs / 256 != base / 256 {
            return 1;
        }
        0
    }

    fn aby(&mut self) -> (r: u8)
        requires
            old(self).wf(),
        ensures
            final(self).wf(),
            old(self).addressing_post(final(self), AddressMode::ABY, r),
    {
        proof {
            crate::bus::lemma_access_keeps_timing();
        }
        let base = self.read_next_16b();
        self.addr_abs = ((base as u32 + self.y as u32) % 65536) as u16;
        if self.addr_abs / 256 != base / 256 {
            return 1;
        }
        0
    }

    fn ind(&mut self) -> (r: u8)
        requires
            old(self).wf(),
        ensures
            final(self).wf(),
            old(self).addressing_post(final(self), AddressMode::IND, r),
    {
        proof {
            crate::bus::lemma_access_keeps_timing();
        }
        let ptr = self.read_next_16b();
        let hi_addr: u16 = if ptr % 256 == 255 {
            ptr - 255
        } else {
            ptr + 1
        };
        let lo = self.read(ptr) as u16;
        let hi = self.read(hi_addr) as u16;
        self.addr_abs = hi * 256 + lo;
        0
    }

    fn izx(&mut self) -> (r: u8)
        requires
            old(self).wf(),
        ensures
            final(self).wf(),
            old(self).addressing_post(final(self), AddressMode::IZX, r),
    {
        proof {
            crate::bus::lemma_access_keeps_timing();
        }
        let t = self.read(self.pc) as u16;
        self.pc_next();
        let z: u16 = (t + self.x as u16) % 256;
        let lo = self.read(z) as u16;
        let hi = self.read((z + 1) % 256) as u16;
        self.addr_abs = hi * 256 + lo;
        0
    }

    fn izy(&mut self) -> (r: u8)
        requires
            old(self).wf(),
        ensures
            final(self).wf(),
            old(self).addressing_post(final(self), AddressMode::IZY, r),
    {
        proof {
            crate::bus::lemma_access_keeps_timing();
        }
        let t = self.read(self.pc) as u16;
        self.pc_next();
        let lo = self.read(t) as u16;
        let hi = self.read((t + 1) % 256) as u16;
        let base: u16 = hi * 256 + lo;
        self.addr_abs = ((base as u32 + self.y as u32) % 65536) as u16;
        if self.addr_abs / 256 != base / 256 {
            return 1;
        }
        0
    }
}

} // verus!
