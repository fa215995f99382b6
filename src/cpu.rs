//! The 6502 core: registers, flags, stack, interrupts, and the clocks that drive it.
use vstd::prelude::*;
use crate::bus::{Bus, ram_index};

verus! {

/// The flags of the status register.
#[derive(Clone, Copy, Debug, PartialEq, Eq, Structural)]
pub enum Flags6502 {
    /// Carry.
    C,
    /// Zero.
    Z,
    /// Interrupts disabled.
    I,
    /// Decimal mode (no effect on the NES).
    D,
    /// Break: set only in copies of the status pushed by BRK and PHP.
    B,
    /// Unused: always reads as 1.
    U,
    /// Overflow.
    V,
    /// Negative.
    N,
}

/// The bit of a flag in the status register.
pub open spec fn flag_mask(f: Flags6502) -> u8 {
    match f {
        Flags6502::C => 0x01,
        Flags6502::Z => 0x02,
        Flags6502::I => 0x04,
        Flags6502::D => 0x08,
        Flags6502::B => 0x10,
        Flags6502::U => 0x20,
        Flags6502::V => 0x40,
        Flags6502::N => 0x80,
    }
}

fn mask_of(f: Flags6502) -> (r: u8)
    ensures
        r == flag_mask(f),
{
    match f {
        Flags6502::C => 0x01,
        Flags6502::Z => 0x02,
        Flags6502::I => 0x04,
        Flags6502::D => 0x08,
        Flags6502::B => 0x10,
        Flags6502::U => 0x20,
        Flags6502::V => 0x40,
        Flags6502::N => 0x80,
    }
}

/// `p` with the bits of `m` set or cleared.
pub open spec fn set_bits(p: u8, m: u8, on: bool) -> u8 {
    if on {
        p | m
    } else {
        p & !m
    }
}

/// The flag of mask `m` is set in `p`.
pub open spec fn flag_set(p: u8, m: u8) -> bool {
    p & m != 0
}

/// `p` with Z and N describing `v`.
pub open spec fn with_nz(p: u8, v: u8) -> u8 {
    set_bits(set_bits(p, 0x02, v == 0), 0x80, v & 0x80 != 0)
}

/// `v + 1`, wrapping.
pub open spec fn inc16(v: u16) -> u16 {
    ((v as int + 1) % 65536) as u16
}

/// `v - 1`, wrapping.
pub open spec fn dec16(v: u16) -> u16 {
    ((v as int + 65535) % 65536) as u16
}

/// `v + 1`, wrapping.
pub open spec fn inc8(v: u8) -> u8 {
    ((v as int + 1) % 256) as u8
}

/// `v - 1`, wrapping.
pub open spec fn dec8(v: u8) -> u8 {
    ((v as int + 255) % 256) as u8
}

/// The little-endian word of `lo` and `hi`.
pub open spec fn word(lo: u8, hi: u8) -> u16 {
    (hi as int * 256 + lo as int) as u16
}

/// The stack address of stack pointer `sp`.
pub open spec fn stack_addr(sp: u8) -> u16 {
    (0x0100 + sp as int) as u16
}

pub fn wrapping_inc16(v: u16) -> (r: u16)
    ensures
        r == inc16(v),
{
    if v == 0xFFFF {
        0
    } else {
        v + 1
    }
}

pub fn wrapping_dec16(v: u16) -> (r: u16)
    ensures
        r == dec16(v),
{
    if v == 0 {
        0xFFFF
    } else {
        v - 1
    }
}

pub fn wrapping_inc8(v: u8) -> (r: u8)
    ensures
        r == inc8(v),
{
    if v == 0xFF {
        0
    } else {
        v + 1
    }
}

pub fn wrapping_dec8(v: u8) -> (r: u8)
    ensures
        r == dec8(v),
{
    if v == 0 {
        0xFF
    } else {
        v - 1
    }
}

pub struct Cpu6502 {
    /// Accumulator.
    pub a: u8,
    pub x: u8,
    pub y: u8,
    /// Stack pointer: an offset into page 1.
    pub stkp: u8,
    pub pc: u16,
    /// Status register `N V U B D I Z C`.
    pub status: u8,
    /// The operand of the instruction being executed.
    pub fetched: u8,
    /// Scratch for intermediate results.
    pub temp: u16,
    /// The effective address of the instruction being executed.
    pub addr_abs: u16,
    /// The sign-extended offset of a branch.
    pub addr_rel: u16,
    /// The opcode of the instruction being executed.
    pub opcode: u8,
    /// Cycles left before the next instruction starts.
    pub cycles: u8,
    /// CPU cycles since power-on.
    pub clock_count: u32,
    /// An NMI edge was seen and is served before the next instruction.
    pub nmi_pending: bool,
    pub bus: Bus,
}

impl Cpu6502 {
    pub open spec fn wf(&self) -> bool {
        self.bus.wf()
    }

    /// Equal to `o` but for the parts flagged; `fetched` and `temp` are scratch.
    pub open spec fn unchanged_except(
        &self,
        o: &Cpu6502,
        a: bool,
        x: bool,
        y: bool,
        sp: bool,
        pc: bool,
        p: bool,
        ctl: bool,
        bus: bool,
    ) -> bool {
        &&& (!a ==> self.a == o.a)
        &&& (!x ==> self.x == o.x)
        &&& (!y ==> self.y == o.y)
        &&& (!sp ==> self.stkp == o.stkp)
        &&& (!pc ==> self.pc == o.pc)
        &&& (!p ==> self.status == o.status)
        &&& (!ctl ==> self.addr_abs == o.addr_abs && self.cycles == o.cycles)
        &&& (!bus ==> self.bus.same_except(&o.bus, false, false, false, false))
        &&& self.addr_rel == o.addr_rel
        &&& self.opcode == o.opcode
        &&& self.clock_count == o.clock_count
        &&& self.nmi_pending == o.nmi_pending
    }

    /// The bus after a write to RAM of `data` at `addr`, everything else kept.
    pub open spec fn ram_written(&self, post: &Cpu6502, addr: u16, data: u8) -> bool {
        &&& post.bus.ram@ == self.bus.ram@.update(ram_index(addr), data)
        &&& post.bus.same_except(&self.bus, true, false, false, false)
    }

    pub fn new_with_bus(bus: Bus) -> (r: Cpu6502)
        requires
            bus.wf(),
        ensures
            r.wf(),
            r.bus == bus,
            r.a == 0 && r.x == 0 && r.y == 0 && r.stkp == 0 && r.pc == 0 && r.status == 0,
            r.cycles == 0,
            r.clock_count == 0,
            !r.nmi_pending,
    {
        Cpu6502 {
            a: 0,
            x: 0,
            y: 0,
            stkp: 0,
            pc: 0,
            status: 0,
            fetched: 0,
            temp: 0,
            addr_abs: 0,
            addr_rel: 0,
            opcode: 0,
            cycles: 0,
            clock_count: 0,
            nmi_pending: false,
            bus,
        }
    }

    pub fn read(&mut self, addr: u16) -> (r: u8)
        requires
            old(self).wf(),
        ensures
            final(self).wf(),
            old(self).bus.read_post(&final(self).bus, addr, false, r),
            final(self).unchanged_except(old(self), false, false, false, false, false, false, false, true),
            final(self).fetched == old(self).fetched,
            final(self).temp == old(self).temp,
    {
        self.bus.read(addr, false)
    }

    pub fn write(&mut self, addr: u16, data: u8)
        requires
            old(self).wf(),
        ensures
            final(self).wf(),
            old(self).bus.write_post(&final(self).bus, addr, data),
            final(self).unchanged_except(old(self), false, false, false, false, false, false, false, true),
            final(self).fetched == old(self).fetched,
            final(self).temp == old(self).temp,
    {
        self.bus.write(addr, data);
    }

    /// Reads the bus; with `read_only` PPU registers are peeked without side effects.
    pub fn bus_read(&mut self, addr: u16, read_only: bool) -> (r: u8)
        requires
            old(self).wf(),
        ensures
            final(self).wf(),
            old(self).bus.read_post(&final(self).bus, addr, read_only, r),
            final(self).unchanged_except(old(self), false, false, false, false, false, false, false, true),
            final(self).fetched == old(self).fetched,
            final(self).temp == old(self).temp,
    {
        self.bus.read(addr, read_only)
    }

    /// 1 if the flag is set, else 0.
    pub fn get_flag(&self, flag: Flags6502) -> (r: u8)
        ensures
            r == (if flag_set(self.status, flag_mask(flag)) {
                1u8
            } else {
                0u8
            }),
    {
        if self.status & mask_of(flag) != 0 {
            1
        } else {
            0
        }
    }

    pub fn set_flag(&mut self, flag: Flags6502, value: bool)
        ensures
            final(self).status == set_bits(old(self).status, flag_mask(flag), value),
            final(self).unchanged_except(old(self), false, false, false, false, false, true, false, false),
            final(self).fetched == old(self).fetched,
            final(self).temp == old(self).temp,
            final(self).bus == old(self).bus,
    {
        let m = mask_of(flag);
        if value {
            self.status = self.status | m;
        } else {
            self.status = self.status & !m;
        }
    }

    /// Advances the program counter and returns it.
    pub fn pc_next(&mut self) -> (r: u16)
        ensures
            final(self).pc == inc16(old(self).pc),
            r == final(self).pc,
            final(self).unchanged_except(old(self), false, false, false, false, true, false, false, false),
            final(self).fetched == old(self).fetched,
    {
        self.pc = wrapping_inc16(self.pc);
        self.pc
    }

    /// Steps the program counter back and returns it.
    pub fn pc_back(&mut self) -> (r: u16)
        ensures
            final(self).pc == dec16(old(self).pc),
            r == final(self).pc,
            final(self).unchanged_except(old(self), false, false, false, false, true, false, false, false),
            final(self).fetched == old(self).fetched,
    {
        self.pc = wrapping_dec16(self.pc);
        self.pc
    }

    /// Pushes a byte: writes page 1 at the stack pointer, then decrements it.
    pub fn stkp_push(&mut self, value: u8)
        requires
            old(self).wf(),
        ensures
            final(self).wf(),
            old(self).ram_written(final(self), stack_addr(old(self).stkp), value),
            final(self).stkp == dec8(old(self).stkp),
            final(self).unchanged_except(old(self), false, false, false, true, false, false, false, true),
            final(self).fetched == old(self).fetched,
    {
        let addr: u16 = 0x0100 + self.stkp as u16;
        self.write(addr, value);
        self.stkp = wrapping_dec8(self.stkp);
    }

    /// Pulls a byte: increments the stack pointer, then reads page 1 there.
    pub fn stkp_pop(&mut self) -> (r: u8)
        requires
            old(self).wf(),
        ensures
            final(self).wf(),
            final(self).stkp == inc8(old(self).stkp),
            r == old(self).bus.ram@[ram_index(stack_addr(final(self).stkp))],
            final(self).unchanged_except(old(self), false, false, false, true, false, false, false, false),
            final(self).fetched == old(self).fetched,
    {
        self.stkp = wrapping_inc8(self.stkp);
        let addr: u16 = 0x0100 + self.stkp as u16;
        self.read(addr)
    }

    /// Takes a branch to `pc + addr_rel`: one more cycle, and one more again when the
    /// target lies in another page.
    pub fn pc_branch(&mut self)
        requires
            old(self).cycles < 254,
        ensures
            final(self).addr_abs == ((old(self).pc as int + old(self).addr_rel as int) % 65536) as u16,
            final(self).pc == final(self).addr_abs,
            final(self).cycles == old(self).cycles + 1 + (if final(self).addr_abs / 256 != old(self).pc / 256 {
                1int
            } else {
                0int
            }),
            final(self).unchanged_except(old(self), false, false, false, false, true, false, true, false),
    {
        self.cycles = self.cycles + 1;
        self.addr_abs = ((self.pc as u32 + self.addr_rel as u32) % 65536) as u16;
        if self.addr_abs / 256 != self.pc / 256 {
            self.cycles = self.cycles + 1;
        }
        self.pc = self.addr_abs;
    }

    /// Reads a little-endian word at `addr`.
    pub fn read_16b(&mut self, addr: u16) -> (r: u16)
        requires
            old(self).wf(),
        ensures
            final(self).bus.keeps_clock_and_rom(&old(self).bus),
            final(self).wf(),
            final(self).unchanged_except(old(self), false, false, false, false, false, false, false, true),
            old(self).bus.quiet(addr) && old(self).bus.quiet(inc16(addr)) ==> r == word(
                old(self).bus.peek(addr),
                old(self).bus.peek(inc16(addr)),
            ) && final(self).bus.same_except(&old(self).bus, false, false, false, false),
    {
        proof {
            crate::bus::lemma_access_keeps_timing();
        }
        let lo = self.read(addr) as u16;
        let hi = self.read(wrapping_inc16(addr)) as u16;
        hi * 256 + lo
    }

    /// Reads the little-endian word at the program counter and steps past it.
    pub fn read_next_16b(&mut self) -> (r: u16)
        requires
            old(self).wf(),
        ensures
            final(self).bus.keeps_clock_and_rom(&old(self).bus),
            final(self).wf(),
            final(self).pc == inc16(inc16(old(self).pc)),
            final(self).unchanged_except(old(self), false, false, false, false, true, false, false, true),
            old(self).bus.quiet(old(self).pc) && old(self).bus.quiet(inc16(old(self).pc)) ==> r
                == word(old(self).bus.peek(old(self).pc), old(self).bus.peek(inc16(old(self).pc)))
                && final(self).bus.same_except(&old(self).bus, false, false, false, false),
    {
        proof {
            crate::bus::lemma_access_keeps_timing();
        }
        let lo = self.read(self.pc) as u16;
        self.pc_next();
        let hi = self.read(self.pc) as u16;
        self.pc_next();
        hi * 256 + lo
    }

    /// The current instruction has finished.
    pub fn complete(&self) -> (r: bool)
        ensures
            r == (self.cycles == 0),
    {
        self.cycles == 0
    }
}

} // verus!
