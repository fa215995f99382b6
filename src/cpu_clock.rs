//! Reset, interrupts, the instruction cycle, and the master clock.
use vstd::prelude::*;
use crate::addressing::AddressMode;
use crate::bus::{Bus, ram_index};
use crate::ppu::Ppu2C02;
use crate::cpu::{Cpu6502, Flags6502, dec8, flag_set, inc16, set_bits, stack_addr, word};
use crate::instruction::{Opcode, decode};
use crate::ppu_render::{effective_cycle, next_dot, starts_vblank};

verus! {

/// `v + 1`, wrapping.
pub open spec fn inc32(v: u32) -> u32 {
    ((v as int + 1) % 0x1_0000_0000) as u32
}

fn wrapping_inc32(v: u32) -> (r: u32)
    ensures
        r == inc32(v),
{
    if v == 0xFFFF_FFFF {
        0
    } else {
        v + 1
    }
}

impl Cpu6502 {
    /// The state after an interrupt through `vector`: PC (high, then low) and the status
    /// with B clear and U set are pushed, I is set, and PC is loaded from the vector.
    pub open spec fn interrupt_post(&self, post: &Cpu6502, vector: u16) -> bool {
        let s1 = dec8(self.stkp);
        let s2 = dec8(s1);
        &&& post.bus.ram@ == self.bus.ram@.update(
            ram_index(stack_addr(self.stkp)),
            (self.pc / 256) as u8,
        ).update(ram_index(stack_addr(s1)), (self.pc % 256) as u8).update(
            ram_index(stack_addr(s2)),
            (self.status & !0x10u8) | 0x20,
        )
        &&& post.stkp == dec8(s2)
        &&& post.status == set_bits(self.status, 0x04, true)
        &&& self.bus.quiet(vector) && self.bus.quiet(inc16(vector)) ==> post.pc == word(
            self.bus.peek(vector),
            self.bus.peek(inc16(vector)),
        ) && post.bus.same_except(&self.bus, true, false, false, false)
        &&& post.addr_abs == vector
        &&& post.a == self.a
        &&& post.x == self.x
        &&& post.y == self.y
        &&& post.opcode == self.opcode
        &&& post.addr_rel == self.addr_rel
        &&& post.bus.keeps_clock_and_rom(&self.bus)
    }

    fn enter_interrupt(&mut self, vector: u16)
        requires
            old(self).wf(),
            0x4018 <= vector < 0xFFFF,
        ensures
            final(self).wf(),
            old(self).interrupt_post(final(self), vector),
            final(self).cycles == old(self).cycles,
            final(self).clock_count == old(self).clock_count,
            final(self).nmi_pending == old(self).nmi_pending,
    {
        proof {
            crate::bus::lemma_access_keeps_timing();
        }
        self.stkp_push((self.pc / 256) as u8);
        self.stkp_push((self.pc % 256) as u8);
        self.stkp_push((self.status & !0x10u8) | 0x20);
        self.set_flag(Flags6502::I, true);
        self.addr_abs = vector;
        self.pc = self.read_16b(vector);
    }

    /// Forces the power-up state: registers cleared, SP = 0xFD, P = 0x24, PC from the word
    /// at 0xFFFC; the reset takes 8 cycles.
    pub fn reset(&mut self)
        requires
            old(self).wf(),
        ensures
            final(self).wf(),
            old(self).bus.quiet(0xFFFC) && old(self).bus.quiet(0xFFFD) ==> final(self).pc == word(
                old(self).bus.peek(0xFFFC),
                old(self).bus.peek(0xFFFD),
            ) && final(self).bus.same_except(&old(self).bus, false, false, false, false),
            final(self).a == 0,
            final(self).x == 0,
            final(self).y == 0,
            final(self).stkp == 0xFD,
            final(self).status == 0x24,
            final(self).addr_abs == 0,
            final(self).addr_rel == 0,
            final(self).fetched == 0,
            final(self).cycles == 8,
            final(self).opcode == old(self).opcode,
            final(self).clock_count == old(self).clock_count,
            !final(self).nmi_pending,
    {
        self.nmi_pending = false;
        self.pc = self.read_16b(0xFFFC);
        self.a = 0;
        self.x = 0;
        self.y = 0;
        self.stkp = 0xFD;
        self.status = 0x24;
        self.addr_rel = 0;
        self.addr_abs = 0;
        self.fetched = 0;
        self.cycles = 8;
    }

    /// A maskable interrupt request: served through 0xFFFE in 7 cycles when I is clear,
    /// ignored otherwise.
    pub fn irq(&mut self)
        requires
            old(self).wf(),
        ensures
            final(self).wf(),
            crate::cpu::flag_set(old(self).status, 0x04) ==> final(self).unchanged_except(
                old(self),
                false,
                false,
                false,
                false,
                false,
                false,
                false,
                false,
            ),
            !crate::cpu::flag_set(old(self).status, 0x04) ==> old(self).interrupt_post(
                final(self),
                0xFFFE,
            ) && final(self).cycles == 7 && final(self).clock_count == old(self).clock_count
                && final(self).nmi_pending == old(self).nmi_pending,
    {
        if self.get_flag(Flags6502::I) == 0 {
            self.enter_interrupt(0xFFFE);
            self.cycles = 7;
        }
    }

    /// A non-maskable interrupt: served through 0xFFFA in 8 cycles.
    pub fn nmi(&mut self)
        requires
            old(self).wf(),
        ensures
            final(self).wf(),
            old(self).interrupt_post(final(self), 0xFFFA),
            final(self).cycles == 8,
            final(self).clock_count == old(self).clock_count,
            final(self).nmi_pending == old(self).nmi_pending,
    {
        self.enter_interrupt(0xFFFA);
        self.cycles = 8;
    }

    /// The opcode at PC was read, PC stepped past it, U set, and the base cycles loaded.
    pub open spec fn opcode_fetched(&self, post: &Cpu6502) -> bool {
        &&& self.bus.read_post(&post.bus, self.pc, false, post.opcode)
        &&& post.pc == inc16(self.pc)
        &&& post.status == set_bits(self.status, 0x20, true)
        &&& post.cycles == decode(post.opcode).2
        &&& post.a == self.a
        &&& post.x == self.x
        &&& post.y == self.y
        &&& post.stkp == self.stkp
        &&& post.addr_abs == self.addr_abs
        &&& post.addr_rel == self.addr_rel
        &&& post.clock_count == self.clock_count
        &&& post.nmi_pending == self.nmi_pending
        &&& post.wf()
    }

    /// One whole instruction from `self`: its opcode fetched (`s1`), its operand addressed
    /// (`s2`, penalty `e1`), and its operation done (`s3`, penalty `e2`).
    pub open spec fn instruction_step(
        &self,
        s1: Cpu6502,
        s2: Cpu6502,
        s3: Cpu6502,
        e1: u8,
        e2: u8,
    ) -> bool {
        &&& self.opcode_fetched(&s1)
        &&& s1.addressing_post(&s2, decode(s1.opcode).1, e1)
        &&& s2.op_post(&s3, decode(s1.opcode).0, e2)
    }

    /// The CPU after one cycle of `cpu_clock`.
    pub open spec fn cpu_clock_post(&self, post: &Cpu6502) -> bool {
        &&& (post.clock_count == inc32(self.clock_count))
        &&& (post.bus.keeps_clock_and_rom(&self.bus))
        &&& (!(self.cycles == 0 && self.nmi_pending) ==> post.nmi_pending == self.nmi_pending)
        &&& (self.cycles == 0 && self.nmi_pending ==> {
                &&& self.interrupt_post(post, 0xFFFA)
                &&& !post.nmi_pending
                &&& post.cycles == 7
            })
        &&& (self.cycles > 0 ==> {
                &&& post.nmi_pending == self.nmi_pending
                &&& post.cycles == self.cycles - 1
                &&& post.a == self.a
                &&& post.x == self.x
                &&& post.y == self.y
                &&& post.stkp == self.stkp
                &&& post.pc == self.pc
                &&& post.status == self.status
                &&& post.opcode == self.opcode
                &&& post.addr_abs == self.addr_abs
                &&& post.bus == self.bus
            })
        &&& (self.cycles == 0 && !self.nmi_pending ==> exists|s1: Cpu6502, s2: Cpu6502, s3: Cpu6502, e1: u8, e2: u8|
                #[trigger] self.instruction_step(s1, s2, s3, e1, e2) && {
                    &&& post.cycles as int == s3.cycles as int + (if e1 == 1 && e2 == 1 {
                        1int
                    } else {
                        0int
                    }) - 1
                    &&& post.status == set_bits(s3.status, 0x20, true)
                    &&& post.a == s3.a
                    &&& post.x == s3.x
                    &&& post.y == s3.y
                    &&& post.stkp == s3.stkp
                    &&& post.pc == s3.pc
                    &&& post.opcode == s3.opcode
                    &&& post.nmi_pending == s3.nmi_pending
                    &&& post.bus.same_except(&s3.bus, false, false, false, false)
                })
    }

    /// Runs one CPU cycle. When no cycles are left, a pending NMI is served; otherwise the
    /// next instruction is executed whole and its cost loaded: base cycles, plus one when
    /// both the addressing mode and the operation ask for the page-crossing cycle, plus what
    /// a taken branch adds.
    pub fn cpu_clock(&mut self)
        requires
            old(self).wf(),
        ensures
            final(self).wf(),
            old(self).cpu_clock_post(final(self)),

    {
        proof {
            crate::bus::lemma_access_keeps_timing();
        }
        if self.cycles == 0 && self.nmi_pending {
            self.nmi_pending = false;
            self.nmi();
            self.cycles = self.cycles - 1;
        } else if self.cycles == 0 {
            self.opcode = self.read(self.pc);
            self.set_flag(Flags6502::U, true);
            self.pc_next();
            let instruction = self.get_instruction();
            self.cycles = instruction.cycles;
            let ghost s1 = *self;
            assert(old(self).opcode_fetched(&s1));
            let aditional_cycles1 = self.addres_mode(instruction.addres_mode);
            let ghost s2 = *self;
            proof {
                lemma_base_cycles(s1.opcode);
            }
            let aditional_cycles2 = self.opcode(instruction.opcode);
            let ghost s3 = *self;
            assert(old(self).instruction_step(s1, s2, s3, aditional_cycles1, aditional_cycles2));
            if aditional_cycles1 == 1 && aditional_cycles2 == 1 {
                self.cycles = self.cycles + 1;
            }
            self.set_flag(Flags6502::U, true);
            proof {
                lemma_step_cycles(s2, s3, decode(s1.opcode).0, aditional_cycles2);
            }
            self.cycles = self.cycles - 1;
        } else {
            self.cycles = self.cycles - 1;
        }
        self.clock_count = wrapping_inc32(self.clock_count);
    }
}

/// Every opcode takes between 2 and 8 base cycles.
pub proof fn lemma_base_cycles(code: u8)
    ensures
        2 <= decode(code).2 <= 8,
{
}

/// An operation adds at most two cycles (a taken branch across a page), and keeps the
/// frame timing of the bus.
pub proof fn lemma_step_cycles(s2: Cpu6502, s3: Cpu6502, code: Opcode, e2: u8)
    requires
        s2.op_post(&s3, code, e2),
    ensures
        s2.cycles <= s3.cycles <= s2.cycles + 2,
        s3.bus.keeps_clock_and_rom(&s2.bus),
        s3.nmi_pending == s2.nmi_pending,
{
    crate::bus::lemma_access_keeps_timing();
}

impl Cpu6502 {
    /// One master clock step from `self`: the PPU runs its dot, giving `p1`; then, on every
    /// third step, the CPU runs one cycle or, during a transfer, the DMA engine does,
    /// giving `s2`; on other steps nothing more happens.
    pub open spec fn master_step(&self, p1: Ppu2C02, s2: Cpu6502) -> bool {
        let s1 = (Cpu6502 { bus: (Bus { ppu: p1, ..self.bus }), ..*self });
        let third = self.bus.system_clock_counter % 3 == 0;
        &&& self.bus.ppu.clock_post(&p1)
        &&& p1.wf()
        &&& third && !self.bus.dma_transfer ==> s1.cpu_clock_post(&s2)
        &&& third && self.bus.dma_transfer ==> s1.bus.dma_cycle_post(
            &s2.bus,
            self.bus.system_clock_counter % 2 == 1,
        ) && s2 == (Cpu6502 { bus: s2.bus, ..s1 })
        &&& !third ==> s2 == s1
    }

    /// The state after a master clock step that went through `s2`: an NMI the PPU raised
    /// is latched for the CPU, and the master counter moves on.
    pub open spec fn master_done(s2: Cpu6502) -> Cpu6502 {
        Cpu6502 {
            nmi_pending: s2.nmi_pending || s2.bus.ppu.nmi,
            bus: Bus {
                ppu: Ppu2C02 { nmi: false, ..s2.bus.ppu },
                system_clock_counter: inc32(s2.bus.system_clock_counter),
                ..s2.bus
            },
            ..s2
        }
    }

    /// `post` is the state after one master clock step from `self`.
    pub open spec fn clock_step(&self, post: &Cpu6502) -> bool {
        exists|p1: Ppu2C02, s2: Cpu6502|
            #[trigger] self.master_step(p1, s2) && *post == Cpu6502::master_done(s2)
    }

    /// One master clock step (one PPU dot): the PPU always runs; on every third step the
    /// CPU runs one cycle, or the DMA engine does while a transfer is in progress; an NMI
    /// raised by the PPU is then latched in the CPU, which serves it at its next
    /// instruction boundary.
    #[verifier::rlimit(100)]
    pub fn clock(&mut self)
        requires
            old(self).wf(),
        ensures
            final(self).wf(),
            old(self).clock_step(final(self)),
            old(self).bus.system_clock_counter % 3 == 0 && !old(self).bus.dma_transfer
                && old(self).cycles > 0 ==> final(self).cycles == old(self).cycles - 1
                && !final(self).bus.dma_transfer,
            old(self).bus.system_clock_counter % 3 == 0 && old(self).bus.dma_transfer ==> final(self).cycles
                == old(self).cycles,
            old(self).bus.system_clock_counter % 3 != 0 ==> final(self).bus.dma_dummy == old(self).bus.dma_dummy
                && final(self).bus.dma_addr == old(self).bus.dma_addr,
            !(old(self).bus.system_clock_counter % 3 == 0 && !old(self).bus.dma_transfer) ==> {
                &&& final(self).a == old(self).a
                &&& final(self).x == old(self).x
                &&& final(self).y == old(self).y
                &&& final(self).stkp == old(self).stkp
                &&& final(self).status == old(self).status
                &&& final(self).pc == old(self).pc
                &&& final(self).cycles == old(self).cycles
            },
            final(self).bus.system_clock_counter == inc32(old(self).bus.system_clock_counter),
            (final(self).bus.ppu.scanline, final(self).bus.ppu.cycle) == next_dot(
                old(self).bus.ppu.scanline,
                effective_cycle(&old(self).bus.ppu),
            ),
            final(self).bus.ppu.frame_complete == (old(self).bus.ppu.frame_complete
                || crate::ppu_render::ends_frame(&old(self).bus.ppu)),
            !final(self).bus.ppu.nmi,
            final(self).nmi_pending == (old(self).bus.ppu.nmi || (starts_vblank(&old(self).bus.ppu)
                && old(self).bus.ppu.control.spec_enable_nmi() > 0) || (old(self).nmi_pending
                && !(old(self).bus.system_clock_counter % 3 == 0 && !old(self).bus.dma_transfer
                && old(self).cycles == 0))),
            old(self).bus.system_clock_counter % 3 != 0 ==> final(self).clock_count == old(self).clock_count && final(self).cycles == old(self).cycles && final(self).pc == old(self).pc,
            old(self).bus.system_clock_counter % 3 == 0 && !old(self).bus.dma_transfer
                ==> final(self).clock_count == inc32(old(self).clock_count),
            old(self).bus.system_clock_counter % 3 == 0 && old(self).bus.dma_transfer ==> (
            final(self).bus.dma_transfer,
            final(self).bus.dma_dummy,
            final(self).bus.dma_addr,
            ) == crate::bus::dma_next(
                old(self).bus.dma_dummy,
                old(self).bus.dma_addr,
                old(self).bus.system_clock_counter % 2 == 1,
            ) && final(self).clock_count == old(self).clock_count,
            old(self).bus.system_clock_counter % 3 != 0 ==> final(self).bus.dma_transfer == old(self).bus.dma_transfer,
    {
        self.bus.ppu.clock();
        let ghost p1 = self.bus.ppu;
        if self.bus.system_clock_counter % 3 == 0 {
            if self.bus.dma_transfer {
                let odd = self.bus.system_clock_counter % 2 == 1;
                self.bus.dma_cycle(odd);
            } else {
                self.cpu_clock();
            }
        }
        let ghost s2 = *self;
        assert(old(self).master_step(p1, s2));
        if self.bus.ppu.nmi {
            self.bus.ppu.nmi = false;
            self.nmi_pending = true;
        }
        self.bus.system_clock_counter = wrapping_inc32(self.bus.system_clock_counter);
        assert(*self == Cpu6502::master_done(s2));
    }
}

} // verus!

verus! {

/// Whether branch operation `code` is taken under status `p` (`None` for other operations).
pub open spec fn branch_condition(code: Opcode, p: u8) -> Option<bool> {
    match code {
        Opcode::BCC => Some(!flag_set(p, 0x01)),
        Opcode::BCS => Some(flag_set(p, 0x01)),
        Opcode::BEQ => Some(flag_set(p, 0x02)),
        Opcode::BNE => Some(!flag_set(p, 0x02)),
        Opcode::BMI => Some(flag_set(p, 0x80)),
        Opcode::BPL => Some(!flag_set(p, 0x80)),
        Opcode::BVC => Some(!flag_set(p, 0x40)),
        Opcode::BVS => Some(flag_set(p, 0x40)),
        _ => None,
    }
}

/// A branch instruction costs 2 cycles when not taken, 3 when taken within the page, and
/// 4 when the target lies in another page.
pub proof fn lemma_branch_cycles(
    c: Cpu6502,
    s1: Cpu6502,
    s2: Cpu6502,
    s3: Cpu6502,
    e1: u8,
    e2: u8,
)
    requires
        c.instruction_step(s1, s2, s3, e1, e2),
        branch_condition(decode(s1.opcode).0, s2.status) is Some,
    ensures
        ({
            let taken = branch_condition(decode(s1.opcode).0, s2.status).unwrap();
            let total = s3.cycles as int + (if e1 == 1 && e2 == 1 {
                1int
            } else {
                0int
            });
            &&& !taken ==> total == 2 && s3.pc == s2.pc
            &&& taken && s3.pc / 256 == s2.pc / 256 ==> total == 3
            &&& taken && s3.pc / 256 != s2.pc / 256 ==> total == 4
        }),
{
    lemma_branch_base_cycles(s1.opcode);
}

/// Every branch opcode is a relative-mode instruction of 2 base cycles.
proof fn lemma_branch_base_cycles(code: u8)
    ensures
        branch_condition(decode(code).0, 0) is Some ==> decode(code).2 == 2 && decode(code).1
            == AddressMode::REL,
{
}

/// Setting U leaves the flags branches test.
proof fn lemma_u_keeps_branch_flags(p: u8)
    ensures
        forall|m: u8|
            m == 0x01 || m == 0x02 || m == 0x40 || m == 0x80 ==> #[trigger] flag_set(
                set_bits(p, 0x20, true),
                m,
            ) == flag_set(p, m),
{
    assert(((p | 0x20) & 0x01 != 0) == (p & 0x01 != 0) && ((p | 0x20) & 0x02 != 0) == (p & 0x02
        != 0) && ((p | 0x20) & 0x40 != 0) == (p & 0x40 != 0) && ((p | 0x20) & 0x80 != 0) == (p
        & 0x80 != 0)) by (bit_vector);
}

/// A branch instruction, run by `cpu_clock` from an instruction boundary with no NMI
/// pending, takes 2 cycles when its condition is false (and goes on at the next
/// instruction), 3 when it is taken within the page, and 4 across a page: the first cycle
/// is this call, and `cycles` counts the rest.
pub proof fn lemma_branch_tick(c: Cpu6502, post: Cpu6502)
    requires
        c.cpu_clock_post(&post),
        c.cycles == 0,
        !c.nmi_pending,
        c.bus.quiet(c.pc),
        c.bus.quiet(inc16(c.pc)),
        branch_condition(decode(c.bus.peek(c.pc)).0, c.status) is Some,
    ensures
        ({
            let taken = branch_condition(decode(c.bus.peek(c.pc)).0, c.status).unwrap();
            let next = inc16(inc16(c.pc));
            let b = c.bus.peek(inc16(c.pc));
            let target = ((next as int + (if b >= 128 {
                b as int + 0xFF00
            } else {
                b as int
            })) % 65536) as u16;
            &&& !taken ==> post.cycles == 1 && post.pc == next
            &&& taken ==> post.pc == target
            &&& taken && target / 256 == next / 256 ==> post.cycles == 2
            &&& taken && target / 256 != next / 256 ==> post.cycles == 3
        }),
{
    let (s1, s2, s3, e1, e2) = choose|s1: Cpu6502, s2: Cpu6502, s3: Cpu6502, e1: u8, e2: u8|
        #[trigger] c.instruction_step(s1, s2, s3, e1, e2) && {
            &&& post.cycles as int == s3.cycles as int + (if e1 == 1 && e2 == 1 {
                1int
            } else {
                0int
            }) - 1
            &&& post.status == set_bits(s3.status, 0x20, true)
            &&& post.a == s3.a
            &&& post.x == s3.x
            &&& post.y == s3.y
            &&& post.stkp == s3.stkp
            &&& post.pc == s3.pc
            &&& post.opcode == s3.opcode
            &&& post.nmi_pending == s3.nmi_pending
            &&& post.bus.same_except(&s3.bus, false, false, false, false)
        };
    lemma_u_keeps_branch_flags(c.status);
    lemma_branch_base_cycles(s1.opcode);
    lemma_branch_cycles(c, s1, s2, s3, e1, e2);
}

} // verus!
