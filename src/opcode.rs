//! The operations: what each instruction does to the registers, the flags and memory.
use vstd::prelude::*;
use crate::addressing::implied;
use crate::alu::{add_with_carry, adc_status, adc_value, carry_in, sbc_status, sbc_value, subtract_with_carry};
use crate::bus::{Bus, ram_index};
use crate::cpu::{
    Cpu6502, Flags6502, dec16, dec8, flag_set, inc16, inc8, set_bits, stack_addr, with_nz, word,
    wrapping_dec8, wrapping_inc8,
};
use crate::instruction::{Opcode, decode};

verus! {

/// `a - m`, modulo 256.
pub open spec fn sub8(a: u8, m: u8) -> u8 {
    ((a as int - m as int + 256) % 256) as u8
}

/// The status after comparing `r` with `m`: C when `r >= m`, Z and N from `r - m`.
pub open spec fn compare_status(p: u8, r: u8, m: u8) -> u8 {
    with_nz(set_bits(p, 0x01, r >= m), sub8(r, m))
}

/// `f` shifted left, modulo 256.
pub open spec fn asl_value(f: u8) -> u8 {
    ((f as int * 2) % 256) as u8
}

/// `f` rotated left through carry `c`.
pub open spec fn rol_value(f: u8, c: int) -> u8 {
    ((f as int * 2 + c) % 256) as u8
}

/// `f` rotated right through carry `c`.
pub open spec fn ror_value(f: u8, c: int) -> u8 {
    (f as int / 2 + c * 128) as u8
}

/// Whether the operation earns the extra cycle of a page-crossing operand.
pub open spec fn opcode_penalty(code: Opcode) -> bool {
    match code {
        Opcode::ADC | Opcode::AND | Opcode::CMP | Opcode::EOR | Opcode::LAX | Opcode::LDA
        | Opcode::LDX | Opcode::LDY | Opcode::NOP | Opcode::ORA | Opcode::SBC | Opcode::SKB
        | Opcode::IGN => true,
        _ => false,
    }
}

/// Pushing the accumulator (PHA) and pulling it back (PLA) leaves it and the stack pointer
/// as they were; the status then has Z and N describing it and its other flags as before.
pub proof fn lemma_push_pull_round_trip(c0: Cpu6502, c1: Cpu6502, c2: Cpu6502, r1: u8, r2: u8)
    requires
        c0.wf(),
        c0.op_post(&c1, Opcode::PHA, r1),
        c1.op_post(&c2, Opcode::PLA, r2),
    ensures
        c2.a == c0.a,
        c2.stkp == c0.stkp,
        c2.status == with_nz(c0.status, c0.a),
{
    crate::bus::lemma_ram_index(stack_addr(c0.stkp));
    assert(inc8(dec8(c0.stkp)) == c0.stkp);
}

/// SBC does what ADC does with the one's complement of the operand: same accumulator and
/// same N, V, Z and C.
pub proof fn lemma_sbc_step(c: Cpu6502, post: Cpu6502, r: u8)
    requires
        c.op_post(&post, Opcode::SBC, r),
    ensures
        post.a == crate::alu::adc_value(c.a, post.fetched ^ 0xFF, carry_in(c.status)),
        post.status == adc_status(c.status, c.a, post.fetched ^ 0xFF, carry_in(c.status)),
{
    crate::alu::lemma_sbc_is_adc_of_complement(c.status, c.a, post.fetched, carry_in(c.status));
    assert(0 <= carry_in(c.status) <= 1);
}

fn sub8_exec(a: u8, m: u8) -> (r: u8)
    ensures
        r == sub8(a, m),
{
    ((a as u16 + 256 - m as u16) % 256) as u8
}

impl Cpu6502 {
    /// The operand was read: the accumulator in the implied modes, else the byte at the
    /// effective address.
    pub open spec fn operand_read(&self, post: &Cpu6502) -> bool {
        &&& implied(self.current_mode()) ==> post.fetched == self.a && post.bus.same_except(
            &self.bus,
            false,
            false,
            false,
            false,
        )
        &&& !implied(self.current_mode()) ==> self.bus.read_post(
            &post.bus,
            self.addr_abs,
            false,
            post.fetched,
        )
    }

    /// Memory at the effective address was read as `f`, then written with `v`.
    pub open spec fn rmw(&self, post: &Cpu6502, f: u8, v: u8) -> bool {
        exists|mid: Bus|
            #[trigger] self.bus.read_post(&mid, self.addr_abs, false, f) && mid.write_post(
                &post.bus,
                self.addr_abs,
                v,
            )
    }

    /// A taken branch: the target is `pc + addr_rel`, and it costs one cycle, two when it
    /// lands in another page.
    pub open spec fn branch_taken(&self, post: &Cpu6502) -> bool {
        &&& post.pc == ((self.pc as int + self.addr_rel as int) % 65536) as u16
        &&& post.addr_abs == post.pc
        &&& post.cycles == self.cycles + 1 + (if post.pc / 256 != self.pc / 256 {
            1int
        } else {
            0int
        })
        &&& post.unchanged_except(self, false, false, false, false, true, false, true, false)
    }

    /// Sets Z and N from `v`.
    fn set_nz(&mut self, v: u8)
        ensures
            final(self).status == with_nz(old(self).status, v),
            final(self).unchanged_except(old(self), false, false, false, false, false, true, false, false),
            final(self).fetched == old(self).fetched,
            final(self).bus == old(self).bus,
    {
        self.set_flag(Flags6502::Z, v == 0);
        self.set_flag(Flags6502::N, v & 0x80 != 0);
    }

    /// Puts a shift's result in the accumulator (implied modes) or back in memory.
    fn store_result(&mut self, v: u8)
        requires
            old(self).wf(),
        ensures
            final(self).wf(),
            implied(old(self).current_mode()) ==> final(self).a == v && final(self).bus == old(self).bus,
            !implied(old(self).current_mode()) ==> old(self).bus.write_post(&final(self).bus, old(self).addr_abs, v)
                && final(self).a == old(self).a,
            final(self).unchanged_except(old(self), true, false, false, false, false, false, false, true),
            final(self).fetched == old(self).fetched,
            final(self).status == old(self).status,
    {
        let mode = self.get_instruction().addres_mode;
        if mode == crate::addressing::AddressMode::IMP || mode == crate::addressing::AddressMode::ACC {
            self.a = v;
        } else {
            self.write(self.addr_abs, v);
        }
    }

    /// ADC: add the operand and the carry to the accumulator.
    pub open spec fn adc_post(&self, post: &Cpu6502, r: u8) -> bool {
        &&& self.operand_read(post)
        &&& post.a == adc_value(self.a, post.fetched, carry_in(self.status))
        &&& post.status == adc_status(self.status, self.a, post.fetched, carry_in(self.status))
        &&& post.unchanged_except(self, true, false, false, false, false, true, false, true)
        &&& r == 1
    }

    /// AND: accumulator AND operand.
    pub open spec fn and_post(&self, post: &Cpu6502, r: u8) -> bool {
        &&& self.operand_read(post)
        &&& post.a == self.a & post.fetched
        &&& post.status == with_nz(self.status, post.a)
        &&& post.unchanged_except(self, true, false, false, false, false, true, false, true)
        &&& r == 1
    }

    /// ASL: shift left; bit 7 goes to C. The target is the accumulator or memory.
    pub open spec fn asl_post(&self, post: &Cpu6502, r: u8) -> bool {
        let f = post.fetched;
        let v = asl_value(f);
        &&& post.status == with_nz(set_bits(self.status, 0x01, f >= 128), v)
        &&& implied(self.current_mode()) ==> post.a == v && f == self.a && post.bus.same_except(&self.bus, false, false, false, false)
        &&& !implied(self.current_mode()) ==> self.rmw(post, f, v) && post.a == self.a
        &&& post.unchanged_except(self, true, false, false, false, false, true, false, true)
        &&& r == 0
    }

    /// BCC: branch when !flag_set(P, 0x01).
    pub open spec fn bcc_post(&self, post: &Cpu6502, r: u8) -> bool {
        &&& (!flag_set(self.status, 0x01)) ==> self.branch_taken(post)
        &&& !(!flag_set(self.status, 0x01)) ==> post.unchanged_except(self, false, false, false, false, false, false, false, false)
        &&& r == 0
    }

    /// BCS: branch when flag_set(P, 0x01).
    pub open spec fn bcs_post(&self, post: &Cpu6502, r: u8) -> bool {
        &&& (flag_set(self.status, 0x01)) ==> self.branch_taken(post)
        &&& !(flag_set(self.status, 0x01)) ==> post.unchanged_except(self, false, false, false, false, false, false, false, false)
        &&& r == 0
    }

    /// BEQ: branch when flag_set(P, 0x02).
    pub open spec fn beq_post(&self, post: &Cpu6502, r: u8) -> bool {
        &&& (flag_set(self.status, 0x02)) ==> self.branch_taken(post)
        &&& !(flag_set(self.status, 0x02)) ==> post.unchanged_except(self, false, false, false, false, false, false, false, false)
        &&& r == 0
    }

    /// BIT: Z from accumulator AND operand; N and V from bits 7 and 6 of the operand.
    pub open spec fn bit_post(&self, post: &Cpu6502, r: u8) -> bool {
        &&& self.operand_read(post)
        &&& post.status == set_bits(set_bits(set_bits(self.status, 0x02, self.a & post.fetched == 0), 0x80, post.fetched & 0x80 != 0), 0x40, post.fetched & 0x40 != 0)
        &&& post.unchanged_except(self, false, false, false, false, false, true, false, true)
        &&& r == 0
    }

    /// BMI: branch when flag_set(P, 0x80).
    pub open spec fn bmi_post(&self, post: &Cpu6502, r: u8) -> bool {
        &&& (flag_set(self.status, 0x80)) ==> self.branch_taken(post)
        &&& !(flag_set(self.status, 0x80)) ==> post.unchanged_except(self, false, false, false, false, false, false, false, false)
        &&& r == 0
    }

    /// BNE: branch when !flag_set(P, 0x02).
    pub open spec fn bne_post(&self, post: &Cpu6502, r: u8) -> bool {
        &&& (!flag_set(self.status, 0x02)) ==> self.branch_taken(post)
        &&& !(!flag_set(self.status, 0x02)) ==> post.unchanged_except(self, false, false, false, false, false, false, false, false)
        &&& r == 0
    }

    /// BPL: branch when !flag_set(P, 0x80).
    pub open spec fn bpl_post(&self, post: &Cpu6502, r: u8) -> bool {
        &&& (!flag_set(self.status, 0x80)) ==> self.branch_taken(post)
        &&& !(!flag_set(self.status, 0x80)) ==> post.unchanged_except(self, false, false, false, false, false, false, false, false)
        &&& r == 0
    }

    /// BRK: push PC + 1 (high, then low) and the status with B set, set I, and jump through 0xFFFE.
    pub open spec fn brk_post(&self, post: &Cpu6502, r: u8) -> bool {
        let ret = inc16(self.pc);
        let s1 = dec8(self.stkp);
        let s2 = dec8(s1);
        &&& post.bus.ram@ == self.bus.ram@.update(ram_index(stack_addr(self.stkp)), (ret / 256) as u8).update(ram_index(stack_addr(s1)), (ret % 256) as u8).update(ram_index(stack_addr(s2)), self.status | 0x30)
        &&& post.stkp == dec8(s2)
        &&& post.status == set_bits(self.status, 0x04, true)
        &&& self.bus.quiet(0xFFFE) && self.bus.quiet(0xFFFF) ==> post.pc == word(self.bus.peek(0xFFFE), self.bus.peek(0xFFFF)) && post.bus.same_except(&self.bus, true, false, false, false)
        &&& post.unchanged_except(self, false, false, false, true, true, true, false, true)
        &&& r == 0
    }

    /// BVC: branch when !flag_set(P, 0x40).
    pub open spec fn bvc_post(&self, post: &Cpu6502, r: u8) -> bool {
        &&& (!flag_set(self.status, 0x40)) ==> self.branch_taken(post)
        &&& !(!flag_set(self.status, 0x40)) ==> post.unchanged_except(self, false, false, false, false, false, false, false, false)
        &&& r == 0
    }

    /// BVS: branch when flag_set(P, 0x40).
    pub open spec fn bvs_post(&self, post: &Cpu6502, r: u8) -> bool {
        &&& (flag_set(self.status, 0x40)) ==> self.branch_taken(post)
        &&& !(flag_set(self.status, 0x40)) ==> post.unchanged_except(self, false, false, false, false, false, false, false, false)
        &&& r == 0
    }

    /// CLC: clear flag C.
    pub open spec fn clc_post(&self, post: &Cpu6502, r: u8) -> bool {
        &&& post.status == set_bits(self.status, 0x01, false)
        &&& post.unchanged_except(self, false, false, false, false, false, true, false, false)
        &&& r == 0
    }

    /// CLD: clear flag D.
    pub open spec fn cld_post(&self, post: &Cpu6502, r: u8) -> bool {
        &&& post.status == set_bits(self.status, 0x08, false)
        &&& post.unchanged_except(self, false, false, false, false, false, true, false, false)
        &&& r == 0
    }

    /// CLI: clear flag I.
    pub open spec fn cli_post(&self, post: &Cpu6502, r: u8) -> bool {
        &&& post.status == set_bits(self.status, 0x04, false)
        &&& post.unchanged_except(self, false, false, false, false, false, true, false, false)
        &&& r == 0
    }

    /// CLV: clear flag V.
    pub open spec fn clv_post(&self, post: &Cpu6502, r: u8) -> bool {
        &&& post.status == set_bits(self.status, 0x40, false)
        &&& post.unchanged_except(self, false, false, false, false, false, true, false, false)
        &&& r == 0
    }

    /// CMP: compare the accumulator with the operand.
    pub open spec fn cmp_post(&self, post: &Cpu6502, r: u8) -> bool {
        &&& self.operand_read(post)
        &&& post.status == compare_status(self.status, self.a, post.fetched)
        &&& post.unchanged_except(self, false, false, false, false, false, true, false, true)
        &&& r == 1
    }

    /// CPX: compare X with the operand.
    pub open spec fn cpx_post(&self, post: &Cpu6502, r: u8) -> bool {
        &&& self.operand_read(post)
        &&& post.status == compare_status(self.status, self.x, post.fetched)
        &&& post.unchanged_except(self, false, false, false, false, false, true, false, true)
        &&& r == 0
    }

    /// CPY: compare Y with the operand.
    pub open spec fn cpy_post(&self, post: &Cpu6502, r: u8) -> bool {
        &&& self.operand_read(post)
        &&& post.status == compare_status(self.status, self.y, post.fetched)
        &&& post.unchanged_except(self, false, false, false, false, false, true, false, true)
        &&& r == 0
    }

    /// DEC: decrement memory.
    pub open spec fn dec_post(&self, post: &Cpu6502, r: u8) -> bool {
        let f = post.fetched;
        &&& self.rmw(post, f, dec8(f))
        &&& post.status == with_nz(self.status, dec8(f))
        &&& post.unchanged_except(self, false, false, false, false, false, true, false, true)
        &&& r == 0
    }

    /// DEX: decrement X.
    pub open spec fn dex_post(&self, post: &Cpu6502, r: u8) -> bool {
        &&& post.x == dec8(self.x)
        &&& post.status == with_nz(self.status, post.x)
        &&& post.unchanged_except(self, false, true, false, false, false, true, false, false)
        &&& r == 0
    }

    /// DEY: decrement Y.
    pub open spec fn dey_post(&self, post: &Cpu6502, r: u8) -> bool {
        &&& post.y == dec8(self.y)
        &&& post.status == with_nz(self.status, post.y)
        &&& post.unchanged_except(self, false, false, true, false, false, true, false, false)
        &&& r == 0
    }

    /// EOR: accumulator XOR operand.
    pub open spec fn eor_post(&self, post: &Cpu6502, r: u8) -> bool {
        &&& self.operand_read(post)
        &&& post.a == self.a ^ post.fetched
        &&& post.status == with_nz(self.status, post.a)
        &&& post.unchanged_except(self, true, false, false, false, false, true, false, true)
        &&& r == 1
    }

    /// INC: increment memory.
    pub open spec fn inc_post(&self, post: &Cpu6502, r: u8) -> bool {
        let f = post.fetched;
        &&& self.rmw(post, f, inc8(f))
        &&& post.status == with_nz(self.status, inc8(f))
        &&& post.unchanged_except(self, false, false, false, false, false, true, false, true)
        &&& r == 0
    }

    /// INX: increment X.
    pub open spec fn inx_post(&self, post: &Cpu6502, r: u8) -> bool {
        &&& post.x == inc8(self.x)
        &&& post.status == with_nz(self.status, post.x)
        &&& post.unchanged_except(self, false, true, false, false, false, true, false, false)
        &&& r == 0
    }

    /// INY: increment Y.
    pub open spec fn iny_post(&self, post: &Cpu6502, r: u8) -> bool {
        &&& post.y == inc8(self.y)
        &&& post.status == with_nz(self.status, post.y)
        &&& post.unchanged_except(self, false, false, true, false, false, true, false, false)
        &&& r == 0
    }

    /// JMP: jump to the effective address.
    pub open spec fn jmp_post(&self, post: &Cpu6502, r: u8) -> bool {
        &&& post.pc == self.addr_abs
        &&& post.unchanged_except(self, false, false, false, false, true, false, false, false)
        &&& r == 0
    }

    /// JSR: push the address of the last operand byte (high, then low) and jump.
    pub open spec fn jsr_post(&self, post: &Cpu6502, r: u8) -> bool {
        let ret = dec16(self.pc);
        &&& post.bus.ram@ == self.bus.ram@.update(ram_index(stack_addr(self.stkp)), (ret / 256) as u8).update(ram_index(stack_addr(dec8(self.stkp))), (ret % 256) as u8)
        &&& post.bus.same_except(&self.bus, true, false, false, false)
        &&& post.stkp == dec8(dec8(self.stkp))
        &&& post.pc == self.addr_abs
        &&& post.unchanged_except(self, false, false, false, true, true, false, false, true)
        &&& r == 0
    }

    /// LDA: load the accumulator.
    pub open spec fn lda_post(&self, post: &Cpu6502, r: u8) -> bool {
        &&& self.operand_read(post)
        &&& post.a == post.fetched
        &&& post.status == with_nz(self.status, post.fetched)
        &&& post.unchanged_except(self, true, false, false, false, false, true, false, true)
        &&& r == 1
    }

    /// LDX: load X.
    pub open spec fn ldx_post(&self, post: &Cpu6502, r: u8) -> bool {
        &&& self.operand_read(post)
        &&& post.x == post.fetched
        &&& post.status == with_nz(self.status, post.fetched)
        &&& post.unchanged_except(self, false, true, false, false, false, true, false, true)
        &&& r == 1
    }

    /// LDY: load Y.
    pub open spec fn ldy_post(&self, post: &Cpu6502, r: u8) -> bool {
        &&& self.operand_read(post)
        &&& post.y == post.fetched
        &&& post.status == with_nz(self.status, post.fetched)
        &&& post.unchanged_except(self, false, false, true, false, false, true, false, true)
        &&& r == 1
    }

    /// LSR: shift right; bit 0 goes to C. The target is the accumulator or memory.
    pub open spec fn lsr_post(&self, post: &Cpu6502, r: u8) -> bool {
        let f = post.fetched;
        let v = f / 2;
        &&& post.status == with_nz(set_bits(self.status, 0x01, f % 2 == 1), v)
        &&& implied(self.current_mode()) ==> post.a == v && f == self.a && post.bus.same_except(&self.bus, false, false, false, false)
        &&& !implied(self.current_mode()) ==> self.rmw(post, f, v) && post.a == self.a
        &&& post.unchanged_except(self, true, false, false, false, false, true, false, true)
        &&& r == 0
    }

    /// NOP: no operation; the unofficial forms with an operand read it.
    pub open spec fn nop_post(&self, post: &Cpu6502, r: u8) -> bool {
        &&& self.operand_read(post)
        &&& post.unchanged_except(self, false, false, false, false, false, false, false, true)
        &&& r == 1
    }

    /// ORA: accumulator OR operand.
    pub open spec fn ora_post(&self, post: &Cpu6502, r: u8) -> bool {
        &&& self.operand_read(post)
        &&& post.a == self.a | post.fetched
        &&& post.status == with_nz(self.status, post.a)
        &&& post.unchanged_except(self, true, false, false, false, false, true, false, true)
        &&& r == 1
    }

    /// PHA: push the accumulator.
    pub open spec fn pha_post(&self, post: &Cpu6502, r: u8) -> bool {
        &&& self.ram_written(post, stack_addr(self.stkp), self.a)
        &&& post.stkp == dec8(self.stkp)
        &&& post.unchanged_except(self, false, false, false, true, false, false, false, true)
        &&& r == 0
    }

    /// PHP: push the status with B and U set.
    pub open spec fn php_post(&self, post: &Cpu6502, r: u8) -> bool {
        &&& self.ram_written(post, stack_addr(self.stkp), self.status | 0x30)
        &&& post.stkp == dec8(self.stkp)
        &&& post.unchanged_except(self, false, false, false, true, false, false, false, true)
        &&& r == 0
    }

    /// PLA: pull the accumulator.
    pub open spec fn pla_post(&self, post: &Cpu6502, r: u8) -> bool {
        &&& post.stkp == inc8(self.stkp)
        &&& post.a == self.bus.ram@[ram_index(stack_addr(post.stkp))]
        &&& post.status == with_nz(self.status, post.a)
        &&& post.unchanged_except(self, true, false, false, true, false, true, false, false)
        &&& r == 0
    }

    /// PLP: pull the status, with B cleared and U set.
    pub open spec fn plp_post(&self, post: &Cpu6502, r: u8) -> bool {
        &&& post.stkp == inc8(self.stkp)
        &&& post.status == (self.bus.ram@[ram_index(stack_addr(post.stkp))] & !0x10u8) | 0x20
        &&& post.unchanged_except(self, false, false, false, true, false, true, false, false)
        &&& r == 0
    }

    /// ROL: rotate left through C. The target is the accumulator or memory.
    pub open spec fn rol_post(&self, post: &Cpu6502, r: u8) -> bool {
        let f = post.fetched;
        let v = rol_value(f, carry_in(self.status));
        &&& post.status == with_nz(set_bits(self.status, 0x01, f >= 128), v)
        &&& implied(self.current_mode()) ==> post.a == v && f == self.a && post.bus.same_except(&self.bus, false, false, false, false)
        &&& !implied(self.current_mode()) ==> self.rmw(post, f, v) && post.a == self.a
        &&& post.unchanged_except(self, true, false, false, false, false, true, false, true)
        &&& r == 0
    }

    /// ROR: rotate right through C. The target is the accumulator or memory.
    pub open spec fn ror_post(&self, post: &Cpu6502, r: u8) -> bool {
        let f = post.fetched;
        let v = ror_value(f, carry_in(self.status));
        &&& post.status == with_nz(set_bits(self.status, 0x01, f % 2 == 1), v)
        &&& implied(self.current_mode()) ==> post.a == v && f == self.a && post.bus.same_except(&self.bus, false, false, false, false)
        &&& !implied(self.current_mode()) ==> self.rmw(post, f, v) && post.a == self.a
        &&& post.unchanged_except(self, true, false, false, false, false, true, false, true)
        &&& r == 0
    }

    /// RTI: pull the status (B cleared, U set), then the program counter (low, then high).
    pub open spec fn rti_post(&self, post: &Cpu6502, r: u8) -> bool {
        let s1 = inc8(self.stkp);
        let s2 = inc8(s1);
        let s3 = inc8(s2);
        &&& post.status == (self.bus.ram@[ram_index(stack_addr(s1))] & !0x10u8) | 0x20
        &&& post.pc == word(self.bus.ram@[ram_index(stack_addr(s2))], self.bus.ram@[ram_index(stack_addr(s3))])
        &&& post.stkp == s3
        &&& post.unchanged_except(self, false, false, false, true, true, true, false, false)
        &&& r == 0
    }

    /// RTS: pull the return address (low, then high) and step past it.
    pub open spec fn rts_post(&self, post: &Cpu6502, r: u8) -> bool {
        let s1 = inc8(self.stkp);
        let s2 = inc8(s1);
        &&& post.pc == inc16(word(self.bus.ram@[ram_index(stack_addr(s1))], self.bus.ram@[ram_index(stack_addr(s2))]))
        &&& post.stkp == s2
        &&& post.unchanged_except(self, false, false, false, true, true, false, false, false)
        &&& r == 0
    }

    /// SBC: subtract the operand and the borrow from the accumulator.
    pub open spec fn sbc_post(&self, post: &Cpu6502, r: u8) -> bool {
        &&& self.operand_read(post)
        &&& post.a == sbc_value(self.a, post.fetched, carry_in(self.status))
        &&& post.status == sbc_status(self.status, self.a, post.fetched, carry_in(self.status))
        &&& post.unchanged_except(self, true, false, false, false, false, true, false, true)
        &&& r == 1
    }

    /// SEC: set flag C.
    pub open spec fn sec_post(&self, post: &Cpu6502, r: u8) -> bool {
        &&& post.status == set_bits(self.status, 0x01, true)
        &&& post.unchanged_except(self, false, false, false, false, false, true, false, false)
        &&& r == 0
    }

    /// SED: set flag D.
    pub open spec fn sed_post(&self, post: &Cpu6502, r: u8) -> bool {
        &&& post.status == set_bits(self.status, 0x08, true)
        &&& post.unchanged_except(self, false, false, false, false, false, true, false, false)
        &&& r == 0
    }

    /// SEI: set flag I.
    pub open spec fn sei_post(&self, post: &Cpu6502, r: u8) -> bool {
        &&& post.status == set_bits(self.status, 0x04, true)
        &&& post.unchanged_except(self, false, false, false, false, false, true, false, false)
        &&& r == 0
    }

    /// STA: store the accumulator.
    pub open spec fn sta_post(&self, post: &Cpu6502, r: u8) -> bool {
        &&& self.bus.write_post(&post.bus, self.addr_abs, self.a)
        &&& post.unchanged_except(self, false, false, false, false, false, false, false, true)
        &&& r == 0
    }

    /// STX: store X.
    pub open spec fn stx_post(&self, post: &Cpu6502, r: u8) -> bool {
        &&& self.bus.write_post(&post.bus, self.addr_abs, self.x)
        &&& post.unchanged_except(self, false, false, false, false, false, false, false, true)
        &&& r == 0
    }

    /// STY: store Y.
    pub open spec fn sty_post(&self, post: &Cpu6502, r: u8) -> bool {
        &&& self.bus.write_post(&post.bus, self.addr_abs, self.y)
        &&& post.unchanged_except(self, false, false, false, false, false, false, false, true)
        &&& r == 0
    }

    /// TAX: copy a to x, setting Z and N.
    pub open spec fn tax_post(&self, post: &Cpu6502, r: u8) -> bool {
        &&& post.x == self.a
        &&& post.status == with_nz(self.status, self.a)
        &&& post.unchanged_except(self, false, true, false, false, false, true, false, false)
        &&& r == 0
    }

    /// TAY: copy a to y, setting Z and N.
    pub open spec fn tay_post(&self, post: &Cpu6502, r: u8) -> bool {
        &&& post.y == self.a
        &&& post.status == with_nz(self.status, self.a)
        &&& post.unchanged_except(self, false, false, true, false, false, true, false, false)
        &&& r == 0
    }

    /// TSX: copy the stack pointer to x, setting Z and N.
    pub open spec fn tsx_post(&self, post: &Cpu6502, r: u8) -> bool {
        &&& post.x == self.stkp
        &&& post.status == with_nz(self.status, self.stkp)
        &&& post.unchanged_except(self, false, true, false, false, false, true, false, false)
        &&& r == 0
    }

    /// TXA: copy x to a, setting Z and N.
    pub open spec fn txa_post(&self, post: &Cpu6502, r: u8) -> bool {
        &&& post.a == self.x
        &&& post.status == with_nz(self.status, self.x)
        &&& post.unchanged_except(self, true, false, false, false, false, true, false, false)
        &&& r == 0
    }

    /// TXS: copy x to the stack pointer.
    pub open spec fn txs_post(&self, post: &Cpu6502, r: u8) -> bool {
        &&& post.stkp == self.x
        &&& post.unchanged_except(self, false, false, false, true, false, false, false, false)
        &&& r == 0
    }

    /// TYA: copy y to a, setting Z and N.
    pub open spec fn tya_post(&self, post: &Cpu6502, r: u8) -> bool {
        &&& post.a == self.y
        &&& post.status == with_nz(self.status, self.y)
        &&& post.unchanged_except(self, true, false, false, false, false, true, false, false)
        &&& r == 0
    }

    /// ALR: AND the operand into the accumulator, then shift it right.
    pub open spec fn alr_post(&self, post: &Cpu6502, r: u8) -> bool {
        let t = self.a & post.fetched;
        &&& self.operand_read(post)
        &&& post.a == t / 2
        &&& post.status == with_nz(set_bits(self.status, 0x01, t % 2 == 1), post.a)
        &&& post.unchanged_except(self, true, false, false, false, false, true, false, true)
        &&& r == 0
    }

    /// ANC: AND the operand into the accumulator; C copies the new N.
    pub open spec fn anc_post(&self, post: &Cpu6502, r: u8) -> bool {
        &&& self.operand_read(post)
        &&& post.a == self.a & post.fetched
        &&& post.status == set_bits(with_nz(self.status, post.a), 0x01, post.a & 0x80 != 0)
        &&& post.unchanged_except(self, true, false, false, false, false, true, false, true)
        &&& r == 0
    }

    /// ARR: AND the operand into the accumulator, then rotate it right; C is bit 6 and V is bit 6 XOR bit 5.
    pub open spec fn arr_post(&self, post: &Cpu6502, r: u8) -> bool {
        let t = self.a & post.fetched;
        let v = ror_value(t, carry_in(self.status));
        &&& self.operand_read(post)
        &&& post.a == v
        &&& post.status == set_bits(with_nz(set_bits(self.status, 0x01, v & 0x40 != 0), v), 0x40, (v & 0x40 != 0) != (v & 0x20 != 0))
        &&& post.unchanged_except(self, true, false, false, false, false, true, false, true)
        &&& r == 0
    }

    /// AXS: X becomes (accumulator AND X) minus the operand, without borrow; C as in a compare.
    pub open spec fn axs_post(&self, post: &Cpu6502, r: u8) -> bool {
        let t = self.a & self.x;
        &&& self.operand_read(post)
        &&& post.x == sub8(t, post.fetched)
        &&& post.status == compare_status(self.status, t, post.fetched)
        &&& post.unchanged_except(self, false, true, false, false, false, true, false, true)
        &&& r == 0
    }

    /// LAX: load the accumulator and X.
    pub open spec fn lax_post(&self, post: &Cpu6502, r: u8) -> bool {
        &&& self.operand_read(post)
        &&& post.a == post.fetched
        &&& post.x == post.fetched
        &&& post.status == with_nz(self.status, post.fetched)
        &&& post.unchanged_except(self, true, true, false, false, false, true, false, true)
        &&& r == 1
    }

    /// SAX: store accumulator AND X.
    pub open spec fn sax_post(&self, post: &Cpu6502, r: u8) -> bool {
        &&& self.bus.write_post(&post.bus, self.addr_abs, self.a & self.x)
        &&& post.unchanged_except(self, false, false, false, false, false, false, false, true)
        &&& r == 0
    }

    /// DCP: decrement memory, then compare the accumulator with it.
    pub open spec fn dcp_post(&self, post: &Cpu6502, r: u8) -> bool {
        let f = post.fetched;
        let v = dec8(f);
        &&& self.rmw(post, f, v)
        &&& post.status == compare_status(self.status, self.a, v) && post.a == self.a
        &&& post.unchanged_except(self, false, false, false, false, false, true, false, true)
        &&& r == 0
    }

    /// ISC: increment memory, then subtract it from the accumulator.
    pub open spec fn isc_post(&self, post: &Cpu6502, r: u8) -> bool {
        let f = post.fetched;
        let v = inc8(f);
        &&& self.rmw(post, f, v)
        &&& post.a == sbc_value(self.a, v, carry_in(self.status)) && post.status == sbc_status(self.status, self.a, v, carry_in(self.status))
        &&& post.unchanged_except(self, true, false, false, false, false, true, false, true)
        &&& r == 0
    }

    /// RLA: rotate memory left, then AND it into the accumulator.
    pub open spec fn rla_post(&self, post: &Cpu6502, r: u8) -> bool {
        let f = post.fetched;
        let v = rol_value(f, carry_in(self.status));
        &&& self.rmw(post, f, v)
        &&& post.a == self.a & v && post.status == with_nz(set_bits(self.status, 0x01, f >= 128), post.a)
        &&& post.unchanged_except(self, true, false, false, false, false, true, false, true)
        &&& r == 0
    }

    /// RRA: rotate memory right, then add it to the accumulator with the carry it shifted out.
    pub open spec fn rra_post(&self, post: &Cpu6502, r: u8) -> bool {
        let f = post.fetched;
        let v = ror_value(f, carry_in(self.status));
        &&& self.rmw(post, f, v)
        &&& post.a == adc_value(self.a, v, f as int % 2) && post.status == adc_status(set_bits(self.status, 0x01, f % 2 == 1), self.a, v, f as int % 2)
        &&& post.unchanged_except(self, true, false, false, false, false, true, false, true)
        &&& r == 0
    }

    /// SLO: shift memory left, then OR it into the accumulator.
    pub open spec fn slo_post(&self, post: &Cpu6502, r: u8) -> bool {
        let f = post.fetched;
        let v = asl_value(f);
        &&& self.rmw(post, f, v)
        &&& post.a == self.a | v && post.status == with_nz(set_bits(self.status, 0x01, f >= 128), post.a)
        &&& post.unchanged_except(self, true, false, false, false, false, true, false, true)
        &&& r == 0
    }

    /// SRE: shift memory right, then XOR it into the accumulator.
    pub open spec fn sre_post(&self, post: &Cpu6502, r: u8) -> bool {
        let f = post.fetched;
        let v = f / 2;
        &&& self.rmw(post, f, v)
        &&& post.a == self.a ^ v && post.status == with_nz(set_bits(self.status, 0x01, f % 2 == 1), post.a)
        &&& post.unchanged_except(self, true, false, false, false, false, true, false, true)
        &&& r == 0
    }

    /// SKB: read an immediate operand and ignore it.
    pub open spec fn skb_post(&self, post: &Cpu6502, r: u8) -> bool {
        &&& self.operand_read(post)
        &&& post.unchanged_except(self, false, false, false, false, false, false, false, true)
        &&& r == 1
    }

    /// IGN: read a memory operand and ignore it.
    pub open spec fn ign_post(&self, post: &Cpu6502, r: u8) -> bool {
        &&& self.operand_read(post)
        &&& post.unchanged_except(self, false, false, false, false, false, false, false, true)
        &&& r == 1
    }

    /// An opcode that halts the real CPU: here it does nothing.
    pub open spec fn xxx_post(&self, post: &Cpu6502, r: u8) -> bool {
        &&& post.unchanged_except(self, false, false, false, false, false, false, false, false)
        &&& r == 0
    }

    fn adc(&mut self) -> (r: u8)
        requires
            old(self).wf(),
        ensures
            final(self).wf(),
            old(self).adc_post(final(self), r),
    {
        self.fetch();
        let (value, status) = add_with_carry(self.status, self.a, self.fetched);
        self.a = value;
        self.status = status;
        1
    }

    fn and(&mut self) -> (r: u8)
        requires
            old(self).wf(),
        ensures
            final(self).wf(),
            old(self).and_post(final(self), r),
    {
        self.fetch();
        self.a = self.a & self.fetched;
        self.set_nz(self.a);
        1
    }

    fn asl(&mut self) -> (r: u8)
        requires
            old(self).wf(),
        ensures
            final(self).wf(),
            old(self).asl_post(final(self), r),
    {
        self.fetch();
        let ghost mid = self.bus;
        let f = self.fetched;
        let v: u8 = ((f as u16 * 2) % 256) as u8;
        let c = f >= 128;
        self.set_flag(Flags6502::C, c);
        self.set_nz(v);
        self.store_result(v);
        proof {
            if !implied(old(self).current_mode()) {
                assert(old(self).bus.read_post(&mid, old(self).addr_abs, false, f));
            }
        }
        0
    }

    fn bcc(&mut self) -> (r: u8)
        requires
            old(self).wf(),
            old(self).cycles < 254,
        ensures
            final(self).wf(),
            old(self).bcc_post(final(self), r),
    {
        if self.get_flag(Flags6502::C) == 0 {
            self.pc_branch();
        }
        0
    }

    fn bcs(&mut self) -> (r: u8)
        requires
            old(self).wf(),
            old(self).cycles < 254,
        ensures
            final(self).wf(),
            old(self).bcs_post(final(self), r),
    {
        if self.get_flag(Flags6502::C) == 1 {
            self.pc_branch();
        }
        0
    }

    fn beq(&mut self) -> (r: u8)
        requires
            old(self).wf(),
            old(self).cycles < 254,
        ensures
            final(self).wf(),
            old(self).beq_post(final(self), r),
    {
        if self.get_flag(Flags6502::Z) == 1 {
            self.pc_branch();
        }
        0
    }

    fn bit(&mut self) -> (r: u8)
        requires
            old(self).wf(),
        ensures
            final(self).wf(),
            old(self).bit_post(final(self), r),
    {
        self.fetch();
        self.set_flag(Flags6502::Z, self.a & self.fetched == 0);
        self.set_flag(Flags6502::N, self.fetched & 0x80 != 0);
        self.set_flag(Flags6502::V, self.fetched & 0x40 != 0);
        0
    }

    fn bmi(&mut self) -> (r: u8)
        requires
            old(self).wf(),
            old(self).cycles < 254,
        ensures
            final(self).wf(),
            old(self).bmi_post(final(self), r),
    {
        if self.get_flag(Flags6502::N) == 1 {
            self.pc_branch();
        }
        0
    }

    fn bne(&mut self) -> (r: u8)
        requires
            old(self).wf(),
            old(self).cycles < 254,
        ensures
            final(self).wf(),
            old(self).bne_post(final(self), r),
    {
        if self.get_flag(Flags6502::Z) == 0 {
            self.pc_branch();
        }
        0
    }

    fn bpl(&mut self) -> (r: u8)
        requires
            old(self).wf(),
            old(self).cycles < 254,
        ensures
            final(self).wf(),
            old(self).bpl_post(final(self), r),
    {
        if self.get_flag(Flags6502::N) == 0 {
            self.pc_branch();
        }
        0
    }

    fn brk(&mut self) -> (r: u8)
        requires
            old(self).wf(),
        ensures
            final(self).wf(),
            old(self).brk_post(final(self), r),
    {
        self.pc_next();
        self.stkp_push((self.pc / 256) as u8);
        self.stkp_push((self.pc % 256) as u8);
        self.stkp_push(self.status | 0x30);
        self.set_flag(Flags6502::I, true);
        self.pc = self.read_16b(0xFFFE);
        0
    }

    fn bvc(&mut self) -> (r: u8)
        requires
            old(self).wf(),
            old(self).cycles < 254,
        ensures
            final(self).wf(),
            old(self).bvc_post(final(self), r),
    {
        if self.get_flag(Flags6502::V) == 0 {
            self.pc_branch();
        }
        0
    }

    fn bvs(&mut self) -> (r: u8)
        requires
            old(self).wf(),
            old(self).cycles < 254,
        ensures
            final(self).wf(),
            old(self).bvs_post(final(self), r),
    {
        if self.get_flag(Flags6502::V) == 1 {
            self.pc_branch();
        }
        0
    }

    fn clc(&mut self) -> (r: u8)
        requires
            old(self).wf(),
        ensures
            final(self).wf(),
            old(self).clc_post(final(self), r),
    {
        self.set_flag(Flags6502::C, false);
        0
    }

    fn cld(&mut self) -> (r: u8)
        requires
            old(self).wf(),
        ensures
            final(self).wf(),
            old(self).cld_post(final(self), r),
    {
        self.set_flag(Flags6502::D, false);
        0
    }

    fn cli(&mut self) -> (r: u8)
        requires
            old(self).wf(),
        ensures
            final(self).wf(),
            old(self).cli_post(final(self), r),
    {
        self.set_flag(Flags6502::I, false);
        0
    }

    fn clv(&mut self) -> (r: u8)
        requires
            old(self).wf(),
        ensures
            final(self).wf(),
            old(self).clv_post(final(self), r),
    {
        self.set_flag(Flags6502::V, false);
        0
    }

    fn cmp(&mut self) -> (r: u8)
        requires
            old(self).wf(),
        ensures
            final(self).wf(),
            old(self).cmp_post(final(self), r),
    {
        self.fetch();
        let d = sub8_exec(self.a, self.fetched);
        self.set_flag(Flags6502::C, self.a >= self.fetched);
        self.set_nz(d);
        1
    }

    fn cpx(&mut self) -> (r: u8)
        requires
            old(self).wf(),
        ensures
            final(self).wf(),
            old(self).cpx_post(final(self), r),
    {
        self.fetch();
        let d = sub8_exec(self.x, self.fetched);
        self.set_flag(Flags6502::C, self.x >= self.fetched);
        self.set_nz(d);
        0
    }

    fn cpy(&mut self) -> (r: u8)
        requires
            old(self).wf(),
        ensures
            final(self).wf(),
            old(self).cpy_post(final(self), r),
    {
        self.fetch();
        let d = sub8_exec(self.y, self.fetched);
        self.set_flag(Flags6502::C, self.y >= self.fetched);
        self.set_nz(d);
        0
    }

    fn dec(&mut self) -> (r: u8)
        requires
            old(self).wf(),
            !implied(old(self).current_mode()),
        ensures
            final(self).wf(),
            old(self).dec_post(final(self), r),
    {
        self.fetch();
        let ghost mid = self.bus;
        let f = self.fetched;
        let v = wrapping_dec8(f);
        self.write(self.addr_abs, v);
        self.set_nz(v);
        proof {
            assert(old(self).bus.read_post(&mid, old(self).addr_abs, false, f));
        }
        0
    }

    fn dex(&mut self) -> (r: u8)
        requires
            old(self).wf(),
        ensures
            final(self).wf(),
            old(self).dex_post(final(self), r),
    {
        self.x = wrapping_dec8(self.x);
        self.set_nz(self.x);
        0
    }

    fn dey(&mut self) -> (r: u8)
        requires
            old(self).wf(),
        ensures
            final(self).wf(),
            old(self).dey_post(final(self), r),
    {
        self.y = wrapping_dec8(self.y);
        self.set_nz(self.y);
        0
    }

    fn eor(&mut self) -> (r: u8)
        requires
            old(self).wf(),
        ensures
            final(self).wf(),
            old(self).eor_post(final(self), r),
    {
        self.fetch();
        self.a = self.a ^ self.fetched;
        self.set_nz(self.a);
        1
    }

    fn inc(&mut self) -> (r: u8)
        requires
            old(self).wf(),
            !implied(old(self).current_mode()),
        ensures
            final(self).wf(),
            old(self).inc_post(final(self), r),
    {
        self.fetch();
        let ghost mid = self.bus;
        let f = self.fetched;
        let v = wrapping_inc8(f);
        self.write(self.addr_abs, v);
        self.set_nz(v);
        proof {
            assert(old(self).bus.read_post(&mid, old(self).addr_abs, false, f));
        }
        0
    }

    fn inx(&mut self) -> (r: u8)
        requires
            old(self).wf(),
        ensures
            final(self).wf(),
            old(self).inx_post(final(self), r),
    {
        self.x = wrapping_inc8(self.x);
        self.set_nz(self.x);
        0
    }

    fn iny(&mut self) -> (r: u8)
        requires
            old(self).wf(),
        ensures
            final(self).wf(),
            old(self).iny_post(final(self), r),
    {
        self.y = wrapping_inc8(self.y);
        self.set_nz(self.y);
        0
    }

    fn jmp(&mut self) -> (r: u8)
        requires
            old(self).wf(),
        ensures
            final(self).wf(),
            old(self).jmp_post(final(self), r),
    {
        self.pc = self.addr_abs;
        0
    }

    fn jsr(&mut self) -> (r: u8)
        requires
            old(self).wf(),
        ensures
            final(self).wf(),
            old(self).jsr_post(final(self), r),
    {
        self.pc_back();
        self.stkp_push((self.pc / 256) as u8);
        self.stkp_push((self.pc % 256) as u8);
        self.pc = self.addr_abs;
        0
    }

    fn lda(&mut self) -> (r: u8)
        requires
            old(self).wf(),
        ensures
            final(self).wf(),
            old(self).lda_post(final(self), r),
    {
        self.fetch();
        self.a = self.fetched;
        self.set_nz(self.fetched);
        1
    }

    fn ldx(&mut self) -> (r: u8)
        requires
            old(self).wf(),
        ensures
            final(self).wf(),
            old(self).ldx_post(final(self), r),
    {
        self.fetch();
        self.x = self.fetched;
        self.set_nz(self.fetched);
        1
    }

    fn ldy(&mut self) -> (r: u8)
        requires
            old(self).wf(),
        ensures
            final(self).wf(),
            old(self).ldy_post(final(self), r),
    {
        self.fetch();
        self.y = self.fetched;
        self.set_nz(self.fetched);
        1
    }

    fn lsr(&mut self) -> (r: u8)
        requires
            old(self).wf(),
        ensures
            final(self).wf(),
            old(self).lsr_post(final(self), r),
    {
        self.fetch();
        let ghost mid = self.bus;
        let f = self.fetched;
        let v: u8 = f / 2;
        let c = f % 2 == 1;
        self.set_flag(Flags6502::C, c);
        self.set_nz(v);
        self.store_result(v);
        proof {
            if !implied(old(self).current_mode()) {
                assert(old(self).bus.read_post(&mid, old(self).addr_abs, false, f));
            }
        }
        0
    }

    fn nop(&mut self) -> (r: u8)
        requires
            old(self).wf(),
        ensures
            final(self).wf(),
            old(self).nop_post(final(self), r),
    {
        self.fetch();
        1
    }

    fn ora(&mut self) -> (r: u8)
        requires
            old(self).wf(),
        ensures
            final(self).wf(),
            old(self).ora_post(final(self), r),
    {
        self.fetch();
        self.a = self.a | self.fetched;
        self.set_nz(self.a);
        1
    }

    fn pha(&mut self) -> (r: u8)
        requires
            old(self).wf(),
        ensures
            final(self).wf(),
            old(self).pha_post(final(self), r),
    {
        self.stkp_push(self.a);
        0
    }

    fn php(&mut self) -> (r: u8)
        requires
            old(self).wf(),
        ensures
            final(self).wf(),
            old(self).php_post(final(self), r),
    {
        self.stkp_push(self.status | 0x30);
        0
    }

    fn pla(&mut self) -> (r: u8)
        requires
            old(self).wf(),
        ensures
            final(self).wf(),
            old(self).pla_post(final(self), r),
    {
        self.a = self.stkp_pop();
        self.set_nz(self.a);
        0
    }

    fn plp(&mut self) -> (r: u8)
        requires
            old(self).wf(),
        ensures
            final(self).wf(),
            old(self).plp_post(final(self), r),
    {
        let p = self.stkp_pop();
        self.status = (p & !0x10u8) | 0x20;
        0
    }

    fn rol(&mut self) -> (r: u8)
        requires
            old(self).wf(),
        ensures
            final(self).wf(),
            old(self).rol_post(final(self), r),
    {
        self.fetch();
        let ghost mid = self.bus;
        let f = self.fetched;
        let v: u8 = ((f as u16 * 2 + self.get_flag(Flags6502::C) as u16) % 256) as u8;
        let c = f >= 128;
        self.set_flag(Flags6502::C, c);
        self.set_nz(v);
        self.store_result(v);
        proof {
            if !implied(old(self).current_mode()) {
                assert(old(self).bus.read_post(&mid, old(self).addr_abs, false, f));
            }
        }
        0
    }

    fn ror(&mut self) -> (r: u8)
        requires
            old(self).wf(),
        ensures
            final(self).wf(),
            old(self).ror_post(final(self), r),
    {
        self.fetch();
        let ghost mid = self.bus;
        let f = self.fetched;
        let v: u8 = f / 2 + self.get_flag(Flags6502::C) * 128;
        let c = f % 2 == 1;
        self.set_flag(Flags6502::C, c);
        self.set_nz(v);
        self.store_result(v);
        proof {
            if !implied(old(self).current_mode()) {
                assert(old(self).bus.read_post(&mid, old(self).addr_abs, false, f));
            }
        }
        0
    }

    fn rti(&mut self) -> (r: u8)
        requires
            old(self).wf(),
        ensures
            final(self).wf(),
            old(self).rti_post(final(self), r),
    {
        let p = self.stkp_pop();
        self.status = (p & !0x10u8) | 0x20;
        let lo = self.stkp_pop() as u16;
        let hi = self.stkp_pop() as u16;
        self.pc = hi * 256 + lo;
        0
    }

    fn rts(&mut self) -> (r: u8)
        requires
            old(self).wf(),
        ensures
            final(self).wf(),
            old(self).rts_post(final(self), r),
    {
        let lo = self.stkp_pop() as u16;
        let hi = self.stkp_pop() as u16;
        self.pc = hi * 256 + lo;
        self.pc_next();
        0
    }

    fn sbc(&mut self) -> (r: u8)
        requires
            old(self).wf(),
        ensures
            final(self).wf(),
            old(self).sbc_post(final(self), r),
    {
        self.fetch();
        let (value, status) = subtract_with_carry(self.status, self.a, self.fetched);
        self.a = value;
        self.status = status;
        1
    }

    fn sec(&mut self) -> (r: u8)
        requires
            old(self).wf(),
        ensures
            final(self).wf(),
            old(self).sec_post(final(self), r),
    {
        self.set_flag(Flags6502::C, true);
        0
    }

    fn sed(&mut self) -> (r: u8)
        requires
            old(self).wf(),
        ensures
            final(self).wf(),
            old(self).sed_post(final(self), r),
    {
        self.set_flag(Flags6502::D, true);
        0
    }

    fn sei(&mut self) -> (r: u8)
        requires
            old(self).wf(),
        ensures
            final(self).wf(),
            old(self).sei_post(final(self), r),
    {
        self.set_flag(Flags6502::I, true);
        0
    }

    fn sta(&mut self) -> (r: u8)
        requires
            old(self).wf(),
        ensures
            final(self).wf(),
            old(self).sta_post(final(self), r),
    {
        self.write(self.addr_abs, self.a);
        0
    }

    fn stx(&mut self) -> (r: u8)
        requires
            old(self).wf(),
        ensures
            final(self).wf(),
            old(self).stx_post(final(self), r),
    {
        self.write(self.addr_abs, self.x);
        0
    }

    fn sty(&mut self) -> (r: u8)
        requires
            old(self).wf(),
        ensures
            final(self).wf(),
            old(self).sty_post(final(self), r),
    {
        self.write(self.addr_abs, self.y);
        0
    }

    fn tax(&mut self) -> (r: u8)
        requires
            old(self).wf(),
        ensures
            final(self).wf(),
            old(self).tax_post(final(self), r),
    {
        self.x = self.a;
        self.set_nz(self.x);
        0
    }

    fn tay(&mut self) -> (r: u8)
        requires
            old(self).wf(),
        ensures
            final(self).wf(),
            old(self).tay_post(final(self), r),
    {
        self.y = self.a;
        self.set_nz(self.y);
        0
    }

    fn tsx(&mut self) -> (r: u8)
        requires
            old(self).wf(),
        ensures
            final(self).wf(),
            old(self).tsx_post(final(self), r),
    {
        self.x = self.stkp;
        self.set_nz(self.x);
        0
    }

    fn txa(&mut self) -> (r: u8)
        requires
            old(self).wf(),
        ensures
            final(self).wf(),
            old(self).txa_post(final(self), r),
    {
        self.a = self.x;
        self.set_nz(self.a);
        0
    }

    fn txs(&mut self) -> (r: u8)
        requires
            old(self).wf(),
        ensures
            final(self).wf(),
            old(self).txs_post(final(self), r),
    {
        self.stkp = self.x;
        0
    }

    fn tya(&mut self) -> (r: u8)
        requires
            old(self).wf(),
        ensures
            final(self).wf(),
            old(self).tya_post(final(self), r),
    {
        self.a = self.y;
        self.set_nz(self.a);
        0
    }

    fn alr(&mut self) -> (r: u8)
        requires
            old(self).wf(),
        ensures
            final(self).wf(),
            old(self).alr_post(final(self), r),
    {
        self.fetch();
        let t = self.a & self.fetched;
        self.set_flag(Flags6502::C, t % 2 == 1);
        self.a = t / 2;
        self.set_nz(self.a);
        0
    }

    fn anc(&mut self) -> (r: u8)
        requires
            old(self).wf(),
        ensures
            final(self).wf(),
            old(self).anc_post(final(self), r),
    {
        self.fetch();
        self.a = self.a & self.fetched;
        self.set_nz(self.a);
        self.set_flag(Flags6502::C, self.a & 0x80 != 0);
        0
    }

    fn arr(&mut self) -> (r: u8)
        requires
            old(self).wf(),
        ensures
            final(self).wf(),
            old(self).arr_post(final(self), r),
    {
        self.fetch();
        let t = self.a & self.fetched;
        let v: u8 = t / 2 + self.get_flag(Flags6502::C) * 128;
        self.set_flag(Flags6502::C, v & 0x40 != 0);
        self.set_nz(v);
        self.set_flag(Flags6502::V, (v & 0x40 != 0) != (v & 0x20 != 0));
        self.a = v;
        0
    }

    fn axs(&mut self) -> (r: u8)
        requires
            old(self).wf(),
        ensures
            final(self).wf(),
            old(self).axs_post(final(self), r),
    {
        self.fetch();
        let t = self.a & self.x;
        let d = sub8_exec(t, self.fetched);
        self.set_flag(Flags6502::C, t >= self.fetched);
        self.set_nz(d);
        self.x = d;
        0
    }

    fn lax(&mut self) -> (r: u8)
        requires
            old(self).wf(),
        ensures
            final(self).wf(),
            old(self).lax_post(final(self), r),
    {
        self.fetch();
        self.a = self.fetched;
        self.x = self.fetched;
        self.set_nz(self.fetched);
        1
    }

    fn sax(&mut self) -> (r: u8)
        requires
            old(self).wf(),
        ensures
            final(self).wf(),
            old(self).sax_post(final(self), r),
    {
        self.write(self.addr_abs, self.a & self.x);
        0
    }

    fn dcp(&mut self) -> (r: u8)
        requires
            old(self).wf(),
            !implied(old(self).current_mode()),
        ensures
            final(self).wf(),
            old(self).dcp_post(final(self), r),
    {
        self.fetch();
        let ghost mid = self.bus;
        let f = self.fetched;
        let v = wrapping_dec8(f);
        self.write(self.addr_abs, v);
        let d = sub8_exec(self.a, v);
        self.set_flag(Flags6502::C, self.a >= v);
        self.set_nz(d);
        proof {
            assert(old(self).bus.read_post(&mid, old(self).addr_abs, false, f));
        }
        0
    }

    fn isc(&mut self) -> (r: u8)
        requires
            old(self).wf(),
            !implied(old(self).current_mode()),
        ensures
            final(self).wf(),
            old(self).isc_post(final(self), r),
    {
        self.fetch();
        let ghost mid = self.bus;
        let f = self.fetched;
        let v = wrapping_inc8(f);
        self.write(self.addr_abs, v);
        let (value, status) = subtract_with_carry(self.status, self.a, v);
        self.a = value;
        self.status = status;
        proof {
            assert(old(self).bus.read_post(&mid, old(self).addr_abs, false, f));
        }
        0
    }

    fn rla(&mut self) -> (r: u8)
        requires
            old(self).wf(),
            !implied(old(self).current_mode()),
        ensures
            final(self).wf(),
            old(self).rla_post(final(self), r),
    {
        self.fetch();
        let ghost mid = self.bus;
        let f = self.fetched;
        let v: u8 = ((f as u16 * 2 + self.get_flag(Flags6502::C) as u16) % 256) as u8;
        self.write(self.addr_abs, v);
        self.set_flag(Flags6502::C, f >= 128);
        self.a = self.a & v;
        self.set_nz(self.a);
        proof {
            assert(old(self).bus.read_post(&mid, old(self).addr_abs, false, f));
        }
        0
    }

    fn rra(&mut self) -> (r: u8)
        requires
            old(self).wf(),
            !implied(old(self).current_mode()),
        ensures
            final(self).wf(),
            old(self).rra_post(final(self), r),
    {
        self.fetch();
        let ghost mid = self.bus;
        let f = self.fetched;
        let v: u8 = f / 2 + self.get_flag(Flags6502::C) * 128;
        self.write(self.addr_abs, v);
        self.set_flag(Flags6502::C, f % 2 == 1);
        proof {
            crate::alu::lemma_carry_of_set(old(self).status, f % 2 == 1);
        }
        let (value, status) = add_with_carry(self.status, self.a, v);
        self.a = value;
        self.status = status;
        proof {
            assert(old(self).bus.read_post(&mid, old(self).addr_abs, false, f));
        }
        0
    }

    fn slo(&mut self) -> (r: u8)
        requires
            old(self).wf(),
            !implied(old(self).current_mode()),
        ensures
            final(self).wf(),
            old(self).slo_post(final(self), r),
    {
        self.fetch();
        let ghost mid = self.bus;
        let f = self.fetched;
        let v: u8 = ((f as u16 * 2) % 256) as u8;
        self.write(self.addr_abs, v);
        self.set_flag(Flags6502::C, f >= 128);
        self.a = self.a | v;
        self.set_nz(self.a);
        proof {
            assert(old(self).bus.read_post(&mid, old(self).addr_abs, false, f));
        }
        0
    }

    fn sre(&mut self) -> (r: u8)
        requires
            old(self).wf(),
            !implied(old(self).current_mode()),
        ensures
            final(self).wf(),
            old(self).sre_post(final(self), r),
    {
        self.fetch();
        let ghost mid = self.bus;
        let f = self.fetched;
        let v: u8 = f / 2;
        self.write(self.addr_abs, v);
        self.set_flag(Flags6502::C, f % 2 == 1);
        self.a = self.a ^ v;
        self.set_nz(self.a);
        proof {
            assert(old(self).bus.read_post(&mid, old(self).addr_abs, false, f));
        }
        0
    }

    fn skb(&mut self) -> (r: u8)
        requires
            old(self).wf(),
        ensures
            final(self).wf(),
            old(self).skb_post(final(self), r),
    {
        self.fetch();
        1
    }

    fn ign(&mut self) -> (r: u8)
        requires
            old(self).wf(),
        ensures
            final(self).wf(),
            old(self).ign_post(final(self), r),
    {
        self.fetch();
        1
    }

    fn xxx(&mut self) -> (r: u8)
        requires
            old(self).wf(),
        ensures
            final(self).wf(),
            old(self).xxx_post(final(self), r),
    {
        0
    }

    /// What operation `code` does, by operation.
    pub open spec fn op_post(&self, post: &Cpu6502, code: Opcode, r: u8) -> bool {
        match code {
            Opcode::ADC => self.adc_post(post, r),
            Opcode::AND => self.and_post(post, r),
            Opcode::ASL => self.asl_post(post, r),
            Opcode::BCC => self.bcc_post(post, r),
            Opcode::BCS => self.bcs_post(post, r),
            Opcode::BEQ => self.beq_post(post, r),
            Opcode::BIT => self.bit_post(post, r),
            Opcode::BMI => self.bmi_post(post, r),
            Opcode::BNE => self.bne_post(post, r),
            Opcode::BPL => self.bpl_post(post, r),
            Opcode::BRK => self.brk_post(post, r),
            Opcode::BVC => self.bvc_post(post, r),
            Opcode::BVS => self.bvs_post(post, r),
            Opcode::CLC => self.clc_post(post, r),
            Opcode::CLD => self.cld_post(post, r),
            Opcode::CLI => self.cli_post(post, r),
            Opcode::CLV => self.clv_post(post, r),
            Opcode::CMP => self.cmp_post(post, r),
            Opcode::CPX => self.cpx_post(post, r),
            Opcode::CPY => self.cpy_post(post, r),
            Opcode::DEC => self.dec_post(post, r),
            Opcode::DEX => self.dex_post(post, r),
            Opcode::DEY => self.dey_post(post, r),
            Opcode::EOR => self.eor_post(post, r),
            Opcode::INC => self.inc_post(post, r),
            Opcode::INX => self.inx_post(post, r),
            Opcode::INY => self.iny_post(post, r),
            Opcode::JMP => self.jmp_post(post, r),
            Opcode::JSR => self.jsr_post(post, r),
            Opcode::LDA => self.lda_post(post, r),
            Opcode::LDX => self.ldx_post(post, r),
            Opcode::LDY => self.ldy_post(post, r),
            Opcode::LSR => self.lsr_post(post, r),
            Opcode::NOP => self.nop_post(post, r),
            Opcode::ORA => self.ora_post(post, r),
            Opcode::PHA => self.pha_post(post, r),
            Opcode::PHP => self.php_post(post, r),
            Opcode::PLA => self.pla_post(post, r),
            Opcode::PLP => self.plp_post(post, r),
            Opcode::ROL => self.rol_post(post, r),
            Opcode::ROR => self.ror_post(post, r),
            Opcode::RTI => self.rti_post(post, r),
            Opcode::RTS => self.rts_post(post, r),
            Opcode::SBC => self.sbc_post(post, r),
            Opcode::SEC => self.sec_post(post, r),
            Opcode::SED => self.sed_post(post, r),
            Opcode::SEI => self.sei_post(post, r),
            Opcode::STA => self.sta_post(post, r),
            Opcode::STX => self.stx_post(post, r),
            Opcode::STY => self.sty_post(post, r),
            Opcode::TAX => self.tax_post(post, r),
            Opcode::TAY => self.tay_post(post, r),
            Opcode::TSX => self.tsx_post(post, r),
            Opcode::TXA => self.txa_post(post, r),
            Opcode::TXS => self.txs_post(post, r),
            Opcode::TYA => self.tya_post(post, r),
            Opcode::ALR => self.alr_post(post, r),
            Opcode::ANC => self.anc_post(post, r),
            Opcode::ARR => self.arr_post(post, r),
            Opcode::AXS => self.axs_post(post, r),
            Opcode::LAX => self.lax_post(post, r),
            Opcode::SAX => self.sax_post(post, r),
            Opcode::DCP => self.dcp_post(post, r),
            Opcode::ISC => self.isc_post(post, r),
            Opcode::RLA => self.rla_post(post, r),
            Opcode::RRA => self.rra_post(post, r),
            Opcode::SLO => self.slo_post(post, r),
            Opcode::SRE => self.sre_post(post, r),
            Opcode::SKB => self.skb_post(post, r),
            Opcode::IGN => self.ign_post(post, r),
            Opcode::XXX => self.xxx_post(post, r),
        }
    }

    /// Executes operation `code`, the operation of the current opcode, on the operand
    /// already addressed; returns 1 when the operation takes the page-crossing cycle.
    pub fn opcode(&mut self, code: Opcode) -> (r: u8)
        requires
            old(self).wf(),
            old(self).cycles < 254,
            decode(old(self).opcode).0 == code,
        ensures
            final(self).wf(),
            old(self).op_post(final(self), code, r),
            r <= 1,
    {
        match code {
            Opcode::ADC => self.adc(),
            Opcode::AND => self.and(),
            Opcode::ASL => self.asl(),
            Opcode::BCC => self.bcc(),
            Opcode::BCS => self.bcs(),
            Opcode::BEQ => self.beq(),
            Opcode::BIT => self.bit(),
            Opcode::BMI => self.bmi(),
            Opcode::BNE => self.bne(),
            Opcode::BPL => self.bpl(),
            Opcode::BRK => self.brk(),
            Opcode::BVC => self.bvc(),
            Opcode::BVS => self.bvs(),
            Opcode::CLC => self.clc(),
            Opcode::CLD => self.cld(),
            Opcode::CLI => self.cli(),
            Opcode::CLV => self.clv(),
            Opcode::CMP => self.cmp(),
            Opcode::CPX => self.cpx(),
            Opcode::CPY => self.cpy(),
            Opcode::DEC => self.dec(),
            Opcode::DEX => self.dex(),
            Opcode::DEY => self.dey(),
            Opcode::EOR => self.eor(),
            Opcode::INC => self.inc(),
            Opcode::INX => self.inx(),
            Opcode::INY => self.iny(),
            Opcode::JMP => self.jmp(),
            Opcode::JSR => self.jsr(),
            Opcode::LDA => self.lda(),
            Opcode::LDX => self.ldx(),
            Opcode::LDY => self.ldy(),
            Opcode::LSR => self.lsr(),
            Opcode::NOP => self.nop(),
            Opcode::ORA => self.ora(),
            Opcode::PHA => self.pha(),
            Opcode::PHP => self.php(),
            Opcode::PLA => self.pla(),
            Opcode::PLP => self.plp(),
            Opcode::ROL => self.rol(),
            Opcode::ROR => self.ror(),
            Opcode::RTI => self.rti(),
            Opcode::RTS => self.rts(),
            Opcode::SBC => self.sbc(),
            Opcode::SEC => self.sec(),
            Opcode::SED => self.sed(),
            Opcode::SEI => self.sei(),
            Opcode::STA => self.sta(),
            Opcode::STX => self.stx(),
            Opcode::STY => self.sty(),
            Opcode::TAX => self.tax(),
            Opcode::TAY => self.tay(),
            Opcode::TSX => self.tsx(),
            Opcode::TXA => self.txa(),
            Opcode::TXS => self.txs(),
            Opcode::TYA => self.tya(),
            Opcode::ALR => self.alr(),
            Opcode::ANC => self.anc(),
            Opcode::ARR => self.arr(),
            Opcode::AXS => self.axs(),
            Opcode::LAX => self.lax(),
            Opcode::SAX => self.sax(),
            Opcode::DCP => self.dcp(),
            Opcode::ISC => self.isc(),
            Opcode::RLA => self.rla(),
            Opcode::RRA => self.rra(),
            Opcode::SLO => self.slo(),
            Opcode::SRE => self.sre(),
            Opcode::SKB => self.skb(),
            Opcode::IGN => self.ign(),
            Opcode::XXX => self.xxx(),
        }
    }
}

} // verus!
