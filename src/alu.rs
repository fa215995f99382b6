//! Arithmetic of the 6502: addition and subtraction with carry, and the flags they set.
use vstd::prelude::*;
use crate::cpu::set_bits;

verus! {

/// The carry flag of `p` as a number.
pub open spec fn carry_in(p: u8) -> int {
    if p & 0x01 != 0 {
        1
    } else {
        0
    }
}

/// Setting or clearing C makes the carry input 1 or 0.
pub proof fn lemma_carry_of_set(p: u8, on: bool)
    ensures
        carry_in(set_bits(p, 0x01, on)) == (if on {
            1int
        } else {
            0int
        }),
{
    assert((p | 0x01) & 0x01 != 0 && (p & !0x01u8) & 0x01 == 0) by (bit_vector);
}

/// `a + m + c`, modulo 256.
pub open spec fn adc_value(a: u8, m: u8, c: int) -> u8 {
    ((a as int + m as int + c) % 256) as u8
}

/// The status after ADC: C from bit 8 of the sum, Z, V when two operands of one sign give
/// a result of the other, N.
pub open spec fn adc_status(p: u8, a: u8, m: u8, c: int) -> u8 {
    let r = adc_value(a, m, c);
    set_bits(
        set_bits(
            set_bits(set_bits(p, 0x01, a as int + m as int + c > 255), 0x02, r == 0),
            0x40,
            (!(a ^ m) & (a ^ r)) & 0x80 != 0,
        ),
        0x80,
        r & 0x80 != 0,
    )
}

/// `a - m - (1 - c)`, modulo 256.
pub open spec fn sbc_value(a: u8, m: u8, c: int) -> u8 {
    ((a as int - m as int - (1 - c) + 256) % 256) as u8
}

/// The status after SBC: C when no borrow occurs, Z, V when operands of different sign
/// give a result whose sign differs from `a`, N.
pub open spec fn sbc_status(p: u8, a: u8, m: u8, c: int) -> u8 {
    let r = sbc_value(a, m, c);
    set_bits(
        set_bits(
            set_bits(set_bits(p, 0x01, a as int - m as int - (1 - c) >= 0), 0x02, r == 0),
            0x40,
            ((a ^ m) & (a ^ r)) & 0x80 != 0,
        ),
        0x80,
        r & 0x80 != 0,
    )
}

/// SBC is ADC of the one's complement of the operand: same result, same N, V, Z and C.
pub proof fn lemma_sbc_is_adc_of_complement(p: u8, a: u8, m: u8, c: int)
    requires
        0 <= c <= 1,
    ensures
        sbc_value(a, m, c) == adc_value(a, m ^ 0xFF, c),
        sbc_status(p, a, m, c) == adc_status(p, a, m ^ 0xFF, c),
{
    assert(m ^ 0xFF == 255 - m) by (bit_vector);
    let r = sbc_value(a, m, c);
    assert(!(a ^ (m ^ 0xFF)) & (a ^ r) == (a ^ m) & (a ^ r)) by (bit_vector);
}

/// Adds with carry: the result and the new status.
pub fn add_with_carry(p: u8, a: u8, m: u8) -> (r: (u8, u8))
    ensures
        r.0 == adc_value(a, m, carry_in(p)),
        r.1 == adc_status(p, a, m, carry_in(p)),
{
    let c: u16 = if p & 0x01 != 0 {
        1
    } else {
        0
    };
    let temp: u16 = a as u16 + m as u16 + c;
    let value: u8 = (temp % 256) as u8;
    let mut s = p;
    s = if temp > 255 {
        s | 0x01
    } else {
        s & !0x01u8
    };
    s = if value == 0 {
        s | 0x02
    } else {
        s & !0x02u8
    };
    s = if (!(a ^ m) & (a ^ value)) & 0x80 != 0 {
        s | 0x40
    } else {
        s & !0x40u8
    };
    s = if value & 0x80 != 0 {
        s | 0x80
    } else {
        s & !0x80u8
    };
    (value, s)
}

/// Subtracts with borrow, as the hardware does: by adding the complement of `m`.
pub fn subtract_with_carry(p: u8, a: u8, m: u8) -> (r: (u8, u8))
    ensures
        r.0 == sbc_value(a, m, carry_in(p)),
        r.1 == sbc_status(p, a, m, carry_in(p)),
{
    proof {
        lemma_sbc_is_adc_of_complement(p, a, m, carry_in(p));
    }
    add_with_carry(p, a, m ^ 0xFF)
}

} // verus!
