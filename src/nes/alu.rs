//! Status-register bits and the arithmetic/logic unit of the 6502.
//!
//! Every operation is stated twice: as a spec function over the register
//! values, and as an executable function proved equal to it.
use vstd::prelude::*;

verus! {

pub const FLAG_CARRY: u8 = 0b0000_0001;
pub const FLAG_ZERO: u8 = 0b0000_0010;
pub const FLAG_INTERRUPT: u8 = 0b0000_0100;
pub const FLAG_DECIMAL: u8 = 0b0000_1000;
pub const FLAG_BREAK: u8 = 0b0001_0000;
pub const FLAG_OVERFLOW: u8 = 0b0100_0000;
pub const FLAG_NEGATIVE: u8 = 0b1000_0000;

/// Whether the bit(s) of `mask` are set in the status byte `p`.
pub open spec fn flag(p: u8, mask: u8) -> bool {
    p & mask != 0
}

/// `p` with the bits of `mask` set when `on`, cleared otherwise.
pub open spec fn with_flag(p: u8, mask: u8, on: bool) -> u8 {
    if on {
        p | mask
    } else {
        p & !mask
    }
}

/// `p` with Z set exactly when `v` is zero and N set exactly when bit 7 of `v` is.
pub open spec fn zn(p: u8, v: u8) -> u8 {
    with_flag(with_flag(p, FLAG_ZERO, v == 0), FLAG_NEGATIVE, v >= 0x80)
}

pub open spec fn carry_in(p: u8) -> int {
    if flag(p, FLAG_CARRY) {
        1
    } else {
        0
    }
}

/// The full sum `A + M + C` that ADC computes.
pub open spec fn adc_sum(a: u8, m: u8, p: u8) -> int {
    a + m + carry_in(p)
}

pub open spec fn adc_result(a: u8, m: u8, p: u8) -> u8 {
    (adc_sum(a, m, p) % 256) as u8
}

/// The status after ADC: C on unsigned overflow, V on signed overflow, Z/N from the result.
pub open spec fn adc_status(a: u8, m: u8, p: u8) -> u8 {
    let r = adc_result(a, m, p);
    with_flag(
        zn(with_flag(p, FLAG_CARRY, adc_sum(a, m, p) > 0xFF), r),
        FLAG_OVERFLOW,
        (a ^ r) & (m ^ r) & 0x80 != 0,
    )
}

/// The full difference `A - M - (1 - C)` that SBC computes.
pub open spec fn sbc_diff(a: u8, m: u8, p: u8) -> int {
    a - m - (1 - carry_in(p))
}

pub open spec fn sbc_result(a: u8, m: u8, p: u8) -> u8 {
    (sbc_diff(a, m, p) % 256) as u8
}

/// The status after SBC: C when no borrow occurred, V on signed overflow, Z/N from the result.
pub open spec fn sbc_status(a: u8, m: u8, p: u8) -> u8 {
    let r = sbc_result(a, m, p);
    with_flag(
        zn(with_flag(p, FLAG_CARRY, sbc_diff(a, m, p) >= 0), r),
        FLAG_OVERFLOW,
        (a ^ r) & (!m ^ r) & 0x80 != 0,
    )
}

/// The status after comparing register value `r` with `m`.
pub open spec fn compare_status(r: u8, m: u8, p: u8) -> u8 {
    with_flag(zn(p, ((r - m) % 256) as u8), FLAG_CARRY, r >= m)
}

pub open spec fn asl_result(v: u8) -> u8 {
    ((v * 2) % 256) as u8
}

pub open spec fn asl_status(v: u8, p: u8) -> u8 {
    zn(with_flag(p, FLAG_CARRY, v >= 0x80), asl_result(v))
}

pub open spec fn lsr_result(v: u8) -> u8 {
    (v / 2) as u8
}

pub open spec fn lsr_status(v: u8, p: u8) -> u8 {
    zn(with_flag(p, FLAG_CARRY, v % 2 == 1), lsr_result(v))
}

pub open spec fn rol_result(v: u8, p: u8) -> u8 {
    ((v * 2 + carry_in(p)) % 256) as u8
}

pub open spec fn rol_status(v: u8, p: u8) -> u8 {
    zn(with_flag(p, FLAG_CARRY, v >= 0x80), rol_result(v, p))
}

pub open spec fn ror_result(v: u8, p: u8) -> u8 {
    (v / 2 + 128 * carry_in(p)) as u8
}

pub open spec fn ror_status(v: u8, p: u8) -> u8 {
    zn(with_flag(p, FLAG_CARRY, v % 2 == 1), ror_result(v, p))
}

/// The status after BIT: Z from `A & M`, N from bit 7 and V from bit 6 of `M`.
pub open spec fn bit_status(a: u8, m: u8, p: u8) -> u8 {
    with_flag(
        with_flag(with_flag(p, FLAG_ZERO, a & m == 0), FLAG_NEGATIVE, m >= 0x80),
        FLAG_OVERFLOW,
        m & 0x40 != 0,
    )
}

/// The status flags are distinct bits.
pub proof fn lemma_flag_masks()
    ensures
        FLAG_CARRY & FLAG_ZERO == 0,
        FLAG_ZERO & FLAG_CARRY == 0,
        FLAG_CARRY & FLAG_INTERRUPT == 0,
        FLAG_INTERRUPT & FLAG_CARRY == 0,
        FLAG_CARRY & FLAG_DECIMAL == 0,
        FLAG_DECIMAL & FLAG_CARRY == 0,
        FLAG_CARRY & FLAG_BREAK == 0,
        FLAG_BREAK & FLAG_CARRY == 0,
        FLAG_CARRY & FLAG_OVERFLOW == 0,
        FLAG_OVERFLOW & FLAG_CARRY == 0,
        FLAG_CARRY & FLAG_NEGATIVE == 0,
        FLAG_NEGATIVE & FLAG_CARRY == 0,
        FLAG_ZERO & FLAG_INTERRUPT == 0,
        FLAG_INTERRUPT & FLAG_ZERO == 0,
        FLAG_ZERO & FLAG_DECIMAL == 0,
        FLAG_DECIMAL & FLAG_ZERO == 0,
        FLAG_ZERO & FLAG_BREAK == 0,
        FLAG_BREAK & FLAG_ZERO == 0,
        FLAG_ZERO & FLAG_OVERFLOW == 0,
        FLAG_OVERFLOW & FLAG_ZERO == 0,
        FLAG_ZERO & FLAG_NEGATIVE == 0,
        FLAG_NEGATIVE & FLAG_ZERO == 0,
        FLAG_INTERRUPT & FLAG_DECIMAL == 0,
        FLAG_DECIMAL & FLAG_INTERRUPT == 0,
        FLAG_INTERRUPT & FLAG_BREAK == 0,
        FLAG_BREAK & FLAG_INTERRUPT == 0,
        FLAG_INTERRUPT & FLAG_OVERFLOW == 0,
        FLAG_OVERFLOW & FLAG_INTERRUPT == 0,
        FLAG_INTERRUPT & FLAG_NEGATIVE == 0,
        FLAG_NEGATIVE & FLAG_INTERRUPT == 0,
        FLAG_DECIMAL & FLAG_BREAK == 0,
        FLAG_BREAK & FLAG_DECIMAL == 0,
        FLAG_DECIMAL & FLAG_OVERFLOW == 0,
        FLAG_OVERFLOW & FLAG_DECIMAL == 0,
        FLAG_DECIMAL & FLAG_NEGATIVE == 0,
        FLAG_NEGATIVE & FLAG_DECIMAL == 0,
        FLAG_BREAK & FLAG_OVERFLOW == 0,
        FLAG_OVERFLOW & FLAG_BREAK == 0,
        FLAG_BREAK & FLAG_NEGATIVE == 0,
        FLAG_NEGATIVE & FLAG_BREAK == 0,
        FLAG_OVERFLOW & FLAG_NEGATIVE == 0,
        FLAG_NEGATIVE & FLAG_OVERFLOW == 0,
{
    assert(1u8 & 2u8 == 0
        && 2u8 & 1u8 == 0
        && 1u8 & 4u8 == 0
        && 4u8 & 1u8 == 0
        && 1u8 & 8u8 == 0
        && 8u8 & 1u8 == 0
        && 1u8 & 16u8 == 0
        && 16u8 & 1u8 == 0
        && 1u8 & 64u8 == 0
        && 64u8 & 1u8 == 0
        && 1u8 & 128u8 == 0
        && 128u8 & 1u8 == 0
        && 2u8 & 4u8 == 0
        && 4u8 & 2u8 == 0
        && 2u8 & 8u8 == 0
        && 8u8 & 2u8 == 0
        && 2u8 & 16u8 == 0
        && 16u8 & 2u8 == 0
        && 2u8 & 64u8 == 0
        && 64u8 & 2u8 == 0
        && 2u8 & 128u8 == 0
        && 128u8 & 2u8 == 0
        && 4u8 & 8u8 == 0
        && 8u8 & 4u8 == 0
        && 4u8 & 16u8 == 0
        && 16u8 & 4u8 == 0
        && 4u8 & 64u8 == 0
        && 64u8 & 4u8 == 0
        && 4u8 & 128u8 == 0
        && 128u8 & 4u8 == 0
        && 8u8 & 16u8 == 0
        && 16u8 & 8u8 == 0
        && 8u8 & 64u8 == 0
        && 64u8 & 8u8 == 0
        && 8u8 & 128u8 == 0
        && 128u8 & 8u8 == 0
        && 16u8 & 64u8 == 0
        && 64u8 & 16u8 == 0
        && 16u8 & 128u8 == 0
        && 128u8 & 16u8 == 0
        && 64u8 & 128u8 == 0
        && 128u8 & 64u8 == 0) by (bit_vector);
}

/// Setting or clearing `mask` decides that flag and leaves the bits outside `mask` alone.
pub proof fn lemma_with_flag(p: u8, mask: u8, on: bool, other: u8)
    requires
        mask != 0,
    ensures
        flag(with_flag(p, mask, on), mask) == on,
        mask & other == 0 ==> flag(with_flag(p, mask, on), other) == flag(p, other),
{
    assert((p | mask) & mask == mask) by (bit_vector);
    assert((p & !mask) & mask == 0) by (bit_vector);
    assert(mask & other == 0 ==> (p | mask) & other == p & other) by (bit_vector);
    assert(mask & other == 0 ==> (p & !mask) & other == p & other) by (bit_vector);
}

/// Z and N of `zn(p, v)` come from `v`; every other flag is that of `p`.
pub proof fn lemma_zn(p: u8, v: u8)
    ensures
        flag(zn(p, v), FLAG_ZERO) == (v == 0),
        flag(zn(p, v), FLAG_NEGATIVE) == (v >= 0x80),
        flag(zn(p, v), FLAG_CARRY) == flag(p, FLAG_CARRY),
        flag(zn(p, v), FLAG_INTERRUPT) == flag(p, FLAG_INTERRUPT),
        flag(zn(p, v), FLAG_DECIMAL) == flag(p, FLAG_DECIMAL),
        flag(zn(p, v), FLAG_BREAK) == flag(p, FLAG_BREAK),
        flag(zn(p, v), FLAG_OVERFLOW) == flag(p, FLAG_OVERFLOW),
{
    lemma_flag_masks();
    let q = with_flag(p, FLAG_ZERO, v == 0);
    lemma_with_flag(p, FLAG_ZERO, v == 0, FLAG_NEGATIVE);
    lemma_with_flag(q, FLAG_NEGATIVE, v >= 0x80, FLAG_ZERO);
    lemma_with_flag(p, FLAG_ZERO, v == 0, FLAG_CARRY);
    lemma_with_flag(q, FLAG_NEGATIVE, v >= 0x80, FLAG_CARRY);
    lemma_with_flag(p, FLAG_ZERO, v == 0, FLAG_INTERRUPT);
    lemma_with_flag(q, FLAG_NEGATIVE, v >= 0x80, FLAG_INTERRUPT);
    lemma_with_flag(p, FLAG_ZERO, v == 0, FLAG_DECIMAL);
    lemma_with_flag(q, FLAG_NEGATIVE, v >= 0x80, FLAG_DECIMAL);
    lemma_with_flag(p, FLAG_ZERO, v == 0, FLAG_BREAK);
    lemma_with_flag(q, FLAG_NEGATIVE, v >= 0x80, FLAG_BREAK);
    lemma_with_flag(p, FLAG_ZERO, v == 0, FLAG_OVERFLOW);
    lemma_with_flag(q, FLAG_NEGATIVE, v >= 0x80, FLAG_OVERFLOW);
}

pub fn set_flag(p: u8, mask: u8, on: bool) -> (r: u8)
    ensures
        r == with_flag(p, mask, on),
{
    if on {
        p | mask
    } else {
        p & !mask
    }
}

pub fn set_zero_neg(p: u8, v: u8) -> (r: u8)
    ensures
        r == zn(p, v),
{
    let q = set_flag(p, FLAG_ZERO, v == 0);
    set_flag(q, FLAG_NEGATIVE, v >= 0x80)
}

fn carry_bit(p: u8) -> (c: u8)
    ensures
        c == carry_in(p),
{
    if p & FLAG_CARRY != 0 {
        1
    } else {
        0
    }
}

/// ADC without decimal mode: returns the new accumulator and status.
pub fn add_with_carry(a: u8, m: u8, p: u8) -> (r: (u8, u8))
    ensures
        r.0 == adc_result(a, m, p),
        r.1 == adc_status(a, m, p),
{
    let sum: u16 = a as u16 + m as u16 + carry_bit(p) as u16;
    let result = (sum % 256) as u8;
    let q = set_flag(p, FLAG_CARRY, sum > 0xFF);
    let q = set_zero_neg(q, result);
    let q = set_flag(q, FLAG_OVERFLOW, (a ^ result) & (m ^ result) & 0x80 != 0);
    (result, q)
}

/// SBC without decimal mode: returns the new accumulator and status.
pub fn sub_with_carry(a: u8, m: u8, p: u8) -> (r: (u8, u8))
    ensures
        r.0 == sbc_result(a, m, p),
        r.1 == sbc_status(a, m, p),
{
    // `t` is the difference shifted up by 256, so that it never goes negative.
    let t: u16 = a as u16 + 256 - m as u16 - (1 - carry_bit(p)) as u16;
    let result = (t % 256) as u8;
    assert(sbc_diff(a, m, p) == t - 256);
    assert(sbc_diff(a, m, p) % 256 == t % 256);
    let q = set_flag(p, FLAG_CARRY, t >= 256);
    let q = set_zero_neg(q, result);
    let q = set_flag(q, FLAG_OVERFLOW, (a ^ result) & (!m ^ result) & 0x80 != 0);
    (result, q)
}

pub fn compare(r: u8, m: u8, p: u8) -> (q: u8)
    ensures
        q == compare_status(r, m, p),
{
    let diff = r.wrapping_sub(m);
    assert(diff == ((r - m) % 256) as u8);
    let q = set_zero_neg(p, diff);
    set_flag(q, FLAG_CARRY, r >= m)
}

pub fn asl(v: u8, p: u8) -> (r: (u8, u8))
    ensures
        r.0 == asl_result(v),
        r.1 == asl_status(v, p),
{
    let result = ((v as u16 * 2) % 256) as u8;
    (result, set_zero_neg(set_flag(p, FLAG_CARRY, v >= 0x80), result))
}

pub fn lsr(v: u8, p: u8) -> (r: (u8, u8))
    ensures
        r.0 == lsr_result(v),
        r.1 == lsr_status(v, p),
{
    let result = v / 2;
    (result, set_zero_neg(set_flag(p, FLAG_CARRY, v % 2 == 1), result))
}

pub fn rol(v: u8, p: u8) -> (r: (u8, u8))
    ensures
        r.0 == rol_result(v, p),
        r.1 == rol_status(v, p),
{
    let result = ((v as u16 * 2 + carry_bit(p) as u16) % 256) as u8;
    (result, set_zero_neg(set_flag(p, FLAG_CARRY, v >= 0x80), result))
}

pub fn ror(v: u8, p: u8) -> (r: (u8, u8))
    ensures
        r.0 == ror_result(v, p),
        r.1 == ror_status(v, p),
{
    let result = v / 2 + 128 * carry_bit(p);
    (result, set_zero_neg(set_flag(p, FLAG_CARRY, v % 2 == 1), result))
}

pub fn bit_test(a: u8, m: u8, p: u8) -> (q: u8)
    ensures
        q == bit_status(a, m, p),
{
    let q = set_flag(p, FLAG_ZERO, a & m == 0);
    let q = set_flag(q, FLAG_NEGATIVE, m >= 0x80);
    set_flag(q, FLAG_OVERFLOW, m & 0x40 != 0)
}

} // verus!
