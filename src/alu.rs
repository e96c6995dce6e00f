use vstd::prelude::*;

use crate::computer::{FLAG_C, FLAG_N, FLAG_O, FLAG_Z, nz_flags};

verus! {

/// The carry flag as a number, 0 or 1.
pub open spec fn carry_of(flags: u8) -> int {
    if flags & FLAG_C != 0 { 1 } else { 0 }
}

/// `flags` with `bit` set when `on` holds and cleared otherwise.
pub open spec fn put(flags: u8, bit: u8, on: bool) -> u8 {
    if on { flags | bit } else { flags & !bit }
}

/// Binary add with carry: the 9-bit sum of accumulator, operand and carry
/// in; Carry is its ninth bit, Overflow tells two operands of one sign gave
/// a result of the other, Zero and Negative follow the result.
pub open spec fn binary_add(acc: u8, val: u8, flags: u8) -> (u8, u8) {
    let s = acc + val + carry_of(flags);
    let sum = (s % 256) as u8;
    let f = put(nz_flags(flags, sum), FLAG_C, s > 255);
    (sum, put(f, FLAG_O, (acc ^ sum) & (val ^ sum) & 0x80 != 0))
}

/// Decimal add with carry: each nibble is a decimal digit. The low digit
/// is corrected by 6 past 9, the sum by 0x60 from 160 on, which also sets
/// Carry; Overflow is only ever cleared, at the boundaries of the silicon.
pub open spec fn decimal_add(acc: u8, val: u8, flags: u8) -> (u8, u8) {
    let ln0 = acc % 16 + val % 16 + carry_of(flags);
    let ln = if ln0 > 9 { 16 + (ln0 + 6) % 16 } else { ln0 };
    let s0 = acc / 16 * 16 + val / 16 * 16 + ln;
    let f = if s0 >= 160 {
        let f1 = flags | FLAG_C;
        if f1 & FLAG_O != 0 && s0 >= 0x180 { f1 & !FLAG_O } else { f1 }
    } else {
        let f1 = flags & !FLAG_C;
        if f1 & FLAG_O != 0 && s0 < 0x80 { f1 & !FLAG_O } else { f1 }
    };
    let sum = ((if s0 >= 160 { s0 + 0x60 } else { s0 }) % 256) as u8;
    (sum, nz_flags(f, sum))
}

/// Decimal subtract with borrow (Carry clear means borrow): digit-wise with
/// corrections of 6 and 0x60. Carry and Overflow follow the silicon's
/// boundary cases; Zero and Negative are left as they were.
pub open spec fn decimal_sub(acc: u8, val: u8, flags: u8) -> (u8, u8) {
    let t0 = 15 + acc % 16 - val % 16 + carry_of(flags);
    let t = if t0 < 16 { t0 - 6 } else { t0 - 16 };
    let w = (if t0 < 16 { 0int } else { 16int }) + 0xF0 + acc / 16 * 16 - val / 16 * 16;
    let f = if w < 0x100 {
        let f1 = flags & !FLAG_C;
        if f1 & FLAG_O != 0 && w < 0x80 { f1 & !FLAG_O } else { f1 }
    } else {
        let f1 = flags | FLAG_C;
        if f1 & FLAG_O != 0 && w >= 0x180 { f1 & !FLAG_O } else { f1 }
    };
    let w1 = if w < 0x100 { w - 0x60 } else { w };
    (((w1 + t + 256) % 256) as u8, f)
}

/// Three-way compare of a register with an operand: equal sets Zero and
/// Carry, greater sets Carry alone, less sets Negative alone.
pub open spec fn compare(reg: u8, val: u8, flags: u8) -> u8 {
    if reg == val {
        (flags | FLAG_Z | FLAG_C) & !FLAG_N
    } else if reg > val {
        (flags | FLAG_C) & !(FLAG_N | FLAG_Z)
    } else {
        (flags | FLAG_N) & !(FLAG_C | FLAG_Z)
    }
}

/// Flags after a shift or rotate: Carry is the bit shifted out, Zero and
/// Negative follow the result.
pub open spec fn shift_flags(flags: u8, result: u8, carry: bool) -> u8 {
    put(put(put(flags, FLAG_C, carry), FLAG_Z, result == 0), FLAG_N, result >= 128)
}

/// Shift left: bit 7 goes to Carry, a 0 comes in.
pub open spec fn shift_left(v: u8, flags: u8) -> (u8, u8) {
    let r = ((v * 2) % 256) as u8;
    (r, shift_flags(flags, r, v >= 128))
}

/// Shift right: bit 0 goes to Carry, a 0 comes in.
pub open spec fn shift_right(v: u8, flags: u8) -> (u8, u8) {
    let r = (v / 2) as u8;
    (r, shift_flags(flags, r, v % 2 == 1))
}

/// Rotate left through Carry.
pub open spec fn rotate_left(v: u8, flags: u8) -> (u8, u8) {
    let r = ((v * 2 + carry_of(flags)) % 256) as u8;
    (r, shift_flags(flags, r, v >= 128))
}

/// Rotate right through Carry.
pub open spec fn rotate_right(v: u8, flags: u8) -> (u8, u8) {
    let r = (v / 2 + carry_of(flags) * 128) as u8;
    (r, shift_flags(flags, r, v % 2 == 1))
}

/// Flags after `BIT`: Zero from accumulator AND operand, Negative and
/// Overflow straight from bits 7 and 6 of the operand.
pub open spec fn bit_test(acc: u8, val: u8, flags: u8) -> u8 {
    put(put(put(flags, FLAG_Z, acc & val == 0), FLAG_N, val & 0x80 != 0), FLAG_O, val & 0x40 != 0)
}

fn carry(flags: u8) -> (r: u16)
    ensures
        r == carry_of(flags),
{
    if flags & FLAG_C != 0 { 1 } else { 0 }
}

fn put_bit(flags: u8, bit: u8, on: bool) -> (r: u8)
    ensures
        r == put(flags, bit, on),
{
    if on { flags | bit } else { flags & !bit }
}

/// Binary add with carry; returns the sum and the new flags.
pub fn add_binary(acc: u8, val: u8, flags: u8) -> (r: (u8, u8))
    ensures
        r == binary_add(acc, val, flags),
{
    let s: u16 = acc as u16 + val as u16 + carry(flags);
    let sum = (s % 256) as u8;
    let f = put_bit(crate::computer::Computer::set_flags(flags, sum), FLAG_C, s > 255);
    (sum, put_bit(f, FLAG_O, (acc ^ sum) & (val ^ sum) & 0x80 != 0))
}

/// Decimal add with carry; returns the sum and the new flags.
pub fn add_decimal(acc: u8, val: u8, flags: u8) -> (r: (u8, u8))
    ensures
        r == decimal_add(acc, val, flags),
{
    let ln0: u16 = acc as u16 % 16 + val as u16 % 16 + carry(flags);
    let ln: u16 = if ln0 > 9 { 16 + (ln0 + 6) % 16 } else { ln0 };
    let s0: u16 = acc as u16 / 16 * 16 + val as u16 / 16 * 16 + ln;
    let f = if s0 >= 160 {
        let f1 = flags | FLAG_C;
        if f1 & FLAG_O != 0 && s0 >= 0x180 { f1 & !FLAG_O } else { f1 }
    } else {
        let f1 = flags & !FLAG_C;
        if f1 & FLAG_O != 0 && s0 < 0x80 { f1 & !FLAG_O } else { f1 }
    };
    let sum = ((if s0 >= 160 { s0 + 0x60 } else { s0 }) % 256) as u8;
    (sum, crate::computer::Computer::set_flags(f, sum))
}

/// Decimal subtract with borrow; returns the difference and the new flags.
pub fn sub_decimal(acc: u8, val: u8, flags: u8) -> (r: (u8, u8))
    ensures
        r == decimal_sub(acc, val, flags),
{
    let t0: i32 = 15 + acc as i32 % 16 - val as i32 % 16 + carry(flags) as i32;
    let t: i32 = if t0 < 16 { t0 - 6 } else { t0 - 16 };
    let w: i32 = (if t0 < 16 { 0 } else { 16 }) + 0xF0 + acc as i32 / 16 * 16 - val as i32 / 16 * 16;
    let f = if w < 0x100 {
        let f1 = flags & !FLAG_C;
        if f1 & FLAG_O != 0 && w < 0x80 { f1 & !FLAG_O } else { f1 }
    } else {
        let f1 = flags | FLAG_C;
        if f1 & FLAG_O != 0 && w >= 0x180 { f1 & !FLAG_O } else { f1 }
    };
    let w1: i32 = if w < 0x100 { w - 0x60 } else { w };
    (((w1 + t + 256) % 256) as u8, f)
}

/// Compares a register with an operand; returns the new flags.
pub fn compare_values(reg: u8, val: u8, flags: u8) -> (r: u8)
    ensures
        r == compare(reg, val, flags),
{
    if reg == val {
        (flags | FLAG_Z | FLAG_C) & !FLAG_N
    } else if reg > val {
        (flags | FLAG_C) & !(FLAG_N | FLAG_Z)
    } else {
        (flags | FLAG_N) & !(FLAG_C | FLAG_Z)
    }
}

fn shifted_flags(flags: u8, result: u8, carry: bool) -> (r: u8)
    ensures
        r == shift_flags(flags, result, carry),
{
    put_bit(put_bit(put_bit(flags, FLAG_C, carry), FLAG_Z, result == 0), FLAG_N, result >= 128)
}

/// Shifts left; returns the result and the new flags.
pub fn asl_value(v: u8, flags: u8) -> (r: (u8, u8))
    ensures
        r == shift_left(v, flags),
{
    let res = ((v as u16 * 2) % 256) as u8;
    (res, shifted_flags(flags, res, v >= 128))
}

/// Shifts right; returns the result and the new flags.
pub fn lsr_value(v: u8, flags: u8) -> (r: (u8, u8))
    ensures
        r == shift_right(v, flags),
{
    let res = v / 2;
    (res, shifted_flags(flags, res, v % 2 == 1))
}

/// Rotates left through Carry; returns the result and the new flags.
pub fn rol_value(v: u8, flags: u8) -> (r: (u8, u8))
    ensures
        r == rotate_left(v, flags),
{
    let res = ((v as u16 * 2 + carry(flags)) % 256) as u8;
    (res, shifted_flags(flags, res, v >= 128))
}

/// Rotates right through Carry; returns the result and the new flags.
pub fn ror_value(v: u8, flags: u8) -> (r: (u8, u8))
    ensures
        r == rotate_right(v, flags),
{
    let res = (v as u16 / 2 + carry(flags) * 128) as u8;
    (res, shifted_flags(flags, res, v % 2 == 1))
}

/// The flags after `BIT` of an operand against the accumulator.
pub fn bit_flags(acc: u8, val: u8, flags: u8) -> (r: u8)
    ensures
        r == bit_test(acc, val, flags),
{
    put_bit(put_bit(put_bit(flags, FLAG_Z, acc & val == 0), FLAG_N, val & 0x80 != 0), FLAG_O, val & 0x40 != 0)
}

} // verus!

verus! {

proof fn lemma_carry_after_add(f: u8, c: bool, o: bool)
    ensures
        carry_of(put(put(f, FLAG_C, c), FLAG_O, o)) == (if c { 1int } else { 0int }),
{
    let g = put(put(f, FLAG_C, c), FLAG_O, o);
    if c {
        if o {
            assert((((f | 1u8) | 0x40u8) & 1u8) != 0u8) by (bit_vector);
        } else {
            assert((((f | 1u8) & !0x40u8) & 1u8) != 0u8) by (bit_vector);
        }
    } else {
        if o {
            assert((((f & !1u8) | 0x40u8) & 1u8) == 0u8) by (bit_vector);
        } else {
            assert((((f & !1u8) & !0x40u8) & 1u8) == 0u8) by (bit_vector);
        }
    }
}

/// Binary subtract then add of the same operand, feeding the add the carry
/// the subtract left, gives back the accumulator exactly when that carry
/// differs from the carry the subtract started with.
pub proof fn lemma_sbc_adc_round_trip(a: u8, b: u8, flags: u8)
    requires
        carry_of(flags) != carry_of(binary_add(a, !b, flags).1),
    ensures
        binary_add(binary_add(a, !b, flags).0, b, binary_add(a, !b, flags).1).0 == a,
{
    assert(!b == 255 - b) by (bit_vector);
    let s = a + (!b) + carry_of(flags);
    let sum = (s % 256) as u8;
    lemma_carry_after_add(
        nz_flags(flags, sum),
        s > 255,
        (a ^ sum) & ((!b) ^ sum) & 0x80 != 0,
    );
}

} // verus!
