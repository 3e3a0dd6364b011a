use crate::cpu::Flags;
use vstd::prelude::*;

verus! {

/// What an 8-bit operation leaves behind: a byte and the flags.
#[derive(Debug, Clone, Copy, PartialEq, Eq, Structural)]
pub struct Outcome {
    pub value: u8,
    pub flags: Flags,
}

/// What a 16-bit operation leaves behind: a word and the flags.
#[derive(Debug, Clone, Copy, PartialEq, Eq, Structural)]
pub struct WideOutcome {
    pub value: u16,
    pub flags: Flags,
}

/// The eight rotations and shifts of the prefixed opcode table.
#[derive(Debug, Clone, Copy, PartialEq, Eq, Structural)]
pub enum Shift {
    /// Rotate left; bit 7 goes to bit 0 and to the carry.
    Rlc,
    /// Rotate right; bit 0 goes to bit 7 and to the carry.
    Rrc,
    /// Rotate left through the carry.
    Rl,
    /// Rotate right through the carry.
    Rr,
    /// Shift left; bit 0 becomes 0.
    Sla,
    /// Shift right; bit 7 stays.
    Sra,
    /// Exchange the two nibbles.
    Swap,
    /// Shift right; bit 7 becomes 0.
    Srl,
}

/// The eight operations between the accumulator and an 8-bit operand.
#[derive(Debug, Clone, Copy, PartialEq, Eq, Structural)]
pub enum Arithmetic {
    Add,
    /// Add with the carry flag.
    Adc,
    Sub,
    /// Subtract with the carry flag as borrow.
    Sbc,
    And,
    Xor,
    Or,
    /// Compare: subtract and keep the flags only.
    Cp,
}

/// 1 for true, 0 for false.
pub open spec fn bit(b: bool) -> int {
    if b {
        1
    } else {
        0
    }
}

/// The signed value of a byte read as two's complement.
pub open spec fn signed(byte: u8) -> int {
    if byte < 128 {
        byte as int
    } else {
        byte - 256
    }
}

/// The byte that holds a signed value in two's complement.
pub open spec fn unsigned(offset: i8) -> u8 {
    if offset < 0 {
        (offset + 256) as u8
    } else {
        offset as u8
    }
}

/// `a + v + carry`: Z from the result, N clear, H on a carry out of bit 3,
/// C on a carry out of bit 7.
pub open spec fn add_spec(a: u8, v: u8, carry: bool) -> Outcome {
    let sum = a + v + bit(carry);
    Outcome {
        value: (sum % 256) as u8,
        flags: Flags {
            z: sum % 256 == 0,
            n: false,
            h: a % 16 + v % 16 + bit(carry) > 15,
            c: sum > 255,
        },
    }
}

/// `a - v - borrow`: Z from the result, N set, H on a borrow from bit 4,
/// C on a borrow from bit 8.
pub open spec fn sub_spec(a: u8, v: u8, borrow: bool) -> Outcome {
    let difference = a - v - bit(borrow);
    Outcome {
        value: (difference % 256) as u8,
        flags: Flags {
            z: difference % 256 == 0,
            n: true,
            h: a % 16 < v % 16 + bit(borrow),
            c: a < v + bit(borrow),
        },
    }
}

/// The comparison of `a` with `v`: the flags of the subtraction, with `a`
/// kept.
pub open spec fn cp_spec(a: u8, v: u8) -> Outcome {
    Outcome { value: a, flags: sub_spec(a, v, false).flags }
}

/// The outcome of one of the eight operations on the accumulator `a` and
/// the operand `v`.
pub open spec fn arithmetic_spec(kind: Arithmetic, a: u8, v: u8, flags: Flags) -> Outcome {
    match kind {
        Arithmetic::Add => add_spec(a, v, false),
        Arithmetic::Adc => add_spec(a, v, flags.c),
        Arithmetic::Sub => sub_spec(a, v, false),
        Arithmetic::Sbc => sub_spec(a, v, flags.c),
        Arithmetic::And => and_spec(a, v),
        Arithmetic::Xor => xor_spec(a, v),
        Arithmetic::Or => or_spec(a, v),
        Arithmetic::Cp => cp_spec(a, v),
    }
}

/// The bits set in both `a` and `v`: Z from the result, H set, N and C
/// clear.
pub open spec fn and_spec(a: u8, v: u8) -> Outcome {
    Outcome { value: a & v, flags: Flags { z: a & v == 0, n: false, h: true, c: false } }
}

/// The bits set in `a` or in `v`: Z from the result, the other flags
/// clear.
pub open spec fn or_spec(a: u8, v: u8) -> Outcome {
    Outcome { value: a | v, flags: Flags { z: a | v == 0, n: false, h: false, c: false } }
}

/// The bits set in one of `a` and `v` only: Z from the result, the other
/// flags clear.
pub open spec fn xor_spec(a: u8, v: u8) -> Outcome {
    Outcome { value: a ^ v, flags: Flags { z: a ^ v == 0, n: false, h: false, c: false } }
}

/// `v + 1`; the carry flag stays.
pub open spec fn inc_spec(v: u8, flags: Flags) -> Outcome {
    Outcome {
        value: ((v + 1) % 256) as u8,
        flags: Flags { z: v == 255, n: false, h: v % 16 == 15, c: flags.c },
    }
}

/// `v - 1`; the carry flag stays.
pub open spec fn dec_spec(v: u8, flags: Flags) -> Outcome {
    Outcome {
        value: ((v - 1) % 256) as u8,
        flags: Flags { z: v == 1, n: true, h: v % 16 == 0, c: flags.c },
    }
}

/// The byte that a rotation or shift makes of `v`, with `carry` as the
/// carry flag before it.
pub open spec fn shifted_value(kind: Shift, v: u8, carry: bool) -> u8 {
    (match kind {
        Shift::Rlc => (v * 2) % 256 + v / 128,
        Shift::Rrc => v / 2 + (v % 2) * 128,
        Shift::Rl => (v * 2) % 256 + bit(carry),
        Shift::Rr => v / 2 + bit(carry) * 128,
        Shift::Sla => (v * 2) % 256,
        Shift::Sra => v / 2 + (v / 128) * 128,
        Shift::Swap => (v % 16) * 16 + v / 16,
        Shift::Srl => (v / 2) as int,
    }) as u8
}

/// The bit that a rotation or shift moves out of `v`.
pub open spec fn shifted_out(kind: Shift, v: u8) -> bool {
    match kind {
        Shift::Rlc | Shift::Rl | Shift::Sla => v >= 128,
        Shift::Rrc | Shift::Rr | Shift::Sra | Shift::Srl => v % 2 == 1,
        Shift::Swap => false,
    }
}

/// A rotation or shift from the prefixed table: Z from the result, N and
/// H clear, C the bit moved out.
pub open spec fn shift_spec(kind: Shift, v: u8, flags: Flags) -> Outcome {
    let value = shifted_value(kind, v, flags.c);
    Outcome { value, flags: Flags { z: value == 0, n: false, h: false, c: shifted_out(kind, v) } }
}

/// A rotation of the accumulator by one of the four short opcodes: as the
/// prefixed rotation, but with Z clear.
pub open spec fn rotate_a_spec(kind: Shift, a: u8, flags: Flags) -> Outcome {
    Outcome {
        value: shifted_value(kind, a, flags.c),
        flags: Flags { z: false, n: false, h: false, c: shifted_out(kind, a) },
    }
}

/// Whether bit `index` of `v` is set.
pub open spec fn test_bit(index: u8, v: u8) -> bool {
    v & (1u8 << index) != 0
}

/// The flags after a test of bit `index` of `v`: Z set where the bit is
/// clear, N clear, H set; the carry flag stays.
pub open spec fn bit_spec(index: u8, v: u8, flags: Flags) -> Flags {
    Flags { z: !test_bit(index, v), n: false, h: true, c: flags.c }
}

/// `v` with bit `index` clear.
pub open spec fn clear_bit_spec(index: u8, v: u8) -> u8 {
    v & !(1u8 << index)
}

/// `v` with bit `index` set.
pub open spec fn set_bit_spec(index: u8, v: u8) -> u8 {
    v | (1u8 << index)
}

/// What has to be added to the accumulator after an addition of two
/// packed decimal numbers to make it one again: 0x60 where the high digit
/// overflowed, 0x06 where the low digit did.
pub open spec fn decimal_correction(a: u8, flags: Flags) -> int {
    if flags.n {
        -(if flags.c {
            0x60int
        } else {
            0
        }) - (if flags.h {
            0x06int
        } else {
            0
        })
    } else {
        (if flags.c || a > 0x99 {
            0x60int
        } else {
            0
        }) + (if flags.h || a % 16 > 9 {
            0x06int
        } else {
            0
        })
    }
}

/// The decimal adjustment of the accumulator. After an addition the carry
/// is set where the high digit was corrected; after a subtraction it
/// stays. Z from the result, H clear, N as it was.
pub open spec fn daa_spec(a: u8, flags: Flags) -> Outcome {
    let value = ((a + decimal_correction(a, flags)) % 256) as u8;
    Outcome {
        value,
        flags: Flags {
            z: value == 0,
            n: flags.n,
            h: false,
            c: flags.c || (!flags.n && a > 0x99),
        },
    }
}

/// The complement of the accumulator: N and H set, Z and C as they were.
pub open spec fn cpl_spec(a: u8, flags: Flags) -> Outcome {
    Outcome { value: (255 - a) as u8, flags: Flags { n: true, h: true, ..flags } }
}

/// `x + y` on words: Z as it was, N clear, H on a carry out of bit 11, C
/// on a carry out of bit 15.
pub open spec fn add16_spec(x: u16, y: u16, flags: Flags) -> WideOutcome {
    WideOutcome {
        value: ((x + y) % 0x1_0000) as u16,
        flags: Flags {
            z: flags.z,
            n: false,
            h: x % 0x1000 + y % 0x1000 > 0x0FFF,
            c: x + y > 0xFFFF,
        },
    }
}

/// `base` moved by a signed distance, wrapping at 16 bits.
pub open spec fn displaced(base: u16, offset: int) -> u16 {
    ((base + offset) % 0x1_0000) as u16
}

/// The stack pointer plus the signed byte `offset`: Z and N clear, H and
/// C the carries out of bit 3 and bit 7 of the sum of the low byte and the
/// offset read as unsigned.
pub open spec fn add_offset_spec(sp: u16, offset: u8) -> WideOutcome {
    WideOutcome {
        value: displaced(sp, signed(offset)),
        flags: Flags {
            z: false,
            n: false,
            h: sp % 16 + offset % 16 > 15,
            c: sp % 256 + offset > 255,
        },
    }
}

proof fn lemma_nibble(v: u8)
    by (bit_vector)
    ensures
        v & 0x0F == v % 16,
        v & 0x0F <= 15,
{
}

proof fn lemma_shift_left(v: u8)
    by (bit_vector)
    ensures
        v << 1u8 == (v * 2) % 256,
{
}

proof fn lemma_nibble_up(v: u8)
    by (bit_vector)
    ensures
        v << 4u8 == (v % 16) * 16,
{
}

proof fn lemma_shift_right(v: u8)
    by (bit_vector)
    ensures
        v >> 1u8 == v / 2,
        v >> 4u8 == v / 16,
        v >> 7u8 == v / 128,
        v >> 7u8 <= 1,
{
}

proof fn lemma_top_bit(v: u8)
    by (bit_vector)
    ensures
        (v & 0x80 != 0) == (v >= 128),
        v & 0x80 == (v / 128) * 128,
        !v == 255 - v,
{
}

proof fn lemma_low_bit(v: u8)
    by (bit_vector)
    ensures
        (v & 0x01 != 0) == (v % 2 == 1),
        (v & 0x01) << 7u8 == (v % 2) * 128,
{
}

proof fn lemma_shifts(v: u8)
    ensures
        v << 1u8 == (v * 2) % 256,
        v >> 1u8 == v / 2,
        v >> 7u8 == v / 128,
        v >> 7u8 <= 1,
        v >> 4u8 == v / 16,
        v << 4u8 == (v % 16) * 16,
        (v & 0x80 != 0) == (v >= 128),
        v & 0x80 == (v / 128) * 128,
        (v & 0x01 != 0) == (v % 2 == 1),
        (v & 0x01) << 7u8 == (v % 2) * 128,
        !v == 255 - v,
{
    lemma_shift_left(v);
    lemma_nibble_up(v);
    lemma_shift_right(v);
    lemma_top_bit(v);
    lemma_low_bit(v);
}

proof fn lemma_join(high: u8, low: u8)
    by (bit_vector)
    requires
        high & low == 0,
    ensures
        high | low == high + low,
{
}

proof fn lemma_disjoint(v: u8)
    by (bit_vector)
    ensures
        (v << 1u8) & (v >> 7u8) == 0,
        (v << 1u8) & 1 == 0,
        (v >> 1u8) & 0x80 == 0,
        (v >> 1u8) & ((v & 0x01) << 7u8) == 0,
        (v >> 1u8) & (v & 0x80) == 0,
        (v << 4u8) & (v >> 4u8) == 0,
{
}

proof fn lemma_wide_nibbles(x: u16)
    by (bit_vector)
    ensures
        x & 0x0FFF == x % 0x1000,
        x & 0x0F == x % 16,
        x & 0xFF == x % 256,
{
}

/// Computes `a + v + carry` and its flags.
pub fn add(a: u8, v: u8, carry: bool) -> (out: Outcome)
    ensures
        out == add_spec(a, v, carry),
{
    let carry_in: u8 = if carry {
        1
    } else {
        0
    };
    proof {
        lemma_nibble(a);
        lemma_nibble(v);
    }
    let value = a.wrapping_add(v).wrapping_add(carry_in);
    Outcome {
        value,
        flags: Flags {
            z: value == 0,
            n: false,
            h: (a & 0x0F) + (v & 0x0F) + carry_in > 0x0F,
            c: a as u16 + v as u16 + carry_in as u16 > 0xFF,
        },
    }
}

/// Computes `a - v - borrow` and its flags.
pub fn sub(a: u8, v: u8, borrow: bool) -> (out: Outcome)
    ensures
        out == sub_spec(a, v, borrow),
{
    let borrow_in: u8 = if borrow {
        1
    } else {
        0
    };
    proof {
        lemma_nibble(a);
        lemma_nibble(v);
    }
    let value = a.wrapping_sub(v).wrapping_sub(borrow_in);
    Outcome {
        value,
        flags: Flags {
            z: value == 0,
            n: true,
            h: (a & 0x0F) < (v & 0x0F) + borrow_in,
            c: (a as u16) < v as u16 + borrow_in as u16,
        },
    }
}

/// Compares `a` with `v`.
pub fn cp(a: u8, v: u8) -> (out: Outcome)
    ensures
        out == cp_spec(a, v),
{
    Outcome { value: a, flags: self::sub(a, v, false).flags }
}

/// Computes the bitwise conjunction of `a` and `v`, and its flags.
pub fn and(a: u8, v: u8) -> (out: Outcome)
    ensures
        out == and_spec(a, v),
{
    let value = a & v;
    Outcome { value, flags: Flags { z: value == 0, n: false, h: true, c: false } }
}

/// Computes the bitwise disjunction of `a` and `v`, and its flags.
pub fn or(a: u8, v: u8) -> (out: Outcome)
    ensures
        out == or_spec(a, v),
{
    let value = a | v;
    Outcome { value, flags: Flags { z: value == 0, n: false, h: false, c: false } }
}

/// Computes the bitwise exclusive disjunction of `a` and `v`, and its
/// flags.
pub fn xor(a: u8, v: u8) -> (out: Outcome)
    ensures
        out == xor_spec(a, v),
{
    let value = a ^ v;
    Outcome { value, flags: Flags { z: value == 0, n: false, h: false, c: false } }
}

/// Computes one of the eight operations on the accumulator `a` and the
/// operand `v`.
pub fn arithmetic(kind: Arithmetic, a: u8, v: u8, flags: Flags) -> (out: Outcome)
    ensures
        out == arithmetic_spec(kind, a, v, flags),
{
    match kind {
        Arithmetic::Add => self::add(a, v, false),
        Arithmetic::Adc => self::add(a, v, flags.c),
        Arithmetic::Sub => self::sub(a, v, false),
        Arithmetic::Sbc => self::sub(a, v, flags.c),
        Arithmetic::And => and(a, v),
        Arithmetic::Xor => xor(a, v),
        Arithmetic::Or => or(a, v),
        Arithmetic::Cp => cp(a, v),
    }
}

/// Computes `v + 1` and its flags.
pub fn inc(v: u8, flags: Flags) -> (out: Outcome)
    ensures
        out == inc_spec(v, flags),
{
    proof {
        lemma_nibble(v);
    }
    let value = v.wrapping_add(1);
    Outcome { value, flags: Flags { z: value == 0, n: false, h: v & 0x0F == 0x0F, c: flags.c } }
}

/// Computes `v - 1` and its flags.
pub fn dec(v: u8, flags: Flags) -> (out: Outcome)
    ensures
        out == dec_spec(v, flags),
{
    proof {
        lemma_nibble(v);
    }
    let value = v.wrapping_sub(1);
    Outcome { value, flags: Flags { z: value == 0, n: true, h: v & 0x0F == 0, c: flags.c } }
}

fn shift_value(kind: Shift, v: u8, carry: bool) -> (value: u8)
    ensures
        value == shifted_value(kind, v, carry),
{
    let carry_in: u8 = if carry {
        1
    } else {
        0
    };
    let carry_top: u8 = if carry {
        0x80
    } else {
        0
    };
    proof {
        lemma_shifts(v);
        lemma_disjoint(v);
    }
    match kind {
        Shift::Rlc => {
            proof {
                lemma_join(v << 1u8, v >> 7u8);
            }
            (v << 1) | (v >> 7)
        },
        Shift::Rrc => {
            proof {
                lemma_join(v >> 1u8, (v & 0x01) << 7u8);
            }
            (v >> 1) | ((v & 0x01) << 7)
        },
        Shift::Rl => {
            proof {
                lemma_join_low(v << 1u8, carry_in);
            }
            (v << 1) | carry_in
        },
        Shift::Rr => {
            proof {
                lemma_join_top(v >> 1u8, carry_top);
            }
            (v >> 1) | carry_top
        },
        Shift::Sla => v << 1,
        Shift::Sra => {
            proof {
                lemma_join(v >> 1u8, v & 0x80);
            }
            (v >> 1) | (v & 0x80)
        },
        Shift::Swap => {
            proof {
                lemma_join(v << 4u8, v >> 4u8);
            }
            (v << 4) | (v >> 4)
        },
        Shift::Srl => v >> 1,
    }
}

proof fn lemma_join_low(high: u8, low: u8)
    by (bit_vector)
    requires
        high & 1 == 0,
        low <= 1,
    ensures
        high | low == high + low,
{
}

proof fn lemma_join_top(low: u8, high: u8)
    by (bit_vector)
    requires
        low & 0x80 == 0,
        high == 0x80 || high == 0,
    ensures
        low | high == low + high,
{
}

fn shift_carry(kind: Shift, v: u8) -> (carry: bool)
    ensures
        carry == shifted_out(kind, v),
{
    proof {
        lemma_shifts(v);
    }
    match kind {
        Shift::Rlc | Shift::Rl | Shift::Sla => v & 0x80 != 0,
        Shift::Rrc | Shift::Rr | Shift::Sra | Shift::Srl => v & 0x01 != 0,
        Shift::Swap => false,
    }
}

/// Rotates or shifts `v` as one of the prefixed opcodes does.
pub fn shift(kind: Shift, v: u8, flags: Flags) -> (out: Outcome)
    ensures
        out == shift_spec(kind, v, flags),
{
    let value = shift_value(kind, v, flags.c);
    Outcome { value, flags: Flags { z: value == 0, n: false, h: false, c: shift_carry(kind, v) } }
}

/// Rotates the accumulator as one of the four short opcodes does.
pub fn rotate_a(kind: Shift, a: u8, flags: Flags) -> (out: Outcome)
    ensures
        out == rotate_a_spec(kind, a, flags),
{
    Outcome {
        value: shift_value(kind, a, flags.c),
        flags: Flags { z: false, n: false, h: false, c: shift_carry(kind, a) },
    }
}

/// Tests bit `index` of `v`.
pub fn bit_test(index: u8, v: u8, flags: Flags) -> (out: Flags)
    requires
        index < 8,
    ensures
        out == bit_spec(index, v, flags),
{
    Flags { z: v & (1u8 << index) == 0, n: false, h: true, c: flags.c }
}

/// Clears bit `index` of `v`.
pub fn clear_bit(index: u8, v: u8) -> (value: u8)
    requires
        index < 8,
    ensures
        value == clear_bit_spec(index, v),
{
    v & !(1u8 << index)
}

/// Sets bit `index` of `v`.
pub fn set_bit(index: u8, v: u8) -> (value: u8)
    requires
        index < 8,
    ensures
        value == set_bit_spec(index, v),
{
    v | (1u8 << index)
}

/// Adjusts the accumulator to packed decimal after an addition or a
/// subtraction of two packed decimal numbers.
pub fn daa(a: u8, flags: Flags) -> (out: Outcome)
    ensures
        out == daa_spec(a, flags),
{
    proof {
        lemma_nibble(a);
    }
    let mut value = a;
    let mut carry = flags.c;
    if flags.n {
        if flags.c {
            value = value.wrapping_sub(0x60);
        }
        if flags.h {
            value = value.wrapping_sub(0x06);
        }
    } else {
        if flags.c || a > 0x99 {
            value = value.wrapping_add(0x60);
            carry = true;
        }
        if flags.h || (a & 0x0F) > 0x09 {
            value = value.wrapping_add(0x06);
        }
    }
    Outcome { value, flags: Flags { z: value == 0, n: flags.n, h: false, c: carry } }
}

/// Complements the accumulator.
pub fn cpl(a: u8, flags: Flags) -> (out: Outcome)
    ensures
        out == cpl_spec(a, flags),
{
    proof {
        lemma_shifts(a);
    }
    Outcome { value: !a, flags: Flags { z: flags.z, c: flags.c, n: true, h: true } }
}

/// Computes `x + y` on words, and its flags.
pub fn add16(x: u16, y: u16, flags: Flags) -> (out: WideOutcome)
    ensures
        out == add16_spec(x, y, flags),
{
    proof {
        lemma_wide_nibbles(x);
        lemma_wide_nibbles(y);
    }
    WideOutcome {
        value: x.wrapping_add(y),
        flags: Flags {
            z: flags.z,
            n: false,
            h: (x & 0x0FFF) + (y & 0x0FFF) > 0x0FFF,
            c: x as u32 + y as u32 > 0xFFFF,
        },
    }
}

/// Reads a byte as a signed offset.
pub fn to_signed(byte: u8) -> (offset: i8)
    ensures
        offset == signed(byte),
        unsigned(offset) == byte,
{
    if byte < 128 {
        byte as i8
    } else {
        (byte as i16 - 256) as i8
    }
}

/// The byte that holds a signed offset.
pub fn to_unsigned(offset: i8) -> (byte: u8)
    ensures
        byte == unsigned(offset),
        signed(byte) == offset,
{
    if offset < 0 {
        (offset as i16 + 256) as u8
    } else {
        offset as u8
    }
}

/// Moves `base` by a signed distance, wrapping at 16 bits.
pub fn displace(base: u16, offset: i8) -> (moved: u16)
    ensures
        moved == displaced(base, offset as int),
{
    base.wrapping_add_signed(offset as i16)
}

/// Computes the stack pointer plus a signed byte offset, and its flags.
pub fn add_offset(sp: u16, offset: u8) -> (out: WideOutcome)
    ensures
        out == add_offset_spec(sp, offset),
{
    proof {
        lemma_wide_nibbles(sp);
        lemma_nibble(offset);
    }
    WideOutcome {
        value: displace(sp, to_signed(offset)),
        flags: Flags {
            z: false,
            n: false,
            h: (sp & 0x0F) + (offset & 0x0F) as u16 > 0x0F,
            c: (sp & 0xFF) + offset as u16 > 0xFF,
        },
    }
}

} // verus!
