use rgb_emu::cpu::alu::{
    add, add16, add_offset, and, arithmetic, bit_test, clear_bit, cp, cpl, daa, dec, displace, inc, or,
    rotate_a, set_bit, shift, sub, to_signed, to_unsigned, xor, Arithmetic, Outcome, Shift,
    WideOutcome,
};
use rgb_emu::cpu::Flags;

fn flags(z: bool, n: bool, h: bool, c: bool) -> Flags {
    Flags { z, n, h, c }
}

fn clear() -> Flags {
    flags(false, false, false, false)
}

fn carry() -> Flags {
    flags(false, false, false, true)
}

fn outcome(value: u8, z: bool, n: bool, h: bool, c: bool) -> Outcome {
    Outcome { value, flags: flags(z, n, h, c) }
}

#[test]
fn add_sets_half_carry_and_carry() {
    assert_eq!(add(0x3A, 0xC6, false), outcome(0x00, true, false, true, true));
    assert_eq!(add(0x3C, 0xFF, false), outcome(0x3B, false, false, true, true));
    assert_eq!(add(0x3C, 0x12, false), outcome(0x4E, false, false, false, false));
    assert_eq!(add(0x0F, 0x01, false), outcome(0x10, false, false, true, false));
    assert_eq!(add(0xF0, 0x10, false), outcome(0x00, true, false, false, true));
    assert_eq!(add(0x00, 0x00, false), outcome(0x00, true, false, false, false));
}

#[test]
fn add_with_carry_counts_the_carry_in_both_flags() {
    assert_eq!(add(0xE1, 0x0F, true), outcome(0xF1, false, false, true, false));
    assert_eq!(add(0xE1, 0x3B, true), outcome(0x1D, false, false, false, true));
    assert_eq!(add(0xE1, 0x1E, true), outcome(0x00, true, false, true, true));
    assert_eq!(add(0xFF, 0x00, true), outcome(0x00, true, false, true, true));
    assert_eq!(add(0x0F, 0x00, true), outcome(0x10, false, false, true, false));
    assert_eq!(add(0xFF, 0xFF, true), outcome(0xFF, false, false, true, true));
}

#[test]
fn sub_sets_borrows() {
    assert_eq!(sub(0x3E, 0x3E, false), outcome(0x00, true, true, false, false));
    assert_eq!(sub(0x3E, 0x0F, false), outcome(0x2F, false, true, true, false));
    assert_eq!(sub(0x3E, 0x40, false), outcome(0xFE, false, true, false, true));
    assert_eq!(sub(0x00, 0x01, false), outcome(0xFF, false, true, true, true));
}

#[test]
fn sub_with_borrow_counts_the_borrow_in_both_flags() {
    assert_eq!(sub(0x3B, 0x2A, true), outcome(0x10, false, true, false, false));
    assert_eq!(sub(0x3B, 0x3A, true), outcome(0x00, true, true, false, false));
    assert_eq!(sub(0x3B, 0x4F, true), outcome(0xEB, false, true, true, true));
    assert_eq!(sub(0x00, 0x00, true), outcome(0xFF, false, true, true, true));
    assert_eq!(sub(0x10, 0x0F, true), outcome(0x00, true, true, true, false));
    assert_eq!(sub(0x00, 0xFF, true), outcome(0x00, true, true, true, true));
}

#[test]
fn compare_keeps_the_accumulator() {
    assert_eq!(cp(0x3C, 0x2F), outcome(0x3C, false, true, true, false));
    assert_eq!(cp(0x3C, 0x3C), outcome(0x3C, true, true, false, false));
    assert_eq!(cp(0x3C, 0x40), outcome(0x3C, false, true, false, true));
}

#[test]
fn logic_operations() {
    assert_eq!(and(0x5A, 0x3F), outcome(0x1A, false, false, true, false));
    assert_eq!(and(0x5A, 0x00), outcome(0x00, true, false, true, false));
    assert_eq!(or(0x5A, 0x0F), outcome(0x5F, false, false, false, false));
    assert_eq!(or(0x00, 0x00), outcome(0x00, true, false, false, false));
    assert_eq!(xor(0xFF, 0x0F), outcome(0xF0, false, false, false, false));
    assert_eq!(xor(0xFF, 0xFF), outcome(0x00, true, false, false, false));
}

#[test]
fn arithmetic_dispatches_by_kind() {
    let with_carry = carry();
    assert_eq!(arithmetic(Arithmetic::Add, 0x10, 0x01, with_carry), add(0x10, 0x01, false));
    assert_eq!(arithmetic(Arithmetic::Adc, 0x10, 0x01, with_carry), add(0x10, 0x01, true));
    assert_eq!(arithmetic(Arithmetic::Adc, 0x10, 0x01, clear()), add(0x10, 0x01, false));
    assert_eq!(arithmetic(Arithmetic::Sub, 0x10, 0x01, with_carry), sub(0x10, 0x01, false));
    assert_eq!(arithmetic(Arithmetic::Sbc, 0x10, 0x01, with_carry), sub(0x10, 0x01, true));
    assert_eq!(arithmetic(Arithmetic::And, 0x13, 0x31, with_carry), and(0x13, 0x31));
    assert_eq!(arithmetic(Arithmetic::Xor, 0x13, 0x31, with_carry), xor(0x13, 0x31));
    assert_eq!(arithmetic(Arithmetic::Or, 0x13, 0x31, with_carry), or(0x13, 0x31));
    assert_eq!(arithmetic(Arithmetic::Cp, 0x13, 0x31, with_carry), cp(0x13, 0x31));
    assert_eq!(arithmetic(Arithmetic::Adc, 0x10, 0x01, with_carry).value, 0x12);
    assert_eq!(arithmetic(Arithmetic::Sbc, 0x10, 0x01, with_carry).value, 0x0E);
}

#[test]
fn increment_and_decrement_keep_carry() {
    assert_eq!(inc(0xFF, carry()), outcome(0x00, true, false, true, true));
    assert_eq!(inc(0x50, clear()), outcome(0x51, false, false, false, false));
    assert_eq!(inc(0x0F, clear()), outcome(0x10, false, false, true, false));
    assert_eq!(dec(0x01, carry()), outcome(0x00, true, true, false, true));
    assert_eq!(dec(0x00, clear()), outcome(0xFF, false, true, true, false));
    assert_eq!(dec(0x10, clear()), outcome(0x0F, false, true, true, false));
    assert_eq!(dec(0x11, clear()), outcome(0x10, false, true, false, false));
}

#[test]
fn prefixed_rotations_and_shifts() {
    assert_eq!(shift(Shift::Rlc, 0x85, clear()), outcome(0x0B, false, false, false, true));
    assert_eq!(shift(Shift::Rlc, 0x00, carry()), outcome(0x00, true, false, false, false));
    assert_eq!(shift(Shift::Rrc, 0x01, clear()), outcome(0x80, false, false, false, true));
    assert_eq!(shift(Shift::Rrc, 0x00, carry()), outcome(0x00, true, false, false, false));
    assert_eq!(shift(Shift::Rl, 0x80, clear()), outcome(0x00, true, false, false, true));
    assert_eq!(shift(Shift::Rl, 0x11, carry()), outcome(0x23, false, false, false, false));
    assert_eq!(shift(Shift::Rr, 0x01, clear()), outcome(0x00, true, false, false, true));
    assert_eq!(shift(Shift::Rr, 0x8A, carry()), outcome(0xC5, false, false, false, false));
    assert_eq!(shift(Shift::Sla, 0x80, clear()), outcome(0x00, true, false, false, true));
    assert_eq!(shift(Shift::Sla, 0xFF, carry()), outcome(0xFE, false, false, false, true));
    assert_eq!(shift(Shift::Sra, 0x8A, clear()), outcome(0xC5, false, false, false, false));
    assert_eq!(shift(Shift::Sra, 0x01, clear()), outcome(0x00, true, false, false, true));
    assert_eq!(shift(Shift::Srl, 0x01, clear()), outcome(0x00, true, false, false, true));
    assert_eq!(shift(Shift::Srl, 0xFF, clear()), outcome(0x7F, false, false, false, true));
    assert_eq!(shift(Shift::Swap, 0x00, carry()), outcome(0x00, true, false, false, false));
    assert_eq!(shift(Shift::Swap, 0xF1, carry()), outcome(0x1F, false, false, false, false));
}

#[test]
fn swap_twice_is_identity_for_every_byte() {
    for value in 0u8..=255 {
        let once = shift(Shift::Swap, value, carry());
        let twice = shift(Shift::Swap, once.value, once.flags);
        assert_eq!(twice.value, value);
        assert!(!once.flags.c);
        assert!(!twice.flags.c);
        assert_eq!(once.value, value.rotate_right(4));
    }
}

#[test]
fn shifts_match_the_machine_operations_for_every_byte() {
    for value in 0u8..=255 {
        for &c in &[false, true] {
            let f = flags(true, true, true, c);
            let carry_in = u8::from(c);
            assert_eq!(shift(Shift::Rlc, value, f).value, value.rotate_left(1));
            assert_eq!(shift(Shift::Rrc, value, f).value, value.rotate_right(1));
            assert_eq!(shift(Shift::Rl, value, f).value, (value << 1) | carry_in);
            assert_eq!(shift(Shift::Rr, value, f).value, (value >> 1) | (carry_in << 7));
            assert_eq!(shift(Shift::Sla, value, f).value, value << 1);
            assert_eq!(shift(Shift::Sra, value, f).value, ((value as i8) >> 1) as u8);
            assert_eq!(shift(Shift::Srl, value, f).value, value >> 1);
            for kind in [Shift::Rlc, Shift::Rl, Shift::Sla] {
                assert_eq!(shift(kind, value, f).flags.c, value & 0x80 != 0);
            }
            for kind in [Shift::Rrc, Shift::Rr, Shift::Sra, Shift::Srl] {
                assert_eq!(shift(kind, value, f).flags.c, value & 0x01 != 0);
            }
        }
    }
}

#[test]
fn accumulator_rotations_clear_zero() {
    assert_eq!(rotate_a(Shift::Rlc, 0x85, clear()), outcome(0x0B, false, false, false, true));
    assert_eq!(rotate_a(Shift::Rl, 0x95, carry()), outcome(0x2B, false, false, false, true));
    assert_eq!(rotate_a(Shift::Rrc, 0x3B, clear()), outcome(0x9D, false, false, false, true));
    assert_eq!(rotate_a(Shift::Rr, 0x81, clear()), outcome(0x40, false, false, false, true));
    assert_eq!(rotate_a(Shift::Rlc, 0x00, flags(true, true, true, true)), outcome(0x00, false, false, false, false));
    assert_eq!(rotate_a(Shift::Rl, 0x80, clear()), outcome(0x00, false, false, false, true));
}

#[test]
fn bit_operations() {
    assert_eq!(bit_test(7, 0x80, carry()), flags(false, false, true, true));
    assert_eq!(bit_test(4, 0xEF, clear()), flags(true, false, true, false));
    assert_eq!(bit_test(0, 0x01, clear()), flags(false, false, true, false));
    assert_eq!(clear_bit(7, 0x80), 0x00);
    assert_eq!(clear_bit(1, 0x3B), 0x39);
    assert_eq!(clear_bit(0, 0xFE), 0xFE);
    assert_eq!(set_bit(3, 0x80), 0x88);
    assert_eq!(set_bit(7, 0x3B), 0xBB);
    assert_eq!(set_bit(0, 0x01), 0x01);
    for index in 0u8..8 {
        for value in [0x00u8, 0xFF, 0xA5, 0x5A] {
            assert!(!bit_test(index, set_bit(index, value), clear()).z);
            assert!(bit_test(index, clear_bit(index, value), clear()).z);
        }
    }
}

#[test]
fn decimal_adjust_after_addition() {
    // 45 + 38 = 83
    let sum = add(0x45, 0x38, false);
    assert_eq!(sum.value, 0x7D);
    assert_eq!(daa(sum.value, sum.flags), outcome(0x83, false, false, false, false));
    // 99 + 01 = 100
    let sum = add(0x99, 0x01, false);
    assert_eq!(daa(sum.value, sum.flags), outcome(0x00, true, false, false, true));
    // 19 + 28 = 47: the half carry corrects the low digit.
    let sum = add(0x19, 0x28, false);
    assert_eq!(sum.value, 0x41);
    assert!(sum.flags.h);
    assert_eq!(daa(sum.value, sum.flags), outcome(0x47, false, false, false, false));
    // 90 + 90 = 180: the carry corrects the high digit.
    let sum = add(0x90, 0x90, false);
    assert_eq!(sum.value, 0x20);
    assert_eq!(daa(sum.value, sum.flags), outcome(0x80, false, false, false, true));
    assert_eq!(daa(0x9A, clear()), outcome(0x00, true, false, false, true));
    assert_eq!(daa(0x0A, clear()), outcome(0x10, false, false, false, false));
    assert_eq!(daa(0xA0, clear()), outcome(0x00, true, false, false, true));
}

#[test]
fn decimal_adjust_after_subtraction() {
    // 83 - 38 = 45
    let difference = sub(0x83, 0x38, false);
    assert_eq!(difference.value, 0x4B);
    assert_eq!(daa(difference.value, difference.flags), outcome(0x45, false, true, false, false));
    // 00 - 01 = 99 with a borrow
    let difference = sub(0x00, 0x01, false);
    assert_eq!(daa(difference.value, difference.flags), outcome(0x99, false, true, false, true));
    assert_eq!(daa(0x00, flags(false, true, false, false)), outcome(0x00, true, true, false, false));
    assert_eq!(daa(0x9A, flags(false, true, false, false)), outcome(0x9A, false, true, false, false));
}

#[test]
fn decimal_adjust_agrees_with_decimal_arithmetic() {
    for x in 0u32..100 {
        for y in 0u32..100 {
            let a = ((x / 10) << 4 | (x % 10)) as u8;
            let b = ((y / 10) << 4 | (y % 10)) as u8;
            let sum = add(a, b, false);
            let adjusted = daa(sum.value, sum.flags);
            let expected = (x + y) % 100;
            assert_eq!(adjusted.value, ((expected / 10) << 4 | (expected % 10)) as u8);
            assert_eq!(adjusted.flags.c, x + y > 99);
            let difference = sub(a, b, false);
            let adjusted = daa(difference.value, difference.flags);
            let expected = (100 + x - y) % 100;
            assert_eq!(adjusted.value, ((expected / 10) << 4 | (expected % 10)) as u8);
            assert_eq!(adjusted.flags.c, x < y);
        }
    }
}

#[test]
fn complement() {
    assert_eq!(cpl(0x35, clear()), outcome(0xCA, false, true, true, false));
    assert_eq!(cpl(0xFF, flags(true, false, false, true)), outcome(0x00, true, true, true, true));
}

#[test]
fn wide_addition() {
    let keep_z = flags(true, true, false, false);
    assert_eq!(
        add16(0x8A23, 0x0605, keep_z),
        WideOutcome { value: 0x9028, flags: flags(true, false, true, false) }
    );
    assert_eq!(
        add16(0x8A23, 0x8A23, clear()),
        WideOutcome { value: 0x1446, flags: flags(false, false, true, true) }
    );
    assert_eq!(
        add16(0xFFFF, 0x0001, clear()),
        WideOutcome { value: 0x0000, flags: flags(false, false, true, true) }
    );
    assert_eq!(
        add16(0x0FFF, 0x0001, clear()),
        WideOutcome { value: 0x1000, flags: flags(false, false, true, false) }
    );
}

#[test]
fn stack_pointer_plus_offset() {
    assert_eq!(
        add_offset(0xFFF8, 0x02),
        WideOutcome { value: 0xFFFA, flags: flags(false, false, false, false) }
    );
    assert_eq!(
        add_offset(0x0000, 0xFF),
        WideOutcome { value: 0xFFFF, flags: flags(false, false, false, false) }
    );
    assert_eq!(
        add_offset(0x0001, 0xFF),
        WideOutcome { value: 0x0000, flags: flags(false, false, true, true) }
    );
    assert_eq!(
        add_offset(0x00FF, 0x01),
        WideOutcome { value: 0x0100, flags: flags(false, false, true, true) }
    );
    assert_eq!(
        add_offset(0x000F, 0x01),
        WideOutcome { value: 0x0010, flags: flags(false, false, true, false) }
    );
    assert_eq!(
        add_offset(0xDFF0, 0x80),
        WideOutcome { value: 0xDF70, flags: flags(false, false, false, true) }
    );
}

#[test]
fn signed_bytes() {
    assert_eq!(to_signed(0x00), 0);
    assert_eq!(to_signed(0x7F), 127);
    assert_eq!(to_signed(0x80), -128);
    assert_eq!(to_signed(0xFF), -1);
    assert_eq!(to_unsigned(-1), 0xFF);
    assert_eq!(to_unsigned(-128), 0x80);
    assert_eq!(to_unsigned(127), 0x7F);
    for byte in 0u8..=255 {
        assert_eq!(to_signed(byte), byte as i8);
        assert_eq!(to_unsigned(to_signed(byte)), byte);
    }
}

#[test]
fn displacement_wraps() {
    assert_eq!(displace(0x0100, 5), 0x0105);
    assert_eq!(displace(0x0100, -5), 0x00FB);
    assert_eq!(displace(0x0000, -1), 0xFFFF);
    assert_eq!(displace(0xFFFF, 1), 0x0000);
    assert_eq!(displace(0x0010, -128), 0xFF90);
    assert_eq!(displace(0xFFF0, 127), 0x006F);
}
