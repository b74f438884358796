//! The arithmetic and logic of the 65C02, on plain bytes and flags.

use vstd::prelude::*;
use super::registers::{bit_value, Flags};

verus! {

/// A byte read as a two's complement number.
pub open spec fn signed(value: u8) -> int {
    if value < 128 {
        value as int
    } else {
        value - 256
    }
}

/// Whether both nibbles of a byte are decimal digits.
pub open spec fn is_bcd(value: u8) -> bool {
    value / 16 < 10 && value % 16 < 10
}

/// The number from 0 to 99 that a byte of two decimal digits stands for.
pub open spec fn bcd_value(value: u8) -> int {
    (value / 16) * 10 + value % 16
}

/// Binary addition with carry. Carry is the carry out of bit 7; overflow
/// says that the signed sum does not fit in a byte.
pub open spec fn add_binary_spec(flags: Flags, a: u8, m: u8) -> (u8, Flags) {
    let sum = a + m + bit_value(flags.carry);
    let signed_sum = signed(a) + signed(m) + bit_value(flags.carry);
    let value = (sum % 256) as u8;
    (
        value,
        Flags {
            carry: sum > 255,
            overflow: signed_sum < -128 || signed_sum > 127,
            ..flags.with_nz(value)
        },
    )
}

/// Decimal addition with carry, as the 65C02 performs it on any two bytes:
/// the low digits are added and corrected, then the high digits. Zero and
/// negative describe the result; overflow is taken before the high digit is
/// corrected.
pub open spec fn add_decimal_spec(flags: Flags, a: u8, m: u8) -> (u8, Flags) {
    let low = a % 16 + m % 16 + bit_value(flags.carry);
    let low_fixed = if low >= 10 {
        (low + 6) % 16 + 16
    } else {
        low
    };
    let sum = (a / 16) * 16 + (m / 16) * 16 + low_fixed;
    let signed_sum = signed((a / 16 * 16) as u8) + signed((m / 16 * 16) as u8) + low_fixed;
    let sum_fixed = if sum >= 0xA0 {
        sum + 0x60
    } else {
        sum
    };
    let value = (sum_fixed % 256) as u8;
    (
        value,
        Flags {
            carry: sum_fixed > 255,
            overflow: signed_sum < -128 || signed_sum > 127,
            ..flags.with_nz(value)
        },
    )
}

/// What `ADC` computes: the accumulator plus the operand plus carry, in
/// decimal if the decimal flag is set.
pub open spec fn adc_spec(flags: Flags, a: u8, m: u8) -> (u8, Flags) {
    if flags.decimal {
        add_decimal_spec(flags, a, m)
    } else {
        add_binary_spec(flags, a, m)
    }
}

/// Binary subtraction with borrow: a clear carry borrows one. Carry is set
/// when the difference needs no borrow; overflow says that the signed
/// difference does not fit in a byte.
pub open spec fn subtract_binary_spec(flags: Flags, a: u8, m: u8) -> (u8, Flags) {
    let difference = a - m - (1 - bit_value(flags.carry));
    let signed_difference = signed(a) - signed(m) - (1 - bit_value(flags.carry));
    let value = (difference % 256) as u8;
    (
        value,
        Flags {
            carry: difference >= 0,
            overflow: signed_difference < -128 || signed_difference > 127,
            ..flags.with_nz(value)
        },
    )
}

/// Decimal subtraction with borrow, as the 65C02 performs it on any two
/// bytes. Carry and overflow are those of the binary subtraction; zero and
/// negative describe the result.
pub open spec fn subtract_decimal_spec(flags: Flags, a: u8, m: u8) -> (u8, Flags) {
    let borrow = 1 - bit_value(flags.carry);
    let low = a % 16 - m % 16 - borrow;
    let difference = a - m - borrow;
    let high_fixed = if difference < 0 {
        difference - 0x60
    } else {
        difference
    };
    let fixed = if low < 0 {
        high_fixed - 0x06
    } else {
        high_fixed
    };
    let value = (fixed % 256) as u8;
    let binary = subtract_binary_spec(flags, a, m).1;
    (value, Flags { zero: value == 0, negative: value >= 128, ..binary })
}

/// What `SBC` computes: the accumulator minus the operand minus the borrow,
/// in decimal if the decimal flag is set.
pub open spec fn sbc_spec(flags: Flags, a: u8, m: u8) -> (u8, Flags) {
    if flags.decimal {
        subtract_decimal_spec(flags, a, m)
    } else {
        subtract_binary_spec(flags, a, m)
    }
}

/// What a comparison leaves in the flags: carry if the register is at least
/// the operand, zero if they are equal, negative from bit 7 of the
/// difference.
pub open spec fn compare_spec(flags: Flags, register: u8, m: u8) -> Flags {
    Flags { carry: register >= m, ..flags.with_nz(((register - m) % 256) as u8) }
}

/// `ASL`: bit 7 goes to carry, zero comes into bit 0.
pub open spec fn shift_left_spec(flags: Flags, value: u8) -> (u8, Flags) {
    let result = ((value * 2) % 256) as u8;
    (result, Flags { carry: value >= 128, ..flags.with_nz(result) })
}

/// `LSR`: bit 0 goes to carry, zero comes into bit 7.
pub open spec fn shift_right_spec(flags: Flags, value: u8) -> (u8, Flags) {
    let result = value / 2;
    (result, Flags { carry: value % 2 == 1, ..flags.with_nz(result) })
}

/// `ROL`: bit 7 goes to carry, the old carry comes into bit 0.
pub open spec fn rotate_left_spec(flags: Flags, value: u8) -> (u8, Flags) {
    let result = ((value * 2 + bit_value(flags.carry)) % 256) as u8;
    (result, Flags { carry: value >= 128, ..flags.with_nz(result) })
}

/// `ROR`: bit 0 goes to carry, the old carry comes into bit 7.
pub open spec fn rotate_right_spec(flags: Flags, value: u8) -> (u8, Flags) {
    let result = (value / 2 + 128 * bit_value(flags.carry)) as u8;
    (result, Flags { carry: value % 2 == 1, ..flags.with_nz(result) })
}

/// One more than `value`, within a byte.
pub open spec fn increment_spec(value: u8) -> u8 {
    ((value + 1) % 256) as u8
}

/// One less than `value`, within a byte.
pub open spec fn decrement_spec(value: u8) -> u8 {
    ((value - 1) % 256) as u8
}

/// What `BIT` leaves in the flags: zero says that the accumulator and the
/// operand share no bit. Unless the operand is immediate, negative and
/// overflow are bits 7 and 6 of the operand.
pub open spec fn bit_test_spec(flags: Flags, a: u8, m: u8, immediate: bool) -> Flags {
    if immediate {
        Flags { zero: a & m == 0, ..flags }
    } else {
        Flags { zero: a & m == 0, negative: m & 0x80 != 0, overflow: m & 0x40 != 0, ..flags }
    }
}

/// The byte in which only the bit that a bit instruction names is set. Of
/// the number that the instruction carries, the low three bits count.
pub open spec fn bit_mask_spec(bit: u8) -> u8 {
    1u8 << (bit % 8)
}

/// Binary addition with carry.
pub fn add_binary(flags: Flags, a: u8, m: u8) -> (r: (u8, Flags))
    ensures
        r == add_binary_spec(flags, a, m),
{
    let carry_in: u16 = if flags.carry {
        1
    } else {
        0
    };
    let sum: u16 = a as u16 + m as u16 + carry_in;
    let value: u8 = (sum % 256) as u8;
    let overflow = (a < 0x80) == (m < 0x80) && (value < 0x80) != (a < 0x80);
    (
        value,
        Flags {
            negative: value >= 0x80,
            overflow,
            decimal: flags.decimal,
            interrupt_disable: flags.interrupt_disable,
            zero: value == 0,
            carry: sum > 0xFF,
        },
    )
}

/// Binary subtraction with borrow: the sum with the complement of the
/// operand.
pub fn subtract_binary(flags: Flags, a: u8, m: u8) -> (r: (u8, Flags))
    ensures
        r == subtract_binary_spec(flags, a, m),
{
    add_binary(flags, a, 0xFF - m)
}

/// Decimal addition with carry.
pub fn add_decimal(flags: Flags, a: u8, m: u8) -> (r: (u8, Flags))
    ensures
        r == add_decimal_spec(flags, a, m),
{
    let carry_in: u16 = if flags.carry {
        1
    } else {
        0
    };
    let mut low: u16 = (a % 16) as u16 + (m % 16) as u16 + carry_in;
    if low >= 10 {
        low = (low + 6) % 16 + 16;
    }
    let a_high: u8 = a / 16 * 16;
    let m_high: u8 = m / 16 * 16;
    let mut sum: u16 = a_high as u16 + m_high as u16 + low;
    // the signed sum of the high digits and the low digits is out of range
    // when both high digits have one sign and the sum has the other
    let overflow = if a_high < 0x80 && m_high < 0x80 {
        sum > 127
    } else if a_high >= 0x80 && m_high >= 0x80 {
        sum < 512 - 128
    } else {
        false
    };
    if sum >= 0xA0 {
        sum += 0x60;
    }
    let value: u8 = (sum % 256) as u8;
    (
        value,
        Flags {
            negative: value >= 0x80,
            overflow,
            decimal: flags.decimal,
            interrupt_disable: flags.interrupt_disable,
            zero: value == 0,
            carry: sum > 0xFF,
        },
    )
}

/// Decimal subtraction with borrow.
pub fn subtract_decimal(flags: Flags, a: u8, m: u8) -> (r: (u8, Flags))
    ensures
        r == subtract_decimal_spec(flags, a, m),
{
    let borrow: i16 = if flags.carry {
        0
    } else {
        1
    };
    let low: i16 = (a % 16) as i16 - (m % 16) as i16 - borrow;
    let mut difference: i16 = a as i16 - m as i16 - borrow;
    if difference < 0 {
        difference -= 0x60;
    }
    if low < 0 {
        difference -= 0x06;
    }
    let value: u8 = ((difference + 512) % 256) as u8;
    let binary = subtract_binary(flags, a, m).1;
    (
        value,
        Flags {
            negative: value >= 0x80,
            overflow: binary.overflow,
            decimal: binary.decimal,
            interrupt_disable: binary.interrupt_disable,
            zero: value == 0,
            carry: binary.carry,
        },
    )
}

/// `ADC`.
pub fn add_with_carry(flags: Flags, a: u8, m: u8) -> (r: (u8, Flags))
    ensures
        r == adc_spec(flags, a, m),
{
    if flags.decimal {
        add_decimal(flags, a, m)
    } else {
        add_binary(flags, a, m)
    }
}

/// `SBC`.
pub fn subtract_with_borrow(flags: Flags, a: u8, m: u8) -> (r: (u8, Flags))
    ensures
        r == sbc_spec(flags, a, m),
{
    if flags.decimal {
        subtract_decimal(flags, a, m)
    } else {
        subtract_binary(flags, a, m)
    }
}

/// `CMP`, `CPX` and `CPY`.
pub fn compare(flags: Flags, register: u8, m: u8) -> (r: Flags)
    ensures
        r == compare_spec(flags, register, m),
{
    let difference = register.wrapping_sub(m);
    Flags {
        negative: difference >= 0x80,
        overflow: flags.overflow,
        decimal: flags.decimal,
        interrupt_disable: flags.interrupt_disable,
        zero: difference == 0,
        carry: register >= m,
    }
}

proof fn lemma_shifts(value: u8, carry: u8)
    by (bit_vector)
    requires
        carry <= 1,
    ensures
        value << 1 == (value % 128) * 2,
        value >> 1 == value / 2,
        (value << 1) | carry == (value % 128) * 2 + carry,
        (value >> 1) | (carry << 7) == value / 2 + 128 * carry,
        (value & 0x80 != 0) == (value >= 128),
        (value & 0x01 != 0) == (value % 2 == 1),
{
}

/// `ASL`.
pub fn shift_left(flags: Flags, value: u8) -> (r: (u8, Flags))
    ensures
        r == shift_left_spec(flags, value),
{
    proof {
        lemma_shifts(value, 0);
    }
    let result = value << 1;
    let flags = flags.set_nz(result);
    (result, Flags { carry: value & 0x80 != 0, ..flags })
}

/// `LSR`.
pub fn shift_right(flags: Flags, value: u8) -> (r: (u8, Flags))
    ensures
        r == shift_right_spec(flags, value),
{
    proof {
        lemma_shifts(value, 0);
    }
    let result = value >> 1;
    let flags = flags.set_nz(result);
    (result, Flags { carry: value & 0x01 != 0, ..flags })
}

/// `ROL`.
pub fn rotate_left(flags: Flags, value: u8) -> (r: (u8, Flags))
    ensures
        r == rotate_left_spec(flags, value),
{
    let carry_in: u8 = if flags.carry {
        1
    } else {
        0
    };
    proof {
        lemma_shifts(value, carry_in);
    }
    let result = (value << 1) | carry_in;
    let flags = flags.set_nz(result);
    (result, Flags { carry: value & 0x80 != 0, ..flags })
}

/// `ROR`.
pub fn rotate_right(flags: Flags, value: u8) -> (r: (u8, Flags))
    ensures
        r == rotate_right_spec(flags, value),
{
    let carry_in: u8 = if flags.carry {
        1
    } else {
        0
    };
    proof {
        lemma_shifts(value, carry_in);
    }
    let result = (value >> 1) | (carry_in << 7);
    let flags = flags.set_nz(result);
    (result, Flags { carry: value & 0x01 != 0, ..flags })
}

/// `BIT`.
pub fn bit_test(flags: Flags, a: u8, m: u8, immediate: bool) -> (r: Flags)
    ensures
        r == bit_test_spec(flags, a, m, immediate),
{
    if immediate {
        Flags { zero: a & m == 0, ..flags }
    } else {
        Flags { zero: a & m == 0, negative: m & 0x80 != 0, overflow: m & 0x40 != 0, ..flags }
    }
}

/// The mask of the bit that a bit instruction names.
pub fn bit_mask(bit: u8) -> (mask: u8)
    ensures
        mask == bit_mask_spec(bit),
{
    1u8 << (bit % 8)
}

/// In binary, subtracting an operand is adding its complement.
pub proof fn lemma_subtract_is_add_of_complement(flags: Flags, a: u8, m: u8)
    ensures
        subtract_binary_spec(flags, a, m) == add_binary_spec(flags, a, (255 - m) as u8),
{
}

/// A comparison leaves the carry, zero and negative flags of a binary
/// subtraction without borrow, and leaves overflow alone.
pub proof fn lemma_compare_is_subtraction(flags: Flags, register: u8, m: u8)
    ensures
        compare_spec(flags, register, m) == (Flags {
            overflow: flags.overflow,
            ..subtract_binary_spec(Flags { carry: true, ..flags }, register, m).1
        }),
{
}

/// A byte is sixteen times its high nibble plus its low nibble.
proof fn lemma_nibbles(value: u8)
    ensures
        value == 16 * (value / 16) + value % 16,
        0 <= value / 16 < 16,
        0 <= value % 16 < 16,
{
}

/// The byte made of two nibbles has those nibbles.
proof fn lemma_digits(value: u8, high: int, low: int)
    requires
        0 <= high < 16,
        0 <= low < 16,
        value == 16 * high + low,
    ensures
        value / 16 == high,
        value % 16 == low,
{
}

/// A number that differs from `rest` by a multiple of `modulus` has `rest`
/// as its remainder.
proof fn lemma_remainder(number: int, turns: int, modulus: int, rest: int)
    by (nonlinear_arith)
    requires
        modulus > 0,
        0 <= rest < modulus,
        number == turns * modulus + rest,
    ensures
        number % modulus == rest,
{
}

/// On two bytes of decimal digits, decimal addition gives the decimal digits
/// of the sum modulo 100, and carry says that the sum reached 100.
#[verifier::rlimit(50)]
pub proof fn lemma_add_decimal_on_digits(flags: Flags, a: u8, m: u8)
    requires
        is_bcd(a),
        is_bcd(m),
    ensures
        is_bcd(add_decimal_spec(flags, a, m).0),
        bcd_value(add_decimal_spec(flags, a, m).0) == (bcd_value(a) + bcd_value(m) + bit_value(
            flags.carry,
        )) % 100,
        add_decimal_spec(flags, a, m).1.carry == (bcd_value(a) + bcd_value(m) + bit_value(
            flags.carry,
        ) >= 100),
{
    lemma_nibbles(a);
    lemma_nibbles(m);
    let low = a % 16 + m % 16 + bit_value(flags.carry);
    // the low digit of the result, and what it carries into the high digit
    let digit = if low >= 10 {
        low - 10
    } else {
        low
    };
    let carried = if low >= 10 {
        1int
    } else {
        0int
    };
    let low_fixed = if low >= 10 {
        (low + 6) % 16 + 16
    } else {
        low
    };
    assert(low_fixed == 16 * carried + digit) by {
        if low >= 10 {
            lemma_remainder(low + 6, 1, 16, low - 10);
        }
    }
    let high = a / 16 + m / 16 + carried;
    let sum = (a / 16) * 16 + (m / 16) * 16 + low_fixed;
    let sum_fixed = if sum >= 0xA0 {
        sum + 0x60
    } else {
        sum
    };
    // the high digit of the result, and what it carries out
    let high_digit = if high >= 10 {
        high - 10
    } else {
        high
    };
    let carried_out = if high >= 10 {
        1int
    } else {
        0int
    };
    assert(sum_fixed == carried_out * 256 + (16 * high_digit + digit));
    lemma_remainder(sum_fixed, carried_out, 256, 16 * high_digit + digit);
    let value = (sum_fixed % 256) as u8;
    assert(value == add_decimal_spec(flags, a, m).0);
    lemma_digits(value, high_digit, digit);
    let total = bcd_value(a) + bcd_value(m) + bit_value(flags.carry);
    assert(total == carried_out * 100 + (10 * high_digit + digit));
    lemma_remainder(total, carried_out, 100, 10 * high_digit + digit);
}

/// On two bytes of decimal digits, decimal subtraction gives the decimal
/// digits of the difference modulo 100, and carry says that nothing had to
/// be borrowed.
#[verifier::rlimit(50)]
pub proof fn lemma_subtract_decimal_on_digits(flags: Flags, a: u8, m: u8)
    requires
        is_bcd(a),
        is_bcd(m),
    ensures
        is_bcd(subtract_decimal_spec(flags, a, m).0),
        bcd_value(subtract_decimal_spec(flags, a, m).0) == (bcd_value(a) - bcd_value(m) - (1
            - bit_value(flags.carry))) % 100,
        subtract_decimal_spec(flags, a, m).1.carry == (bcd_value(a) - bcd_value(m) - (1
            - bit_value(flags.carry)) >= 0),
{
    lemma_nibbles(a);
    lemma_nibbles(m);
    let borrow = 1 - bit_value(flags.carry);
    let low = a % 16 - m % 16 - borrow;
    // the low digit of the result, and what it borrows from the high digit
    let digit = if low < 0 {
        low + 10
    } else {
        low
    };
    let borrowed = if low < 0 {
        1int
    } else {
        0int
    };
    let high = a / 16 - m / 16 - borrowed;
    let difference = a - m - borrow;
    let high_fixed = if difference < 0 {
        difference - 0x60
    } else {
        difference
    };
    let fixed = if low < 0 {
        high_fixed - 0x06
    } else {
        high_fixed
    };
    // the high digit of the result, and what it borrows
    let high_digit = if high < 0 {
        high + 10
    } else {
        high
    };
    let borrowed_out = if high < 0 {
        -1int
    } else {
        0int
    };
    assert(difference == 16 * high + 16 * borrowed + low);
    assert(fixed == borrowed_out * 256 + (16 * high_digit + digit));
    lemma_remainder(fixed, borrowed_out, 256, 16 * high_digit + digit);
    let value = (fixed % 256) as u8;
    assert(value == subtract_decimal_spec(flags, a, m).0);
    lemma_digits(value, high_digit, digit);
    let total = bcd_value(a) - bcd_value(m) - borrow;
    assert(total == borrowed_out * 100 + (10 * high_digit + digit));
    lemma_remainder(total, borrowed_out, 100, 10 * high_digit + digit);
}

} // verus!
