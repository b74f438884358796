//! The register file of the 65C02.

use vstd::prelude::*;

verus! {

/// The processor flags. The break marker and the unused bit are no flags of
/// the processor: they exist only in the byte that is pushed to the stack.
#[derive(Clone, Copy, Debug, PartialEq, Eq, Structural)]
pub struct Flags {
    pub negative: bool,
    pub overflow: bool,
    pub decimal: bool,
    pub interrupt_disable: bool,
    pub zero: bool,
    pub carry: bool,
}

/// One if the flag is set, else zero.
pub open spec fn bit_value(flag: bool) -> int {
    if flag {
        1
    } else {
        0
    }
}

proof fn lemma_flag_masks(byte: u8)
    by (bit_vector)
    ensures
        (byte & 0x80 != 0) == (byte / 128 % 2 == 1),
        (byte & 0x40 != 0) == (byte / 64 % 2 == 1),
        (byte & 0x08 != 0) == (byte / 8 % 2 == 1),
        (byte & 0x04 != 0) == (byte / 4 % 2 == 1),
        (byte & 0x02 != 0) == (byte / 2 % 2 == 1),
        (byte & 0x01 != 0) == (byte % 2 == 1),
{
}

impl Flags {
    /// The flags as a byte on the stack: negative in bit 7, overflow in bit
    /// 6, bit 5 always set, the break marker in bit 4, then decimal,
    /// interrupt-disable, zero, and carry in bit 0.
    pub open spec fn bits(self, break_marker: bool) -> int {
        128 * bit_value(self.negative) + 64 * bit_value(self.overflow) + 32 + 16 * bit_value(
            break_marker,
        ) + 8 * bit_value(self.decimal) + 4 * bit_value(self.interrupt_disable) + 2 * bit_value(
            self.zero,
        ) + bit_value(self.carry)
    }

    /// The flags that a byte from the stack holds. Bits 5 and 4 are ignored.
    pub open spec fn of_byte(byte: u8) -> Flags {
        Flags {
            negative: byte / 128 % 2 == 1,
            overflow: byte / 64 % 2 == 1,
            decimal: byte / 8 % 2 == 1,
            interrupt_disable: byte / 4 % 2 == 1,
            zero: byte / 2 % 2 == 1,
            carry: byte % 2 == 1,
        }
    }

    /// The flags with zero and negative set from `value`.
    pub open spec fn with_nz(self, value: u8) -> Flags {
        Flags { zero: value == 0, negative: value >= 128, ..self }
    }

    /// The flags after reset: interrupts disabled, everything else clear.
    pub open spec fn reset_state() -> Flags {
        Flags {
            negative: false,
            overflow: false,
            decimal: false,
            interrupt_disable: true,
            zero: false,
            carry: false,
        }
    }

    /// The flags after reset.
    pub fn new() -> (flags: Flags)
        ensures
            flags == Flags::reset_state(),
    {
        Flags {
            negative: false,
            overflow: false,
            decimal: false,
            interrupt_disable: true,
            zero: false,
            carry: false,
        }
    }

    /// Packs the flags into the byte that is pushed to the stack.
    pub fn to_byte(&self, break_marker: bool) -> (byte: u8)
        ensures
            byte == self.bits(break_marker),
    {
        let mut byte: u8 = 0x20;
        if self.negative {
            byte += 0x80;
        }
        if self.overflow {
            byte += 0x40;
        }
        if break_marker {
            byte += 0x10;
        }
        if self.decimal {
            byte += 0x08;
        }
        if self.interrupt_disable {
            byte += 0x04;
        }
        if self.zero {
            byte += 0x02;
        }
        if self.carry {
            byte += 0x01;
        }
        byte
    }

    /// Unpacks the flags from a byte that was pulled from the stack.
    pub fn from_byte(byte: u8) -> (flags: Flags)
        ensures
            flags == Flags::of_byte(byte),
    {
        proof {
            lemma_flag_masks(byte);
        }
        Flags {
            negative: byte & 0x80 != 0,
            overflow: byte & 0x40 != 0,
            decimal: byte & 0x08 != 0,
            interrupt_disable: byte & 0x04 != 0,
            zero: byte & 0x02 != 0,
            carry: byte & 0x01 != 0,
        }
    }

    /// Sets zero and negative from `value` and leaves the other flags.
    pub fn set_nz(&self, value: u8) -> (flags: Flags)
        ensures
            flags == self.with_nz(value),
    {
        Flags {
            negative: value >= 0x80,
            overflow: self.overflow,
            decimal: self.decimal,
            interrupt_disable: self.interrupt_disable,
            zero: value == 0,
            carry: self.carry,
        }
    }
}

/// Packing the flags and unpacking the byte gives the flags back, whatever
/// the break marker was.
pub proof fn lemma_flags_round_trip(flags: Flags, break_marker: bool)
    ensures
        0 <= flags.bits(break_marker) < 256,
        Flags::of_byte(flags.bits(break_marker) as u8) == flags,
{
}

/// The registers of the processor.
#[derive(Clone, Copy, Debug, PartialEq, Eq, Structural)]
pub struct Registers {
    /// The accumulator.
    pub a: u8,
    /// The X index register.
    pub x: u8,
    /// The Y index register.
    pub y: u8,
    /// The stack pointer: the low byte of an address in page one.
    pub sp: u8,
    /// The address of the next instruction to fetch.
    pub pc: u16,
    pub flags: Flags,
}

/// The first address of the page that holds the stack.
pub const STACK_PAGE: u16 = 0x0100;

/// The address that a stack pointer stands for.
pub open spec fn stack_address(sp: u8) -> u16 {
    (0x0100 + sp) as u16
}

impl Registers {
    /// The registers after reset, before the program counter is loaded.
    pub open spec fn reset_state() -> Registers {
        Registers { a: 0, x: 0, y: 0, sp: 0xFD, pc: 0, flags: Flags::reset_state() }
    }

    /// The registers after reset, before the program counter is loaded.
    pub fn new() -> (registers: Registers)
        ensures
            registers == Registers::reset_state(),
    {
        Registers { a: 0, x: 0, y: 0, sp: 0xFD, pc: 0, flags: Flags::new() }
    }
}

} // verus!
