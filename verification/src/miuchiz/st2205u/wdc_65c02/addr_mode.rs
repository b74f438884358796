//! Addressing modes: how the bytes after an opcode and the registers combine
//! into the operand of an instruction.

use vstd::prelude::*;
use crate::memory::{AccessError, AddressSpace};
use super::alu::signed;
use super::bus::{high_byte, load_pair, load_word, low_byte, read_pair, read_word, split_word};

verus! {

/// Where an instruction finds its operand.
#[derive(Clone, Copy, Debug, PartialEq, Eq, Structural)]
pub enum AddressingMode {
    /// No operand.
    Implied,
    /// The accumulator.
    Accumulator,
    /// The byte after the opcode.
    Immediate,
    /// `zp`: the zero-page address after the opcode.
    ZeroPage,
    /// `zp,X`: a zero-page address plus X, within the zero page.
    ZeroPageX,
    /// `zp,Y`: a zero-page address plus Y, within the zero page.
    ZeroPageY,
    /// `abs`: the 16-bit address after the opcode.
    Absolute,
    /// `abs,X`: a 16-bit address plus X.
    AbsoluteX,
    /// `abs,Y`: a 16-bit address plus Y.
    AbsoluteY,
    /// `(abs)`: the address held at a 16-bit address.
    Indirect,
    /// `(zp,X)`: the address held at a zero-page address plus X.
    IndirectX,
    /// `(zp),Y`: the address held at a zero-page address, plus Y.
    IndirectY,
    /// `(zp)`: the address held at a zero-page address.
    ZeroPageIndirect,
    /// `(abs,X)`: the address held at a 16-bit address plus X.
    AbsoluteIndirectX,
    /// A signed distance from the next instruction.
    Relative,
    /// A zero-page address, then a signed distance from the next instruction.
    ZeroPageRelative,
}

impl AddressingMode {
    /// The number of bytes that follow the opcode.
    pub open spec fn operand_len(self) -> nat {
        match self {
            AddressingMode::Implied | AddressingMode::Accumulator => 0,
            AddressingMode::Absolute
            | AddressingMode::AbsoluteX
            | AddressingMode::AbsoluteY
            | AddressingMode::Indirect
            | AddressingMode::AbsoluteIndirectX
            | AddressingMode::ZeroPageRelative => 2,
            _ => 1,
        }
    }

    /// The number of bytes that follow the opcode.
    pub fn operand_bytes(&self) -> (n: u8)
        ensures
            n == self.operand_len(),
            n <= 2,
    {
        match self {
            AddressingMode::Implied => 0,
            AddressingMode::Accumulator => 0,
            AddressingMode::Immediate => 1,
            AddressingMode::ZeroPage => 1,
            AddressingMode::ZeroPageX => 1,
            AddressingMode::ZeroPageY => 1,
            AddressingMode::Absolute => 2,
            AddressingMode::AbsoluteX => 2,
            AddressingMode::AbsoluteY => 2,
            AddressingMode::Indirect => 2,
            AddressingMode::IndirectX => 1,
            AddressingMode::IndirectY => 1,
            AddressingMode::ZeroPageIndirect => 1,
            AddressingMode::AbsoluteIndirectX => 2,
            AddressingMode::Relative => 1,
            AddressingMode::ZeroPageRelative => 2,
        }
    }
}

/// What an instruction works on, once its addressing mode is resolved.
#[derive(Clone, Copy, Debug, PartialEq, Eq, Structural)]
pub enum Operand {
    /// Nothing.
    Implied,
    /// The accumulator.
    Accumulator,
    /// A value that stands in the instruction itself.
    Immediate(u8),
    /// The byte at an address; for a jump or a branch, the target.
    Address(u16),
    /// A zero-page byte to test and the address to branch to.
    BitBranch { zero_page: u8, target: u16 },
}

/// Where a branch lands: the signed distance is counted from the address
/// after the operand, and the result wraps within 16 bits.
pub open spec fn branch_target(next_pc: u16, distance: u8) -> u16 {
    ((next_pc + signed(distance)) % 0x10000) as u16
}

/// An operand that is an address, or the error that kept the address from
/// being read.
pub open spec fn at_address(address: Result<u16, AccessError>) -> Result<Operand, AccessError> {
    match address {
        Ok(address) => Ok(Operand::Address(address)),
        Err(e) => Err(e),
    }
}

/// The operand that a mode makes of the operand bytes and the index
/// registers. `next_pc` is the address after the instruction.
///
/// An index added to a zero-page address stays in the zero page, and so
/// does the second byte of a pointer held there: after `0xFF` comes `0x00`.
/// An index added to a 16-bit address wraps within 16 bits. A pointer held
/// at a 16-bit address is two bytes in sequence.
pub open spec fn resolve_spec<A: AddressSpace>(
    contents: A::Contents,
    x: u8,
    y: u8,
    mode: AddressingMode,
    operand: u16,
    next_pc: u16,
) -> Result<Operand, AccessError> {
    let first = low_byte(operand);
    let second = high_byte(operand);
    match mode {
        AddressingMode::Implied => Ok(Operand::Implied),
        AddressingMode::Accumulator => Ok(Operand::Accumulator),
        AddressingMode::Immediate => Ok(Operand::Immediate(first)),
        AddressingMode::ZeroPage => Ok(Operand::Address(first as u16)),
        AddressingMode::ZeroPageX => Ok(Operand::Address(first.wrapping_add(x) as u16)),
        AddressingMode::ZeroPageY => Ok(Operand::Address(first.wrapping_add(y) as u16)),
        AddressingMode::Absolute => Ok(Operand::Address(operand)),
        AddressingMode::AbsoluteX => Ok(Operand::Address(operand.wrapping_add(x as u16))),
        AddressingMode::AbsoluteY => Ok(Operand::Address(operand.wrapping_add(y as u16))),
        AddressingMode::Indirect => at_address(read_word::<A>(contents, operand)),
        AddressingMode::IndirectX => {
            let pointer = first.wrapping_add(x);
            at_address(read_pair::<A>(contents, pointer as u16, pointer.wrapping_add(1) as u16))
        },
        AddressingMode::IndirectY => {
            match read_pair::<A>(contents, first as u16, first.wrapping_add(1) as u16) {
                Ok(base) => Ok(Operand::Address(base.wrapping_add(y as u16))),
                Err(e) => Err(e),
            }
        },
        AddressingMode::ZeroPageIndirect => at_address(
            read_pair::<A>(contents, first as u16, first.wrapping_add(1) as u16),
        ),
        AddressingMode::AbsoluteIndirectX => at_address(
            read_word::<A>(contents, operand.wrapping_add(x as u16)),
        ),
        AddressingMode::Relative => Ok(Operand::Address(branch_target(next_pc, first))),
        AddressingMode::ZeroPageRelative => Ok(
            Operand::BitBranch { zero_page: first, target: branch_target(next_pc, second) },
        ),
    }
}

/// Computes where a branch lands.
pub fn relative_target(next_pc: u16, distance: u8) -> (target: u16)
    ensures
        target == branch_target(next_pc, distance),
{
    if distance < 0x80 {
        next_pc.wrapping_add(distance as u16)
    } else {
        next_pc.wrapping_sub(0x100 - distance as u16)
    }
}

/// Resolves an addressing mode into the operand it stands for.
pub fn resolve<A: AddressSpace>(
    memory: &mut A,
    x: u8,
    y: u8,
    mode: AddressingMode,
    operand: u16,
    next_pc: u16,
) -> (r: Result<Operand, AccessError>)
    ensures
        r == resolve_spec::<A>(old(memory).contents(), x, y, mode, operand, next_pc),
        final(memory).contents() == old(memory).contents(),
{
    let (first, second) = split_word(operand);
    let address = match mode {
        AddressingMode::Implied => {
            return Ok(Operand::Implied);
        },
        AddressingMode::Accumulator => {
            return Ok(Operand::Accumulator);
        },
        AddressingMode::Immediate => {
            return Ok(Operand::Immediate(first));
        },
        AddressingMode::ZeroPageRelative => {
            return Ok(
                Operand::BitBranch { zero_page: first, target: relative_target(next_pc, second) },
            );
        },
        AddressingMode::ZeroPage => Ok(first as u16),
        AddressingMode::ZeroPageX => Ok(first.wrapping_add(x) as u16),
        AddressingMode::ZeroPageY => Ok(first.wrapping_add(y) as u16),
        AddressingMode::Absolute => Ok(operand),
        AddressingMode::AbsoluteX => Ok(operand.wrapping_add(x as u16)),
        AddressingMode::AbsoluteY => Ok(operand.wrapping_add(y as u16)),
        AddressingMode::Indirect => load_word(memory, operand),
        AddressingMode::IndirectX => {
            let pointer = first.wrapping_add(x);
            load_pair(memory, pointer as u16, pointer.wrapping_add(1) as u16)
        },
        AddressingMode::IndirectY => {
            match load_pair(memory, first as u16, first.wrapping_add(1) as u16) {
                Ok(base) => Ok(base.wrapping_add(y as u16)),
                Err(e) => Err(e),
            }
        },
        AddressingMode::ZeroPageIndirect => load_pair(
            memory,
            first as u16,
            first.wrapping_add(1) as u16,
        ),
        AddressingMode::AbsoluteIndirectX => load_word(memory, operand.wrapping_add(x as u16)),
        AddressingMode::Relative => Ok(relative_target(next_pc, first)),
    };
    match address {
        Ok(address) => Ok(Operand::Address(address)),
        Err(e) => Err(e),
    }
}

} // verus!
