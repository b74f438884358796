//! Fetching: from the bytes at the program counter to a decoded instruction.

use vstd::prelude::*;
use crate::memory::{AccessError, AddressSpace};
use super::addr_mode::AddressingMode;
use super::bus::{load_byte, load_pair, read_byte, read_pair};
use super::instr::Instruction;
use super::opcode::{opcode_table, Opcode};

verus! {

/// One instruction as it stands in memory.
#[derive(Clone, Copy, Debug, PartialEq, Eq, Structural)]
pub struct DecodedInstruction {
    /// The first byte.
    pub opcode: Opcode,
    pub instruction: Instruction,
    pub mode: AddressingMode,
    /// The bytes after the opcode: the first in the low byte, the second in
    /// the high byte. Zero where the mode has none.
    pub operand: u16,
}

impl DecodedInstruction {
    /// The number of bytes the instruction takes up.
    pub open spec fn len(self) -> nat {
        1 + self.mode.operand_len()
    }

    /// The number of bytes the instruction takes up.
    pub fn length(&self) -> (n: u16)
        ensures
            n == self.len(),
            1 <= n <= 3,
    {
        1 + self.mode.operand_bytes() as u16
    }
}

/// The operand bytes of an instruction whose opcode stands at `pc`.
pub open spec fn operand_spec<A: AddressSpace>(
    contents: A::Contents,
    pc: u16,
    mode: AddressingMode,
) -> Result<u16, AccessError> {
    if mode.operand_len() == 0 {
        Ok(0)
    } else if mode.operand_len() == 1 {
        match read_byte::<A>(contents, pc.wrapping_add(1)) {
            Ok(byte) => Ok(byte as u16),
            Err(e) => Err(e),
        }
    } else {
        read_pair::<A>(contents, pc.wrapping_add(1), pc.wrapping_add(2))
    }
}

/// The instruction that stands at `pc`: the opcode byte, what the opcode
/// table makes of it, and as many operand bytes as the mode asks for. The
/// bytes are read in order, and the first read that fails gives the error.
pub open spec fn fetch_spec<A: AddressSpace>(contents: A::Contents, pc: u16) -> Result<
    DecodedInstruction,
    AccessError,
> {
    match read_byte::<A>(contents, pc) {
        Err(e) => Err(e),
        Ok(byte) => {
            let (instruction, mode) = opcode_table(byte);
            match operand_spec::<A>(contents, pc, mode) {
                Err(e) => Err(e),
                Ok(operand) => Ok(
                    DecodedInstruction { opcode: Opcode(byte), instruction, mode, operand },
                ),
            }
        },
    }
}

/// Reads and decodes the instruction at `pc`.
pub fn fetch<A: AddressSpace>(memory: &mut A, pc: u16) -> (r: Result<
    DecodedInstruction,
    AccessError,
>)
    ensures
        r == fetch_spec::<A>(old(memory).contents(), pc),
        final(memory).contents() == old(memory).contents(),
{
    let byte = match load_byte(memory, pc) {
        Ok(byte) => byte,
        Err(e) => {
            return Err(e);
        },
    };
    let opcode = Opcode(byte);
    let (instruction, mode) = opcode.decode();
    let operand: u16 = match mode.operand_bytes() {
        0 => 0,
        1 => match load_byte(memory, pc.wrapping_add(1)) {
            Ok(byte) => byte as u16,
            Err(e) => {
                return Err(e);
            },
        },
        _ => match load_pair(memory, pc.wrapping_add(1), pc.wrapping_add(2)) {
            Ok(operand) => operand,
            Err(e) => {
                return Err(e);
            },
        },
    };
    Ok(DecodedInstruction { opcode, instruction, mode, operand })
}

} // verus!
