//! Where execution goes on: the program counter after an instruction.

use vstd::prelude::*;
use crate::memory::{AccessError, AddressSpace};
use super::super::addr_mode::{branch_target, resolve_spec, AddressingMode, Operand};
use super::super::alu::signed;
use super::super::bus::{low_byte, read_byte, read_pair};
use super::super::cpu::{instruction_spec, Machine};
use super::super::decoder::{fetch_spec, DecodedInstruction};
use super::super::execute::{branch_taken_spec, execute_spec};
use super::super::instr::Instruction;
use super::super::opcode::{opcode_table, Opcode};
use super::super::registers::{Flags, Registers};

verus! {

/// The instructions that say themselves where execution goes on.
pub open spec fn sets_program_counter(instruction: Instruction) -> bool {
    match instruction {
        Instruction::BCC
        | Instruction::BCS
        | Instruction::BNE
        | Instruction::BEQ
        | Instruction::BPL
        | Instruction::BMI
        | Instruction::BVC
        | Instruction::BVS
        | Instruction::BRA
        | Instruction::BBR(_)
        | Instruction::BBS(_)
        | Instruction::JMP
        | Instruction::JSR
        | Instruction::RTS
        | Instruction::RTI
        | Instruction::BRK
        | Instruction::WAI
        | Instruction::STP => true,
        _ => false,
    }
}

/// Every other instruction that succeeds leaves the program counter on the
/// address after its operand: it advances by the bytes the instruction takes
/// up, once.
pub proof fn lemma_program_counter_advances<A: AddressSpace>(
    contents: A::Contents,
    registers: Registers,
    instruction: Instruction,
    operand: Operand,
    next_pc: u16,
    wake: bool,
)
    requires
        !sets_program_counter(instruction),
        execute_spec::<A>(contents, registers, instruction, operand, next_pc, wake).1 is Ok,
    ensures
        execute_spec::<A>(contents, registers, instruction, operand, next_pc, wake).1->Ok_0.pc
            == next_pc,
{
}

/// Loading the accumulator with an immediate value puts the value in the
/// accumulator, sets zero and negative from it, and moves the program
/// counter past the two bytes of the instruction. Nothing else changes.
pub proof fn lemma_load_immediate<A: AddressSpace>(machine: Machine<A::Contents>, value: u8)
    requires
        read_byte::<A>(machine.contents, machine.registers.pc) == Ok::<u8, AccessError>(0xA9),
        read_byte::<A>(machine.contents, machine.registers.pc.wrapping_add(1)) == Ok::<
            u8,
            AccessError,
        >(value),
    ensures
        instruction_spec::<A>(machine) == (
            Machine {
                registers: Registers {
                    a: value,
                    pc: ((machine.registers.pc + 2) % 0x10000) as u16,
                    flags: Flags {
                        zero: value == 0,
                        negative: value >= 0x80,
                        ..machine.registers.flags
                    },
                    ..machine.registers
                },
                ..machine
            },
            Ok::<(), AccessError>(()),
        ),
{
    reveal(opcode_table);
    assert(low_byte(value as u16) == value);
}

/// A branch on a flag reads nothing but its own two bytes and changes
/// nothing but the program counter. Taken, it lands at the address after its
/// operand plus the operand as a signed distance, within 16 bits; not taken,
/// at the address after its operand.
#[verifier::rlimit(50)]
pub proof fn lemma_relative_branch<A: AddressSpace>(
    machine: Machine<A::Contents>,
    opcode: u8,
    distance: u8,
)
    requires
        read_byte::<A>(machine.contents, machine.registers.pc) == Ok::<u8, AccessError>(opcode),
        read_byte::<A>(machine.contents, machine.registers.pc.wrapping_add(1)) == Ok::<
            u8,
            AccessError,
        >(distance),
        opcode_table(opcode).1 == AddressingMode::Relative,
    ensures
        instruction_spec::<A>(machine) == (
            Machine {
                registers: Registers {
                    pc: if branch_taken_spec(machine.registers.flags, opcode_table(opcode).0, 0) {
                        ((machine.registers.pc + 2 + signed(distance)) % 0x10000) as u16
                    } else {
                        ((machine.registers.pc + 2) % 0x10000) as u16
                    },
                    ..machine.registers
                },
                ..machine
            },
            Ok::<(), AccessError>(()),
        ),
{
    let registers = machine.registers;
    let next_pc = registers.pc.wrapping_add(2);
    let instruction = opcode_table(opcode).0;
    let target = branch_target(next_pc, distance);
    assert(target == ((registers.pc + 2 + signed(distance)) % 0x10000) as u16);
    assert(next_pc == ((registers.pc + 2) % 0x10000) as u16);
    assert(low_byte(distance as u16) == distance);
    assert(fetch_spec::<A>(machine.contents, registers.pc) == Ok::<
        DecodedInstruction,
        AccessError,
    >(
        DecodedInstruction {
            opcode: Opcode(opcode),
            instruction,
            mode: AddressingMode::Relative,
            operand: distance as u16,
        },
    ));
    lemma_relative_opcodes(opcode);
    lemma_branch_executes::<A>(
        machine.contents,
        registers,
        instruction,
        target,
        next_pc,
        machine.interrupts.any_pending(),
    );
}

/// A branch on a flag changes nothing but the program counter.
proof fn lemma_branch_executes<A: AddressSpace>(
    contents: A::Contents,
    registers: Registers,
    instruction: Instruction,
    target: u16,
    next_pc: u16,
    wake: bool,
)
    requires
        is_flag_branch(instruction),
    ensures
        execute_spec::<A>(contents, registers, instruction, Operand::Address(target), next_pc, wake)
            == (
            contents,
            Ok::<Registers, AccessError>(
                Registers {
                    pc: if branch_taken_spec(registers.flags, instruction, 0) {
                        target
                    } else {
                        next_pc
                    },
                    ..registers
                },
            ),
        ),
        instruction != Instruction::RTI,
{
}

/// The branches on a flag.
pub open spec fn is_flag_branch(instruction: Instruction) -> bool {
    ||| instruction == Instruction::BCC
    ||| instruction == Instruction::BCS
    ||| instruction == Instruction::BNE
    ||| instruction == Instruction::BEQ
    ||| instruction == Instruction::BPL
    ||| instruction == Instruction::BMI
    ||| instruction == Instruction::BVC
    ||| instruction == Instruction::BVS
    ||| instruction == Instruction::BRA
}

/// The opcodes with a relative operand are the branches on a flag.
proof fn lemma_relative_opcodes(opcode: u8)
    requires
        opcode_table(opcode).1 == AddressingMode::Relative,
    ensures
        is_flag_branch(opcode_table(opcode).0),
{
    reveal(opcode_table);
}

/// A pointer in the zero page stays in the zero page: the high byte of the
/// pointer at `0xFF` is read at `0x00`.
pub proof fn lemma_zero_page_pointer_wraps<A: AddressSpace>(
    contents: A::Contents,
    x: u8,
    y: u8,
    next_pc: u16,
)
    ensures
        resolve_spec::<A>(contents, x, y, AddressingMode::ZeroPageIndirect, 0x00FF, next_pc)
            == match read_pair::<A>(contents, 0x00FF, 0x0000) {
            Ok(address) => Ok::<Operand, AccessError>(Operand::Address(address)),
            Err(e) => Err(e),
        },
{
    assert(low_byte(0x00FF) == 0xFF);
}

} // verus!
