//! What an instruction leaves alone.

use vstd::prelude::*;
use crate::memory::AddressSpace;
use super::super::addr_mode::Operand;
use super::super::execute::execute_spec;
use super::super::instr::Instruction;
use super::super::registers::Registers;

verus! {

/// The instructions that set or clear a flag.
pub open spec fn affects_flags(instruction: Instruction) -> bool {
    match instruction {
        Instruction::ADC
        | Instruction::AND
        | Instruction::ASL
        | Instruction::BIT
        | Instruction::BRK
        | Instruction::CLC
        | Instruction::CLD
        | Instruction::CLI
        | Instruction::CLV
        | Instruction::CMP
        | Instruction::CPX
        | Instruction::CPY
        | Instruction::DEC
        | Instruction::DEX
        | Instruction::DEY
        | Instruction::EOR
        | Instruction::INC
        | Instruction::INX
        | Instruction::INY
        | Instruction::LDA
        | Instruction::LDX
        | Instruction::LDY
        | Instruction::LSR
        | Instruction::ORA
        | Instruction::PLA
        | Instruction::PLP
        | Instruction::PLX
        | Instruction::PLY
        | Instruction::ROL
        | Instruction::ROR
        | Instruction::RTI
        | Instruction::SBC
        | Instruction::SEC
        | Instruction::SED
        | Instruction::SEI
        | Instruction::TAX
        | Instruction::TAY
        | Instruction::TRB
        | Instruction::TSB
        | Instruction::TSX
        | Instruction::TXA
        | Instruction::TYA => true,
        _ => false,
    }
}

/// The instructions that push on the stack.
pub open spec fn pushes(instruction: Instruction) -> bool {
    match instruction {
        Instruction::BRK
        | Instruction::JSR
        | Instruction::PHA
        | Instruction::PHP
        | Instruction::PHX
        | Instruction::PHY => true,
        _ => false,
    }
}

/// The instructions that write to their operand.
pub open spec fn writes_operand(instruction: Instruction) -> bool {
    match instruction {
        Instruction::ASL
        | Instruction::DEC
        | Instruction::INC
        | Instruction::LSR
        | Instruction::RMB(_)
        | Instruction::ROL
        | Instruction::ROR
        | Instruction::SMB(_)
        | Instruction::STA
        | Instruction::STX
        | Instruction::STY
        | Instruction::STZ
        | Instruction::TRB
        | Instruction::TSB => true,
        _ => false,
    }
}

/// The instructions that move the stack pointer.
pub open spec fn moves_stack_pointer(instruction: Instruction) -> bool {
    match instruction {
        Instruction::BRK
        | Instruction::JSR
        | Instruction::PHA
        | Instruction::PHP
        | Instruction::PHX
        | Instruction::PHY
        | Instruction::PLA
        | Instruction::PLP
        | Instruction::PLX
        | Instruction::PLY
        | Instruction::RTI
        | Instruction::RTS
        | Instruction::TXS => true,
        _ => false,
    }
}

/// The flags are those that the last instruction to affect a flag has left:
/// an instruction that affects none leaves every flag as it was.
pub proof fn lemma_flags_are_kept<A: AddressSpace>(
    contents: A::Contents,
    registers: Registers,
    instruction: Instruction,
    operand: Operand,
    next_pc: u16,
    wake: bool,
)
    requires
        !affects_flags(instruction),
        execute_spec::<A>(contents, registers, instruction, operand, next_pc, wake).1 is Ok,
    ensures
        execute_spec::<A>(contents, registers, instruction, operand, next_pc, wake).1->Ok_0.flags
            == registers.flags,
{
}

/// An instruction that neither pushes nor writes to its operand leaves the
/// contents of the address space as they were, and so does one that writes
/// to the accumulator.
pub proof fn lemma_memory_is_kept<A: AddressSpace>(
    contents: A::Contents,
    registers: Registers,
    instruction: Instruction,
    operand: Operand,
    next_pc: u16,
    wake: bool,
)
    requires
        !pushes(instruction),
        !writes_operand(instruction) || operand is Accumulator,
    ensures
        execute_spec::<A>(contents, registers, instruction, operand, next_pc, wake).0 == contents,
{
}

/// Each register is changed only by the instructions that are there to
/// change it: the accumulator by loads, pulls and transfers into it, by the
/// arithmetic and logic instructions, and by a shift, rotate, increment or
/// decrement of the accumulator itself; X and Y by their loads, pulls,
/// transfers, increments and decrements; the stack pointer by pushes,
/// pulls, calls, returns and `TXS`.
pub proof fn lemma_registers_are_kept<A: AddressSpace>(
    contents: A::Contents,
    registers: Registers,
    instruction: Instruction,
    operand: Operand,
    next_pc: u16,
    wake: bool,
)
    requires
        execute_spec::<A>(contents, registers, instruction, operand, next_pc, wake).1 is Ok,
    ensures
        ({
            let after = execute_spec::<A>(
                contents,
                registers,
                instruction,
                operand,
                next_pc,
                wake,
            ).1->Ok_0;
            &&& after.a != registers.a ==> {
                ||| instruction == Instruction::LDA
                ||| instruction == Instruction::PLA
                ||| instruction == Instruction::TXA
                ||| instruction == Instruction::TYA
                ||| instruction == Instruction::ADC
                ||| instruction == Instruction::SBC
                ||| instruction == Instruction::AND
                ||| instruction == Instruction::ORA
                ||| instruction == Instruction::EOR
                ||| operand is Accumulator
            }
            &&& after.x != registers.x ==> {
                ||| instruction == Instruction::LDX
                ||| instruction == Instruction::PLX
                ||| instruction == Instruction::TAX
                ||| instruction == Instruction::TSX
                ||| instruction == Instruction::INX
                ||| instruction == Instruction::DEX
            }
            &&& after.y != registers.y ==> {
                ||| instruction == Instruction::LDY
                ||| instruction == Instruction::PLY
                ||| instruction == Instruction::TAY
                ||| instruction == Instruction::INY
                ||| instruction == Instruction::DEY
            }
            &&& after.sp != registers.sp ==> moves_stack_pointer(instruction)
        }),
{
}

} // verus!
