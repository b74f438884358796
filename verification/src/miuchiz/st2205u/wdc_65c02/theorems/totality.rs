//! What cannot fail: the core has no failure of its own, and what a
//! failure leaves behind.

use vstd::prelude::*;
use crate::memory::AddressSpace;
use super::super::addr_mode::{resolve_spec, AddressingMode, Operand};
use super::super::bus::read_byte;
use super::super::cpu::{instruction_spec, step_spec, Machine};
use super::super::decoder::fetch_spec;
use super::super::execute::{enter_handler_spec, execute_spec};
use super::super::instr::Instruction;
use super::super::interrupt::IRQ_VECTOR;
use super::super::opcode::{opcode_table, Opcode};
use super::super::registers::Registers;

verus! {

/// An address space that refuses no access.
pub open spec fn accepts_every_access<A: AddressSpace>() -> bool {
    &&& forall|contents: A::Contents, address: usize| #[trigger]
        A::read_of(contents, address) is Ok
    &&& forall|contents: A::Contents, address: usize, value: u8| #[trigger]
        A::write_of(contents, address, value) is Ok
}

/// Fetching fails only where a read fails: every byte is an opcode, and the
/// result is the row of the opcode table for the byte at the program
/// counter.
pub proof fn lemma_fetch_is_total<A: AddressSpace>(contents: A::Contents, pc: u16)
    requires
        read_byte::<A>(contents, pc) is Ok,
        read_byte::<A>(contents, pc.wrapping_add(1)) is Ok,
        read_byte::<A>(contents, pc.wrapping_add(2)) is Ok,
    ensures
        fetch_spec::<A>(contents, pc) is Ok,
        fetch_spec::<A>(contents, pc)->Ok_0.opcode == Opcode(read_byte::<A>(contents, pc)->Ok_0),
        (fetch_spec::<A>(contents, pc)->Ok_0.instruction, fetch_spec::<A>(contents, pc)->Ok_0.mode)
            == opcode_table(read_byte::<A>(contents, pc)->Ok_0),
{
}

/// On an address space that refuses no access, no addressing mode fails to
/// resolve.
pub proof fn lemma_resolve_is_total<A: AddressSpace>(
    contents: A::Contents,
    x: u8,
    y: u8,
    mode: AddressingMode,
    operand: u16,
    next_pc: u16,
)
    requires
        accepts_every_access::<A>(),
    ensures
        resolve_spec::<A>(contents, x, y, mode, operand, next_pc) is Ok,
{
}

/// On an address space that refuses no access, going into a handler
/// succeeds.
pub proof fn lemma_enter_handler_is_total<A: AddressSpace>(
    contents: A::Contents,
    registers: Registers,
    return_pc: u16,
    break_marker: bool,
    vector: u16,
)
    requires
        accepts_every_access::<A>(),
    ensures
        enter_handler_spec::<A>(contents, registers, return_pc, break_marker, vector).1 is Ok,
{
}

/// On an address space that refuses no access, every instruction executes,
/// whatever its operand.
#[verifier::rlimit(50)]
pub proof fn lemma_execute_is_total<A: AddressSpace>(
    contents: A::Contents,
    registers: Registers,
    instruction: Instruction,
    operand: Operand,
    next_pc: u16,
    wake: bool,
)
    requires
        accepts_every_access::<A>(),
    ensures
        execute_spec::<A>(contents, registers, instruction, operand, next_pc, wake).1 is Ok,
{
    lemma_enter_handler_is_total::<A>(
        contents,
        registers,
        registers.pc.wrapping_add(2),
        true,
        IRQ_VECTOR,
    );
}

/// The core has no failure of its own: on an address space that refuses no
/// access, every step succeeds, whatever bytes the program is made of.
#[verifier::rlimit(50)]
pub proof fn lemma_step_is_total<A: AddressSpace>(machine: Machine<A::Contents>)
    requires
        accepts_every_access::<A>(),
    ensures
        step_spec::<A>(machine).1 is Ok,
{
    let registers = machine.registers;
    lemma_fetch_is_total::<A>(machine.contents, registers.pc);
    let decoded = fetch_spec::<A>(machine.contents, registers.pc)->Ok_0;
    let next_pc = registers.pc.wrapping_add(decoded.len() as u16);
    lemma_resolve_is_total::<A>(
        machine.contents,
        registers.x,
        registers.y,
        decoded.mode,
        decoded.operand,
        next_pc,
    );
    let operand = resolve_spec::<A>(
        machine.contents,
        registers.x,
        registers.y,
        decoded.mode,
        decoded.operand,
        next_pc,
    )->Ok_0;
    lemma_execute_is_total::<A>(
        machine.contents,
        registers,
        decoded.instruction,
        operand,
        next_pc,
        machine.interrupts.any_pending(),
    );
    let after = instruction_spec::<A>(machine).0;
    if after.interrupts.due(after.registers.flags) is Some {
        lemma_enter_handler_is_total::<A>(
            after.contents,
            after.registers,
            after.registers.pc,
            false,
            after.interrupts.due(after.registers.flags)->Some_0.vector(),
        );
    }
}

/// Whether an instruction finds in an operand what it works on: a value
/// to read, a place to write, or an address to go to, as the instruction
/// needs. `NOP` needs nothing.
pub open spec fn operand_suits(instruction: Instruction, operand: Operand) -> bool {
    match instruction {
        Instruction::BRK
        | Instruction::CLC
        | Instruction::CLD
        | Instruction::CLI
        | Instruction::CLV
        | Instruction::DEX
        | Instruction::DEY
        | Instruction::INX
        | Instruction::INY
        | Instruction::PHA
        | Instruction::PHP
        | Instruction::PHX
        | Instruction::PHY
        | Instruction::PLA
        | Instruction::PLP
        | Instruction::PLX
        | Instruction::PLY
        | Instruction::RTI
        | Instruction::RTS
        | Instruction::SEC
        | Instruction::SED
        | Instruction::SEI
        | Instruction::STP
        | Instruction::TAX
        | Instruction::TAY
        | Instruction::TSX
        | Instruction::TXA
        | Instruction::TXS
        | Instruction::TYA
        | Instruction::WAI => operand is Implied,
        Instruction::ADC
        | Instruction::AND
        | Instruction::BIT
        | Instruction::CMP
        | Instruction::CPX
        | Instruction::CPY
        | Instruction::EOR
        | Instruction::LDA
        | Instruction::LDX
        | Instruction::LDY
        | Instruction::ORA
        | Instruction::SBC => operand is Immediate || operand is Address,
        Instruction::ASL
        | Instruction::LSR
        | Instruction::ROL
        | Instruction::ROR
        | Instruction::INC
        | Instruction::DEC => operand is Accumulator || operand is Address,
        Instruction::STA
        | Instruction::STX
        | Instruction::STY
        | Instruction::STZ
        | Instruction::TSB
        | Instruction::TRB
        | Instruction::RMB(_)
        | Instruction::SMB(_)
        | Instruction::JMP
        | Instruction::JSR
        | Instruction::BCC
        | Instruction::BCS
        | Instruction::BNE
        | Instruction::BEQ
        | Instruction::BPL
        | Instruction::BMI
        | Instruction::BVC
        | Instruction::BVS
        | Instruction::BRA => operand is Address,
        Instruction::BBR(_) | Instruction::BBS(_) => operand is BitBranch,
        Instruction::NOP => true,
    }
}

/// The opcode table gives every instruction a mode that suits it: whatever
/// the operand bytes and the registers are, the operand that the mode
/// resolves to is one that the instruction can work on.
#[verifier::rlimit(50)]
pub proof fn lemma_decoded_operand_suits<A: AddressSpace>(
    contents: A::Contents,
    x: u8,
    y: u8,
    opcode: u8,
    operand: u16,
    next_pc: u16,
)
    requires
        resolve_spec::<A>(contents, x, y, opcode_table(opcode).1, operand, next_pc) is Ok,
    ensures
        operand_suits(
            opcode_table(opcode).0,
            resolve_spec::<A>(contents, x, y, opcode_table(opcode).1, operand, next_pc)->Ok_0,
        ),
{
    reveal(opcode_table);
}

/// An instruction that fails leaves the registers and the interrupt lines as
/// they were.
pub proof fn lemma_failed_instruction_keeps_registers<A: AddressSpace>(
    machine: Machine<A::Contents>,
)
    requires
        instruction_spec::<A>(machine).1 is Err,
    ensures
        instruction_spec::<A>(machine).0.registers == machine.registers,
        instruction_spec::<A>(machine).0.interrupts == machine.interrupts,
{
}

/// An instruction that fails has changed nothing at all, unless it is one of
/// the two that push more than one byte: of `JSR` and `BRK` the pushes that
/// went through before the one that failed stay in memory.
#[verifier::rlimit(50)]
pub proof fn lemma_failed_instruction_changes_nothing<A: AddressSpace>(
    machine: Machine<A::Contents>,
)
    requires
        instruction_spec::<A>(machine).1 is Err,
        fetch_spec::<A>(machine.contents, machine.registers.pc) matches Ok(decoded)
            ==> decoded.instruction != Instruction::JSR && decoded.instruction
            != Instruction::BRK,
    ensures
        instruction_spec::<A>(machine).0 == machine,
{
}

} // verus!
