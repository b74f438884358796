//! What each instruction does to the registers and to memory.

use vstd::prelude::*;
use crate::memory::{AccessError, AddressSpace};
use super::addr_mode::Operand;
use super::alu::{
    adc_spec, add_with_carry, bit_mask, bit_mask_spec, bit_test, bit_test_spec, compare,
    compare_spec, decrement_spec, increment_spec, rotate_left, rotate_left_spec, rotate_right,
    rotate_right_spec, sbc_spec, shift_left, shift_left_spec, shift_right, shift_right_spec,
    subtract_with_borrow,
};
use super::bus::{
    high_byte, load_byte, load_pair, low_byte, read_byte, read_pair, read_word, load_word,
    split_word, store_byte, write_byte,
};
use super::instr::Instruction;
use super::interrupt::IRQ_VECTOR;
use super::registers::{stack_address, Flags, Registers, STACK_PAGE};

verus! {

/// The byte that an operand stands for. An instruction without an operand
/// reads zero.
pub open spec fn operand_value<A: AddressSpace>(
    contents: A::Contents,
    registers: Registers,
    operand: Operand,
) -> Result<u8, AccessError> {
    match operand {
        Operand::Implied => Ok(0),
        Operand::Accumulator => Ok(registers.a),
        Operand::Immediate(value) => Ok(value),
        Operand::Address(address) => read_byte::<A>(contents, address),
        Operand::BitBranch { zero_page, target } => read_byte::<A>(contents, zero_page as u16),
    }
}

/// The address that a jump or a taken branch goes to. Without an address in
/// the operand, execution goes on at the next instruction.
pub open spec fn operand_target(operand: Operand, next_pc: u16) -> u16 {
    match operand {
        Operand::Address(address) => address,
        Operand::BitBranch { zero_page, target } => target,
        _ => next_pc,
    }
}

/// The machine after `value` was written to where the operand is: to the
/// accumulator or to memory. Where the operand names no place, nothing is
/// written. A refused write leaves the contents as they were.
pub open spec fn store_operand<A: AddressSpace>(
    contents: A::Contents,
    registers: Registers,
    operand: Operand,
    value: u8,
) -> (A::Contents, Result<Registers, AccessError>) {
    match operand {
        Operand::Accumulator => (contents, Ok(Registers { a: value, ..registers })),
        Operand::Address(address) => match write_byte::<A>(contents, address, value) {
            Ok(next) => (next, Ok(registers)),
            Err(e) => (contents, Err(e)),
        },
        Operand::BitBranch { zero_page, target } => match write_byte::<A>(
            contents,
            zero_page as u16,
            value,
        ) {
            Ok(next) => (next, Ok(registers)),
            Err(e) => (contents, Err(e)),
        },
        _ => (contents, Ok(registers)),
    }
}

/// A push: the byte is written at the stack pointer in page one, and the
/// stack pointer goes down by one; below `0x00` comes `0xFF`.
pub open spec fn push_spec<A: AddressSpace>(
    contents: A::Contents,
    registers: Registers,
    value: u8,
) -> (A::Contents, Result<Registers, AccessError>) {
    match write_byte::<A>(contents, stack_address(registers.sp), value) {
        Ok(next) => (next, Ok(Registers { sp: registers.sp.wrapping_sub(1), ..registers })),
        Err(e) => (contents, Err(e)),
    }
}

/// One more push after what came before, unless that failed.
pub open spec fn then_push<A: AddressSpace>(
    before: (A::Contents, Result<Registers, AccessError>),
    value: u8,
) -> (A::Contents, Result<Registers, AccessError>) {
    match before.1 {
        Ok(registers) => push_spec::<A>(before.0, registers, value),
        Err(e) => before,
    }
}

/// A pull: the stack pointer goes up by one, after `0xFF` comes `0x00`, and
/// the byte is read where it then points.
pub open spec fn pull_spec<A: AddressSpace>(contents: A::Contents, registers: Registers) -> Result<
    (u8, Registers),
    AccessError,
> {
    let sp = registers.sp.wrapping_add(1);
    match read_byte::<A>(contents, stack_address(sp)) {
        Ok(value) => Ok((value, Registers { sp, ..registers })),
        Err(e) => Err(e),
    }
}

/// Two pulls that make a word: the low byte first.
pub open spec fn pull_word_spec<A: AddressSpace>(
    contents: A::Contents,
    registers: Registers,
) -> Result<(u16, Registers), AccessError> {
    let low_at = registers.sp.wrapping_add(1);
    let high_at = registers.sp.wrapping_add(2);
    match read_pair::<A>(contents, stack_address(low_at), stack_address(high_at)) {
        Ok(value) => Ok((value, Registers { sp: high_at, ..registers })),
        Err(e) => Err(e),
    }
}

/// Going into a handler: the return address is pushed, high byte first, then
/// the flags with the break marker as given. Then the interrupt-disable flag
/// is set, the decimal flag is cleared, and the program counter is loaded
/// from the vector, as memory holds it after the pushes.
pub open spec fn enter_handler_spec<A: AddressSpace>(
    contents: A::Contents,
    registers: Registers,
    return_pc: u16,
    break_marker: bool,
    vector: u16,
) -> (A::Contents, Result<Registers, AccessError>) {
    let pushed = then_push::<A>(
        then_push::<A>(
            push_spec::<A>(contents, registers, high_byte(return_pc)),
            low_byte(return_pc),
        ),
        registers.flags.bits(break_marker) as u8,
    );
    match pushed.1 {
        Err(e) => pushed,
        Ok(after) => match read_word::<A>(pushed.0, vector) {
            Err(e) => (pushed.0, Err(e)),
            Ok(handler) => (
                pushed.0,
                Ok(
                    Registers {
                        pc: handler,
                        flags: Flags { interrupt_disable: true, decimal: false, ..after.flags },
                        ..after
                    },
                ),
            ),
        },
    }
}

/// The registers with the accumulator loaded and zero and negative set from
/// it.
pub open spec fn with_a(registers: Registers, value: u8) -> Registers {
    Registers { a: value, flags: registers.flags.with_nz(value), ..registers }
}

/// The registers with X loaded and zero and negative set from it.
pub open spec fn with_x(registers: Registers, value: u8) -> Registers {
    Registers { x: value, flags: registers.flags.with_nz(value), ..registers }
}

/// The registers with Y loaded and zero and negative set from it.
pub open spec fn with_y(registers: Registers, value: u8) -> Registers {
    Registers { y: value, flags: registers.flags.with_nz(value), ..registers }
}

/// What an instruction that touches only the registers makes of them.
pub open spec fn implied_spec(registers: Registers, instruction: Instruction) -> Registers {
    let flags = registers.flags;
    match instruction {
        Instruction::CLC => Registers { flags: Flags { carry: false, ..flags }, ..registers },
        Instruction::SEC => Registers { flags: Flags { carry: true, ..flags }, ..registers },
        Instruction::CLD => Registers { flags: Flags { decimal: false, ..flags }, ..registers },
        Instruction::SED => Registers { flags: Flags { decimal: true, ..flags }, ..registers },
        Instruction::CLI => Registers {
            flags: Flags { interrupt_disable: false, ..flags },
            ..registers
        },
        Instruction::SEI => Registers {
            flags: Flags { interrupt_disable: true, ..flags },
            ..registers
        },
        Instruction::CLV => Registers { flags: Flags { overflow: false, ..flags }, ..registers },
        Instruction::TAX => with_x(registers, registers.a),
        Instruction::TAY => with_y(registers, registers.a),
        Instruction::TXA => with_a(registers, registers.x),
        Instruction::TYA => with_a(registers, registers.y),
        Instruction::TSX => with_x(registers, registers.sp),
        Instruction::TXS => Registers { sp: registers.x, ..registers },
        Instruction::INX => with_x(registers, increment_spec(registers.x)),
        Instruction::INY => with_y(registers, increment_spec(registers.y)),
        Instruction::DEX => with_x(registers, decrement_spec(registers.x)),
        Instruction::DEY => with_y(registers, decrement_spec(registers.y)),
        _ => registers,
    }
}

/// What an instruction that only reads its operand makes of the registers,
/// given the byte it read.
pub open spec fn read_spec(
    registers: Registers,
    instruction: Instruction,
    immediate: bool,
    value: u8,
) -> Registers {
    let flags = registers.flags;
    match instruction {
        Instruction::LDA => with_a(registers, value),
        Instruction::LDX => with_x(registers, value),
        Instruction::LDY => with_y(registers, value),
        Instruction::ORA => with_a(registers, registers.a | value),
        Instruction::AND => with_a(registers, registers.a & value),
        Instruction::EOR => with_a(registers, registers.a ^ value),
        Instruction::ADC => {
            let sum = adc_spec(flags, registers.a, value);
            Registers { a: sum.0, flags: sum.1, ..registers }
        },
        Instruction::SBC => {
            let difference = sbc_spec(flags, registers.a, value);
            Registers { a: difference.0, flags: difference.1, ..registers }
        },
        Instruction::CMP => Registers {
            flags: compare_spec(flags, registers.a, value),
            ..registers
        },
        Instruction::CPX => Registers {
            flags: compare_spec(flags, registers.x, value),
            ..registers
        },
        Instruction::CPY => Registers {
            flags: compare_spec(flags, registers.y, value),
            ..registers
        },
        Instruction::BIT => Registers {
            flags: bit_test_spec(flags, registers.a, value, immediate),
            ..registers
        },
        _ => registers,
    }
}

/// What an instruction that changes its operand in place writes back, and
/// the flags it leaves, given the byte it read.
pub open spec fn modify_spec(registers: Registers, instruction: Instruction, value: u8) -> (
    u8,
    Flags,
) {
    let flags = registers.flags;
    match instruction {
        Instruction::ASL => shift_left_spec(flags, value),
        Instruction::LSR => shift_right_spec(flags, value),
        Instruction::ROL => rotate_left_spec(flags, value),
        Instruction::ROR => rotate_right_spec(flags, value),
        Instruction::INC => (increment_spec(value), flags.with_nz(increment_spec(value))),
        Instruction::DEC => (decrement_spec(value), flags.with_nz(decrement_spec(value))),
        Instruction::TSB => (value | registers.a, Flags { zero: registers.a & value == 0, ..flags }),
        Instruction::TRB => (
            value & !registers.a,
            Flags { zero: registers.a & value == 0, ..flags },
        ),
        Instruction::RMB(bit) => (value & !bit_mask_spec(bit), flags),
        Instruction::SMB(bit) => (value | bit_mask_spec(bit), flags),
        _ => (value, flags),
    }
}

/// Whether a branch instruction branches. The bit branches look at the byte
/// they read; the others look at the flags.
pub open spec fn branch_taken_spec(flags: Flags, instruction: Instruction, value: u8) -> bool {
    match instruction {
        Instruction::BCC => !flags.carry,
        Instruction::BCS => flags.carry,
        Instruction::BNE => !flags.zero,
        Instruction::BEQ => flags.zero,
        Instruction::BPL => !flags.negative,
        Instruction::BMI => flags.negative,
        Instruction::BVC => !flags.overflow,
        Instruction::BVS => flags.overflow,
        Instruction::BRA => true,
        Instruction::BBR(bit) => value & bit_mask_spec(bit) == 0,
        Instruction::BBS(bit) => value & bit_mask_spec(bit) != 0,
        _ => false,
    }
}

/// What one instruction does.
///
/// `registers` are the registers before the instruction, with the program
/// counter on its opcode; `next_pc` is the address after its operand; `wake`
/// says whether an interrupt is requested. The result is the contents of the
/// address space afterwards and the new registers. If an access fails, the
/// result is that error, and the contents are those after the writes that
/// went through before it.
///
/// Unless the instruction sets the program counter itself, it moves to
/// `next_pc`. `WAI` stays on its own opcode until an interrupt is requested,
/// and `STP` stays on its own opcode. `BRK` pushes the address two bytes
/// after its opcode.
pub open spec fn execute_spec<A: AddressSpace>(
    contents: A::Contents,
    registers: Registers,
    instruction: Instruction,
    operand: Operand,
    next_pc: u16,
    wake: bool,
) -> (A::Contents, Result<Registers, AccessError>) {
    let next = Registers { pc: next_pc, ..registers };
    match instruction {
        Instruction::CLC
        | Instruction::SEC
        | Instruction::CLD
        | Instruction::SED
        | Instruction::CLI
        | Instruction::SEI
        | Instruction::CLV
        | Instruction::TAX
        | Instruction::TAY
        | Instruction::TXA
        | Instruction::TYA
        | Instruction::TSX
        | Instruction::TXS
        | Instruction::INX
        | Instruction::INY
        | Instruction::DEX
        | Instruction::DEY
        | Instruction::NOP => (contents, Ok(implied_spec(next, instruction))),
        Instruction::LDA
        | Instruction::LDX
        | Instruction::LDY
        | Instruction::ORA
        | Instruction::AND
        | Instruction::EOR
        | Instruction::ADC
        | Instruction::SBC
        | Instruction::CMP
        | Instruction::CPX
        | Instruction::CPY
        | Instruction::BIT => match operand_value::<A>(contents, registers, operand) {
            Err(e) => (contents, Err(e)),
            Ok(value) => (
                contents,
                Ok(read_spec(next, instruction, operand is Immediate, value)),
            ),
        },
        Instruction::ASL
        | Instruction::LSR
        | Instruction::ROL
        | Instruction::ROR
        | Instruction::INC
        | Instruction::DEC
        | Instruction::TSB
        | Instruction::TRB
        | Instruction::RMB(_)
        | Instruction::SMB(_) => match operand_value::<A>(contents, registers, operand) {
            Err(e) => (contents, Err(e)),
            Ok(value) => {
                let modified = modify_spec(registers, instruction, value);
                store_operand::<A>(
                    contents,
                    Registers { flags: modified.1, ..next },
                    operand,
                    modified.0,
                )
            },
        },
        Instruction::STA => store_operand::<A>(contents, next, operand, registers.a),
        Instruction::STX => store_operand::<A>(contents, next, operand, registers.x),
        Instruction::STY => store_operand::<A>(contents, next, operand, registers.y),
        Instruction::STZ => store_operand::<A>(contents, next, operand, 0),
        Instruction::BCC
        | Instruction::BCS
        | Instruction::BNE
        | Instruction::BEQ
        | Instruction::BPL
        | Instruction::BMI
        | Instruction::BVC
        | Instruction::BVS
        | Instruction::BRA => (
            contents,
            Ok(
                if branch_taken_spec(registers.flags, instruction, 0) {
                    Registers { pc: operand_target(operand, next_pc), ..registers }
                } else {
                    next
                },
            ),
        ),
        Instruction::BBR(_) | Instruction::BBS(_) => match operand_value::<A>(
            contents,
            registers,
            operand,
        ) {
            Err(e) => (contents, Err(e)),
            Ok(value) => (
                contents,
                Ok(
                    if branch_taken_spec(registers.flags, instruction, value) {
                        Registers { pc: operand_target(operand, next_pc), ..registers }
                    } else {
                        next
                    },
                ),
            ),
        },
        Instruction::PHA => push_spec::<A>(contents, next, registers.a),
        Instruction::PHX => push_spec::<A>(contents, next, registers.x),
        Instruction::PHY => push_spec::<A>(contents, next, registers.y),
        Instruction::PHP => push_spec::<A>(contents, next, registers.flags.bits(true) as u8),
        Instruction::PLA => match pull_spec::<A>(contents, next) {
            Err(e) => (contents, Err(e)),
            Ok(pulled) => (contents, Ok(with_a(pulled.1, pulled.0))),
        },
        Instruction::PLX => match pull_spec::<A>(contents, next) {
            Err(e) => (contents, Err(e)),
            Ok(pulled) => (contents, Ok(with_x(pulled.1, pulled.0))),
        },
        Instruction::PLY => match pull_spec::<A>(contents, next) {
            Err(e) => (contents, Err(e)),
            Ok(pulled) => (contents, Ok(with_y(pulled.1, pulled.0))),
        },
        Instruction::PLP => match pull_spec::<A>(contents, next) {
            Err(e) => (contents, Err(e)),
            Ok(pulled) => (
                contents,
                Ok(Registers { flags: Flags::of_byte(pulled.0), ..pulled.1 }),
            ),
        },
        Instruction::JMP => (
            contents,
            Ok(Registers { pc: operand_target(operand, next_pc), ..registers }),
        ),
        Instruction::JSR => {
            let return_to = next_pc.wrapping_sub(1);
            let pushed = then_push::<A>(
                push_spec::<A>(contents, registers, high_byte(return_to)),
                low_byte(return_to),
            );
            match pushed.1 {
                Err(e) => pushed,
                Ok(after) => (
                    pushed.0,
                    Ok(Registers { pc: operand_target(operand, next_pc), ..after }),
                ),
            }
        },
        Instruction::RTS => match pull_word_spec::<A>(contents, registers) {
            Err(e) => (contents, Err(e)),
            Ok(pulled) => (
                contents,
                Ok(Registers { pc: pulled.0.wrapping_add(1), ..pulled.1 }),
            ),
        },
        Instruction::RTI => match pull_spec::<A>(contents, registers) {
            Err(e) => (contents, Err(e)),
            Ok(status) => match pull_word_spec::<A>(contents, status.1) {
                Err(e) => (contents, Err(e)),
                Ok(pulled) => (
                    contents,
                    Ok(
                        Registers {
                            pc: pulled.0,
                            flags: Flags::of_byte(status.0),
                            ..pulled.1
                        },
                    ),
                ),
            },
        },
        Instruction::BRK => enter_handler_spec::<A>(
            contents,
            registers,
            registers.pc.wrapping_add(2),
            true,
            IRQ_VECTOR,
        ),
        Instruction::WAI => (
            contents,
            Ok(
                if wake {
                    next
                } else {
                    registers
                },
            ),
        ),
        Instruction::STP => (contents, Ok(registers)),
    }
}

/// Reads the byte that an operand stands for.
pub fn operand_byte<A: AddressSpace>(memory: &mut A, registers: &Registers, operand: Operand) -> (r:
    Result<u8, AccessError>)
    ensures
        r == operand_value::<A>(old(memory).contents(), *registers, operand),
        final(memory).contents() == old(memory).contents(),
{
    match operand {
        Operand::Implied => Ok(0),
        Operand::Accumulator => Ok(registers.a),
        Operand::Immediate(value) => Ok(value),
        Operand::Address(address) => load_byte(memory, address),
        Operand::BitBranch { zero_page, target: _ } => load_byte(memory, zero_page as u16),
    }
}

/// The address that a jump or a taken branch goes to.
pub fn target_of(operand: Operand, next_pc: u16) -> (target: u16)
    ensures
        target == operand_target(operand, next_pc),
{
    match operand {
        Operand::Address(address) => address,
        Operand::BitBranch { zero_page: _, target } => target,
        _ => next_pc,
    }
}

/// Writes `value` to where the operand is.
pub fn write_back<A: AddressSpace>(
    memory: &mut A,
    registers: Registers,
    operand: Operand,
    value: u8,
) -> (r: Result<Registers, AccessError>)
    ensures
        (final(memory).contents(), r) == store_operand::<A>(
            old(memory).contents(),
            registers,
            operand,
            value,
        ),
{
    match operand {
        Operand::Accumulator => Ok(Registers { a: value, ..registers }),
        Operand::Address(address) => match store_byte(memory, address, value) {
            Ok(()) => Ok(registers),
            Err(e) => Err(e),
        },
        Operand::BitBranch { zero_page, target: _ } => match store_byte(
            memory,
            zero_page as u16,
            value,
        ) {
            Ok(()) => Ok(registers),
            Err(e) => Err(e),
        },
        _ => Ok(registers),
    }
}

/// Pushes a byte on the stack.
pub fn push<A: AddressSpace>(memory: &mut A, registers: Registers, value: u8) -> (r: Result<
    Registers,
    AccessError,
>)
    ensures
        (final(memory).contents(), r) == push_spec::<A>(old(memory).contents(), registers, value),
{
    match store_byte(memory, STACK_PAGE + registers.sp as u16, value) {
        Ok(()) => Ok(Registers { sp: registers.sp.wrapping_sub(1), ..registers }),
        Err(e) => Err(e),
    }
}

/// Pulls a byte from the stack.
pub fn pull<A: AddressSpace>(memory: &mut A, registers: Registers) -> (r: Result<
    (u8, Registers),
    AccessError,
>)
    ensures
        r == pull_spec::<A>(old(memory).contents(), registers),
        final(memory).contents() == old(memory).contents(),
{
    let sp = registers.sp.wrapping_add(1);
    match load_byte(memory, STACK_PAGE + sp as u16) {
        Ok(value) => Ok((value, Registers { sp, ..registers })),
        Err(e) => Err(e),
    }
}

/// Pulls a word from the stack, the low byte first.
pub fn pull_word<A: AddressSpace>(memory: &mut A, registers: Registers) -> (r: Result<
    (u16, Registers),
    AccessError,
>)
    ensures
        r == pull_word_spec::<A>(old(memory).contents(), registers),
        final(memory).contents() == old(memory).contents(),
{
    let low_at = registers.sp.wrapping_add(1);
    let high_at = registers.sp.wrapping_add(2);
    match load_pair(memory, STACK_PAGE + low_at as u16, STACK_PAGE + high_at as u16) {
        Ok(value) => Ok((value, Registers { sp: high_at, ..registers })),
        Err(e) => Err(e),
    }
}

/// Goes into a handler: pushes the return address and the flags, then loads
/// the program counter from the vector.
pub fn enter_handler<A: AddressSpace>(
    memory: &mut A,
    registers: Registers,
    return_pc: u16,
    break_marker: bool,
    vector: u16,
) -> (r: Result<Registers, AccessError>)
    ensures
        (final(memory).contents(), r) == enter_handler_spec::<A>(
            old(memory).contents(),
            registers,
            return_pc,
            break_marker,
            vector,
        ),
{
    let (low, high) = split_word(return_pc);
    let status = registers.flags.to_byte(break_marker);
    let after = push(memory, registers, high)?;
    let after = push(memory, after, low)?;
    let after = push(memory, after, status)?;
    let handler = load_word(memory, vector)?;
    Ok(
        Registers {
            pc: handler,
            flags: Flags { interrupt_disable: true, decimal: false, ..after.flags },
            ..after
        },
    )
}

/// Executes an instruction that touches only the registers. `registers`
/// already has the program counter on the next instruction.
pub fn execute_implied(registers: Registers, instruction: Instruction) -> (r: Registers)
    ensures
        r == implied_spec(registers, instruction),
{
    let flags = registers.flags;
    match instruction {
        Instruction::CLC => Registers { flags: Flags { carry: false, ..flags }, ..registers },
        Instruction::SEC => Registers { flags: Flags { carry: true, ..flags }, ..registers },
        Instruction::CLD => Registers { flags: Flags { decimal: false, ..flags }, ..registers },
        Instruction::SED => Registers { flags: Flags { decimal: true, ..flags }, ..registers },
        Instruction::CLI => Registers {
            flags: Flags { interrupt_disable: false, ..flags },
            ..registers
        },
        Instruction::SEI => Registers {
            flags: Flags { interrupt_disable: true, ..flags },
            ..registers
        },
        Instruction::CLV => Registers { flags: Flags { overflow: false, ..flags }, ..registers },
        Instruction::TAX => load_x(registers, registers.a),
        Instruction::TAY => load_y(registers, registers.a),
        Instruction::TXA => load_a(registers, registers.x),
        Instruction::TYA => load_a(registers, registers.y),
        Instruction::TSX => load_x(registers, registers.sp),
        Instruction::TXS => Registers { sp: registers.x, ..registers },
        Instruction::INX => load_x(registers, registers.x.wrapping_add(1)),
        Instruction::INY => load_y(registers, registers.y.wrapping_add(1)),
        Instruction::DEX => load_x(registers, registers.x.wrapping_sub(1)),
        Instruction::DEY => load_y(registers, registers.y.wrapping_sub(1)),
        _ => registers,
    }
}

/// Executes an instruction that only reads its operand, on the byte it
/// read. `registers` already has the program counter on the next
/// instruction.
pub fn execute_read(registers: Registers, instruction: Instruction, immediate: bool, value: u8) -> (r:
    Registers)
    ensures
        r == read_spec(registers, instruction, immediate, value),
{
    let flags = registers.flags;
    match instruction {
        Instruction::LDA => load_a(registers, value),
        Instruction::LDX => load_x(registers, value),
        Instruction::LDY => load_y(registers, value),
        Instruction::ORA => load_a(registers, registers.a | value),
        Instruction::AND => load_a(registers, registers.a & value),
        Instruction::EOR => load_a(registers, registers.a ^ value),
        Instruction::ADC => {
            let (a, flags) = add_with_carry(flags, registers.a, value);
            Registers { a, flags, ..registers }
        },
        Instruction::SBC => {
            let (a, flags) = subtract_with_borrow(flags, registers.a, value);
            Registers { a, flags, ..registers }
        },
        Instruction::CMP => Registers { flags: compare(flags, registers.a, value), ..registers },
        Instruction::CPX => Registers { flags: compare(flags, registers.x, value), ..registers },
        Instruction::CPY => Registers { flags: compare(flags, registers.y, value), ..registers },
        Instruction::BIT => Registers {
            flags: bit_test(flags, registers.a, value, immediate),
            ..registers
        },
        _ => registers,
    }
}

/// Computes what an instruction that changes its operand in place writes
/// back, and the flags it leaves.
pub fn execute_modify(registers: &Registers, instruction: Instruction, value: u8) -> (r: (
    u8,
    Flags,
))
    ensures
        r == modify_spec(*registers, instruction, value),
{
    let flags = registers.flags;
    match instruction {
        Instruction::ASL => shift_left(flags, value),
        Instruction::LSR => shift_right(flags, value),
        Instruction::ROL => rotate_left(flags, value),
        Instruction::ROR => rotate_right(flags, value),
        Instruction::INC => {
            let result = value.wrapping_add(1);
            (result, flags.set_nz(result))
        },
        Instruction::DEC => {
            let result = value.wrapping_sub(1);
            (result, flags.set_nz(result))
        },
        Instruction::TSB => (value | registers.a, Flags { zero: registers.a & value == 0, ..flags }),
        Instruction::TRB => (
            value & !registers.a,
            Flags { zero: registers.a & value == 0, ..flags },
        ),
        Instruction::RMB(bit) => (value & !bit_mask(bit), flags),
        Instruction::SMB(bit) => (value | bit_mask(bit), flags),
        _ => (value, flags),
    }
}

/// Decides whether a branch instruction branches.
pub fn branch_taken(flags: &Flags, instruction: Instruction, value: u8) -> (taken: bool)
    ensures
        taken == branch_taken_spec(*flags, instruction, value),
{
    match instruction {
        Instruction::BCC => !flags.carry,
        Instruction::BCS => flags.carry,
        Instruction::BNE => !flags.zero,
        Instruction::BEQ => flags.zero,
        Instruction::BPL => !flags.negative,
        Instruction::BMI => flags.negative,
        Instruction::BVC => !flags.overflow,
        Instruction::BVS => flags.overflow,
        Instruction::BRA => true,
        Instruction::BBR(bit) => value & bit_mask(bit) == 0,
        Instruction::BBS(bit) => value & bit_mask(bit) != 0,
        _ => false,
    }
}

/// Executes one instruction on an operand that is already resolved.
#[verifier::rlimit(50)]
pub fn execute<A: AddressSpace>(
    memory: &mut A,
    registers: Registers,
    instruction: Instruction,
    operand: Operand,
    next_pc: u16,
    wake: bool,
) -> (r: Result<Registers, AccessError>)
    ensures
        (final(memory).contents(), r) == execute_spec::<A>(
            old(memory).contents(),
            registers,
            instruction,
            operand,
            next_pc,
            wake,
        ),
{
    let next = Registers { pc: next_pc, ..registers };
    match instruction {
        Instruction::CLC
        | Instruction::SEC
        | Instruction::CLD
        | Instruction::SED
        | Instruction::CLI
        | Instruction::SEI
        | Instruction::CLV
        | Instruction::TAX
        | Instruction::TAY
        | Instruction::TXA
        | Instruction::TYA
        | Instruction::TSX
        | Instruction::TXS
        | Instruction::INX
        | Instruction::INY
        | Instruction::DEX
        | Instruction::DEY
        | Instruction::NOP => Ok(execute_implied(next, instruction)),
        Instruction::LDA
        | Instruction::LDX
        | Instruction::LDY
        | Instruction::ORA
        | Instruction::AND
        | Instruction::EOR
        | Instruction::ADC
        | Instruction::SBC
        | Instruction::CMP
        | Instruction::CPX
        | Instruction::CPY
        | Instruction::BIT => {
            let value = operand_byte(memory, &registers, operand)?;
            let immediate = match operand {
                Operand::Immediate(_) => true,
                _ => false,
            };
            Ok(execute_read(next, instruction, immediate, value))
        },
        Instruction::ASL
        | Instruction::LSR
        | Instruction::ROL
        | Instruction::ROR
        | Instruction::INC
        | Instruction::DEC
        | Instruction::TSB
        | Instruction::TRB
        | Instruction::RMB(_)
        | Instruction::SMB(_) => {
            let value = operand_byte(memory, &registers, operand)?;
            let (result, flags) = execute_modify(&registers, instruction, value);
            write_back(memory, Registers { flags, ..next }, operand, result)
        },
        Instruction::STA => write_back(memory, next, operand, registers.a),
        Instruction::STX => write_back(memory, next, operand, registers.x),
        Instruction::STY => write_back(memory, next, operand, registers.y),
        Instruction::STZ => write_back(memory, next, operand, 0),
        Instruction::BCC
        | Instruction::BCS
        | Instruction::BNE
        | Instruction::BEQ
        | Instruction::BPL
        | Instruction::BMI
        | Instruction::BVC
        | Instruction::BVS
        | Instruction::BRA => {
            let taken = branch_taken(&registers.flags, instruction, 0);
            Ok(branch(registers, taken, operand, next_pc))
        },
        Instruction::BBR(_) | Instruction::BBS(_) => {
            let value = operand_byte(memory, &registers, operand)?;
            let taken = branch_taken(&registers.flags, instruction, value);
            Ok(branch(registers, taken, operand, next_pc))
        },
        Instruction::PHA => push(memory, next, registers.a),
        Instruction::PHX => push(memory, next, registers.x),
        Instruction::PHY => push(memory, next, registers.y),
        Instruction::PHP => push(memory, next, registers.flags.to_byte(true)),
        Instruction::PLA => {
            let (value, after) = pull(memory, next)?;
            Ok(load_a(after, value))
        },
        Instruction::PLX => {
            let (value, after) = pull(memory, next)?;
            Ok(load_x(after, value))
        },
        Instruction::PLY => {
            let (value, after) = pull(memory, next)?;
            Ok(load_y(after, value))
        },
        Instruction::PLP => {
            let (status, after) = pull(memory, next)?;
            Ok(Registers { flags: Flags::from_byte(status), ..after })
        },
        Instruction::JMP => Ok(Registers { pc: target_of(operand, next_pc), ..registers }),
        Instruction::JSR => {
            let (low, high) = split_word(next_pc.wrapping_sub(1));
            let after = push(memory, registers, high)?;
            let after = push(memory, after, low)?;
            Ok(Registers { pc: target_of(operand, next_pc), ..after })
        },
        Instruction::RTS => {
            let (return_to, after) = pull_word(memory, registers)?;
            Ok(Registers { pc: return_to.wrapping_add(1), ..after })
        },
        Instruction::RTI => {
            let (status, after) = pull(memory, registers)?;
            let (pc, after) = pull_word(memory, after)?;
            Ok(Registers { pc, flags: Flags::from_byte(status), ..after })
        },
        Instruction::BRK => enter_handler(
            memory,
            registers,
            registers.pc.wrapping_add(2),
            true,
            IRQ_VECTOR,
        ),
        Instruction::WAI => if wake {
            Ok(next)
        } else {
            Ok(registers)
        },
        Instruction::STP => Ok(registers),
    }
}

/// Loads the accumulator and sets zero and negative from it.
fn load_a(registers: Registers, value: u8) -> (r: Registers)
    ensures
        r == with_a(registers, value),
{
    Registers { a: value, flags: registers.flags.set_nz(value), ..registers }
}

/// Loads X and sets zero and negative from it.
fn load_x(registers: Registers, value: u8) -> (r: Registers)
    ensures
        r == with_x(registers, value),
{
    Registers { x: value, flags: registers.flags.set_nz(value), ..registers }
}

/// Loads Y and sets zero and negative from it.
fn load_y(registers: Registers, value: u8) -> (r: Registers)
    ensures
        r == with_y(registers, value),
{
    Registers { y: value, flags: registers.flags.set_nz(value), ..registers }
}

/// The registers after a branch on a flag: at the target if the branch is
/// taken, at the next instruction if it is not.
fn branch(registers: Registers, taken: bool, operand: Operand, next_pc: u16) -> (r: Registers)
    ensures
        r == if taken {
            Registers { pc: operand_target(operand, next_pc), ..registers }
        } else {
            Registers { pc: next_pc, ..registers }
        },
{
    if taken {
        Registers { pc: target_of(operand, next_pc), ..registers }
    } else {
        Registers { pc: next_pc, ..registers }
    }
}

} // verus!
