//! What a step does to memory and to the stack.

use vstd::prelude::*;
use crate::memory::{AccessError, AddressSpace, Ram};
use super::super::addr_mode::{resolve_spec, Operand};
use super::super::bus::{high_byte, low_byte, read_byte, word, write_byte};
use super::super::cpu::{instruction_spec, step_spec, Machine};
use super::super::decoder::fetch_spec;
use super::super::execute::{enter_handler_spec, execute_spec, pull_spec, push_spec, then_push};
use super::super::instr::Instruction;
use super::super::interrupt::IRQ_VECTOR;
use super::super::registers::{lemma_flags_round_trip, stack_address, Registers};
use super::totality::accepts_every_access;

verus! {

/// The stack wraps within page one: a push at `0x00` writes to `0x0100` and
/// leaves the stack pointer at `0xFF`, and a pull at `0xFF` reads `0x0100`
/// and leaves the stack pointer at `0x00`.
pub proof fn lemma_stack_wraps<A: AddressSpace>(
    contents: A::Contents,
    registers: Registers,
    value: u8,
)
    ensures
        registers.sp == 0x00 ==> push_spec::<A>(contents, registers, value) == match write_byte::<
            A,
        >(contents, 0x0100, value) {
            Ok(next) => (next, Ok::<Registers, AccessError>(Registers { sp: 0xFF, ..registers })),
            Err(e) => (contents, Err(e)),
        },
        registers.sp == 0xFF ==> pull_spec::<A>(contents, registers) == match read_byte::<A>(
            contents,
            0x0100,
        ) {
            Ok(value) => Ok::<(u8, Registers), AccessError>(
                (value, Registers { sp: 0x00, ..registers }),
            ),
            Err(e) => Err(e),
        },
{
}

/// What is true of the contents before a step and is kept by every write
/// that the address space accepts in the 64 KiB that the core can reach is
/// true of the contents after the step, whether the step succeeds or fails:
/// a step changes the contents by writes alone.
#[verifier::rlimit(50)]
pub proof fn lemma_step_only_writes<A: AddressSpace>(
    machine: Machine<A::Contents>,
    kept: spec_fn(A::Contents) -> bool,
)
    requires
        kept(machine.contents),
        forall|contents: A::Contents, address: usize, value: u8|
            kept(contents) && address < 0x10000 && (#[trigger] A::write_of(
                contents,
                address,
                value,
            )) is Ok ==> kept(A::write_of(contents, address, value)->Ok_0),
    ensures
        kept(step_spec::<A>(machine).0.contents),
{
    let registers = machine.registers;
    let fetched = fetch_spec::<A>(machine.contents, registers.pc);
    if fetched is Ok {
        let decoded = fetched->Ok_0;
        let next_pc = registers.pc.wrapping_add(decoded.len() as u16);
        let resolved = resolve_spec::<A>(
            machine.contents,
            registers.x,
            registers.y,
            decoded.mode,
            decoded.operand,
            next_pc,
        );
        if resolved is Ok {
            lemma_execute_only_writes::<A>(
                machine.contents,
                registers,
                decoded.instruction,
                resolved->Ok_0,
                next_pc,
                machine.interrupts.any_pending(),
                kept,
            );
        }
    }
    let after = instruction_spec::<A>(machine).0;
    assert(kept(after.contents));
    if instruction_spec::<A>(machine).1 is Ok && after.interrupts.due(after.registers.flags)
        is Some {
        lemma_enter_handler_only_writes::<A>(
            after.contents,
            after.registers,
            after.registers.pc,
            false,
            after.interrupts.due(after.registers.flags)->Some_0.vector(),
            kept,
        );
    }
}

/// Going into a handler changes the contents by writes alone.
proof fn lemma_enter_handler_only_writes<A: AddressSpace>(
    contents: A::Contents,
    registers: Registers,
    return_pc: u16,
    break_marker: bool,
    vector: u16,
    kept: spec_fn(A::Contents) -> bool,
)
    requires
        kept(contents),
        forall|contents: A::Contents, address: usize, value: u8|
            kept(contents) && address < 0x10000 && (#[trigger] A::write_of(
                contents,
                address,
                value,
            )) is Ok ==> kept(A::write_of(contents, address, value)->Ok_0),
    ensures
        kept(enter_handler_spec::<A>(contents, registers, return_pc, break_marker, vector).0),
{
    let first = push_spec::<A>(contents, registers, high_byte(return_pc));
    assert(kept(first.0));
    let second = then_push::<A>(first, low_byte(return_pc));
    assert(kept(second.0));
    let third = then_push::<A>(second, registers.flags.bits(break_marker) as u8);
    assert(kept(third.0));
}

/// An instruction changes the contents by writes alone.
#[verifier::rlimit(50)]
proof fn lemma_execute_only_writes<A: AddressSpace>(
    contents: A::Contents,
    registers: Registers,
    instruction: Instruction,
    operand: Operand,
    next_pc: u16,
    wake: bool,
    kept: spec_fn(A::Contents) -> bool,
)
    requires
        kept(contents),
        forall|contents: A::Contents, address: usize, value: u8|
            kept(contents) && address < 0x10000 && (#[trigger] A::write_of(
                contents,
                address,
                value,
            )) is Ok ==> kept(A::write_of(contents, address, value)->Ok_0),
    ensures
        kept(execute_spec::<A>(contents, registers, instruction, operand, next_pc, wake).0),
{
    if instruction == Instruction::BRK {
        lemma_enter_handler_only_writes::<A>(
            contents,
            registers,
            registers.pc.wrapping_add(2),
            true,
            IRQ_VECTOR,
            kept,
        );
    } else if instruction == Instruction::JSR {
        let return_to = next_pc.wrapping_sub(1);
        let first = push_spec::<A>(contents, registers, high_byte(return_to));
        assert(kept(first.0));
        let second = then_push::<A>(first, low_byte(return_to));
        assert(kept(second.0));
    }
}

/// An address space that behaves as plain memory where the core can reach:
/// it accepts every write, a read returns what was last written to the
/// address, and a write changes what no other address holds.
pub open spec fn is_plain_memory<A: AddressSpace>() -> bool {
    &&& forall|contents: A::Contents, address: usize, value: u8|
        address < 0x10000 ==> (#[trigger] A::write_of(contents, address, value)) is Ok
    &&& forall|contents: A::Contents, address: usize, value: u8, other: usize|
        address < 0x10000 && other < 0x10000 ==> #[trigger] A::read_of(
            A::write_of(contents, address, value)->Ok_0,
            other,
        ) == if other == address {
            Ok::<u8, AccessError>(value)
        } else {
            A::read_of(contents, other)
        }
}

/// `Ram` is plain memory.
pub proof fn lemma_ram_is_plain_memory()
    ensures
        is_plain_memory::<Ram>(),
        accepts_every_access::<Ram>(),
{
}

/// On plain memory, a pull gives back the byte that was pushed last, and
/// the registers are as they were before the push.
pub proof fn lemma_pull_undoes_push<A: AddressSpace>(
    contents: A::Contents,
    registers: Registers,
    value: u8,
)
    requires
        is_plain_memory::<A>(),
    ensures
        push_spec::<A>(contents, registers, value).1 is Ok,
        pull_spec::<A>(
            push_spec::<A>(contents, registers, value).0,
            push_spec::<A>(contents, registers, value).1->Ok_0,
        ) == Ok::<(u8, Registers), AccessError>((value, registers)),
{
}

/// On plain memory, `RTS` undoes `JSR`: after a call and a return, execution
/// goes on at the instruction after the call, and every register is as it
/// was before the call.
#[verifier::rlimit(50)]
pub proof fn lemma_return_undoes_call<A: AddressSpace>(
    contents: A::Contents,
    registers: Registers,
    subroutine: u16,
    next_pc: u16,
    wake: bool,
)
    requires
        is_plain_memory::<A>(),
    ensures
        ({
            let called = execute_spec::<A>(
                contents,
                registers,
                Instruction::JSR,
                Operand::Address(subroutine),
                next_pc,
                wake,
            );
            &&& called.1 is Ok
            &&& called.1->Ok_0 == Registers {
                pc: subroutine,
                sp: registers.sp.wrapping_sub(2),
                ..registers
            }
            &&& execute_spec::<A>(
                called.0,
                called.1->Ok_0,
                Instruction::RTS,
                Operand::Implied,
                subroutine.wrapping_add(1),
                wake,
            ) == (called.0, Ok::<Registers, AccessError>(Registers { pc: next_pc, ..registers }))
        }),
{
    let return_to = next_pc.wrapping_sub(1);
    let first = push_spec::<A>(contents, registers, high_byte(return_to));
    let second = then_push::<A>(first, low_byte(return_to));
    let low_at = stack_address(registers.sp.wrapping_sub(1));
    let high_at = stack_address(registers.sp);
    assert(read_byte::<A>(second.0, low_at) == Ok::<u8, AccessError>(low_byte(return_to)));
    assert(read_byte::<A>(first.0, high_at) == Ok::<u8, AccessError>(high_byte(return_to)));
    assert(read_byte::<A>(second.0, high_at) == Ok::<u8, AccessError>(high_byte(return_to)));
    assert(word(low_byte(return_to), high_byte(return_to)) == return_to);
}

/// On plain memory, `RTI` undoes going into a handler: execution goes on at
/// the address that was pushed, and every register and every flag is as it
/// was before.
#[verifier::rlimit(50)]
pub proof fn lemma_return_undoes_interrupt<A: AddressSpace>(
    contents: A::Contents,
    registers: Registers,
    return_pc: u16,
    break_marker: bool,
    vector: u16,
    wake: bool,
)
    requires
        is_plain_memory::<A>(),
        enter_handler_spec::<A>(contents, registers, return_pc, break_marker, vector).1 is Ok,
    ensures
        ({
            let entered = enter_handler_spec::<A>(
                contents,
                registers,
                return_pc,
                break_marker,
                vector,
            );
            execute_spec::<A>(
                entered.0,
                entered.1->Ok_0,
                Instruction::RTI,
                Operand::Implied,
                entered.1->Ok_0.pc.wrapping_add(1),
                wake,
            ) == (entered.0, Ok::<Registers, AccessError>(Registers { pc: return_pc, ..registers }))
        }),
{
    let status = registers.flags.bits(break_marker) as u8;
    let first = push_spec::<A>(contents, registers, high_byte(return_pc));
    let second = then_push::<A>(first, low_byte(return_pc));
    let third = then_push::<A>(second, status);
    let high_at = stack_address(registers.sp);
    let low_at = stack_address(registers.sp.wrapping_sub(1));
    let status_at = stack_address(registers.sp.wrapping_sub(2));
    assert(read_byte::<A>(first.0, high_at) == Ok::<u8, AccessError>(high_byte(return_pc)));
    assert(read_byte::<A>(second.0, high_at) == Ok::<u8, AccessError>(high_byte(return_pc)));
    assert(read_byte::<A>(third.0, high_at) == Ok::<u8, AccessError>(high_byte(return_pc)));
    assert(read_byte::<A>(second.0, low_at) == Ok::<u8, AccessError>(low_byte(return_pc)));
    assert(read_byte::<A>(third.0, low_at) == Ok::<u8, AccessError>(low_byte(return_pc)));
    assert(read_byte::<A>(third.0, status_at) == Ok::<u8, AccessError>(status));
    assert(word(low_byte(return_pc), high_byte(return_pc)) == return_pc);
    lemma_flags_round_trip(registers.flags, break_marker);
}

} // verus!
