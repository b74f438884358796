//! The core: the registers, the interrupt lines and the address space, and
//! the step that takes them from one instruction boundary to the next.

use vstd::prelude::*;
use crate::memory::{AccessError, AddressSpace};
use super::addr_mode::{resolve, resolve_spec};
use super::bus::{load_word, read_word};
use super::decoder::{fetch, fetch_spec};
use super::execute::{enter_handler, enter_handler_spec, execute, execute_spec};
use super::instr::Instruction;
use super::interrupt::{HandlesInterrupt, InterruptKind, Interrupts, RESET_VECTOR};
use super::registers::Registers;

verus! {

/// The state of a core and its address space at an instruction boundary.
pub struct Machine<C> {
    pub registers: Registers,
    pub interrupts: Interrupts,
    /// The contents of the address space.
    pub contents: C,
}

/// Reset: the registers go to their reset state, the program counter is
/// loaded from the reset vector, and every interrupt request is dropped. If
/// the vector cannot be read, nothing changes.
pub open spec fn reset_spec<A: AddressSpace>(machine: Machine<A::Contents>) -> (
    Machine<A::Contents>,
    Result<(), AccessError>,
) {
    match read_word::<A>(machine.contents, RESET_VECTOR) {
        Err(e) => (machine, Err(e)),
        Ok(start) => (
            Machine {
                registers: Registers { pc: start, ..Registers::reset_state() },
                interrupts: Interrupts::idle(),
                contents: machine.contents,
            },
            Ok(()),
        ),
    }
}

/// The instruction at the program counter is fetched, its operand is
/// resolved, and it is executed. `RTI` also ends the handler that the core
/// is in. If an access fails, the registers and the interrupt lines stay as
/// they were, and the contents are those after the writes that went through.
pub open spec fn instruction_spec<A: AddressSpace>(machine: Machine<A::Contents>) -> (
    Machine<A::Contents>,
    Result<(), AccessError>,
) {
    let registers = machine.registers;
    match fetch_spec::<A>(machine.contents, registers.pc) {
        Err(e) => (machine, Err(e)),
        Ok(decoded) => {
            let next_pc = registers.pc.wrapping_add(decoded.len() as u16);
            match resolve_spec::<A>(
                machine.contents,
                registers.x,
                registers.y,
                decoded.mode,
                decoded.operand,
                next_pc,
            ) {
                Err(e) => (machine, Err(e)),
                Ok(operand) => {
                    let executed = execute_spec::<A>(
                        machine.contents,
                        registers,
                        decoded.instruction,
                        operand,
                        next_pc,
                        machine.interrupts.any_pending(),
                    );
                    match executed.1 {
                        Err(e) => (Machine { contents: executed.0, ..machine }, Err(e)),
                        Ok(after) => (
                            Machine {
                                registers: after,
                                interrupts: if decoded.instruction == Instruction::RTI {
                                    machine.interrupts.returned()
                                } else {
                                    machine.interrupts
                                },
                                contents: executed.0,
                            },
                            Ok(()),
                        ),
                    }
                },
            }
        },
    }
}

/// At an instruction boundary the interrupt that is due, if there is one, is
/// taken: the program counter and the flags are pushed, with the break
/// marker clear, the core goes to the handler that the vector names, the
/// request is dropped, and the core counts as being in a handler. If an
/// access fails, the registers and the interrupt lines stay as they were.
pub open spec fn interrupt_spec<A: AddressSpace>(machine: Machine<A::Contents>) -> (
    Machine<A::Contents>,
    Result<(), AccessError>,
) {
    match machine.interrupts.due(machine.registers.flags) {
        None => (machine, Ok(())),
        Some(kind) => {
            let entered = enter_handler_spec::<A>(
                machine.contents,
                machine.registers,
                machine.registers.pc,
                false,
                kind.vector(),
            );
            match entered.1 {
                Err(e) => (Machine { contents: entered.0, ..machine }, Err(e)),
                Ok(registers) => (
                    Machine {
                        registers,
                        interrupts: machine.interrupts.taken(kind),
                        contents: entered.0,
                    },
                    Ok(()),
                ),
            }
        },
    }
}

/// One step: one instruction, then the interrupt that is due after it. If
/// the instruction fails, no interrupt is looked at.
pub open spec fn step_spec<A: AddressSpace>(machine: Machine<A::Contents>) -> (
    Machine<A::Contents>,
    Result<(), AccessError>,
) {
    let executed = instruction_spec::<A>(machine);
    match executed.1 {
        Err(e) => executed,
        Ok(()) => interrupt_spec::<A>(executed.0),
    }
}

/// A 65C02 core bound to an address space.
pub struct Core<A: AddressSpace> {
    pub registers: Registers,
    pub interrupts: Interrupts,
    pub address_space: A,
}

impl<A: AddressSpace> Core<A> {
    /// The state of the core and of its address space.
    pub open spec fn state(&self) -> Machine<A::Contents> {
        Machine {
            registers: self.registers,
            interrupts: self.interrupts,
            contents: self.address_space.contents(),
        }
    }

    /// A core in its reset state, with the program counter at zero and no
    /// interrupt requested. The address space is not touched: `reset` loads
    /// the program counter from the reset vector.
    pub fn new(address_space: A) -> (core: Self)
        ensures
            core.state() == (Machine {
                registers: Registers::reset_state(),
                interrupts: Interrupts::idle(),
                contents: address_space.contents(),
            }),
    {
        Core { registers: Registers::new(), interrupts: Interrupts::new(), address_space }
    }

    /// Resets the core.
    pub fn reset(&mut self) -> (r: Result<(), AccessError>)
        ensures
            (final(self).state(), r) == reset_spec::<A>(old(self).state()),
    {
        let start = load_word(&mut self.address_space, RESET_VECTOR)?;
        let mut registers = Registers::new();
        registers.pc = start;
        self.registers = registers;
        self.interrupts = Interrupts::new();
        Ok(())
    }

    /// Executes the instruction at the program counter.
    pub fn execute_instruction(&mut self) -> (r: Result<(), AccessError>)
        ensures
            (final(self).state(), r) == instruction_spec::<A>(old(self).state()),
    {
        let registers = self.registers;
        let decoded = fetch(&mut self.address_space, registers.pc)?;
        let next_pc = registers.pc.wrapping_add(decoded.length());
        let operand = resolve(
            &mut self.address_space,
            registers.x,
            registers.y,
            decoded.mode,
            decoded.operand,
            next_pc,
        )?;
        let wake = self.interrupts.is_any_pending();
        let after = execute(
            &mut self.address_space,
            registers,
            decoded.instruction,
            operand,
            next_pc,
            wake,
        )?;
        self.registers = after;
        if decoded.instruction == Instruction::RTI {
            self.interrupts.servicing = false;
        }
        Ok(())
    }

    /// Takes the interrupt that is due, if there is one.
    pub fn service_interrupts(&mut self) -> (r: Result<(), AccessError>)
        ensures
            (final(self).state(), r) == interrupt_spec::<A>(old(self).state()),
    {
        match self.interrupts.next_due(&self.registers.flags) {
            None => Ok(()),
            Some(kind) => {
                let registers = self.registers;
                let after = enter_handler(
                    &mut self.address_space,
                    registers,
                    registers.pc,
                    false,
                    kind.vector_address(),
                )?;
                self.registers = after;
                self.interrupts.clear(kind);
                self.interrupts.servicing = true;
                Ok(())
            },
        }
    }

    /// Runs one step: one instruction, then the interrupt that is due.
    pub fn step(&mut self) -> (r: Result<(), AccessError>)
        ensures
            (final(self).state(), r) == step_spec::<A>(old(self).state()),
    {
        self.execute_instruction()?;
        self.service_interrupts()
    }
}

impl<A: AddressSpace> HandlesInterrupt for Core<A> {
    open spec fn interrupts(&self) -> Interrupts {
        self.interrupts
    }

    fn request_interrupt(&mut self, kind: InterruptKind)
        ensures
            final(self).state() == (Machine {
                interrupts: old(self).interrupts.requested(kind),
                ..old(self).state()
            }),
    {
        self.interrupts.request(kind);
    }
}

} // verus!
