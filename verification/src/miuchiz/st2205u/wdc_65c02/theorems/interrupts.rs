//! When an interrupt is taken, and what taking it does.

use vstd::prelude::*;
use crate::memory::{AccessError, AddressSpace};
use super::super::bus::{high_byte, low_byte, read_word};
use super::super::cpu::{instruction_spec, interrupt_spec, step_spec, Machine};
use super::super::execute::{enter_handler_spec, push_spec, then_push};
use super::super::interrupt::{InterruptKind, Interrupts, IRQ_VECTOR, NMI_VECTOR};
use super::super::registers::{Flags, Registers};

verus! {

/// A non-maskable interrupt that is requested when the core is in no handler
/// is taken at the instruction boundary, whatever the interrupt-disable flag
/// says: the program counter is pushed, high byte first, then the flags with
/// the break marker clear; the interrupt-disable flag is set; and the
/// program counter is loaded from the vector at `0xFFFA`, as memory holds it
/// after the pushes.
pub proof fn lemma_nmi_is_taken<A: AddressSpace>(machine: Machine<A::Contents>)
    requires
        machine.interrupts.nmi_pending,
        !machine.interrupts.servicing,
    ensures
        ({
            let registers = machine.registers;
            let pushed = then_push::<A>(
                then_push::<A>(
                    push_spec::<A>(machine.contents, registers, high_byte(registers.pc)),
                    low_byte(registers.pc),
                ),
                registers.flags.bits(false) as u8,
            );
            let after = interrupt_spec::<A>(machine);
            &&& after.0.contents == pushed.0
            &&& pushed.1 is Ok && read_word::<A>(pushed.0, NMI_VECTOR) is Ok ==> {
                &&& after.1 is Ok
                &&& after.0.registers == Registers {
                    pc: read_word::<A>(pushed.0, NMI_VECTOR)->Ok_0,
                    sp: registers.sp.wrapping_sub(3),
                    flags: Flags { interrupt_disable: true, decimal: false, ..registers.flags },
                    ..registers
                }
                &&& after.0.interrupts == Interrupts {
                    nmi_pending: false,
                    servicing: true,
                    ..machine.interrupts
                }
            }
        }),
{
}

/// A request for the non-maskable interrupt between two steps makes the
/// next step end in the handler: the instruction at the program counter is
/// executed, and unless the core is in a handler after it, the interrupt is
/// taken as `lemma_nmi_is_taken` says.
pub proof fn lemma_nmi_after_request<A: AddressSpace>(machine: Machine<A::Contents>)
    requires
        instruction_spec::<A>(
            Machine {
                interrupts: machine.interrupts.requested(InterruptKind::NonMaskable),
                ..machine
            },
        ).1 is Ok,
        !instruction_spec::<A>(
            Machine {
                interrupts: machine.interrupts.requested(InterruptKind::NonMaskable),
                ..machine
            },
        ).0.interrupts.servicing,
    ensures
        ({
            let requested = Machine {
                interrupts: machine.interrupts.requested(InterruptKind::NonMaskable),
                ..machine
            };
            let executed = instruction_spec::<A>(requested).0;
            &&& executed.interrupts.nmi_pending
            &&& step_spec::<A>(requested) == interrupt_spec::<A>(executed)
            &&& interrupt_spec::<A>(executed).1 is Ok ==> {
                &&& step_spec::<A>(requested).0.registers.flags.interrupt_disable
                &&& step_spec::<A>(requested).0.registers.pc == read_word::<A>(
                    step_spec::<A>(requested).0.contents,
                    NMI_VECTOR,
                )->Ok_0
                &&& step_spec::<A>(requested).0.registers.sp == executed.registers.sp.wrapping_sub(
                    3,
                )
            }
        }),
{
    let requested = Machine {
        interrupts: machine.interrupts.requested(InterruptKind::NonMaskable),
        ..machine
    };
    let executed = instruction_spec::<A>(requested).0;
    lemma_nmi_is_taken::<A>(executed);
}

/// While the interrupt-disable flag is set, a maskable interrupt waits: with
/// no non-maskable interrupt requested, the instruction boundary changes
/// nothing.
pub proof fn lemma_masked_interrupt_waits<A: AddressSpace>(machine: Machine<A::Contents>)
    requires
        machine.registers.flags.interrupt_disable,
        !machine.interrupts.nmi_pending,
    ensures
        interrupt_spec::<A>(machine) == (machine, Ok::<(), AccessError>(())),
{
}

/// With the interrupt-disable flag clear and the core in no handler, a
/// maskable interrupt is taken like a non-maskable one, through the vector
/// at `0xFFFE`.
pub proof fn lemma_irq_is_taken<A: AddressSpace>(machine: Machine<A::Contents>)
    requires
        machine.interrupts.irq_pending,
        !machine.interrupts.nmi_pending,
        !machine.interrupts.servicing,
        !machine.registers.flags.interrupt_disable,
    ensures
        ({
            let entered = enter_handler_spec::<A>(
                machine.contents,
                machine.registers,
                machine.registers.pc,
                false,
                IRQ_VECTOR,
            );
            let after = interrupt_spec::<A>(machine);
            &&& after.0.contents == entered.0
            &&& entered.1 is Ok ==> after == (
                Machine {
                    registers: entered.1->Ok_0,
                    interrupts: Interrupts {
                        irq_pending: false,
                        servicing: true,
                        ..machine.interrupts
                    },
                    contents: entered.0,
                },
                Ok::<(), AccessError>(()),
            )
        }),
{
}

} // verus!
