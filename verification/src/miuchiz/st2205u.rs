//! The ST2205U microcontroller.

use vstd::prelude::*;
use crate::memory::AddressSpace;
use wdc_65c02::cpu::Machine;
use wdc_65c02::interrupt::{InterruptKind, Interrupts};
use wdc_65c02::{Core, HandlesInterrupt, Registers};

pub mod wdc_65c02;

verus! {

/// The size of the one-time-programmable region, in bytes.
pub const OTP_SIZE: usize = 0x4000;

/// The microcontroller: a 65C02 core on the address space of the machine
/// around it.
pub struct Mcu<A: AddressSpace> {
    pub core: Core<A>,
}

impl<A: AddressSpace> Mcu<A> {
    /// A microcontroller whose core is in its reset state.
    pub fn new(address_space: A) -> (mcu: Self)
        ensures
            mcu.core.state() == (Machine {
                registers: Registers::reset_state(),
                interrupts: Interrupts::idle(),
                contents: address_space.contents(),
            }),
    {
        Mcu { core: Core::new(address_space) }
    }
}

impl<A: AddressSpace> HandlesInterrupt for Mcu<A> {
    open spec fn interrupts(&self) -> Interrupts {
        self.core.interrupts
    }

    fn request_interrupt(&mut self, kind: InterruptKind)
        ensures
            final(self).core.state() == (Machine {
                interrupts: old(self).core.interrupts.requested(kind),
                ..old(self).core.state()
            }),
    {
        self.core.request_interrupt(kind);
    }
}

} // verus!
