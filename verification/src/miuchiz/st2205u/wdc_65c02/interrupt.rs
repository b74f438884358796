//! Interrupt requests and the vectors they lead to.

use vstd::prelude::*;
use super::registers::Flags;

verus! {

/// The address that holds the handler of the non-maskable interrupt.
pub const NMI_VECTOR: u16 = 0xFFFA;

/// The address that holds the address at which execution starts after reset.
pub const RESET_VECTOR: u16 = 0xFFFC;

/// The address that holds the handler of the maskable interrupt and of `BRK`.
pub const IRQ_VECTOR: u16 = 0xFFFE;

/// The sources of an interrupt.
#[derive(Clone, Copy, Debug, PartialEq, Eq, Structural)]
pub enum InterruptKind {
    /// The interrupt that the interrupt-disable flag does not hold back.
    NonMaskable,
    /// The interrupt that waits while the interrupt-disable flag is set.
    Maskable,
}

impl InterruptKind {
    /// The address that holds the handler of this kind of interrupt.
    pub open spec fn vector(self) -> u16 {
        match self {
            InterruptKind::NonMaskable => NMI_VECTOR,
            InterruptKind::Maskable => IRQ_VECTOR,
        }
    }

    /// The address that holds the handler of this kind of interrupt.
    pub fn vector_address(&self) -> (address: u16)
        ensures
            address == self.vector(),
    {
        match self {
            InterruptKind::NonMaskable => NMI_VECTOR,
            InterruptKind::Maskable => IRQ_VECTOR,
        }
    }
}

/// The state of the interrupt lines.
#[derive(Clone, Copy, Debug, PartialEq, Eq, Structural)]
pub struct Interrupts {
    /// A non-maskable interrupt was requested and not yet taken.
    pub nmi_pending: bool,
    /// A maskable interrupt was requested and not yet taken.
    pub irq_pending: bool,
    /// The core went into a handler and has not returned from it.
    pub servicing: bool,
}

impl Interrupts {
    /// Nothing requested, nothing being serviced.
    pub open spec fn idle() -> Interrupts {
        Interrupts { nmi_pending: false, irq_pending: false, servicing: false }
    }

    /// The lines after `kind` was requested.
    pub open spec fn requested(self, kind: InterruptKind) -> Interrupts {
        match kind {
            InterruptKind::NonMaskable => Interrupts { nmi_pending: true, ..self },
            InterruptKind::Maskable => Interrupts { irq_pending: true, ..self },
        }
    }

    /// The lines after the request for `kind` was withdrawn.
    pub open spec fn cleared(self, kind: InterruptKind) -> Interrupts {
        match kind {
            InterruptKind::NonMaskable => Interrupts { nmi_pending: false, ..self },
            InterruptKind::Maskable => Interrupts { irq_pending: false, ..self },
        }
    }

    /// Whether any interrupt is requested, masked or not.
    pub open spec fn any_pending(self) -> bool {
        self.nmi_pending || self.irq_pending
    }

    /// The interrupt to take at the next instruction boundary, if there is
    /// one: none while a handler runs; else the non-maskable one if it is
    /// requested; else the maskable one if it is requested and the
    /// interrupt-disable flag is clear.
    pub open spec fn due(self, flags: Flags) -> Option<InterruptKind> {
        if self.servicing {
            None
        } else if self.nmi_pending {
            Some(InterruptKind::NonMaskable)
        } else if self.irq_pending && !flags.interrupt_disable {
            Some(InterruptKind::Maskable)
        } else {
            None
        }
    }

    /// The lines once the core has gone into the handler for `kind`.
    pub open spec fn taken(self, kind: InterruptKind) -> Interrupts {
        Interrupts { servicing: true, ..self.cleared(kind) }
    }

    /// The lines once the core has returned from a handler.
    pub open spec fn returned(self) -> Interrupts {
        Interrupts { servicing: false, ..self }
    }

    /// Nothing requested, nothing being serviced.
    pub fn new() -> (lines: Interrupts)
        ensures
            lines == Interrupts::idle(),
    {
        Interrupts { nmi_pending: false, irq_pending: false, servicing: false }
    }

    /// Requests an interrupt.
    pub fn request(&mut self, kind: InterruptKind)
        ensures
            *final(self) == old(self).requested(kind),
    {
        match kind {
            InterruptKind::NonMaskable => {
                self.nmi_pending = true;
            },
            InterruptKind::Maskable => {
                self.irq_pending = true;
            },
        }
    }

    /// Withdraws the request for an interrupt.
    pub fn clear(&mut self, kind: InterruptKind)
        ensures
            *final(self) == old(self).cleared(kind),
    {
        match kind {
            InterruptKind::NonMaskable => {
                self.nmi_pending = false;
            },
            InterruptKind::Maskable => {
                self.irq_pending = false;
            },
        }
    }

    /// Whether any interrupt is requested, masked or not.
    pub fn is_any_pending(&self) -> (pending: bool)
        ensures
            pending == self.any_pending(),
    {
        self.nmi_pending || self.irq_pending
    }

    /// The interrupt to take at the next instruction boundary, if any.
    pub fn next_due(&self, flags: &Flags) -> (kind: Option<InterruptKind>)
        ensures
            kind == self.due(*flags),
    {
        if self.servicing {
            None
        } else if self.nmi_pending {
            Some(InterruptKind::NonMaskable)
        } else if self.irq_pending && !flags.interrupt_disable {
            Some(InterruptKind::Maskable)
        } else {
            None
        }
    }
}

/// Something that interrupts can be requested of.
pub trait HandlesInterrupt {
    /// The state of the interrupt lines.
    spec fn interrupts(&self) -> Interrupts;

    /// Requests an interrupt. It is taken at an instruction boundary.
    fn request_interrupt(&mut self, kind: InterruptKind)
        ensures
            final(self).interrupts() == old(self).interrupts().requested(kind),
    ;
}

} // verus!
