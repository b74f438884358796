use miuchiz_emu::memory::{AccessError, AddressSpace};
use miuchiz_emu::miuchiz::st2205u::wdc_65c02::interrupt::{InterruptKind, Interrupts};
use miuchiz_emu::miuchiz::st2205u::wdc_65c02::{Core, HandlesInterrupt, Registers};

/// 64 KiB of memory with holes: reads fail in one range of addresses and
/// writes fail in another, both ends included.
#[derive(Clone)]
struct Holed {
    bytes: Vec<u8>,
    unreadable: (usize, usize),
    unwritable: (usize, usize),
}

impl Holed {
    fn new(unreadable: (usize, usize), unwritable: (usize, usize)) -> Self {
        Holed { bytes: vec![0; 0x10000], unreadable, unwritable }
    }

    fn with(mut self, address: usize, bytes: &[u8]) -> Self {
        self.bytes[address..address + bytes.len()].copy_from_slice(bytes);
        self
    }
}

impl AddressSpace for Holed {
    /// The state of this memory is all of it.
    type Contents = Holed;

    fn contents(&self) -> Holed {
        self.clone()
    }

    fn read_of(contents: Holed, address: usize) -> Result<u8, AccessError> {
        if contents.unreadable.0 <= address && address <= contents.unreadable.1 {
            Err(AccessError::UnsupportedRead { address })
        } else {
            Ok(contents.bytes[address & 0xFFFF])
        }
    }

    fn write_of(mut contents: Holed, address: usize, value: u8) -> Result<Holed, AccessError> {
        if contents.unwritable.0 <= address && address <= contents.unwritable.1 {
            Err(AccessError::UnsupportedWrite { address })
        } else {
            contents.bytes[address & 0xFFFF] = value;
            Ok(contents)
        }
    }

    fn read_u8(&mut self, address: usize) -> Result<u8, AccessError> {
        if self.unreadable.0 <= address && address <= self.unreadable.1 {
            Err(AccessError::UnsupportedRead { address })
        } else {
            Ok(self.bytes[address & 0xFFFF])
        }
    }

    fn write_u8(&mut self, address: usize, value: u8) -> Result<(), AccessError> {
        if self.unwritable.0 <= address && address <= self.unwritable.1 {
            Err(AccessError::UnsupportedWrite { address })
        } else {
            self.bytes[address & 0xFFFF] = value;
            Ok(())
        }
    }
}

const NOWHERE: (usize, usize) = (0x10000, 0x10000);

fn core_on(memory: Holed) -> Core<Holed> {
    let mut core = Core::new(memory.with(0xFFFC, &[0x00, 0x80]));
    core.reset().unwrap();
    core
}

#[test]
fn reset_fails_if_the_vector_cannot_be_read() {
    let mut core = Core::new(Holed::new((0xFFFD, 0xFFFD), NOWHERE));
    core.registers.a = 7;
    core.request_interrupt(InterruptKind::Maskable);
    assert_eq!(core.reset(), Err(AccessError::UnsupportedRead { address: 0xFFFD }));
    assert_eq!(core.registers, Registers { a: 7, ..Registers::new() });
    assert_eq!(core.interrupts.irq_pending, true);
}

#[test]
fn a_failed_fetch_fails_the_step() {
    let mut core = core_on(Holed::new((0x8000, 0x8000), NOWHERE));
    let before = core.registers;
    assert_eq!(core.step(), Err(AccessError::UnsupportedRead { address: 0x8000 }));
    assert_eq!(core.registers, before);
}

#[test]
fn a_failed_operand_fetch_fails_the_step() {
    // LDA $1234: the second operand byte cannot be read
    let mut core = core_on(Holed::new((0x8002, 0x8002), NOWHERE).with(0x8000, &[0xAD, 0x34, 0x12]));
    let before = core.registers;
    assert_eq!(core.step(), Err(AccessError::UnsupportedRead { address: 0x8002 }));
    assert_eq!(core.registers, before);
    // NOP needs no operand: the byte after it is not read
    let mut core = core_on(Holed::new((0x8001, 0x8002), NOWHERE).with(0x8000, &[0xEA]));
    assert_eq!(core.step(), Ok(()));
    // LDA #$12 needs one: the byte after that is not read
    let mut core = core_on(Holed::new((0x8002, 0x8002), NOWHERE).with(0x8000, &[0xA9, 0x12]));
    assert_eq!(core.step(), Ok(()));
    assert_eq!(core.registers.a, 0x12);
}

#[test]
fn a_failed_pointer_read_fails_the_step() {
    // LDA ($10),Y: the high byte of the pointer cannot be read
    let mut core = core_on(Holed::new((0x0011, 0x0011), NOWHERE).with(0x8000, &[0xB1, 0x10]));
    let before = core.registers;
    assert_eq!(core.step(), Err(AccessError::UnsupportedRead { address: 0x0011 }));
    assert_eq!(core.registers, before);
}

#[test]
fn a_failed_operand_read_fails_the_step() {
    // LDA $4000
    let mut core = core_on(Holed::new((0x4000, 0x4FFF), NOWHERE).with(0x8000, &[0xAD, 0x00, 0x40]));
    let before = core.registers;
    assert_eq!(core.step(), Err(AccessError::UnsupportedRead { address: 0x4000 }));
    assert_eq!(core.registers, before);
    // INC $4000 reads before it writes
    let mut core = core_on(Holed::new((0x4000, 0x4FFF), NOWHERE).with(0x8000, &[0xEE, 0x00, 0x40]));
    assert_eq!(core.step(), Err(AccessError::UnsupportedRead { address: 0x4000 }));
}

#[test]
fn no_op_with_an_operand_does_not_read_it() {
    // the two-byte no-op 0x44 names a zero-page address and leaves it alone
    let mut core = core_on(Holed::new((0x0000, 0x00FF), NOWHERE).with(0x8000, &[0x44, 0x10]));
    assert_eq!(core.step(), Ok(()));
    assert_eq!(core.registers.pc, 0x8002);
    // and so does the three-byte no-op 0x5C
    let mut core = core_on(Holed::new((0x4000, 0x4FFF), NOWHERE).with(0x8000, &[0x5C, 0x00, 0x40]));
    assert_eq!(core.step(), Ok(()));
    assert_eq!(core.registers.pc, 0x8003);
}

#[test]
fn a_store_does_not_read() {
    // STA $4000
    let mut core = core_on(Holed::new((0x4000, 0x4FFF), NOWHERE).with(0x8000, &[0x8D, 0x00, 0x40]));
    core.registers.a = 0x99;
    assert_eq!(core.step(), Ok(()));
    assert_eq!(core.address_space.bytes[0x4000], 0x99);
}

#[test]
fn a_refused_write_back_keeps_registers_and_flags() {
    // ASL $4000 with bit 7 set would set carry
    let mut core = core_on(
        Holed::new(NOWHERE, (0x4000, 0x4FFF)).with(0x8000, &[0x0E, 0x00, 0x40]).with(0x4000, &[0x80]),
    );
    let before = core.registers;
    assert_eq!(core.step(), Err(AccessError::UnsupportedWrite { address: 0x4000 }));
    assert_eq!(core.registers, before);
    assert_eq!(core.address_space.bytes[0x4000], 0x80);
}

#[test]
fn a_call_whose_second_push_is_refused_keeps_the_first() {
    // JSR $9000 with the stack pointer at 0xFD: 0x01FC cannot be written
    let mut core =
        core_on(Holed::new(NOWHERE, (0x01FC, 0x01FC)).with(0x8000, &[0x20, 0x00, 0x90]));
    let before = core.registers;
    assert_eq!(core.step(), Err(AccessError::UnsupportedWrite { address: 0x01FC }));
    assert_eq!(core.registers, before);
    assert_eq!(core.address_space.bytes[0x01FD], 0x80);
    assert_eq!(core.address_space.bytes[0x01FC], 0x00);
}

#[test]
fn a_refused_interrupt_entry_leaves_the_instruction_done() {
    // LDA #$55, then the third push of the interrupt entry is refused
    let mut core = core_on(Holed::new(NOWHERE, (0x01FB, 0x01FB)).with(0x8000, &[0xA9, 0x55]));
    core.request_interrupt(InterruptKind::NonMaskable);
    assert_eq!(core.step(), Err(AccessError::UnsupportedWrite { address: 0x01FB }));
    assert_eq!(core.registers, Registers { a: 0x55, pc: 0x8002, ..Registers::new() });
    assert_eq!(
        core.interrupts,
        Interrupts { nmi_pending: true, irq_pending: false, servicing: false }
    );
    assert_eq!(core.address_space.bytes[0x01FD], 0x80);
    assert_eq!(core.address_space.bytes[0x01FC], 0x02);
}

#[test]
fn an_unreadable_vector_fails_the_interrupt_entry() {
    let mut core = core_on(Holed::new((0xFFFA, 0xFFFB), NOWHERE).with(0x8000, &[0xEA]));
    core.request_interrupt(InterruptKind::NonMaskable);
    assert_eq!(core.step(), Err(AccessError::UnsupportedRead { address: 0xFFFA }));
    assert_eq!(core.registers, Registers { pc: 0x8001, ..Registers::new() });
    assert_eq!(core.interrupts.nmi_pending, true);
    assert_eq!(core.interrupts.servicing, false);
}

#[test]
fn a_failed_pull_fails_the_step() {
    // RTS with the stack pointer at 0xFD reads 0x01FE and 0x01FF
    let mut core = core_on(Holed::new((0x01FF, 0x01FF), NOWHERE).with(0x8000, &[0x60]));
    let before = core.registers;
    assert_eq!(core.step(), Err(AccessError::UnsupportedRead { address: 0x01FF }));
    assert_eq!(core.registers, before);
    // RTI reads 0x01FE first
    let mut core = core_on(Holed::new((0x01FE, 0x01FF), NOWHERE).with(0x8000, &[0x40]));
    core.interrupts.servicing = true;
    assert_eq!(core.step(), Err(AccessError::UnsupportedRead { address: 0x01FE }));
    assert_eq!(core.interrupts.servicing, true);
}
