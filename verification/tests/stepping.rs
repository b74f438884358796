use miuchiz_emu::memory::{AccessError, AddressSpace, Ram};
use miuchiz_emu::miuchiz::handheld::Handheld;
use miuchiz_emu::miuchiz::st2205u::wdc_65c02::interrupt::{InterruptKind, Interrupts};
use miuchiz_emu::miuchiz::st2205u::wdc_65c02::{Core, Flags, HandlesInterrupt, Registers};
use miuchiz_emu::miuchiz::st2205u::Mcu;

const ORIGIN: u16 = 0x8000;

/// A core on RAM that holds `program` at `ORIGIN`, after reset.
fn core_with(program: &[u8]) -> Core<Ram> {
    core_at(ORIGIN, program)
}

/// A core on RAM that holds `program` at `origin`, after reset.
fn core_at(origin: u16, program: &[u8]) -> Core<Ram> {
    let mut ram = Ram::new();
    for (i, &byte) in program.iter().enumerate() {
        ram.write_u8(origin.wrapping_add(i as u16) as usize, byte).unwrap();
    }
    ram.write_u8(0xFFFC, origin as u8).unwrap();
    ram.write_u8(0xFFFD, (origin >> 8) as u8).unwrap();
    let mut core = Core::new(ram);
    core.reset().unwrap();
    core
}

fn poke(core: &mut Core<Ram>, address: u16, value: u8) {
    core.address_space.write_u8(address as usize, value).unwrap();
}

fn peek(core: &mut Core<Ram>, address: u16) -> u8 {
    core.address_space.read_u8(address as usize).unwrap()
}

fn run(core: &mut Core<Ram>, steps: usize) {
    for _ in 0..steps {
        core.step().unwrap();
    }
}

fn reset_flags() -> Flags {
    Flags {
        negative: false,
        overflow: false,
        decimal: false,
        interrupt_disable: true,
        zero: false,
        carry: false,
    }
}

#[test]
fn a_new_core_is_in_its_reset_state() {
    let core = Core::new(Ram::new());
    assert_eq!(core.registers, Registers::new());
    assert_eq!(core.registers.pc, 0);
    assert_eq!(core.registers.sp, 0xFD);
    assert_eq!(core.registers.flags, reset_flags());
    assert_eq!(core.interrupts, Interrupts::new());
    let mcu = Mcu::new(Ram::new());
    assert_eq!(mcu.core.registers, Registers::new());
}

#[test]
fn reset_loads_the_program_counter_from_the_vector() {
    let mut core = core_with(&[0xEA]);
    assert_eq!(core.registers.pc, 0x8000);
    core.registers.a = 0x55;
    core.registers.sp = 0x10;
    core.registers.flags.carry = true;
    core.request_interrupt(InterruptKind::Maskable);
    poke(&mut core, 0xFFFC, 0x34);
    poke(&mut core, 0xFFFD, 0x12);
    assert_eq!(core.reset(), Ok(()));
    assert_eq!(core.registers, Registers { pc: 0x1234, ..Registers::new() });
    assert_eq!(core.interrupts, Interrupts::new());
}

#[test]
fn lda_immediate_after_reset() {
    let mut core = core_with(&[0xA9, 0x42]);
    assert_eq!(core.step(), Ok(()));
    assert_eq!(core.registers.a, 0x42);
    assert_eq!(core.registers.flags.zero, false);
    assert_eq!(core.registers.flags.negative, false);
    assert_eq!(core.registers.pc, 0x8002);
    assert_eq!(
        core.registers,
        Registers { a: 0x42, pc: 0x8002, ..Registers::new() }
    );
}

#[test]
fn lda_immediate_clears_stale_flags() {
    let mut core = core_with(&[0xA9, 0x00, 0xA9, 0x80, 0xA9, 0x42]);
    run(&mut core, 1);
    assert_eq!(core.registers.flags.zero, true);
    assert_eq!(core.registers.flags.negative, false);
    run(&mut core, 1);
    assert_eq!(core.registers.flags.zero, false);
    assert_eq!(core.registers.flags.negative, true);
    run(&mut core, 1);
    assert_eq!(core.registers.a, 0x42);
    assert_eq!(core.registers.flags.zero, false);
    assert_eq!(core.registers.flags.negative, false);
    assert_eq!(core.registers.pc, 0x8006);
}

#[test]
fn lda_immediate_on_the_handheld() {
    let mut otp = vec![0u8; 0x4000];
    // the 16-bit address space of the core falls into the OTP, four times over
    otp[0x3FFC] = 0x00;
    otp[0x3FFD] = 0x80;
    otp[0x0000] = 0xA9;
    otp[0x0001] = 0x42;
    let flash = vec![0u8; 0x200000];
    let mut handheld = Handheld::new(&otp, &flash).unwrap();
    assert_eq!(handheld.mcu.core.registers, Registers::new());
    assert_eq!(handheld.mcu.core.reset(), Ok(()));
    assert_eq!(handheld.mcu.core.registers.pc, 0x8000);
    assert_eq!(handheld.mcu.core.step(), Ok(()));
    assert_eq!(
        handheld.mcu.core.registers,
        Registers { a: 0x42, pc: 0x8002, ..Registers::new() }
    );
}

#[test]
fn a_refused_write_fails_the_step_and_keeps_the_registers() {
    let mut otp = vec![0u8; 0x4000];
    otp[0x3FFC] = 0x00;
    otp[0x3FFD] = 0x80;
    // LDA #$42; STA $10
    otp[0..4].copy_from_slice(&[0xA9, 0x42, 0x85, 0x10]);
    let flash = vec![0u8; 0x200000];
    let mut handheld = Handheld::new(&otp, &flash).unwrap();
    let core = &mut handheld.mcu.core;
    core.reset().unwrap();
    core.step().unwrap();
    let before = core.registers;
    assert_eq!(core.step(), Err(AccessError::UnsupportedWrite { address: 0x10 }));
    assert_eq!(core.registers, before);
    assert_eq!(core.registers.pc, 0x8002);
    // and again: nothing has moved
    assert_eq!(core.step(), Err(AccessError::UnsupportedWrite { address: 0x10 }));
    assert_eq!(core.registers, before);
}

#[test]
fn a_refused_push_fails_the_step() {
    let mut otp = vec![0u8; 0x4000];
    otp[0x3FFC] = 0x00;
    otp[0x3FFD] = 0x80;
    otp[0] = 0x48;
    let flash = vec![0u8; 0x200000];
    let mut handheld = Handheld::new(&otp, &flash).unwrap();
    let core = &mut handheld.mcu.core;
    core.reset().unwrap();
    assert_eq!(core.step(), Err(AccessError::UnsupportedWrite { address: 0x01FD }));
    assert_eq!(core.registers, Registers { pc: 0x8000, ..Registers::new() });
}

#[test]
fn branch_backwards_across_the_page_boundary() {
    // BRA -2 at 0x00FE: the operand ends at 0x00FF, the target is 0x00FE
    let mut core = core_at(0x00FE, &[0x80, 0xFE]);
    let before = core.registers;
    assert_eq!(core.step(), Ok(()));
    assert_eq!(core.registers, Registers { pc: 0x00FE, ..before });
    // BRA -3 at 0x0100: from 0x0102 back to 0x00FF
    let mut core = core_at(0x0100, &[0x80, 0xFD]);
    assert_eq!(core.step(), Ok(()));
    assert_eq!(core.registers.pc, 0x00FF);
    // BRA -1 at 0x00FF: from 0x0101 back to 0x0100
    let mut core = core_at(0x00FF, &[0x80, 0xFF]);
    assert_eq!(core.step(), Ok(()));
    assert_eq!(core.registers.pc, 0x0100);
}

#[test]
fn branch_forwards_across_the_page_boundary() {
    let mut core = core_at(0x00F0, &[0x80, 0x0E]);
    assert_eq!(core.step(), Ok(()));
    assert_eq!(core.registers.pc, 0x0100);
    let mut core = core_at(0x00F0, &[0x80, 0x7F]);
    assert_eq!(core.step(), Ok(()));
    assert_eq!(core.registers.pc, 0x0171);
}

#[test]
fn branch_wraps_at_the_ends_of_memory() {
    let mut core = core_at(0x0000, &[0x80, 0x80]);
    assert_eq!(core.step(), Ok(()));
    assert_eq!(core.registers.pc, 0xFF82);
    let mut core = core_at(0xFFF0, &[0x80, 0x7F]);
    assert_eq!(core.step(), Ok(()));
    assert_eq!(core.registers.pc, 0x0071);
}

#[test]
fn branches_look_at_their_flag() {
    // each pair: the opcode, and the flags under which it branches
    let set = |name: &str| {
        let mut flags = reset_flags();
        match name {
            "c" => flags.carry = true,
            "z" => flags.zero = true,
            "n" => flags.negative = true,
            "v" => flags.overflow = true,
            _ => {}
        }
        flags
    };
    let cases = [
        (0x90u8, "c", false),
        (0xB0, "c", true),
        (0xD0, "z", false),
        (0xF0, "z", true),
        (0x10, "n", false),
        (0x30, "n", true),
        (0x50, "v", false),
        (0x70, "v", true),
    ];
    for (opcode, flag, branches_when_set) in cases {
        for flag_set in [false, true] {
            let mut core = core_with(&[opcode, 0x10]);
            core.registers.flags = if flag_set { set(flag) } else { reset_flags() };
            let before = core.registers;
            core.step().unwrap();
            let expected = if flag_set == branches_when_set { 0x8012 } else { 0x8002 };
            assert_eq!(core.registers, Registers { pc: expected, ..before });
        }
    }
}

#[test]
fn nmi_is_taken_at_the_next_step() {
    let mut core = core_with(&[0xEA, 0xEA]);
    poke(&mut core, 0xFFFA, 0x00);
    poke(&mut core, 0xFFFB, 0x90);
    core.registers.flags.carry = true;
    core.registers.flags.decimal = true;
    core.request_interrupt(InterruptKind::NonMaskable);
    assert_eq!(core.interrupts.nmi_pending, true);
    assert_eq!(core.step(), Ok(()));
    assert_eq!(core.registers.pc, 0x9000);
    assert_eq!(core.registers.sp, 0xFA);
    assert_eq!(core.registers.flags.interrupt_disable, true);
    assert_eq!(core.registers.flags.decimal, false);
    assert_eq!(core.registers.flags.carry, true);
    // the address after the NOP, then the flags as they were, break clear
    assert_eq!(peek(&mut core, 0x01FD), 0x80);
    assert_eq!(peek(&mut core, 0x01FC), 0x01);
    assert_eq!(peek(&mut core, 0x01FB), 0x2D);
    assert_eq!(
        core.interrupts,
        Interrupts { nmi_pending: false, irq_pending: false, servicing: true }
    );
}

#[test]
fn nmi_is_taken_whatever_the_interrupt_disable_flag() {
    for disabled in [false, true] {
        let mut core = core_with(&[0xEA]);
        poke(&mut core, 0xFFFA, 0x34);
        poke(&mut core, 0xFFFB, 0x12);
        core.registers.flags.interrupt_disable = disabled;
        core.request_interrupt(InterruptKind::NonMaskable);
        assert_eq!(core.step(), Ok(()));
        assert_eq!(core.registers.pc, 0x1234);
        assert_eq!(core.registers.flags.interrupt_disable, true);
        assert_eq!(core.registers.sp, 0xFA);
        assert_eq!(peek(&mut core, 0x01FB), if disabled { 0x24 } else { 0x20 });
    }
}

#[test]
fn irq_waits_for_the_interrupt_disable_flag() {
    // CLI; NOP
    let mut core = core_with(&[0xEA, 0x58, 0xEA]);
    poke(&mut core, 0xFFFE, 0x00);
    poke(&mut core, 0xFFFF, 0xA0);
    core.request_interrupt(InterruptKind::Maskable);
    core.step().unwrap();
    assert_eq!(core.registers.pc, 0x8001);
    assert_eq!(core.interrupts.irq_pending, true);
    assert_eq!(core.interrupts.servicing, false);
    // CLI clears the flag, and the interrupt is taken at the end of that step
    core.step().unwrap();
    assert_eq!(core.registers.pc, 0xA000);
    assert_eq!(core.registers.flags.interrupt_disable, true);
    assert_eq!(core.interrupts.irq_pending, false);
    assert_eq!(core.interrupts.servicing, true);
    assert_eq!(peek(&mut core, 0x01FD), 0x80);
    assert_eq!(peek(&mut core, 0x01FC), 0x02);
    assert_eq!(peek(&mut core, 0x01FB), 0x20);
}

#[test]
fn nmi_goes_before_irq() {
    let mut core = core_with(&[0x58, 0xEA]);
    poke(&mut core, 0xFFFA, 0x00);
    poke(&mut core, 0xFFFB, 0x90);
    poke(&mut core, 0xFFFE, 0x00);
    poke(&mut core, 0xFFFF, 0xA0);
    core.request_interrupt(InterruptKind::Maskable);
    core.request_interrupt(InterruptKind::NonMaskable);
    core.step().unwrap();
    assert_eq!(core.registers.pc, 0x9000);
    assert_eq!(
        core.interrupts,
        Interrupts { nmi_pending: false, irq_pending: true, servicing: true }
    );
}

#[test]
fn no_interrupt_is_taken_inside_a_handler() {
    // at 0x8000: NOP; the handler at 0x9000: NOP, NOP, RTI
    let mut core = core_with(&[0xEA, 0xEA]);
    poke(&mut core, 0xFFFA, 0x00);
    poke(&mut core, 0xFFFB, 0x90);
    poke(&mut core, 0x9000, 0xEA);
    poke(&mut core, 0x9001, 0xEA);
    poke(&mut core, 0x9002, 0x40);
    core.request_interrupt(InterruptKind::NonMaskable);
    core.step().unwrap();
    assert_eq!(core.registers.pc, 0x9000);
    core.request_interrupt(InterruptKind::NonMaskable);
    core.step().unwrap();
    assert_eq!(core.registers.pc, 0x9001);
    core.step().unwrap();
    assert_eq!(core.registers.pc, 0x9002);
    assert_eq!(core.interrupts.nmi_pending, true);
    // RTI ends the handler, and the waiting interrupt is taken right after
    core.step().unwrap();
    assert_eq!(core.registers.pc, 0x9000);
    assert_eq!(core.registers.sp, 0xFA);
    assert_eq!(peek(&mut core, 0x01FD), 0x80);
    assert_eq!(peek(&mut core, 0x01FC), 0x01);
    assert_eq!(
        core.interrupts,
        Interrupts { nmi_pending: false, irq_pending: false, servicing: true }
    );
}

#[test]
fn rti_returns_from_a_handler() {
    let mut core = core_with(&[0xEA, 0xA9, 0x07]);
    poke(&mut core, 0xFFFA, 0x00);
    poke(&mut core, 0xFFFB, 0x90);
    poke(&mut core, 0x9000, 0x40);
    core.registers.flags.interrupt_disable = false;
    core.registers.flags.carry = true;
    core.request_interrupt(InterruptKind::NonMaskable);
    core.step().unwrap();
    assert_eq!(core.registers.pc, 0x9000);
    core.registers.flags.carry = false;
    core.step().unwrap();
    assert_eq!(core.registers.pc, 0x8001);
    assert_eq!(core.registers.sp, 0xFD);
    assert_eq!(core.registers.flags.interrupt_disable, false);
    assert_eq!(core.registers.flags.carry, true);
    assert_eq!(core.interrupts, Interrupts::new());
    core.step().unwrap();
    assert_eq!(core.registers.a, 0x07);
}

#[test]
fn a_request_can_be_withdrawn() {
    let mut core = core_with(&[0xEA]);
    core.request_interrupt(InterruptKind::NonMaskable);
    core.interrupts.clear(InterruptKind::NonMaskable);
    core.step().unwrap();
    assert_eq!(core.registers.pc, 0x8001);
    assert_eq!(core.interrupts, Interrupts::new());
}

#[test]
fn brk_pushes_the_address_two_bytes_on() {
    let mut core = core_with(&[0x00, 0xFF, 0xEA]);
    poke(&mut core, 0xFFFE, 0x00);
    poke(&mut core, 0xFFFF, 0xA0);
    poke(&mut core, 0xA000, 0x40);
    core.registers.flags.interrupt_disable = false;
    core.registers.flags.decimal = true;
    core.step().unwrap();
    assert_eq!(core.registers.pc, 0xA000);
    assert_eq!(core.registers.sp, 0xFA);
    assert_eq!(core.registers.flags.interrupt_disable, true);
    assert_eq!(core.registers.flags.decimal, false);
    assert_eq!(peek(&mut core, 0x01FD), 0x80);
    assert_eq!(peek(&mut core, 0x01FC), 0x02);
    // decimal, break and the bit that is always set
    assert_eq!(peek(&mut core, 0x01FB), 0x38);
    assert_eq!(core.interrupts, Interrupts::new());
    core.step().unwrap();
    assert_eq!(core.registers.pc, 0x8002);
    assert_eq!(core.registers.flags.decimal, true);
    assert_eq!(core.registers.flags.interrupt_disable, false);
}

#[test]
fn jsr_and_rts() {
    // JSR $9000; LDA #$01 -- at $9000: RTS
    let mut core = core_with(&[0x20, 0x00, 0x90, 0xA9, 0x01]);
    poke(&mut core, 0x9000, 0x60);
    core.step().unwrap();
    assert_eq!(core.registers.pc, 0x9000);
    assert_eq!(core.registers.sp, 0xFB);
    assert_eq!(peek(&mut core, 0x01FD), 0x80);
    assert_eq!(peek(&mut core, 0x01FC), 0x02);
    core.step().unwrap();
    assert_eq!(core.registers.pc, 0x8003);
    assert_eq!(core.registers.sp, 0xFD);
    core.step().unwrap();
    assert_eq!(core.registers.a, 0x01);
}

#[test]
fn jumps() {
    let mut core = core_with(&[0x4C, 0x34, 0x12]);
    core.step().unwrap();
    assert_eq!(core.registers.pc, 0x1234);
    // JMP ($10FF): the pointer is read across the page boundary
    let mut core = core_with(&[0x6C, 0xFF, 0x10]);
    poke(&mut core, 0x10FF, 0x78);
    poke(&mut core, 0x1100, 0x56);
    poke(&mut core, 0x1000, 0x99);
    core.step().unwrap();
    assert_eq!(core.registers.pc, 0x5678);
    // JMP ($2000,X)
    let mut core = core_with(&[0x7C, 0x00, 0x20]);
    core.registers.x = 4;
    poke(&mut core, 0x2004, 0xCD);
    poke(&mut core, 0x2005, 0xAB);
    core.step().unwrap();
    assert_eq!(core.registers.pc, 0xABCD);
}

#[test]
fn the_stack_wraps_within_page_one() {
    // LDX #$00; TXS; LDA #$AB; PHA; PHA; PLA; PLA
    let mut core = core_with(&[0xA2, 0x00, 0x9A, 0xA9, 0xAB, 0x48, 0x48, 0x68, 0x68]);
    run(&mut core, 4);
    assert_eq!(core.registers.sp, 0xFF);
    assert_eq!(peek(&mut core, 0x0100), 0xAB);
    poke(&mut core, 0x0100, 0xCD);
    run(&mut core, 1);
    assert_eq!(core.registers.sp, 0xFE);
    assert_eq!(peek(&mut core, 0x01FF), 0xAB);
    assert_eq!(peek(&mut core, 0x0200), 0x00);
    assert_eq!(peek(&mut core, 0x00FF), 0x00);
    run(&mut core, 1);
    assert_eq!(core.registers.sp, 0xFF);
    assert_eq!(core.registers.a, 0xAB);
    run(&mut core, 1);
    assert_eq!(core.registers.sp, 0x00);
    assert_eq!(core.registers.a, 0xCD);
}

#[test]
fn pushes_and_pulls() {
    // LDX #$11; LDY #$22; PHX; PHY; PHP; PLA; PLX; PLY
    let mut core = core_with(&[0xA2, 0x11, 0xA0, 0x22, 0xDA, 0x5A, 0x08, 0x68, 0xFA, 0x7A]);
    run(&mut core, 5);
    assert_eq!(core.registers.sp, 0xFA);
    assert_eq!(peek(&mut core, 0x01FD), 0x11);
    assert_eq!(peek(&mut core, 0x01FC), 0x22);
    // interrupt-disable, break and the bit that is always set
    assert_eq!(peek(&mut core, 0x01FB), 0x34);
    run(&mut core, 3);
    assert_eq!(core.registers.a, 0x34);
    assert_eq!(core.registers.x, 0x22);
    assert_eq!(core.registers.y, 0x11);
    assert_eq!(core.registers.sp, 0xFD);
    assert_eq!(core.registers.pc, 0x800A);
}

#[test]
fn plp_ignores_break_and_the_unused_bit() {
    // LDA #$FF; PHA; PLP; LDA #$00; PHA; PLP
    let mut core = core_with(&[0xA9, 0xFF, 0x48, 0x28, 0xA9, 0x00, 0x48, 0x28]);
    run(&mut core, 3);
    assert_eq!(
        core.registers.flags,
        Flags {
            negative: true,
            overflow: true,
            decimal: true,
            interrupt_disable: true,
            zero: true,
            carry: true,
        }
    );
    run(&mut core, 3);
    assert_eq!(
        core.registers.flags,
        Flags {
            negative: false,
            overflow: false,
            decimal: false,
            interrupt_disable: false,
            zero: false,
            carry: false,
        }
    );
}

#[test]
fn loads_through_every_mode() {
    let mut core = core_with(&[
        0xA5, 0x10, // LDA $10
        0xB5, 0xF0, // LDA $F0,X  -> $10
        0xAD, 0x00, 0x30, // LDA $3000
        0xBD, 0xFF, 0xFF, // LDA $FFFF,X -> $001F
        0xB9, 0x00, 0x30, // LDA $3000,Y -> $3001
        0xA1, 0xE0, // LDA ($E0,X) -> ($00) -> $4000
        0xB1, 0x02, // LDA ($02),Y -> $4100 + 1
        0xB2, 0xFF, // LDA ($FF) -> low at $FF, high at $00
        0xB6, 0x0F, // LDX $0F,Y -> $10
        0xBE, 0x00, 0x30, // LDX $3000,Y
    ]);
    core.registers.x = 0x20;
    core.registers.y = 0x01;
    for (address, value) in [
        (0x0010u16, 0x01u8),
        (0x3000, 0x02),
        (0x001F, 0x03),
        (0x3001, 0x04),
        (0x0000, 0x00),
        (0x0001, 0x40),
        (0x4000, 0x05),
        (0x0002, 0x00),
        (0x0003, 0x41),
        (0x4101, 0x06),
        (0x00FF, 0x50),
        (0x0050, 0x07),
    ] {
        poke(&mut core, address, value);
    }
    for expected in [0x01u8, 0x01, 0x02, 0x03, 0x04, 0x05, 0x06] {
        core.step().unwrap();
        assert_eq!(core.registers.a, expected);
    }
    core.step().unwrap();
    assert_eq!(core.registers.a, 0x07);
    core.step().unwrap();
    assert_eq!(core.registers.x, 0x01);
    core.registers.y = 0x01;
    core.step().unwrap();
    assert_eq!(core.registers.x, 0x04);
    assert_eq!(core.registers.pc, 0x8000 + 24);
}

#[test]
fn stores() {
    // LDA #$11; LDX #$22; LDY #$33; STA $10; STX $11; STY $12; STZ $10; STA $1234,X
    let mut core = core_with(&[
        0xA9, 0x11, 0xA2, 0x22, 0xA0, 0x33, 0x85, 0x10, 0x86, 0x11, 0x84, 0x12, 0x64, 0x10, 0x9D,
        0x34, 0x12,
    ]);
    run(&mut core, 6);
    assert_eq!(peek(&mut core, 0x10), 0x11);
    assert_eq!(peek(&mut core, 0x11), 0x22);
    assert_eq!(peek(&mut core, 0x12), 0x33);
    let flags = core.registers.flags;
    run(&mut core, 2);
    assert_eq!(peek(&mut core, 0x10), 0x00);
    assert_eq!(peek(&mut core, 0x1256), 0x11);
    assert_eq!(core.registers.flags, flags);
    assert_eq!(core.registers.pc, 0x8011);
}

#[test]
fn transfers() {
    // LDA #$80; TAX; TAY; LDA #$00; TXA; TSX; LDX #$00; TXS; TYA
    let mut core = core_with(&[
        0xA9, 0x80, 0xAA, 0xA8, 0xA9, 0x00, 0x8A, 0xBA, 0xA2, 0x00, 0x9A, 0x98,
    ]);
    run(&mut core, 3);
    assert_eq!((core.registers.x, core.registers.y), (0x80, 0x80));
    assert_eq!(core.registers.flags.negative, true);
    run(&mut core, 2);
    assert_eq!(core.registers.a, 0x80);
    assert_eq!(core.registers.flags.negative, true);
    assert_eq!(core.registers.flags.zero, false);
    run(&mut core, 1);
    assert_eq!(core.registers.x, 0xFD);
    run(&mut core, 1);
    assert_eq!(core.registers.flags.zero, true);
    // TXS leaves the flags alone
    core.registers.flags.zero = false;
    run(&mut core, 1);
    assert_eq!(core.registers.sp, 0x00);
    assert_eq!(core.registers.flags.zero, false);
    run(&mut core, 1);
    assert_eq!(core.registers.a, 0x80);
}

#[test]
fn increments_and_decrements_wrap() {
    // LDX #$FF; INX; DEX; LDY #$00; DEY; INY; INC A; DEC A; DEC A
    let mut core = core_with(&[
        0xA2, 0xFF, 0xE8, 0xCA, 0xA0, 0x00, 0x88, 0xC8, 0x1A, 0x3A, 0x3A,
    ]);
    run(&mut core, 2);
    assert_eq!(core.registers.x, 0x00);
    assert_eq!(core.registers.flags.zero, true);
    run(&mut core, 1);
    assert_eq!(core.registers.x, 0xFF);
    assert_eq!(core.registers.flags.negative, true);
    run(&mut core, 2);
    assert_eq!(core.registers.y, 0xFF);
    run(&mut core, 1);
    assert_eq!(core.registers.y, 0x00);
    run(&mut core, 1);
    assert_eq!(core.registers.a, 0x01);
    run(&mut core, 2);
    assert_eq!(core.registers.a, 0xFF);
    assert_eq!(core.registers.flags.negative, true);
}

#[test]
fn memory_is_changed_in_place() {
    // INC $10; DEC $11; ASL $12; LSR $13; ROL $14; ROR $15
    let mut core = core_with(&[
        0xE6, 0x10, 0xC6, 0x11, 0x06, 0x12, 0x46, 0x13, 0x26, 0x14, 0x66, 0x15,
    ]);
    for (address, value) in
        [(0x10u16, 0xFFu8), (0x11, 0x00), (0x12, 0x81), (0x13, 0x01), (0x14, 0x80), (0x15, 0x01)]
    {
        poke(&mut core, address, value);
    }
    run(&mut core, 1);
    assert_eq!(peek(&mut core, 0x10), 0x00);
    assert_eq!(core.registers.flags.zero, true);
    run(&mut core, 1);
    assert_eq!(peek(&mut core, 0x11), 0xFF);
    assert_eq!(core.registers.flags.negative, true);
    run(&mut core, 1);
    assert_eq!(peek(&mut core, 0x12), 0x02);
    assert_eq!(core.registers.flags.carry, true);
    run(&mut core, 1);
    assert_eq!(peek(&mut core, 0x13), 0x00);
    assert_eq!(core.registers.flags.carry, true);
    run(&mut core, 1);
    assert_eq!(peek(&mut core, 0x14), 0x01);
    assert_eq!(core.registers.flags.carry, true);
    run(&mut core, 1);
    assert_eq!(peek(&mut core, 0x15), 0x80);
    assert_eq!(core.registers.flags.carry, true);
    assert_eq!(core.registers.a, 0);
}

#[test]
fn the_accumulator_is_shifted_in_place() {
    // LDA #$81; ASL A; ROL A; LSR A; ROR A
    let mut core = core_with(&[0xA9, 0x81, 0x0A, 0x2A, 0x4A, 0x6A]);
    run(&mut core, 2);
    assert_eq!(core.registers.a, 0x02);
    assert_eq!(core.registers.flags.carry, true);
    run(&mut core, 1);
    assert_eq!(core.registers.a, 0x05);
    assert_eq!(core.registers.flags.carry, false);
    run(&mut core, 1);
    assert_eq!(core.registers.a, 0x02);
    assert_eq!(core.registers.flags.carry, true);
    run(&mut core, 1);
    assert_eq!(core.registers.a, 0x81);
    assert_eq!(core.registers.flags.carry, false);
    assert_eq!(core.registers.pc, 0x8006);
}

#[test]
fn logic() {
    // LDA #$F0; ORA #$0C; AND #$3C; EOR #$FF
    let mut core = core_with(&[0xA9, 0xF0, 0x09, 0x0C, 0x29, 0x3C, 0x49, 0xFF]);
    run(&mut core, 2);
    assert_eq!(core.registers.a, 0xFC);
    run(&mut core, 1);
    assert_eq!(core.registers.a, 0x3C);
    assert_eq!(core.registers.flags.negative, false);
    run(&mut core, 1);
    assert_eq!(core.registers.a, 0xC3);
    assert_eq!(core.registers.flags.negative, true);
}

#[test]
fn addition_and_subtraction() {
    // CLC; LDA #$7F; ADC #$01; SEC; SBC #$01; SED; CLC; LDA #$19; ADC #$28; SEC; SBC #$09; CLD
    let mut core = core_with(&[
        0x18, 0xA9, 0x7F, 0x69, 0x01, 0x38, 0xE9, 0x01, 0xF8, 0x18, 0xA9, 0x19, 0x69, 0x28, 0x38,
        0xE9, 0x09, 0xD8,
    ]);
    run(&mut core, 3);
    assert_eq!(core.registers.a, 0x80);
    assert_eq!(core.registers.flags.overflow, true);
    assert_eq!(core.registers.flags.negative, true);
    assert_eq!(core.registers.flags.carry, false);
    run(&mut core, 2);
    assert_eq!(core.registers.a, 0x7F);
    assert_eq!(core.registers.flags.overflow, true);
    assert_eq!(core.registers.flags.carry, true);
    run(&mut core, 4);
    assert_eq!(core.registers.a, 0x47);
    assert_eq!(core.registers.flags.decimal, true);
    run(&mut core, 2);
    assert_eq!(core.registers.a, 0x38);
    assert_eq!(core.registers.flags.carry, true);
    run(&mut core, 1);
    assert_eq!(core.registers.flags.decimal, false);
}

#[test]
fn comparisons() {
    // LDA #$40; CMP #$40; CMP #$41; LDX #$10; CPX #$0F; LDY #$00; CPY #$01
    let mut core = core_with(&[
        0xA9, 0x40, 0xC9, 0x40, 0xC9, 0x41, 0xA2, 0x10, 0xE0, 0x0F, 0xA0, 0x00, 0xC0, 0x01,
    ]);
    run(&mut core, 2);
    assert_eq!(
        (core.registers.flags.carry, core.registers.flags.zero, core.registers.flags.negative),
        (true, true, false)
    );
    run(&mut core, 1);
    assert_eq!(
        (core.registers.flags.carry, core.registers.flags.zero, core.registers.flags.negative),
        (false, false, true)
    );
    run(&mut core, 2);
    assert_eq!(
        (core.registers.flags.carry, core.registers.flags.zero, core.registers.flags.negative),
        (true, false, false)
    );
    run(&mut core, 2);
    assert_eq!(
        (core.registers.flags.carry, core.registers.flags.zero, core.registers.flags.negative),
        (false, false, true)
    );
    assert_eq!(core.registers.a, 0x40);
}

#[test]
fn flag_instructions() {
    // SEC; SED; SEI; CLC; CLD; CLI; CLV
    let mut core = core_with(&[0x38, 0xF8, 0x78, 0x18, 0xD8, 0x58, 0xB8]);
    core.registers.flags = Flags { overflow: true, interrupt_disable: false, ..reset_flags() };
    run(&mut core, 3);
    assert_eq!(
        core.registers.flags,
        Flags { overflow: true, carry: true, decimal: true, ..reset_flags() }
    );
    run(&mut core, 4);
    assert_eq!(core.registers.flags, Flags { interrupt_disable: false, ..reset_flags() });
}

#[test]
fn bit_and_test_and_set() {
    // LDA #$0F; BIT $10; BIT #$F0; TSB $10; TRB $11
    let mut core = core_with(&[0xA9, 0x0F, 0x24, 0x10, 0x89, 0xF0, 0x04, 0x10, 0x14, 0x11]);
    poke(&mut core, 0x10, 0xC0);
    poke(&mut core, 0x11, 0xFF);
    run(&mut core, 2);
    assert_eq!(
        (core.registers.flags.zero, core.registers.flags.negative, core.registers.flags.overflow),
        (true, true, true)
    );
    core.registers.flags.negative = false;
    core.registers.flags.overflow = false;
    run(&mut core, 1);
    assert_eq!(
        (core.registers.flags.zero, core.registers.flags.negative, core.registers.flags.overflow),
        (true, false, false)
    );
    run(&mut core, 1);
    assert_eq!(peek(&mut core, 0x10), 0xCF);
    assert_eq!(core.registers.flags.zero, true);
    run(&mut core, 1);
    assert_eq!(peek(&mut core, 0x11), 0xF0);
    assert_eq!(core.registers.flags.zero, false);
    assert_eq!(core.registers.a, 0x0F);
}

#[test]
fn single_bits_are_set_and_cleared() {
    // SMB0 $10; SMB7 $10; RMB0 $10; RMB3 $11
    let mut core = core_with(&[0x87, 0x10, 0xF7, 0x10, 0x07, 0x10, 0x37, 0x11]);
    poke(&mut core, 0x11, 0xFF);
    let flags = core.registers.flags;
    run(&mut core, 1);
    assert_eq!(peek(&mut core, 0x10), 0x01);
    run(&mut core, 1);
    assert_eq!(peek(&mut core, 0x10), 0x81);
    run(&mut core, 1);
    assert_eq!(peek(&mut core, 0x10), 0x80);
    run(&mut core, 1);
    assert_eq!(peek(&mut core, 0x11), 0xF7);
    assert_eq!(core.registers.flags, flags);
    assert_eq!(core.registers.pc, 0x8008);
}

#[test]
fn branches_on_single_bits() {
    // BBS3 $10,+4 ; BBR3 $10,+4
    for (opcode, value, taken) in [
        (0xBFu8, 0x08u8, true),
        (0xBF, 0xF7, false),
        (0x3F, 0xF7, true),
        (0x3F, 0x08, false),
        (0x0F, 0xFE, true),
        (0xFF, 0x80, true),
        (0xFF, 0x7F, false),
    ] {
        let mut core = core_with(&[opcode, 0x10, 0x04]);
        poke(&mut core, 0x10, value);
        let before = core.registers;
        core.step().unwrap();
        let expected = if taken { 0x8007 } else { 0x8003 };
        assert_eq!(core.registers, Registers { pc: expected, ..before });
    }
    // backwards, across the start of the page
    let mut core = core_at(0x0100, &[0x8F, 0x10, 0xFC]);
    poke(&mut core, 0x10, 0x01);
    core.step().unwrap();
    assert_eq!(core.registers.pc, 0x00FF);
}

#[test]
fn undefined_opcodes_do_nothing() {
    for (opcode, length) in
        [(0x03u8, 1u16), (0xFB, 1), (0x02, 2), (0xE2, 2), (0x44, 2), (0x54, 2), (0x5C, 3), (0xFC, 3)]
    {
        let mut core = core_with(&[opcode, 0x12, 0x34]);
        core.registers.x = 7;
        let before = core.registers;
        assert_eq!(core.step(), Ok(()));
        assert_eq!(core.registers, Registers { pc: 0x8000 + length, ..before });
        assert_eq!(peek(&mut core, 0x0012), 0);
        assert_eq!(peek(&mut core, 0x3412), 0);
    }
}

#[test]
fn every_opcode_steps_on_ram() {
    for opcode in 0..=255u8 {
        let mut core = core_with(&[opcode, 0x10, 0x20]);
        assert_eq!(core.step(), Ok(()));
    }
}

#[test]
fn wai_waits_for_a_request() {
    let mut core = core_with(&[0xCB, 0xA9, 0x01]);
    poke(&mut core, 0xFFFE, 0x00);
    poke(&mut core, 0xFFFF, 0xA0);
    let before = core.registers;
    run(&mut core, 3);
    assert_eq!(core.registers, before);
    // a masked request wakes the core, and execution goes on after the WAI
    core.request_interrupt(InterruptKind::Maskable);
    run(&mut core, 1);
    assert_eq!(core.registers, Registers { pc: 0x8001, ..before });
    run(&mut core, 1);
    assert_eq!(core.registers.a, 0x01);
    assert_eq!(core.interrupts.irq_pending, true);
}

#[test]
fn wai_wakes_into_the_handler() {
    let mut core = core_with(&[0xCB, 0xEA]);
    poke(&mut core, 0xFFFA, 0x00);
    poke(&mut core, 0xFFFB, 0x90);
    run(&mut core, 2);
    assert_eq!(core.registers.pc, 0x8000);
    core.request_interrupt(InterruptKind::NonMaskable);
    run(&mut core, 1);
    assert_eq!(core.registers.pc, 0x9000);
    assert_eq!(peek(&mut core, 0x01FD), 0x80);
    assert_eq!(peek(&mut core, 0x01FC), 0x01);
}

#[test]
fn stp_stays_until_reset() {
    let mut core = core_with(&[0xDB, 0xEA]);
    let before = core.registers;
    run(&mut core, 3);
    assert_eq!(core.registers, before);
    poke(&mut core, 0xFFFC, 0x01);
    core.reset().unwrap();
    run(&mut core, 1);
    assert_eq!(core.registers.pc, 0x8002);
}

#[test]
fn the_program_counter_wraps() {
    let mut core = core_at(0xFFFF, &[0xA9, 0x42]);
    // the reset vector was written over the operand: put the operand back
    poke(&mut core, 0x0000, 0x42);
    core.registers.pc = 0xFFFF;
    poke(&mut core, 0xFFFF, 0xA9);
    core.step().unwrap();
    assert_eq!(core.registers.a, 0x42);
    assert_eq!(core.registers.pc, 0x0001);
}

#[test]
fn ram_aliases_above_64k() {
    let mut ram = Ram::new();
    assert_eq!(ram.read_u8(0x1234), Ok(0));
    assert_eq!(ram.write_u8(0x1234, 0x56), Ok(()));
    assert_eq!(ram.read_u8(0x1234), Ok(0x56));
    assert_eq!(ram.read_u8(0x1_1234), Ok(0x56));
    assert_eq!(ram.write_u8(0x2_0000, 0x78), Ok(()));
    assert_eq!(ram.read_u8(0), Ok(0x78));
    assert_eq!(ram.read_u8(0xFFFF), Ok(0));
}

#[test]
fn the_phases_of_a_step_can_be_run_apart() {
    let mut core = core_with(&[0xEA]);
    poke(&mut core, 0xFFFA, 0x00);
    poke(&mut core, 0xFFFB, 0x90);
    core.request_interrupt(InterruptKind::NonMaskable);
    assert_eq!(core.execute_instruction(), Ok(()));
    assert_eq!(core.registers.pc, 0x8001);
    assert_eq!(core.interrupts.nmi_pending, true);
    assert_eq!(core.service_interrupts(), Ok(()));
    assert_eq!(core.registers.pc, 0x9000);
    assert_eq!(core.service_interrupts(), Ok(()));
    assert_eq!(core.registers.pc, 0x9000);
    assert_eq!(core.registers.sp, 0xFA);
}

#[test]
fn a_step_on_the_handheld_changes_no_memory() {
    let mut otp = vec![0u8; 0x4000];
    otp[0x3FFC] = 0x00;
    otp[0x3FFD] = 0x80;
    // JSR $8000: the first push is refused
    otp[0..3].copy_from_slice(&[0x20, 0x00, 0x80]);
    let flash = vec![0u8; 0x200000];
    let mut handheld = Handheld::new(&otp, &flash).unwrap();
    let core = &mut handheld.mcu.core;
    core.reset().unwrap();
    let before = core.registers;
    assert_eq!(core.step(), Err(AccessError::UnsupportedWrite { address: 0x01FD }));
    assert_eq!(core.registers, before);
    assert_eq!(core.address_space.last_video_write(), None);
    for offset in 0..0x4000usize {
        assert_eq!(core.address_space.read_u8(offset), Ok(otp[offset]));
    }
}

#[test]
fn a_refused_interrupt_entry_keeps_the_request() {
    let mut otp = vec![0xEAu8; 0x4000];
    otp[0x3FFC] = 0x00;
    otp[0x3FFD] = 0x80;
    let flash = vec![0u8; 0x200000];
    let mut handheld = Handheld::new(&otp, &flash).unwrap();
    handheld.mcu.core.reset().unwrap();
    handheld.mcu.request_interrupt(InterruptKind::NonMaskable);
    let core = &mut handheld.mcu.core;
    // the NOP is executed, then the push of the program counter is refused
    assert_eq!(core.step(), Err(AccessError::UnsupportedWrite { address: 0x01FD }));
    assert_eq!(core.registers, Registers { pc: 0x8001, ..Registers::new() });
    assert_eq!(
        core.interrupts,
        Interrupts { nmi_pending: true, irq_pending: false, servicing: false }
    );
}

#[test]
fn interrupts_can_be_requested_of_the_microcontroller() {
    let mut mcu = Mcu::new(Ram::new());
    mcu.request_interrupt(InterruptKind::Maskable);
    assert_eq!(
        mcu.core.interrupts,
        Interrupts { nmi_pending: false, irq_pending: true, servicing: false }
    );
    mcu.request_interrupt(InterruptKind::NonMaskable);
    assert_eq!(
        mcu.core.interrupts,
        Interrupts { nmi_pending: true, irq_pending: true, servicing: false }
    );
}
