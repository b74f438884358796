//! Opcodes: the first byte of every instruction, and what it stands for.

use vstd::prelude::*;
use super::addr_mode::AddressingMode;
use super::instr::Instruction;

verus! {

/// The opcode table of the 65C02, one row for each of the 256 byte values.
///
/// The opcodes that the 65C02 leaves undefined are no-ops of one, two or
/// three bytes; their rows give them the addressing mode that makes them as
/// long as they are on the hardware.
#[verifier::opaque]
pub open spec fn opcode_table(opcode: u8) -> (Instruction, AddressingMode) {
    match opcode {
        0x00 => (Instruction::BRK, AddressingMode::Implied),
        0x01 => (Instruction::ORA, AddressingMode::IndirectX),
        0x02 => (Instruction::NOP, AddressingMode::Immediate),
        0x03 => (Instruction::NOP, AddressingMode::Implied),
        0x04 => (Instruction::TSB, AddressingMode::ZeroPage),
        0x05 => (Instruction::ORA, AddressingMode::ZeroPage),
        0x06 => (Instruction::ASL, AddressingMode::ZeroPage),
        0x07 => (Instruction::RMB(0), AddressingMode::ZeroPage),
        0x08 => (Instruction::PHP, AddressingMode::Implied),
        0x09 => (Instruction::ORA, AddressingMode::Immediate),
        0x0A => (Instruction::ASL, AddressingMode::Accumulator),
        0x0B => (Instruction::NOP, AddressingMode::Implied),
        0x0C => (Instruction::TSB, AddressingMode::Absolute),
        0x0D => (Instruction::ORA, AddressingMode::Absolute),
        0x0E => (Instruction::ASL, AddressingMode::Absolute),
        0x0F => (Instruction::BBR(0), AddressingMode::ZeroPageRelative),
        0x10 => (Instruction::BPL, AddressingMode::Relative),
        0x11 => (Instruction::ORA, AddressingMode::IndirectY),
        0x12 => (Instruction::ORA, AddressingMode::ZeroPageIndirect),
        0x13 => (Instruction::NOP, AddressingMode::Implied),
        0x14 => (Instruction::TRB, AddressingMode::ZeroPage),
        0x15 => (Instruction::ORA, AddressingMode::ZeroPageX),
        0x16 => (Instruction::ASL, AddressingMode::ZeroPageX),
        0x17 => (Instruction::RMB(1), AddressingMode::ZeroPage),
        0x18 => (Instruction::CLC, AddressingMode::Implied),
        0x19 => (Instruction::ORA, AddressingMode::AbsoluteY),
        0x1A => (Instruction::INC, AddressingMode::Accumulator),
        0x1B => (Instruction::NOP, AddressingMode::Implied),
        0x1C => (Instruction::TRB, AddressingMode::Absolute),
        0x1D => (Instruction::ORA, AddressingMode::AbsoluteX),
        0x1E => (Instruction::ASL, AddressingMode::AbsoluteX),
        0x1F => (Instruction::BBR(1), AddressingMode::ZeroPageRelative),
        0x20 => (Instruction::JSR, AddressingMode::Absolute),
        0x21 => (Instruction::AND, AddressingMode::IndirectX),
        0x22 => (Instruction::NOP, AddressingMode::Immediate),
        0x23 => (Instruction::NOP, AddressingMode::Implied),
        0x24 => (Instruction::BIT, AddressingMode::ZeroPage),
        0x25 => (Instruction::AND, AddressingMode::ZeroPage),
        0x26 => (Instruction::ROL, AddressingMode::ZeroPage),
        0x27 => (Instruction::RMB(2), AddressingMode::ZeroPage),
        0x28 => (Instruction::PLP, AddressingMode::Implied),
        0x29 => (Instruction::AND, AddressingMode::Immediate),
        0x2A => (Instruction::ROL, AddressingMode::Accumulator),
        0x2B => (Instruction::NOP, AddressingMode::Implied),
        0x2C => (Instruction::BIT, AddressingMode::Absolute),
        0x2D => (Instruction::AND, AddressingMode::Absolute),
        0x2E => (Instruction::ROL, AddressingMode::Absolute),
        0x2F => (Instruction::BBR(2), AddressingMode::ZeroPageRelative),
        0x30 => (Instruction::BMI, AddressingMode::Relative),
        0x31 => (Instruction::AND, AddressingMode::IndirectY),
        0x32 => (Instruction::AND, AddressingMode::ZeroPageIndirect),
        0x33 => (Instruction::NOP, AddressingMode::Implied),
        0x34 => (Instruction::BIT, AddressingMode::ZeroPageX),
        0x35 => (Instruction::AND, AddressingMode::ZeroPageX),
        0x36 => (Instruction::ROL, AddressingMode::ZeroPageX),
        0x37 => (Instruction::RMB(3), AddressingMode::ZeroPage),
        0x38 => (Instruction::SEC, AddressingMode::Implied),
        0x39 => (Instruction::AND, AddressingMode::AbsoluteY),
        0x3A => (Instruction::DEC, AddressingMode::Accumulator),
        0x3B => (Instruction::NOP, AddressingMode::Implied),
        0x3C => (Instruction::BIT, AddressingMode::AbsoluteX),
        0x3D => (Instruction::AND, AddressingMode::AbsoluteX),
        0x3E => (Instruction::ROL, AddressingMode::AbsoluteX),
        0x3F => (Instruction::BBR(3), AddressingMode::ZeroPageRelative),
        0x40 => (Instruction::RTI, AddressingMode::Implied),
        0x41 => (Instruction::EOR, AddressingMode::IndirectX),
        0x42 => (Instruction::NOP, AddressingMode::Immediate),
        0x43 => (Instruction::NOP, AddressingMode::Implied),
        0x44 => (Instruction::NOP, AddressingMode::ZeroPage),
        0x45 => (Instruction::EOR, AddressingMode::ZeroPage),
        0x46 => (Instruction::LSR, AddressingMode::ZeroPage),
        0x47 => (Instruction::RMB(4), AddressingMode::ZeroPage),
        0x48 => (Instruction::PHA, AddressingMode::Implied),
        0x49 => (Instruction::EOR, AddressingMode::Immediate),
        0x4A => (Instruction::LSR, AddressingMode::Accumulator),
        0x4B => (Instruction::NOP, AddressingMode::Implied),
        0x4C => (Instruction::JMP, AddressingMode::Absolute),
        0x4D => (Instruction::EOR, AddressingMode::Absolute),
        0x4E => (Instruction::LSR, AddressingMode::Absolute),
        0x4F => (Instruction::BBR(4), AddressingMode::ZeroPageRelative),
        0x50 => (Instruction::BVC, AddressingMode::Relative),
        0x51 => (Instruction::EOR, AddressingMode::IndirectY),
        0x52 => (Instruction::EOR, AddressingMode::ZeroPageIndirect),
        0x53 => (Instruction::NOP, AddressingMode::Implied),
        0x54 => (Instruction::NOP, AddressingMode::ZeroPageX),
        0x55 => (Instruction::EOR, AddressingMode::ZeroPageX),
        0x56 => (Instruction::LSR, AddressingMode::ZeroPageX),
        0x57 => (Instruction::RMB(5), AddressingMode::ZeroPage),
        0x58 => (Instruction::CLI, AddressingMode::Implied),
        0x59 => (Instruction::EOR, AddressingMode::AbsoluteY),
        0x5A => (Instruction::PHY, AddressingMode::Implied),
        0x5B => (Instruction::NOP, AddressingMode::Implied),
        0x5C => (Instruction::NOP, AddressingMode::Absolute),
        0x5D => (Instruction::EOR, AddressingMode::AbsoluteX),
        0x5E => (Instruction::LSR, AddressingMode::AbsoluteX),
        0x5F => (Instruction::BBR(5), AddressingMode::ZeroPageRelative),
        0x60 => (Instruction::RTS, AddressingMode::Implied),
        0x61 => (Instruction::ADC, AddressingMode::IndirectX),
        0x62 => (Instruction::NOP, AddressingMode::Immediate),
        0x63 => (Instruction::NOP, AddressingMode::Implied),
        0x64 => (Instruction::STZ, AddressingMode::ZeroPage),
        0x65 => (Instruction::ADC, AddressingMode::ZeroPage),
        0x66 => (Instruction::ROR, AddressingMode::ZeroPage),
        0x67 => (Instruction::RMB(6), AddressingMode::ZeroPage),
        0x68 => (Instruction::PLA, AddressingMode::Implied),
        0x69 => (Instruction::ADC, AddressingMode::Immediate),
        0x6A => (Instruction::ROR, AddressingMode::Accumulator),
        0x6B => (Instruction::NOP, AddressingMode::Implied),
        0x6C => (Instruction::JMP, AddressingMode::Indirect),
        0x6D => (Instruction::ADC, AddressingMode::Absolute),
        0x6E => (Instruction::ROR, AddressingMode::Absolute),
        0x6F => (Instruction::BBR(6), AddressingMode::ZeroPageRelative),
        0x70 => (Instruction::BVS, AddressingMode::Relative),
        0x71 => (Instruction::ADC, AddressingMode::IndirectY),
        0x72 => (Instruction::ADC, AddressingMode::ZeroPageIndirect),
        0x73 => (Instruction::NOP, AddressingMode::Implied),
        0x74 => (Instruction::STZ, AddressingMode::ZeroPageX),
        0x75 => (Instruction::ADC, AddressingMode::ZeroPageX),
        0x76 => (Instruction::ROR, AddressingMode::ZeroPageX),
        0x77 => (Instruction::RMB(7), AddressingMode::ZeroPage),
        0x78 => (Instruction::SEI, AddressingMode::Implied),
        0x79 => (Instruction::ADC, AddressingMode::AbsoluteY),
        0x7A => (Instruction::PLY, AddressingMode::Implied),
        0x7B => (Instruction::NOP, AddressingMode::Implied),
        0x7C => (Instruction::JMP, AddressingMode::AbsoluteIndirectX),
        0x7D => (Instruction::ADC, AddressingMode::AbsoluteX),
        0x7E => (Instruction::ROR, AddressingMode::AbsoluteX),
        0x7F => (Instruction::BBR(7), AddressingMode::ZeroPageRelative),
        0x80 => (Instruction::BRA, AddressingMode::Relative),
        0x81 => (Instruction::STA, AddressingMode::IndirectX),
        0x82 => (Instruction::NOP, AddressingMode::Immediate),
        0x83 => (Instruction::NOP, AddressingMode::Implied),
        0x84 => (Instruction::STY, AddressingMode::ZeroPage),
        0x85 => (Instruction::STA, AddressingMode::ZeroPage),
        0x86 => (Instruction::STX, AddressingMode::ZeroPage),
        0x87 => (Instruction::SMB(0), AddressingMode::ZeroPage),
        0x88 => (Instruction::DEY, AddressingMode::Implied),
        0x89 => (Instruction::BIT, AddressingMode::Immediate),
        0x8A => (Instruction::TXA, AddressingMode::Implied),
        0x8B => (Instruction::NOP, AddressingMode::Implied),
        0x8C => (Instruction::STY, AddressingMode::Absolute),
        0x8D => (Instruction::STA, AddressingMode::Absolute),
        0x8E => (Instruction::STX, AddressingMode::Absolute),
        0x8F => (Instruction::BBS(0), AddressingMode::ZeroPageRelative),
        0x90 => (Instruction::BCC, AddressingMode::Relative),
        0x91 => (Instruction::STA, AddressingMode::IndirectY),
        0x92 => (Instruction::STA, AddressingMode::ZeroPageIndirect),
        0x93 => (Instruction::NOP, AddressingMode::Implied),
        0x94 => (Instruction::STY, AddressingMode::ZeroPageX),
        0x95 => (Instruction::STA, AddressingMode::ZeroPageX),
        0x96 => (Instruction::STX, AddressingMode::ZeroPageY),
        0x97 => (Instruction::SMB(1), AddressingMode::ZeroPage),
        0x98 => (Instruction::TYA, AddressingMode::Implied),
        0x99 => (Instruction::STA, AddressingMode::AbsoluteY),
        0x9A => (Instruction::TXS, AddressingMode::Implied),
        0x9B => (Instruction::NOP, AddressingMode::Implied),
        0x9C => (Instruction::STZ, AddressingMode::Absolute),
        0x9D => (Instruction::STA, AddressingMode::AbsoluteX),
        0x9E => (Instruction::STZ, AddressingMode::AbsoluteX),
        0x9F => (Instruction::BBS(1), AddressingMode::ZeroPageRelative),
        0xA0 => (Instruction::LDY, AddressingMode::Immediate),
        0xA1 => (Instruction::LDA, AddressingMode::IndirectX),
        0xA2 => (Instruction::LDX, AddressingMode::Immediate),
        0xA3 => (Instruction::NOP, AddressingMode::Implied),
        0xA4 => (Instruction::LDY, AddressingMode::ZeroPage),
        0xA5 => (Instruction::LDA, AddressingMode::ZeroPage),
        0xA6 => (Instruction::LDX, AddressingMode::ZeroPage),
        0xA7 => (Instruction::SMB(2), AddressingMode::ZeroPage),
        0xA8 => (Instruction::TAY, AddressingMode::Implied),
        0xA9 => (Instruction::LDA, AddressingMode::Immediate),
        0xAA => (Instruction::TAX, AddressingMode::Implied),
        0xAB => (Instruction::NOP, AddressingMode::Implied),
        0xAC => (Instruction::LDY, AddressingMode::Absolute),
        0xAD => (Instruction::LDA, AddressingMode::Absolute),
        0xAE => (Instruction::LDX, AddressingMode::Absolute),
        0xAF => (Instruction::BBS(2), AddressingMode::ZeroPageRelative),
        0xB0 => (Instruction::BCS, AddressingMode::Relative),
        0xB1 => (Instruction::LDA, AddressingMode::IndirectY),
        0xB2 => (Instruction::LDA, AddressingMode::ZeroPageIndirect),
        0xB3 => (Instruction::NOP, AddressingMode::Implied),
        0xB4 => (Instruction::LDY, AddressingMode::ZeroPageX),
        0xB5 => (Instruction::LDA, AddressingMode::ZeroPageX),
        0xB6 => (Instruction::LDX, AddressingMode::ZeroPageY),
        0xB7 => (Instruction::SMB(3), AddressingMode::ZeroPage),
        0xB8 => (Instruction::CLV, AddressingMode::Implied),
        0xB9 => (Instruction::LDA, AddressingMode::AbsoluteY),
        0xBA => (Instruction::TSX, AddressingMode::Implied),
        0xBB => (Instruction::NOP, AddressingMode::Implied),
        0xBC => (Instruction::LDY, AddressingMode::AbsoluteX),
        0xBD => (Instruction::LDA, AddressingMode::AbsoluteX),
        0xBE => (Instruction::LDX, AddressingMode::AbsoluteY),
        0xBF => (Instruction::BBS(3), AddressingMode::ZeroPageRelative),
        0xC0 => (Instruction::CPY, AddressingMode::Immediate),
        0xC1 => (Instruction::CMP, AddressingMode::IndirectX),
        0xC2 => (Instruction::NOP, AddressingMode::Immediate),
        0xC3 => (Instruction::NOP, AddressingMode::Implied),
        0xC4 => (Instruction::CPY, AddressingMode::ZeroPage),
        0xC5 => (Instruction::CMP, AddressingMode::ZeroPage),
        0xC6 => (Instruction::DEC, AddressingMode::ZeroPage),
        0xC7 => (Instruction::SMB(4), AddressingMode::ZeroPage),
        0xC8 => (Instruction::INY, AddressingMode::Implied),
        0xC9 => (Instruction::CMP, AddressingMode::Immediate),
        0xCA => (Instruction::DEX, AddressingMode::Implied),
        0xCB => (Instruction::WAI, AddressingMode::Implied),
        0xCC => (Instruction::CPY, AddressingMode::Absolute),
        0xCD => (Instruction::CMP, AddressingMode::Absolute),
        0xCE => (Instruction::DEC, AddressingMode::Absolute),
        0xCF => (Instruction::BBS(4), AddressingMode::ZeroPageRelative),
        0xD0 => (Instruction::BNE, AddressingMode::Relative),
        0xD1 => (Instruction::CMP, AddressingMode::IndirectY),
        0xD2 => (Instruction::CMP, AddressingMode::ZeroPageIndirect),
        0xD3 => (Instruction::NOP, AddressingMode::Implied),
        0xD4 => (Instruction::NOP, AddressingMode::ZeroPageX),
        0xD5 => (Instruction::CMP, AddressingMode::ZeroPageX),
        0xD6 => (Instruction::DEC, AddressingMode::ZeroPageX),
        0xD7 => (Instruction::SMB(5), AddressingMode::ZeroPage),
        0xD8 => (Instruction::CLD, AddressingMode::Implied),
        0xD9 => (Instruction::CMP, AddressingMode::AbsoluteY),
        0xDA => (Instruction::PHX, AddressingMode::Implied),
        0xDB => (Instruction::STP, AddressingMode::Implied),
        0xDC => (Instruction::NOP, AddressingMode::Absolute),
        0xDD => (Instruction::CMP, AddressingMode::AbsoluteX),
        0xDE => (Instruction::DEC, AddressingMode::AbsoluteX),
        0xDF => (Instruction::BBS(5), AddressingMode::ZeroPageRelative),
        0xE0 => (Instruction::CPX, AddressingMode::Immediate),
        0xE1 => (Instruction::SBC, AddressingMode::IndirectX),
        0xE2 => (Instruction::NOP, AddressingMode::Immediate),
        0xE3 => (Instruction::NOP, AddressingMode::Implied),
        0xE4 => (Instruction::CPX, AddressingMode::ZeroPage),
        0xE5 => (Instruction::SBC, AddressingMode::ZeroPage),
        0xE6 => (Instruction::INC, AddressingMode::ZeroPage),
        0xE7 => (Instruction::SMB(6), AddressingMode::ZeroPage),
        0xE8 => (Instruction::INX, AddressingMode::Implied),
        0xE9 => (Instruction::SBC, AddressingMode::Immediate),
        0xEA => (Instruction::NOP, AddressingMode::Implied),
        0xEB => (Instruction::NOP, AddressingMode::Implied),
        0xEC => (Instruction::CPX, AddressingMode::Absolute),
        0xED => (Instruction::SBC, AddressingMode::Absolute),
        0xEE => (Instruction::INC, AddressingMode::Absolute),
        0xEF => (Instruction::BBS(6), AddressingMode::ZeroPageRelative),
        0xF0 => (Instruction::BEQ, AddressingMode::Relative),
        0xF1 => (Instruction::SBC, AddressingMode::IndirectY),
        0xF2 => (Instruction::SBC, AddressingMode::ZeroPageIndirect),
        0xF3 => (Instruction::NOP, AddressingMode::Implied),
        0xF4 => (Instruction::NOP, AddressingMode::ZeroPageX),
        0xF5 => (Instruction::SBC, AddressingMode::ZeroPageX),
        0xF6 => (Instruction::INC, AddressingMode::ZeroPageX),
        0xF7 => (Instruction::SMB(7), AddressingMode::ZeroPage),
        0xF8 => (Instruction::SED, AddressingMode::Implied),
        0xF9 => (Instruction::SBC, AddressingMode::AbsoluteY),
        0xFA => (Instruction::PLX, AddressingMode::Implied),
        0xFB => (Instruction::NOP, AddressingMode::Implied),
        0xFC => (Instruction::NOP, AddressingMode::Absolute),
        0xFD => (Instruction::SBC, AddressingMode::AbsoluteX),
        0xFE => (Instruction::INC, AddressingMode::AbsoluteX),
        0xFF => (Instruction::BBS(7), AddressingMode::ZeroPageRelative),
    }
}

/// The first byte of an instruction.
#[derive(Clone, Copy, Debug, PartialEq, Eq, Structural)]
pub struct Opcode(pub u8);

impl Opcode {
    /// The instruction this opcode stands for.
    pub fn instruction(&self) -> (i: Instruction)
        ensures
            i == opcode_table(self.0).0,
    {
        reveal(opcode_table);
        let opcode = self.0;
        match opcode {
            0x61 | 0x65 | 0x69 | 0x6D | 0x71 | 0x72 | 0x75 | 0x79 | 0x7D => Instruction::ADC,
            0x21 | 0x25 | 0x29 | 0x2D | 0x31 | 0x32 | 0x35 | 0x39 | 0x3D => Instruction::AND,
            0x06 | 0x0A | 0x0E | 0x16 | 0x1E => Instruction::ASL,
            0x0F | 0x1F | 0x2F | 0x3F | 0x4F | 0x5F | 0x6F | 0x7F => Instruction::BBR(opcode / 16),
            0x8F | 0x9F | 0xAF | 0xBF | 0xCF | 0xDF | 0xEF | 0xFF => Instruction::BBS(opcode / 16 - 8),
            0x90 => Instruction::BCC,
            0xB0 => Instruction::BCS,
            0xF0 => Instruction::BEQ,
            0x24 | 0x2C | 0x34 | 0x3C | 0x89 => Instruction::BIT,
            0x30 => Instruction::BMI,
            0xD0 => Instruction::BNE,
            0x10 => Instruction::BPL,
            0x80 => Instruction::BRA,
            0x00 => Instruction::BRK,
            0x50 => Instruction::BVC,
            0x70 => Instruction::BVS,
            0x18 => Instruction::CLC,
            0xD8 => Instruction::CLD,
            0x58 => Instruction::CLI,
            0xB8 => Instruction::CLV,
            0xC1 | 0xC5 | 0xC9 | 0xCD | 0xD1 | 0xD2 | 0xD5 | 0xD9 | 0xDD => Instruction::CMP,
            0xE0 | 0xE4 | 0xEC => Instruction::CPX,
            0xC0 | 0xC4 | 0xCC => Instruction::CPY,
            0x3A | 0xC6 | 0xCE | 0xD6 | 0xDE => Instruction::DEC,
            0xCA => Instruction::DEX,
            0x88 => Instruction::DEY,
            0x41 | 0x45 | 0x49 | 0x4D | 0x51 | 0x52 | 0x55 | 0x59 | 0x5D => Instruction::EOR,
            0x1A | 0xE6 | 0xEE | 0xF6 | 0xFE => Instruction::INC,
            0xE8 => Instruction::INX,
            0xC8 => Instruction::INY,
            0x4C | 0x6C | 0x7C => Instruction::JMP,
            0x20 => Instruction::JSR,
            0xA1 | 0xA5 | 0xA9 | 0xAD | 0xB1 | 0xB2 | 0xB5 | 0xB9 | 0xBD => Instruction::LDA,
            0xA2 | 0xA6 | 0xAE | 0xB6 | 0xBE => Instruction::LDX,
            0xA0 | 0xA4 | 0xAC | 0xB4 | 0xBC => Instruction::LDY,
            0x46 | 0x4A | 0x4E | 0x56 | 0x5E => Instruction::LSR,
            0x01 | 0x05 | 0x09 | 0x0D | 0x11 | 0x12 | 0x15 | 0x19 | 0x1D => Instruction::ORA,
            0x48 => Instruction::PHA,
            0x08 => Instruction::PHP,
            0xDA => Instruction::PHX,
            0x5A => Instruction::PHY,
            0x68 => Instruction::PLA,
            0x28 => Instruction::PLP,
            0xFA => Instruction::PLX,
            0x7A => Instruction::PLY,
            0x07 | 0x17 | 0x27 | 0x37 | 0x47 | 0x57 | 0x67 | 0x77 => Instruction::RMB(opcode / 16),
            0x26 | 0x2A | 0x2E | 0x36 | 0x3E => Instruction::ROL,
            0x66 | 0x6A | 0x6E | 0x76 | 0x7E => Instruction::ROR,
            0x40 => Instruction::RTI,
            0x60 => Instruction::RTS,
            0xE1 | 0xE5 | 0xE9 | 0xED | 0xF1 | 0xF2 | 0xF5 | 0xF9 | 0xFD => Instruction::SBC,
            0x38 => Instruction::SEC,
            0xF8 => Instruction::SED,
            0x78 => Instruction::SEI,
            0x87 | 0x97 | 0xA7 | 0xB7 | 0xC7 | 0xD7 | 0xE7 | 0xF7 => Instruction::SMB(opcode / 16 - 8),
            0x81 | 0x85 | 0x8D | 0x91 | 0x92 | 0x95 | 0x99 | 0x9D => Instruction::STA,
            0xDB => Instruction::STP,
            0x86 | 0x8E | 0x96 => Instruction::STX,
            0x84 | 0x8C | 0x94 => Instruction::STY,
            0x64 | 0x74 | 0x9C | 0x9E => Instruction::STZ,
            0xAA => Instruction::TAX,
            0xA8 => Instruction::TAY,
            0x14 | 0x1C => Instruction::TRB,
            0x04 | 0x0C => Instruction::TSB,
            0xBA => Instruction::TSX,
            0x8A => Instruction::TXA,
            0x9A => Instruction::TXS,
            0x98 => Instruction::TYA,
            0xCB => Instruction::WAI,
            _ => Instruction::NOP,
        }
    }

    /// The addressing mode this opcode stands for.
    pub fn mode(&self) -> (m: AddressingMode)
        ensures
            m == opcode_table(self.0).1,
    {
        reveal(opcode_table);
        let opcode = self.0;
        match opcode {
            0x0A | 0x1A | 0x2A | 0x3A | 0x4A | 0x6A => AddressingMode::Accumulator,
            0x02 | 0x09 | 0x22 | 0x29 | 0x42 | 0x49 | 0x62 | 0x69 | 0x82 | 0x89 | 0xA0 | 0xA2 |
            0xA9 | 0xC0 | 0xC2 | 0xC9 | 0xE0 | 0xE2 | 0xE9 => AddressingMode::Immediate,
            0x04 | 0x05 | 0x06 | 0x07 | 0x14 | 0x17 | 0x24 | 0x25 | 0x26 | 0x27 | 0x37 | 0x44 |
            0x45 | 0x46 | 0x47 | 0x57 | 0x64 | 0x65 | 0x66 | 0x67 | 0x77 | 0x84 | 0x85 | 0x86 |
            0x87 | 0x97 | 0xA4 | 0xA5 | 0xA6 | 0xA7 | 0xB7 | 0xC4 | 0xC5 | 0xC6 | 0xC7 | 0xD7 |
            0xE4 | 0xE5 | 0xE6 | 0xE7 | 0xF7 => AddressingMode::ZeroPage,
            0x15 | 0x16 | 0x34 | 0x35 | 0x36 | 0x54 | 0x55 | 0x56 | 0x74 | 0x75 | 0x76 | 0x94 |
            0x95 | 0xB4 | 0xB5 | 0xD4 | 0xD5 | 0xD6 | 0xF4 | 0xF5 | 0xF6 => AddressingMode::ZeroPageX,
            0x96 | 0xB6 => AddressingMode::ZeroPageY,
            0x0C | 0x0D | 0x0E | 0x1C | 0x20 | 0x2C | 0x2D | 0x2E | 0x4C | 0x4D | 0x4E | 0x5C |
            0x6D | 0x6E | 0x8C | 0x8D | 0x8E | 0x9C | 0xAC | 0xAD | 0xAE | 0xCC | 0xCD | 0xCE |
            0xDC | 0xEC | 0xED | 0xEE | 0xFC => AddressingMode::Absolute,
            0x1D | 0x1E | 0x3C | 0x3D | 0x3E | 0x5D | 0x5E | 0x7D | 0x7E | 0x9D | 0x9E | 0xBC |
            0xBD | 0xDD | 0xDE | 0xFD | 0xFE => AddressingMode::AbsoluteX,
            0x19 | 0x39 | 0x59 | 0x79 | 0x99 | 0xB9 | 0xBE | 0xD9 | 0xF9 => AddressingMode::AbsoluteY,
            0x6C => AddressingMode::Indirect,
            0x01 | 0x21 | 0x41 | 0x61 | 0x81 | 0xA1 | 0xC1 | 0xE1 => AddressingMode::IndirectX,
            0x11 | 0x31 | 0x51 | 0x71 | 0x91 | 0xB1 | 0xD1 | 0xF1 => AddressingMode::IndirectY,
            0x12 | 0x32 | 0x52 | 0x72 | 0x92 | 0xB2 | 0xD2 | 0xF2 => AddressingMode::ZeroPageIndirect,
            0x7C => AddressingMode::AbsoluteIndirectX,
            0x10 | 0x30 | 0x50 | 0x70 | 0x80 | 0x90 | 0xB0 | 0xD0 | 0xF0 => AddressingMode::Relative,
            0x0F | 0x1F | 0x2F | 0x3F | 0x4F | 0x5F | 0x6F | 0x7F | 0x8F | 0x9F | 0xAF | 0xBF |
            0xCF | 0xDF | 0xEF | 0xFF => AddressingMode::ZeroPageRelative,
            _ => AddressingMode::Implied,
        }
    }

    /// Decodes the opcode. Every byte value is an opcode: there is no
    /// value that fails to decode.
    pub fn decode(&self) -> (r: (Instruction, AddressingMode))
        ensures
            r == opcode_table(self.0),
    {
        (self.instruction(), self.mode())
    }
}

} // verus!
