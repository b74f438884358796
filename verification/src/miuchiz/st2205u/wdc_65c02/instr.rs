//! The instructions of the 65C02.

use vstd::prelude::*;

verus! {

/// What an instruction does, apart from where its operand comes from.
///
/// The four bit instructions carry the number of the bit they work on. Only
/// its low three bits count.
#[derive(Clone, Copy, Debug, PartialEq, Eq, Structural)]
pub enum Instruction {
    /// Add to the accumulator with carry.
    ADC,
    /// And the accumulator with the operand.
    AND,
    /// Shift left by one bit.
    ASL,
    /// Branch if a bit of a zero-page byte is clear.
    BBR(u8),
    /// Branch if a bit of a zero-page byte is set.
    BBS(u8),
    /// Branch if carry is clear.
    BCC,
    /// Branch if carry is set.
    BCS,
    /// Branch if the zero flag is set.
    BEQ,
    /// Test bits of the operand against the accumulator.
    BIT,
    /// Branch if the negative flag is set.
    BMI,
    /// Branch if the zero flag is clear.
    BNE,
    /// Branch if the negative flag is clear.
    BPL,
    /// Branch always.
    BRA,
    /// Software interrupt.
    BRK,
    /// Branch if the overflow flag is clear.
    BVC,
    /// Branch if the overflow flag is set.
    BVS,
    /// Clear carry.
    CLC,
    /// Clear the decimal flag.
    CLD,
    /// Clear the interrupt-disable flag.
    CLI,
    /// Clear the overflow flag.
    CLV,
    /// Compare the accumulator with the operand.
    CMP,
    /// Compare X with the operand.
    CPX,
    /// Compare Y with the operand.
    CPY,
    /// Decrement the operand.
    DEC,
    /// Decrement X.
    DEX,
    /// Decrement Y.
    DEY,
    /// Exclusive-or the accumulator with the operand.
    EOR,
    /// Increment the operand.
    INC,
    /// Increment X.
    INX,
    /// Increment Y.
    INY,
    /// Jump.
    JMP,
    /// Jump to a subroutine.
    JSR,
    /// Load the accumulator.
    LDA,
    /// Load X.
    LDX,
    /// Load Y.
    LDY,
    /// Shift right by one bit.
    LSR,
    /// Do nothing. Every opcode that the 65C02 leaves undefined decodes to
    /// this, with the operand length the hardware gives it.
    NOP,
    /// Or the accumulator with the operand.
    ORA,
    /// Push the accumulator.
    PHA,
    /// Push the flags.
    PHP,
    /// Push X.
    PHX,
    /// Push Y.
    PHY,
    /// Pull the accumulator.
    PLA,
    /// Pull the flags.
    PLP,
    /// Pull X.
    PLX,
    /// Pull Y.
    PLY,
    /// Clear a bit of a zero-page byte.
    RMB(u8),
    /// Rotate left through carry.
    ROL,
    /// Rotate right through carry.
    ROR,
    /// Return from an interrupt handler.
    RTI,
    /// Return from a subroutine.
    RTS,
    /// Subtract from the accumulator with borrow.
    SBC,
    /// Set carry.
    SEC,
    /// Set the decimal flag.
    SED,
    /// Set the interrupt-disable flag.
    SEI,
    /// Set a bit of a zero-page byte.
    SMB(u8),
    /// Store the accumulator.
    STA,
    /// Stop: the core stays on this instruction until it is reset.
    STP,
    /// Store X.
    STX,
    /// Store Y.
    STY,
    /// Store zero.
    STZ,
    /// Copy the accumulator to X.
    TAX,
    /// Copy the accumulator to Y.
    TAY,
    /// Clear in the operand the bits that are set in the accumulator.
    TRB,
    /// Set in the operand the bits that are set in the accumulator.
    TSB,
    /// Copy the stack pointer to X.
    TSX,
    /// Copy X to the accumulator.
    TXA,
    /// Copy X to the stack pointer.
    TXS,
    /// Copy Y to the accumulator.
    TYA,
    /// Wait: the core stays on this instruction until an interrupt is
    /// requested.
    WAI,
}

} // verus!
