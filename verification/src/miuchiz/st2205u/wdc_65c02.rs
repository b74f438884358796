//! The WDC 65C02 instruction engine.

pub mod addr_mode;
pub mod alu;
pub mod bus;
pub mod cpu;
pub mod decoder;
pub mod execute;
pub mod instr;
pub mod interrupt;
pub mod opcode;
pub mod registers;
pub mod theorems;

pub use addr_mode::AddressingMode;
pub use cpu::Core;
pub use decoder::DecodedInstruction;
pub use instr::Instruction;
pub use interrupt::HandlesInterrupt;
pub use opcode::Opcode;
pub use registers::{Flags, Registers};
