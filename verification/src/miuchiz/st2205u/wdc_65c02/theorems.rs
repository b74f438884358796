//! What holds of every step of the core, whatever the program and whatever
//! the address space.

pub mod control;
pub mod frames;
pub mod interrupts;
pub mod storage;
pub mod totality;
