//! An emulator core for a handheld built on an ST2205U-class microcontroller.
//!
//! The crate has two parts. [`memory`] holds the address-space capability:
//! what it means to read and to write a byte by address, and a plain RAM
//! that has it. [`miuchiz`] holds the handheld: the memory map that routes
//! a machine address to the video registers, the one-time-programmable
//! region or the flash, and the microcontroller with its WDC 65C02
//! instruction engine.
//!
//! Every operation is stated over a mathematical model and proved against
//! it. The state of an address space is its contents; the state of a core
//! is its registers, its interrupt lines and the contents of its address
//! space; and one step of the core is a function from one such state to the
//! next. No operation panics: an access that the address space has no model
//! for is returned as an error, and the step that made it leaves the
//! registers as they were.

pub mod memory;
pub mod miuchiz;
