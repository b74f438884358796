//! The handheld and the microcontroller inside it.

pub mod handheld;
pub mod st2205u;
