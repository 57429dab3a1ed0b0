//! A software x86 machine: register file, flat memory, segmented address
//! translation, flags, BIOS-style software interrupts and the fetch-execute
//! step that drives them.

pub mod ast;
pub mod bytecode;
pub mod decoder;
pub mod vm;
