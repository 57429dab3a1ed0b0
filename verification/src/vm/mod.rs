//! The virtual machine: processor state and the rules that change it.

use vstd::prelude::*;

pub mod bits;
pub mod cpu;
pub mod decode;
pub mod flags;
pub mod instruction;
pub mod machine;
pub mod mem;
pub mod register;
pub mod segment;

verus! {

/// Operating mode of the processor. It fixes the default operand width and
/// the address-translation formula.
#[derive(Debug, Clone, Copy, PartialEq, Eq, Structural)]
pub enum Mode {
    Real,
    Protected,
    Long,
}

/// Why an operation of the machine was refused.
#[derive(Debug, Clone, Copy, PartialEq, Eq, Structural)]
pub enum VmError {
    /// The bytes at the instruction pointer are no instruction.
    DecodeFailure,
    /// The boot image could not be read from storage.
    StorageFailure,
    /// A memory access reaches beyond the end of memory.
    OutOfBounds,
    /// Segmented translation was asked for in long mode.
    UnsupportedTranslation,
}

} // verus!
