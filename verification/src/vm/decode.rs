//! The boundary to the instruction decoder.
//!
//! Decoding itself is the decoder's business. What crosses the boundary is
//! [`RawInstruction`]: plain numbers, in the decoder's own numbering, which
//! [`Instruction::from_raw`] then reads.

use crate::ast::Bits;
use crate::vm::instruction::Instruction;
use crate::vm::{Mode, VmError};
use vstd::prelude::*;

verus! {

/// What the decoder reports of one instruction. Mnemonic, operand kinds and
/// registers are given by the number the decoder has for them.
#[derive(Debug, Clone, Copy, PartialEq, Eq, Structural)]
pub struct RawInstruction {
    pub mnemonic: u16,
    pub len: usize,
    pub op0_kind: u8,
    pub op1_kind: u8,
    pub op0_register: u8,
    pub op1_register: u8,
    pub memory_base: u8,
    pub segment_prefix: u8,
    pub memory_displacement32: u32,
    pub memory_displacement64: u64,
    pub immediate8: u8,
    pub immediate16: u16,
    pub immediate32: u32,
    pub immediate64: u64,
}

/// What the decoder reports of the instruction at the start of `bytes` when
/// it decodes for code of the given bitness.
pub uninterp spec fn decoded(bitness: u32, bytes: Seq<u8>) -> RawInstruction;

/// `iced_x86::Decoder::new(bitness, bytes, DecoderOptions::NONE)` followed
/// by one `decode()`, read out through the accessors of
/// `iced_x86::Instruction` that bear the fields' names.
///
/// The contract claims that the outcome depends on `bitness` and `bytes`
/// alone; nothing is claimed of what it is. The constructor panics on a
/// bitness other than 16, 32 or 64, which the precondition leaves out.
#[verifier::external_body]
pub(crate) fn decode_raw(bitness: u32, bytes: &[u8]) -> (raw: RawInstruction)
    requires
        bitness == 16 || bitness == 32 || bitness == 64,
    ensures
        raw == decoded(bitness, bytes@),
{
    let mut decoder = iced_x86::Decoder::new(bitness, bytes, iced_x86::DecoderOptions::NONE);
    let i = decoder.decode();
    RawInstruction {
        mnemonic: i.mnemonic() as u16,
        len: i.len(),
        op0_kind: i.op0_kind() as u8, op1_kind: i.op1_kind() as u8,
        op0_register: i.op0_register() as u8, op1_register: i.op1_register() as u8,
        memory_base: i.memory_base() as u8, segment_prefix: i.segment_prefix() as u8,
        memory_displacement32: i.memory_displacement32(),
        memory_displacement64: i.memory_displacement64(),
        immediate8: i.immediate8(), immediate16: i.immediate16(),
        immediate32: i.immediate32(), immediate64: i.immediate64(),
    }
}

/// The default operand width of a mode.
pub open spec fn operand_width(mode: Mode) -> Bits {
    match mode {
        Mode::Real => Bits::Bit16,
        Mode::Protected => Bits::Bit32,
        Mode::Long => Bits::Bit64,
    }
}

/// Decodes the instruction at the start of `bytes` for code of the given
/// mode. Fails with `DecodeFailure` exactly when the decoder finds no valid
/// instruction there.
pub fn decode(mode: Mode, bytes: &[u8]) -> (instruction: Result<Instruction, VmError>)
    ensures
        instruction == Instruction::read(decoded(operand_width(mode).width(), bytes@)),
{
    let bitness: u32 = match mode {
        Mode::Real => 16,
        Mode::Protected => 32,
        Mode::Long => 64,
    };
    Instruction::from_raw(decode_raw(bitness, bytes))
}

} // verus!
