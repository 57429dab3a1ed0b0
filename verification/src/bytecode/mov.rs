//! The `mov` encodings that the byte decoder knows.

use crate::ast::Bits;
use crate::bytecode::{opcode_and_operand, Instr, ModRM, Parse, Prefix, Rex};
use crate::decoder::{Decoder, Parsed};
use vstd::prelude::*;

verus! {

/// `mov r/m8, r8`.
#[derive(Debug, Copy, Clone, PartialEq, Eq, Structural)]
pub struct MovV8R8;

pub const MOV_V8_R8_OPCODE: u8 = 0x88;

impl Parse for MovV8R8 {
    open spec fn parsed(bytes: Seq<u8>, at: int, mode: Bits) -> Parsed<Instr> {
        opcode_and_operand(bytes, at, None, MOV_V8_R8_OPCODE)
    }

    fn parse(buffer: &mut Decoder, _bits: Bits) -> (parsed: Result<Instr, String>) {
        let mut instr = Instr::default();
        instr.opcode = MOV_V8_R8_OPCODE;
        buffer.next()?;
        let modrm = ModRM::decode(buffer.next()?);
        instr.operand = buffer.decode_operand(modrm)?;
        Ok(instr)
    }
}

/// `mov r/m8, r8` behind a REX prefix.
#[derive(Debug, Copy, Clone, PartialEq, Eq, Structural)]
pub struct Mov64V8R8;

pub const MOV64_V8_R8_OPCODE: u8 = 0x88;

impl Parse for Mov64V8R8 {
    open spec fn parsed(bytes: Seq<u8>, at: int, mode: Bits) -> Parsed<Instr> {
        if bytes.len() <= at {
            Parsed { result: Err("EOF"@), taken: 0 }
        } else {
            match Rex::of_byte(bytes[at]) {
                Err(text) => Parsed { result: Err(text), taken: 1 },
                Ok(rex) => {
                    let rest = opcode_and_operand(
                        bytes,
                        at + 1,
                        Some(Prefix::Rex(rex)),
                        MOV64_V8_R8_OPCODE,
                    );
                    Parsed { result: rest.result, taken: 1 + rest.taken }
                },
            }
        }
    }

    fn parse(buffer: &mut Decoder, _bits: Bits) -> (parsed: Result<Instr, String>) {
        let mut instr = Instr::default();
        let first = buffer.next()?;
        match Rex::try_from(first) {
            Ok(rex) => {
                instr.prefix = Some(Prefix::Rex(rex));
            },
            Err(message) => {
                return Err(message);
            },
        }
        instr.opcode = MOV64_V8_R8_OPCODE;
        buffer.next()?;
        let modrm = ModRM::decode(buffer.next()?);
        instr.operand = buffer.decode_operand(modrm)?;
        Ok(instr)
    }
}

/// `mov r/m16, r16`, behind an operand-size prefix where 16 bits is not the
/// width of the mode.
#[derive(Debug, Copy, Clone, PartialEq, Eq, Structural)]
pub struct MovV16R16;

pub const MOV_V16_R16_OPCODE: u8 = 0x89;

impl Parse for MovV16R16 {
    open spec fn parsed(bytes: Seq<u8>, at: int, mode: Bits) -> Parsed<Instr> {
        if mode == Bits::Bit16 {
            opcode_and_operand(bytes, at, None, MOV_V16_R16_OPCODE)
        } else if bytes.len() <= at {
            Parsed { result: Err("EOF"@), taken: 0 }
        } else {
            let rest = opcode_and_operand(
                bytes,
                at + 1,
                Some(Prefix::OperandSize),
                MOV_V16_R16_OPCODE,
            );
            Parsed { result: rest.result, taken: 1 + rest.taken }
        }
    }

    fn parse(buffer: &mut Decoder, bits: Bits) -> (parsed: Result<Instr, String>) {
        let mut instr = Instr::default();
        if bits != Bits::Bit16 {
            instr.prefix = Some(Prefix::OperandSize);
            buffer.next()?;
        }
        instr.opcode = MOV_V16_R16_OPCODE;
        buffer.next()?;
        let modrm = ModRM::decode(buffer.next()?);
        instr.operand = buffer.decode_operand(modrm)?;
        Ok(instr)
    }
}

} // verus!
