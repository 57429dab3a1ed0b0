//! Decoded instructions as the machine reads them.

use crate::vm::decode::RawInstruction;
use crate::vm::register::RegisterId;
use crate::vm::VmError;
use vstd::prelude::*;

verus! {

/// The mnemonics the machine has a rule for, and `Other` with the decoder's
/// number for every one it has none for.
#[derive(Debug, Clone, Copy, PartialEq, Eq, Structural)]
pub enum Mnemonic {
    Add,
    And,
    Cli,
    Cmp,
    Hlt,
    Int,
    Je,
    Jmp,
    Jne,
    Lgdt,
    Mov,
    Or,
    Sub,
    Other(u16),
}

/// How an operand is given.
#[derive(Debug, Clone, Copy, PartialEq, Eq, Structural)]
pub enum OperandKind {
    Register,
    Memory,
    Immediate8,
    Immediate16,
    Immediate32,
    Immediate64,
    /// No operand, or one of a kind the machine has no rule for.
    Other,
}

/// A decoded instruction.
#[derive(Debug, Clone, Copy, PartialEq, Eq, Structural)]
pub struct Instruction {
    pub mnemonic: Mnemonic,
    /// The encoded length in bytes.
    pub len: usize,
    pub op0_kind: OperandKind,
    pub op1_kind: OperandKind,
    pub op0_register: RegisterId,
    pub op1_register: RegisterId,
    /// The base register of the memory operand, if it has one.
    pub memory_base: Option<RegisterId>,
    /// The segment-override prefix, if there is one.
    pub segment_prefix: Option<RegisterId>,
    pub memory_displacement32: u32,
    pub memory_displacement64: u64,
    pub immediate8: u8,
    pub immediate16: u16,
    pub immediate32: u32,
    pub immediate64: u64,
}

impl Mnemonic {
    /// The mnemonic with the decoder's number `code`; `None` for 0, the
    /// number of an invalid instruction.
    pub open spec fn of_code(code: u16) -> Option<Mnemonic> {
        if code == 0 {
            None
        } else if code == 7 {
            Some(Mnemonic::Add)
        } else if code == 21 {
            Some(Mnemonic::And)
        } else if code == 71 {
            Some(Mnemonic::Cli)
        } else if code == 93 {
            Some(Mnemonic::Cmp)
        } else if code == 272 {
            Some(Mnemonic::Hlt)
        } else if code == 287 {
            Some(Mnemonic::Int)
        } else if code == 302 {
            Some(Mnemonic::Je)
        } else if code == 308 {
            Some(Mnemonic::Jmp)
        } else if code == 310 {
            Some(Mnemonic::Jne)
        } else if code == 379 {
            Some(Mnemonic::Lgdt)
        } else if code == 414 {
            Some(Mnemonic::Mov)
        } else if code == 467 {
            Some(Mnemonic::Or)
        } else if code == 740 {
            Some(Mnemonic::Sub)
        } else {
            Some(Mnemonic::Other(code))
        }
    }

    pub fn from_code(code: u16) -> (mnemonic: Option<Mnemonic>)
        ensures
            mnemonic == Mnemonic::of_code(code),
    {
        match code {
            0 => None,
            7 => Some(Mnemonic::Add),
            21 => Some(Mnemonic::And),
            71 => Some(Mnemonic::Cli),
            93 => Some(Mnemonic::Cmp),
            272 => Some(Mnemonic::Hlt),
            287 => Some(Mnemonic::Int),
            302 => Some(Mnemonic::Je),
            308 => Some(Mnemonic::Jmp),
            310 => Some(Mnemonic::Jne),
            379 => Some(Mnemonic::Lgdt),
            414 => Some(Mnemonic::Mov),
            467 => Some(Mnemonic::Or),
            740 => Some(Mnemonic::Sub),
            other => Some(Mnemonic::Other(other)),
        }
    }
}

impl OperandKind {
    /// The operand kind with the decoder's number `code`.
    pub open spec fn of_code(code: u8) -> OperandKind {
        if code == 0 {
            OperandKind::Register
        } else if code == 6 {
            OperandKind::Immediate8
        } else if code == 8 {
            OperandKind::Immediate16
        } else if code == 9 {
            OperandKind::Immediate32
        } else if code == 10 {
            OperandKind::Immediate64
        } else if code == 24 {
            OperandKind::Memory
        } else {
            OperandKind::Other
        }
    }

    pub fn from_code(code: u8) -> (kind: OperandKind)
        ensures
            kind == OperandKind::of_code(code),
    {
        match code {
            0 => OperandKind::Register,
            6 => OperandKind::Immediate8,
            8 => OperandKind::Immediate16,
            9 => OperandKind::Immediate32,
            10 => OperandKind::Immediate64,
            24 => OperandKind::Memory,
            _ => OperandKind::Other,
        }
    }
}

impl RegisterId {
    /// The register with the decoder's number `code`; `Unmapped` where the
    /// machine does not model the register of that number.
    pub open spec fn of_code(code: u8) -> RegisterId {
        if code == 1 {
            RegisterId::AL
        } else if code == 2 {
            RegisterId::CL
        } else if code == 3 {
            RegisterId::DL
        } else if code == 4 {
            RegisterId::BL
        } else if code == 5 {
            RegisterId::AH
        } else if code == 6 {
            RegisterId::CH
        } else if code == 7 {
            RegisterId::DH
        } else if code == 8 {
            RegisterId::BH
        } else if code == 21 {
            RegisterId::AX
        } else if code == 22 {
            RegisterId::CX
        } else if code == 23 {
            RegisterId::DX
        } else if code == 24 {
            RegisterId::BX
        } else if code == 25 {
            RegisterId::SP
        } else if code == 26 {
            RegisterId::BP
        } else if code == 27 {
            RegisterId::SI
        } else if code == 28 {
            RegisterId::DI
        } else if code == 37 {
            RegisterId::EAX
        } else if code == 38 {
            RegisterId::ECX
        } else if code == 39 {
            RegisterId::EDX
        } else if code == 40 {
            RegisterId::EBX
        } else if code == 41 {
            RegisterId::ESP
        } else if code == 42 {
            RegisterId::EBP
        } else if code == 43 {
            RegisterId::ESI
        } else if code == 44 {
            RegisterId::EDI
        } else if code == 53 {
            RegisterId::RAX
        } else if code == 54 {
            RegisterId::RCX
        } else if code == 55 {
            RegisterId::RDX
        } else if code == 56 {
            RegisterId::RBX
        } else if code == 57 {
            RegisterId::RSP
        } else if code == 58 {
            RegisterId::RBP
        } else if code == 59 {
            RegisterId::RSI
        } else if code == 60 {
            RegisterId::RDI
        } else if code == 61 {
            RegisterId::R8
        } else if code == 62 {
            RegisterId::R9
        } else if code == 63 {
            RegisterId::R10
        } else if code == 64 {
            RegisterId::R11
        } else if code == 65 {
            RegisterId::R12
        } else if code == 66 {
            RegisterId::R13
        } else if code == 67 {
            RegisterId::R14
        } else if code == 68 {
            RegisterId::R15
        } else if code == 71 {
            RegisterId::ES
        } else if code == 72 {
            RegisterId::CS
        } else if code == 73 {
            RegisterId::SS
        } else if code == 74 {
            RegisterId::DS
        } else if code == 75 {
            RegisterId::FS
        } else if code == 76 {
            RegisterId::GS
        } else {
            RegisterId::Unmapped
        }
    }

    pub fn from_code(code: u8) -> (register: RegisterId)
        ensures
            register == RegisterId::of_code(code),
    {
        match code {
            1 => RegisterId::AL,
            2 => RegisterId::CL,
            3 => RegisterId::DL,
            4 => RegisterId::BL,
            5 => RegisterId::AH,
            6 => RegisterId::CH,
            7 => RegisterId::DH,
            8 => RegisterId::BH,
            21 => RegisterId::AX,
            22 => RegisterId::CX,
            23 => RegisterId::DX,
            24 => RegisterId::BX,
            25 => RegisterId::SP,
            26 => RegisterId::BP,
            27 => RegisterId::SI,
            28 => RegisterId::DI,
            37 => RegisterId::EAX,
            38 => RegisterId::ECX,
            39 => RegisterId::EDX,
            40 => RegisterId::EBX,
            41 => RegisterId::ESP,
            42 => RegisterId::EBP,
            43 => RegisterId::ESI,
            44 => RegisterId::EDI,
            53 => RegisterId::RAX,
            54 => RegisterId::RCX,
            55 => RegisterId::RDX,
            56 => RegisterId::RBX,
            57 => RegisterId::RSP,
            58 => RegisterId::RBP,
            59 => RegisterId::RSI,
            60 => RegisterId::RDI,
            61 => RegisterId::R8,
            62 => RegisterId::R9,
            63 => RegisterId::R10,
            64 => RegisterId::R11,
            65 => RegisterId::R12,
            66 => RegisterId::R13,
            67 => RegisterId::R14,
            68 => RegisterId::R15,
            71 => RegisterId::ES,
            72 => RegisterId::CS,
            73 => RegisterId::SS,
            74 => RegisterId::DS,
            75 => RegisterId::FS,
            76 => RegisterId::GS,
            _ => RegisterId::Unmapped,
        }
    }

    /// The register with the decoder's number `code`, where 0 stands for
    /// no register at all.
    pub open spec fn of_optional_code(code: u8) -> Option<RegisterId> {
        if code == 0 {
            None
        } else {
            Some(RegisterId::of_code(code))
        }
    }

    pub fn from_optional_code(code: u8) -> (register: Option<RegisterId>)
        ensures
            register == RegisterId::of_optional_code(code),
    {
        if code == 0 {
            None
        } else {
            Some(RegisterId::from_code(code))
        }
    }
}

impl Instruction {
    /// The instruction that a report of the decoder stands for, or
    /// `DecodeFailure` where the report is of an invalid instruction.
    pub open spec fn read(raw: RawInstruction) -> Result<Instruction, VmError> {
        match Mnemonic::of_code(raw.mnemonic) {
            None => Err(VmError::DecodeFailure),
            Some(mnemonic) => Ok(
                Instruction {
                    mnemonic,
                    len: raw.len,
                    op0_kind: OperandKind::of_code(raw.op0_kind),
                    op1_kind: OperandKind::of_code(raw.op1_kind),
                    op0_register: RegisterId::of_code(raw.op0_register),
                    op1_register: RegisterId::of_code(raw.op1_register),
                    memory_base: RegisterId::of_optional_code(raw.memory_base),
                    segment_prefix: RegisterId::of_optional_code(raw.segment_prefix),
                    memory_displacement32: raw.memory_displacement32,
                    memory_displacement64: raw.memory_displacement64,
                    immediate8: raw.immediate8,
                    immediate16: raw.immediate16,
                    immediate32: raw.immediate32,
                    immediate64: raw.immediate64,
                },
            ),
        }
    }

    pub fn from_raw(raw: RawInstruction) -> (instruction: Result<Instruction, VmError>)
        ensures
            instruction == Instruction::read(raw),
    {
        match Mnemonic::from_code(raw.mnemonic) {
            None => Err(VmError::DecodeFailure),
            Some(mnemonic) => Ok(
                Instruction {
                    mnemonic,
                    len: raw.len,
                    op0_kind: OperandKind::from_code(raw.op0_kind),
                    op1_kind: OperandKind::from_code(raw.op1_kind),
                    op0_register: RegisterId::from_code(raw.op0_register),
                    op1_register: RegisterId::from_code(raw.op1_register),
                    memory_base: RegisterId::from_optional_code(raw.memory_base),
                    segment_prefix: RegisterId::from_optional_code(raw.segment_prefix),
                    memory_displacement32: raw.memory_displacement32,
                    memory_displacement64: raw.memory_displacement64,
                    immediate8: raw.immediate8,
                    immediate16: raw.immediate16,
                    immediate32: raw.immediate32,
                    immediate64: raw.immediate64,
                },
            ),
        }
    }
}

} // verus!
