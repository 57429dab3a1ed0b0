//! Register file and instruction pointer.
//!
//! Every general-purpose register is one 64-bit cell. The narrower names
//! (`EAX`, `AX`, `AL`, `AH`, ...) are windows onto a part of their cell, so a
//! read through any name sees the last write through any other.

use crate::vm::bits::{high_byte, low_byte, low_dword, low_word};
use vstd::prelude::*;

verus! {

/// Names of the registers the machine models, plus `Unmapped` for every
/// register it does not.
#[derive(Debug, Clone, Copy, PartialEq, Eq, Structural)]
pub enum RegisterId {
    AL, AH, BL, BH, CL, CH, DL, DH,
    AX, BX, CX, DX, SI, DI, BP, SP,
    EAX, EBX, ECX, EDX, ESI, EDI, EBP, ESP,
    RAX, RBX, RCX, RDX, RSI, RDI, RBP, RSP,
    R8, R9, R10, R11, R12, R13, R14, R15,
    CS, DS, ES, FS, GS, SS,
    Unmapped,
}

/// The part of a 64-bit cell that a register name stands for.
#[derive(Debug, Clone, Copy, PartialEq, Eq, Structural)]
pub enum Part {
    /// Bits 0 to 7.
    Low8,
    /// Bits 8 to 15.
    High8,
    /// Bits 0 to 15.
    Low16,
    /// Bits 0 to 31.
    Low32,
    /// All 64 bits.
    Full,
}

impl RegisterId {
    /// Whether the name is a window onto a general-purpose cell.
    pub open spec fn is_general(self) -> bool {
        !self.is_segment() && self != RegisterId::Unmapped
    }

    /// Whether the name is one of the six segment registers.
    pub open spec fn is_segment(self) -> bool {
        matches!(
            self,
            RegisterId::CS | RegisterId::DS | RegisterId::ES | RegisterId::FS | RegisterId::GS
                | RegisterId::SS
        )
    }

    /// The 64-bit name of the cell that a general-purpose name lies in;
    /// any other name is its own cell.
    pub open spec fn cell(self) -> RegisterId {
        match self {
            RegisterId::AL | RegisterId::AH | RegisterId::AX | RegisterId::EAX => RegisterId::RAX,
            RegisterId::BL | RegisterId::BH | RegisterId::BX | RegisterId::EBX => RegisterId::RBX,
            RegisterId::CL | RegisterId::CH | RegisterId::CX | RegisterId::ECX => RegisterId::RCX,
            RegisterId::DL | RegisterId::DH | RegisterId::DX | RegisterId::EDX => RegisterId::RDX,
            RegisterId::SI | RegisterId::ESI => RegisterId::RSI,
            RegisterId::DI | RegisterId::EDI => RegisterId::RDI,
            RegisterId::BP | RegisterId::EBP => RegisterId::RBP,
            RegisterId::SP | RegisterId::ESP => RegisterId::RSP,
            _ => self,
        }
    }

    /// The part of its cell that a general-purpose name stands for.
    pub open spec fn part(self) -> Part {
        match self {
            RegisterId::AL | RegisterId::BL | RegisterId::CL | RegisterId::DL => Part::Low8,
            RegisterId::AH | RegisterId::BH | RegisterId::CH | RegisterId::DH => Part::High8,
            RegisterId::AX | RegisterId::BX | RegisterId::CX | RegisterId::DX | RegisterId::SI
                | RegisterId::DI | RegisterId::BP | RegisterId::SP => Part::Low16,
            RegisterId::EAX | RegisterId::EBX | RegisterId::ECX | RegisterId::EDX
                | RegisterId::ESI | RegisterId::EDI | RegisterId::EBP | RegisterId::ESP => {
                Part::Low32
            },
            _ => Part::Full,
        }
    }

    /// The name that stands for `part` of the cell with the 64-bit name
    /// `cell`; `Unmapped` where the cell has no such name.
    pub open spec fn named(cell: RegisterId, part: Part) -> RegisterId {
        match (cell, part) {
            (RegisterId::RAX, Part::Low8) => RegisterId::AL,
            (RegisterId::RBX, Part::Low8) => RegisterId::BL,
            (RegisterId::RCX, Part::Low8) => RegisterId::CL,
            (RegisterId::RDX, Part::Low8) => RegisterId::DL,
            (RegisterId::RAX, Part::High8) => RegisterId::AH,
            (RegisterId::RBX, Part::High8) => RegisterId::BH,
            (RegisterId::RCX, Part::High8) => RegisterId::CH,
            (RegisterId::RDX, Part::High8) => RegisterId::DH,
            (RegisterId::RAX, Part::Low16) => RegisterId::AX,
            (RegisterId::RBX, Part::Low16) => RegisterId::BX,
            (RegisterId::RCX, Part::Low16) => RegisterId::CX,
            (RegisterId::RDX, Part::Low16) => RegisterId::DX,
            (RegisterId::RSI, Part::Low16) => RegisterId::SI,
            (RegisterId::RDI, Part::Low16) => RegisterId::DI,
            (RegisterId::RBP, Part::Low16) => RegisterId::BP,
            (RegisterId::RSP, Part::Low16) => RegisterId::SP,
            (RegisterId::RAX, Part::Low32) => RegisterId::EAX,
            (RegisterId::RBX, Part::Low32) => RegisterId::EBX,
            (RegisterId::RCX, Part::Low32) => RegisterId::ECX,
            (RegisterId::RDX, Part::Low32) => RegisterId::EDX,
            (RegisterId::RSI, Part::Low32) => RegisterId::ESI,
            (RegisterId::RDI, Part::Low32) => RegisterId::EDI,
            (RegisterId::RBP, Part::Low32) => RegisterId::EBP,
            (RegisterId::RSP, Part::Low32) => RegisterId::ESP,
            (_, Part::Full) => if cell.is_qword() {
                cell
            } else {
                RegisterId::Unmapped
            },
            _ => RegisterId::Unmapped,
        }
    }

    /// Whether the name is one of the eight 8-bit registers.
    pub open spec fn is_byte(self) -> bool {
        self.is_general() && (self.part() == Part::Low8 || self.part() == Part::High8)
    }

    /// Whether the name is one of the eight 16-bit general-purpose registers.
    pub open spec fn is_word(self) -> bool {
        self.is_general() && self.part() == Part::Low16
    }

    /// Whether the name is one of the eight 32-bit registers.
    pub open spec fn is_dword(self) -> bool {
        self.is_general() && self.part() == Part::Low32
    }

    /// Whether the name is one of the sixteen 64-bit registers.
    pub open spec fn is_qword(self) -> bool {
        self.is_general() && self.part() == Part::Full
    }
}

/// What a read through `part` sees of `cell`.
pub open spec fn project(part: Part, cell: u64) -> u64 {
    match part {
        Part::Low8 => cell & 0xff,
        Part::High8 => (cell >> 8) & 0xff,
        Part::Low16 => cell & 0xffff,
        Part::Low32 => cell & 0xffff_ffff,
        Part::Full => cell,
    }
}

/// The cell after a write of `value` through `part`. A 32-bit write clears
/// the upper half of the cell; a narrower one keeps every bit outside the
/// part it names.
pub open spec fn merge(part: Part, cell: u64, value: u64) -> u64 {
    match part {
        Part::Low8 => (cell & !0xffu64) | (value & 0xff),
        Part::High8 => (cell & !0xff00u64) | ((value & 0xff) << 8),
        Part::Low16 => (cell & !0xffffu64) | (value & 0xffff),
        Part::Low32 => value & 0xffff_ffff,
        Part::Full => value,
    }
}

/// Computes [`merge`].
pub fn merged(part: Part, cell: u64, value: u64) -> (r: u64)
    ensures
        r == merge(part, cell, value),
{
    match part {
        Part::Low8 => (cell & !0xffu64) | (value & 0xff),
        Part::High8 => (cell & !0xff00u64) | ((value & 0xff) << 8),
        Part::Low16 => (cell & !0xffffu64) | (value & 0xffff),
        Part::Low32 => value & 0xffff_ffff,
        Part::Full => value,
    }
}

/// The sixteen 64-bit cells.
#[derive(Debug, Clone, Copy, Default)]
pub struct GpRegister64 {
    pub rax: u64,
    pub rbx: u64,
    pub rcx: u64,
    pub rdx: u64,
    pub rsi: u64,
    pub rdi: u64,
    pub rbp: u64,
    pub rsp: u64,
    pub r8: u64,
    pub r9: u64,
    pub r10: u64,
    pub r11: u64,
    pub r12: u64,
    pub r13: u64,
    pub r14: u64,
    pub r15: u64,
}

impl GpRegister64 {
    /// The cell with the given 64-bit name; 0 for any other name.
    pub open spec fn cell(self, name: RegisterId) -> u64 {
        match name {
            RegisterId::RAX => self.rax,
            RegisterId::RBX => self.rbx,
            RegisterId::RCX => self.rcx,
            RegisterId::RDX => self.rdx,
            RegisterId::RSI => self.rsi,
            RegisterId::RDI => self.rdi,
            RegisterId::RBP => self.rbp,
            RegisterId::RSP => self.rsp,
            RegisterId::R8 => self.r8,
            RegisterId::R9 => self.r9,
            RegisterId::R10 => self.r10,
            RegisterId::R11 => self.r11,
            RegisterId::R12 => self.r12,
            RegisterId::R13 => self.r13,
            RegisterId::R14 => self.r14,
            RegisterId::R15 => self.r15,
            _ => 0,
        }
    }

    /// The cells with the one named replaced; unchanged for any other name.
    pub open spec fn with_cell(self, name: RegisterId, value: u64) -> GpRegister64 {
        match name {
            RegisterId::RAX => GpRegister64 { rax: value, ..self },
            RegisterId::RBX => GpRegister64 { rbx: value, ..self },
            RegisterId::RCX => GpRegister64 { rcx: value, ..self },
            RegisterId::RDX => GpRegister64 { rdx: value, ..self },
            RegisterId::RSI => GpRegister64 { rsi: value, ..self },
            RegisterId::RDI => GpRegister64 { rdi: value, ..self },
            RegisterId::RBP => GpRegister64 { rbp: value, ..self },
            RegisterId::RSP => GpRegister64 { rsp: value, ..self },
            RegisterId::R8 => GpRegister64 { r8: value, ..self },
            RegisterId::R9 => GpRegister64 { r9: value, ..self },
            RegisterId::R10 => GpRegister64 { r10: value, ..self },
            RegisterId::R11 => GpRegister64 { r11: value, ..self },
            RegisterId::R12 => GpRegister64 { r12: value, ..self },
            RegisterId::R13 => GpRegister64 { r13: value, ..self },
            RegisterId::R14 => GpRegister64 { r14: value, ..self },
            RegisterId::R15 => GpRegister64 { r15: value, ..self },
            _ => self,
        }
    }
}

/// The six segment registers: independent 16-bit values.
#[derive(Debug, Clone, Copy, Default)]
pub struct SegmentRegisters {
    pub cs: u16,
    pub ds: u16,
    pub es: u16,
    pub fs: u16,
    pub gs: u16,
    pub ss: u16,
}

impl SegmentRegisters {
    /// The segment register with the given name; 0 for any other name.
    pub open spec fn value(self, name: RegisterId) -> u16 {
        match name {
            RegisterId::CS => self.cs,
            RegisterId::DS => self.ds,
            RegisterId::ES => self.es,
            RegisterId::FS => self.fs,
            RegisterId::GS => self.gs,
            RegisterId::SS => self.ss,
            _ => 0,
        }
    }

    /// The registers with the one named replaced; unchanged for any other name.
    pub open spec fn with_value(self, name: RegisterId, value: u16) -> SegmentRegisters {
        match name {
            RegisterId::CS => SegmentRegisters { cs: value, ..self },
            RegisterId::DS => SegmentRegisters { ds: value, ..self },
            RegisterId::ES => SegmentRegisters { es: value, ..self },
            RegisterId::FS => SegmentRegisters { fs: value, ..self },
            RegisterId::GS => SegmentRegisters { gs: value, ..self },
            RegisterId::SS => SegmentRegisters { ss: value, ..self },
            _ => self,
        }
    }
}

/// The 32-bit views of the eight cells that have one.
#[derive(Debug, Clone, Copy, Default)]
pub struct GpRegister32 {
    pub eax: u32,
    pub ebx: u32,
    pub ecx: u32,
    pub edx: u32,
    pub esi: u32,
    pub edi: u32,
    pub ebp: u32,
    pub esp: u32,
}

/// The 16-bit views of the eight cells that have one.
#[derive(Debug, Clone, Copy, Default)]
pub struct GpRegister16 {
    pub ax: u16,
    pub bx: u16,
    pub cx: u16,
    pub dx: u16,
    pub si: u16,
    pub di: u16,
    pub bp: u16,
    pub sp: u16,
}

/// The 8-bit views of the four cells that have them.
#[derive(Debug, Clone, Copy, Default)]
pub struct GpRegister8 {
    pub al: u8,
    pub ah: u8,
    pub bl: u8,
    pub bh: u8,
    pub cl: u8,
    pub ch: u8,
    pub dl: u8,
    pub dh: u8,
}

/// The control registers. They are storage only: no rule of the machine
/// reads or writes them.
#[derive(Debug, Clone, Copy)]
pub struct ControlRegisters {
    pub cr0: u64,
    pub cr2: u64,
    pub cr3: u64,
    pub cr4: u64,
    pub cr8: u64,
}

/// The instruction pointer: one 64-bit offset in every mode.
#[derive(Debug, Clone, Copy, Default)]
pub struct InstructionPointer {
    pub rip: u64,
}

impl InstructionPointer {
    pub fn increment(&mut self)
        requires
            old(self).rip < u64::MAX,
        ensures
            final(self).rip == old(self).rip + 1,
    {
        self.rip += 1;
    }
}

/// The register file.
#[derive(Debug, Clone, Copy, Default)]
pub struct GeneralPurposeRegisters {
    pub gp64: GpRegister64,
    pub segment: SegmentRegisters,
}

impl GeneralPurposeRegisters {
    /// A register file with every register 0.
    pub fn new() -> (registers: Self)
        ensures
            forall|register: RegisterId| registers.read(register) == 0,
    {
        let registers = GeneralPurposeRegisters {
            gp64: GpRegister64 {
                rax: 0,
                rbx: 0,
                rcx: 0,
                rdx: 0,
                rsi: 0,
                rdi: 0,
                rbp: 0,
                rsp: 0,
                r8: 0,
                r9: 0,
                r10: 0,
                r11: 0,
                r12: 0,
                r13: 0,
                r14: 0,
                r15: 0,
            },
            segment: SegmentRegisters { cs: 0, ds: 0, es: 0, fs: 0, gs: 0, ss: 0 },
        };
        proof {
            lemma_project_zero();
        }
        registers
    }

    /// The value that a read through `register` gives.
    pub open spec fn read(self, register: RegisterId) -> u64 {
        if register.is_general() {
            project(register.part(), self.gp64.cell(register.cell()))
        } else {
            self.segment.value(register) as u64
        }
    }

    /// The register file after a write of `value` through `register`. The
    /// value is cut to the width of the register; a write through
    /// `Unmapped` changes nothing.
    pub open spec fn write(self, register: RegisterId, value: u64) -> GeneralPurposeRegisters {
        if register.is_general() {
            let cell = register.cell();
            let merged = merge(register.part(), self.gp64.cell(cell), value);
            GeneralPurposeRegisters { gp64: self.gp64.with_cell(cell, merged), ..self }
        } else {
            GeneralPurposeRegisters {
                segment: self.segment.with_value(register, (value & 0xffff) as u16),
                ..self
            }
        }
    }

    /// What a read through each 32-bit name gives.
    pub fn gp32(&self) -> (view: GpRegister32)
        ensures
            view.eax == self.read(RegisterId::EAX),
            view.ebx == self.read(RegisterId::EBX),
            view.ecx == self.read(RegisterId::ECX),
            view.edx == self.read(RegisterId::EDX),
            view.esi == self.read(RegisterId::ESI),
            view.edi == self.read(RegisterId::EDI),
            view.ebp == self.read(RegisterId::EBP),
            view.esp == self.read(RegisterId::ESP),
    {
        GpRegister32 {
            eax: low_dword(self.gp64.rax),
            ebx: low_dword(self.gp64.rbx),
            ecx: low_dword(self.gp64.rcx),
            edx: low_dword(self.gp64.rdx),
            esi: low_dword(self.gp64.rsi),
            edi: low_dword(self.gp64.rdi),
            ebp: low_dword(self.gp64.rbp),
            esp: low_dword(self.gp64.rsp),
        }
    }

    /// What a read through each 16-bit general-purpose name gives.
    pub fn gp16(&self) -> (view: GpRegister16)
        ensures
            view.ax == self.read(RegisterId::AX),
            view.bx == self.read(RegisterId::BX),
            view.cx == self.read(RegisterId::CX),
            view.dx == self.read(RegisterId::DX),
            view.si == self.read(RegisterId::SI),
            view.di == self.read(RegisterId::DI),
            view.bp == self.read(RegisterId::BP),
            view.sp == self.read(RegisterId::SP),
    {
        GpRegister16 {
            ax: low_word(self.gp64.rax),
            bx: low_word(self.gp64.rbx),
            cx: low_word(self.gp64.rcx),
            dx: low_word(self.gp64.rdx),
            si: low_word(self.gp64.rsi),
            di: low_word(self.gp64.rdi),
            bp: low_word(self.gp64.rbp),
            sp: low_word(self.gp64.rsp),
        }
    }

    /// What a read through each 8-bit name gives.
    pub fn gp8(&self) -> (view: GpRegister8)
        ensures
            view.al == self.read(RegisterId::AL),
            view.ah == self.read(RegisterId::AH),
            view.bl == self.read(RegisterId::BL),
            view.bh == self.read(RegisterId::BH),
            view.cl == self.read(RegisterId::CL),
            view.ch == self.read(RegisterId::CH),
            view.dl == self.read(RegisterId::DL),
            view.dh == self.read(RegisterId::DH),
    {
        GpRegister8 {
            al: low_byte(self.gp64.rax),
            ah: high_byte(self.gp64.rax),
            bl: low_byte(self.gp64.rbx),
            bh: high_byte(self.gp64.rbx),
            cl: low_byte(self.gp64.rcx),
            ch: high_byte(self.gp64.rcx),
            dl: low_byte(self.gp64.rdx),
            dh: high_byte(self.gp64.rdx),
        }
    }

    pub fn get_register_value(&self, register: RegisterId) -> (value: u64)
        ensures
            value == self.read(register),
    {
        match register {
            RegisterId::AL => self.gp64.rax & 0xff,
            RegisterId::AH => (self.gp64.rax >> 8) & 0xff,
            RegisterId::BL => self.gp64.rbx & 0xff,
            RegisterId::BH => (self.gp64.rbx >> 8) & 0xff,
            RegisterId::CL => self.gp64.rcx & 0xff,
            RegisterId::CH => (self.gp64.rcx >> 8) & 0xff,
            RegisterId::DL => self.gp64.rdx & 0xff,
            RegisterId::DH => (self.gp64.rdx >> 8) & 0xff,
            RegisterId::AX => self.gp64.rax & 0xffff,
            RegisterId::BX => self.gp64.rbx & 0xffff,
            RegisterId::CX => self.gp64.rcx & 0xffff,
            RegisterId::DX => self.gp64.rdx & 0xffff,
            RegisterId::SI => self.gp64.rsi & 0xffff,
            RegisterId::DI => self.gp64.rdi & 0xffff,
            RegisterId::BP => self.gp64.rbp & 0xffff,
            RegisterId::SP => self.gp64.rsp & 0xffff,
            RegisterId::EAX => self.gp64.rax & 0xffff_ffff,
            RegisterId::EBX => self.gp64.rbx & 0xffff_ffff,
            RegisterId::ECX => self.gp64.rcx & 0xffff_ffff,
            RegisterId::EDX => self.gp64.rdx & 0xffff_ffff,
            RegisterId::ESI => self.gp64.rsi & 0xffff_ffff,
            RegisterId::EDI => self.gp64.rdi & 0xffff_ffff,
            RegisterId::EBP => self.gp64.rbp & 0xffff_ffff,
            RegisterId::ESP => self.gp64.rsp & 0xffff_ffff,
            RegisterId::RAX => self.gp64.rax,
            RegisterId::RBX => self.gp64.rbx,
            RegisterId::RCX => self.gp64.rcx,
            RegisterId::RDX => self.gp64.rdx,
            RegisterId::RSI => self.gp64.rsi,
            RegisterId::RDI => self.gp64.rdi,
            RegisterId::RBP => self.gp64.rbp,
            RegisterId::RSP => self.gp64.rsp,
            RegisterId::R8 => self.gp64.r8,
            RegisterId::R9 => self.gp64.r9,
            RegisterId::R10 => self.gp64.r10,
            RegisterId::R11 => self.gp64.r11,
            RegisterId::R12 => self.gp64.r12,
            RegisterId::R13 => self.gp64.r13,
            RegisterId::R14 => self.gp64.r14,
            RegisterId::R15 => self.gp64.r15,
            RegisterId::CS => self.segment.cs as u64,
            RegisterId::DS => self.segment.ds as u64,
            RegisterId::ES => self.segment.es as u64,
            RegisterId::FS => self.segment.fs as u64,
            RegisterId::GS => self.segment.gs as u64,
            RegisterId::SS => self.segment.ss as u64,
            RegisterId::Unmapped => 0,
        }
    }

    pub fn set_register_value(&mut self, register: RegisterId, value: u64)
        ensures
            *final(self) == old(self).write(register, value),
    {
        match register {
            RegisterId::AL => self.gp64.rax = merged(Part::Low8, self.gp64.rax, value),
            RegisterId::AH => self.gp64.rax = merged(Part::High8, self.gp64.rax, value),
            RegisterId::BL => self.gp64.rbx = merged(Part::Low8, self.gp64.rbx, value),
            RegisterId::BH => self.gp64.rbx = merged(Part::High8, self.gp64.rbx, value),
            RegisterId::CL => self.gp64.rcx = merged(Part::Low8, self.gp64.rcx, value),
            RegisterId::CH => self.gp64.rcx = merged(Part::High8, self.gp64.rcx, value),
            RegisterId::DL => self.gp64.rdx = merged(Part::Low8, self.gp64.rdx, value),
            RegisterId::DH => self.gp64.rdx = merged(Part::High8, self.gp64.rdx, value),
            RegisterId::AX => self.gp64.rax = merged(Part::Low16, self.gp64.rax, value),
            RegisterId::BX => self.gp64.rbx = merged(Part::Low16, self.gp64.rbx, value),
            RegisterId::CX => self.gp64.rcx = merged(Part::Low16, self.gp64.rcx, value),
            RegisterId::DX => self.gp64.rdx = merged(Part::Low16, self.gp64.rdx, value),
            RegisterId::SI => self.gp64.rsi = merged(Part::Low16, self.gp64.rsi, value),
            RegisterId::DI => self.gp64.rdi = merged(Part::Low16, self.gp64.rdi, value),
            RegisterId::BP => self.gp64.rbp = merged(Part::Low16, self.gp64.rbp, value),
            RegisterId::SP => self.gp64.rsp = merged(Part::Low16, self.gp64.rsp, value),
            RegisterId::EAX => self.gp64.rax = merged(Part::Low32, self.gp64.rax, value),
            RegisterId::EBX => self.gp64.rbx = merged(Part::Low32, self.gp64.rbx, value),
            RegisterId::ECX => self.gp64.rcx = merged(Part::Low32, self.gp64.rcx, value),
            RegisterId::EDX => self.gp64.rdx = merged(Part::Low32, self.gp64.rdx, value),
            RegisterId::ESI => self.gp64.rsi = merged(Part::Low32, self.gp64.rsi, value),
            RegisterId::EDI => self.gp64.rdi = merged(Part::Low32, self.gp64.rdi, value),
            RegisterId::EBP => self.gp64.rbp = merged(Part::Low32, self.gp64.rbp, value),
            RegisterId::ESP => self.gp64.rsp = merged(Part::Low32, self.gp64.rsp, value),
            RegisterId::RAX => self.gp64.rax = value,
            RegisterId::RBX => self.gp64.rbx = value,
            RegisterId::RCX => self.gp64.rcx = value,
            RegisterId::RDX => self.gp64.rdx = value,
            RegisterId::RSI => self.gp64.rsi = value,
            RegisterId::RDI => self.gp64.rdi = value,
            RegisterId::RBP => self.gp64.rbp = value,
            RegisterId::RSP => self.gp64.rsp = value,
            RegisterId::R8 => self.gp64.r8 = value,
            RegisterId::R9 => self.gp64.r9 = value,
            RegisterId::R10 => self.gp64.r10 = value,
            RegisterId::R11 => self.gp64.r11 = value,
            RegisterId::R12 => self.gp64.r12 = value,
            RegisterId::R13 => self.gp64.r13 = value,
            RegisterId::R14 => self.gp64.r14 = value,
            RegisterId::R15 => self.gp64.r15 = value,
            RegisterId::CS => self.segment.cs = low_word(value),
            RegisterId::DS => self.segment.ds = low_word(value),
            RegisterId::ES => self.segment.es = low_word(value),
            RegisterId::FS => self.segment.fs = low_word(value),
            RegisterId::GS => self.segment.gs = low_word(value),
            RegisterId::SS => self.segment.ss = low_word(value),
            RegisterId::Unmapped => {},
        }
    }

    pub fn set_al(&mut self, val: u8)
        ensures
            *final(self) == old(self).write(RegisterId::AL, val as u64),
            final(self).read(RegisterId::AX) == (old(self).read(RegisterId::AH) << 8) | (
            val as u64),
    {
        proof {
            lemma_low_byte_write(*self, RegisterId::AL, val);
        }
        self.gp64.rax = merged(Part::Low8, self.gp64.rax, val as u64);
    }

    pub fn set_ah(&mut self, val: u8)
        ensures
            *final(self) == old(self).write(RegisterId::AH, val as u64),
    {
        self.gp64.rax = merged(Part::High8, self.gp64.rax, val as u64);
    }

    pub fn set_bl(&mut self, val: u8)
        ensures
            *final(self) == old(self).write(RegisterId::BL, val as u64),
            final(self).read(RegisterId::BX) == (old(self).read(RegisterId::BH) << 8) | (
            val as u64),
    {
        proof {
            lemma_low_byte_write(*self, RegisterId::BL, val);
        }
        self.gp64.rbx = merged(Part::Low8, self.gp64.rbx, val as u64);
    }

    pub fn set_bh(&mut self, val: u8)
        ensures
            *final(self) == old(self).write(RegisterId::BH, val as u64),
    {
        self.gp64.rbx = merged(Part::High8, self.gp64.rbx, val as u64);
    }

    pub fn set_cl(&mut self, val: u8)
        ensures
            *final(self) == old(self).write(RegisterId::CL, val as u64),
            final(self).read(RegisterId::CX) == (old(self).read(RegisterId::CH) << 8) | (
            val as u64),
    {
        proof {
            lemma_low_byte_write(*self, RegisterId::CL, val);
        }
        self.gp64.rcx = merged(Part::Low8, self.gp64.rcx, val as u64);
    }

    pub fn set_ch(&mut self, val: u8)
        ensures
            *final(self) == old(self).write(RegisterId::CH, val as u64),
    {
        self.gp64.rcx = merged(Part::High8, self.gp64.rcx, val as u64);
    }

    pub fn set_dl(&mut self, val: u8)
        ensures
            *final(self) == old(self).write(RegisterId::DL, val as u64),
            final(self).read(RegisterId::DX) == (old(self).read(RegisterId::DH) << 8) | (
            val as u64),
    {
        proof {
            lemma_low_byte_write(*self, RegisterId::DL, val);
        }
        self.gp64.rdx = merged(Part::Low8, self.gp64.rdx, val as u64);
    }

    pub fn set_dh(&mut self, val: u8)
        ensures
            *final(self) == old(self).write(RegisterId::DH, val as u64),
    {
        self.gp64.rdx = merged(Part::High8, self.gp64.rdx, val as u64);
    }

    pub fn set_ax(&mut self, val: u16)
        ensures
            *final(self) == old(self).write(RegisterId::AX, val as u64),
    {
        self.gp64.rax = merged(Part::Low16, self.gp64.rax, val as u64);
    }

    pub fn set_bx(&mut self, val: u16)
        ensures
            *final(self) == old(self).write(RegisterId::BX, val as u64),
    {
        self.gp64.rbx = merged(Part::Low16, self.gp64.rbx, val as u64);
    }

    pub fn set_cx(&mut self, val: u16)
        ensures
            *final(self) == old(self).write(RegisterId::CX, val as u64),
    {
        self.gp64.rcx = merged(Part::Low16, self.gp64.rcx, val as u64);
    }

    pub fn set_dx(&mut self, val: u16)
        ensures
            *final(self) == old(self).write(RegisterId::DX, val as u64),
    {
        self.gp64.rdx = merged(Part::Low16, self.gp64.rdx, val as u64);
    }

    pub fn set_si(&mut self, val: u16)
        ensures
            *final(self) == old(self).write(RegisterId::SI, val as u64),
    {
        self.gp64.rsi = merged(Part::Low16, self.gp64.rsi, val as u64);
    }

    pub fn set_di(&mut self, val: u16)
        ensures
            *final(self) == old(self).write(RegisterId::DI, val as u64),
    {
        self.gp64.rdi = merged(Part::Low16, self.gp64.rdi, val as u64);
    }

    pub fn set_bp(&mut self, val: u16)
        ensures
            *final(self) == old(self).write(RegisterId::BP, val as u64),
    {
        self.gp64.rbp = merged(Part::Low16, self.gp64.rbp, val as u64);
    }

    pub fn set_sp(&mut self, val: u16)
        ensures
            *final(self) == old(self).write(RegisterId::SP, val as u64),
    {
        self.gp64.rsp = merged(Part::Low16, self.gp64.rsp, val as u64);
    }

    pub fn set_eax(&mut self, val: u32)
        ensures
            *final(self) == old(self).write(RegisterId::EAX, val as u64),
            final(self).read(RegisterId::RAX) == val,
    {
        proof {
            lemma_dword_write_zero_extends(*self, RegisterId::EAX, val);
        }
        self.gp64.rax = merged(Part::Low32, self.gp64.rax, val as u64);
    }

    pub fn set_ebx(&mut self, val: u32)
        ensures
            *final(self) == old(self).write(RegisterId::EBX, val as u64),
            final(self).read(RegisterId::RBX) == val,
    {
        proof {
            lemma_dword_write_zero_extends(*self, RegisterId::EBX, val);
        }
        self.gp64.rbx = merged(Part::Low32, self.gp64.rbx, val as u64);
    }

    pub fn set_ecx(&mut self, val: u32)
        ensures
            *final(self) == old(self).write(RegisterId::ECX, val as u64),
            final(self).read(RegisterId::RCX) == val,
    {
        proof {
            lemma_dword_write_zero_extends(*self, RegisterId::ECX, val);
        }
        self.gp64.rcx = merged(Part::Low32, self.gp64.rcx, val as u64);
    }

    pub fn set_edx(&mut self, val: u32)
        ensures
            *final(self) == old(self).write(RegisterId::EDX, val as u64),
            final(self).read(RegisterId::RDX) == val,
    {
        proof {
            lemma_dword_write_zero_extends(*self, RegisterId::EDX, val);
        }
        self.gp64.rdx = merged(Part::Low32, self.gp64.rdx, val as u64);
    }

    pub fn set_esi(&mut self, val: u32)
        ensures
            *final(self) == old(self).write(RegisterId::ESI, val as u64),
            final(self).read(RegisterId::RSI) == val,
    {
        proof {
            lemma_dword_write_zero_extends(*self, RegisterId::ESI, val);
        }
        self.gp64.rsi = merged(Part::Low32, self.gp64.rsi, val as u64);
    }

    pub fn set_edi(&mut self, val: u32)
        ensures
            *final(self) == old(self).write(RegisterId::EDI, val as u64),
            final(self).read(RegisterId::RDI) == val,
    {
        proof {
            lemma_dword_write_zero_extends(*self, RegisterId::EDI, val);
        }
        self.gp64.rdi = merged(Part::Low32, self.gp64.rdi, val as u64);
    }

    pub fn set_ebp(&mut self, val: u32)
        ensures
            *final(self) == old(self).write(RegisterId::EBP, val as u64),
            final(self).read(RegisterId::RBP) == val,
    {
        proof {
            lemma_dword_write_zero_extends(*self, RegisterId::EBP, val);
        }
        self.gp64.rbp = merged(Part::Low32, self.gp64.rbp, val as u64);
    }

    pub fn set_esp(&mut self, val: u32)
        ensures
            *final(self) == old(self).write(RegisterId::ESP, val as u64),
            final(self).read(RegisterId::RSP) == val,
    {
        proof {
            lemma_dword_write_zero_extends(*self, RegisterId::ESP, val);
        }
        self.gp64.rsp = merged(Part::Low32, self.gp64.rsp, val as u64);
    }

    pub fn set_rax(&mut self, val: u64)
        ensures
            *final(self) == old(self).write(RegisterId::RAX, val),
    {
        self.gp64.rax = val;
    }

    pub fn set_rbx(&mut self, val: u64)
        ensures
            *final(self) == old(self).write(RegisterId::RBX, val),
    {
        self.gp64.rbx = val;
    }

    pub fn set_rcx(&mut self, val: u64)
        ensures
            *final(self) == old(self).write(RegisterId::RCX, val),
    {
        self.gp64.rcx = val;
    }

    pub fn set_rdx(&mut self, val: u64)
        ensures
            *final(self) == old(self).write(RegisterId::RDX, val),
    {
        self.gp64.rdx = val;
    }

    pub fn set_rsi(&mut self, val: u64)
        ensures
            *final(self) == old(self).write(RegisterId::RSI, val),
    {
        self.gp64.rsi = val;
    }

    pub fn set_rdi(&mut self, val: u64)
        ensures
            *final(self) == old(self).write(RegisterId::RDI, val),
    {
        self.gp64.rdi = val;
    }

    pub fn set_rbp(&mut self, val: u64)
        ensures
            *final(self) == old(self).write(RegisterId::RBP, val),
    {
        self.gp64.rbp = val;
    }

    pub fn set_rsp(&mut self, val: u64)
        ensures
            *final(self) == old(self).write(RegisterId::RSP, val),
    {
        self.gp64.rsp = val;
    }

    pub fn set_r8(&mut self, val: u64)
        ensures
            *final(self) == old(self).write(RegisterId::R8, val),
    {
        self.gp64.r8 = val;
    }

    pub fn set_r9(&mut self, val: u64)
        ensures
            *final(self) == old(self).write(RegisterId::R9, val),
    {
        self.gp64.r9 = val;
    }

    pub fn set_r10(&mut self, val: u64)
        ensures
            *final(self) == old(self).write(RegisterId::R10, val),
    {
        self.gp64.r10 = val;
    }

    pub fn set_r11(&mut self, val: u64)
        ensures
            *final(self) == old(self).write(RegisterId::R11, val),
    {
        self.gp64.r11 = val;
    }

    pub fn set_r12(&mut self, val: u64)
        ensures
            *final(self) == old(self).write(RegisterId::R12, val),
    {
        self.gp64.r12 = val;
    }

    pub fn set_r13(&mut self, val: u64)
        ensures
            *final(self) == old(self).write(RegisterId::R13, val),
    {
        self.gp64.r13 = val;
    }

    pub fn set_r14(&mut self, val: u64)
        ensures
            *final(self) == old(self).write(RegisterId::R14, val),
    {
        self.gp64.r14 = val;
    }

    pub fn set_r15(&mut self, val: u64)
        ensures
            *final(self) == old(self).write(RegisterId::R15, val),
    {
        self.gp64.r15 = val;
    }

    /// Writes through `dest` if it names an 8-bit register; changes nothing otherwise.
    pub fn set_u8(&mut self, dest: RegisterId, val: u8)
        ensures
            *final(self) == if dest.is_byte() {
                old(self).write(dest, val as u64)
            } else {
                *old(self)
            },
    {
        match dest {
            RegisterId::AL => self.set_al(val),
            RegisterId::AH => self.set_ah(val),
            RegisterId::BL => self.set_bl(val),
            RegisterId::BH => self.set_bh(val),
            RegisterId::CL => self.set_cl(val),
            RegisterId::CH => self.set_ch(val),
            RegisterId::DL => self.set_dl(val),
            RegisterId::DH => self.set_dh(val),
            _ => {},
        }
    }

    /// Reads through `val` if it names an 8-bit register; gives 0 otherwise.
    pub fn get_u8(&self, val: RegisterId) -> (value: u8)
        ensures
            value == if val.is_byte() {
                self.read(val)
            } else {
                0
            },
    {
        match val {
            RegisterId::AL => low_byte(self.gp64.rax),
            RegisterId::AH => high_byte(self.gp64.rax),
            RegisterId::BL => low_byte(self.gp64.rbx),
            RegisterId::BH => high_byte(self.gp64.rbx),
            RegisterId::CL => low_byte(self.gp64.rcx),
            RegisterId::CH => high_byte(self.gp64.rcx),
            RegisterId::DL => low_byte(self.gp64.rdx),
            RegisterId::DH => high_byte(self.gp64.rdx),
            _ => 0,
        }
    }

    /// Writes through `dest` if it names a 16-bit general-purpose register;
    /// changes nothing otherwise.
    pub fn set_u16(&mut self, dest: RegisterId, val: u16)
        ensures
            *final(self) == if dest.is_word() {
                old(self).write(dest, val as u64)
            } else {
                *old(self)
            },
    {
        match dest {
            RegisterId::AX => self.set_ax(val),
            RegisterId::BX => self.set_bx(val),
            RegisterId::CX => self.set_cx(val),
            RegisterId::DX => self.set_dx(val),
            RegisterId::SI => self.set_si(val),
            RegisterId::DI => self.set_di(val),
            RegisterId::BP => self.set_bp(val),
            RegisterId::SP => self.set_sp(val),
            _ => {},
        }
    }

    /// Reads through `val` if it names a 16-bit general-purpose register;
    /// gives 0 otherwise.
    pub fn get_u16(&self, val: RegisterId) -> (value: u16)
        ensures
            value == if val.is_word() {
                self.read(val)
            } else {
                0
            },
    {
        match val {
            RegisterId::AX => low_word(self.gp64.rax),
            RegisterId::BX => low_word(self.gp64.rbx),
            RegisterId::CX => low_word(self.gp64.rcx),
            RegisterId::DX => low_word(self.gp64.rdx),
            RegisterId::SI => low_word(self.gp64.rsi),
            RegisterId::DI => low_word(self.gp64.rdi),
            RegisterId::BP => low_word(self.gp64.rbp),
            RegisterId::SP => low_word(self.gp64.rsp),
            _ => 0,
        }
    }

    /// Writes through `dest` if it names a 32-bit register; changes nothing otherwise.
    pub fn set_u32(&mut self, dest: RegisterId, val: u32)
        ensures
            *final(self) == if dest.is_dword() {
                old(self).write(dest, val as u64)
            } else {
                *old(self)
            },
    {
        match dest {
            RegisterId::EAX => self.set_eax(val),
            RegisterId::EBX => self.set_ebx(val),
            RegisterId::ECX => self.set_ecx(val),
            RegisterId::EDX => self.set_edx(val),
            RegisterId::ESI => self.set_esi(val),
            RegisterId::EDI => self.set_edi(val),
            RegisterId::EBP => self.set_ebp(val),
            RegisterId::ESP => self.set_esp(val),
            _ => {},
        }
    }

    /// Reads through `val` if it names a 32-bit register; gives 0 otherwise.
    pub fn get_u32(&self, val: RegisterId) -> (value: u32)
        ensures
            value == if val.is_dword() {
                self.read(val)
            } else {
                0
            },
    {
        match val {
            RegisterId::EAX => low_dword(self.gp64.rax),
            RegisterId::EBX => low_dword(self.gp64.rbx),
            RegisterId::ECX => low_dword(self.gp64.rcx),
            RegisterId::EDX => low_dword(self.gp64.rdx),
            RegisterId::ESI => low_dword(self.gp64.rsi),
            RegisterId::EDI => low_dword(self.gp64.rdi),
            RegisterId::EBP => low_dword(self.gp64.rbp),
            RegisterId::ESP => low_dword(self.gp64.rsp),
            _ => 0,
        }
    }

    /// Writes through `dest` if it names a 64-bit register; changes nothing otherwise.
    pub fn set_u64(&mut self, dest: RegisterId, val: u64)
        ensures
            *final(self) == if dest.is_qword() {
                old(self).write(dest, val)
            } else {
                *old(self)
            },
    {
        match dest {
            RegisterId::RAX => self.set_rax(val),
            RegisterId::RBX => self.set_rbx(val),
            RegisterId::RCX => self.set_rcx(val),
            RegisterId::RDX => self.set_rdx(val),
            RegisterId::RSI => self.set_rsi(val),
            RegisterId::RDI => self.set_rdi(val),
            RegisterId::RBP => self.set_rbp(val),
            RegisterId::RSP => self.set_rsp(val),
            RegisterId::R8 => self.set_r8(val),
            RegisterId::R9 => self.set_r9(val),
            RegisterId::R10 => self.set_r10(val),
            RegisterId::R11 => self.set_r11(val),
            RegisterId::R12 => self.set_r12(val),
            RegisterId::R13 => self.set_r13(val),
            RegisterId::R14 => self.set_r14(val),
            RegisterId::R15 => self.set_r15(val),
            _ => {},
        }
    }

    /// Reads through `dest` if it names a 64-bit register; gives 0 otherwise.
    pub fn get_u64(&mut self, dest: RegisterId, val: u64) -> (value: u64)
        ensures
            *final(self) == *old(self),
            value == if dest.is_qword() {
                old(self).read(dest)
            } else {
                0
            },
    {
        match dest {
            RegisterId::RAX => self.gp64.rax,
            RegisterId::RBX => self.gp64.rbx,
            RegisterId::RCX => self.gp64.rcx,
            RegisterId::RDX => self.gp64.rdx,
            RegisterId::RSI => self.gp64.rsi,
            RegisterId::RDI => self.gp64.rdi,
            RegisterId::RBP => self.gp64.rbp,
            RegisterId::RSP => self.gp64.rsp,
            RegisterId::R8 => self.gp64.r8,
            RegisterId::R9 => self.gp64.r9,
            RegisterId::R10 => self.gp64.r10,
            RegisterId::R11 => self.gp64.r11,
            RegisterId::R12 => self.gp64.r12,
            RegisterId::R13 => self.gp64.r13,
            RegisterId::R14 => self.gp64.r14,
            RegisterId::R15 => self.gp64.r15,
            _ => 0,
        }
    }
}

/// The bits of `value` that a write through `part` stores.
pub open spec fn truncate(part: Part, value: u64) -> u64 {
    match part {
        Part::Low8 | Part::High8 => value & 0xff,
        Part::Low16 => value & 0xffff,
        Part::Low32 => value & 0xffff_ffff,
        Part::Full => value,
    }
}

/// A read through the name just written gives the value written, cut to
/// the width of the name.
pub proof fn lemma_read_after_write(
    registers: GeneralPurposeRegisters,
    register: RegisterId,
    value: u64,
)
    requires
        register != RegisterId::Unmapped,
    ensures
        registers.write(register, value).read(register) == if register.is_general() {
            truncate(register.part(), value)
        } else {
            value & 0xffff
        },
{
    if register.is_general() {
        lemma_merge_then_project(registers.gp64.cell(register.cell()), value);
    } else {
        assert(value & 0xffff <= 0xffff) by (bit_vector);
    }
}

/// A write through a name of one cell leaves every other cell and every
/// segment register as it was, and a write to a segment register leaves all
/// other registers as they were.
pub proof fn lemma_write_keeps_other_cells(
    registers: GeneralPurposeRegisters,
    written: RegisterId,
    value: u64,
    other: RegisterId,
)
    requires
        written.cell() != other.cell(),
    ensures
        registers.write(written, value).read(other) == registers.read(other),
{
}

/// The bits of a cell that a part covers.
pub open spec fn mask(part: Part) -> u64 {
    match part {
        Part::Low8 => 0xff,
        Part::High8 => 0xff00,
        Part::Low16 => 0xffff,
        Part::Low32 => 0xffff_ffff,
        Part::Full => 0xffff_ffff_ffff_ffff,
    }
}

/// A write through an 8-bit or a 16-bit name changes no bit of the cell
/// outside the part that the name stands for: every wider view keeps the
/// bits that the narrower one does not cover.
pub proof fn lemma_narrow_write_keeps_other_bits(
    registers: GeneralPurposeRegisters,
    register: RegisterId,
    value: u64,
)
    requires
        register.is_byte() || register.is_word(),
    ensures
        registers.write(register, value).read(register.cell()) & !mask(register.part())
            == registers.read(register.cell()) & !mask(register.part()),
{
    lemma_merge_keeps_other_bits(registers.gp64.cell(register.cell()), value);
}

proof fn lemma_merge_keeps_other_bits(cell: u64, value: u64)
    by (bit_vector)
    ensures
        ((cell & !0xffu64) | (value & 0xff)) & !0xffu64 == cell & !0xffu64,
        ((cell & !0xff00u64) | ((value & 0xff) << 8)) & !0xff00u64 == cell & !0xff00u64,
        ((cell & !0xffffu64) | (value & 0xffff)) & !0xffffu64 == cell & !0xffffu64,
{
}

/// After a write through a low-byte name (`AL`, `BL`, `CL`, `DL`) the high
/// byte of the cell is as before, the 16-bit view is the old high byte above
/// the new low byte, and each wider view is its old upper half above the
/// next narrower view.
pub proof fn lemma_low_byte_write(registers: GeneralPurposeRegisters, low: RegisterId, value: u8)
    requires
        low.is_general(),
        low.part() == Part::Low8,
    ensures
        ({
            let cell = low.cell();
            let high = RegisterId::named(cell, Part::High8);
            let word = RegisterId::named(cell, Part::Low16);
            let dword = RegisterId::named(cell, Part::Low32);
            let after = registers.write(low, value as u64);
            &&& after.read(low) == value
            &&& after.read(high) == registers.read(high)
            &&& after.read(word) == (registers.read(high) << 8) | (value as u64)
            &&& after.read(dword) == (registers.read(dword) & 0xffff_0000) | after.read(word)
            &&& after.read(cell) == (registers.read(cell) & 0xffff_ffff_0000_0000) | after.read(
                dword,
            )
        }),
{
    lemma_low_byte_merge(registers.gp64.cell(low.cell()), value);
}

/// After a write through a 32-bit name the whole cell holds exactly the
/// value written: the upper 32 bits are 0, whatever they were.
pub proof fn lemma_dword_write_zero_extends(
    registers: GeneralPurposeRegisters,
    register: RegisterId,
    value: u32,
)
    requires
        register.is_dword(),
    ensures
        registers.write(register, value as u64).read(register.cell()) == value,
        registers.write(register, value as u64).read(register) == value,
{
    assert((value as u64) & 0xffff_ffff == value as u64) by (bit_vector);
}

proof fn lemma_merge_then_project(cell: u64, value: u64)
    by (bit_vector)
    ensures
        ((cell & !0xffu64) | (value & 0xff)) & 0xff == value & 0xff,
        (((cell & !0xff00u64) | ((value & 0xff) << 8)) >> 8) & 0xff == value & 0xff,
        ((cell & !0xffffu64) | (value & 0xffff)) & 0xffff == value & 0xffff,
        (value & 0xffff_ffff) & 0xffff_ffff == value & 0xffff_ffff,
{
}

proof fn lemma_low_byte_merge(cell: u64, value: u8)
    by (bit_vector)
    ensures
        ({
            let after = (cell & !0xffu64) | ((value as u64) & 0xff);
            &&& after & 0xff == value as u64
            &&& (after >> 8) & 0xff == (cell >> 8) & 0xff
            &&& after & 0xffff == (((cell >> 8) & 0xff) << 8) | (value as u64)
            &&& after & 0xffff_ffff == ((cell & 0xffff_ffff) & 0xffff_0000) | (after & 0xffff)
            &&& after == (cell & 0xffff_ffff_0000_0000) | (after & 0xffff_ffff)
        }),
{
}

/// Every part of a zero cell reads 0.
proof fn lemma_project_zero()
    ensures
        forall|part: Part| project(part, 0) == 0,
{
    assert(0u64 & 0xff == 0 && (0u64 >> 8) & 0xff == 0 && 0u64 & 0xffff == 0 && 0u64 & 0xffff_ffff
        == 0) by (bit_vector);
}

} // verus!
