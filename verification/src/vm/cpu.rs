//! The processor: state, operand access, interrupts and the fetch-execute
//! step.

use crate::ast::Bits;
use crate::vm::bits::{lemma_low_bytes, low_byte, low_dword, low_word};
use crate::vm::decode::{decode, operand_width};
use crate::vm::flags::{FlagsRegister, INTERRUPT};
use crate::vm::instruction::{Instruction, Mnemonic, OperandKind};
use crate::vm::machine::{
    console_text, first_blank, translation, Effect, Machine, MAX_INSTRUCTION_LENGTH, RESET_OFFSET,
    RESET_SEGMENT, STACK_TOP, TELETYPE_OUTPUT, VGA_BASE, VGA_COLUMNS, VGA_ROWS, VIDEO_SERVICES,
};
use crate::vm::mem::{store_le, Memory, HUNDRED_MO};
use crate::vm::register::{GeneralPurposeRegisters, InstructionPointer, RegisterId};
use crate::vm::segment::GDT;
use crate::vm::{Mode, VmError};
use vstd::prelude::*;

verus! {

/// The physical address of `offset` in the segment with the given value.
/// Fails with `UnsupportedTranslation` exactly in long mode.
pub fn translate(mode: Mode, segment_value: u32, offset: u32) -> (physical: Result<u64, VmError>)
    ensures
        physical == translation(mode, segment_value, offset),
{
    match mode {
        Mode::Real => Ok(segment_value as u64 * 16 + offset as u64),
        Mode::Protected => Ok(segment_value as u64 + offset as u64),
        Mode::Long => Err(VmError::UnsupportedTranslation),
    }
}

/// A processor with its memory.
pub struct Cpu {
    mode: Mode,
    mem: Memory,
    gpr: GeneralPurposeRegisters,
    ip: InstructionPointer,
    flags: FlagsRegister,
    gdt: GDT,
    halted: bool,
}

impl View for Cpu {
    type V = Machine;

    closed spec fn view(&self) -> Machine {
        Machine {
            mode: self.mode,
            mem: self.mem@,
            gpr: self.gpr,
            rip: self.ip.rip,
            flags: self.flags,
            gdt: self.gdt,
            halted: self.halted,
        }
    }
}

impl Cpu {
    /// A new processor in the given mode with `size` bytes of memory.
    pub fn with_memory(mode: Mode, size: usize) -> (cpu: Self)
        ensures
            cpu@.is_new(mode, size as nat),
    {
        Cpu {
            mode,
            mem: Memory::new(size),
            gpr: GeneralPurposeRegisters::new(),
            ip: InstructionPointer { rip: 0 },
            flags: FlagsRegister { rflags: 0, eflags: 0, flags: 0 },
            gdt: GDT::initial(),
            halted: false,
        }
    }

    /// A new processor in the given mode with 100 MiB of memory.
    pub fn with_mode(mode: Mode) -> (cpu: Self)
        ensures
            cpu@.is_new(mode, HUNDRED_MO as nat),
    {
        Self::with_memory(mode, HUNDRED_MO)
    }

    /// A new processor in real mode with 100 MiB of memory.
    pub fn new() -> (cpu: Self)
        ensures
            cpu@.is_new(Mode::Real, HUNDRED_MO as nat),
    {
        Self::with_mode(Mode::Real)
    }

    /// The mode.
    pub fn mode(&self) -> (mode: Mode)
        ensures
            mode == self@.mode,
    {
        self.mode
    }

    /// The registers.
    pub fn gpr(&self) -> (gpr: &GeneralPurposeRegisters)
        ensures
            *gpr == self@.gpr,
    {
        &self.gpr
    }

    /// The registers, to change them.
    pub fn gpr_mut(&mut self) -> (gpr: &mut GeneralPurposeRegisters)
        ensures
            *gpr == old(self)@.gpr,
            final(self)@ == (Machine { gpr: *final(gpr), ..old(self)@ }),
    {
        &mut self.gpr
    }

    /// Whether the mode is real mode.
    pub fn is_real(&self) -> (yes: bool)
        ensures
            yes == (self@.mode == Mode::Real),
    {
        self.mode == Mode::Real
    }

    /// Whether the mode is protected mode.
    pub fn is_protected(&self) -> (yes: bool)
        ensures
            yes == (self@.mode == Mode::Protected),
    {
        self.mode == Mode::Protected
    }

    /// The default operand width of the mode.
    pub fn get_bit(&self) -> (width: Bits)
        ensures
            width == operand_width(self@.mode),
    {
        match self.mode {
            Mode::Real => Bits::Bit16,
            Mode::Protected => Bits::Bit32,
            Mode::Long => Bits::Bit64,
        }
    }

    /// The physical address of `offset` in the segment that the prefix
    /// names. Fails with `UnsupportedTranslation` exactly in long mode.
    pub fn segmentation_to_physical(&self, seg: Option<RegisterId>, offset: u32) -> (physical:
        Result<u64, VmError>)
        ensures
            physical == translation(self@.mode, self@.segment_value(seg), offset),
    {
        let base: u32 = match seg {
            None => 0,
            Some(register) => low_dword(self.gpr.get_register_value(register)),
        };
        translate(self.mode, base, offset)
    }

    /// An address that lies in memory, as an index.
    fn index(&self, addr: u64) -> (at: usize)
        requires
            addr <= self@.mem.len(),
        ensures
            at == addr,
    {
        proof {
            self.mem.lemma_len_bounded();
        }
        addr as usize
    }

    /// Whether `count` bytes from `addr` on lie in memory.
    fn in_bounds(&self, addr: u64, count: usize) -> (inside: bool)
        ensures
            inside == (addr + count <= self@.mem.len()),
            inside ==> addr + count <= usize::MAX,
    {
        let len = self.mem.len();
        count <= len && addr <= (len - count) as u64
    }

    /// The displacement of the memory operand in the width that the mode
    /// selects.
    fn displacement(&self, instruction: Instruction) -> (displacement: u64)
        ensures
            displacement == self@.displacement(instruction),
    {
        match self.mode {
            Mode::Long => instruction.memory_displacement64,
            _ => instruction.memory_displacement32 as u64,
        }
    }

    /// The physical address of the memory operand.
    fn operand_address(&self, instruction: Instruction) -> (addr: Result<u64, VmError>)
        ensures
            addr == self@.operand_address(instruction),
    {
        let offset = low_dword(self.displacement(instruction));
        self.segmentation_to_physical(instruction.segment_prefix, offset)
    }

    /// The value of default operand width at `addr`.
    fn load(&self, addr: u64) -> (value: Result<u64, VmError>)
        ensures
            value == self@.load(addr),
    {
        match self.mode {
            Mode::Real => if self.in_bounds(addr, 2) {
                Ok(self.mem.read_u16(addr as usize) as u64)
            } else {
                Err(VmError::OutOfBounds)
            },
            Mode::Protected => if self.in_bounds(addr, 4) {
                Ok(self.mem.read_u32(addr as usize) as u64)
            } else {
                Err(VmError::OutOfBounds)
            },
            Mode::Long => Err(VmError::UnsupportedTranslation),
        }
    }

    /// The value of an operand of the given kind.
    fn operand_value(
        &self,
        kind: OperandKind,
        register: RegisterId,
        instruction: Instruction,
    ) -> (value: Result<u64, VmError>)
        ensures
            value == self@.operand_value(kind, register, instruction),
    {
        match kind {
            OperandKind::Register => Ok(self.gpr.get_register_value(register)),
            OperandKind::Memory => {
                let addr = self.operand_address(instruction)?;
                self.load(addr)
            },
            OperandKind::Immediate8 => Ok(instruction.immediate8 as u64),
            OperandKind::Immediate16 => Ok(instruction.immediate16 as u64),
            OperandKind::Immediate32 => Ok(instruction.immediate32 as u64),
            OperandKind::Immediate64 => Ok(instruction.immediate64),
            OperandKind::Other => Ok(0),
        }
    }

    /// The address that the first operand names where it is a memory
    /// operand: base register plus displacement, without a segment. Fails
    /// with `OutOfBounds` exactly when the sum is no 64-bit address.
    pub fn get_op0addr(&mut self, instruction: Instruction) -> (addr: Result<Option<u64>, VmError>)
        ensures
            final(self)@ == old(self)@,
            addr == old(self)@.operand0_address(instruction),
    {
        if instruction.op0_kind != OperandKind::Memory {
            Ok(None)
        } else {
            let displacement = self.displacement(instruction);
            let base = match instruction.memory_base {
                None => 0,
                Some(register) => self.gpr.get_register_value(register),
            };
            match base.checked_add(displacement) {
                Some(addr) => Ok(Some(addr)),
                None => Err(VmError::OutOfBounds),
            }
        }
    }

    /// The value of the first operand. Fails with `UnsupportedTranslation`
    /// for a memory operand in long mode and with `OutOfBounds` for one
    /// that does not lie in memory.
    pub fn get_op0value(&mut self, instruction: Instruction) -> (value: Result<u64, VmError>)
        ensures
            final(self)@ == old(self)@,
            value == old(self)@.operand0(instruction),
    {
        self.operand_value(instruction.op0_kind, instruction.op0_register, instruction)
    }

    /// The value of the second operand. Fails with `UnsupportedTranslation`
    /// for a memory operand in long mode and with `OutOfBounds` for one
    /// that does not lie in memory.
    pub fn get_op1value(&mut self, instruction: Instruction) -> (value: Result<u64, VmError>)
        ensures
            final(self)@ == old(self)@,
            value == old(self)@.operand1(instruction),
    {
        self.operand_value(instruction.op1_kind, instruction.op1_register, instruction)
    }

    /// Stores `value` at `addr` in the default operand width of the mode,
    /// least significant byte first. Fails with `OutOfBounds`, and stores
    /// nothing, exactly when the bytes do not all lie in memory.
    pub fn write_to_mem(&mut self, addr: u64, value: u64) -> (stored: Result<(), VmError>)
        ensures
            match old(self)@.store(addr, value) {
                Ok(state) => stored is Ok && final(self)@ == state,
                Err(error) => stored == Err::<(), VmError>(error) && final(self)@ == old(self)@,
            },
    {
        proof {
            lemma_low_bytes(value);
            reveal_with_fuel(store_le, 9);
        }
        match self.mode {
            Mode::Real => {
                if !self.in_bounds(addr, 2) {
                    return Err(VmError::OutOfBounds);
                }
                self.mem.write_u16(addr as usize, low_word(value));
            },
            Mode::Protected => {
                if !self.in_bounds(addr, 4) {
                    return Err(VmError::OutOfBounds);
                }
                self.mem.write_u32(addr as usize, low_dword(value));
            },
            Mode::Long => {
                if !self.in_bounds(addr, 8) {
                    return Err(VmError::OutOfBounds);
                }
                self.mem.write_u64(addr as usize, value);
            },
        }
        Ok(())
    }

    /// Writes `val` to the first operand: to a register, or to memory at
    /// the operand's address. In long mode a memory operand takes nothing.
    /// Fails with `OutOfBounds`, and writes nothing, exactly when the
    /// operand is memory that does not all lie in memory.
    pub fn write_op0(&mut self, instruction: Instruction, val: u64) -> (stored: Result<(), VmError>)
        ensures
            match old(self)@.store_operand0(instruction, val) {
                Ok(state) => stored is Ok && final(self)@ == state,
                Err(error) => stored == Err::<(), VmError>(error) && final(self)@ == old(self)@,
            },
    {
        match instruction.op0_kind {
            OperandKind::Register => {
                self.gpr.set_register_value(instruction.op0_register, val);
                Ok(())
            },
            OperandKind::Memory => {
                if self.mode == Mode::Long {
                    Ok(())
                } else {
                    let addr = self.operand_address(instruction)?;
                    self.write_to_mem(addr, val)
                }
            },
            _ => Ok(()),
        }
    }

    /// Dispatches a software interrupt. With interrupts disabled nothing
    /// happens. Vector 0x10 with 0x0e in `AH` puts the byte in `AL` at the
    /// first zero cell of the video buffer; it fails with `OutOfBounds`,
    /// and changes nothing, where memory has no such cell. Every other
    /// vector and service does nothing.
    pub fn handle_interrupt(&mut self, vector: u8) -> (handled: Result<(), VmError>)
        ensures
            final(self)@ == old(self)@.interrupt(vector).state,
            match handled {
                Ok(_) => old(self)@.interrupt(vector).result == Ok::<Effect, VmError>(
                    Effect::Executed,
                ),
                Err(error) => old(self)@.interrupt(vector).result == Err::<Effect, VmError>(error),
            },
    {
        if !self.flags.is_interrupt() {
            return Ok(());
        }
        if vector != VIDEO_SERVICES || self.gpr.get_register_value(RegisterId::AH)
            != TELETYPE_OUTPUT {
            return Ok(());
        }
        let len = self.mem.len();
        if len < 2 || VGA_BASE > (len - 2) as u64 {
            return Err(VmError::OutOfBounds);
        }
        let mut at: usize = VGA_BASE as usize;
        while at <= len - 2
            invariant
                len == self.mem@.len(),
                len >= 2,
                VGA_BASE <= at,
                first_blank(self.mem@, VGA_BASE as int) == first_blank(self.mem@, at as int),
                *self == *old(self),
                self.flags.has(INTERRUPT),
                vector == VIDEO_SERVICES,
                self.gpr.read(RegisterId::AH) == TELETYPE_OUTPUT,
            decreases len - at,
        {
            if self.mem.read_u16(at) == 0 {
                let character = low_byte(self.gpr.get_register_value(RegisterId::AL));
                self.mem.write_u8(at, character);
                return Ok(());
            }
            at += 1;
        }
        Err(VmError::OutOfBounds)
    }

    /// Carries out one instruction and reports what it did. Where it
    /// fails, the state is as before.
    pub fn run_instr(&mut self, instr: Instruction) -> (report: Result<Effect, VmError>)
        ensures
            final(self)@ == old(self)@.execute(instr).state,
            report == old(self)@.execute(instr).result,
    {
        match instr.mnemonic {
            Mnemonic::Int => {
                self.handle_interrupt(instr.immediate8)?;
                Ok(Effect::Executed)
            },
            Mnemonic::Lgdt => {
                match self.get_op0addr(instr)? {
                    None => Err(VmError::DecodeFailure),
                    Some(addr) => {
                        if !self.in_bounds(addr, 6) {
                            return Err(VmError::OutOfBounds);
                        }
                        let at = self.index(addr);
                        let limit = self.mem.read_u16(at);
                        let base = self.mem.read_u32(at + 2);
                        Ok(Effect::DescriptorTable { limit, base })
                    },
                }
            },
            Mnemonic::Cli => {
                self.flags.no_interrupt();
                Ok(Effect::Executed)
            },
            Mnemonic::Cmp => {
                let op1 = self.get_op1value(instr)?;
                let op0 = self.get_op0value(instr)?;
                if op0 == op1 {
                    self.flags.zero().no_carry();
                } else if op0 < op1 {
                    self.flags.no_zero().carry();
                } else {
                    self.flags.no_zero().no_carry();
                }
                Ok(Effect::Executed)
            },
            Mnemonic::Hlt => {
                self.halted = true;
                Ok(Effect::Halt)
            },
            Mnemonic::Jmp => {
                let op0 = self.get_op0value(instr)?;
                self.ip.rip = op0;
                Ok(Effect::Jump(op0))
            },
            Mnemonic::Je => {
                if self.flags.is_zero() {
                    let op0 = self.get_op0value(instr)?;
                    self.ip.rip = op0;
                }
                Ok(Effect::Executed)
            },
            Mnemonic::Jne => {
                if !self.flags.is_zero() {
                    let op0 = self.get_op0value(instr)?;
                    self.ip.rip = op0;
                }
                Ok(Effect::Executed)
            },
            Mnemonic::Mov => {
                let op1 = self.get_op1value(instr)?;
                self.write_op0(instr, op1)?;
                Ok(Effect::Executed)
            },
            Mnemonic::Add => {
                let op1 = self.get_op1value(instr)?;
                let op0 = self.get_op0value(instr)?;
                self.write_op0(instr, op0.wrapping_add(op1))?;
                Ok(Effect::Executed)
            },
            Mnemonic::Sub => {
                let op1 = self.get_op1value(instr)?;
                let op0 = self.get_op0value(instr)?;
                self.write_op0(instr, op0.wrapping_sub(op1))?;
                Ok(Effect::Executed)
            },
            Mnemonic::And => {
                let op1 = self.get_op1value(instr)?;
                let op0 = self.get_op0value(instr)?;
                self.write_op0(instr, op0 & op1)?;
                Ok(Effect::Executed)
            },
            Mnemonic::Or => {
                let op1 = self.get_op1value(instr)?;
                let op0 = self.get_op0value(instr)?;
                self.write_op0(instr, op0 | op1)?;
                Ok(Effect::Executed)
            },
            Mnemonic::Other(code) => Ok(Effect::Unhandled(code)),
        }
    }

    /// The bytes at the instruction pointer: fifteen of them, or as many as
    /// memory has left. Fails with `OutOfBounds` exactly when the
    /// instruction pointer lies beyond the last byte of memory.
    pub fn fetch(&self) -> (window: Result<Vec<u8>, VmError>)
        ensures
            match window {
                Ok(bytes) => self@.rip < self@.mem.len() && bytes@ == self@.window(),
                Err(error) => self@.rip >= self@.mem.len() && error == VmError::OutOfBounds,
            },
    {
        let len = self.mem.len();
        if self.ip.rip >= len as u64 {
            return Err(VmError::OutOfBounds);
        }
        let start = self.ip.rip as usize;
        let left = len - start;
        let count = if left < MAX_INSTRUCTION_LENGTH {
            left
        } else {
            MAX_INSTRUCTION_LENGTH
        };
        Ok(self.mem.read_many_u8(start, count))
    }

    /// Moves the instruction pointer past a decoded instruction and carries
    /// the instruction out. Fails with `OutOfBounds`, and changes nothing,
    /// where the instruction would end beyond the last 64-bit offset. Where
    /// the instruction itself fails, the instruction pointer has moved and
    /// nothing else has changed.
    pub fn advance(&mut self, instruction: Instruction) -> (report: Result<Effect, VmError>)
        ensures
            final(self)@ == old(self)@.advance(instruction).state,
            report == old(self)@.advance(instruction).result,
    {
        if instruction.len as u64 > u64::MAX - self.ip.rip {
            return Err(VmError::OutOfBounds);
        }
        self.ip.rip = self.ip.rip + instruction.len as u64;
        self.run_instr(instruction)
    }

    /// One tick. A halted processor stays as it is and reports `Halt`.
    /// Otherwise the bytes at the instruction pointer are fetched and
    /// decoded for the width of the mode, the instruction pointer moves past
    /// the instruction, and the instruction is carried out.
    ///
    /// Fails with `OutOfBounds` where the instruction pointer lies beyond
    /// memory, with `DecodeFailure` where the bytes are no instruction, and
    /// with whatever the instruction fails with.
    pub fn step(&mut self) -> (report: Result<Effect, VmError>)
        ensures
            final(self)@ == old(self)@.step().state,
            report == old(self)@.step().result,
    {
        if self.halted {
            return Ok(Effect::Halt);
        }
        let window = self.fetch()?;
        let instruction = decode(self.mode, window.as_slice())?;
        self.advance(instruction)
    }

    /// Whether the processor is halted.
    pub fn is_halted(&self) -> (halted: bool)
        ensures
            halted == self@.halted,
    {
        self.halted
    }

    /// Boots from the first sector of the disk, or from `None` where the
    /// disk could not be read. `CS`, `DS`, `SS`, `SP` and the instruction
    /// pointer take their reset values and the sector is copied to memory
    /// from the reset offset on.
    ///
    /// Fails with `StorageFailure` exactly when there is no sector, and with
    /// `OutOfBounds` exactly when the sector does not fit in memory. Where
    /// it fails nothing has changed.
    pub fn init_bios(&mut self, sector: Option<Vec<u8>>) -> (booted: Result<(), VmError>)
        ensures
            match sector {
                None => booted == Err::<(), VmError>(VmError::StorageFailure) && final(self)@
                    == old(self)@,
                Some(bytes) => if RESET_OFFSET + bytes@.len() <= old(self)@.mem.len() {
                    booted is Ok && final(self)@ == old(self)@.booted(bytes@)
                } else {
                    booted == Err::<(), VmError>(VmError::OutOfBounds) && final(self)@ == old(
                        self,
                    )@
                },
            },
    {
        let bootloader = match sector {
            None => {
                return Err(VmError::StorageFailure);
            },
            Some(bytes) => bytes,
        };
        let len = self.mem.len();
        if (len as u64) < RESET_OFFSET || bootloader.len() > len - RESET_OFFSET as usize {
            return Err(VmError::OutOfBounds);
        }
        self.gpr.set_register_value(RegisterId::CS, RESET_SEGMENT as u64);
        self.gpr.set_register_value(RegisterId::DS, 0);
        self.gpr.set_register_value(RegisterId::SS, 0);
        self.gpr.set_register_value(RegisterId::SP, STACK_TOP as u64);
        self.ip.rip = RESET_OFFSET;
        let base = RESET_OFFSET as usize;
        proof {
            self.mem.lemma_len_bounded();
        }
        let mut i: usize = 0;
        while i < bootloader.len()
            invariant
                i <= bootloader.len(),
                base == RESET_OFFSET,
                base + bootloader.len() <= self.mem@.len(),
                self.mem@.len() <= usize::MAX,
                self.mem@.len() == old(self).mem@.len(),
                forall|k: int|
                    0 <= k < self.mem@.len() ==> self.mem@[k] == if base <= k < base + i {
                        bootloader@[k - base]
                    } else {
                        old(self).mem@[k]
                    },
                self.mode == old(self).mode,
                self.flags == old(self).flags,
                self.gdt == old(self).gdt,
                self.halted == old(self).halted,
                self.ip.rip == RESET_OFFSET,
                self.gpr == old(self)@.booted(bootloader@).gpr,
            decreases bootloader.len() - i,
        {
            self.mem.write_u8(base + i, bootloader[i]);
            i += 1;
        }
        assert(self@.mem =~= old(self)@.booted(bootloader@).mem);
        Ok(())
    }

    /// The first `size` cells of the video buffer as characters. Fails with
    /// `OutOfBounds` exactly when they do not all lie in memory.
    pub fn vga_read(&self, size: usize) -> (cells: Result<Vec<char>, VmError>)
        ensures
            match cells {
                Ok(text) => VGA_BASE + size <= self@.mem.len() && text@ == Seq::new(
                    size as nat,
                    |i: int| self@.mem[VGA_BASE + i] as char,
                ),
                Err(error) => VGA_BASE + size > self@.mem.len() && error == VmError::OutOfBounds,
            },
    {
        if !self.in_bounds(VGA_BASE, size) {
            return Err(VmError::OutOfBounds);
        }
        let base = VGA_BASE as usize;
        proof {
            self.mem.lemma_len_bounded();
        }
        let mut vga: Vec<char> = Vec::new();
        let mut i: usize = 0;
        while i < size
            invariant
                i <= size,
                base == VGA_BASE,
                base + size <= self.mem@.len(),
                self.mem@.len() <= usize::MAX,
                vga@ == Seq::new(i as nat, |k: int| self@.mem[VGA_BASE + k] as char),
            decreases size - i,
        {
            let c = self.mem.read_u8(base + i);
            vga.push(c as char);
            assert(vga@ =~= Seq::new((i + 1) as nat, |k: int| self@.mem[VGA_BASE + k] as char));
            i += 1;
        }
        Ok(vga)
    }

    /// The 80 by 25 cells of the video buffer as characters. Fails with
    /// `OutOfBounds` exactly when they do not all lie in memory.
    pub fn vga_read_chars(&self) -> (cells: Result<Vec<char>, VmError>)
        ensures
            match cells {
                Ok(text) => VGA_BASE + VGA_COLUMNS * VGA_ROWS <= self@.mem.len() && text@
                    == Seq::new(
                    (VGA_COLUMNS * VGA_ROWS) as nat,
                    |i: int| self@.mem[VGA_BASE + i] as char,
                ),
                Err(error) => VGA_BASE + VGA_COLUMNS * VGA_ROWS > self@.mem.len() && error
                    == VmError::OutOfBounds,
            },
    {
        self.vga_read(VGA_COLUMNS * VGA_ROWS)
    }

    /// The text that the video buffer shows on a console: the cells that
    /// are not zero, row by row, with a line break behind each of them that
    /// stands in the last column. Fails with `OutOfBounds` exactly when the
    /// video buffer does not all lie in memory.
    pub fn console(&self) -> (shown: Result<Vec<char>, VmError>)
        ensures
            match shown {
                Ok(text) => VGA_BASE + VGA_COLUMNS * VGA_ROWS <= self@.mem.len() && text@
                    == console_text(
                    self@.mem.subrange(VGA_BASE as int, VGA_BASE + VGA_COLUMNS * VGA_ROWS),
                    VGA_COLUMNS as int,
                ),
                Err(error) => VGA_BASE + VGA_COLUMNS * VGA_ROWS > self@.mem.len() && error
                    == VmError::OutOfBounds,
            },
    {
        let size = VGA_COLUMNS * VGA_ROWS;
        if !self.in_bounds(VGA_BASE, size) {
            return Err(VmError::OutOfBounds);
        }
        let base = VGA_BASE as usize;
        proof {
            self.mem.lemma_len_bounded();
        }
        let ghost cells = self@.mem.subrange(VGA_BASE as int, VGA_BASE + size);
        let mut text: Vec<char> = Vec::new();
        let mut i: usize = 0;
        while i < size
            invariant
                i <= size,
                size == VGA_COLUMNS * VGA_ROWS,
                base == VGA_BASE,
                base + size <= self.mem@.len(),
                self.mem@.len() <= usize::MAX,
                cells == self@.mem.subrange(VGA_BASE as int, VGA_BASE + size),
                text@ == console_text(cells.subrange(0, i as int), VGA_COLUMNS as int),
            decreases size - i,
        {
            let c = self.mem.read_u8(base + i);
            proof {
                let upto = cells.subrange(0, i + 1);
                assert(upto.drop_last() =~= cells.subrange(0, i as int));
                assert(upto.last() == c);
            }
            if c != 0 {
                text.push(c as char);
                if (i + 1) % VGA_COLUMNS == 0 {
                    text.push('\n');
                }
            }
            i += 1;
        }
        assert(cells.subrange(0, size as int) =~= cells);
        Ok(text)
    }

    /// The flags.
    pub fn flags(&self) -> (flags: &FlagsRegister)
        ensures
            *flags == self@.flags,
    {
        &self.flags
    }

    /// The flags, to change them.
    pub fn flags_mut(&mut self) -> (flags: &mut FlagsRegister)
        ensures
            *flags == old(self)@.flags,
            final(self)@ == (Machine { flags: *final(flags), ..old(self)@ }),
    {
        &mut self.flags
    }

    /// The instruction pointer.
    pub fn ip(&self) -> (ip: &InstructionPointer)
        ensures
            ip.rip == self@.rip,
    {
        &self.ip
    }

    /// The instruction pointer, to change it.
    pub fn ip_mut(&mut self) -> (ip: &mut InstructionPointer)
        ensures
            ip.rip == old(self)@.rip,
            final(self)@ == (Machine { rip: final(ip).rip, ..old(self)@ }),
    {
        &mut self.ip
    }

    /// The descriptor table.
    pub fn gdt(&self) -> (gdt: &GDT)
        ensures
            *gdt == self@.gdt,
    {
        &self.gdt
    }

    /// The descriptor table, to change it.
    pub fn gdt_mut(&mut self) -> (gdt: &mut GDT)
        ensures
            *gdt == old(self)@.gdt,
            final(self)@ == (Machine { gdt: *final(gdt), ..old(self)@ }),
    {
        &mut self.gdt
    }

    /// The memory.
    pub fn memory(&self) -> (memory: &Memory)
        ensures
            memory@ == self@.mem,
    {
        &self.mem
    }
}

} // verus!
