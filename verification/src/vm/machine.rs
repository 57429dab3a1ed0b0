//! The machine as mathematics: its state, and what each instruction and each
//! step does to it.

use crate::ast::Bits;
use crate::vm::decode::{decoded, operand_width};
use crate::vm::flags::{is_flag, lemma_flags_independent, FlagsRegister, CARRY, INTERRUPT, ZERO};
use crate::vm::instruction::{Instruction, Mnemonic, OperandKind};
use crate::vm::bits::lemma_low_bytes;
use crate::vm::mem::{
    lemma_le_round_trip, lemma_store_le, store_le, u16_from_le, u32_from_le,
};
use crate::vm::register::{GeneralPurposeRegisters, RegisterId};
use crate::vm::segment::GDT;
use crate::vm::{Mode, VmError};
use vstd::prelude::*;

verus! {

/// Where the text-mode video buffer starts.
pub const VGA_BASE: u64 = 0xb8000;

/// The number of cells in a row of the video buffer.
pub const VGA_COLUMNS: usize = 80;

/// The number of rows of the video buffer.
pub const VGA_ROWS: usize = 25;

/// The value of `CS` after boot.
pub const RESET_SEGMENT: u16 = 0xF000;

/// The value of the instruction pointer after boot, and the address that
/// the boot sector is copied to.
pub const RESET_OFFSET: u64 = 0xFFF0;

/// The value of `SP` after boot.
pub const STACK_TOP: u16 = 0x7C00;

/// The number of bytes that a fetch reads at most.
pub const MAX_INSTRUCTION_LENGTH: usize = 15;

/// The vector of the video services.
pub const VIDEO_SERVICES: u8 = 0x10;

/// The number in `AH` that asks the video services for teletype output.
pub const TELETYPE_OUTPUT: u64 = 0x0e;

/// What the machine reports of an instruction that it has carried out.
#[derive(Debug, Clone, Copy, PartialEq, Eq, Structural)]
pub enum Effect {
    /// Nothing to report.
    Executed,
    /// An unconditional jump to the given offset.
    Jump(u64),
    /// The limit and base that `lgdt` found at its operand. No descriptor
    /// table is installed.
    DescriptorTable { limit: u16, base: u32 },
    /// The instruction has a mnemonic that the machine has no rule for, given
    /// by the decoder's number for it. The state is as before.
    Unhandled(u16),
    /// The machine is halted.
    Halt,
}

/// The state of the machine.
pub struct Machine {
    pub mode: Mode,
    pub mem: Seq<u8>,
    pub gpr: GeneralPurposeRegisters,
    pub rip: u64,
    pub flags: FlagsRegister,
    /// The descriptor table. It is storage: no instruction reads or writes
    /// it, and address translation does not consult it.
    pub gdt: GDT,
    pub halted: bool,
}

/// A state and what was reported on the way to it.
pub struct Outcome {
    pub state: Machine,
    pub result: Result<Effect, VmError>,
}

/// The physical address of `offset` in the segment with the given value:
/// `segment_value * 16 + offset` in real mode, `segment_value + offset` in
/// protected mode. Long mode has no segmented translation.
pub open spec fn translation(mode: Mode, segment_value: u32, offset: u32) -> Result<u64, VmError> {
    match mode {
        Mode::Real => Ok((segment_value * 16 + offset) as u64),
        Mode::Protected => Ok((segment_value + offset) as u64),
        Mode::Long => Err(VmError::UnsupportedTranslation),
    }
}

/// The number of bytes of a width.
pub open spec fn byte_count(width: Bits) -> nat {
    match width {
        Bits::Bit8 => 1,
        Bits::Bit16 => 2,
        Bits::Bit32 => 4,
        Bits::Bit64 => 8,
    }
}

/// The sum of two values as the machine computes it: modulo 2^64.
pub open spec fn sum(a: u64, b: u64) -> u64 {
    a.wrapping_add(b)
}

/// The difference of two values as the machine computes it: modulo 2^64.
pub open spec fn difference(a: u64, b: u64) -> u64 {
    a.wrapping_sub(b)
}

/// Whether the 16-bit cell at `at` lies in `mem` and is zero.
pub open spec fn blank_at(mem: Seq<u8>, at: int) -> bool {
    0 <= at && at + 2 <= mem.len() && u16_from_le(mem[at], mem[at + 1]) == 0
}

/// The least address from `from` on at which a 16-bit cell is zero; `None`
/// where there is none before the end of `mem`.
pub open spec fn first_blank(mem: Seq<u8>, from: int) -> Option<int>
    decreases mem.len() - from,
{
    if from < 0 || from + 2 > mem.len() {
        None
    } else if blank_at(mem, from) {
        Some(from)
    } else {
        first_blank(mem, from + 1)
    }
}

/// The text that a row-major buffer of `cells` shows on a console `columns`
/// wide: the cells that are not zero, in order, with a line break behind
/// each of them that stands in the last column.
pub open spec fn console_text(cells: Seq<u8>, columns: int) -> Seq<char>
    decreases cells.len(),
{
    if cells.len() == 0 {
        Seq::empty()
    } else {
        let before = console_text(cells.drop_last(), columns);
        let cell = cells.last();
        if cell == 0 {
            before
        } else if cells.len() % (columns as nat) == 0 {
            before.push(cell as char).push('\n')
        } else {
            before.push(cell as char)
        }
    }
}

impl Machine {
    /// Whether the state is that of a new machine in the given mode with
    /// `size` bytes of memory: memory, registers, flags and instruction
    /// pointer are zero, the descriptor table holds the default
    /// descriptors, and the machine is not halted.
    pub open spec fn is_new(self, mode: Mode, size: nat) -> bool {
        &&& self.mode == mode
        &&& self.mem.len() == size
        &&& forall|i: int| 0 <= i < size ==> self.mem[i] == 0
        &&& forall|register: RegisterId| self.gpr.read(register) == 0
        &&& self.rip == 0
        &&& self.flags == (FlagsRegister { rflags: 0, eflags: 0, flags: 0 })
        &&& self.gdt.is_initial()
        &&& !self.halted
    }

    /// The state with no report.
    pub open spec fn done(self) -> Outcome {
        Outcome { state: self, result: Ok(Effect::Executed) }
    }

    /// The state with a report.
    pub open spec fn reporting(self, effect: Effect) -> Outcome {
        Outcome { state: self, result: Ok(effect) }
    }

    /// The state with the reason why nothing was done to it.
    pub open spec fn refused(self, error: VmError) -> Outcome {
        Outcome { state: self, result: Err(error) }
    }

    /// The base that a segment-override prefix stands for: the low 32 bits
    /// of the register it names, and 0 without a prefix.
    pub open spec fn segment_value(self, prefix: Option<RegisterId>) -> u32 {
        match prefix {
            None => 0,
            Some(register) => (self.gpr.read(register) & 0xffff_ffff) as u32,
        }
    }

    /// The displacement of the memory operand in the width that the mode
    /// selects: 64 bits in long mode, 32 bits otherwise.
    pub open spec fn displacement(self, instruction: Instruction) -> u64 {
        match self.mode {
            Mode::Long => instruction.memory_displacement64,
            _ => instruction.memory_displacement32 as u64,
        }
    }

    /// The physical address of the memory operand: its displacement, cut to
    /// 32 bits, in the segment of the prefix.
    pub open spec fn operand_address(self, instruction: Instruction) -> Result<u64, VmError> {
        translation(
            self.mode,
            self.segment_value(instruction.segment_prefix),
            (self.displacement(instruction) & 0xffff_ffff) as u32,
        )
    }

    /// The value of default operand width that memory holds at `addr`.
    /// Long mode has no such read.
    pub open spec fn load(self, addr: u64) -> Result<u64, VmError> {
        match self.mode {
            Mode::Real => if addr + 2 <= self.mem.len() {
                Ok(u16_from_le(self.mem[addr as int], self.mem[addr + 1]) as u64)
            } else {
                Err(VmError::OutOfBounds)
            },
            Mode::Protected => if addr + 4 <= self.mem.len() {
                Ok(
                    u32_from_le(
                        self.mem[addr as int],
                        self.mem[addr + 1],
                        self.mem[addr + 2],
                        self.mem[addr + 3],
                    ) as u64,
                )
            } else {
                Err(VmError::OutOfBounds)
            },
            Mode::Long => Err(VmError::UnsupportedTranslation),
        }
    }

    /// The value of an operand of the given kind: the register's value, the
    /// value in memory at the operand's address, or the immediate of the
    /// kind's width; 0 for any other kind.
    pub open spec fn operand_value(
        self,
        kind: OperandKind,
        register: RegisterId,
        instruction: Instruction,
    ) -> Result<u64, VmError> {
        match kind {
            OperandKind::Register => Ok(self.gpr.read(register)),
            OperandKind::Memory => match self.operand_address(instruction) {
                Ok(addr) => self.load(addr),
                Err(error) => Err(error),
            },
            OperandKind::Immediate8 => Ok(instruction.immediate8 as u64),
            OperandKind::Immediate16 => Ok(instruction.immediate16 as u64),
            OperandKind::Immediate32 => Ok(instruction.immediate32 as u64),
            OperandKind::Immediate64 => Ok(instruction.immediate64),
            OperandKind::Other => Ok(0),
        }
    }

    /// The value of the first operand.
    pub open spec fn operand0(self, instruction: Instruction) -> Result<u64, VmError> {
        self.operand_value(instruction.op0_kind, instruction.op0_register, instruction)
    }

    /// The value of the second operand.
    pub open spec fn operand1(self, instruction: Instruction) -> Result<u64, VmError> {
        self.operand_value(instruction.op1_kind, instruction.op1_register, instruction)
    }

    /// The address that the first operand names where it is a memory
    /// operand: base register plus displacement, without a segment.
    /// `OutOfBounds` where the sum is no 64-bit address.
    pub open spec fn operand0_address(self, instruction: Instruction) -> Result<
        Option<u64>,
        VmError,
    > {
        if instruction.op0_kind != OperandKind::Memory {
            Ok(None)
        } else {
            let base: u64 = match instruction.memory_base {
                None => 0,
                Some(register) => self.gpr.read(register),
            };
            if base + self.displacement(instruction) > u64::MAX {
                Err(VmError::OutOfBounds)
            } else {
                Ok(Some((base + self.displacement(instruction)) as u64))
            }
        }
    }

    /// The state after a store of `value` at `addr` in the default operand
    /// width of the mode, least significant byte first.
    pub open spec fn store(self, addr: u64, value: u64) -> Result<Machine, VmError> {
        let count = byte_count(operand_width(self.mode));
        if addr + count <= self.mem.len() {
            Ok(Machine { mem: store_le(self.mem, addr as int, value, count), ..self })
        } else {
            Err(VmError::OutOfBounds)
        }
    }

    /// The state after `value` is written to the first operand. A register
    /// takes the value cut to its width. Memory takes it at the operand's
    /// address, except in long mode, where nothing is written. An operand
    /// of any other kind takes nothing.
    pub open spec fn store_operand0(self, instruction: Instruction, value: u64) -> Result<
        Machine,
        VmError,
    > {
        match instruction.op0_kind {
            OperandKind::Register => Ok(
                Machine { gpr: self.gpr.write(instruction.op0_register, value), ..self },
            ),
            OperandKind::Memory => if self.mode == Mode::Long {
                Ok(self)
            } else {
                match self.operand_address(instruction) {
                    Ok(addr) => self.store(addr, value),
                    Err(error) => Err(error),
                }
            },
            _ => Ok(self),
        }
    }

    /// What a software interrupt does. With interrupts disabled: nothing.
    /// Vector 0x10 with 0x0e in `AH` puts the byte in `AL` at the first zero
    /// cell of the video buffer, and fails with `OutOfBounds` where memory
    /// has none. Every other vector and service does nothing.
    pub open spec fn interrupt(self, vector: u8) -> Outcome {
        if !self.flags.has(INTERRUPT) {
            self.done()
        } else if vector == VIDEO_SERVICES && self.gpr.read(RegisterId::AH) == TELETYPE_OUTPUT {
            match first_blank(self.mem, VGA_BASE as int) {
                Some(at) => Machine {
                    mem: self.mem.update(at, (self.gpr.read(RegisterId::AL) & 0xff) as u8),
                    ..self
                }.done(),
                None => self.refused(VmError::OutOfBounds),
            }
        } else {
            self.done()
        }
    }

    /// What `lgdt` does: it reads a 16-bit limit and a 32-bit base at the
    /// address of its operand and reports them. An `lgdt` without a memory
    /// operand is no instruction.
    pub open spec fn load_descriptor_table(self, instruction: Instruction) -> Outcome {
        match self.operand0_address(instruction) {
            Err(error) => self.refused(error),
            Ok(None) => self.refused(VmError::DecodeFailure),
            Ok(Some(addr)) => if addr + 6 <= self.mem.len() {
                self.reporting(
                    Effect::DescriptorTable {
                        limit: u16_from_le(self.mem[addr as int], self.mem[addr + 1]),
                        base: u32_from_le(
                            self.mem[addr + 2],
                            self.mem[addr + 3],
                            self.mem[addr + 4],
                            self.mem[addr + 5],
                        ),
                    },
                )
            } else {
                self.refused(VmError::OutOfBounds)
            },
        }
    }

    /// The flags after a comparison of `left` with `right`: Zero is set
    /// exactly if they are equal, Carry exactly if `left` is less.
    pub open spec fn compared(self, left: u64, right: u64) -> Machine {
        Machine {
            flags: self.flags.with_flag(ZERO, left == right).with_flag(CARRY, left < right),
            ..self
        }
    }

    /// The state after a jump to `target`.
    pub open spec fn jumped(self, target: u64) -> Machine {
        Machine { rip: target, ..self }
    }

    /// What a two-operand instruction does that writes `result` of its
    /// operands to the first: the second operand is read, then the first,
    /// then the result is stored.
    pub open spec fn combine(
        self,
        instruction: Instruction,
        result: spec_fn(u64, u64) -> u64,
    ) -> Outcome {
        match self.operand1(instruction) {
            Err(error) => self.refused(error),
            Ok(right) => match self.operand0(instruction) {
                Err(error) => self.refused(error),
                Ok(left) => match self.store_operand0(instruction, result(left, right)) {
                    Err(error) => self.refused(error),
                    Ok(state) => state.done(),
                },
            },
        }
    }

    /// What a jump does that is taken exactly if `taken` holds.
    pub open spec fn branch(self, instruction: Instruction, taken: bool) -> Outcome {
        if taken {
            match self.operand0(instruction) {
                Err(error) => self.refused(error),
                Ok(target) => self.jumped(target).done(),
            }
        } else {
            self.done()
        }
    }

    /// What the instruction does to the state, and what is reported. Where
    /// the report is an error the state is as before.
    pub open spec fn execute(self, instruction: Instruction) -> Outcome {
        match instruction.mnemonic {
            Mnemonic::Int => self.interrupt(instruction.immediate8),
            Mnemonic::Lgdt => self.load_descriptor_table(instruction),
            Mnemonic::Cli => Machine { flags: self.flags.with_cleared(INTERRUPT), ..self }.done(),
            Mnemonic::Cmp => match self.operand1(instruction) {
                Err(error) => self.refused(error),
                Ok(right) => match self.operand0(instruction) {
                    Err(error) => self.refused(error),
                    Ok(left) => self.compared(left, right).done(),
                },
            },
            Mnemonic::Hlt => Machine { halted: true, ..self }.reporting(Effect::Halt),
            Mnemonic::Jmp => match self.operand0(instruction) {
                Err(error) => self.refused(error),
                Ok(target) => self.jumped(target).reporting(Effect::Jump(target)),
            },
            Mnemonic::Je => self.branch(instruction, self.flags.has(ZERO)),
            Mnemonic::Jne => self.branch(instruction, !self.flags.has(ZERO)),
            Mnemonic::Mov => match self.operand1(instruction) {
                Err(error) => self.refused(error),
                Ok(value) => match self.store_operand0(instruction, value) {
                    Err(error) => self.refused(error),
                    Ok(state) => state.done(),
                },
            },
            Mnemonic::Add => self.combine(instruction, |left: u64, right: u64| sum(left, right)),
            Mnemonic::Sub => self.combine(
                instruction,
                |left: u64, right: u64| difference(left, right),
            ),
            Mnemonic::And => self.combine(instruction, |left: u64, right: u64| left & right),
            Mnemonic::Or => self.combine(instruction, |left: u64, right: u64| left | right),
            Mnemonic::Other(code) => self.reporting(Effect::Unhandled(code)),
        }
    }

    /// What a decoded instruction does: the instruction pointer moves past
    /// the instruction, then the instruction is executed. Where the
    /// instruction would end beyond the last 64-bit offset, nothing is done.
    pub open spec fn advance(self, instruction: Instruction) -> Outcome {
        if self.rip + instruction.len > u64::MAX {
            self.refused(VmError::OutOfBounds)
        } else {
            self.jumped((self.rip + instruction.len) as u64).execute(instruction)
        }
    }

    /// The bytes that a fetch reads: those from the instruction pointer on,
    /// fifteen of them or as many as memory has left.
    pub open spec fn window(self) -> Seq<u8> {
        let end = if self.rip + MAX_INSTRUCTION_LENGTH <= self.mem.len() {
            self.rip + MAX_INSTRUCTION_LENGTH
        } else {
            self.mem.len() as int
        };
        self.mem.subrange(self.rip as int, end)
    }

    /// One tick of the machine. A halted machine stays as it is. Otherwise
    /// the bytes at the instruction pointer are fetched, decoded for the
    /// width of the mode, and the instruction is carried out.
    pub open spec fn step(self) -> Outcome {
        if self.halted {
            self.reporting(Effect::Halt)
        } else if self.rip >= self.mem.len() {
            self.refused(VmError::OutOfBounds)
        } else {
            match Instruction::read(decoded(operand_width(self.mode).width(), self.window())) {
                Err(error) => self.refused(error),
                Ok(instruction) => self.advance(instruction),
            }
        }
    }

    /// The state after the given number of ticks.
    pub open spec fn after(self, ticks: nat) -> Machine
        decreases ticks,
    {
        if ticks == 0 {
            self
        } else {
            self.step().state.after((ticks - 1) as nat)
        }
    }

    /// The state after boot from a sector: `CS`, `DS`, `SS`, `SP` and the
    /// instruction pointer hold their reset values and the sector lies in
    /// memory from the reset offset on.
    pub open spec fn booted(self, sector: Seq<u8>) -> Machine {
        Machine {
            gpr: self.gpr.write(RegisterId::CS, RESET_SEGMENT as u64).write(
                RegisterId::DS,
                0,
            ).write(RegisterId::SS, 0).write(RegisterId::SP, STACK_TOP as u64),
            rip: RESET_OFFSET,
            mem: Seq::new(
                self.mem.len(),
                |i: int|
                    if RESET_OFFSET <= i < RESET_OFFSET + sector.len() {
                        sector[i - RESET_OFFSET]
                    } else {
                        self.mem[i]
                    },
            ),
            ..self
        }
    }
}

/// What [`first_blank`] finds is the least address from `from` on at which
/// a 16-bit cell is zero, and it finds nothing only where there is none.
pub proof fn lemma_first_blank_is_least(mem: Seq<u8>, from: int)
    requires
        0 <= from,
    ensures
        match first_blank(mem, from) {
            Some(at) => from <= at && blank_at(mem, at) && forall|other: int|
                from <= other < at ==> !blank_at(mem, other),
            None => forall|other: int| from <= other ==> !blank_at(mem, other),
        },
    decreases mem.len() - from,
{
    if from + 2 <= mem.len() && !blank_at(mem, from) {
        lemma_first_blank_is_least(mem, from + 1);
    }
}

/// A comparison sets Zero exactly if its operands are equal and Carry
/// exactly if the first is less than the second, whatever the two flags
/// were before. Every other flag, and all the rest of the machine, is as
/// before.
pub proof fn lemma_comparison_sets_zero_and_carry(
    machine: Machine,
    instruction: Instruction,
    left: u64,
    right: u64,
)
    requires
        instruction.mnemonic == Mnemonic::Cmp,
        machine.operand0(instruction) == Ok::<u64, VmError>(left),
        machine.operand1(instruction) == Ok::<u64, VmError>(right),
    ensures
        ({
            let outcome = machine.execute(instruction);
            &&& outcome.result == Ok::<Effect, VmError>(Effect::Executed)
            &&& outcome.state == (Machine { flags: outcome.state.flags, ..machine })
            &&& outcome.state.flags.has(ZERO) == (left == right)
            &&& outcome.state.flags.has(CARRY) == (left < right)
            &&& forall|flag: u64|
                is_flag(flag) && flag != ZERO && flag != CARRY ==> outcome.state.flags.has(flag)
                    == machine.flags.has(flag)
        }),
{
    let first = machine.flags.with_flag(ZERO, left == right);
    let second = first.with_flag(CARRY, left < right);
    lemma_flags_independent(machine.flags, ZERO, CARRY);
    lemma_flags_independent(first, CARRY, ZERO);
    assert forall|flag: u64| is_flag(flag) && flag != ZERO && flag != CARRY implies second.has(
        flag,
    ) == machine.flags.has(flag) by {
        lemma_flags_independent(machine.flags, ZERO, flag);
        lemma_flags_independent(first, CARRY, flag);
    }
}

/// With interrupts enabled and a zero cell at the start of the video
/// buffer, teletype output puts the byte in `AL` at the start of the video
/// buffer and changes nothing else. With interrupts disabled no vector
/// changes anything.
pub proof fn lemma_teletype_writes_first_cell(machine: Machine, vector: u8)
    requires
        VGA_BASE + 2 <= machine.mem.len(),
        machine.mem[VGA_BASE as int] == 0,
        machine.mem[VGA_BASE + 1] == 0,
    ensures
        machine.flags.has(INTERRUPT) && vector == VIDEO_SERVICES && machine.gpr.read(RegisterId::AH)
            == TELETYPE_OUTPUT ==> machine.interrupt(vector) == (Machine {
            mem: machine.mem.update(
                VGA_BASE as int,
                (machine.gpr.read(RegisterId::AL) & 0xff) as u8,
            ),
            ..machine
        }).done(),
        !machine.flags.has(INTERRUPT) ==> machine.interrupt(vector) == machine.done(),
{
    assert((0u8 as u16) | ((0u8 as u16) << 8) == 0) by (bit_vector);
}

/// What is stored at an address is what is loaded from it: the value, cut
/// to the operand width of the mode.
pub proof fn lemma_load_after_store(machine: Machine, addr: u64, value: u64)
    requires
        machine.mode != Mode::Long,
        machine.store(addr, value) is Ok,
    ensures
        machine.store(addr, value)->Ok_0.load(addr) == Ok::<u64, VmError>(
            match machine.mode {
                Mode::Real => value & 0xffff,
                _ => value & 0xffff_ffff,
            },
        ),
{
    let count = byte_count(operand_width(machine.mode));
    lemma_store_le(machine.mem, addr as int, value, count);
    lemma_low_bytes(value);
    assert(value & 0xffff <= 0xffff && value & 0xffff_ffff <= 0xffff_ffff) by (bit_vector);
    lemma_le_round_trip((value & 0xffff) as u16, (value & 0xffff_ffff) as u32);
}

/// `hlt` halts the machine and changes nothing else, and a halted machine
/// stays exactly as it is for any number of ticks.
pub proof fn lemma_halt_is_final(machine: Machine, instruction: Instruction, ticks: nat)
    requires
        instruction.mnemonic == Mnemonic::Hlt,
    ensures
        machine.execute(instruction).result == Ok::<Effect, VmError>(Effect::Halt),
        machine.execute(instruction).state == (Machine { halted: true, ..machine }),
        machine.execute(instruction).state.after(ticks) == machine.execute(instruction).state,
{
    lemma_halted_stays(machine.execute(instruction).state, ticks);
}

/// A halted machine is the same after any number of ticks, and each of
/// those ticks reports `Halt`.
pub proof fn lemma_halted_stays(machine: Machine, ticks: nat)
    requires
        machine.halted,
    ensures
        machine.after(ticks) == machine,
        machine.step() == machine.reporting(Effect::Halt),
    decreases ticks,
{
    if ticks > 0 {
        lemma_halted_stays(machine, (ticks - 1) as nat);
    }
}

} // verus!
