use xvm::ast::Bits;
use xvm::vm::cpu::Cpu;
use xvm::vm::instruction::{Instruction, Mnemonic, OperandKind};
use xvm::vm::machine::Effect;
use xvm::vm::register::RegisterId;
use xvm::vm::{Mode, VmError};

const VGA: usize = 0xb8000;

fn instruction(mnemonic: Mnemonic) -> Instruction {
    Instruction {
        mnemonic,
        len: 1,
        op0_kind: OperandKind::Other,
        op1_kind: OperandKind::Other,
        op0_register: RegisterId::Unmapped,
        op1_register: RegisterId::Unmapped,
        memory_base: None,
        segment_prefix: None,
        memory_displacement32: 0,
        memory_displacement64: 0,
        immediate8: 0,
        immediate16: 0,
        immediate32: 0,
        immediate64: 0,
    }
}

fn registers(mnemonic: Mnemonic, op0: RegisterId, op1: RegisterId) -> Instruction {
    Instruction {
        op0_kind: OperandKind::Register,
        op1_kind: OperandKind::Register,
        op0_register: op0,
        op1_register: op1,
        ..instruction(mnemonic)
    }
}

fn booted(code: &[u8]) -> Cpu {
    let mut sector = vec![0u8; 512];
    sector[..code.len()].copy_from_slice(code);
    let mut cpu = Cpu::new();
    assert_eq!(cpu.init_bios(Some(sector)), Ok(()));
    cpu
}

#[test]
fn new_processor_is_zero_in_real_mode() {
    let cpu = Cpu::new();
    assert_eq!(cpu.mode(), Mode::Real);
    assert!(cpu.is_real());
    assert!(!cpu.is_protected());
    assert_eq!(cpu.get_bit(), Bits::Bit16);
    assert_eq!(cpu.memory().len(), 104_857_600);
    assert_eq!(cpu.ip().rip, 0);
    assert_eq!(cpu.flags().flags, 0);
    assert!(!cpu.is_halted());
    assert_eq!(cpu.gpr().get_register_value(RegisterId::RAX), 0);
    let protected = Cpu::with_mode(Mode::Protected);
    assert!(protected.is_protected());
    assert_eq!(protected.get_bit(), Bits::Bit32);
    assert_eq!(Cpu::with_memory(Mode::Long, 8).get_bit(), Bits::Bit64);
}

#[test]
fn boot_copies_the_sector_and_primes_the_registers() {
    let mut cpu = booted(&[0xEB, 0xFE]);
    assert_eq!(cpu.memory().read_u8(0xFFF0), 0xEB);
    assert_eq!(cpu.memory().read_u8(0xFFF1), 0xFE);
    assert_eq!(cpu.memory().read_many_u8(0xFFF2, 510), vec![0u8; 510]);
    assert_eq!(cpu.memory().read_u8(0xFFEF), 0);
    assert_eq!(cpu.gpr().get_register_value(RegisterId::CS), 0xF000);
    assert_eq!(cpu.gpr().get_register_value(RegisterId::DS), 0);
    assert_eq!(cpu.gpr().get_register_value(RegisterId::SS), 0);
    assert_eq!(cpu.gpr().get_register_value(RegisterId::SP), 0x7C00);
    assert_eq!(cpu.ip().rip, 0xFFF0);
    assert_eq!(cpu.fetch().unwrap()[..2], [0xEB, 0xFE]);
    assert_eq!(cpu.fetch().unwrap().len(), 15);
    assert_eq!(cpu.step(), Ok(Effect::Jump(0)));
    assert_eq!(cpu.ip().rip, 0);
}

#[test]
fn boot_keeps_what_lies_outside_the_sector() {
    let mut cpu = Cpu::with_memory(Mode::Real, 0x10000);
    cpu.gpr_mut().set_rax(0x1234);
    cpu.gpr_mut().set_rsp(0xFFFF_FFFF_FFFF_FFFF);
    assert_eq!(cpu.write_to_mem(0xFFEE, 0xAAAA), Ok(()));
    assert_eq!(cpu.write_to_mem(0xFFF2, 0xBBBB), Ok(()));
    assert_eq!(cpu.init_bios(Some(vec![1, 2])), Ok(()));
    assert_eq!(cpu.memory().read_many_u8(0xFFEE, 8), vec![0xAA, 0xAA, 1, 2, 0xBB, 0xBB, 0, 0]);
    assert_eq!(cpu.gpr().get_register_value(RegisterId::RAX), 0x1234);
    assert_eq!(cpu.gpr().get_register_value(RegisterId::RSP), 0xFFFF_FFFF_FFFF_7C00);
}

#[test]
fn boot_without_a_sector_is_a_storage_failure() {
    let mut cpu = Cpu::with_memory(Mode::Real, 0x20000);
    assert_eq!(cpu.init_bios(None), Err(VmError::StorageFailure));
    assert_eq!(cpu.ip().rip, 0);
    assert_eq!(cpu.gpr().get_register_value(RegisterId::CS), 0);
}

#[test]
fn boot_sector_must_fit_in_memory() {
    let mut cpu = Cpu::with_memory(Mode::Real, 0xFFF0 + 511);
    assert_eq!(cpu.init_bios(Some(vec![7; 512])), Err(VmError::OutOfBounds));
    assert_eq!(cpu.ip().rip, 0);
    assert_eq!(cpu.gpr().get_register_value(RegisterId::CS), 0);
    assert_eq!(cpu.memory().read_u8(0xFFF0), 0);
    assert_eq!(cpu.init_bios(Some(vec![7; 511])), Ok(()));
    assert_eq!(cpu.memory().read_u8(0xFFF0 + 510), 7);
    let mut small = Cpu::with_memory(Mode::Real, 16);
    assert_eq!(small.init_bios(Some(Vec::new())), Err(VmError::OutOfBounds));
}

#[test]
fn teletype_writes_the_first_cell() {
    let mut cpu = Cpu::new();
    cpu.flags_mut().interrupt();
    cpu.gpr_mut().set_ah(0x0E);
    cpu.gpr_mut().set_al(b'A');
    assert_eq!(cpu.handle_interrupt(0x10), Ok(()));
    assert_eq!(cpu.memory().read_u8(VGA), b'A');
    assert_eq!(cpu.memory().read_u8(VGA + 1), 0);
    assert_eq!(cpu.vga_read(3), Ok(vec!['A', '\0', '\0']));
}

#[test]
fn teletype_does_nothing_with_interrupts_disabled() {
    let mut cpu = Cpu::new();
    cpu.gpr_mut().set_ah(0x0E);
    cpu.gpr_mut().set_al(b'A');
    assert_eq!(cpu.handle_interrupt(0x10), Ok(()));
    assert_eq!(cpu.memory().read_many_u8(VGA, 16), vec![0u8; 16]);
    let mut through_int = instruction(Mnemonic::Int);
    through_int.immediate8 = 0x10;
    through_int.op0_kind = OperandKind::Immediate8;
    assert_eq!(cpu.run_instr(through_int), Ok(Effect::Executed));
    assert_eq!(cpu.memory().read_many_u8(VGA, 16), vec![0u8; 16]);
}

#[test]
fn teletype_appends_behind_what_is_shown() {
    let mut cpu = Cpu::new();
    cpu.flags_mut().interrupt();
    cpu.gpr_mut().set_ah(0x0E);
    for &character in b"Hi!" {
        cpu.gpr_mut().set_al(character);
        assert_eq!(cpu.handle_interrupt(0x10), Ok(()));
    }
    assert_eq!(cpu.memory().read_many_u8(VGA, 5), vec![b'H', b'i', b'!', 0, 0]);
    assert_eq!(cpu.console(), Ok(vec!['H', 'i', '!']));
}

#[test]
fn teletype_skips_a_lone_zero_byte() {
    let mut cpu = Cpu::with_memory(Mode::Real, VGA + 8);
    cpu.flags_mut().interrupt();
    cpu.gpr_mut().set_ah(0x0E);
    cpu.gpr_mut().set_al(b'x');
    assert_eq!(cpu.write_to_mem(VGA as u64, 0x4100), Ok(()));
    assert_eq!(cpu.write_to_mem(VGA as u64 + 2, 0x0042), Ok(()));
    assert_eq!(cpu.handle_interrupt(0x10), Ok(()));
    assert_eq!(
        cpu.memory().read_many_u8(VGA, 8),
        vec![0, 0x41, 0x42, b'x', 0, 0, 0, 0]
    );
}

#[test]
fn other_vectors_and_services_do_nothing() {
    let mut cpu = Cpu::new();
    cpu.flags_mut().interrupt();
    cpu.gpr_mut().set_ah(0x0E);
    cpu.gpr_mut().set_al(b'A');
    assert_eq!(cpu.handle_interrupt(0x13), Ok(()));
    assert_eq!(cpu.handle_interrupt(0), Ok(()));
    cpu.gpr_mut().set_ah(0x0F);
    assert_eq!(cpu.handle_interrupt(0x10), Ok(()));
    assert_eq!(cpu.memory().read_many_u8(VGA, 4), vec![0u8; 4]);
}

#[test]
fn teletype_without_a_free_cell_is_out_of_bounds() {
    let mut full = Cpu::with_memory(Mode::Protected, VGA + 4);
    full.flags_mut().interrupt();
    full.gpr_mut().set_ah(0x0E);
    full.gpr_mut().set_al(b'A');
    assert_eq!(full.write_to_mem(VGA as u64, 0x2020_2020), Ok(()));
    assert_eq!(full.handle_interrupt(0x10), Err(VmError::OutOfBounds));
    assert_eq!(full.memory().read_many_u8(VGA, 4), vec![0x20; 4]);
    let mut short = Cpu::with_memory(Mode::Real, 64);
    short.flags_mut().interrupt();
    short.gpr_mut().set_ah(0x0E);
    assert_eq!(short.handle_interrupt(0x10), Err(VmError::OutOfBounds));
    let mut edge = Cpu::with_memory(Mode::Real, VGA + 1);
    edge.flags_mut().interrupt();
    edge.gpr_mut().set_ah(0x0E);
    assert_eq!(edge.handle_interrupt(0x10), Err(VmError::OutOfBounds));
}

#[test]
fn halt_is_final() {
    let mut cpu = booted(&[0xB8, 0x34, 0x12, 0xF4, 0xB8, 0x78, 0x56]);
    assert_eq!(cpu.step(), Ok(Effect::Executed));
    assert_eq!(cpu.step(), Ok(Effect::Halt));
    assert!(cpu.is_halted());
    assert_eq!(cpu.ip().rip, 0xFFF4);
    let memory = cpu.memory().read_many_u8(0xFF00, 0x400);
    for _ in 0..50 {
        assert_eq!(cpu.step(), Ok(Effect::Halt));
        assert!(cpu.is_halted());
        assert_eq!(cpu.ip().rip, 0xFFF4);
        assert_eq!(cpu.gpr().get_register_value(RegisterId::RAX), 0x1234);
        assert_eq!(cpu.gpr().get_register_value(RegisterId::CS), 0xF000);
        assert_eq!(cpu.gpr().get_register_value(RegisterId::SP), 0x7C00);
        assert_eq!(cpu.flags().flags, 0);
    }
    assert_eq!(cpu.memory().read_many_u8(0xFF00, 0x400), memory);
}

#[test]
fn comparison_of_equals_sets_zero_and_clears_carry() {
    let mut cpu = Cpu::with_memory(Mode::Real, 16);
    cpu.flags_mut().carry().sign().overflow().interrupt();
    cpu.gpr_mut().set_ax(7);
    cpu.gpr_mut().set_bx(7);
    assert_eq!(
        cpu.run_instr(registers(Mnemonic::Cmp, RegisterId::AX, RegisterId::BX)),
        Ok(Effect::Executed)
    );
    assert!(cpu.flags().is_zero());
    assert!(!cpu.flags().is_carry());
    assert!(cpu.flags().is_sign());
    assert!(cpu.flags().is_overflow());
    assert!(cpu.flags().is_interrupt());
    assert_eq!(cpu.flags().flags, 64 | 128 | 2048 | 512);
    assert_eq!(cpu.gpr().get_register_value(RegisterId::AX), 7);
    assert_eq!(
        cpu.run_instr(registers(Mnemonic::Cmp, RegisterId::AX, RegisterId::AX)),
        Ok(Effect::Executed)
    );
    assert!(cpu.flags().is_zero());
}

#[test]
fn comparison_of_a_lesser_sets_carry_and_clears_zero() {
    let mut cpu = Cpu::with_memory(Mode::Real, 16);
    cpu.flags_mut().zero().trap();
    cpu.gpr_mut().set_ax(3);
    cpu.gpr_mut().set_bx(7);
    assert_eq!(
        cpu.run_instr(registers(Mnemonic::Cmp, RegisterId::AX, RegisterId::BX)),
        Ok(Effect::Executed)
    );
    assert!(cpu.flags().is_carry());
    assert!(!cpu.flags().is_zero());
    assert!(cpu.flags().is_trap());
    assert_eq!(cpu.flags().flags, 1 | 256);
}

#[test]
fn comparison_of_a_greater_clears_both() {
    let mut cpu = Cpu::with_memory(Mode::Real, 16);
    cpu.flags_mut().zero().carry().direction();
    cpu.gpr_mut().set_ax(9);
    cpu.gpr_mut().set_bx(7);
    assert_eq!(
        cpu.run_instr(registers(Mnemonic::Cmp, RegisterId::AX, RegisterId::BX)),
        Ok(Effect::Executed)
    );
    assert_eq!(cpu.flags().flags, 1024);
}

#[test]
fn arithmetic_writes_the_first_operand() {
    let mut cpu = Cpu::with_memory(Mode::Real, 16);
    cpu.gpr_mut().set_ax(0x00F0);
    cpu.gpr_mut().set_bx(0x0F0F);
    assert_eq!(
        cpu.run_instr(registers(Mnemonic::Add, RegisterId::AX, RegisterId::BX)),
        Ok(Effect::Executed)
    );
    assert_eq!(cpu.gpr().get_register_value(RegisterId::AX), 0x0FFF);
    assert_eq!(
        cpu.run_instr(registers(Mnemonic::Sub, RegisterId::AX, RegisterId::BX)),
        Ok(Effect::Executed)
    );
    assert_eq!(cpu.gpr().get_register_value(RegisterId::AX), 0x00F0);
    assert_eq!(
        cpu.run_instr(registers(Mnemonic::Or, RegisterId::AX, RegisterId::BX)),
        Ok(Effect::Executed)
    );
    assert_eq!(cpu.gpr().get_register_value(RegisterId::AX), 0x0FFF);
    assert_eq!(
        cpu.run_instr(registers(Mnemonic::And, RegisterId::AX, RegisterId::BX)),
        Ok(Effect::Executed)
    );
    assert_eq!(cpu.gpr().get_register_value(RegisterId::AX), 0x0F0F);
    assert_eq!(cpu.gpr().get_register_value(RegisterId::BX), 0x0F0F);
    assert_eq!(
        cpu.run_instr(registers(Mnemonic::Mov, RegisterId::CX, RegisterId::AX)),
        Ok(Effect::Executed)
    );
    assert_eq!(cpu.gpr().get_register_value(RegisterId::CX), 0x0F0F);
    assert_eq!(cpu.flags().flags, 0);
}

#[test]
fn arithmetic_wraps_and_is_cut_to_the_register() {
    let mut cpu = Cpu::with_memory(Mode::Long, 16);
    cpu.gpr_mut().set_rax(0xFFFF_FFFF_FFFF_FFFF);
    cpu.gpr_mut().set_rbx(2);
    assert_eq!(
        cpu.run_instr(registers(Mnemonic::Add, RegisterId::RAX, RegisterId::RBX)),
        Ok(Effect::Executed)
    );
    assert_eq!(cpu.gpr().get_register_value(RegisterId::RAX), 1);
    assert_eq!(
        cpu.run_instr(registers(Mnemonic::Sub, RegisterId::RAX, RegisterId::RBX)),
        Ok(Effect::Executed)
    );
    assert_eq!(cpu.gpr().get_register_value(RegisterId::RAX), 0xFFFF_FFFF_FFFF_FFFF);
    cpu.gpr_mut().set_rcx(0x1111_1111_1111_00FF);
    cpu.gpr_mut().set_rdx(1);
    assert_eq!(
        cpu.run_instr(registers(Mnemonic::Add, RegisterId::CL, RegisterId::DL)),
        Ok(Effect::Executed)
    );
    assert_eq!(cpu.gpr().get_register_value(RegisterId::RCX), 0x1111_1111_1111_0000);
    assert_eq!(
        cpu.run_instr(registers(Mnemonic::Sub, RegisterId::ECX, RegisterId::EDX)),
        Ok(Effect::Executed)
    );
    assert_eq!(cpu.gpr().get_register_value(RegisterId::RCX), 0x1110_FFFF);
    cpu.gpr_mut().set_rcx(0xFFFF_FFFF_0000_0000);
    assert_eq!(
        cpu.run_instr(registers(Mnemonic::Sub, RegisterId::ECX, RegisterId::EDX)),
        Ok(Effect::Executed)
    );
    assert_eq!(cpu.gpr().get_register_value(RegisterId::RCX), 0xFFFF_FFFF);
}

#[test]
fn immediates_are_read_in_their_width() {
    let mut cpu = Cpu::with_memory(Mode::Long, 16);
    let mut mov = instruction(Mnemonic::Mov);
    mov.op0_kind = OperandKind::Register;
    mov.op0_register = RegisterId::RAX;
    mov.immediate8 = 0x11;
    mov.immediate16 = 0x2222;
    mov.immediate32 = 0x3333_3333;
    mov.immediate64 = 0x4444_4444_4444_4444;
    for (kind, value) in [
        (OperandKind::Immediate8, 0x11),
        (OperandKind::Immediate16, 0x2222),
        (OperandKind::Immediate32, 0x3333_3333),
        (OperandKind::Immediate64, 0x4444_4444_4444_4444),
        (OperandKind::Other, 0),
    ] {
        mov.op1_kind = kind;
        assert_eq!(cpu.get_op1value(mov), Ok(value));
        assert_eq!(cpu.run_instr(mov), Ok(Effect::Executed));
        assert_eq!(cpu.gpr().get_register_value(RegisterId::RAX), value);
    }
    mov.op0_kind = OperandKind::Immediate16;
    assert_eq!(cpu.get_op0value(mov), Ok(0x2222));
}

#[test]
fn memory_operands_use_the_width_of_the_mode() {
    let mut real = Cpu::with_memory(Mode::Real, 0x20000);
    real.gpr_mut().set_register_value(RegisterId::DS, 0x1000);
    real.gpr_mut().set_rbx(0xAABB_CCDD_1122_3344);
    let mut store = instruction(Mnemonic::Mov);
    store.op0_kind = OperandKind::Memory;
    store.op1_kind = OperandKind::Register;
    store.op1_register = RegisterId::RBX;
    store.segment_prefix = Some(RegisterId::DS);
    store.memory_displacement32 = 0x20;
    store.memory_displacement64 = 0x9999;
    store.memory_base = Some(RegisterId::RBX);
    assert_eq!(real.run_instr(store), Ok(Effect::Executed));
    assert_eq!(real.memory().read_many_u8(0x10020, 4), vec![0x44, 0x33, 0, 0]);
    assert_eq!(real.get_op0value(store), Ok(0x3344));
    let mut protected = Cpu::with_memory(Mode::Protected, 0x20000);
    protected.gpr_mut().set_register_value(RegisterId::DS, 0x1000);
    protected.gpr_mut().set_rbx(0xAABB_CCDD_1122_3344);
    assert_eq!(protected.run_instr(store), Ok(Effect::Executed));
    assert_eq!(
        protected.memory().read_many_u8(0x1020, 6),
        vec![0x44, 0x33, 0x22, 0x11, 0, 0]
    );
    assert_eq!(protected.get_op0value(store), Ok(0x1122_3344));
    let mut load = instruction(Mnemonic::Add);
    load.op0_kind = OperandKind::Register;
    load.op0_register = RegisterId::ECX;
    load.op1_kind = OperandKind::Memory;
    load.segment_prefix = Some(RegisterId::DS);
    load.memory_displacement32 = 0x20;
    protected.gpr_mut().set_ecx(1);
    assert_eq!(protected.run_instr(load), Ok(Effect::Executed));
    assert_eq!(protected.gpr().get_register_value(RegisterId::RCX), 0x1122_3345);
}

#[test]
fn memory_operand_without_prefix_has_base_zero() {
    let mut cpu = Cpu::with_memory(Mode::Real, 0x100);
    cpu.gpr_mut().set_register_value(RegisterId::DS, 0x1000);
    assert_eq!(cpu.write_to_mem(0x40, 0xBEEF), Ok(()));
    let mut load = instruction(Mnemonic::Mov);
    load.op0_kind = OperandKind::Register;
    load.op0_register = RegisterId::DX;
    load.op1_kind = OperandKind::Memory;
    load.memory_displacement32 = 0x40;
    assert_eq!(cpu.run_instr(load), Ok(Effect::Executed));
    assert_eq!(cpu.gpr().get_register_value(RegisterId::DX), 0xBEEF);
}

#[test]
fn memory_beyond_the_end_is_out_of_bounds() {
    let mut cpu = Cpu::with_memory(Mode::Real, 0x100);
    cpu.gpr_mut().set_rax(0x1234);
    let mut store = instruction(Mnemonic::Mov);
    store.op0_kind = OperandKind::Memory;
    store.op1_kind = OperandKind::Register;
    store.op1_register = RegisterId::AX;
    store.memory_displacement32 = 0xFF;
    assert_eq!(cpu.run_instr(store), Err(VmError::OutOfBounds));
    assert_eq!(cpu.memory().read_u8(0xFF), 0);
    assert_eq!(cpu.get_op0value(store), Err(VmError::OutOfBounds));
    store.memory_displacement32 = 0xFE;
    assert_eq!(cpu.run_instr(store), Ok(Effect::Executed));
    assert_eq!(cpu.memory().read_u16(0xFE), 0x1234);
    assert_eq!(cpu.write_to_mem(0xFF, 1), Err(VmError::OutOfBounds));
    assert_eq!(cpu.write_to_mem(u64::MAX, 1), Err(VmError::OutOfBounds));
    let mut protected = Cpu::with_memory(Mode::Protected, 0x100);
    assert_eq!(protected.write_to_mem(0xFD, 1), Err(VmError::OutOfBounds));
    assert_eq!(protected.write_to_mem(0xFC, 0x0102_0304), Ok(()));
    assert_eq!(protected.memory().read_u32(0xFC), 0x0102_0304);
    let mut add = store;
    add.mnemonic = Mnemonic::Add;
    add.memory_displacement32 = 0x200;
    assert_eq!(cpu.run_instr(add), Err(VmError::OutOfBounds));
    add.mnemonic = Mnemonic::Cmp;
    assert_eq!(cpu.run_instr(add), Err(VmError::OutOfBounds));
    add.mnemonic = Mnemonic::Jmp;
    assert_eq!(cpu.run_instr(add), Err(VmError::OutOfBounds));
    assert_eq!(cpu.ip().rip, 0);
}

#[test]
fn long_mode_rejects_memory_reads_and_drops_memory_writes() {
    let mut cpu = Cpu::with_memory(Mode::Long, 0x100);
    cpu.gpr_mut().set_rax(0x1234);
    let mut store = instruction(Mnemonic::Mov);
    store.op0_kind = OperandKind::Memory;
    store.op1_kind = OperandKind::Register;
    store.op1_register = RegisterId::RAX;
    store.memory_displacement32 = 0x10;
    store.memory_displacement64 = 0x10;
    assert_eq!(cpu.run_instr(store), Ok(Effect::Executed));
    assert_eq!(cpu.memory().read_many_u8(0, 0x100), vec![0u8; 0x100]);
    assert_eq!(cpu.write_op0(store, 7), Ok(()));
    store.memory_displacement32 = 0xFFFF;
    assert_eq!(cpu.write_op0(store, 7), Ok(()));
    assert_eq!(cpu.get_op0value(store), Err(VmError::UnsupportedTranslation));
    let mut load = instruction(Mnemonic::Mov);
    load.op0_kind = OperandKind::Register;
    load.op0_register = RegisterId::RBX;
    load.op1_kind = OperandKind::Memory;
    assert_eq!(cpu.run_instr(load), Err(VmError::UnsupportedTranslation));
    assert_eq!(cpu.get_op1value(load), Err(VmError::UnsupportedTranslation));
    store.mnemonic = Mnemonic::Add;
    assert_eq!(cpu.run_instr(store), Err(VmError::UnsupportedTranslation));
    assert_eq!(cpu.write_to_mem(0x20, 0x0102_0304_0506_0708), Ok(()));
    assert_eq!(cpu.memory().read_many_u8(0x20, 8), vec![8, 7, 6, 5, 4, 3, 2, 1]);
    assert_eq!(cpu.write_to_mem(0xF9, 1), Err(VmError::OutOfBounds));
}

#[test]
fn jumps_set_the_instruction_pointer() {
    let mut cpu = Cpu::with_memory(Mode::Real, 16);
    cpu.gpr_mut().set_rax(0xFFFF_0000_1234);
    let mut jump = instruction(Mnemonic::Jmp);
    jump.op0_kind = OperandKind::Register;
    jump.op0_register = RegisterId::AX;
    assert_eq!(cpu.run_instr(jump), Ok(Effect::Jump(0x1234)));
    assert_eq!(cpu.ip().rip, 0x1234);
    jump.op0_register = RegisterId::RAX;
    assert_eq!(cpu.run_instr(jump), Ok(Effect::Jump(0xFFFF_0000_1234)));
    assert_eq!(cpu.ip().rip, 0xFFFF_0000_1234);
    jump.op0_kind = OperandKind::Other;
    assert_eq!(cpu.run_instr(jump), Ok(Effect::Jump(0)));
    assert_eq!(cpu.ip().rip, 0);
}

#[test]
fn conditional_jumps_follow_the_zero_flag() {
    let mut cpu = Cpu::with_memory(Mode::Real, 16);
    cpu.gpr_mut().set_bx(0x80);
    cpu.ip_mut().rip = 5;
    let mut je = instruction(Mnemonic::Je);
    je.op0_kind = OperandKind::Register;
    je.op0_register = RegisterId::BX;
    let mut jne = je;
    jne.mnemonic = Mnemonic::Jne;
    assert_eq!(cpu.run_instr(je), Ok(Effect::Executed));
    assert_eq!(cpu.ip().rip, 5);
    assert_eq!(cpu.run_instr(jne), Ok(Effect::Executed));
    assert_eq!(cpu.ip().rip, 0x80);
    cpu.flags_mut().zero();
    cpu.ip_mut().rip = 5;
    assert_eq!(cpu.run_instr(jne), Ok(Effect::Executed));
    assert_eq!(cpu.ip().rip, 5);
    assert_eq!(cpu.run_instr(je), Ok(Effect::Executed));
    assert_eq!(cpu.ip().rip, 0x80);
    let mut untaken = jne;
    untaken.op0_kind = OperandKind::Memory;
    untaken.memory_displacement32 = 0xFFFF;
    assert_eq!(cpu.run_instr(untaken), Ok(Effect::Executed));
    untaken.mnemonic = Mnemonic::Je;
    assert_eq!(cpu.run_instr(untaken), Err(VmError::OutOfBounds));
}

#[test]
fn cli_clears_only_the_interrupt_flag() {
    let mut cpu = Cpu::with_memory(Mode::Real, 16);
    cpu.flags_mut().interrupt().zero().carry();
    assert_eq!(cpu.run_instr(instruction(Mnemonic::Cli)), Ok(Effect::Executed));
    assert!(!cpu.flags().is_interrupt());
    assert_eq!(cpu.flags().flags, 64 | 1);
}

#[test]
fn lgdt_reports_limit_and_base() {
    let mut cpu = Cpu::with_memory(Mode::Real, 0x100);
    assert_eq!(cpu.write_to_mem(0x30, 0x0017), Ok(()));
    assert_eq!(cpu.write_to_mem(0x32, 0x8000), Ok(()));
    assert_eq!(cpu.write_to_mem(0x34, 0x0001), Ok(()));
    cpu.gpr_mut().set_rbx(0x10);
    cpu.gpr_mut().set_register_value(RegisterId::DS, 0x1000);
    let mut lgdt = instruction(Mnemonic::Lgdt);
    lgdt.op0_kind = OperandKind::Memory;
    lgdt.memory_base = Some(RegisterId::BX);
    lgdt.memory_displacement32 = 0x20;
    lgdt.segment_prefix = Some(RegisterId::DS);
    assert_eq!(cpu.get_op0addr(lgdt), Ok(Some(0x30)));
    assert_eq!(
        cpu.run_instr(lgdt),
        Ok(Effect::DescriptorTable { limit: 0x17, base: 0x0001_8000 })
    );
    lgdt.memory_base = None;
    assert_eq!(cpu.get_op0addr(lgdt), Ok(Some(0x20)));
    lgdt.memory_displacement32 = 0xFB;
    assert_eq!(cpu.run_instr(lgdt), Err(VmError::OutOfBounds));
    lgdt.memory_displacement32 = 0xFA;
    assert_eq!(
        cpu.run_instr(lgdt),
        Ok(Effect::DescriptorTable { limit: 0, base: 0 })
    );
    lgdt.op0_kind = OperandKind::Register;
    assert_eq!(cpu.get_op0addr(lgdt), Ok(None));
    assert_eq!(cpu.run_instr(lgdt), Err(VmError::DecodeFailure));
}

#[test]
fn operand_address_uses_the_displacement_of_the_mode() {
    let mut access = instruction(Mnemonic::Lgdt);
    access.op0_kind = OperandKind::Memory;
    access.memory_base = Some(RegisterId::RAX);
    access.memory_displacement32 = 0x20;
    access.memory_displacement64 = 0x1_0000_0020;
    let mut protected = Cpu::with_memory(Mode::Protected, 16);
    protected.gpr_mut().set_rax(0x100);
    assert_eq!(protected.get_op0addr(access), Ok(Some(0x120)));
    let mut long = Cpu::with_memory(Mode::Long, 16);
    long.gpr_mut().set_rax(0x100);
    assert_eq!(long.get_op0addr(access), Ok(Some(0x1_0000_0120)));
    long.gpr_mut().set_rax(0xFFFF_FFFF_0000_0000);
    assert_eq!(long.get_op0addr(access), Err(VmError::OutOfBounds));
    access.memory_displacement64 = 0xFFFF_FFFF;
    assert_eq!(long.get_op0addr(access), Ok(Some(u64::MAX)));
    assert_eq!(long.run_instr(access), Err(VmError::OutOfBounds));
}

#[test]
fn mnemonic_without_a_rule_changes_nothing() {
    let mut cpu = booted(&[0x90, 0xF4]);
    assert_eq!(cpu.step(), Ok(Effect::Unhandled(iced_x86::Mnemonic::Nop as u16)));
    assert_eq!(cpu.ip().rip, 0xFFF1);
    assert_eq!(cpu.flags().flags, 0);
    assert_eq!(cpu.step(), Ok(Effect::Halt));
    assert_eq!(
        cpu.run_instr(instruction(Mnemonic::Other(9999))),
        Ok(Effect::Unhandled(9999))
    );
}

#[test]
fn a_program_runs_from_the_boot_sector() {
    let mut cpu = booted(&[
        0xB8, 0x05, 0x00, // mov ax, 5
        0xBB, 0x03, 0x00, // mov bx, 3
        0x01, 0xD8, // add ax, bx
        0x39, 0xD8, // cmp ax, bx
        0x29, 0xD8, // sub ax, bx
        0x29, 0xD8, // sub ax, bx
        0x39, 0xD8, // cmp ax, bx
        0x89, 0x1E, 0x00, 0x20, // mov [0x2000], bx
        0x8B, 0x0E, 0x00, 0x20, // mov cx, [0x2000]
        0x09, 0xC1, // or cx, ax
        0x21, 0xD9, // and cx, bx
        0xFA, // cli
        0xFF, 0xE3, // jmp bx
    ]);
    cpu.flags_mut().interrupt();
    assert_eq!(cpu.step(), Ok(Effect::Executed));
    assert_eq!(cpu.ip().rip, 0xFFF3);
    assert_eq!(cpu.step(), Ok(Effect::Executed));
    assert_eq!(cpu.step(), Ok(Effect::Executed));
    assert_eq!(cpu.gpr().get_register_value(RegisterId::AX), 8);
    assert_eq!(cpu.step(), Ok(Effect::Executed));
    assert!(!cpu.flags().is_zero());
    assert!(!cpu.flags().is_carry());
    assert_eq!(cpu.step(), Ok(Effect::Executed));
    assert_eq!(cpu.step(), Ok(Effect::Executed));
    assert_eq!(cpu.gpr().get_register_value(RegisterId::AX), 2);
    assert_eq!(cpu.step(), Ok(Effect::Executed));
    assert!(cpu.flags().is_carry());
    assert!(!cpu.flags().is_zero());
    assert_eq!(cpu.step(), Ok(Effect::Executed));
    assert_eq!(cpu.memory().read_u16(0x2000), 3);
    assert_eq!(cpu.step(), Ok(Effect::Executed));
    assert_eq!(cpu.gpr().get_register_value(RegisterId::CX), 3);
    assert_eq!(cpu.step(), Ok(Effect::Executed));
    assert_eq!(cpu.gpr().get_register_value(RegisterId::CX), 3);
    assert_eq!(cpu.step(), Ok(Effect::Executed));
    assert_eq!(cpu.gpr().get_register_value(RegisterId::CX), 3);
    assert!(cpu.flags().is_interrupt());
    assert_eq!(cpu.step(), Ok(Effect::Executed));
    assert!(!cpu.flags().is_interrupt());
    assert_eq!(cpu.step(), Ok(Effect::Jump(3)));
    assert_eq!(cpu.ip().rip, 3);
}

#[test]
fn teletype_runs_from_the_boot_sector() {
    let mut cpu = booted(&[
        0xB4, 0x0E, // mov ah, 0x0e
        0xB0, 0x41, // mov al, 'A'
        0xCD, 0x10, // int 0x10
        0xB0, 0x42, // mov al, 'B'
        0xCD, 0x10, // int 0x10
        0xF4, // hlt
    ]);
    cpu.flags_mut().interrupt();
    for _ in 0..5 {
        assert_eq!(cpu.step(), Ok(Effect::Executed));
    }
    assert_eq!(cpu.step(), Ok(Effect::Halt));
    assert_eq!(cpu.memory().read_many_u8(VGA, 4), vec![b'A', b'B', 0, 0]);
    assert_eq!(cpu.console(), Ok(vec!['A', 'B']));
}

#[test]
fn sign_extended_immediates_read_as_zero() {
    let mut cpu = booted(&[0xB8, 0x05, 0x00, 0x83, 0xC0, 0x05]);
    assert_eq!(cpu.step(), Ok(Effect::Executed));
    assert_eq!(cpu.step(), Ok(Effect::Executed));
    assert_eq!(cpu.gpr().get_register_value(RegisterId::AX), 5);
    assert_eq!(cpu.ip().rip, 0xFFF6);
}

#[test]
fn bytes_that_are_no_instruction_stop_the_step() {
    let mut cpu = Cpu::with_memory(Mode::Long, 32);
    assert_eq!(cpu.write_to_mem(0, 0x06), Ok(()));
    assert_eq!(cpu.step(), Err(VmError::DecodeFailure));
    assert_eq!(cpu.ip().rip, 0);
    assert!(!cpu.is_halted());
}

#[test]
fn fetch_stops_at_the_end_of_memory() {
    let mut cpu = Cpu::with_memory(Mode::Real, 20);
    assert_eq!(cpu.write_to_mem(18, 0xF4F4), Ok(()));
    cpu.ip_mut().rip = 10;
    assert_eq!(cpu.fetch().unwrap().len(), 10);
    cpu.ip_mut().rip = 19;
    assert_eq!(cpu.fetch(), Ok(vec![0xF4]));
    assert_eq!(cpu.step(), Ok(Effect::Halt));
    assert_eq!(cpu.ip().rip, 20);
    let mut beyond = Cpu::with_memory(Mode::Real, 20);
    beyond.ip_mut().rip = 20;
    assert_eq!(beyond.fetch(), Err(VmError::OutOfBounds));
    assert_eq!(beyond.step(), Err(VmError::OutOfBounds));
    beyond.ip_mut().rip = u64::MAX;
    assert_eq!(beyond.step(), Err(VmError::OutOfBounds));
    let mut cut = Cpu::with_memory(Mode::Real, 20);
    assert_eq!(cut.write_to_mem(18, 0x34B8), Ok(()));
    cut.ip_mut().rip = 18;
    assert_eq!(cut.step(), Err(VmError::DecodeFailure));
    assert_eq!(cut.ip().rip, 18);
}

#[test]
fn advance_moves_past_the_instruction_first() {
    let mut cpu = Cpu::with_memory(Mode::Real, 16);
    cpu.ip_mut().rip = 0x100;
    let mut long_nop = instruction(Mnemonic::Other(1));
    long_nop.len = 15;
    assert_eq!(cpu.advance(long_nop), Ok(Effect::Unhandled(1)));
    assert_eq!(cpu.ip().rip, 0x10F);
    let mut failing = instruction(Mnemonic::Mov);
    failing.len = 4;
    failing.op1_kind = OperandKind::Memory;
    failing.memory_displacement32 = 0x1000;
    assert_eq!(cpu.advance(failing), Err(VmError::OutOfBounds));
    assert_eq!(cpu.ip().rip, 0x113);
    cpu.ip_mut().rip = u64::MAX - 3;
    assert_eq!(cpu.advance(failing), Err(VmError::OutOfBounds));
    assert_eq!(cpu.ip().rip, u64::MAX - 3);
    let mut jump = instruction(Mnemonic::Jmp);
    jump.len = 3;
    assert_eq!(cpu.advance(jump), Ok(Effect::Jump(0)));
    assert_eq!(cpu.ip().rip, 0);
}

#[test]
fn console_breaks_lines_behind_the_last_column() {
    let mut cpu = Cpu::new();
    for (offset, byte) in [(0u64, b'a'), (79, b'b'), (80, b'c'), (82, b'd'), (159, 0), (1999, b'z')] {
        let mut protected_write = 0u64;
        protected_write |= byte as u64;
        assert_eq!(cpu.write_to_mem(VGA as u64 + offset, protected_write), Ok(()));
    }
    assert_eq!(cpu.console(), Ok(vec!['a', 'b', '\n', 'c', 'd', 'z', '\n']));
    let cells = cpu.vga_read_chars().unwrap();
    assert_eq!(cells.len(), 2000);
    assert_eq!(cells[79], 'b');
    assert_eq!(cells[1999], 'z');
    assert_eq!(cells[1], '\0');
    let small = Cpu::with_memory(Mode::Real, VGA + 1999);
    assert_eq!(small.console(), Err(VmError::OutOfBounds));
    assert_eq!(small.vga_read_chars(), Err(VmError::OutOfBounds));
    assert_eq!(small.vga_read(1999), Ok(vec!['\0'; 1999]));
    assert_eq!(small.vga_read(2000), Err(VmError::OutOfBounds));
    assert_eq!(small.vga_read(usize::MAX), Err(VmError::OutOfBounds));
}

#[test]
fn high_bytes_of_the_video_buffer_are_characters_too() {
    let mut cpu = Cpu::with_memory(Mode::Real, VGA + 2000);
    assert_eq!(cpu.write_to_mem(VGA as u64, 0xE9), Ok(()));
    assert_eq!(cpu.vga_read(1), Ok(vec!['\u{e9}']));
}

#[test]
fn registers_are_reached_through_the_processor() {
    let mut cpu = Cpu::with_memory(Mode::Real, 16);
    cpu.gpr_mut().set_al(0x12);
    cpu.gpr_mut().set_ah(0x34);
    assert_eq!(cpu.gpr().get_register_value(RegisterId::AX), 0x3412);
    cpu.ip_mut().increment();
    assert_eq!(cpu.ip().rip, 1);
}
