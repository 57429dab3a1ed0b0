use xvm::vm::cpu::{translate, Cpu};
use xvm::vm::register::RegisterId;
use xvm::vm::{Mode, VmError};

#[test]
fn real_mode_translation_shifts_the_segment() {
    assert_eq!(translate(Mode::Real, 0x1000, 0x10), Ok(0x10010));
    assert_eq!(translate(Mode::Real, 0, 0), Ok(0));
    assert_eq!(translate(Mode::Real, 0xF000, 0xFFF0), Ok(0xFFFF0));
}

#[test]
fn protected_mode_translation_adds_the_segment() {
    assert_eq!(translate(Mode::Protected, 0x2000, 0x34), Ok(0x2034));
    assert_eq!(translate(Mode::Protected, 0, 0xFFFF_FFFF), Ok(0xFFFF_FFFF));
}

#[test]
fn translation_does_not_wrap() {
    assert_eq!(
        translate(Mode::Real, 0xFFFF_FFFF, 0xFFFF_FFFF),
        Ok(0xFFFF_FFFFu64 * 16 + 0xFFFF_FFFF)
    );
    assert_eq!(
        translate(Mode::Protected, 0xFFFF_FFFF, 0xFFFF_FFFF),
        Ok(0x1_FFFF_FFFE)
    );
}

#[test]
fn long_mode_has_no_translation() {
    assert_eq!(
        translate(Mode::Long, 0x1000, 0x10),
        Err(VmError::UnsupportedTranslation)
    );
}

#[test]
fn translation_reads_the_segment_register() {
    let mut cpu = Cpu::with_memory(Mode::Real, 16);
    cpu.gpr_mut().set_register_value(RegisterId::DS, 0x1000);
    assert_eq!(cpu.segmentation_to_physical(Some(RegisterId::DS), 0x10), Ok(0x10010));
    assert_eq!(cpu.segmentation_to_physical(Some(RegisterId::ES), 0x10), Ok(0x10));
    assert_eq!(cpu.segmentation_to_physical(None, 0x10), Ok(0x10));
    let mut protected = Cpu::with_memory(Mode::Protected, 16);
    protected.gpr_mut().set_register_value(RegisterId::SS, 0x2000);
    assert_eq!(protected.segmentation_to_physical(Some(RegisterId::SS), 0x34), Ok(0x2034));
    let long = Cpu::with_memory(Mode::Long, 16);
    assert_eq!(
        long.segmentation_to_physical(None, 0),
        Err(VmError::UnsupportedTranslation)
    );
}
