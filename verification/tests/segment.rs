use xvm::vm::register::RegisterId;
use xvm::vm::segment::{SegmentDescriptor, SegmentRegister, GDT, GDT_SIZE};

fn table() -> GDT {
    let mut entries = [SegmentDescriptor::default(); GDT_SIZE];
    for (i, entry) in entries.iter_mut().enumerate() {
        entry.base = 0x1000 * i as u32;
        entry.limit = 0xFFFF + i as u32;
        entry.flags = 0x90 + i as u16;
    }
    GDT::new(entries)
}

#[test]
fn default_descriptors_are_flat() {
    for (register, selector, flags) in [
        (RegisterId::CS, 0x08, 0x9A),
        (RegisterId::DS, 0x10, 0x92),
        (RegisterId::SS, 0x18, 0x92),
        (RegisterId::ES, 0x20, 0x92),
        (RegisterId::FS, 0x28, 0x92),
        (RegisterId::GS, 0x30, 0x92),
        (RegisterId::RAX, 0x08, 0x9A),
        (RegisterId::Unmapped, 0x08, 0x9A),
    ] {
        assert_eq!(
            SegmentRegister::from_register(register),
            SegmentRegister { selector, base: 0, limit: 0, flags }
        );
    }
    assert_eq!(
        SegmentRegister::task_register(),
        SegmentRegister { selector: 0x38, base: 0, limit: 0, flags: 0x82 }
    );
    assert_eq!(
        SegmentRegister::local_descriptor_table_register(),
        SegmentRegister { selector: 0x40, base: 0, limit: 0, flags: 0x82 }
    );
    assert_eq!(
        SegmentRegister::default(),
        SegmentRegister { selector: 0, base: 0, limit: 0, flags: 0 }
    );
}

#[test]
fn load_takes_the_slot_of_the_top_thirteen_bits() {
    let mut gdt = table();
    let mut seg = SegmentRegister::default();
    gdt.load_segment(0x10, &mut seg);
    assert_eq!(
        seg,
        SegmentRegister { selector: 0x10, base: 0x2000, limit: 0x10001, flags: 0x92 }
    );
    gdt.load_segment(0x1F, &mut seg);
    assert_eq!(
        seg,
        SegmentRegister { selector: 0x1F, base: 0x3000, limit: 0x10002, flags: 0x93 }
    );
    gdt.load_segment(0x3F, &mut seg);
    assert_eq!(
        seg,
        SegmentRegister { selector: 0x3F, base: 0x7000, limit: 0x10006, flags: 0x97 }
    );
    gdt.load_segment(0, &mut seg);
    assert_eq!(seg, SegmentRegister { selector: 0, base: 0, limit: 0xFFFF, flags: 0x90 });
    assert_eq!(gdt.gdt, table().gdt);
}

#[test]
fn load_beyond_the_table_changes_nothing() {
    let mut gdt = table();
    let mut seg = SegmentRegister::from_register(RegisterId::DS);
    gdt.load_segment(0x40, &mut seg);
    assert_eq!(seg, SegmentRegister::from_register(RegisterId::DS));
    gdt.load_segment(0xFFFF, &mut seg);
    assert_eq!(seg, SegmentRegister::from_register(RegisterId::DS));
    assert_eq!(gdt.gdt, table().gdt);
}

#[test]
fn initial_table_holds_the_default_descriptors() {
    let mut gdt = GDT::initial();
    assert_eq!(gdt.gdt[0], SegmentDescriptor { base: 0, limit: 0, flags: 0 });
    assert_eq!(gdt.gdt[1], SegmentDescriptor { base: 0, limit: 0, flags: 0x9A });
    assert_eq!(gdt.gdt[7], SegmentDescriptor { base: 0, limit: 0, flags: 0x82 });
    for register in [
        RegisterId::CS,
        RegisterId::DS,
        RegisterId::SS,
        RegisterId::ES,
        RegisterId::FS,
        RegisterId::GS,
    ] {
        let default = SegmentRegister::from_register(register);
        let mut seg = SegmentRegister { selector: 0xFFFF, base: 1, limit: 2, flags: 3 };
        gdt.load_segment(default.selector, &mut seg);
        assert_eq!(seg, default);
    }
    let mut seg = SegmentRegister::default();
    gdt.load_segment(0x38, &mut seg);
    assert_eq!(seg, SegmentRegister::task_register());
    gdt.load_segment(0x40, &mut seg);
    assert_eq!(seg, SegmentRegister::task_register());
}

#[test]
fn processor_owns_its_descriptor_table() {
    let mut cpu = xvm::vm::cpu::Cpu::with_memory(xvm::vm::Mode::Protected, 16);
    assert_eq!(cpu.gdt().gdt, GDT::initial().gdt);
    cpu.gdt_mut().gdt[2] = SegmentDescriptor { base: 0x10_0000, limit: 0xFFFF, flags: 0x92 };
    let mut seg = SegmentRegister::default();
    cpu.gdt_mut().load_segment(0x10, &mut seg);
    assert_eq!(
        seg,
        SegmentRegister { selector: 0x10, base: 0x10_0000, limit: 0xFFFF, flags: 0x92 }
    );
    cpu.gpr_mut().set_register_value(RegisterId::DS, 0x10);
    assert_eq!(cpu.segmentation_to_physical(Some(RegisterId::DS), 0x34), Ok(0x44));
}
