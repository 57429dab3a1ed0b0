//! Segment descriptors: the descriptor table, the cached descriptor of a
//! segment register, and the load of one from the other.
//!
//! This is storage and a load primitive. Address translation does not
//! consult it.

use crate::vm::register::RegisterId;
use vstd::prelude::*;

verus! {

/// The number of descriptors in a table.
pub const GDT_SIZE: usize = 8;

/// The descriptor that a segment register caches.
#[derive(Debug, Clone, Copy, PartialEq, Eq, Structural)]
pub struct SegmentRegister {
    pub selector: u16,
    pub base: u32,
    pub limit: u32,
    pub flags: u16,
}

impl SegmentRegister {
    /// The default descriptor with the given selector and access flags:
    /// base and limit are 0.
    pub open spec fn flat(selector: u16, flags: u16) -> SegmentRegister {
        SegmentRegister { selector, base: 0, limit: 0, flags }
    }

    /// The default descriptor of a register: those of the six segment
    /// registers, and that of `CS` for every other register.
    pub open spec fn default_of(register: RegisterId) -> SegmentRegister {
        match register {
            RegisterId::DS => SegmentRegister::flat(0x10, 0x92),
            RegisterId::SS => SegmentRegister::flat(0x18, 0x92),
            RegisterId::ES => SegmentRegister::flat(0x20, 0x92),
            RegisterId::FS => SegmentRegister::flat(0x28, 0x92),
            RegisterId::GS => SegmentRegister::flat(0x30, 0x92),
            _ => SegmentRegister::flat(0x08, 0x9A),
        }
    }

    /// The default descriptor of a register.
    pub fn from_register(register: RegisterId) -> (descriptor: SegmentRegister)
        ensures
            descriptor == SegmentRegister::default_of(register),
    {
        match register {
            RegisterId::CS => SegmentRegister { selector: 0x08, base: 0, limit: 0, flags: 0x9A },
            RegisterId::DS => SegmentRegister { selector: 0x10, base: 0, limit: 0, flags: 0x92 },
            RegisterId::SS => SegmentRegister { selector: 0x18, base: 0, limit: 0, flags: 0x92 },
            RegisterId::ES => SegmentRegister { selector: 0x20, base: 0, limit: 0, flags: 0x92 },
            RegisterId::FS => SegmentRegister { selector: 0x28, base: 0, limit: 0, flags: 0x92 },
            RegisterId::GS => SegmentRegister { selector: 0x30, base: 0, limit: 0, flags: 0x92 },
            _ => SegmentRegister { selector: 0x08, base: 0, limit: 0, flags: 0x9A },
        }
    }

    /// The default descriptor of the task register.
    pub fn task_register() -> (descriptor: SegmentRegister)
        ensures
            descriptor == SegmentRegister::flat(0x38, 0x82),
    {
        SegmentRegister { selector: 0x38, base: 0, limit: 0, flags: 0x82 }
    }

    /// The default descriptor of the local descriptor table register.
    pub fn local_descriptor_table_register() -> (descriptor: SegmentRegister)
        ensures
            descriptor == SegmentRegister::flat(0x40, 0x82),
    {
        SegmentRegister { selector: 0x40, base: 0, limit: 0, flags: 0x82 }
    }
}

impl Default for SegmentRegister {
    fn default() -> (descriptor: Self)
        ensures
            descriptor == (SegmentRegister { selector: 0, base: 0, limit: 0, flags: 0 }),
    {
        SegmentRegister { selector: 0, base: 0, limit: 0, flags: 0 }
    }
}

/// An entry of the descriptor table.
#[derive(Debug, Clone, Copy, PartialEq, Eq, Structural)]
pub struct SegmentDescriptor {
    pub base: u32,
    pub limit: u32,
    pub flags: u16,
}

impl Default for SegmentDescriptor {
    fn default() -> (descriptor: Self)
        ensures
            descriptor == (SegmentDescriptor { base: 0, limit: 0, flags: 0 }),
    {
        SegmentDescriptor { base: 0, limit: 0, flags: 0 }
    }
}

/// The global descriptor table.
pub struct GDT {
    pub gdt: [SegmentDescriptor; GDT_SIZE],
}

/// The slot that a selector names: its top 13 bits. The low three bits,
/// privilege level and table indicator, do not count.
pub open spec fn slot(selector: u16) -> int {
    (selector >> 3) as int
}

/// The descriptor that the table of a new machine holds in a slot: slot 0
/// is the null descriptor, slot 1 is code, slots 2 to 6 are data and slot
/// 7 is the task state. Base and limit are 0 throughout.
pub open spec fn initial_descriptor(slot: int) -> SegmentDescriptor {
    SegmentDescriptor {
        base: 0,
        limit: 0,
        flags: if slot == 1 {
            0x9A
        } else if 2 <= slot <= 6 {
            0x92
        } else if slot == 7 {
            0x82
        } else {
            0
        },
    }
}

impl GDT {
    /// Whether the table is that of a new machine.
    pub open spec fn is_initial(self) -> bool {
        forall|slot: int| 0 <= slot < GDT_SIZE ==> self.gdt@[slot] == initial_descriptor(slot)
    }

    /// The table of a new machine.
    pub fn initial() -> (table: Self)
        ensures
            table.is_initial(),
    {
        let flat = SegmentDescriptor { base: 0, limit: 0, flags: 0x92 };
        Self {
            gdt: [
                SegmentDescriptor { base: 0, limit: 0, flags: 0 },
                SegmentDescriptor { base: 0, limit: 0, flags: 0x9A },
                flat,
                flat,
                flat,
                flat,
                flat,
                SegmentDescriptor { base: 0, limit: 0, flags: 0x82 },
            ],
        }
    }

    /// What a segment register caches after a load of `selector`: the
    /// selector and the descriptor in its slot, or what it cached before
    /// where the table has no such slot.
    pub open spec fn loaded(self, selector: u16, seg: SegmentRegister) -> SegmentRegister {
        if slot(selector) < GDT_SIZE {
            SegmentRegister {
                selector,
                base: self.gdt@[slot(selector)].base,
                limit: self.gdt@[slot(selector)].limit,
                flags: self.gdt@[slot(selector)].flags,
            }
        } else {
            seg
        }
    }

    pub fn new(gdt: [SegmentDescriptor; GDT_SIZE]) -> (table: Self)
        ensures
            table.gdt == gdt,
    {
        Self { gdt }
    }

    /// Loads a segment register from the slot that `selector` names. The
    /// table stays as it is.
    pub fn load_segment(&mut self, selector: u16, seg: &mut SegmentRegister)
        ensures
            *final(self) == *old(self),
            *final(seg) == old(self).loaded(selector, *old(seg)),
    {
        let index = (selector >> 3) as usize;
        if index < GDT_SIZE {
            let desc = self.gdt[index];
            seg.selector = selector;
            seg.base = desc.base;
            seg.limit = desc.limit;
            seg.flags = desc.flags;
        }
    }
}

/// A load of the selector of a default descriptor from the table of a new
/// machine gives that default descriptor, for each register and for the
/// task register.
pub proof fn lemma_initial_table_holds_the_defaults(
    table: GDT,
    register: RegisterId,
    before: SegmentRegister,
)
    requires
        table.is_initial(),
    ensures
        table.loaded(SegmentRegister::default_of(register).selector, before)
            == SegmentRegister::default_of(register),
        table.loaded(0x38, before) == SegmentRegister::flat(0x38, 0x82),
{
    assert(0x08u16 >> 3 == 1 && 0x10u16 >> 3 == 2 && 0x18u16 >> 3 == 3 && 0x20u16 >> 3 == 4
        && 0x28u16 >> 3 == 5 && 0x30u16 >> 3 == 6 && 0x38u16 >> 3 == 7) by (bit_vector);
    let selector = SegmentRegister::default_of(register).selector;
    assert(table.gdt@[slot(selector)] == initial_descriptor(slot(selector)));
    assert(table.gdt@[7] == initial_descriptor(7));
}

} // verus!
