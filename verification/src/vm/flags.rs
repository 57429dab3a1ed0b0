//! The flags word: ten flags, each with bits of its own.

use vstd::prelude::*;

verus! {

/// Carry: bit 0.
pub const CARRY: u64 = 1;

/// Parity: bit 2.
pub const PARITY: u64 = 4;

/// Adjust: bit 4.
pub const ADJUST: u64 = 16;

/// Zero: bit 6.
pub const ZERO: u64 = 64;

/// Sign: bit 7.
pub const SIGN: u64 = 128;

/// Trap: bit 8.
pub const TRAP: u64 = 256;

/// Interrupt enable: bit 9.
pub const INTERRUPT: u64 = 512;

/// Direction: bit 10.
pub const DIRECTION: u64 = 1024;

/// Overflow: bit 11.
pub const OVERFLOW: u64 = 2048;

/// I/O privilege level: bits 12 and 13.
pub const IOPL: u64 = 12288;

/// Whether `mask` is one of the ten flags of this module.
pub open spec fn is_flag(mask: u64) -> bool {
    mask == CARRY || mask == PARITY || mask == ADJUST || mask == ZERO || mask == SIGN || mask
        == TRAP || mask == INTERRUPT || mask == DIRECTION || mask == OVERFLOW || mask == IOPL
}

/// The flags register. The machine keeps its flags in `flags`; `rflags` and
/// `eflags` are storage that no rule reads or writes.
#[derive(Debug, Clone, Copy, Default)]
pub struct FlagsRegister {
    pub rflags: u64,
    pub eflags: u32,
    pub flags: u64,
}

impl FlagsRegister {
    /// Whether every bit of `mask` is set.
    pub open spec fn has(self, mask: u64) -> bool {
        self.flags & mask == mask
    }

    /// The register with the bits of `mask` set.
    pub open spec fn with_set(self, mask: u64) -> FlagsRegister {
        FlagsRegister { flags: self.flags | mask, ..self }
    }

    /// The register with the bits of `mask` cleared.
    pub open spec fn with_cleared(self, mask: u64) -> FlagsRegister {
        FlagsRegister { flags: self.flags & !mask, ..self }
    }

    /// The register with the bits of `mask` set if `on`, cleared if not.
    pub open spec fn with_flag(self, mask: u64, on: bool) -> FlagsRegister {
        if on {
            self.with_set(mask)
        } else {
            self.with_cleared(mask)
        }
    }
    pub fn is_carry(&self) -> (set: bool)
        ensures
            set == self.has(CARRY),
    {
        self.flags & CARRY == CARRY
    }

    pub fn carry(&mut self) -> (register: &mut Self)
        ensures
            *register == old(self).with_set(CARRY),
            *final(self) == *final(register),
    {
        self.flags |= CARRY;
        self
    }

    pub fn no_carry(&mut self) -> (register: &mut Self)
        ensures
            *register == old(self).with_cleared(CARRY),
            *final(self) == *final(register),
    {
        self.flags &= !CARRY;
        self
    }

    pub fn is_parity(&self) -> (set: bool)
        ensures
            set == self.has(PARITY),
    {
        self.flags & PARITY == PARITY
    }

    pub fn parity(&mut self) -> (register: &mut Self)
        ensures
            *register == old(self).with_set(PARITY),
            *final(self) == *final(register),
    {
        self.flags |= PARITY;
        self
    }

    pub fn no_parity(&mut self) -> (register: &mut Self)
        ensures
            *register == old(self).with_cleared(PARITY),
            *final(self) == *final(register),
    {
        self.flags &= !PARITY;
        self
    }

    pub fn is_adjust(&self) -> (set: bool)
        ensures
            set == self.has(ADJUST),
    {
        self.flags & ADJUST == ADJUST
    }

    pub fn adjust(&mut self) -> (register: &mut Self)
        ensures
            *register == old(self).with_set(ADJUST),
            *final(self) == *final(register),
    {
        self.flags |= ADJUST;
        self
    }

    pub fn is_zero(&self) -> (set: bool)
        ensures
            set == self.has(ZERO),
    {
        self.flags & ZERO == ZERO
    }

    pub fn zero(&mut self) -> (register: &mut Self)
        ensures
            *register == old(self).with_set(ZERO),
            *final(self) == *final(register),
    {
        self.flags |= ZERO;
        self
    }

    pub fn no_zero(&mut self) -> (register: &mut Self)
        ensures
            *register == old(self).with_cleared(ZERO),
            *final(self) == *final(register),
    {
        self.flags &= !ZERO;
        self
    }

    pub fn is_sign(&self) -> (set: bool)
        ensures
            set == self.has(SIGN),
    {
        self.flags & SIGN == SIGN
    }

    pub fn sign(&mut self) -> (register: &mut Self)
        ensures
            *register == old(self).with_set(SIGN),
            *final(self) == *final(register),
    {
        self.flags |= SIGN;
        self
    }

    pub fn is_trap(&self) -> (set: bool)
        ensures
            set == self.has(TRAP),
    {
        self.flags & TRAP == TRAP
    }

    pub fn trap(&mut self) -> (register: &mut Self)
        ensures
            *register == old(self).with_set(TRAP),
            *final(self) == *final(register),
    {
        self.flags |= TRAP;
        self
    }

    pub fn is_interrupt(&self) -> (set: bool)
        ensures
            set == self.has(INTERRUPT),
    {
        self.flags & INTERRUPT == INTERRUPT
    }

    pub fn interrupt(&mut self) -> (register: &mut Self)
        ensures
            *register == old(self).with_set(INTERRUPT),
            *final(self) == *final(register),
    {
        self.flags |= INTERRUPT;
        self
    }

    pub fn no_interrupt(&mut self) -> (register: &mut Self)
        ensures
            *register == old(self).with_cleared(INTERRUPT),
            *final(self) == *final(register),
    {
        self.flags &= !INTERRUPT;
        self
    }

    pub fn is_direction(&self) -> (set: bool)
        ensures
            set == self.has(DIRECTION),
    {
        self.flags & DIRECTION == DIRECTION
    }

    pub fn direction(&mut self) -> (register: &mut Self)
        ensures
            *register == old(self).with_set(DIRECTION),
            *final(self) == *final(register),
    {
        self.flags |= DIRECTION;
        self
    }

    pub fn is_overflow(&self) -> (set: bool)
        ensures
            set == self.has(OVERFLOW),
    {
        self.flags & OVERFLOW == OVERFLOW
    }

    pub fn overflow(&mut self) -> (register: &mut Self)
        ensures
            *register == old(self).with_set(OVERFLOW),
            *final(self) == *final(register),
    {
        self.flags |= OVERFLOW;
        self
    }

    pub fn is_iopl(&self) -> (set: bool)
        ensures
            set == self.has(IOPL),
    {
        self.flags & IOPL == IOPL
    }

    pub fn iopl(&mut self) -> (register: &mut Self)
        ensures
            *register == old(self).with_set(IOPL),
            *final(self) == *final(register),
    {
        self.flags |= IOPL;
        self
    }
}

/// Setting or clearing one flag makes that flag read as set or cleared and
/// leaves each of the other nine as it was.
pub proof fn lemma_flags_independent(register: FlagsRegister, changed: u64, other: u64)
    requires
        is_flag(changed),
        is_flag(other),
        changed != other,
    ensures
        register.with_set(changed).has(changed),
        !register.with_cleared(changed).has(changed),
        register.with_set(changed).has(other) == register.has(other),
        register.with_cleared(changed).has(other) == register.has(other),
{
    lemma_masks(register.flags, changed, other);
}

/// Setting a flag that is set, or clearing one that is clear, changes nothing.
pub proof fn lemma_flags_idempotent(register: FlagsRegister, mask: u64)
    ensures
        register.with_set(mask).with_set(mask) == register.with_set(mask),
        register.with_cleared(mask).with_cleared(mask) == register.with_cleared(mask),
        register.has(mask) ==> register.with_set(mask) == register,
{
    let flags = register.flags;
    assert((flags | mask) | mask == flags | mask && (flags & !mask) & !mask == flags & !mask && (
    flags & mask == mask ==> flags | mask == flags)) by (bit_vector);
}

proof fn lemma_masks(flags: u64, changed: u64, other: u64)
    by (bit_vector)
    requires
        changed == 1 || changed == 4 || changed == 16 || changed == 64 || changed == 128 || changed
            == 256 || changed == 512 || changed == 1024 || changed == 2048 || changed == 12288,
        other == 1 || other == 4 || other == 16 || other == 64 || other == 128 || other == 256
            || other == 512 || other == 1024 || other == 2048 || other == 12288,
        changed != other,
    ensures
        (flags | changed) & changed == changed,
        (flags & !changed) & changed != changed,
        ((flags | changed) & other == other) == (flags & other == other),
        ((flags & !changed) & other == other) == (flags & other == other),
{
}

} // verus!
