//! Operand syntax: widths, immediates and register names.

use vstd::prelude::*;
use vstd::std_specs::convert::FromSpecImpl;

verus! {

/// An operand width.
#[derive(Debug, Copy, Clone, PartialEq, Eq, Structural)]
pub enum Bits {
    Bit8,
    Bit16,
    Bit32,
    Bit64,
}

impl Bits {
    /// The width as a number of bits.
    pub open spec fn width(self) -> u32 {
        match self {
            Bits::Bit8 => 8,
            Bits::Bit16 => 16,
            Bits::Bit32 => 32,
            Bits::Bit64 => 64,
        }
    }
}

impl From<Bits> for u32 {
    fn from(bits: Bits) -> (width: u32) {
        match bits {
            Bits::Bit8 => 8,
            Bits::Bit16 => 16,
            Bits::Bit32 => 32,
            Bits::Bit64 => 64,
        }
    }
}

impl FromSpecImpl<Bits> for u32 {
    open spec fn obeys_from_spec() -> bool {
        true
    }

    open spec fn from_spec(bits: Bits) -> u32 {
        bits.width()
    }
}

/// An operand: a register, an immediate, or the memory that another operand
/// addresses.
pub enum Value {
    Memory(Box<Value>),
    Register(Register),
    Immediate(Immediate),
}

/// A literal with the width it was written in.
pub struct Immediate {
    bits: Bits,
    val: usize,
}

impl Immediate {
    /// The width of the literal.
    pub closed spec fn width(&self) -> Bits {
        self.bits
    }

    /// The literal.
    pub closed spec fn value(&self) -> usize {
        self.val
    }

    pub fn new(bits: Bits, val: usize) -> (immediate: Self)
        ensures
            immediate.width() == bits,
            immediate.value() == val,
    {
        Self { bits, val }
    }

    pub fn bits(&self) -> (bits: Bits)
        ensures
            bits == self.width(),
    {
        self.bits
    }
}

impl From<u8> for Immediate {
    fn from(value: u8) -> (immediate: Self)
        ensures
            immediate.width() == Bits::Bit8,
            immediate.value() == value as usize,
    {
        Self::new(Bits::Bit8, value as usize)
    }
}

impl FromSpecImpl<u8> for Immediate {
    open spec fn obeys_from_spec() -> bool {
        true
    }

    closed spec fn from_spec(value: u8) -> Immediate {
        Immediate { bits: Bits::Bit8, val: value as usize }
    }
}

impl From<u16> for Immediate {
    fn from(value: u16) -> (immediate: Self)
        ensures
            immediate.width() == Bits::Bit16,
            immediate.value() == value as usize,
    {
        Self::new(Bits::Bit16, value as usize)
    }
}

impl FromSpecImpl<u16> for Immediate {
    open spec fn obeys_from_spec() -> bool {
        true
    }

    closed spec fn from_spec(value: u16) -> Immediate {
        Immediate { bits: Bits::Bit16, val: value as usize }
    }
}

impl From<u32> for Immediate {
    fn from(value: u32) -> (immediate: Self)
        ensures
            immediate.width() == Bits::Bit32,
            immediate.value() == value as usize,
    {
        Self::new(Bits::Bit32, value as usize)
    }
}

impl FromSpecImpl<u32> for Immediate {
    open spec fn obeys_from_spec() -> bool {
        true
    }

    closed spec fn from_spec(value: u32) -> Immediate {
        Immediate { bits: Bits::Bit32, val: value as usize }
    }
}

impl From<u64> for Immediate {
    fn from(value: u64) -> (immediate: Self)
        ensures
            immediate.width() == Bits::Bit64,
            immediate.value() == value as usize,
    {
        Self::new(Bits::Bit64, value as usize)
    }
}

impl FromSpecImpl<u64> for Immediate {
    open spec fn obeys_from_spec() -> bool {
        true
    }

    closed spec fn from_spec(value: u64) -> Immediate {
        Immediate { bits: Bits::Bit64, val: value as usize }
    }
}

/// The kinds of register that an operand can name.
#[derive(Debug, Copy, Clone, PartialEq, Eq, Structural)]
pub enum RegisterKind {
    Accumulator,
    Base,
    Counter,
    Data,
    SourceIndex,
    DestIndex,
    StackPtr,
    BasePtr,
    Gp1,
    Gp2,
    Gp3,
    Gp4,
    Gp5,
    Gp6,
    Gp7,
    AH,
    BH,
    CH,
    DH,
    IP,
    CS,
    DS,
    SS,
    ES,
    FS,
    GS,
}

impl RegisterKind {
    /// Whether the kind is the high byte of a 16-bit register.
    pub open spec fn high_8bit(self) -> bool {
        matches!(self, RegisterKind::AH | RegisterKind::BH | RegisterKind::CH | RegisterKind::DH)
    }

    /// Whether the kind is a segment register.
    pub open spec fn segment_register(self) -> bool {
        matches!(
            self,
            RegisterKind::CS | RegisterKind::DS | RegisterKind::SS | RegisterKind::ES
                | RegisterKind::FS | RegisterKind::GS
        )
    }

    pub fn is_high_8bit(&self) -> (high: bool)
        ensures
            high == self.high_8bit(),
    {
        matches!(self, RegisterKind::AH | RegisterKind::BH | RegisterKind::CH | RegisterKind::DH)
    }

    pub fn is_segment_register(&self) -> (segment: bool)
        ensures
            segment == self.segment_register(),
    {
        matches!(
            self,
            RegisterKind::CS | RegisterKind::DS | RegisterKind::SS | RegisterKind::ES
                | RegisterKind::FS | RegisterKind::GS
        )
    }
}

/// A register operand: a kind and the width it is used at.
pub struct Register {
    bits: Bits,
    kind: RegisterKind,
}

/// Why a kind of register cannot be used at a width; `None` where it can.
pub open spec fn register_refusal(kind: RegisterKind, bits: Bits) -> Option<Seq<char>> {
    if kind.segment_register() && bits != Bits::Bit16 {
        Some("segment register must be 16 bit"@)
    } else if kind == RegisterKind::IP && bits == Bits::Bit8 {
        Some("Instruction Pointer can't be 8 bit"@)
    } else if kind.high_8bit() && bits != Bits::Bit16 {
        Some("High 8bit must be 16 bit"@)
    } else {
        None
    }
}

impl Register {
    /// The width the register is used at.
    pub closed spec fn width(&self) -> Bits {
        self.bits
    }

    /// The kind of the register.
    pub closed spec fn kind(&self) -> RegisterKind {
        self.kind
    }

    /// A register operand, or the reason why the kind cannot be used at
    /// that width.
    pub fn new(kind: RegisterKind, bits: Bits) -> (register: Result<Self, String>)
        ensures
            match register {
                Ok(r) => register_refusal(kind, bits) is None && r.kind() == kind && r.width()
                    == bits,
                Err(message) => register_refusal(kind, bits) == Some(message@),
            },
    {
        if kind.is_segment_register() && bits != Bits::Bit16 {
            return Err("segment register must be 16 bit".to_string());
        }
        if kind == RegisterKind::IP && bits == Bits::Bit8 {
            return Err("Instruction Pointer can't be 8 bit".to_string());
        }
        if kind.is_high_8bit() && bits != Bits::Bit16 {
            return Err("High 8bit must be 16 bit".to_string());
        }
        Ok(Register { kind, bits })
    }
}

} // verus!
