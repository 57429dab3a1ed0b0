//! The pieces of an encoded instruction: prefixes, ModRM, SIB and
//! displacement.

use crate::ast::Bits;
use crate::decoder::{operand_bytes, Decoder, Parsed};
use vstd::prelude::*;
use vstd::std_specs::convert::{FromSpecImpl, TryFromSpecImpl};

pub mod mov;

verus! {

/// A REX prefix: a byte `0100WRXB`.
#[derive(Debug, Copy, Clone, PartialEq, Eq, Structural)]
pub struct Rex {
    pub is_64: bool,
    pub reg_ext: bool,
    pub index_ext: bool,
    pub base_ext: bool,
}

/// The decimal text of a number below 16.
pub open spec fn nibble_text(nibble: u8) -> Seq<char> {
    if nibble == 0 {
        "0"@
    } else if nibble == 1 {
        "1"@
    } else if nibble == 2 {
        "2"@
    } else if nibble == 3 {
        "3"@
    } else if nibble == 4 {
        "4"@
    } else if nibble == 5 {
        "5"@
    } else if nibble == 6 {
        "6"@
    } else if nibble == 7 {
        "7"@
    } else if nibble == 8 {
        "8"@
    } else if nibble == 9 {
        "9"@
    } else if nibble == 10 {
        "10"@
    } else if nibble == 11 {
        "11"@
    } else if nibble == 12 {
        "12"@
    } else if nibble == 13 {
        "13"@
    } else if nibble == 14 {
        "14"@
    } else {
        "15"@
    }
}

/// Computes [`nibble_text`].
fn nibble_string(nibble: u8) -> (text: String)
    requires
        nibble < 16,
    ensures
        text@ == nibble_text(nibble),
{
    match nibble {
        0 => "0".to_string(),
        1 => "1".to_string(),
        2 => "2".to_string(),
        3 => "3".to_string(),
        4 => "4".to_string(),
        5 => "5".to_string(),
        6 => "6".to_string(),
        7 => "7".to_string(),
        8 => "8".to_string(),
        9 => "9".to_string(),
        10 => "10".to_string(),
        11 => "11".to_string(),
        12 => "12".to_string(),
        13 => "13".to_string(),
        14 => "14".to_string(),
        _ => "15".to_string(),
    }
}

impl Rex {
    /// The byte of the prefix.
    pub open spec fn byte(self) -> u8 {
        0x40u8 | (if self.is_64 {
            8u8
        } else {
            0u8
        }) | (if self.reg_ext {
            4u8
        } else {
            0u8
        }) | (if self.index_ext {
            2u8
        } else {
            0u8
        }) | (if self.base_ext {
            1u8
        } else {
            0u8
        })
    }

    /// The prefix that a byte stands for, or the decimal text of the byte's
    /// high nibble where that is not 4.
    pub open spec fn of_byte(value: u8) -> Result<Rex, Seq<char>> {
        if value >> 4 != 4 {
            Err(nibble_text(value >> 4))
        } else {
            Ok(
                Rex {
                    is_64: (value & 0xF) & 0b1000 != 0,
                    reg_ext: (value & 0xF) & 0b0100 != 0,
                    index_ext: (value & 0xF) & 0b0010 != 0,
                    base_ext: (value & 0xF) & 0b0001 != 0,
                },
            )
        }
    }

    pub fn is_rex_prefix(val: u8) -> (yes: bool)
        ensures
            yes == (0x40 <= val <= 0x4F),
    {
        val >= 0x40 && val <= 0x4F
    }

    pub fn to_byte(&self) -> (byte: u8)
        ensures
            byte == self.byte(),
    {
        let w: u8 = if self.is_64 {
            8
        } else {
            0
        };
        let r: u8 = if self.reg_ext {
            4
        } else {
            0
        };
        let x: u8 = if self.index_ext {
            2
        } else {
            0
        };
        let b: u8 = if self.base_ext {
            1
        } else {
            0
        };
        0x40 | w | r | x | b
    }
}

impl Default for Rex {
    fn default() -> (rex: Self)
        ensures
            rex == (Rex { is_64: false, reg_ext: false, index_ext: false, base_ext: false }),
    {
        Rex { is_64: false, reg_ext: false, index_ext: false, base_ext: false }
    }
}

/// Whether a result is the expected one, where text compares by its
/// characters.
pub open spec fn same_outcome<T>(
    result: Result<T, String>,
    expected: Result<T, Seq<char>>,
) -> bool {
    match (result, expected) {
        (Ok(value), Ok(wanted)) => value == wanted,
        (Err(message), Err(text)) => message@ == text,
        _ => false,
    }
}

impl TryFrom<u8> for Rex {
    type Error = String;

    fn try_from(value: u8) -> (rex: Result<Self, String>)
        ensures
            same_outcome(rex, Rex::of_byte(value)),
    {
        let s = value >> 4;
        if s != 4 {
            assert(value >> 4 < 16) by (bit_vector);
            Err(nibble_string(s))
        } else {
            let sig = value & 0xF;
            let is_64 = sig & 0b1000 != 0;
            let reg_ext = sig & 0b0100 != 0;
            let index_ext = sig & 0b0010 != 0;
            let base_ext = sig & 0b0001 != 0;
            Ok(Rex { is_64, reg_ext, index_ext, base_ext })
        }
    }
}

impl TryFromSpecImpl<u8> for Rex {
    /// Two texts with the same characters need not be the same `String`, so
    /// the outcome is stated over characters, by [`Rex::of_byte`].
    open spec fn obeys_try_from_spec() -> bool {
        false
    }

    open spec fn try_from_spec(value: u8) -> Result<Self, String> {
        match Rex::of_byte(value) {
            Ok(rex) => Ok(rex),
            Err(text) => Err(choose|message: String| message@ == text),
        }
    }
}

/// The byte of a REX prefix is read back as the same prefix, and a byte
/// that is one is the byte of the prefix it is read as.
pub proof fn lemma_rex_round_trip(rex: Rex, value: u8)
    ensures
        Rex::of_byte(rex.byte()) == Ok::<Rex, Seq<char>>(rex),
        0x40 <= rex.byte() <= 0x4F,
        0x40 <= value <= 0x4F ==> Rex::of_byte(value) is Ok && Rex::of_byte(value)->Ok_0.byte()
            == value,
{
    let w: u8 = if rex.is_64 {
        8
    } else {
        0
    };
    let r: u8 = if rex.reg_ext {
        4
    } else {
        0
    };
    let x: u8 = if rex.index_ext {
        2
    } else {
        0
    };
    let b: u8 = if rex.base_ext {
        1
    } else {
        0
    };
    assert((w == 0 || w == 8) && (r == 0 || r == 4) && (x == 0 || x == 2) && (b == 0 || b == 1)
        ==> {
        let byte = 0x40u8 | w | r | x | b;
        &&& byte >> 4 == 4
        &&& 0x40 <= byte <= 0x4F
        &&& ((byte & 0xF) & 0b1000 != 0) == (w == 8)
        &&& ((byte & 0xF) & 0b0100 != 0) == (r == 4)
        &&& ((byte & 0xF) & 0b0010 != 0) == (x == 2)
        &&& ((byte & 0xF) & 0b0001 != 0) == (b == 1)
    }) by (bit_vector);
    assert(0x40 <= value <= 0x4F ==> {
        &&& value >> 4 == 4
        &&& 0x40u8 | (if (value & 0xF) & 0b1000 != 0 {
            8u8
        } else {
            0u8
        }) | (if (value & 0xF) & 0b0100 != 0 {
            4u8
        } else {
            0u8
        }) | (if (value & 0xF) & 0b0010 != 0 {
            2u8
        } else {
            0u8
        }) | (if (value & 0xF) & 0b0001 != 0 {
            1u8
        } else {
            0u8
        }) == value
    }) by (bit_vector);
}

/// A segment-override prefix.
#[derive(Debug, Clone, Copy, PartialEq, Eq, Structural)]
pub enum Segment {
    CS,
    SS,
    DS,
    ES,
    FS,
    GS,
}

impl Segment {
    /// The byte of the prefix.
    pub open spec fn byte(self) -> u8 {
        match self {
            Segment::CS => 0x2E,
            Segment::SS => 0x36,
            Segment::DS => 0x3E,
            Segment::ES => 0x26,
            Segment::FS => 0x64,
            Segment::GS => 0x65,
        }
    }

    /// Whether a byte is a segment-override prefix.
    pub open spec fn is_prefix(value: u8) -> bool {
        value == 0x2E || value == 0x36 || value == 0x3E || value == 0x26 || value == 0x64 || value
            == 0x65
    }

    /// The prefix with the given byte.
    pub fn from(value: u8) -> (segment: Segment)
        requires
            Segment::is_prefix(value),
        ensures
            segment.byte() == value,
    {
        match value {
            0x2E => Segment::CS,
            0x36 => Segment::SS,
            0x3E => Segment::DS,
            0x26 => Segment::ES,
            0x64 => Segment::FS,
            _ => Segment::GS,
        }
    }
}

impl From<Segment> for u8 {
    fn from(segment: Segment) -> (byte: u8)
        ensures
            byte == segment.byte(),
    {
        match segment {
            Segment::CS => 0x2E,
            Segment::SS => 0x36,
            Segment::DS => 0x3E,
            Segment::ES => 0x26,
            Segment::FS => 0x64,
            Segment::GS => 0x65,
        }
    }
}

impl FromSpecImpl<Segment> for u8 {
    open spec fn obeys_from_spec() -> bool {
        true
    }

    open spec fn from_spec(segment: Segment) -> u8 {
        segment.byte()
    }
}

/// An instruction prefix.
#[derive(Debug, Clone, Copy, PartialEq, Eq, Structural)]
pub enum Prefix {
    Rex(Rex),
    OperandSize,
    AddressSize,
    Segment(Segment),
    Lock,
    RepNZ,
    RepZ,
}

impl Prefix {
    /// The byte of the prefix.
    pub open spec fn byte(self) -> u8 {
        match self {
            Prefix::Rex(rex) => rex.byte(),
            Prefix::OperandSize => 0x66,
            Prefix::AddressSize => 0x67,
            Prefix::Segment(segment) => segment.byte(),
            Prefix::Lock => 0xF0,
            Prefix::RepZ => 0xF2,
            Prefix::RepNZ => 0xF3,
        }
    }

    /// The prefix that a byte is read as, or why it is read as none. The
    /// bytes 0x40 to 0x4E are REX prefixes, and both 0xF2 and 0xF3 are read
    /// as `RepNZ`.
    pub open spec fn of_byte(value: u8) -> Result<Prefix, Seq<char>> {
        if 0x40 <= value < 0x4F {
            match Rex::of_byte(value) {
                Ok(rex) => Ok(Prefix::Rex(rex)),
                Err(text) => Err(text),
            }
        } else if value == 0x66 {
            Ok(Prefix::OperandSize)
        } else if value == 0x67 {
            Ok(Prefix::AddressSize)
        } else if value == 0x2E {
            Ok(Prefix::Segment(Segment::CS))
        } else if value == 0x36 {
            Ok(Prefix::Segment(Segment::SS))
        } else if value == 0x3E {
            Ok(Prefix::Segment(Segment::DS))
        } else if value == 0x26 {
            Ok(Prefix::Segment(Segment::ES))
        } else if value == 0x64 {
            Ok(Prefix::Segment(Segment::FS))
        } else if value == 0x65 {
            Ok(Prefix::Segment(Segment::GS))
        } else if value == 0xF0 {
            Ok(Prefix::Lock)
        } else if value == 0xF2 || value == 0xF3 {
            Ok(Prefix::RepNZ)
        } else {
            Err("Prefix not found"@)
        }
    }

    pub fn opcode(&self) -> (byte: u8)
        ensures
            byte == self.byte(),
    {
        match self {
            Prefix::Rex(rex) => rex.to_byte(),
            Prefix::OperandSize => 0x66,
            Prefix::AddressSize => 0x67,
            Prefix::Segment(seg) => (*seg).into(),
            Prefix::Lock => 0xF0,
            Prefix::RepZ => 0xF2,
            Prefix::RepNZ => 0xF3,
        }
    }
}

impl TryFrom<u8> for Prefix {
    type Error = String;

    fn try_from(value: u8) -> (prefix: Result<Self, String>)
        ensures
            same_outcome(prefix, Prefix::of_byte(value)),
    {
        if 0x40 <= value && value < 0x4F {
            match Rex::try_from(value) {
                Ok(rex) => Ok(Prefix::Rex(rex)),
                Err(message) => Err(message),
            }
        } else if value == 0x66 {
            Ok(Prefix::OperandSize)
        } else if value == 0x67 {
            Ok(Prefix::AddressSize)
        } else if value == 0x2E || value == 0x36 || value == 0x3E || value == 0x26 || value == 0x64
            || value == 0x65 {
            Ok(Prefix::Segment(Segment::from(value)))
        } else if value == 0xF0 {
            Ok(Prefix::Lock)
        } else if value == 0xF2 {
            Ok(Prefix::RepNZ)
        } else if value == 0xF3 {
            Ok(Prefix::RepNZ)
        } else {
            Err("Prefix not found".to_string())
        }
    }
}

impl TryFromSpecImpl<u8> for Prefix {
    /// Two texts with the same characters need not be the same `String`, so
    /// the outcome is stated over characters, by [`Prefix::of_byte`].
    open spec fn obeys_try_from_spec() -> bool {
        false
    }

    open spec fn try_from_spec(value: u8) -> Result<Self, String> {
        match Prefix::of_byte(value) {
            Ok(prefix) => Ok(prefix),
            Err(text) => Err(choose|message: String| message@ == text),
        }
    }
}

/// A ModRM byte: `mod` in bits 6 and 7, `reg` in bits 3 to 5, `rm` in bits
/// 0 to 2.
#[derive(Debug, Clone, Copy, PartialEq, Eq, Structural)]
pub struct ModRM {
    pub mod_: u8,
    pub reg: u8,
    pub rm: u8,
}

impl ModRM {
    /// The fields of a ModRM byte.
    pub open spec fn of_byte(byte: u8) -> ModRM {
        ModRM { mod_: (byte >> 6) & 0b11, reg: (byte >> 3) & 0b111, rm: byte & 0b111 }
    }

    pub fn decode(byte: u8) -> (modrm: Self)
        ensures
            modrm == ModRM::of_byte(byte),
    {
        Self { mod_: (byte >> 6) & 0b11, reg: (byte >> 3) & 0b111, rm: byte & 0b111 }
    }
}

/// A SIB byte: `scale` in bits 6 and 7, `index` in bits 3 to 5, `base` in
/// bits 0 to 2.
#[derive(Debug, Clone, Copy, PartialEq, Eq, Structural)]
pub struct Sib {
    pub scale: u8,
    pub index: u8,
    pub base: u8,
}

impl Sib {
    /// The fields of a SIB byte.
    pub open spec fn of_byte(sib: u8) -> Sib {
        Sib { scale: (sib >> 6) & 0b11, index: (sib >> 3) & 0b111, base: sib & 0b111 }
    }

    /// The factor that a scale field stands for: 2 to the power of the
    /// field.
    pub open spec fn factor(self) -> u8 {
        if self.scale == 0 {
            1
        } else if self.scale == 1 {
            2
        } else if self.scale == 2 {
            4
        } else {
            8
        }
    }

    pub fn from_byte(sib: u8) -> (fields: Self)
        ensures
            fields == Sib::of_byte(sib),
            fields.scale < 4,
            fields.index < 8,
            fields.base < 8,
    {
        let scale = (sib >> 6) & 0b11;
        let index = (sib >> 3) & 0b111;
        let base = sib & 0b111;
        assert((sib >> 6) & 0b11 < 4 && (sib >> 3) & 0b111 < 8 && sib & 0b111 < 8) by (bit_vector);
        Self { scale, index, base }
    }

    pub fn scale_factor(&self) -> (factor: u8)
        requires
            self.scale < 4,
        ensures
            factor == self.factor(),
    {
        match self.scale {
            0b00 => 1,
            0b01 => 2,
            0b10 => 4,
            _ => 8,
        }
    }
}

/// A displacement and the number of bits it was encoded in.
#[derive(Debug, Clone, Copy, PartialEq, Eq, Structural)]
pub struct Displacement {
    pub displacement: usize,
    pub displacement_size: i32,
}

/// An instruction as the byte decoder reads it.
#[derive(Debug, Copy, Clone, PartialEq, Eq, Structural)]
pub struct Instr {
    pub prefix: Option<Prefix>,
    pub opcode: u8,
    pub operand: Operand,
}

/// The operand bytes that follow an opcode.
#[derive(Debug, Copy, Clone, PartialEq, Eq, Structural)]
pub struct Operand {
    pub mod_rm: Option<ModRM>,
    pub sib: Option<Sib>,
    pub displacement: Option<Displacement>,
    pub immediate: Option<u64>,
}

impl Default for Operand {
    fn default() -> (operand: Self)
        ensures
            operand == (Operand { mod_rm: None, sib: None, displacement: None, immediate: None }),
    {
        Operand { mod_rm: None, sib: None, displacement: None, immediate: None }
    }
}

impl Default for Instr {
    fn default() -> (instr: Self)
        ensures
            instr == (Instr {
                prefix: None,
                opcode: 0,
                operand: Operand { mod_rm: None, sib: None, displacement: None, immediate: None },
            }),
    {
        Instr { prefix: None, opcode: 0, operand: Operand::default() }
    }
}

/// What an opcode byte at `at`, a ModRM byte behind it and the operand
/// bytes behind that are read as: an instruction with the given prefix and
/// opcode. The opcode byte itself is taken unread.
pub open spec fn opcode_and_operand(
    bytes: Seq<u8>,
    at: int,
    prefix: Option<Prefix>,
    opcode: u8,
) -> Parsed<Instr> {
    if bytes.len() < at + 2 {
        Parsed { result: Err("EOF"@), taken: (bytes.len() - at) as nat }
    } else {
        let operand = operand_bytes(ModRM::of_byte(bytes[at + 1]), bytes, at + 2);
        Parsed {
            result: match operand.result {
                Ok(operand) => Ok(Instr { prefix, opcode, operand }),
                Err(text) => Err(text),
            },
            taken: 2 + operand.taken,
        }
    }
}

/// A parser of one encoding of an instruction.
pub trait Parse {
    /// What the parser makes of the bytes from `at` on in a mode.
    spec fn parsed(bytes: Seq<u8>, at: int, mode: Bits) -> Parsed<Instr>;

    /// Reads one instruction at the cursor.
    fn parse(buffer: &mut Decoder, mode: Bits) -> (instr: Result<Instr, String>)
        ensures
            same_outcome(
                instr,
                Self::parsed(old(buffer).bytes(), old(buffer).position() as int, mode).result,
            ),
            old(buffer).moved_to(
                final(buffer),
                Self::parsed(old(buffer).bytes(), old(buffer).position() as int, mode).taken,
            ),
    ;
}

} // verus!
