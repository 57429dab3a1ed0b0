//! A cursor over encoded instructions, and the reading of operand bytes.

use crate::bytecode::{same_outcome, Displacement, ModRM, Operand, Sib};
use crate::vm::mem::u32_from_le;
use vstd::prelude::*;

verus! {

/// What a parser makes of its input: what it read, or why it read nothing,
/// and the number of bytes that it took either way.
pub struct Parsed<T> {
    pub result: Result<T, Seq<char>>,
    pub taken: nat,
}

/// What the operand bytes from `at` on are read as after the given ModRM
/// byte: a SIB byte where `rm` is 4, then a displacement of one byte where
/// `mod` is 1 and of four bytes, least significant first, where `mod` is 2.
/// Where the bytes end too early, all that are left are taken.
pub open spec fn operand_bytes(modrm: ModRM, bytes: Seq<u8>, at: int) -> Parsed<Operand> {
    let sib_len: int = if modrm.rm == 0b100 {
        1
    } else {
        0
    };
    let displacement_len: int = if modrm.mod_ == 0b01 {
        1
    } else if modrm.mod_ == 0b10 {
        4
    } else {
        0
    };
    let start = at + sib_len;
    if bytes.len() < at + sib_len + displacement_len {
        Parsed { result: Err("EOF"@), taken: (bytes.len() - at) as nat }
    } else {
        Parsed {
            result: Ok(
                Operand {
                    mod_rm: Some(modrm),
                    sib: if modrm.rm == 0b100 {
                        Some(Sib::of_byte(bytes[at]))
                    } else {
                        None
                    },
                    displacement: if modrm.mod_ == 0b01 {
                        Some(
                            Displacement {
                                displacement: bytes[start] as usize,
                                displacement_size: 8,
                            },
                        )
                    } else if modrm.mod_ == 0b10 {
                        Some(
                            Displacement {
                                displacement: u32_from_le(
                                    bytes[start],
                                    bytes[start + 1],
                                    bytes[start + 2],
                                    bytes[start + 3],
                                ) as usize,
                                displacement_size: 32,
                            },
                        )
                    } else {
                        None
                    },
                    immediate: None,
                },
            ),
            taken: (sib_len + displacement_len) as nat,
        }
    }
}

/// A cursor over a buffer of bytes.
pub struct Decoder {
    buffer: Vec<u8>,
    current: usize,
}

impl Decoder {
    #[verifier::type_invariant]
    spec fn in_buffer(self) -> bool {
        self.current <= self.buffer@.len()
    }

    /// The bytes of the buffer.
    pub closed spec fn bytes(&self) -> Seq<u8> {
        self.buffer@
    }

    /// The number of bytes that have been read.
    pub closed spec fn position(&self) -> nat {
        self.current as nat
    }

    /// Whether `later` is this cursor after `taken` more bytes were read.
    pub open spec fn moved_to(&self, later: &Decoder, taken: nat) -> bool {
        later.bytes() == self.bytes() && later.position() == self.position() + taken
            && later.position() <= later.bytes().len()
    }

    /// A cursor at the start of `buffer`.
    pub fn new(buffer: Vec<u8>) -> (decoder: Self)
        ensures
            decoder.bytes() == buffer@,
            decoder.position() == 0,
    {
        Decoder { buffer, current: 0 }
    }

    /// Whether every byte has been read.
    pub fn is_eof(&self) -> (eof: bool)
        ensures
            eof == (self.position() >= self.bytes().len()),
            self.position() <= self.bytes().len(),
    {
        proof {
            use_type_invariant(self);
        }
        self.current == self.buffer.len()
    }

    /// Reads one byte. Fails with `"EOF"`, and reads nothing, exactly when
    /// every byte has been read.
    pub fn next(&mut self) -> (byte: Result<u8, String>)
        ensures
            match byte {
                Ok(value) => old(self).position() < old(self).bytes().len() && value == old(
                    self,
                ).bytes()[old(self).position() as int] && old(self).moved_to(final(self), 1),
                Err(message) => old(self).position() >= old(self).bytes().len() && message@
                    == "EOF"@ && old(self).moved_to(final(self), 0),
            },
    {
        proof {
            use_type_invariant(&*self);
            assert(self.buffer.len() == self.buffer@.len());
        }
        if self.is_eof() {
            return Err("EOF".to_string());
        }
        let value = self.buffer[self.current];
        self.current += 1;
        Ok(value)
    }

    /// Reads the operand bytes that follow the given ModRM byte. Fails with
    /// `"EOF"` exactly when the bytes end too early; all of them have then
    /// been read.
    pub fn decode_operand(&mut self, modrm: ModRM) -> (operand: Result<Operand, String>)
        ensures
            same_outcome(
                operand,
                operand_bytes(modrm, old(self).bytes(), old(self).position() as int).result,
            ),
            old(self).moved_to(
                final(self),
                operand_bytes(modrm, old(self).bytes(), old(self).position() as int).taken,
            ),
    {
        proof {
            use_type_invariant(&*self);
        }
        let mut operand = Operand::default();
        operand.mod_rm = Some(modrm);
        if modrm.rm == 0b100 {
            operand.sib = Some(Sib::from_byte(self.next()?))
        }
        if modrm.mod_ == 0b01 {
            operand.displacement = Some(
                Displacement { displacement: self.next()? as usize, displacement_size: 8 },
            )
        } else if modrm.mod_ == 0b10 {
            let b0 = self.next()? as u32;
            let b1 = self.next()? as u32;
            let b2 = self.next()? as u32;
            let b3 = self.next()? as u32;
            operand.displacement = Some(
                Displacement {
                    displacement: (b0 | (b1 << 8) | (b2 << 16) | (b3 << 24)) as usize,
                    displacement_size: 32,
                },
            )
        }
        Ok(operand)
    }
}

} // verus!
