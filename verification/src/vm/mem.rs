//! Flat byte-addressable memory with little-endian accessors.

use crate::vm::bits::{byte_at, byte_of};
use vstd::prelude::*;
use vstd::slice::{slice_subrange, slice_to_vec};

verus! {

/// The size of the machine's memory: 100 MiB.
pub const HUNDRED_MO: usize = 104_857_600;

/// The 16-bit value whose little-endian bytes are `b0`, `b1`.
pub open spec fn u16_from_le(b0: u8, b1: u8) -> u16 {
    (b0 as u16) | ((b1 as u16) << 8)
}

/// The 32-bit value whose little-endian bytes are `b0` to `b3`.
pub open spec fn u32_from_le(b0: u8, b1: u8, b2: u8, b3: u8) -> u32 {
    (b0 as u32) | ((b1 as u32) << 8) | ((b2 as u32) << 16) | ((b3 as u32) << 24)
}

/// `bytes` with the `width` least significant bytes of `value` stored at
/// `addr`, least significant first.
pub open spec fn store_le(bytes: Seq<u8>, addr: int, value: u64, width: nat) -> Seq<u8>
    decreases width,
{
    if width == 0 {
        bytes
    } else {
        store_le(bytes, addr, value, (width - 1) as nat).update(
            addr + width - 1,
            byte_of(value, (width - 1) as u64),
        )
    }
}

/// A store changes the bytes it covers, and no others: byte `i` of the
/// value comes to lie at `addr + i`.
pub proof fn lemma_store_le(bytes: Seq<u8>, addr: int, value: u64, width: nat)
    requires
        0 <= addr,
        addr + width <= bytes.len(),
    ensures
        store_le(bytes, addr, value, width).len() == bytes.len(),
        forall|i: int|
            0 <= i < bytes.len() ==> #[trigger] store_le(bytes, addr, value, width)[i] == if addr
                <= i < addr + width {
                byte_of(value, (i - addr) as u64)
            } else {
                bytes[i]
            },
    decreases width,
{
    if width > 0 {
        lemma_store_le(bytes, addr, value, (width - 1) as nat);
    }
}

/// The bytes of a value, least significant first, are read back as the
/// value.
pub proof fn lemma_le_round_trip(word: u16, dword: u32)
    ensures
        u16_from_le(byte_of(word as u64, 0), byte_of(word as u64, 1)) == word,
        u32_from_le(
            byte_of(dword as u64, 0),
            byte_of(dword as u64, 1),
            byte_of(dword as u64, 2),
            byte_of(dword as u64, 3),
        ) == dword,
{
    let w = word as u64;
    let d = dword as u64;
    assert(((((w >> 0) & 0xff) as u8) as u16) | (((((w >> 8) & 0xff) as u8) as u16) << 8) == word)
        by (bit_vector)
        requires
            w == word as u64,
    ;
    assert(((((d >> 0) & 0xff) as u8) as u32) | (((((d >> 8) & 0xff) as u8) as u32) << 8) | (((((d
        >> 16) & 0xff) as u8) as u32) << 16) | (((((d >> 24) & 0xff) as u8) as u32) << 24)
        == dword) by (bit_vector)
        requires
            d == dword as u64,
    ;
}

/// A fixed number of bytes, addressed from 0.
pub struct Memory {
    data: Vec<u8>,
}

impl View for Memory {
    type V = Seq<u8>;

    closed spec fn view(&self) -> Seq<u8> {
        self.data@
    }
}

impl Memory {
    /// The bytes can be counted in a `usize`.
    pub proof fn lemma_len_bounded(&self)
        ensures
            self@.len() <= usize::MAX,
    {
        assert(self.data.len() == self.data@.len());
    }

    /// A memory of `size` zero bytes.
    pub fn new(size: usize) -> (memory: Self)
        ensures
            memory@.len() == size,
            forall|i: int| 0 <= i < size ==> memory@[i] == 0,
    {
        Self { data: vec![0; size] }
    }

    /// The number of bytes.
    pub fn len(&self) -> (n: usize)
        ensures
            n == self@.len(),
    {
        self.data.len()
    }

    pub fn read_many_u8(&self, addr: usize, size: usize) -> (bytes: Vec<u8>)
        requires
            addr + size <= self@.len(),
        ensures
            bytes@ == self@.subrange(addr as int, addr + size),
    {
        proof {
            self.lemma_len_bounded();
        }
        slice_to_vec(slice_subrange(self.data.as_slice(), addr, addr + size))
    }

    pub fn read_u8(&self, addr: usize) -> (value: u8)
        requires
            addr < self@.len(),
        ensures
            value == self@[addr as int],
    {
        self.data[addr]
    }

    pub fn read_u16(&self, addr: usize) -> (value: u16)
        requires
            addr + 2 <= self@.len(),
        ensures
            value == u16_from_le(self@[addr as int], self@[addr + 1]),
    {
        proof {
            self.lemma_len_bounded();
        }
        let b0 = self.data[addr] as u16;
        let b1 = self.data[addr + 1] as u16;
        b0 | (b1 << 8)
    }

    pub fn read_u32(&self, addr: usize) -> (value: u32)
        requires
            addr + 4 <= self@.len(),
        ensures
            value == u32_from_le(
                self@[addr as int],
                self@[addr + 1],
                self@[addr + 2],
                self@[addr + 3],
            ),
    {
        proof {
            self.lemma_len_bounded();
        }
        let b0 = self.data[addr] as u32;
        let b1 = self.data[addr + 1] as u32;
        let b2 = self.data[addr + 2] as u32;
        let b3 = self.data[addr + 3] as u32;
        b0 | (b1 << 8) | (b2 << 16) | (b3 << 24)
    }

    pub fn write_u8(&mut self, addr: usize, value: u8)
        requires
            addr < old(self)@.len(),
        ensures
            final(self)@ == old(self)@.update(addr as int, value),
    {
        self.data[addr] = value;
    }

    pub fn write_u16(&mut self, addr: usize, value: u16)
        requires
            addr + 2 <= old(self)@.len(),
        ensures
            final(self)@ == store_le(old(self)@, addr as int, value as u64, 2),
    {
        proof {
            self.lemma_len_bounded();
        }
        self.data[addr] = byte_at(value as u64, 0);
        self.data[addr + 1] = byte_at(value as u64, 1);
        proof {
            reveal_with_fuel(store_le, 3);
        }
    }

    pub fn write_u32(&mut self, addr: usize, value: u32)
        requires
            addr + 4 <= old(self)@.len(),
        ensures
            final(self)@ == store_le(old(self)@, addr as int, value as u64, 4),
    {
        proof {
            self.lemma_len_bounded();
        }
        self.data[addr] = byte_at(value as u64, 0);
        self.data[addr + 1] = byte_at(value as u64, 1);
        self.data[addr + 2] = byte_at(value as u64, 2);
        self.data[addr + 3] = byte_at(value as u64, 3);
        proof {
            reveal_with_fuel(store_le, 5);
        }
    }

    pub fn write_u64(&mut self, addr: usize, value: u64)
        requires
            addr + 8 <= old(self)@.len(),
        ensures
            final(self)@ == store_le(old(self)@, addr as int, value, 8),
    {
        proof {
            self.lemma_len_bounded();
        }
        self.data[addr] = byte_at(value, 0);
        self.data[addr + 1] = byte_at(value, 1);
        self.data[addr + 2] = byte_at(value, 2);
        self.data[addr + 3] = byte_at(value, 3);
        self.data[addr + 4] = byte_at(value, 4);
        self.data[addr + 5] = byte_at(value, 5);
        self.data[addr + 6] = byte_at(value, 6);
        self.data[addr + 7] = byte_at(value, 7);
        proof {
            reveal_with_fuel(store_le, 9);
        }
    }
}

} // verus!
