//! A flat, byte-addressable 64 KiB backing store covering the whole 16-bit
//! address space, with the little-endian word helpers the core needs.

use vstd::prelude::*;

verus! {

/// How many bytes the 16-bit address space holds.
pub const ADDRESS_SPACE: usize = 0x10000;

/// The little-endian word at `addr`: low byte at `addr`, high byte at the
/// following address, which wraps at the top of the address space.
pub open spec fn spec_word_at(m: Seq<u8>, addr: u16) -> u16 {
    (m[addr as int] + 256 * m[((addr + 1) % 0x10000) as int]) as u16
}

/// The little-endian word read through a zero-page pointer: the high byte's
/// address wraps within the zero page, never crossing into page one.
pub open spec fn spec_word_at_zero_page(m: Seq<u8>, pointer: u8) -> u16 {
    (m[pointer as int] + 256 * m[((pointer + 1) % 0x100) as int]) as u16
}

/// A flat 64 KiB memory. Its view is the sequence of all 65536 bytes.
pub struct Memory {
    bytes: Vec<u8>,
}

impl View for Memory {
    type V = Seq<u8>;

    closed spec fn view(&self) -> Seq<u8> {
        self.bytes@
    }
}

impl Memory {
    #[verifier::type_invariant]
    spec fn wf(self) -> bool {
        self.bytes@.len() == ADDRESS_SPACE
    }

    /// A memory of 65536 bytes, all zero.
    pub fn new() -> (r: Memory)
        ensures
            r@ == Seq::new(0x10000, |i: int| 0u8),
    {
        let mut bytes: Vec<u8> = Vec::new();
        let mut k: usize = 0;
        while k < ADDRESS_SPACE
            invariant
                k <= ADDRESS_SPACE,
                bytes@ =~= Seq::new(k as nat, |i: int| 0u8),
            decreases ADDRESS_SPACE - k,
        {
            bytes.push(0);
            k += 1;
        }
        assert(bytes@ =~= Seq::new(0x10000, |i: int| 0u8));
        Memory { bytes }
    }

    /// How many addresses the memory covers.
    pub fn len(&self) -> (r: usize)
        ensures
            r == self@.len(),
            r == 0x10000,
    {
        proof {
            use_type_invariant(self);
        }
        self.bytes.len()
    }

    /// The byte at `address`.
    pub fn read_byte(&self, address: u16) -> (r: u8)
        ensures
            r == self@[address as int],
    {
        proof {
            use_type_invariant(self);
        }
        self.bytes[address as usize]
    }

    /// Stores `value` at `address`.
    pub fn write_byte(&mut self, address: u16, value: u8)
        ensures
            final(self)@ == old(self)@.update(address as int, value),
    {
        proof {
            use_type_invariant(&*self);
        }
        self.bytes[address as usize] = value;
    }

    /// The little-endian word at `address`; the high byte's address wraps at
    /// the top of the address space.
    pub fn read_word(&self, address: u16) -> (r: u16)
        ensures
            r == spec_word_at(self@, address),
    {
        let low = self.read_byte(address);
        let high = self.read_byte(address.wrapping_add(1));
        low as u16 + 256 * high as u16
    }

    /// Stores a little-endian word: low byte at `address`, high byte at the
    /// following address, which wraps at the top of the address space.
    pub fn write_word(&mut self, address: u16, value: u16)
        ensures
            final(self)@ == old(self)@.update(address as int, (value % 256) as u8).update(
                ((address + 1) % 0x10000) as int,
                (value / 256) as u8,
            ),
    {
        self.write_byte(address, (value % 256) as u8);
        self.write_byte(address.wrapping_add(1), (value / 256) as u8);
    }

    /// The little-endian word behind the zero-page pointer; the high byte's
    /// address wraps within the zero page.
    pub fn read_word_zero_page(&self, pointer: u8) -> (r: u16)
        ensures
            r == spec_word_at_zero_page(self@, pointer),
    {
        let low = self.read_byte(pointer as u16);
        let high = self.read_byte(pointer.wrapping_add(1) as u16);
        low as u16 + 256 * high as u16
    }
}

} // verus!
