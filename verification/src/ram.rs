//! The 2 KiB work RAM chip: a small backing store whose whole address range
//! mirrors every 2048 bytes.

use vstd::prelude::*;

verus! {

/// How many bytes the chip holds.
pub const RAM_SIZE: usize = 0x800;

/// A 2 KiB RAM; any address is reduced modulo the chip size, so the chip
/// appears mirrored across a larger window.
pub struct RAM {
    bytes: Vec<u8>,
}

impl View for RAM {
    type V = Seq<u8>;

    closed spec fn view(&self) -> Seq<u8> {
        self.bytes@
    }
}

impl RAM {
    #[verifier::type_invariant]
    spec fn wf(self) -> bool {
        self.bytes@.len() == RAM_SIZE
    }

    /// A chip of 2048 bytes, all zero.
    pub fn new() -> (r: RAM)
        ensures
            r@ == Seq::new(0x800, |i: int| 0u8),
    {
        let mut bytes: Vec<u8> = Vec::new();
        let mut k: usize = 0;
        while k < RAM_SIZE
            invariant
                k <= RAM_SIZE,
                bytes@ =~= Seq::new(k as nat, |i: int| 0u8),
            decreases RAM_SIZE - k,
        {
            bytes.push(0);
            k += 1;
        }
        assert(bytes@ =~= Seq::new(0x800, |i: int| 0u8));
        RAM { bytes }
    }

    /// The byte at `address`, reduced modulo the chip size.
    pub fn read_byte(&self, address: u16) -> (r: u8)
        ensures
            r == self@[address as int % 0x800],
    {
        proof {
            use_type_invariant(self);
        }
        self.bytes[address as usize % RAM_SIZE]
    }

    /// Stores `value` at `address`, reduced modulo the chip size.
    pub fn write_byte(&mut self, address: u16, value: u8)
        ensures
            final(self)@ == old(self)@.update(address as int % 0x800, value),
    {
        proof {
            use_type_invariant(&*self);
        }
        self.bytes[address as usize % RAM_SIZE] = value;
    }
}

} // verus!
