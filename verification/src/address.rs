//! Address values: a full 16-bit address, a signed branch displacement, and
//! the tagged operand descriptor the addressing resolver hands to the
//! operation executors.

use vstd::prelude::*;

verus! {

/// A full 16-bit address.
#[derive(Clone, Copy, PartialEq, Eq, Structural, Debug)]
pub struct Address(pub u16);

/// A signed one-byte displacement, as a branch instruction carries it.
#[derive(Clone, Copy, PartialEq, Eq, Structural, Debug)]
pub struct RelativeAddress(pub i8);

impl Address {
    /// The address as a plain 16-bit word.
    pub fn to_word(self) -> (r: u16)
        ensures
            r == self.0,
    {
        self.0
    }
}

impl RelativeAddress {
    /// The displacement as a plain signed byte.
    pub fn to_offset(self) -> (r: i8)
        ensures
            r == self.0,
    {
        self.0
    }
}

/// What the addressing resolver returns: no operand at all, an immediate
/// operand byte, a signed branch displacement, or the effective address of
/// the operand. Read, write, and read-modify-write executors interpret the
/// `Address` form each in their own way; write-only executors never read
/// through it.
#[derive(Clone, Copy, PartialEq, Eq, Structural, Debug)]
pub enum AddressingResult {
    Implied,
    Immediate(u8),
    Relative(i8),
    Address(u16),
}

} // verus!
