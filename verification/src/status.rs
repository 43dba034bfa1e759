//! The eight status-flag names and their bit positions in the packed status
//! byte.

use vstd::prelude::*;

use crate::registers::FLAG_BREAK;
use crate::registers::FLAG_CARRY;
use crate::registers::FLAG_DECIMAL_MODE;
use crate::registers::FLAG_INTERRUPT;
use crate::registers::FLAG_NEGATIVE;
use crate::registers::FLAG_OVERFLOW;
use crate::registers::FLAG_UNUSED;
use crate::registers::FLAG_ZERO;

verus! {

/// One of the eight status flags.
#[derive(Clone, Copy, PartialEq, Eq, Structural, Debug)]
pub enum CPUFlag {
    Carry,
    Zero,
    Interrupt,
    Decimal,
    Break,
    Unused,
    Overflow,
    Negative,
}

impl CPUFlag {
    /// The flag's bit in the packed status byte.
    pub open spec fn mask(self) -> u8 {
        match self {
            CPUFlag::Carry => FLAG_CARRY,
            CPUFlag::Zero => FLAG_ZERO,
            CPUFlag::Interrupt => FLAG_INTERRUPT,
            CPUFlag::Decimal => FLAG_DECIMAL_MODE,
            CPUFlag::Break => FLAG_BREAK,
            CPUFlag::Unused => FLAG_UNUSED,
            CPUFlag::Overflow => FLAG_OVERFLOW,
            CPUFlag::Negative => FLAG_NEGATIVE,
        }
    }

    /// The flag's bit in the packed status byte.
    pub fn mask_value(self) -> (r: u8)
        ensures
            r == self.mask(),
    {
        match self {
            CPUFlag::Carry => FLAG_CARRY,
            CPUFlag::Zero => FLAG_ZERO,
            CPUFlag::Interrupt => FLAG_INTERRUPT,
            CPUFlag::Decimal => FLAG_DECIMAL_MODE,
            CPUFlag::Break => FLAG_BREAK,
            CPUFlag::Unused => FLAG_UNUSED,
            CPUFlag::Overflow => FLAG_OVERFLOW,
            CPUFlag::Negative => FLAG_NEGATIVE,
        }
    }
}

} // verus!
