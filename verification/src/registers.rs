//! The register file: accumulator, index registers, stack pointer, program
//! counter, and the eight status flags, together with the packing of the
//! flags into a single status byte.

use vstd::prelude::*;

verus! {

pub const FLAG_NEGATIVE: u8 = 0b1000_0000;
pub const FLAG_OVERFLOW: u8 = 0b0100_0000;
pub const FLAG_UNUSED: u8 = 0b0010_0000;
pub const FLAG_BREAK: u8 = 0b0001_0000;
pub const FLAG_DECIMAL_MODE: u8 = 0b0000_1000;
pub const FLAG_INTERRUPT: u8 = 0b0000_0100;
pub const FLAG_ZERO: u8 = 0b0000_0010;
pub const FLAG_CARRY: u8 = 0b0000_0001;

/// The register file. Each status flag is held as its own boolean; `to_byte`
/// and `from_byte` define the packed layout used on the stack.
#[derive(Clone, Copy, PartialEq, Eq, Structural, Debug)]
pub struct Registers {
    pub pc: u16,
    pub sp: u8,
    pub a: u8,
    pub x: u8,
    pub y: u8,
    /// Carry flag.
    pub c: bool,
    /// Zero flag.
    pub z: bool,
    /// Interrupt-disable flag.
    pub i: bool,
    /// Decimal flag: stored and settable, but never alters arithmetic.
    pub d: bool,
    /// Break flag.
    pub b: bool,
    /// The unused (always-pushed-as-one) flag.
    pub unused: bool,
    /// Overflow flag.
    pub v: bool,
    /// Negative flag.
    pub n: bool,
}

/// The contribution of one flag to the packed status byte.
pub open spec fn flag_bit(on: bool, mask: u8) -> u8 {
    if on {
        mask
    } else {
        0
    }
}

/// The packed status byte: each flag contributes its mask bit.
pub open spec fn spec_to_byte(r: Registers) -> u8 {
    (flag_bit(r.c, FLAG_CARRY) + flag_bit(r.z, FLAG_ZERO) + flag_bit(r.i, FLAG_INTERRUPT)
        + flag_bit(r.d, FLAG_DECIMAL_MODE) + flag_bit(r.b, FLAG_BREAK) + flag_bit(
        r.unused,
        FLAG_UNUSED,
    ) + flag_bit(r.v, FLAG_OVERFLOW) + flag_bit(r.n, FLAG_NEGATIVE)) as u8
}

/// The register file with its flags taken from the bits of `value`, all
/// other registers unchanged.
pub open spec fn spec_from_byte(r: Registers, value: u8) -> Registers {
    Registers {
        c: value & FLAG_CARRY != 0,
        z: value & FLAG_ZERO != 0,
        i: value & FLAG_INTERRUPT != 0,
        d: value & FLAG_DECIMAL_MODE != 0,
        b: value & FLAG_BREAK != 0,
        unused: value & FLAG_UNUSED != 0,
        v: value & FLAG_OVERFLOW != 0,
        n: value & FLAG_NEGATIVE != 0,
        ..r
    }
}

/// The registers with the zero and negative flags set from `value`: zero when
/// the value is zero, negative when bit 7 is set.
pub open spec fn spec_set_zn(r: Registers, value: u8) -> Registers {
    Registers { z: value == 0, n: value >= 0x80, ..r }
}

/// The power-on register file: cleared data registers, the stack pointer
/// reinitialized, interrupt-disable and the unused flag set, and the program
/// counter cleared — the value the reset vector of a fresh all-zero memory
/// image holds.
pub open spec fn spec_power_on() -> Registers {
    Registers {
        pc: 0,
        sp: 0xFD,
        a: 0,
        x: 0,
        y: 0,
        c: false,
        z: false,
        i: true,
        d: false,
        b: false,
        unused: true,
        v: false,
        n: false,
    }
}

impl Registers {
    pub const STACK: u16 = 0x0100;

    pub const STACK_RESET: u8 = 0xfd;

    pub const RESET_VECTOR: u16 = 0xFFFC;

    /// Power-on register state: cleared data registers, the stack pointer
    /// reinitialized, interrupt-disable and the unused flag set, and the
    /// program counter cleared, as the reset vector of fresh zero memory
    /// reads.
    pub fn new() -> (r: Registers)
        ensures
            r == spec_power_on(),
    {
        Registers {
            pc: 0,
            sp: Registers::STACK_RESET,
            a: 0x00,
            x: 0x00,
            y: 0x00,
            c: false,
            z: false,
            i: true,
            d: false,
            b: false,
            unused: true,
            v: false,
            n: false,
        }
    }

    /// Packs the eight flags into one status byte.
    #[verifier::rlimit(30)]
    pub fn to_byte(&self) -> (r: u8)
        ensures
            r == spec_to_byte(*self),
    {
        let mut packed: u8 = 0;
        if self.c {
            packed += FLAG_CARRY;
        }
        if self.z {
            packed += FLAG_ZERO;
        }
        if self.i {
            packed += FLAG_INTERRUPT;
        }
        if self.d {
            packed += FLAG_DECIMAL_MODE;
        }
        if self.b {
            packed += FLAG_BREAK;
        }
        if self.unused {
            packed += FLAG_UNUSED;
        }
        if self.v {
            packed += FLAG_OVERFLOW;
        }
        if self.n {
            packed += FLAG_NEGATIVE;
        }
        packed
    }

    /// Loads all eight flags from the bits of `value`, verbatim.
    pub fn from_byte(&mut self, value: u8)
        ensures
            *final(self) == spec_from_byte(*old(self), value),
    {
        self.c = value & FLAG_CARRY != 0;
        self.z = value & FLAG_ZERO != 0;
        self.i = value & FLAG_INTERRUPT != 0;
        self.d = value & FLAG_DECIMAL_MODE != 0;
        self.b = value & FLAG_BREAK != 0;
        self.unused = value & FLAG_UNUSED != 0;
        self.v = value & FLAG_OVERFLOW != 0;
        self.n = value & FLAG_NEGATIVE != 0;
    }

    /// Whether the flag selected by the single-bit mask `flag` is set.
    pub fn get_flag(&self, flag: u8) -> (r: bool)
        ensures
            r == (spec_to_byte(*self) & flag != 0),
    {
        self.to_byte() & flag != 0
    }

    /// Sets or clears the flags selected by the bits of `flag`, leaving the
    /// other flags alone.
    pub fn set_flag(&mut self, flag: u8, on: bool)
        ensures
            *final(self) == spec_from_byte(
                *old(self),
                if on {
                    spec_to_byte(*old(self)) | flag
                } else {
                    spec_to_byte(*old(self)) & !flag
                },
            ),
    {
        let packed = self.to_byte();
        if on {
            self.from_byte(packed | flag);
        } else {
            self.from_byte(packed & !flag);
        }
    }

    /// Replaces all eight flags with the bits of `value`.
    pub fn set_flags(&mut self, value: u8)
        ensures
            *final(self) == spec_from_byte(*old(self), value),
    {
        self.from_byte(value);
    }

    /// Sets the zero and negative flags from `value` and hands the value
    /// back, so that a register write and its flag update read as one step.
    pub fn set_zn(&mut self, value: u8) -> (r: u8)
        ensures
            *final(self) == spec_set_zn(*old(self), value),
            r == value,
    {
        self.z = value == 0;
        self.n = value >= 0x80;
        value
    }

    /// Writes the accumulator and updates the zero and negative flags.
    pub fn set_a(&mut self, value: u8)
        ensures
            *final(self) == (Registers { a: value, ..spec_set_zn(*old(self), value) }),
    {
        let v = self.set_zn(value);
        self.a = v;
    }

    /// Writes the X index register and updates the zero and negative flags.
    pub fn set_x(&mut self, value: u8)
        ensures
            *final(self) == (Registers { x: value, ..spec_set_zn(*old(self), value) }),
    {
        let v = self.set_zn(value);
        self.x = v;
    }

    /// Writes the Y index register and updates the zero and negative flags.
    pub fn set_y(&mut self, value: u8)
        ensures
            *final(self) == (Registers { y: value, ..spec_set_zn(*old(self), value) }),
    {
        let v = self.set_zn(value);
        self.y = v;
    }

    pub fn get_carry(&self) -> (r: bool)
        ensures
            r == self.c,
    {
        self.c
    }

    pub fn get_zero(&self) -> (r: bool)
        ensures
            r == self.z,
    {
        self.z
    }

    pub fn get_interrupt(&self) -> (r: bool)
        ensures
            r == self.i,
    {
        self.i
    }

    pub fn get_decimal(&self) -> (r: bool)
        ensures
            r == self.d,
    {
        self.d
    }

    pub fn get_break(&self) -> (r: bool)
        ensures
            r == self.b,
    {
        self.b
    }

    pub fn get_unused(&self) -> (r: bool)
        ensures
            r == self.unused,
    {
        self.unused
    }

    pub fn get_overflow(&self) -> (r: bool)
        ensures
            r == self.v,
    {
        self.v
    }

    pub fn get_negative(&self) -> (r: bool)
        ensures
            r == self.n,
    {
        self.n
    }

    pub fn set_carry(&mut self, on: bool)
        ensures
            *final(self) == (Registers { c: on, ..*old(self) }),
    {
        self.c = on;
    }

    pub fn set_zero(&mut self, on: bool)
        ensures
            *final(self) == (Registers { z: on, ..*old(self) }),
    {
        self.z = on;
    }

    pub fn set_interrupt(&mut self, on: bool)
        ensures
            *final(self) == (Registers { i: on, ..*old(self) }),
    {
        self.i = on;
    }

    pub fn set_decimal(&mut self, on: bool)
        ensures
            *final(self) == (Registers { d: on, ..*old(self) }),
    {
        self.d = on;
    }

    pub fn set_break(&mut self, on: bool)
        ensures
            *final(self) == (Registers { b: on, ..*old(self) }),
    {
        self.b = on;
    }

    pub fn set_unused(&mut self, on: bool)
        ensures
            *final(self) == (Registers { unused: on, ..*old(self) }),
    {
        self.unused = on;
    }

    pub fn set_overflow(&mut self, on: bool)
        ensures
            *final(self) == (Registers { v: on, ..*old(self) }),
    {
        self.v = on;
    }

    pub fn set_negative(&mut self, on: bool)
        ensures
            *final(self) == (Registers { n: on, ..*old(self) }),
    {
        self.n = on;
    }
}

/// Unpacking a packed status byte and packing it again gives the byte back:
/// every bit of the byte is held in some flag.
pub proof fn lemma_from_byte_to_byte(r: Registers, value: u8)
    ensures
        spec_to_byte(spec_from_byte(r, value)) == value,
{
    assert((if value & 0x01u8 != 0 {
        0x01u8
    } else {
        0
    }) + (if value & 0x02u8 != 0 {
        0x02u8
    } else {
        0
    }) + (if value & 0x04u8 != 0 {
        0x04u8
    } else {
        0
    }) + (if value & 0x08u8 != 0 {
        0x08u8
    } else {
        0
    }) + (if value & 0x10u8 != 0 {
        0x10u8
    } else {
        0
    }) + (if value & 0x20u8 != 0 {
        0x20u8
    } else {
        0
    }) + (if value & 0x40u8 != 0 {
        0x40u8
    } else {
        0
    }) + (if value & 0x80u8 != 0 {
        0x80u8
    } else {
        0
    }) == value) by (bit_vector);
}

/// Packing the flags and unpacking the byte again restores every flag:
/// the packed byte determines the flags exactly.
pub proof fn lemma_to_byte_from_byte(r: Registers)
    ensures
        spec_from_byte(r, spec_to_byte(r)) == r,
{
    let c = r.c;
    let z = r.z;
    let i = r.i;
    let d = r.d;
    let b = r.b;
    let u = r.unused;
    let v = r.v;
    let n = r.n;
    let packed = spec_to_byte(r);
    assert({
        let p = ((if c {
            0x01u8
        } else {
            0
        }) + (if z {
            0x02u8
        } else {
            0
        }) + (if i {
            0x04u8
        } else {
            0
        }) + (if d {
            0x08u8
        } else {
            0
        }) + (if b {
            0x10u8
        } else {
            0
        }) + (if u {
            0x20u8
        } else {
            0
        }) + (if v {
            0x40u8
        } else {
            0
        }) + (if n {
            0x80u8
        } else {
            0
        })) as u8;
        (p & 0x01u8 != 0) == c && (p & 0x02u8 != 0) == z && (p & 0x04u8 != 0) == i && (p & 0x08u8
            != 0) == d && (p & 0x10u8 != 0) == b && (p & 0x20u8 != 0) == u && (p & 0x40u8 != 0) == v
            && (p & 0x80u8 != 0) == n
    }) by (bit_vector);
    assert(packed & FLAG_CARRY != 0 == c);
}

} // verus!
