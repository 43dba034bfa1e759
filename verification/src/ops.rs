//! The operation executors: one function per mnemonic, consuming the
//! resolved operand and mutating registers, memory and flags, each against a
//! specification function that states the exact hardware behavior.

use vstd::prelude::*;

use crate::address::AddressingResult;
use crate::cpu::page_of;
use crate::cpu::spec_stack_address;
use crate::cpu::wrap16;
use crate::cpu::wrap8;
use crate::cpu::CPU;
use crate::memory::spec_word_at;
use crate::registers::spec_from_byte;
use crate::registers::spec_set_zn;
use crate::registers::spec_to_byte;
use crate::registers::Registers;

verus! {

/// A register load: the value lands in the accumulator and sets the zero and
/// negative flags.
pub open spec fn spec_load_a(r: Registers, value: u8) -> Registers {
    Registers { a: value, ..spec_set_zn(r, value) }
}

/// A register load into X, setting the zero and negative flags.
pub open spec fn spec_load_x(r: Registers, value: u8) -> Registers {
    Registers { x: value, ..spec_set_zn(r, value) }
}

/// A register load into Y, setting the zero and negative flags.
pub open spec fn spec_load_y(r: Registers, value: u8) -> Registers {
    Registers { y: value, ..spec_set_zn(r, value) }
}

/// Add with carry: the sum of the accumulator, the operand and the carry
/// flag. Carry reports the unsigned overflow; the overflow flag follows the
/// hardware formula against the pre-addition accumulator; zero and negative
/// follow the truncated result. The decimal flag never alters this.
pub open spec fn spec_adc(r: Registers, operand: u8) -> Registers {
    let sum = r.a + operand + (if r.c {
        1int
    } else {
        0int
    });
    let result = wrap8(sum);
    Registers {
        a: result,
        c: sum > 0xFF,
        v: (operand ^ result) & (result ^ r.a) & 0x80 != 0,
        z: result == 0,
        n: result >= 0x80,
        ..r
    }
}

/// Subtract with carry is add-with-carry of the operand's one's complement;
/// the flag logic is reused verbatim.
pub open spec fn spec_sbc(r: Registers, operand: u8) -> Registers {
    spec_adc(r, !operand)
}

/// An unsigned comparison: carry when the register is no less than the
/// operand, zero on equality, negative from bit 7 of the wrapped difference.
pub open spec fn spec_compare(r: Registers, register: u8, operand: u8) -> Registers {
    Registers {
        c: register >= operand,
        z: register == operand,
        n: wrap8(register - operand) >= 0x80,
        ..r
    }
}

/// The bit test: zero from the accumulator AND the operand (the result is
/// discarded); negative and overflow are copied from operand bits 7 and 6.
pub open spec fn spec_bit_test(r: Registers, operand: u8) -> Registers {
    Registers { z: r.a & operand == 0, n: operand >= 0x80, v: operand & 0x40 != 0, ..r }
}

/// A left shift with `carry_in` entering the vacated low bit.
pub open spec fn spec_shift_left_value(value: u8, carry_in: bool) -> u8 {
    wrap8(value * 2 + (if carry_in {
        1int
    } else {
        0int
    }))
}

/// A right shift with `carry_in` entering the vacated high bit.
pub open spec fn spec_shift_right_value(value: u8, carry_in: bool) -> u8 {
    (value / 2 + (if carry_in {
        0x80int
    } else {
        0int
    })) as u8
}

/// The flags of a left shift: carry receives the bit shifted out of bit 7;
/// zero and negative follow the result.
pub open spec fn spec_left_flags(r: Registers, value: u8, result: u8) -> Registers {
    Registers { c: value >= 0x80, z: result == 0, n: result >= 0x80, ..r }
}

/// The flags of a right shift: carry receives the bit shifted out of bit 0;
/// zero and negative follow the result.
pub open spec fn spec_right_flags(r: Registers, value: u8, result: u8) -> Registers {
    Registers { c: value % 2 == 1, z: result == 0, n: result >= 0x80, ..r }
}

/// What a shift applied to the accumulator or to an addressed byte leaves
/// behind, given the shifted value and the flag rule, with `left` choosing
/// the direction.
pub open spec fn spec_shift(
    src: AddressingResult,
    r: Registers,
    m: Seq<u8>,
    left: bool,
    carry_in: bool,
) -> (Registers, Seq<u8>) {
    match src {
        AddressingResult::Implied => {
            let result = if left {
                spec_shift_left_value(r.a, carry_in)
            } else {
                spec_shift_right_value(r.a, carry_in)
            };
            let flags = if left {
                spec_left_flags(r, r.a, result)
            } else {
                spec_right_flags(r, r.a, result)
            };
            (Registers { a: result, ..flags }, m)
        },
        AddressingResult::Address(address) => {
            let value = m[address as int];
            let result = if left {
                spec_shift_left_value(value, carry_in)
            } else {
                spec_shift_right_value(value, carry_in)
            };
            let flags = if left {
                spec_left_flags(r, value, result)
            } else {
                spec_right_flags(r, value, result)
            };
            (flags, m.update(address as int, result))
        },
        _ => (r, m),
    }
}

/// The operand byte a read executor consumes: the immediate byte itself, or
/// the byte at the effective address.
pub open spec fn spec_operand_byte(src: AddressingResult, m: Seq<u8>) -> u8 {
    match src {
        AddressingResult::Immediate(value) => value,
        AddressingResult::Address(address) => m[address as int],
        _ => 0,
    }
}

/// Whether a resolved operand feeds a read executor at all.
pub open spec fn is_read_source(src: AddressingResult) -> bool {
    src is Immediate || src is Address
}

/// The status byte an interrupt or `PHP` pushes: the live flags with break
/// and unused forced set.
pub open spec fn spec_pushed_status(r: Registers) -> u8 {
    spec_to_byte(Registers { b: true, unused: true, ..r })
}

impl CPU {
    /// ADC: add the operand and the carry flag to the accumulator.
    pub fn adc(&mut self, src: AddressingResult)
        ensures
            final(self).registers == (if is_read_source(src) {
                spec_adc(old(self).registers, spec_operand_byte(src, old(self).memory@))
            } else {
                old(self).registers
            }),
            final(self).memory@ == old(self).memory@,
            final(self).cycles == old(self).cycles,
    {
        match src {
            AddressingResult::Immediate(value) => self.add_a(value),
            AddressingResult::Address(address) => {
                let value = self.memory.read_byte(address);
                self.add_a(value);
            },
            _ => {},
        }
    }

    /// SBC: add the operand's one's complement, reusing the ADC flag logic.
    pub fn sbc(&mut self, src: AddressingResult)
        ensures
            final(self).registers == (if is_read_source(src) {
                spec_sbc(old(self).registers, spec_operand_byte(src, old(self).memory@))
            } else {
                old(self).registers
            }),
            final(self).memory@ == old(self).memory@,
            final(self).cycles == old(self).cycles,
    {
        match src {
            AddressingResult::Immediate(value) => self.add_a(!value),
            AddressingResult::Address(address) => {
                let value = self.memory.read_byte(address);
                self.add_a(!value);
            },
            _ => {},
        }
    }

    /// The ADC core: accumulator + data + carry, with all four flags.
    pub fn add_a(&mut self, data: u8)
        ensures
            final(self).registers == spec_adc(old(self).registers, data),
            final(self).memory@ == old(self).memory@,
            final(self).cycles == old(self).cycles,
    {
        let carry: u16 = if self.registers.c {
            1
        } else {
            0
        };
        let sum: u16 = self.registers.a as u16 + data as u16 + carry;
        let result: u8 = (sum % 0x100) as u8;
        self.registers.c = sum > 0xFF;
        self.registers.v = (data ^ result) & (result ^ self.registers.a) & 0x80 != 0;
        self.set_a(result);
    }

    /// AND: accumulator AND operand.
    pub fn and(&mut self, src: AddressingResult)
        ensures
            final(self).registers == (if is_read_source(src) {
                spec_load_a(
                    old(self).registers,
                    old(self).registers.a & spec_operand_byte(src, old(self).memory@),
                )
            } else {
                old(self).registers
            }),
            final(self).memory@ == old(self).memory@,
            final(self).cycles == old(self).cycles,
    {
        match src {
            AddressingResult::Immediate(value) => {
                let masked = self.registers.a & value;
                self.set_a(masked);
            },
            AddressingResult::Address(address) => {
                let value = self.memory.read_byte(address);
                let masked = self.registers.a & value;
                self.set_a(masked);
            },
            _ => {},
        }
    }

    /// ORA: accumulator OR operand.
    pub fn ora(&mut self, src: AddressingResult)
        ensures
            final(self).registers == (if is_read_source(src) {
                spec_load_a(
                    old(self).registers,
                    old(self).registers.a | spec_operand_byte(src, old(self).memory@),
                )
            } else {
                old(self).registers
            }),
            final(self).memory@ == old(self).memory@,
            final(self).cycles == old(self).cycles,
    {
        match src {
            AddressingResult::Immediate(value) => {
                let merged = self.registers.a | value;
                self.set_a(merged);
            },
            AddressingResult::Address(address) => {
                let value = self.memory.read_byte(address);
                let merged = self.registers.a | value;
                self.set_a(merged);
            },
            _ => {},
        }
    }

    /// EOR: accumulator XOR operand.
    pub fn eor(&mut self, src: AddressingResult)
        ensures
            final(self).registers == (if is_read_source(src) {
                spec_load_a(
                    old(self).registers,
                    old(self).registers.a ^ spec_operand_byte(src, old(self).memory@),
                )
            } else {
                old(self).registers
            }),
            final(self).memory@ == old(self).memory@,
            final(self).cycles == old(self).cycles,
    {
        match src {
            AddressingResult::Immediate(value) => {
                let mixed = self.registers.a ^ value;
                self.set_a(mixed);
            },
            AddressingResult::Address(address) => {
                let value = self.memory.read_byte(address);
                let mixed = self.registers.a ^ value;
                self.set_a(mixed);
            },
            _ => {},
        }
    }

    /// LDA: load the accumulator.
    pub fn lda(&mut self, src: AddressingResult)
        ensures
            final(self).registers == (if is_read_source(src) {
                spec_load_a(old(self).registers, spec_operand_byte(src, old(self).memory@))
            } else {
                old(self).registers
            }),
            final(self).memory@ == old(self).memory@,
            final(self).cycles == old(self).cycles,
    {
        match src {
            AddressingResult::Immediate(value) => self.set_a(value),
            AddressingResult::Address(address) => {
                let value = self.memory.read_byte(address);
                self.set_a(value);
            },
            _ => {},
        }
    }

    /// LDX: load the X index register.
    pub fn ldx(&mut self, src: AddressingResult)
        ensures
            final(self).registers == (if is_read_source(src) {
                spec_load_x(old(self).registers, spec_operand_byte(src, old(self).memory@))
            } else {
                old(self).registers
            }),
            final(self).memory@ == old(self).memory@,
            final(self).cycles == old(self).cycles,
    {
        match src {
            AddressingResult::Immediate(value) => self.registers.set_x(value),
            AddressingResult::Address(address) => {
                let value = self.memory.read_byte(address);
                self.registers.set_x(value);
            },
            _ => {},
        }
    }

    /// LDY: load the Y index register.
    pub fn ldy(&mut self, src: AddressingResult)
        ensures
            final(self).registers == (if is_read_source(src) {
                spec_load_y(old(self).registers, spec_operand_byte(src, old(self).memory@))
            } else {
                old(self).registers
            }),
            final(self).memory@ == old(self).memory@,
            final(self).cycles == old(self).cycles,
    {
        match src {
            AddressingResult::Immediate(value) => self.registers.set_y(value),
            AddressingResult::Address(address) => {
                let value = self.memory.read_byte(address);
                self.registers.set_y(value);
            },
            _ => {},
        }
    }

    /// CMP: compare the accumulator with the operand.
    pub fn cmp(&mut self, src: AddressingResult)
        ensures
            final(self).registers == (if is_read_source(src) {
                spec_compare(
                    old(self).registers,
                    old(self).registers.a,
                    spec_operand_byte(src, old(self).memory@),
                )
            } else {
                old(self).registers
            }),
            final(self).memory@ == old(self).memory@,
            final(self).cycles == old(self).cycles,
    {
        let register = self.registers.a;
        self.compare(register, src);
    }

    /// CPX: compare the X index register with the operand.
    pub fn cpx(&mut self, src: AddressingResult)
        ensures
            final(self).registers == (if is_read_source(src) {
                spec_compare(
                    old(self).registers,
                    old(self).registers.x,
                    spec_operand_byte(src, old(self).memory@),
                )
            } else {
                old(self).registers
            }),
            final(self).memory@ == old(self).memory@,
            final(self).cycles == old(self).cycles,
    {
        let register = self.registers.x;
        self.compare(register, src);
    }

    /// CPY: compare the Y index register with the operand.
    pub fn cpy(&mut self, src: AddressingResult)
        ensures
            final(self).registers == (if is_read_source(src) {
                spec_compare(
                    old(self).registers,
                    old(self).registers.y,
                    spec_operand_byte(src, old(self).memory@),
                )
            } else {
                old(self).registers
            }),
            final(self).memory@ == old(self).memory@,
            final(self).cycles == old(self).cycles,
    {
        let register = self.registers.y;
        self.compare(register, src);
    }

    /// The shared comparison core: unsigned register minus operand.
    pub fn compare(&mut self, register: u8, src: AddressingResult)
        ensures
            final(self).registers == (if is_read_source(src) {
                spec_compare(old(self).registers, register, spec_operand_byte(src, old(self).memory@))
            } else {
                old(self).registers
            }),
            final(self).memory@ == old(self).memory@,
            final(self).cycles == old(self).cycles,
    {
        match src {
            AddressingResult::Immediate(value) => {
                self.registers.c = register >= value;
                self.registers.z = register == value;
                self.registers.n = register.wrapping_sub(value) >= 0x80;
            },
            AddressingResult::Address(address) => {
                let value = self.memory.read_byte(address);
                self.registers.c = register >= value;
                self.registers.z = register == value;
                self.registers.n = register.wrapping_sub(value) >= 0x80;
            },
            _ => {},
        }
    }

    /// BIT: test the accumulator against the addressed byte; the AND result
    /// feeds only the zero flag, and bits 7 and 6 of the operand are copied
    /// into negative and overflow directly.
    pub fn bit(&mut self, src: AddressingResult)
        ensures
            final(self).registers == (match src {
                AddressingResult::Address(address) => spec_bit_test(
                    old(self).registers,
                    old(self).memory@[address as int],
                ),
                _ => old(self).registers,
            }),
            final(self).memory@ == old(self).memory@,
            final(self).cycles == old(self).cycles,
    {
        match src {
            AddressingResult::Address(address) => {
                let value = self.memory.read_byte(address);
                self.registers.z = self.registers.a & value == 0;
                self.registers.n = value >= 0x80;
                self.registers.v = value & 0x40 != 0;
            },
            _ => {},
        }
    }

    /// ASL: shift left, on the accumulator under implied addressing and on
    /// the addressed byte otherwise; carry receives the bit shifted out.
    pub fn asl(&mut self, src: AddressingResult)
        ensures
            ({
                let (r, m) = spec_shift(src, old(self).registers, old(self).memory@, true, false);
                final(self).registers == r && final(self).memory@ == m
            }),
            final(self).cycles == old(self).cycles,
    {
        self.shift_left(src, false);
    }

    /// ROL: shift left with the prior carry entering bit 0.
    pub fn rol(&mut self, src: AddressingResult)
        ensures
            ({
                let (r, m) = spec_shift(
                    src,
                    old(self).registers,
                    old(self).memory@,
                    true,
                    old(self).registers.c,
                );
                final(self).registers == r && final(self).memory@ == m
            }),
            final(self).cycles == old(self).cycles,
    {
        let carry = self.registers.c;
        self.shift_left(src, carry);
    }

    /// LSR: shift right, on the accumulator under implied addressing and on
    /// the addressed byte otherwise; carry receives the bit shifted out.
    pub fn lsr(&mut self, src: AddressingResult)
        ensures
            ({
                let (r, m) = spec_shift(src, old(self).registers, old(self).memory@, false, false);
                final(self).registers == r && final(self).memory@ == m
            }),
            final(self).cycles == old(self).cycles,
    {
        self.shift_right(src, false);
    }

    /// ROR: shift right with the prior carry entering bit 7.
    pub fn ror(&mut self, src: AddressingResult)
        ensures
            ({
                let (r, m) = spec_shift(
                    src,
                    old(self).registers,
                    old(self).memory@,
                    false,
                    old(self).registers.c,
                );
                final(self).registers == r && final(self).memory@ == m
            }),
            final(self).cycles == old(self).cycles,
    {
        let carry = self.registers.c;
        self.shift_right(src, carry);
    }

    /// The left-shift core shared by ASL and ROL.
    pub fn shift_left(&mut self, src: AddressingResult, carry_in: bool)
        ensures
            ({
                let (r, m) = spec_shift(src, old(self).registers, old(self).memory@, true, carry_in);
                final(self).registers == r && final(self).memory@ == m
            }),
            final(self).cycles == old(self).cycles,
    {
        let low: u16 = if carry_in {
            1
        } else {
            0
        };
        match src {
            AddressingResult::Implied => {
                let value = self.registers.a;
                let result = ((value as u16 * 2 + low) % 0x100) as u8;
                self.registers.c = value >= 0x80;
                self.registers.a = result;
                self.update_zero_and_negative_flags(result);
            },
            AddressingResult::Address(address) => {
                let value = self.memory.read_byte(address);
                let result = ((value as u16 * 2 + low) % 0x100) as u8;
                self.registers.c = value >= 0x80;
                self.memory.write_byte(address, result);
                self.update_zero_and_negative_flags(result);
            },
            _ => {},
        }
    }

    /// The right-shift core shared by LSR and ROR.
    pub fn shift_right(&mut self, src: AddressingResult, carry_in: bool)
        ensures
            ({
                let (r, m) = spec_shift(
                    src,
                    old(self).registers,
                    old(self).memory@,
                    false,
                    carry_in,
                );
                final(self).registers == r && final(self).memory@ == m
            }),
            final(self).cycles == old(self).cycles,
    {
        let high: u8 = if carry_in {
            0x80
        } else {
            0
        };
        match src {
            AddressingResult::Implied => {
                let value = self.registers.a;
                let result = value / 2 + high;
                self.registers.c = value % 2 == 1;
                self.registers.a = result;
                self.update_zero_and_negative_flags(result);
            },
            AddressingResult::Address(address) => {
                let value = self.memory.read_byte(address);
                let result = value / 2 + high;
                self.registers.c = value % 2 == 1;
                self.memory.write_byte(address, result);
                self.update_zero_and_negative_flags(result);
            },
            _ => {},
        }
    }

    /// INC: increment the addressed byte, wrapping at the byte boundary.
    pub fn inc(&mut self, src: AddressingResult)
        ensures
            ({
                let (r, m) = match src {
                    AddressingResult::Address(address) => {
                        let result = wrap8(old(self).memory@[address as int] + 1);
                        (
                            spec_set_zn(old(self).registers, result),
                            old(self).memory@.update(address as int, result),
                        )
                    },
                    _ => (old(self).registers, old(self).memory@),
                };
                final(self).registers == r && final(self).memory@ == m
            }),
            final(self).cycles == old(self).cycles,
    {
        match src {
            AddressingResult::Address(address) => {
                let value = self.memory.read_byte(address);
                let result = value.wrapping_add(1);
                self.memory.write_byte(address, result);
                self.update_zero_and_negative_flags(result);
            },
            _ => {},
        }
    }

    /// DEC: decrement the addressed byte, wrapping at the byte boundary.
    pub fn dec(&mut self, src: AddressingResult)
        ensures
            ({
                let (r, m) = match src {
                    AddressingResult::Address(address) => {
                        let result = wrap8(old(self).memory@[address as int] - 1);
                        (
                            spec_set_zn(old(self).registers, result),
                            old(self).memory@.update(address as int, result),
                        )
                    },
                    _ => (old(self).registers, old(self).memory@),
                };
                final(self).registers == r && final(self).memory@ == m
            }),
            final(self).cycles == old(self).cycles,
    {
        match src {
            AddressingResult::Address(address) => {
                let value = self.memory.read_byte(address);
                let result = value.wrapping_sub(1);
                self.memory.write_byte(address, result);
                self.update_zero_and_negative_flags(result);
            },
            _ => {},
        }
    }

    /// INX: increment the X index register.
    pub fn inx(&mut self, _src: AddressingResult)
        ensures
            final(self).registers == spec_load_x(
                old(self).registers,
                wrap8(old(self).registers.x + 1),
            ),
            final(self).memory@ == old(self).memory@,
            final(self).cycles == old(self).cycles,
    {
        let value = self.registers.x.wrapping_add(1);
        self.registers.set_x(value);
    }

    /// INY: increment the Y index register.
    pub fn iny(&mut self, _src: AddressingResult)
        ensures
            final(self).registers == spec_load_y(
                old(self).registers,
                wrap8(old(self).registers.y + 1),
            ),
            final(self).memory@ == old(self).memory@,
            final(self).cycles == old(self).cycles,
    {
        let value = self.registers.y.wrapping_add(1);
        self.registers.set_y(value);
    }

    /// DEX: decrement the X index register.
    pub fn dex(&mut self, _src: AddressingResult)
        ensures
            final(self).registers == spec_load_x(
                old(self).registers,
                wrap8(old(self).registers.x - 1),
            ),
            final(self).memory@ == old(self).memory@,
            final(self).cycles == old(self).cycles,
    {
        let value = self.registers.x.wrapping_sub(1);
        self.registers.set_x(value);
    }

    /// DEY: decrement the Y index register.
    pub fn dey(&mut self, _src: AddressingResult)
        ensures
            final(self).registers == spec_load_y(
                old(self).registers,
                wrap8(old(self).registers.y - 1),
            ),
            final(self).memory@ == old(self).memory@,
            final(self).cycles == old(self).cycles,
    {
        let value = self.registers.y.wrapping_sub(1);
        self.registers.set_y(value);
    }

    /// STA: store the accumulator at the effective address.
    pub fn sta(&mut self, src: AddressingResult)
        ensures
            final(self).memory@ == (match src {
                AddressingResult::Address(address) => old(self).memory@.update(
                    address as int,
                    old(self).registers.a,
                ),
                _ => old(self).memory@,
            }),
            final(self).registers == old(self).registers,
            final(self).cycles == old(self).cycles,
    {
        match src {
            AddressingResult::Address(address) => {
                self.memory.write_byte(address, self.registers.a);
            },
            _ => {},
        }
    }

    /// STX: store the X index register at the effective address.
    pub fn stx(&mut self, src: AddressingResult)
        ensures
            final(self).memory@ == (match src {
                AddressingResult::Address(address) => old(self).memory@.update(
                    address as int,
                    old(self).registers.x,
                ),
                _ => old(self).memory@,
            }),
            final(self).registers == old(self).registers,
            final(self).cycles == old(self).cycles,
    {
        match src {
            AddressingResult::Address(address) => {
                self.memory.write_byte(address, self.registers.x);
            },
            _ => {},
        }
    }

    /// STY: store the Y index register at the effective address.
    pub fn sty(&mut self, src: AddressingResult)
        ensures
            final(self).memory@ == (match src {
                AddressingResult::Address(address) => old(self).memory@.update(
                    address as int,
                    old(self).registers.y,
                ),
                _ => old(self).memory@,
            }),
            final(self).registers == old(self).registers,
            final(self).cycles == old(self).cycles,
    {
        match src {
            AddressingResult::Address(address) => {
                self.memory.write_byte(address, self.registers.y);
            },
            _ => {},
        }
    }

    /// TAX: copy the accumulator into X, setting zero and negative.
    pub fn tax(&mut self, _src: AddressingResult)
        ensures
            final(self).registers == spec_load_x(old(self).registers, old(self).registers.a),
            final(self).memory@ == old(self).memory@,
            final(self).cycles == old(self).cycles,
    {
        let value = self.registers.a;
        self.registers.set_x(value);
    }

    /// TAY: copy the accumulator into Y, setting zero and negative.
    pub fn tay(&mut self, _src: AddressingResult)
        ensures
            final(self).registers == spec_load_y(old(self).registers, old(self).registers.a),
            final(self).memory@ == old(self).memory@,
            final(self).cycles == old(self).cycles,
    {
        let value = self.registers.a;
        self.registers.set_y(value);
    }

    /// TSX: copy the stack pointer into X, setting zero and negative.
    pub fn tsx(&mut self, _src: AddressingResult)
        ensures
            final(self).registers == spec_load_x(old(self).registers, old(self).registers.sp),
            final(self).memory@ == old(self).memory@,
            final(self).cycles == old(self).cycles,
    {
        let value = self.registers.sp;
        self.registers.set_x(value);
    }

    /// TXA: copy X into the accumulator, setting zero and negative.
    pub fn txa(&mut self, _src: AddressingResult)
        ensures
            final(self).registers == spec_load_a(old(self).registers, old(self).registers.x),
            final(self).memory@ == old(self).memory@,
            final(self).cycles == old(self).cycles,
    {
        let value = self.registers.x;
        self.set_a(value);
    }

    /// TYA: copy Y into the accumulator, setting zero and negative.
    pub fn tya(&mut self, _src: AddressingResult)
        ensures
            final(self).registers == spec_load_a(old(self).registers, old(self).registers.y),
            final(self).memory@ == old(self).memory@,
            final(self).cycles == old(self).cycles,
    {
        let value = self.registers.y;
        self.set_a(value);
    }

    /// TXS: copy X into the stack pointer; the one transfer that touches no
    /// flag.
    pub fn txs(&mut self, _src: AddressingResult)
        ensures
            final(self).registers == (Registers {
                sp: old(self).registers.x,
                ..old(self).registers
            }),
            final(self).memory@ == old(self).memory@,
            final(self).cycles == old(self).cycles,
    {
        self.registers.sp = self.registers.x;
    }

    /// SEC: set the carry flag.
    pub fn sec(&mut self, _src: AddressingResult)
        ensures
            final(self).registers == (Registers { c: true, ..old(self).registers }),
            final(self).memory@ == old(self).memory@,
            final(self).cycles == old(self).cycles,
    {
        self.registers.c = true;
    }

    /// CLC: clear the carry flag.
    pub fn clc(&mut self, _src: AddressingResult)
        ensures
            final(self).registers == (Registers { c: false, ..old(self).registers }),
            final(self).memory@ == old(self).memory@,
            final(self).cycles == old(self).cycles,
    {
        self.registers.c = false;
    }

    /// SED: set the decimal flag; arithmetic never consults it.
    pub fn sed(&mut self, _src: AddressingResult)
        ensures
            final(self).registers == (Registers { d: true, ..old(self).registers }),
            final(self).memory@ == old(self).memory@,
            final(self).cycles == old(self).cycles,
    {
        self.registers.d = true;
    }

    /// CLD: clear the decimal flag.
    pub fn cld(&mut self, _src: AddressingResult)
        ensures
            final(self).registers == (Registers { d: false, ..old(self).registers }),
            final(self).memory@ == old(self).memory@,
            final(self).cycles == old(self).cycles,
    {
        self.registers.d = false;
    }

    /// SEI: set the interrupt-disable flag.
    pub fn sei(&mut self, _src: AddressingResult)
        ensures
            final(self).registers == (Registers { i: true, ..old(self).registers }),
            final(self).memory@ == old(self).memory@,
            final(self).cycles == old(self).cycles,
    {
        self.registers.i = true;
    }

    /// CLI: clear the interrupt-disable flag.
    pub fn cli(&mut self, _src: AddressingResult)
        ensures
            final(self).registers == (Registers { i: false, ..old(self).registers }),
            final(self).memory@ == old(self).memory@,
            final(self).cycles == old(self).cycles,
    {
        self.registers.i = false;
    }

    /// CLV: clear the overflow flag.
    pub fn clv(&mut self, _src: AddressingResult)
        ensures
            final(self).registers == (Registers { v: false, ..old(self).registers }),
            final(self).memory@ == old(self).memory@,
            final(self).cycles == old(self).cycles,
    {
        self.registers.v = false;
    }

    /// NOP: consumes its declared cycles and does nothing else.
    pub fn nop(&mut self, _src: AddressingResult)
        ensures
            final(self).registers == old(self).registers,
            final(self).memory@ == old(self).memory@,
            final(self).cycles == old(self).cycles,
    {
    }

    /// PHA: push the accumulator.
    pub fn pha(&mut self, _src: AddressingResult)
        ensures
            final(self).memory@ == old(self).memory@.update(
                spec_stack_address(old(self).registers.sp) as int,
                old(self).registers.a,
            ),
            final(self).registers == (Registers {
                sp: wrap8(old(self).registers.sp - 1),
                ..old(self).registers
            }),
            final(self).cycles == old(self).cycles,
    {
        let value = self.registers.a;
        self.push_byte(value);
    }

    /// PHP: push the status byte with break and unused forced set, whatever
    /// the live flags hold.
    pub fn php(&mut self, _src: AddressingResult)
        ensures
            final(self).memory@ == old(self).memory@.update(
                spec_stack_address(old(self).registers.sp) as int,
                spec_pushed_status(old(self).registers),
            ),
            final(self).registers == (Registers {
                sp: wrap8(old(self).registers.sp - 1),
                ..old(self).registers
            }),
            final(self).cycles == old(self).cycles,
    {
        let mut flags = self.registers;
        flags.b = true;
        flags.unused = true;
        let value = flags.to_byte();
        self.push_byte(value);
    }

    /// PLA: pop into the accumulator, setting zero and negative.
    pub fn pla(&mut self, _src: AddressingResult)
        ensures
            final(self).registers == (Registers {
                sp: wrap8(old(self).registers.sp + 1),
                ..spec_load_a(
                    old(self).registers,
                    old(self).memory@[spec_stack_address(wrap8(old(self).registers.sp + 1)) as int],
                )
            }),
            final(self).memory@ == old(self).memory@,
            final(self).cycles == old(self).cycles,
    {
        let value = self.pop_byte();
        self.set_a(value);
    }

    /// PLP: pop the status byte and restore all eight flags from it verbatim,
    /// forcing nothing.
    pub fn plp(&mut self, _src: AddressingResult)
        ensures
            final(self).registers == (Registers {
                sp: wrap8(old(self).registers.sp + 1),
                ..spec_from_byte(
                    old(self).registers,
                    old(self).memory@[spec_stack_address(wrap8(old(self).registers.sp + 1)) as int],
                )
            }),
            final(self).memory@ == old(self).memory@,
            final(self).cycles == old(self).cycles,
    {
        let value = self.pop_byte();
        self.registers.from_byte(value);
    }

    /// JMP: load the program counter with the effective address.
    pub fn jmp(&mut self, src: AddressingResult)
        ensures
            final(self).registers == (match src {
                AddressingResult::Address(address) => Registers {
                    pc: address,
                    ..old(self).registers
                },
                _ => old(self).registers,
            }),
            final(self).memory@ == old(self).memory@,
            final(self).cycles == old(self).cycles,
    {
        match src {
            AddressingResult::Address(address) => {
                self.registers.pc = address;
            },
            _ => {},
        }
    }

    /// JSR: push the address of the next instruction minus one, high byte
    /// first, then jump to the target.
    pub fn jsr(&mut self, src: AddressingResult)
        ensures
            ({
                let (r, m) = spec_jsr(src, old(self).registers, old(self).memory@);
                final(self).registers == r && final(self).memory@ == m
            }),
            final(self).cycles == old(self).cycles,
    {
        match src {
            AddressingResult::Address(address) => {
                let return_address = self.registers.pc.wrapping_sub(1);
                self.push_word(return_address);
                self.registers.pc = address;
            },
            _ => {},
        }
    }

    /// RTS: pop the return address and resume one byte past it.
    pub fn rts(&mut self, _src: AddressingResult)
        ensures
            ({
                let low = old(self).memory@[spec_stack_address(
                    wrap8(old(self).registers.sp + 1),
                ) as int];
                let high = old(self).memory@[spec_stack_address(
                    wrap8(old(self).registers.sp + 2),
                ) as int];
                final(self).registers == (Registers {
                    pc: wrap16(low + 256 * high + 1),
                    sp: wrap8(old(self).registers.sp + 2),
                    ..old(self).registers
                })
            }),
            final(self).memory@ == old(self).memory@,
            final(self).cycles == old(self).cycles,
    {
        let return_address = self.pop_word();
        self.registers.pc = return_address.wrapping_add(1);
    }

    /// RTI: pop the status byte, restored verbatim, then pop the program
    /// counter.
    pub fn rti(&mut self, _src: AddressingResult)
        ensures
            ({
                let status = old(self).memory@[spec_stack_address(
                    wrap8(old(self).registers.sp + 1),
                ) as int];
                let low = old(self).memory@[spec_stack_address(
                    wrap8(old(self).registers.sp + 2),
                ) as int];
                let high = old(self).memory@[spec_stack_address(
                    wrap8(old(self).registers.sp + 3),
                ) as int];
                final(self).registers == (Registers {
                    pc: (low + 256 * high) as u16,
                    sp: wrap8(old(self).registers.sp + 3),
                    ..spec_from_byte(old(self).registers, status)
                })
            }),
            final(self).memory@ == old(self).memory@,
            final(self).cycles == old(self).cycles,
    {
        let status = self.pop_byte();
        self.registers.from_byte(status);
        let return_address = self.pop_word();
        self.registers.pc = return_address;
        assert(wrap8(wrap8(old(self).registers.sp + 1) + 2) == wrap8(old(self).registers.sp + 3));
        assert(wrap8(wrap8(old(self).registers.sp + 1) + 1) == wrap8(old(self).registers.sp + 2));
    }

    /// BRK: push the program counter plus one, push the status byte with
    /// break and unused forced set, set interrupt-disable, and load the
    /// program counter from the interrupt vector.
    pub fn brk(&mut self, _src: AddressingResult)
        ensures
            ({
                let (r, m) = spec_brk(old(self).registers, old(self).memory@);
                final(self).registers == r && final(self).memory@ == m
            }),
            final(self).cycles == old(self).cycles,
    {
        let pushed_pc = self.registers.pc.wrapping_add(1);
        self.push_word(pushed_pc);
        let mut flags = self.registers;
        flags.b = true;
        flags.unused = true;
        let status = flags.to_byte();
        self.push_byte(status);
        self.registers.i = true;
        self.registers.pc = self.memory.read_word(0xFFFE);
    }

    /// BCC: branch when carry is clear.
    pub fn bcc(&mut self, src: AddressingResult)
        requires
            old(self).cycles + 2 <= u64::MAX,
        ensures
            spec_branched(src, *old(self), *final(self), !old(self).registers.c),
    {
        match src {
            AddressingResult::Relative(offset) => {
                let condition = !self.registers.c;
                self.branch(condition, offset);
            },
            _ => {},
        }
    }

    /// BCS: branch when carry is set.
    pub fn bcs(&mut self, src: AddressingResult)
        requires
            old(self).cycles + 2 <= u64::MAX,
        ensures
            spec_branched(src, *old(self), *final(self), old(self).registers.c),
    {
        match src {
            AddressingResult::Relative(offset) => {
                let condition = self.registers.c;
                self.branch(condition, offset);
            },
            _ => {},
        }
    }

    /// BEQ: branch when the zero flag is set.
    pub fn beq(&mut self, src: AddressingResult)
        requires
            old(self).cycles + 2 <= u64::MAX,
        ensures
            spec_branched(src, *old(self), *final(self), old(self).registers.z),
    {
        match src {
            AddressingResult::Relative(offset) => {
                let condition = self.registers.z;
                self.branch(condition, offset);
            },
            _ => {},
        }
    }

    /// BNE: branch when the zero flag is clear.
    pub fn bne(&mut self, src: AddressingResult)
        requires
            old(self).cycles + 2 <= u64::MAX,
        ensures
            spec_branched(src, *old(self), *final(self), !old(self).registers.z),
    {
        match src {
            AddressingResult::Relative(offset) => {
                let condition = !self.registers.z;
                self.branch(condition, offset);
            },
            _ => {},
        }
    }

    /// BMI: branch when the negative flag is set.
    pub fn bmi(&mut self, src: AddressingResult)
        requires
            old(self).cycles + 2 <= u64::MAX,
        ensures
            spec_branched(src, *old(self), *final(self), old(self).registers.n),
    {
        match src {
            AddressingResult::Relative(offset) => {
                let condition = self.registers.n;
                self.branch(condition, offset);
            },
            _ => {},
        }
    }

    /// BPL: branch when the negative flag is clear.
    pub fn bpl(&mut self, src: AddressingResult)
        requires
            old(self).cycles + 2 <= u64::MAX,
        ensures
            spec_branched(src, *old(self), *final(self), !old(self).registers.n),
    {
        match src {
            AddressingResult::Relative(offset) => {
                let condition = !self.registers.n;
                self.branch(condition, offset);
            },
            _ => {},
        }
    }

    /// BVS: branch when the overflow flag is set.
    pub fn bvs(&mut self, src: AddressingResult)
        requires
            old(self).cycles + 2 <= u64::MAX,
        ensures
            spec_branched(src, *old(self), *final(self), old(self).registers.v),
    {
        match src {
            AddressingResult::Relative(offset) => {
                let condition = self.registers.v;
                self.branch(condition, offset);
            },
            _ => {},
        }
    }

    /// BVC: branch when the overflow flag is clear.
    pub fn bvc(&mut self, src: AddressingResult)
        requires
            old(self).cycles + 2 <= u64::MAX,
        ensures
            spec_branched(src, *old(self), *final(self), !old(self).registers.v),
    {
        match src {
            AddressingResult::Relative(offset) => {
                let condition = !self.registers.v;
                self.branch(condition, offset);
            },
            _ => {},
        }
    }
}

/// What JSR leaves behind: for an address operand, the return address (one
/// before the next instruction) pushed high byte first and the program
/// counter at the target; anything else changes nothing.
pub open spec fn spec_jsr(src: AddressingResult, r: Registers, m: Seq<u8>) -> (
    Registers,
    Seq<u8>,
) {
    match src {
        AddressingResult::Address(address) => {
            let return_address = wrap16(r.pc - 1);
            (
                Registers { pc: address, sp: wrap8(r.sp - 2), ..r },
                m.update(
                    spec_stack_address(r.sp) as int,
                    (return_address / 256) as u8,
                ).update(
                    spec_stack_address(wrap8(r.sp - 1)) as int,
                    (return_address % 256) as u8,
                ),
            )
        },
        _ => (r, m),
    }
}

/// What BRK leaves behind: the program counter plus one pushed high byte
/// first, then the status byte with break and unused forced set;
/// interrupt-disable set; and the program counter loaded from the interrupt
/// vector, read after the pushes.
pub open spec fn spec_brk(r: Registers, m: Seq<u8>) -> (Registers, Seq<u8>) {
    let pushed_pc = wrap16(r.pc + 1);
    let m1 = m.update(spec_stack_address(r.sp) as int, (pushed_pc / 256) as u8).update(
        spec_stack_address(wrap8(r.sp - 1)) as int,
        (pushed_pc % 256) as u8,
    );
    let m2 = m1.update(spec_stack_address(wrap8(r.sp - 2)) as int, spec_pushed_status(r));
    (
        Registers { pc: spec_word_at(m2, 0xFFFE), sp: wrap8(r.sp - 3), i: true, ..r },
        m2,
    )
}

/// Where a branch leaves the program counter and how many extra cycles it
/// charges: nothing and none when not taken or when the operand is not a
/// displacement; otherwise the displaced target, one extra cycle, and one
/// more when the target lies in another page than the following instruction.
pub open spec fn spec_branch_step(src: AddressingResult, r: Registers, taken: bool) -> (
    Registers,
    int,
) {
    match src {
        AddressingResult::Relative(offset) => {
            if taken {
                let target = wrap16(r.pc + offset);
                (
                    Registers { pc: target, ..r },
                    1 + if page_of(target) != page_of(r.pc) {
                        1int
                    } else {
                        0int
                    },
                )
            } else {
                (r, 0)
            }
        },
        _ => (r, 0),
    }
}

/// What a branch executor guarantees: the program counter moves and the
/// extra cycles are charged as `spec_branch_step` says; memory is never
/// touched.
pub open spec fn spec_branched(
    src: AddressingResult,
    before: CPU,
    after: CPU,
    condition: bool,
) -> bool {
    let (r, extra) = spec_branch_step(src, before.registers, condition);
    after.registers == r && after.cycles == before.cycles + extra && after.memory@
        == before.memory@
}

} // verus!
