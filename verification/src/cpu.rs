//! The processor core: register file, flat memory, cycle counter, the
//! addressing resolver, the stack manager, and the small register/flag
//! helpers the operation executors build on.

use vstd::prelude::*;

use crate::address::AddressingResult;
use crate::address::Address;
use crate::memory::spec_word_at;
use crate::memory::spec_word_at_zero_page;
use crate::memory::Memory;
use crate::operation::AddressMode;
use crate::registers::spec_power_on;
use crate::registers::spec_set_zn;
use crate::registers::Registers;
use crate::status::CPUFlag;

verus! {

/// 8-bit wraparound: the byte value of `x` modulo 256.
pub open spec fn wrap8(x: int) -> u8 {
    (x % 0x100) as u8
}

/// 16-bit wraparound: the word value of `x` modulo 65536.
pub open spec fn wrap16(x: int) -> u16 {
    (x % 0x10000) as u16
}

/// The page an address lies in: its high byte.
pub open spec fn page_of(address: u16) -> u16 {
    address / 0x100
}

/// The full address the stack pointer names inside the fixed stack page.
pub open spec fn spec_stack_address(sp: u8) -> u16 {
    (0x0100 + sp) as u16
}

/// The offset byte reinterpreted as a signed displacement, two's complement.
pub open spec fn spec_as_i8(offset: u8) -> i8 {
    if offset < 0x80 {
        offset as i8
    } else {
        (offset - 0x100) as i8
    }
}

/// One extra cycle where a conditional page-crossing penalty applies and the
/// effective address left the page of the base address.
pub open spec fn spec_cross_penalty(page_penalty: bool, base: u16, effective: u16) -> u64 {
    if page_penalty && page_of(base) != page_of(effective) {
        1
    } else {
        0
    }
}

/// The little-endian word behind `pointer`, reproducing the hardware bug of
/// indirect addressing: when the pointer's low byte is 0xFF, the high byte is
/// read from the start of the same page, not from the next page.
pub open spec fn spec_word_at_page_bug(m: Seq<u8>, pointer: u16) -> u16 {
    (m[pointer as int] + 256 * m[(if pointer % 0x100 == 0xFF {
        pointer - 0xFF
    } else {
        pointer + 1
    }) as int]) as u16
}

/// What resolving an addressing mode yields: the operand descriptor, the
/// extra cycles earned by a page crossing, and the program counter after the
/// operand bytes. `r.pc` points at the first operand byte.
/// Opaque: callers see resolution through `resolve`'s contract; proofs about
/// a single mode reveal it.
#[verifier::opaque]
pub open spec fn spec_resolve(mode: AddressMode, page_penalty: bool, r: Registers, m: Seq<u8>) -> (
    AddressingResult,
    u64,
    u16,
) {
    match mode {
        AddressMode::Implied => (AddressingResult::Implied, 0, r.pc),
        AddressMode::Immediate => (
            AddressingResult::Immediate(m[r.pc as int]),
            0,
            wrap16(r.pc + 1),
        ),
        AddressMode::Relative => (
            AddressingResult::Relative(spec_as_i8(m[r.pc as int])),
            0,
            wrap16(r.pc + 1),
        ),
        AddressMode::ZeroPage => (
            AddressingResult::Address(m[r.pc as int] as u16),
            0,
            wrap16(r.pc + 1),
        ),
        AddressMode::ZeroPageX => (
            AddressingResult::Address(wrap8(m[r.pc as int] + r.x) as u16),
            0,
            wrap16(r.pc + 1),
        ),
        AddressMode::ZeroPageY => (
            AddressingResult::Address(wrap8(m[r.pc as int] + r.y) as u16),
            0,
            wrap16(r.pc + 1),
        ),
        AddressMode::Absolute => (
            AddressingResult::Address(spec_word_at(m, r.pc)),
            0,
            wrap16(r.pc + 2),
        ),
        AddressMode::AbsoluteX => {
            let base = spec_word_at(m, r.pc);
            let effective = wrap16(base + r.x);
            (
                AddressingResult::Address(effective),
                spec_cross_penalty(page_penalty, base, effective),
                wrap16(r.pc + 2),
            )
        },
        AddressMode::AbsoluteY => {
            let base = spec_word_at(m, r.pc);
            let effective = wrap16(base + r.y);
            (
                AddressingResult::Address(effective),
                spec_cross_penalty(page_penalty, base, effective),
                wrap16(r.pc + 2),
            )
        },
        AddressMode::Indirect => (
            AddressingResult::Address(spec_word_at_page_bug(m, spec_word_at(m, r.pc))),
            0,
            wrap16(r.pc + 2),
        ),
        AddressMode::IndirectX => (
            AddressingResult::Address(
                spec_word_at_zero_page(m, wrap8(m[r.pc as int] + r.x)),
            ),
            0,
            wrap16(r.pc + 1),
        ),
        AddressMode::IndirectY => {
            let base = spec_word_at_zero_page(m, m[r.pc as int]);
            let effective = wrap16(base + r.y);
            (
                AddressingResult::Address(effective),
                spec_cross_penalty(page_penalty, base, effective),
                wrap16(r.pc + 1),
            )
        },
    }
}

/// Where a branch goes and what it costs: a taken branch moves the program
/// counter by the signed displacement and costs one extra cycle, plus one
/// more when the target lies in a different page than the instruction that
/// follows the branch. A branch not taken changes nothing.
pub open spec fn spec_branch(r: Registers, cycles: u64, taken: bool, offset: i8) -> (
    Registers,
    u64,
) {
    if taken {
        let target = wrap16(r.pc + offset);
        (
            Registers { pc: target, ..r },
            (cycles + 1 + if page_of(target) != page_of(r.pc) {
                1int
            } else {
                0int
            }) as u64,
        )
    } else {
        (r, cycles)
    }
}

/// The effective address a pure address query computes for the address-carrying
/// modes, with `at` naming the first operand byte.
pub open spec fn spec_absolute_address(mode: AddressMode, at: u16, r: Registers, m: Seq<u8>) -> u16 {
    match mode {
        AddressMode::ZeroPage => m[at as int] as u16,
        AddressMode::ZeroPageX => wrap8(m[at as int] + r.x) as u16,
        AddressMode::ZeroPageY => wrap8(m[at as int] + r.y) as u16,
        AddressMode::Absolute => spec_word_at(m, at),
        AddressMode::AbsoluteX => wrap16(spec_word_at(m, at) + r.x),
        AddressMode::AbsoluteY => wrap16(spec_word_at(m, at) + r.y),
        AddressMode::IndirectX => spec_word_at_zero_page(m, wrap8(m[at as int] + r.x)),
        AddressMode::IndirectY => wrap16(spec_word_at_zero_page(m, m[at as int]) + r.y),
        _ => 0,
    }
}

/// Whether a mode yields an effective address at all.
pub open spec fn yields_address(mode: AddressMode) -> bool {
    match mode {
        AddressMode::Implied => false,
        AddressMode::Immediate => false,
        AddressMode::Relative => false,
        AddressMode::Indirect => false,
        _ => true,
    }
}

/// The processor: register file, 64 KiB of memory, and the running cycle
/// count. Cycles are charged per whole instruction from the dispatch table,
/// never per memory access.
pub struct CPU {
    pub registers: Registers,
    pub memory: Memory,
    pub cycles: u64,
}

/// The caller-facing name of the machine.
pub type Processor = CPU;

/// The register file a reset installs, a function of the memory image alone:
/// cleared data registers, the stack pointer reinitialized, interrupt-disable
/// and the unused flag set, every other flag clear, and the program counter
/// read from the reset vector.
pub open spec fn spec_reset_registers(m: Seq<u8>) -> Registers {
    Registers {
        pc: spec_word_at(m, 0xFFFC),
        sp: 0xFD,
        a: 0,
        x: 0,
        y: 0,
        c: false,
        z: false,
        i: true,
        d: false,
        b: false,
        unused: true,
        v: false,
        n: false,
    }
}

/// How a reset relates the machine before to the machine after: the
/// registers are reinitialized from the memory image, and memory and the
/// cycle count are untouched.
pub open spec fn spec_was_reset(before: CPU, after: CPU) -> bool {
    &&& after.registers == spec_reset_registers(before.memory@)
    &&& after.memory@ == before.memory@
    &&& after.cycles == before.cycles
}

impl CPU {
    /// A machine in the power-on state with all of memory zero: the program
    /// counter holds what the reset vector of that fresh image reads.
    pub fn new() -> (r: CPU)
        ensures
            r.registers == spec_power_on(),
            r.registers.pc == spec_word_at(r.memory@, 0xFFFC),
            r.memory@ == Seq::new(0x10000, |i: int| 0u8),
            r.cycles == 0,
    {
        CPU { registers: Registers::new(), memory: Memory::new(), cycles: 0 }
    }

    /// Reset: data registers cleared, stack pointer reinitialized,
    /// interrupt-disable and the unused flag set and every other flag clear,
    /// and the program counter loaded from the reset vector. Memory and the
    /// cycle count are untouched.
    pub fn reset(&mut self)
        ensures
            spec_was_reset(*old(self), *final(self)),
    {
        self.registers.a = 0;
        self.registers.x = 0;
        self.registers.y = 0;
        self.registers.sp = Registers::STACK_RESET;
        self.registers.pc = self.memory.read_word(Registers::RESET_VECTOR);
        self.registers.c = false;
        self.registers.z = false;
        self.registers.i = true;
        self.registers.d = false;
        self.registers.b = false;
        self.registers.unused = true;
        self.registers.v = false;
        self.registers.n = false;
    }

    /// The full stack address the stack pointer names.
    pub fn sp_to_address(&self) -> (r: Address)
        ensures
            r.0 == spec_stack_address(self.registers.sp),
    {
        Address(0x0100 + self.registers.sp as u16)
    }

    /// Writes `value` at the stack pointer's address, then decrements the
    /// stack pointer, wrapping within the stack page.
    pub fn push_byte(&mut self, value: u8)
        ensures
            final(self).memory@ == old(self).memory@.update(
                spec_stack_address(old(self).registers.sp) as int,
                value,
            ),
            final(self).registers == (Registers {
                sp: wrap8(old(self).registers.sp - 1),
                ..old(self).registers
            }),
            final(self).cycles == old(self).cycles,
    {
        self.memory.write_byte(0x0100 + self.registers.sp as u16, value);
        self.registers.sp = self.registers.sp.wrapping_sub(1);
    }

    /// Increments the stack pointer, wrapping within the stack page, then
    /// reads the byte at its new address.
    pub fn pop_byte(&mut self) -> (r: u8)
        ensures
            final(self).registers == (Registers {
                sp: wrap8(old(self).registers.sp + 1),
                ..old(self).registers
            }),
            r == old(self).memory@[spec_stack_address(wrap8(old(self).registers.sp + 1)) as int],
            final(self).memory@ == old(self).memory@,
            final(self).cycles == old(self).cycles,
    {
        self.registers.sp = self.registers.sp.wrapping_add(1);
        self.memory.read_byte(0x0100 + self.registers.sp as u16)
    }

    /// Pushes a word, high byte first, then low byte; the load-bearing order
    /// for subroutine return addresses.
    pub fn push_word(&mut self, value: u16)
        ensures
            final(self).memory@ == old(self).memory@.update(
                spec_stack_address(old(self).registers.sp) as int,
                (value / 256) as u8,
            ).update(
                spec_stack_address(wrap8(old(self).registers.sp - 1)) as int,
                (value % 256) as u8,
            ),
            final(self).registers == (Registers {
                sp: wrap8(old(self).registers.sp - 2),
                ..old(self).registers
            }),
            final(self).cycles == old(self).cycles,
    {
        self.push_byte((value / 256) as u8);
        self.push_byte((value % 256) as u8);
        assert(wrap8(wrap8(old(self).registers.sp - 1) - 1) == wrap8(old(self).registers.sp - 2));
    }

    /// Pops a word: low byte first, then high byte.
    pub fn pop_word(&mut self) -> (r: u16)
        ensures
            final(self).registers == (Registers {
                sp: wrap8(old(self).registers.sp + 2),
                ..old(self).registers
            }),
            r == old(self).memory@[spec_stack_address(wrap8(old(self).registers.sp + 1)) as int]
                + 256 * old(self).memory@[spec_stack_address(
                wrap8(old(self).registers.sp + 2),
            ) as int],
            final(self).memory@ == old(self).memory@,
            final(self).cycles == old(self).cycles,
    {
        let low = self.pop_byte();
        let high = self.pop_byte();
        assert(wrap8(wrap8(old(self).registers.sp + 1) + 1) == wrap8(old(self).registers.sp + 2));
        low as u16 + 256 * high as u16
    }

    /// Pushes a word, high byte first; the classic name for `push_word`.
    pub fn stack_push_word(&mut self, value: u16)
        ensures
            final(self).memory@ == old(self).memory@.update(
                spec_stack_address(old(self).registers.sp) as int,
                (value / 256) as u8,
            ).update(
                spec_stack_address(wrap8(old(self).registers.sp - 1)) as int,
                (value % 256) as u8,
            ),
            final(self).registers == (Registers {
                sp: wrap8(old(self).registers.sp - 2),
                ..old(self).registers
            }),
            final(self).cycles == old(self).cycles,
    {
        self.push_word(value);
    }

    /// Reads the byte the program counter points at and advances the program
    /// counter, wrapping at the top of the address space.
    pub fn read_next_byte(&mut self) -> (r: u8)
        ensures
            r == old(self).memory@[old(self).registers.pc as int],
            final(self).registers == (Registers {
                pc: wrap16(old(self).registers.pc + 1),
                ..old(self).registers
            }),
            final(self).memory@ == old(self).memory@,
            final(self).cycles == old(self).cycles,
    {
        let value = self.memory.read_byte(self.registers.pc);
        self.registers.pc = self.registers.pc.wrapping_add(1);
        value
    }

    /// Reads the little-endian word the program counter points at and
    /// advances the program counter past it.
    pub fn read_next_word(&mut self) -> (r: u16)
        ensures
            r == spec_word_at(old(self).memory@, old(self).registers.pc),
            final(self).registers == (Registers {
                pc: wrap16(old(self).registers.pc + 2),
                ..old(self).registers
            }),
            final(self).memory@ == old(self).memory@,
            final(self).cycles == old(self).cycles,
    {
        let value = self.memory.read_word(self.registers.pc);
        self.registers.pc = self.registers.pc.wrapping_add(2);
        value
    }

    /// Resolves an addressing mode: consumes the operand bytes the mode
    /// requires, advances the program counter past them, and returns the
    /// operand descriptor together with the extra cycles a page crossing
    /// earned. The extra cycles are the caller's to fold into the total.
    #[verifier::rlimit(100)]
    #[verifier::spinoff_prover]
    pub fn resolve(&mut self, mode: AddressMode, page_penalty: bool) -> (r: (AddressingResult, u64))
        ensures
            ({
                let (result, extra, pc) = spec_resolve(
                    mode,
                    page_penalty,
                    old(self).registers,
                    old(self).memory@,
                );
                r.0 == result && r.1 == extra && final(self).registers == (Registers {
                    pc,
                    ..old(self).registers
                })
            }),
            final(self).memory@ == old(self).memory@,
            final(self).cycles == old(self).cycles,
    {
        proof {
            reveal(spec_resolve);
        }
        match mode {
            AddressMode::Implied => (AddressingResult::Implied, 0),
            AddressMode::Immediate => {
                let value = self.read_next_byte();
                (AddressingResult::Immediate(value), 0)
            },
            AddressMode::Relative => {
                let raw = self.read_next_byte();
                let offset: i8 = if raw < 0x80 {
                    raw as i8
                } else {
                    ((raw as i16) - 0x100) as i8
                };
                (AddressingResult::Relative(offset), 0)
            },
            AddressMode::ZeroPage => {
                let address = self.read_next_byte();
                (AddressingResult::Address(address as u16), 0)
            },
            AddressMode::ZeroPageX => {
                let base = self.read_next_byte();
                (AddressingResult::Address(base.wrapping_add(self.registers.x) as u16), 0)
            },
            AddressMode::ZeroPageY => {
                let base = self.read_next_byte();
                (AddressingResult::Address(base.wrapping_add(self.registers.y) as u16), 0)
            },
            AddressMode::Absolute => {
                let address = self.read_next_word();
                (AddressingResult::Address(address), 0)
            },
            AddressMode::AbsoluteX => {
                let base = self.read_next_word();
                let effective = base.wrapping_add(self.registers.x as u16);
                let extra: u64 = if page_penalty && base / 0x100 != effective / 0x100 {
                    1
                } else {
                    0
                };
                (AddressingResult::Address(effective), extra)
            },
            AddressMode::AbsoluteY => {
                let base = self.read_next_word();
                let effective = base.wrapping_add(self.registers.y as u16);
                let extra: u64 = if page_penalty && base / 0x100 != effective / 0x100 {
                    1
                } else {
                    0
                };
                (AddressingResult::Address(effective), extra)
            },
            AddressMode::Indirect => {
                let pointer = self.read_next_word();
                let low = self.memory.read_byte(pointer);
                let high = if pointer % 0x100 == 0xFF {
                    self.memory.read_byte(pointer - 0xFF)
                } else {
                    self.memory.read_byte(pointer.wrapping_add(1))
                };
                (AddressingResult::Address(low as u16 + 256 * high as u16), 0)
            },
            AddressMode::IndirectX => {
                let base = self.read_next_byte();
                let pointer = base.wrapping_add(self.registers.x);
                let address = self.memory.read_word_zero_page(pointer);
                (AddressingResult::Address(address), 0)
            },
            AddressMode::IndirectY => {
                let pointer = self.read_next_byte();
                let base = self.memory.read_word_zero_page(pointer);
                let effective = base.wrapping_add(self.registers.y as u16);
                let extra: u64 = if page_penalty && base / 0x100 != effective / 0x100 {
                    1
                } else {
                    0
                };
                (AddressingResult::Address(effective), extra)
            },
        }
    }

    /// The address the operand of an instruction at the current program
    /// counter lives at; under immediate addressing, the program counter
    /// itself. A pure query: nothing is consumed or advanced.
    pub fn operand(&self, mode: &AddressMode) -> (r: u16)
        requires
            yields_address(*mode) || *mode == AddressMode::Immediate,
        ensures
            r == (if *mode == AddressMode::Immediate {
                self.registers.pc
            } else {
                spec_absolute_address(*mode, self.registers.pc, self.registers, self.memory@)
            }),
    {
        match mode {
            AddressMode::Immediate => self.registers.pc,
            _ => self.get_absolute_address(mode, self.registers.pc),
        }
    }

    /// The effective address an address-carrying mode denotes, with its
    /// operand bytes at `at`. A pure query: nothing is consumed or advanced.
    pub fn get_absolute_address(&self, mode: &AddressMode, at: u16) -> (r: u16)
        requires
            yields_address(*mode),
        ensures
            r == spec_absolute_address(*mode, at, self.registers, self.memory@),
    {
        match mode {
            AddressMode::ZeroPage => self.memory.read_byte(at) as u16,
            AddressMode::ZeroPageX => {
                let base = self.memory.read_byte(at);
                base.wrapping_add(self.registers.x) as u16
            },
            AddressMode::ZeroPageY => {
                let base = self.memory.read_byte(at);
                base.wrapping_add(self.registers.y) as u16
            },
            AddressMode::Absolute => self.memory.read_word(at),
            AddressMode::AbsoluteX => {
                let base = self.memory.read_word(at);
                base.wrapping_add(self.registers.x as u16)
            },
            AddressMode::AbsoluteY => {
                let base = self.memory.read_word(at);
                base.wrapping_add(self.registers.y as u16)
            },
            AddressMode::IndirectX => {
                let base = self.memory.read_byte(at);
                let pointer = base.wrapping_add(self.registers.x);
                self.memory.read_word_zero_page(pointer)
            },
            AddressMode::IndirectY => {
                let pointer = self.memory.read_byte(at);
                let base = self.memory.read_word_zero_page(pointer);
                base.wrapping_add(self.registers.y as u16)
            },
            _ => 0,
        }
    }

    /// Moves the program counter by the signed displacement when the
    /// condition holds, charging one cycle for a taken branch and one more
    /// when the target leaves the page of the following instruction.
    pub fn branch(&mut self, condition: bool, offset: i8)
        requires
            old(self).cycles + 2 <= u64::MAX,
        ensures
            ({
                let (r, cycles) = spec_branch(
                    old(self).registers,
                    old(self).cycles,
                    condition,
                    offset,
                );
                final(self).registers == r && final(self).cycles == cycles
            }),
            final(self).memory@ == old(self).memory@,
    {
        if condition {
            let target: u16 = if offset >= 0 {
                self.registers.pc.wrapping_add(offset as u16)
            } else {
                self.registers.pc.wrapping_sub((-(offset as i16)) as u16)
            };
            self.cycles += 1;
            if target / 0x100 != self.registers.pc / 0x100 {
                self.cycles += 1;
            }
            self.registers.pc = target;
        }
    }

    /// Updates the zero and negative flags from a result byte.
    pub fn update_zero_and_negative_flags(&mut self, result: u8)
        ensures
            final(self).registers == spec_set_zn(old(self).registers, result),
            final(self).memory@ == old(self).memory@,
            final(self).cycles == old(self).cycles,
    {
        let _ = self.registers.set_zn(result);
    }

    /// Updates the negative flag alone from a result byte.
    pub fn update_negative_flag(&mut self, result: u8)
        ensures
            final(self).registers == (Registers { n: result >= 0x80, ..old(self).registers }),
            final(self).memory@ == old(self).memory@,
            final(self).cycles == old(self).cycles,
    {
        self.registers.n = result >= 0x80;
    }

    /// Writes the accumulator and updates the zero and negative flags.
    pub fn set_a(&mut self, value: u8)
        ensures
            final(self).registers == (Registers {
                a: value,
                ..spec_set_zn(old(self).registers, value)
            }),
            final(self).memory@ == old(self).memory@,
            final(self).cycles == old(self).cycles,
    {
        self.registers.set_a(value);
    }

    /// Sets the flag's bit in a packed status byte.
    pub fn set_bit(target: &mut u8, flag: CPUFlag)
        ensures
            *final(target) == (*old(target) | flag.mask()),
    {
        *target |= flag.mask_value();
    }

    /// Clears the flag's bit in a packed status byte.
    pub fn unset_bit(target: &mut u8, flag: CPUFlag)
        ensures
            *final(target) == (*old(target) & !flag.mask()),
    {
        *target &= !flag.mask_value();
    }

    /// Whether the flag's bit is set in a packed status byte.
    pub fn is_bit_set(target: &u8, flag: CPUFlag) -> (r: bool)
        ensures
            r == (*target & flag.mask() != 0),
    {
        *target & flag.mask_value() != 0
    }
}

} // verus!
