//! The laws the core obeys, each proved from the transition specification:
//! cycle exactness for plain, page-crossing and branching instructions,
//! subroutine call and return, status push and pull, and the determinism of
//! reset.

use vstd::arithmetic::div_mod::lemma_add_mod_noop_right;
use vstd::prelude::*;

use crate::address::AddressingResult;
use crate::cpu::page_of;
use crate::cpu::spec_as_i8;
use crate::cpu::spec_resolve;
use crate::cpu::spec_stack_address;
use crate::cpu::spec_was_reset;
use crate::cpu::wrap16;
use crate::cpu::wrap8;
use crate::cpu::CPU;
use crate::memory::spec_word_at;
use crate::memory::spec_word_at_zero_page;
use crate::instructions::JSR_ABSOLUTE;
use crate::instructions::PHP_IMPLIED;
use crate::instructions::PLP_IMPLIED;
use crate::instructions::RTS_IMPLIED;
use crate::operation::spec_decode;
use crate::operation::AddressMode;
use crate::operation::Mnemonic;
use crate::operation::Operation;
use crate::processor::spec_exec;
use crate::ops::spec_pushed_status;
use crate::processor::spec_step;
use crate::registers::lemma_from_byte_to_byte;
use crate::registers::spec_from_byte;
use crate::registers::spec_to_byte;
use crate::registers::Registers;

verus! {

/// The registers after the opcode byte is fetched: the program counter one
/// past the opcode, everything else untouched.
pub open spec fn spec_fetched(r: Registers) -> Registers {
    Registers { pc: wrap16(r.pc + 1), ..r }
}

/// The table entry of the instruction at the program counter.
pub open spec fn spec_step_op(r: Registers, m: Seq<u8>) -> Operation {
    spec_decode(m[r.pc as int])->Some_0
}

/// The extra cycle the addressing resolver earns for the instruction at the
/// program counter: one exactly when its mode carries the conditional
/// penalty and the indexed read crosses a page, else none.
pub open spec fn spec_step_cross_extra(r: Registers, m: Seq<u8>) -> int {
    let op = spec_step_op(r, m);
    spec_resolve(op.mode, op.page_penalty, spec_fetched(r), m).1 as int
}

/// The operand descriptor the instruction at the program counter resolves to.
pub open spec fn spec_step_src(r: Registers, m: Seq<u8>) -> AddressingResult {
    let op = spec_step_op(r, m);
    spec_resolve(op.mode, op.page_penalty, spec_fetched(r), m).0
}

/// The registers after fetch and resolution: the program counter past the
/// whole instruction.
pub open spec fn spec_step_resolved(r: Registers, m: Seq<u8>) -> Registers {
    let op = spec_step_op(r, m);
    Registers { pc: spec_resolve(op.mode, op.page_penalty, spec_fetched(r), m).2, ..r }
}

/// The extra cycles the executor itself charges for the instruction at the
/// program counter: what a taken branch costs, and nothing otherwise.
pub open spec fn spec_step_branch_extra(r: Registers, m: Seq<u8>) -> int {
    let op = spec_step_op(r, m);
    spec_exec(op.mnemonic, spec_step_src(r, m), spec_step_resolved(r, m), m).2
}

/// Whether the flags of `r` send a branch operation on its way.
pub open spec fn spec_branch_taken(op: Mnemonic, r: Registers) -> bool {
    match op {
        Mnemonic::Bcc => !r.c,
        Mnemonic::Bcs => r.c,
        Mnemonic::Beq => r.z,
        Mnemonic::Bne => !r.z,
        Mnemonic::Bmi => r.n,
        Mnemonic::Bpl => !r.n,
        Mnemonic::Bvs => r.v,
        Mnemonic::Bvc => !r.v,
        _ => false,
    }
}

/// Whether the indexed read of the instruction at the program counter
/// crosses a page: the effective address and its base differ in their high
/// byte, for the three modes whose reads can earn the penalty.
pub open spec fn spec_read_crosses_page(r: Registers, m: Seq<u8>) -> bool {
    let op = spec_step_op(r, m);
    let f = spec_fetched(r);
    match op.mode {
        AddressMode::AbsoluteX => {
            let base = spec_word_at(m, f.pc);
            page_of(base) != page_of(wrap16(base + r.x))
        },
        AddressMode::AbsoluteY => {
            let base = spec_word_at(m, f.pc);
            page_of(base) != page_of(wrap16(base + r.y))
        },
        AddressMode::IndirectY => {
            let base = spec_word_at_zero_page(m, m[f.pc as int]);
            page_of(base) != page_of(wrap16(base + r.y))
        },
        _ => false,
    }
}

/// Only a relative operand can make the executor charge extra cycles: every
/// operation on an implied, immediate or address operand charges none.
pub proof fn lemma_exec_extra_zero_unless_relative(
    op: Mnemonic,
    src: AddressingResult,
    r: Registers,
    m: Seq<u8>,
)
    ensures
        !(src is Relative) ==> spec_exec(op, src, r, m).2 == 0,
{
    reveal(spec_exec);
}

/// Wrapping an already-wrapped word sum wraps the plain sum: 16-bit
/// wraparound composes.
pub proof fn lemma_wrap16_add(a: int, b: int)
    ensures
        wrap16(wrap16(a) + b) == wrap16(a + b),
{
    lemma_add_mod_noop_right(b, a, 0x10000);
}

/// Every instruction whose resolver earns no page-crossing cycle and whose
/// executor takes no branch consumes exactly the base cycle count of its
/// table entry.
pub proof fn lemma_base_cycles(r: Registers, m: Seq<u8>)
    requires
        spec_decode(m[r.pc as int]) is Some,
        spec_step_cross_extra(r, m) == 0,
        spec_step_branch_extra(r, m) == 0,
    ensures
        spec_step(r, m) matches Some(step) && step.2 == spec_step_op(r, m).cycles,
{
    reveal(spec_step);
}

/// A read under a penalty-carrying mode consumes exactly one cycle more when
/// it crosses a page than when it does not: the base count plus one on a
/// crossing, the base count alone otherwise.
pub proof fn lemma_page_cross_cycles(r: Registers, m: Seq<u8>)
    requires
        spec_decode(m[r.pc as int]) is Some,
        spec_step_op(r, m).page_penalty,
        spec_step_op(r, m).mode is AbsoluteX || spec_step_op(r, m).mode is AbsoluteY
            || spec_step_op(r, m).mode is IndirectY,
    ensures
        spec_step(r, m) matches Some(step) && step.2 == spec_step_op(r, m).cycles + (
        if spec_read_crosses_page(r, m) {
            1int
        } else {
            0int
        }),
{
    reveal(spec_step);
    reveal(spec_resolve);
    let op = spec_step_op(r, m);
    lemma_exec_extra_zero_unless_relative(
        op.mnemonic,
        spec_step_src(r, m),
        spec_step_resolved(r, m),
        m,
    );
}

/// Under relative addressing the table holds only the eight branch
/// operations, each with a base count of two and no page penalty.
pub proof fn lemma_relative_is_branch()
    ensures
        forall|opcode: u8|
            {
                let entry = #[trigger] spec_decode(opcode);
                entry is Some && entry->Some_0.mode is Relative ==> {
                    let op = entry->Some_0;
                    &&& op.cycles == 2
                    &&& !op.page_penalty
                    &&& (op.mnemonic is Bcc || op.mnemonic is Bcs || op.mnemonic is Beq
                        || op.mnemonic is Bne || op.mnemonic is Bmi || op.mnemonic is Bpl
                        || op.mnemonic is Bvs || op.mnemonic is Bvc)
                }
            },
{
    assert forall|opcode: u8|
        {
            let entry = #[trigger] spec_decode(opcode);
            entry is Some && entry->Some_0.mode is Relative ==> {
                let op = entry->Some_0;
                &&& op.cycles == 2
                &&& !op.page_penalty
                &&& (op.mnemonic is Bcc || op.mnemonic is Bcs || op.mnemonic is Beq
                    || op.mnemonic is Bne || op.mnemonic is Bmi || op.mnemonic is Bpl
                    || op.mnemonic is Bvs || op.mnemonic is Bvc)
            }
        } by {
        reveal(spec_decode);
    }
}

/// A branch not taken consumes exactly its base count and only moves the
/// program counter past its operand; a taken branch lands on the displaced
/// target and consumes the base count plus one when the target lies in the
/// page of the following instruction, plus two when it leaves that page.
/// Nothing else changes: no other register, no flag, and no byte of memory.
pub proof fn lemma_branch_cycles(r: Registers, m: Seq<u8>)
    requires
        spec_decode(m[r.pc as int]) is Some,
        spec_step_op(r, m).mode is Relative,
    ensures
        spec_step(r, m) matches Some(step) && ({
            let op = spec_step_op(r, m);
            let next = wrap16(r.pc + 2);
            let target = wrap16(next + spec_as_i8(m[spec_fetched(r).pc as int]));
            let taken = spec_branch_taken(op.mnemonic, r);
            &&& step.0 == (Registers {
                pc: if taken {
                    target
                } else {
                    next
                },
                ..r
            })
            &&& step.1 == m
            &&& step.2 == op.cycles + (if !taken {
                0int
            } else if page_of(target) == page_of(next) {
                1int
            } else {
                2int
            })
        }),
{
    reveal(spec_step);
    reveal(spec_resolve);
    reveal(spec_exec);
    lemma_relative_is_branch();
    let op = spec_step_op(r, m);
    let f = spec_fetched(r);
    let offset = spec_as_i8(m[f.pc as int]);
    lemma_wrap16_add(r.pc + 1, 1);
    assert(spec_resolve(op.mode, op.page_penalty, f, m).2 == wrap16(r.pc + 2));
    lemma_wrap16_add(r.pc + 2, offset as int);
}

/// Resetting twice from one memory image produces identical register states
/// both times: a reset leaves memory untouched, and the registers it
/// installs are a function of the memory image alone.
pub proof fn lemma_reset_deterministic(start: CPU, once: CPU, twice: CPU)
    requires
        spec_was_reset(start, once),
        spec_was_reset(once, twice),
    ensures
        twice.registers == once.registers,
{
}

/// Wrapping an already-wrapped byte sum wraps the plain sum: 8-bit
/// wraparound composes.
pub proof fn lemma_wrap8_add(a: int, b: int)
    ensures
        wrap8(wrap8(a) + b) == wrap8(a + b),
{
    lemma_add_mod_noop_right(b, a, 0x100);
}

/// A subroutine call followed at once by its return: `JSR` to a target that
/// holds `RTS` brings the program counter to the instruction after the
/// `JSR` and restores the stack pointer to its value before the call. The
/// target must lie outside the two stack bytes the call itself writes, as it
/// must on the hardware, or the return opcode would be overwritten.
#[verifier::rlimit(100)]
#[verifier::spinoff_prover]
pub proof fn lemma_jsr_rts(r: Registers, m: Seq<u8>)
    requires
        m.len() == 0x10000,
        m[r.pc as int] == JSR_ABSOLUTE,
        ({
            let target = spec_word_at(m, wrap16(r.pc + 1));
            &&& m[target as int] == RTS_IMPLIED
            &&& target != spec_stack_address(r.sp)
            &&& target != spec_stack_address(wrap8(r.sp - 1))
        }),
    ensures
        spec_step(r, m) matches Some(call) && spec_step(call.0, call.1) matches Some(ret) && ({
            &&& ret.0.pc == wrap16(r.pc + 3)
            &&& ret.0.sp == r.sp
        }),
{
    let f1 = spec_fetched(r);
    let target = spec_word_at(m, f1.pc);
    let op1 = Operation {
        mnemonic: Mnemonic::Jsr,
        mode: AddressMode::Absolute,
        cycles: 6,
        page_penalty: false,
    };
    assert(spec_decode(m[r.pc as int]) == Some(op1)) by {
        reveal(spec_decode);
    }
    let pc1 = wrap16(f1.pc + 2);
    assert(spec_resolve(AddressMode::Absolute, false, f1, m) == (
        AddressingResult::Address(target),
        0u64,
        pc1,
    )) by {
        reveal(spec_resolve);
    }
    let resolved1 = Registers { pc: pc1, ..f1 };
    let ret_address = wrap16(pc1 - 1);
    let m1 = m.update(
        spec_stack_address(r.sp) as int,
        (ret_address / 256) as u8,
    ).update(spec_stack_address(wrap8(r.sp - 1)) as int, (ret_address % 256) as u8);
    let r1 = Registers { pc: target, sp: wrap8(r.sp - 2), ..resolved1 };
    assert(spec_exec(Mnemonic::Jsr, AddressingResult::Address(target), resolved1, m) == (
        r1,
        m1,
        0int,
    )) by {
        reveal(spec_exec);
    }
    assert(spec_step(r, m) == Some((r1, m1, 6int))) by {
        reveal(spec_step);
    }
    assert(m1[target as int] == RTS_IMPLIED);
    let op2 = Operation {
        mnemonic: Mnemonic::Rts,
        mode: AddressMode::Implied,
        cycles: 6,
        page_penalty: false,
    };
    assert(spec_decode(m1[r1.pc as int]) == Some(op2)) by {
        reveal(spec_decode);
    }
    let f2 = spec_fetched(r1);
    assert(spec_resolve(AddressMode::Implied, false, f2, m1) == (
        AddressingResult::Implied,
        0u64,
        f2.pc,
    )) by {
        reveal(spec_resolve);
    }
    let resolved2 = Registers { pc: f2.pc, ..f2 };
    lemma_wrap8_add(r.sp - 2, 1);
    lemma_wrap8_add(r.sp - 2, 2);
    lemma_wrap8_small(r.sp);
    assert(wrap8(r1.sp + 1) == wrap8(r.sp - 1));
    assert(wrap8(r1.sp + 2) == r.sp);
    lemma_stack_addresses_distinct(r.sp, wrap8(r.sp - 1));
    let low = m1[spec_stack_address(wrap8(r1.sp + 1)) as int];
    let high = m1[spec_stack_address(wrap8(r1.sp + 2)) as int];
    assert(low == ret_address % 256);
    assert(high == ret_address / 256);
    let r2 = Registers {
        pc: wrap16(low + 256 * high + 1),
        sp: wrap8(r1.sp + 2),
        ..resolved2
    };
    assert(spec_exec(Mnemonic::Rts, AddressingResult::Implied, resolved2, m1) == (
        r2,
        m1,
        0int,
    )) by {
        reveal(spec_exec);
    }
    assert(spec_step(r1, m1) == Some((r2, m1, 6int))) by {
        reveal(spec_step);
    }
    assert(low + 256 * high == ret_address);
    lemma_wrap16_add(r.pc + 1, 2);
    lemma_wrap16_add(r.pc + 3, -1);
    lemma_wrap16_add(r.pc + 2, 1);
    assert(ret_address == wrap16(r.pc + 2));
    lemma_wrap16_small(ret_address);
    assert(r2.pc == wrap16(r.pc + 3));
}

/// An in-range value is its own wraparound.
pub proof fn lemma_wrap8_small(x: u8)
    ensures
        wrap8(x as int) == x,
{
}

/// An in-range word is its own wraparound.
pub proof fn lemma_wrap16_small(x: u16)
    ensures
        wrap16(x as int) == x,
        wrap16(x + 1 - 1) == x,
{
}

/// Neighbouring stack slots are distinct addresses.
pub proof fn lemma_stack_addresses_distinct(a: u8, b: u8)
    requires
        a != b,
    ensures
        spec_stack_address(a) != spec_stack_address(b),
{
}

/// `PHP` followed by `PLP`: the pushed status byte carries break and unused
/// forced set, and pulling it back reproduces that byte exactly — packing
/// the flags after the pull gives the pushed byte again, with nothing forced
/// a second time. The push must not land on the `PLP` opcode itself.
#[verifier::rlimit(100)]
#[verifier::spinoff_prover]
pub proof fn lemma_php_plp(r: Registers, m: Seq<u8>)
    requires
        m.len() == 0x10000,
        m[r.pc as int] == PHP_IMPLIED,
        m[wrap16(r.pc + 1) as int] == PLP_IMPLIED,
        spec_stack_address(r.sp) != wrap16(r.pc + 1),
    ensures
        spec_step(r, m) matches Some(push) && spec_step(push.0, push.1) matches Some(pull) && ({
            &&& push.1[spec_stack_address(r.sp) as int] == spec_pushed_status(r)
            &&& spec_to_byte(pull.0) == spec_pushed_status(r)
            &&& pull.0.sp == r.sp
        }),
{
    let f1 = spec_fetched(r);
    let op1 = Operation {
        mnemonic: Mnemonic::Php,
        mode: AddressMode::Implied,
        cycles: 3,
        page_penalty: false,
    };
    assert(spec_decode(m[r.pc as int]) == Some(op1)) by {
        reveal(spec_decode);
    }
    assert(spec_resolve(AddressMode::Implied, false, f1, m) == (
        AddressingResult::Implied,
        0u64,
        f1.pc,
    )) by {
        reveal(spec_resolve);
    }
    let resolved1 = Registers { pc: f1.pc, ..f1 };
    let pushed = spec_pushed_status(resolved1);
    assert(pushed == spec_pushed_status(r));
    let m1 = m.update(spec_stack_address(r.sp) as int, pushed);
    let r1 = Registers { sp: wrap8(r.sp - 1), ..resolved1 };
    assert(spec_exec(Mnemonic::Php, AddressingResult::Implied, resolved1, m) == (
        r1,
        m1,
        0int,
    )) by {
        reveal(spec_exec);
    }
    assert(spec_step(r, m) == Some((r1, m1, 3int))) by {
        reveal(spec_step);
    }
    assert(m1[r1.pc as int] == PLP_IMPLIED);
    let op2 = Operation {
        mnemonic: Mnemonic::Plp,
        mode: AddressMode::Implied,
        cycles: 4,
        page_penalty: false,
    };
    assert(spec_decode(m1[r1.pc as int]) == Some(op2)) by {
        reveal(spec_decode);
    }
    let f2 = spec_fetched(r1);
    assert(spec_resolve(AddressMode::Implied, false, f2, m1) == (
        AddressingResult::Implied,
        0u64,
        f2.pc,
    )) by {
        reveal(spec_resolve);
    }
    let resolved2 = Registers { pc: f2.pc, ..f2 };
    lemma_wrap8_add(r.sp - 1, 1);
    lemma_wrap8_small(r.sp);
    assert(wrap8(r1.sp + 1) == r.sp);
    assert(m1[spec_stack_address(wrap8(r1.sp + 1)) as int] == pushed);
    let r2 = Registers {
        sp: wrap8(r1.sp + 1),
        ..spec_from_byte(resolved2, pushed)
    };
    assert(spec_exec(Mnemonic::Plp, AddressingResult::Implied, resolved2, m1) == (
        r2,
        m1,
        0int,
    )) by {
        reveal(spec_exec);
    }
    assert(spec_step(r1, m1) == Some((r2, m1, 4int))) by {
        reveal(spec_step);
    }
    lemma_from_byte_to_byte(resolved2, pushed);
    assert(spec_to_byte(r2) == pushed);
}

} // verus!
