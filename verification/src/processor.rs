//! The execution loop and cycle accountant: fetch, decode, resolve, execute,
//! count — one instruction at a time, or until a cycle budget is met. The
//! whole transition of one instruction is pinned by `spec_step`.

use vstd::prelude::*;

use crate::address::AddressingResult;
use crate::cpu::spec_resolve;
use crate::cpu::spec_stack_address;
use crate::cpu::wrap16;
use crate::cpu::wrap8;
use crate::cpu::CPU;
use crate::operation::decode;
use crate::operation::lemma_decode_cycle_bounds;
use crate::operation::spec_decode;
use crate::operation::Mnemonic;
use crate::ops::is_read_source;
use crate::ops::spec_adc;
use crate::ops::spec_bit_test;
use crate::ops::spec_branch_step;
use crate::ops::spec_brk;
use crate::ops::spec_compare;
use crate::ops::spec_jsr;
use crate::ops::spec_load_a;
use crate::ops::spec_load_x;
use crate::ops::spec_load_y;
use crate::ops::spec_operand_byte;
use crate::ops::spec_pushed_status;
use crate::ops::spec_sbc;
use crate::ops::spec_shift;
use crate::registers::spec_from_byte;
use crate::registers::spec_set_zn;
use crate::registers::Registers;

verus! {

/// The trap raised when the dispatch table has no entry for an opcode byte:
/// the offending opcode and the address it was fetched from. Execution never
/// guesses at undocumented opcodes; it stops on them, so that the cycle
/// count never silently drifts from a reference trace.
#[derive(Clone, Copy, PartialEq, Eq, Structural, Debug)]
pub struct IllegalOpcode {
    pub opcode: u8,
    pub pc: u16,
}

/// What one operation does to the registers and memory, and the extra cycles
/// it charges beyond the table (only branches charge any): the registers and
/// memory after, and that extra count. `r.pc` already points past the whole
/// instruction.
/// Opaque: callers see execution through `dispatch`'s contract; proofs about
/// a single operation reveal it.
#[verifier::opaque]
pub open spec fn spec_exec(op: Mnemonic, src: AddressingResult, r: Registers, m: Seq<u8>) -> (
    Registers,
    Seq<u8>,
    int,
) {
    match op {
        Mnemonic::Adc => (
            if is_read_source(src) {
                spec_adc(r, spec_operand_byte(src, m))
            } else {
                r
            },
            m,
            0,
        ),
        Mnemonic::Sbc => (
            if is_read_source(src) {
                spec_sbc(r, spec_operand_byte(src, m))
            } else {
                r
            },
            m,
            0,
        ),
        Mnemonic::And => (
            if is_read_source(src) {
                spec_load_a(r, r.a & spec_operand_byte(src, m))
            } else {
                r
            },
            m,
            0,
        ),
        Mnemonic::Ora => (
            if is_read_source(src) {
                spec_load_a(r, r.a | spec_operand_byte(src, m))
            } else {
                r
            },
            m,
            0,
        ),
        Mnemonic::Eor => (
            if is_read_source(src) {
                spec_load_a(r, r.a ^ spec_operand_byte(src, m))
            } else {
                r
            },
            m,
            0,
        ),
        Mnemonic::Lda => (
            if is_read_source(src) {
                spec_load_a(r, spec_operand_byte(src, m))
            } else {
                r
            },
            m,
            0,
        ),
        Mnemonic::Ldx => (
            if is_read_source(src) {
                spec_load_x(r, spec_operand_byte(src, m))
            } else {
                r
            },
            m,
            0,
        ),
        Mnemonic::Ldy => (
            if is_read_source(src) {
                spec_load_y(r, spec_operand_byte(src, m))
            } else {
                r
            },
            m,
            0,
        ),
        Mnemonic::Cmp => (
            if is_read_source(src) {
                spec_compare(r, r.a, spec_operand_byte(src, m))
            } else {
                r
            },
            m,
            0,
        ),
        Mnemonic::Cpx => (
            if is_read_source(src) {
                spec_compare(r, r.x, spec_operand_byte(src, m))
            } else {
                r
            },
            m,
            0,
        ),
        Mnemonic::Cpy => (
            if is_read_source(src) {
                spec_compare(r, r.y, spec_operand_byte(src, m))
            } else {
                r
            },
            m,
            0,
        ),
        Mnemonic::Bit => (
            match src {
                AddressingResult::Address(address) => spec_bit_test(r, m[address as int]),
                _ => r,
            },
            m,
            0,
        ),
        Mnemonic::Asl => {
            let (r2, m2) = spec_shift(src, r, m, true, false);
            (r2, m2, 0)
        },
        Mnemonic::Rol => {
            let (r2, m2) = spec_shift(src, r, m, true, r.c);
            (r2, m2, 0)
        },
        Mnemonic::Lsr => {
            let (r2, m2) = spec_shift(src, r, m, false, false);
            (r2, m2, 0)
        },
        Mnemonic::Ror => {
            let (r2, m2) = spec_shift(src, r, m, false, r.c);
            (r2, m2, 0)
        },
        Mnemonic::Inc => (
            match src {
                AddressingResult::Address(address) => spec_set_zn(r, wrap8(m[address as int] + 1)),
                _ => r,
            },
            match src {
                AddressingResult::Address(address) => m.update(
                    address as int,
                    wrap8(m[address as int] + 1),
                ),
                _ => m,
            },
            0,
        ),
        Mnemonic::Dec => (
            match src {
                AddressingResult::Address(address) => spec_set_zn(r, wrap8(m[address as int] - 1)),
                _ => r,
            },
            match src {
                AddressingResult::Address(address) => m.update(
                    address as int,
                    wrap8(m[address as int] - 1),
                ),
                _ => m,
            },
            0,
        ),
        Mnemonic::Inx => (spec_load_x(r, wrap8(r.x + 1)), m, 0),
        Mnemonic::Iny => (spec_load_y(r, wrap8(r.y + 1)), m, 0),
        Mnemonic::Dex => (spec_load_x(r, wrap8(r.x - 1)), m, 0),
        Mnemonic::Dey => (spec_load_y(r, wrap8(r.y - 1)), m, 0),
        Mnemonic::Sta => (
            r,
            match src {
                AddressingResult::Address(address) => m.update(address as int, r.a),
                _ => m,
            },
            0,
        ),
        Mnemonic::Stx => (
            r,
            match src {
                AddressingResult::Address(address) => m.update(address as int, r.x),
                _ => m,
            },
            0,
        ),
        Mnemonic::Sty => (
            r,
            match src {
                AddressingResult::Address(address) => m.update(address as int, r.y),
                _ => m,
            },
            0,
        ),
        Mnemonic::Tax => (spec_load_x(r, r.a), m, 0),
        Mnemonic::Tay => (spec_load_y(r, r.a), m, 0),
        Mnemonic::Tsx => (spec_load_x(r, r.sp), m, 0),
        Mnemonic::Txa => (spec_load_a(r, r.x), m, 0),
        Mnemonic::Tya => (spec_load_a(r, r.y), m, 0),
        Mnemonic::Txs => (Registers { sp: r.x, ..r }, m, 0),
        Mnemonic::Sec => (Registers { c: true, ..r }, m, 0),
        Mnemonic::Clc => (Registers { c: false, ..r }, m, 0),
        Mnemonic::Sed => (Registers { d: true, ..r }, m, 0),
        Mnemonic::Cld => (Registers { d: false, ..r }, m, 0),
        Mnemonic::Sei => (Registers { i: true, ..r }, m, 0),
        Mnemonic::Cli => (Registers { i: false, ..r }, m, 0),
        Mnemonic::Clv => (Registers { v: false, ..r }, m, 0),
        Mnemonic::Nop => (r, m, 0),
        Mnemonic::Pha => (
            Registers { sp: wrap8(r.sp - 1), ..r },
            m.update(spec_stack_address(r.sp) as int, r.a),
            0,
        ),
        Mnemonic::Php => (
            Registers { sp: wrap8(r.sp - 1), ..r },
            m.update(spec_stack_address(r.sp) as int, spec_pushed_status(r)),
            0,
        ),
        Mnemonic::Pla => (
            Registers {
                sp: wrap8(r.sp + 1),
                ..spec_load_a(r, m[spec_stack_address(wrap8(r.sp + 1)) as int])
            },
            m,
            0,
        ),
        Mnemonic::Plp => (
            Registers {
                sp: wrap8(r.sp + 1),
                ..spec_from_byte(r, m[spec_stack_address(wrap8(r.sp + 1)) as int])
            },
            m,
            0,
        ),
        Mnemonic::Jmp => (
            match src {
                AddressingResult::Address(address) => Registers { pc: address, ..r },
                _ => r,
            },
            m,
            0,
        ),
        Mnemonic::Jsr => {
            let (r2, m2) = spec_jsr(src, r, m);
            (r2, m2, 0)
        },
        Mnemonic::Rts => {
            let low = m[spec_stack_address(wrap8(r.sp + 1)) as int];
            let high = m[spec_stack_address(wrap8(r.sp + 2)) as int];
            (
                Registers { pc: wrap16(low + 256 * high + 1), sp: wrap8(r.sp + 2), ..r },
                m,
                0,
            )
        },
        Mnemonic::Rti => {
            let status = m[spec_stack_address(wrap8(r.sp + 1)) as int];
            let low = m[spec_stack_address(wrap8(r.sp + 2)) as int];
            let high = m[spec_stack_address(wrap8(r.sp + 3)) as int];
            (
                Registers {
                    pc: (low + 256 * high) as u16,
                    sp: wrap8(r.sp + 3),
                    ..spec_from_byte(r, status)
                },
                m,
                0,
            )
        },
        Mnemonic::Brk => {
            let (r2, m2) = spec_brk(r, m);
            (r2, m2, 0)
        },
        Mnemonic::Bcc => {
            let (r2, extra) = spec_branch_step(src, r, !r.c);
            (r2, m, extra)
        },
        Mnemonic::Bcs => {
            let (r2, extra) = spec_branch_step(src, r, r.c);
            (r2, m, extra)
        },
        Mnemonic::Beq => {
            let (r2, extra) = spec_branch_step(src, r, r.z);
            (r2, m, extra)
        },
        Mnemonic::Bne => {
            let (r2, extra) = spec_branch_step(src, r, !r.z);
            (r2, m, extra)
        },
        Mnemonic::Bmi => {
            let (r2, extra) = spec_branch_step(src, r, r.n);
            (r2, m, extra)
        },
        Mnemonic::Bpl => {
            let (r2, extra) = spec_branch_step(src, r, !r.n);
            (r2, m, extra)
        },
        Mnemonic::Bvs => {
            let (r2, extra) = spec_branch_step(src, r, r.v);
            (r2, m, extra)
        },
        Mnemonic::Bvc => {
            let (r2, extra) = spec_branch_step(src, r, !r.v);
            (r2, m, extra)
        },
    }
}


/// Resolution earns at most one extra cycle.
pub proof fn lemma_resolve_extra_bound(
    mode: crate::operation::AddressMode,
    page_penalty: bool,
    r: Registers,
    m: Seq<u8>,
)
    ensures
        0 <= spec_resolve(mode, page_penalty, r, m).1 <= 1,
{
    reveal(spec_resolve);
}

/// Execution charges at most a taken branch's two extra cycles.
pub proof fn lemma_exec_extra_bound(op: Mnemonic, src: AddressingResult, r: Registers, m: Seq<u8>)
    ensures
        0 <= spec_exec(op, src, r, m).2 <= 2,
{
    reveal(spec_exec);
}

/// The whole transition of one instruction, from a state whose program
/// counter points at the opcode byte: the registers and memory after it, and
/// the cycles it consumes — the table's base count, plus a page-crossing
/// penalty where the mode earned one, plus what a taken branch charges. An
/// opcode without a table entry yields no transition: execution traps.
/// Opaque: the run loops see one transition through `spec_stepped`; proofs
/// about a concrete instruction reveal it.
#[verifier::opaque]
pub open spec fn spec_step(r: Registers, m: Seq<u8>) -> Option<(Registers, Seq<u8>, int)> {
    let opcode = m[r.pc as int];
    match spec_decode(opcode) {
        None => None,
        Some(op) => {
            let fetched = Registers { pc: wrap16(r.pc + 1), ..r };
            let (src, extra, pc_after) = spec_resolve(op.mode, op.page_penalty, fetched, m);
            let resolved = Registers { pc: pc_after, ..fetched };
            let (r2, m2, branch_extra) = spec_exec(op.mnemonic, src, resolved, m);
            Some((r2, m2, op.cycles + extra + branch_extra))
        },
    }
}

/// Repeated stepping until the cycle count reaches the budget or an illegal
/// opcode traps: the final registers, memory and cycle count. No instruction
/// is ever cut short: the budget may be overshot by the instruction in
/// flight.
pub open spec fn spec_run(r: Registers, m: Seq<u8>, cycles: int, budget: int) -> (
    Registers,
    Seq<u8>,
    int,
)
    decreases
            (if budget - cycles > 0 {
                budget - cycles
            } else {
                0int
            }),
        via spec_run_decreases
{
    if cycles >= budget {
        (r, m, cycles)
    } else {
        match spec_step(r, m) {
            None => (r, m, cycles),
            Some((r2, m2, consumed)) => spec_run(r2, m2, cycles + consumed, budget),
        }
    }
}

#[via_fn]
proof fn spec_run_decreases(r: Registers, m: Seq<u8>, cycles: int, budget: int) {
    lemma_decode_cycle_bounds();
    if cycles < budget {
        match spec_step(r, m) {
            None => {},
            Some((r2, m2, consumed)) => {
                assert(consumed >= 2) by {
                    lemma_step_consumes(r, m);
                };
            },
        }
    }
}

/// One transition consumes at least the smallest base cycle count and at
/// most the largest base count plus a crossing penalty and a taken branch's
/// two cycles.
pub proof fn lemma_step_consumes(r: Registers, m: Seq<u8>)
    ensures
        spec_step(r, m) matches Some(step) ==> 2 <= step.2 <= 10,
{
    reveal(spec_step);
    lemma_decode_cycle_bounds();
    let opcode = m[r.pc as int];
    if spec_decode(opcode) is Some {
        let op = spec_decode(opcode)->Some_0;
        let fetched = Registers { pc: wrap16(r.pc + 1), ..r };
        let (src, extra, pc_after) = spec_resolve(op.mode, op.page_penalty, fetched, m);
        let resolved = Registers { pc: pc_after, ..fetched };
        let (r2, m2, branch_extra) = spec_exec(op.mnemonic, src, resolved, m);
        lemma_resolve_extra_bound(op.mode, op.page_penalty, fetched, m);
        lemma_exec_extra_bound(op.mnemonic, src, resolved, m);
    }
}

/// How one call of `step` relates the machine before to the machine after:
/// where the table has a transition, it happens and its cycle count is both
/// charged and returned; where it has none, nothing changes and the trap
/// carries the offending opcode and the address it was fetched from.
pub open spec fn spec_stepped(before: CPU, after: CPU, r: Result<u64, IllegalOpcode>) -> bool {
    match spec_step(before.registers, before.memory@) {
        Some(step) => {
            &&& r == Result::<u64, IllegalOpcode>::Ok(step.2 as u64)
            &&& after.registers == step.0
            &&& after.memory@ == step.1
            &&& after.cycles == before.cycles + step.2
        },
        None => {
            &&& r == Result::<u64, IllegalOpcode>::Err(
                IllegalOpcode {
                    opcode: before.memory@[before.registers.pc as int],
                    pc: before.registers.pc,
                },
            )
            &&& after.registers == before.registers
            &&& after.memory@ == before.memory@
            &&& after.cycles == before.cycles
        },
    }
}

impl CPU {
    /// Executes the operation `op` on the resolved operand: the one dispatch
    /// point from the table's operation id to its executor.
    #[verifier::rlimit(100)]
    #[verifier::spinoff_prover]
    pub fn dispatch(&mut self, op: Mnemonic, src: AddressingResult)
        requires
            old(self).cycles + 2 <= u64::MAX,
        ensures
            ({
                let (r, m, extra) = spec_exec(op, src, old(self).registers, old(self).memory@);
                final(self).registers == r && final(self).memory@ == m && final(self).cycles == old(
                    self,
                ).cycles + extra
            }),
    {
        proof {
            reveal(spec_exec);
        }
        match op {
            Mnemonic::Adc => self.adc(src),
            Mnemonic::Sbc => self.sbc(src),
            Mnemonic::And => self.and(src),
            Mnemonic::Ora => self.ora(src),
            Mnemonic::Eor => self.eor(src),
            Mnemonic::Lda => self.lda(src),
            Mnemonic::Ldx => self.ldx(src),
            Mnemonic::Ldy => self.ldy(src),
            Mnemonic::Cmp => self.cmp(src),
            Mnemonic::Cpx => self.cpx(src),
            Mnemonic::Cpy => self.cpy(src),
            Mnemonic::Bit => self.bit(src),
            Mnemonic::Asl => self.asl(src),
            Mnemonic::Rol => self.rol(src),
            Mnemonic::Lsr => self.lsr(src),
            Mnemonic::Ror => self.ror(src),
            Mnemonic::Inc => self.inc(src),
            Mnemonic::Dec => self.dec(src),
            Mnemonic::Inx => self.inx(src),
            Mnemonic::Iny => self.iny(src),
            Mnemonic::Dex => self.dex(src),
            Mnemonic::Dey => self.dey(src),
            Mnemonic::Sta => self.sta(src),
            Mnemonic::Stx => self.stx(src),
            Mnemonic::Sty => self.sty(src),
            Mnemonic::Tax => self.tax(src),
            Mnemonic::Tay => self.tay(src),
            Mnemonic::Tsx => self.tsx(src),
            Mnemonic::Txa => self.txa(src),
            Mnemonic::Tya => self.tya(src),
            Mnemonic::Txs => self.txs(src),
            Mnemonic::Sec => self.sec(src),
            Mnemonic::Clc => self.clc(src),
            Mnemonic::Sed => self.sed(src),
            Mnemonic::Cld => self.cld(src),
            Mnemonic::Sei => self.sei(src),
            Mnemonic::Cli => self.cli(src),
            Mnemonic::Clv => self.clv(src),
            Mnemonic::Nop => self.nop(src),
            Mnemonic::Pha => self.pha(src),
            Mnemonic::Php => self.php(src),
            Mnemonic::Pla => self.pla(src),
            Mnemonic::Plp => self.plp(src),
            Mnemonic::Jmp => self.jmp(src),
            Mnemonic::Jsr => self.jsr(src),
            Mnemonic::Rts => self.rts(src),
            Mnemonic::Rti => self.rti(src),
            Mnemonic::Brk => self.brk(src),
            Mnemonic::Bcc => self.bcc(src),
            Mnemonic::Bcs => self.bcs(src),
            Mnemonic::Beq => self.beq(src),
            Mnemonic::Bne => self.bne(src),
            Mnemonic::Bmi => self.bmi(src),
            Mnemonic::Bpl => self.bpl(src),
            Mnemonic::Bvs => self.bvs(src),
            Mnemonic::Bvc => self.bvc(src),
        }
    }

    /// Executes exactly one instruction and returns the cycles it consumed,
    /// or traps on an opcode the table has no entry for, leaving the whole
    /// state untouched.
    #[verifier::rlimit(100)]
    #[verifier::spinoff_prover]
    pub fn step(&mut self) -> (r: Result<u64, IllegalOpcode>)
        requires
            old(self).cycles + 16 <= u64::MAX,
        ensures
            spec_stepped(*old(self), *final(self), r),
    {
        proof {
            reveal(spec_step);
            lemma_decode_cycle_bounds();
            lemma_step_consumes(self.registers, self.memory@);
        }
        let opcode = self.memory.read_byte(self.registers.pc);
        match decode(opcode) {
            None => Err(IllegalOpcode { opcode, pc: self.registers.pc }),
            Some(op) => {
                let before = self.cycles;
                self.registers.pc = self.registers.pc.wrapping_add(1);
                proof {
                    lemma_resolve_extra_bound(
                        op.mode,
                        op.page_penalty,
                        self.registers,
                        self.memory@,
                    );
                }
                let (src, extra) = self.resolve(op.mode, op.page_penalty);
                proof {
                    lemma_exec_extra_bound(op.mnemonic, src, self.registers, self.memory@);
                }
                self.dispatch(op.mnemonic, src);
                self.cycles = self.cycles + op.cycles + extra;
                Ok(self.cycles - before)
            },
        }
    }

    /// Runs whole instructions until the running cycle count reaches the
    /// budget, then returns it. The instruction in flight always completes:
    /// the budget is met or overshot, never partially spent. An illegal
    /// opcode stops the run early with the state it trapped in.
    #[verifier::rlimit(100)]
    #[verifier::spinoff_prover]
    pub fn execute_cycles(&mut self, budget: u64) -> (r: u64)
        requires
            budget <= u64::MAX - 32,
            old(self).cycles <= u64::MAX - 32,
        ensures
            ({
                let (r2, m2, c2) = spec_run(
                    old(self).registers,
                    old(self).memory@,
                    old(self).cycles as int,
                    budget as int,
                );
                final(self).registers == r2 && final(self).memory@ == m2 && final(self).cycles == c2
                    && r == final(self).cycles
            }),
    {
        loop
            invariant
                budget <= u64::MAX - 32,
                spec_run(
                    old(self).registers,
                    old(self).memory@,
                    old(self).cycles as int,
                    budget as int,
                ) == spec_run(self.registers, self.memory@, self.cycles as int, budget as int),
            decreases u64::MAX - self.cycles,
        {
            if self.cycles >= budget {
                return self.cycles;
            }
            proof {
                lemma_step_consumes(self.registers, self.memory@);
            }
            match self.step() {
                Ok(_) => {},
                Err(_) => {
                    return self.cycles;
                },
            }
        }
    }

    /// Runs until the cycle budget is met or exceeded and returns the total
    /// cycle count; the budgeted entry point under its classic name.
    pub fn execute(&mut self, budget: u64) -> (r: u64)
        requires
            budget <= u64::MAX - 32,
            old(self).cycles <= u64::MAX - 32,
        ensures
            ({
                let (r2, m2, c2) = spec_run(
                    old(self).registers,
                    old(self).memory@,
                    old(self).cycles as int,
                    budget as int,
                );
                final(self).registers == r2 && final(self).memory@ == m2 && final(self).cycles == c2
                    && r == final(self).cycles
            }),
    {
        self.execute_cycles(budget)
    }

    /// Runs unconditionally until an illegal opcode traps, handing the trap
    /// back, or until the cycle counter has no headroom left, handing back
    /// nothing.
    #[verifier::rlimit(100)]
    #[verifier::spinoff_prover]
    pub fn run(&mut self) -> (r: Option<IllegalOpcode>)
        ensures
            ({
                let (r2, m2, c2) = spec_run(
                    old(self).registers,
                    old(self).memory@,
                    old(self).cycles as int,
                    u64::MAX - 16,
                );
                final(self).registers == r2 && final(self).memory@ == m2 && final(self).cycles == c2
                    && (match r {
                    Some(trap) => spec_step(r2, m2) is None && trap == (IllegalOpcode {
                        opcode: m2[r2.pc as int],
                        pc: r2.pc,
                    }),
                    None => c2 >= u64::MAX - 16,
                })
            }),
    {
        loop
            invariant
                spec_run(
                    old(self).registers,
                    old(self).memory@,
                    old(self).cycles as int,
                    u64::MAX - 16,
                ) == spec_run(
                    self.registers,
                    self.memory@,
                    self.cycles as int,
                    u64::MAX - 16,
                ),
            decreases u64::MAX - self.cycles,
        {
            if self.cycles >= u64::MAX - 16 {
                return None;
            }
            proof {
                lemma_step_consumes(self.registers, self.memory@);
            }
            match self.step() {
                Ok(_) => {},
                Err(trap) => {
                    return Some(trap);
                },
            }
        }
    }
}

} // verus!
