//! The instruction descriptor and the fixed dispatch table: every opcode
//! byte maps to an operation, an addressing mode, a base cycle count and a
//! page-crossing penalty flag, or to no entry at all.

use vstd::prelude::*;

verus! {

/// The rule for locating an instruction's operand. Operations on the
/// accumulator (the accumulator forms of the shifts) use `Implied`.
#[derive(Clone, Copy, PartialEq, Eq, Structural, Debug)]
pub enum AddressMode {
    Implied,
    Immediate,
    Relative,
    ZeroPage,
    ZeroPageX,
    ZeroPageY,
    Absolute,
    AbsoluteX,
    AbsoluteY,
    Indirect,
    IndirectX,
    IndirectY,
}

/// The operation an opcode performs, named by its mnemonic.
#[derive(Clone, Copy, PartialEq, Eq, Structural, Debug)]
pub enum Mnemonic {
    Adc,
    And,
    Asl,
    Bcc,
    Bcs,
    Beq,
    Bit,
    Bmi,
    Bne,
    Bpl,
    Brk,
    Bvc,
    Bvs,
    Clc,
    Cld,
    Cli,
    Clv,
    Cmp,
    Cpx,
    Cpy,
    Dec,
    Dex,
    Dey,
    Eor,
    Inc,
    Inx,
    Iny,
    Jmp,
    Jsr,
    Lda,
    Ldx,
    Ldy,
    Lsr,
    Nop,
    Ora,
    Pha,
    Php,
    Pla,
    Plp,
    Rol,
    Ror,
    Rti,
    Rts,
    Sbc,
    Sec,
    Sed,
    Sei,
    Sta,
    Stx,
    Sty,
    Tax,
    Tay,
    Tsx,
    Txa,
    Txs,
    Tya,
}

/// One entry of the dispatch table: which operation an opcode performs,
/// how its operand is located, its base cycle count, and whether a
/// page-crossing read costs one extra cycle.
#[derive(Clone, Copy, PartialEq, Eq, Structural, Debug)]
pub struct Operation {
    pub mnemonic: Mnemonic,
    pub mode: AddressMode,
    pub cycles: u64,
    pub page_penalty: bool,
}

/// The dispatch table as a function of the opcode byte. A byte with no
/// entry is an illegal opcode: execution traps on it rather than guessing.
/// Opaque: proofs about stepping see the table only through `decode` and the
/// lemmas below, and reveal it where an opcode is concrete.
#[verifier::opaque]
pub open spec fn spec_decode(opcode: u8) -> Option<Operation> {
    match opcode {
        0x00 => Some(
            Operation {
                mnemonic: Mnemonic::Brk,
                mode: AddressMode::Implied,
                cycles: 7,
                page_penalty: false,
            },
        ),
        0x01 => Some(
            Operation {
                mnemonic: Mnemonic::Ora,
                mode: AddressMode::IndirectX,
                cycles: 6,
                page_penalty: false,
            },
        ),
        0x05 => Some(
            Operation {
                mnemonic: Mnemonic::Ora,
                mode: AddressMode::ZeroPage,
                cycles: 3,
                page_penalty: false,
            },
        ),
        0x06 => Some(
            Operation {
                mnemonic: Mnemonic::Asl,
                mode: AddressMode::ZeroPage,
                cycles: 5,
                page_penalty: false,
            },
        ),
        0x08 => Some(
            Operation {
                mnemonic: Mnemonic::Php,
                mode: AddressMode::Implied,
                cycles: 3,
                page_penalty: false,
            },
        ),
        0x09 => Some(
            Operation {
                mnemonic: Mnemonic::Ora,
                mode: AddressMode::Immediate,
                cycles: 2,
                page_penalty: false,
            },
        ),
        0x0A => Some(
            Operation {
                mnemonic: Mnemonic::Asl,
                mode: AddressMode::Implied,
                cycles: 2,
                page_penalty: false,
            },
        ),
        0x0D => Some(
            Operation {
                mnemonic: Mnemonic::Ora,
                mode: AddressMode::Absolute,
                cycles: 4,
                page_penalty: false,
            },
        ),
        0x0E => Some(
            Operation {
                mnemonic: Mnemonic::Asl,
                mode: AddressMode::Absolute,
                cycles: 6,
                page_penalty: false,
            },
        ),
        0x10 => Some(
            Operation {
                mnemonic: Mnemonic::Bpl,
                mode: AddressMode::Relative,
                cycles: 2,
                page_penalty: false,
            },
        ),
        0x11 => Some(
            Operation {
                mnemonic: Mnemonic::Ora,
                mode: AddressMode::IndirectY,
                cycles: 5,
                page_penalty: true,
            },
        ),
        0x15 => Some(
            Operation {
                mnemonic: Mnemonic::Ora,
                mode: AddressMode::ZeroPageX,
                cycles: 4,
                page_penalty: false,
            },
        ),
        0x16 => Some(
            Operation {
                mnemonic: Mnemonic::Asl,
                mode: AddressMode::ZeroPageX,
                cycles: 6,
                page_penalty: false,
            },
        ),
        0x18 => Some(
            Operation {
                mnemonic: Mnemonic::Clc,
                mode: AddressMode::Implied,
                cycles: 2,
                page_penalty: false,
            },
        ),
        0x19 => Some(
            Operation {
                mnemonic: Mnemonic::Ora,
                mode: AddressMode::AbsoluteY,
                cycles: 4,
                page_penalty: true,
            },
        ),
        0x1D => Some(
            Operation {
                mnemonic: Mnemonic::Ora,
                mode: AddressMode::AbsoluteX,
                cycles: 4,
                page_penalty: true,
            },
        ),
        0x1E => Some(
            Operation {
                mnemonic: Mnemonic::Asl,
                mode: AddressMode::AbsoluteX,
                cycles: 7,
                page_penalty: false,
            },
        ),
        0x20 => Some(
            Operation {
                mnemonic: Mnemonic::Jsr,
                mode: AddressMode::Absolute,
                cycles: 6,
                page_penalty: false,
            },
        ),
        0x21 => Some(
            Operation {
                mnemonic: Mnemonic::And,
                mode: AddressMode::IndirectX,
                cycles: 6,
                page_penalty: false,
            },
        ),
        0x24 => Some(
            Operation {
                mnemonic: Mnemonic::Bit,
                mode: AddressMode::ZeroPage,
                cycles: 3,
                page_penalty: false,
            },
        ),
        0x25 => Some(
            Operation {
                mnemonic: Mnemonic::And,
                mode: AddressMode::ZeroPage,
                cycles: 3,
                page_penalty: false,
            },
        ),
        0x26 => Some(
            Operation {
                mnemonic: Mnemonic::Rol,
                mode: AddressMode::ZeroPage,
                cycles: 5,
                page_penalty: false,
            },
        ),
        0x28 => Some(
            Operation {
                mnemonic: Mnemonic::Plp,
                mode: AddressMode::Implied,
                cycles: 4,
                page_penalty: false,
            },
        ),
        0x29 => Some(
            Operation {
                mnemonic: Mnemonic::And,
                mode: AddressMode::Immediate,
                cycles: 2,
                page_penalty: false,
            },
        ),
        0x2A => Some(
            Operation {
                mnemonic: Mnemonic::Rol,
                mode: AddressMode::Implied,
                cycles: 2,
                page_penalty: false,
            },
        ),
        0x2C => Some(
            Operation {
                mnemonic: Mnemonic::Bit,
                mode: AddressMode::Absolute,
                cycles: 4,
                page_penalty: false,
            },
        ),
        0x2D => Some(
            Operation {
                mnemonic: Mnemonic::And,
                mode: AddressMode::Absolute,
                cycles: 4,
                page_penalty: false,
            },
        ),
        0x2E => Some(
            Operation {
                mnemonic: Mnemonic::Rol,
                mode: AddressMode::Absolute,
                cycles: 6,
                page_penalty: false,
            },
        ),
        0x30 => Some(
            Operation {
                mnemonic: Mnemonic::Bmi,
                mode: AddressMode::Relative,
                cycles: 2,
                page_penalty: false,
            },
        ),
        0x31 => Some(
            Operation {
                mnemonic: Mnemonic::And,
                mode: AddressMode::IndirectY,
                cycles: 5,
                page_penalty: true,
            },
        ),
        0x35 => Some(
            Operation {
                mnemonic: Mnemonic::And,
                mode: AddressMode::ZeroPageX,
                cycles: 4,
                page_penalty: false,
            },
        ),
        0x36 => Some(
            Operation {
                mnemonic: Mnemonic::Rol,
                mode: AddressMode::ZeroPageX,
                cycles: 6,
                page_penalty: false,
            },
        ),
        0x38 => Some(
            Operation {
                mnemonic: Mnemonic::Sec,
                mode: AddressMode::Implied,
                cycles: 2,
                page_penalty: false,
            },
        ),
        0x39 => Some(
            Operation {
                mnemonic: Mnemonic::And,
                mode: AddressMode::AbsoluteY,
                cycles: 4,
                page_penalty: true,
            },
        ),
        0x3D => Some(
            Operation {
                mnemonic: Mnemonic::And,
                mode: AddressMode::AbsoluteX,
                cycles: 4,
                page_penalty: true,
            },
        ),
        0x3E => Some(
            Operation {
                mnemonic: Mnemonic::Rol,
                mode: AddressMode::AbsoluteX,
                cycles: 7,
                page_penalty: false,
            },
        ),
        0x40 => Some(
            Operation {
                mnemonic: Mnemonic::Rti,
                mode: AddressMode::Implied,
                cycles: 6,
                page_penalty: false,
            },
        ),
        0x41 => Some(
            Operation {
                mnemonic: Mnemonic::Eor,
                mode: AddressMode::IndirectX,
                cycles: 6,
                page_penalty: false,
            },
        ),
        0x45 => Some(
            Operation {
                mnemonic: Mnemonic::Eor,
                mode: AddressMode::ZeroPage,
                cycles: 3,
                page_penalty: false,
            },
        ),
        0x46 => Some(
            Operation {
                mnemonic: Mnemonic::Lsr,
                mode: AddressMode::ZeroPage,
                cycles: 5,
                page_penalty: false,
            },
        ),
        0x48 => Some(
            Operation {
                mnemonic: Mnemonic::Pha,
                mode: AddressMode::Implied,
                cycles: 3,
                page_penalty: false,
            },
        ),
        0x49 => Some(
            Operation {
                mnemonic: Mnemonic::Eor,
                mode: AddressMode::Immediate,
                cycles: 2,
                page_penalty: false,
            },
        ),
        0x4A => Some(
            Operation {
                mnemonic: Mnemonic::Lsr,
                mode: AddressMode::Implied,
                cycles: 2,
                page_penalty: false,
            },
        ),
        0x4C => Some(
            Operation {
                mnemonic: Mnemonic::Jmp,
                mode: AddressMode::Absolute,
                cycles: 3,
                page_penalty: false,
            },
        ),
        0x4D => Some(
            Operation {
                mnemonic: Mnemonic::Eor,
                mode: AddressMode::Absolute,
                cycles: 4,
                page_penalty: false,
            },
        ),
        0x4E => Some(
            Operation {
                mnemonic: Mnemonic::Lsr,
                mode: AddressMode::Absolute,
                cycles: 6,
                page_penalty: false,
            },
        ),
        0x50 => Some(
            Operation {
                mnemonic: Mnemonic::Bvc,
                mode: AddressMode::Relative,
                cycles: 2,
                page_penalty: false,
            },
        ),
        0x51 => Some(
            Operation {
                mnemonic: Mnemonic::Eor,
                mode: AddressMode::IndirectY,
                cycles: 5,
                page_penalty: true,
            },
        ),
        0x55 => Some(
            Operation {
                mnemonic: Mnemonic::Eor,
                mode: AddressMode::ZeroPageX,
                cycles: 4,
                page_penalty: false,
            },
        ),
        0x56 => Some(
            Operation {
                mnemonic: Mnemonic::Lsr,
                mode: AddressMode::ZeroPageX,
                cycles: 6,
                page_penalty: false,
            },
        ),
        0x58 => Some(
            Operation {
                mnemonic: Mnemonic::Cli,
                mode: AddressMode::Implied,
                cycles: 2,
                page_penalty: false,
            },
        ),
        0x59 => Some(
            Operation {
                mnemonic: Mnemonic::Eor,
                mode: AddressMode::AbsoluteY,
                cycles: 4,
                page_penalty: true,
            },
        ),
        0x5D => Some(
            Operation {
                mnemonic: Mnemonic::Eor,
                mode: AddressMode::AbsoluteX,
                cycles: 4,
                page_penalty: true,
            },
        ),
        0x5E => Some(
            Operation {
                mnemonic: Mnemonic::Lsr,
                mode: AddressMode::AbsoluteX,
                cycles: 7,
                page_penalty: false,
            },
        ),
        0x60 => Some(
            Operation {
                mnemonic: Mnemonic::Rts,
                mode: AddressMode::Implied,
                cycles: 6,
                page_penalty: false,
            },
        ),
        0x61 => Some(
            Operation {
                mnemonic: Mnemonic::Adc,
                mode: AddressMode::IndirectX,
                cycles: 6,
                page_penalty: false,
            },
        ),
        0x65 => Some(
            Operation {
                mnemonic: Mnemonic::Adc,
                mode: AddressMode::ZeroPage,
                cycles: 3,
                page_penalty: false,
            },
        ),
        0x66 => Some(
            Operation {
                mnemonic: Mnemonic::Ror,
                mode: AddressMode::ZeroPage,
                cycles: 5,
                page_penalty: false,
            },
        ),
        0x68 => Some(
            Operation {
                mnemonic: Mnemonic::Pla,
                mode: AddressMode::Implied,
                cycles: 4,
                page_penalty: false,
            },
        ),
        0x69 => Some(
            Operation {
                mnemonic: Mnemonic::Adc,
                mode: AddressMode::Immediate,
                cycles: 2,
                page_penalty: false,
            },
        ),
        0x6A => Some(
            Operation {
                mnemonic: Mnemonic::Ror,
                mode: AddressMode::Implied,
                cycles: 2,
                page_penalty: false,
            },
        ),
        0x6C => Some(
            Operation {
                mnemonic: Mnemonic::Jmp,
                mode: AddressMode::Indirect,
                cycles: 5,
                page_penalty: false,
            },
        ),
        0x6D => Some(
            Operation {
                mnemonic: Mnemonic::Adc,
                mode: AddressMode::Absolute,
                cycles: 4,
                page_penalty: false,
            },
        ),
        0x6E => Some(
            Operation {
                mnemonic: Mnemonic::Ror,
                mode: AddressMode::Absolute,
                cycles: 6,
                page_penalty: false,
            },
        ),
        0x70 => Some(
            Operation {
                mnemonic: Mnemonic::Bvs,
                mode: AddressMode::Relative,
                cycles: 2,
                page_penalty: false,
            },
        ),
        0x71 => Some(
            Operation {
                mnemonic: Mnemonic::Adc,
                mode: AddressMode::IndirectY,
                cycles: 5,
                page_penalty: true,
            },
        ),
        0x75 => Some(
            Operation {
                mnemonic: Mnemonic::Adc,
                mode: AddressMode::ZeroPageX,
                cycles: 4,
                page_penalty: false,
            },
        ),
        0x76 => Some(
            Operation {
                mnemonic: Mnemonic::Ror,
                mode: AddressMode::ZeroPageX,
                cycles: 6,
                page_penalty: false,
            },
        ),
        0x78 => Some(
            Operation {
                mnemonic: Mnemonic::Sei,
                mode: AddressMode::Implied,
                cycles: 2,
                page_penalty: false,
            },
        ),
        0x79 => Some(
            Operation {
                mnemonic: Mnemonic::Adc,
                mode: AddressMode::AbsoluteY,
                cycles: 4,
                page_penalty: true,
            },
        ),
        0x7D => Some(
            Operation {
                mnemonic: Mnemonic::Adc,
                mode: AddressMode::AbsoluteX,
                cycles: 4,
                page_penalty: true,
            },
        ),
        0x7E => Some(
            Operation {
                mnemonic: Mnemonic::Ror,
                mode: AddressMode::AbsoluteX,
                cycles: 7,
                page_penalty: false,
            },
        ),
        0x81 => Some(
            Operation {
                mnemonic: Mnemonic::Sta,
                mode: AddressMode::IndirectX,
                cycles: 6,
                page_penalty: false,
            },
        ),
        0x84 => Some(
            Operation {
                mnemonic: Mnemonic::Sty,
                mode: AddressMode::ZeroPage,
                cycles: 3,
                page_penalty: false,
            },
        ),
        0x85 => Some(
            Operation {
                mnemonic: Mnemonic::Sta,
                mode: AddressMode::ZeroPage,
                cycles: 3,
                page_penalty: false,
            },
        ),
        0x86 => Some(
            Operation {
                mnemonic: Mnemonic::Stx,
                mode: AddressMode::ZeroPage,
                cycles: 3,
                page_penalty: false,
            },
        ),
        0x88 => Some(
            Operation {
                mnemonic: Mnemonic::Dey,
                mode: AddressMode::Implied,
                cycles: 2,
                page_penalty: false,
            },
        ),
        0x8A => Some(
            Operation {
                mnemonic: Mnemonic::Txa,
                mode: AddressMode::Implied,
                cycles: 2,
                page_penalty: false,
            },
        ),
        0x8C => Some(
            Operation {
                mnemonic: Mnemonic::Sty,
                mode: AddressMode::Absolute,
                cycles: 4,
                page_penalty: false,
            },
        ),
        0x8D => Some(
            Operation {
                mnemonic: Mnemonic::Sta,
                mode: AddressMode::Absolute,
                cycles: 4,
                page_penalty: false,
            },
        ),
        0x8E => Some(
            Operation {
                mnemonic: Mnemonic::Stx,
                mode: AddressMode::Absolute,
                cycles: 4,
                page_penalty: false,
            },
        ),
        0x90 => Some(
            Operation {
                mnemonic: Mnemonic::Bcc,
                mode: AddressMode::Relative,
                cycles: 2,
                page_penalty: false,
            },
        ),
        0x91 => Some(
            Operation {
                mnemonic: Mnemonic::Sta,
                mode: AddressMode::IndirectY,
                cycles: 6,
                page_penalty: false,
            },
        ),
        0x94 => Some(
            Operation {
                mnemonic: Mnemonic::Sty,
                mode: AddressMode::ZeroPageX,
                cycles: 4,
                page_penalty: false,
            },
        ),
        0x95 => Some(
            Operation {
                mnemonic: Mnemonic::Sta,
                mode: AddressMode::ZeroPageX,
                cycles: 4,
                page_penalty: false,
            },
        ),
        0x96 => Some(
            Operation {
                mnemonic: Mnemonic::Stx,
                mode: AddressMode::ZeroPageY,
                cycles: 4,
                page_penalty: false,
            },
        ),
        0x98 => Some(
            Operation {
                mnemonic: Mnemonic::Tya,
                mode: AddressMode::Implied,
                cycles: 2,
                page_penalty: false,
            },
        ),
        0x99 => Some(
            Operation {
                mnemonic: Mnemonic::Sta,
                mode: AddressMode::AbsoluteY,
                cycles: 5,
                page_penalty: false,
            },
        ),
        0x9A => Some(
            Operation {
                mnemonic: Mnemonic::Txs,
                mode: AddressMode::Implied,
                cycles: 2,
                page_penalty: false,
            },
        ),
        0x9D => Some(
            Operation {
                mnemonic: Mnemonic::Sta,
                mode: AddressMode::AbsoluteX,
                cycles: 5,
                page_penalty: false,
            },
        ),
        0xA0 => Some(
            Operation {
                mnemonic: Mnemonic::Ldy,
                mode: AddressMode::Immediate,
                cycles: 2,
                page_penalty: false,
            },
        ),
        0xA1 => Some(
            Operation {
                mnemonic: Mnemonic::Lda,
                mode: AddressMode::IndirectX,
                cycles: 6,
                page_penalty: false,
            },
        ),
        0xA2 => Some(
            Operation {
                mnemonic: Mnemonic::Ldx,
                mode: AddressMode::Immediate,
                cycles: 2,
                page_penalty: false,
            },
        ),
        0xA4 => Some(
            Operation {
                mnemonic: Mnemonic::Ldy,
                mode: AddressMode::ZeroPage,
                cycles: 3,
                page_penalty: false,
            },
        ),
        0xA5 => Some(
            Operation {
                mnemonic: Mnemonic::Lda,
                mode: AddressMode::ZeroPage,
                cycles: 3,
                page_penalty: false,
            },
        ),
        0xA6 => Some(
            Operation {
                mnemonic: Mnemonic::Ldx,
                mode: AddressMode::ZeroPage,
                cycles: 3,
                page_penalty: false,
            },
        ),
        0xA8 => Some(
            Operation {
                mnemonic: Mnemonic::Tay,
                mode: AddressMode::Implied,
                cycles: 2,
                page_penalty: false,
            },
        ),
        0xA9 => Some(
            Operation {
                mnemonic: Mnemonic::Lda,
                mode: AddressMode::Immediate,
                cycles: 2,
                page_penalty: false,
            },
        ),
        0xAA => Some(
            Operation {
                mnemonic: Mnemonic::Tax,
                mode: AddressMode::Implied,
                cycles: 2,
                page_penalty: false,
            },
        ),
        0xAC => Some(
            Operation {
                mnemonic: Mnemonic::Ldy,
                mode: AddressMode::Absolute,
                cycles: 4,
                page_penalty: false,
            },
        ),
        0xAD => Some(
            Operation {
                mnemonic: Mnemonic::Lda,
                mode: AddressMode::Absolute,
                cycles: 4,
                page_penalty: false,
            },
        ),
        0xAE => Some(
            Operation {
                mnemonic: Mnemonic::Ldx,
                mode: AddressMode::Absolute,
                cycles: 4,
                page_penalty: false,
            },
        ),
        0xB0 => Some(
            Operation {
                mnemonic: Mnemonic::Bcs,
                mode: AddressMode::Relative,
                cycles: 2,
                page_penalty: false,
            },
        ),
        0xB1 => Some(
            Operation {
                mnemonic: Mnemonic::Lda,
                mode: AddressMode::IndirectY,
                cycles: 5,
                page_penalty: true,
            },
        ),
        0xB4 => Some(
            Operation {
                mnemonic: Mnemonic::Ldy,
                mode: AddressMode::ZeroPageX,
                cycles: 4,
                page_penalty: false,
            },
        ),
        0xB5 => Some(
            Operation {
                mnemonic: Mnemonic::Lda,
                mode: AddressMode::ZeroPageX,
                cycles: 4,
                page_penalty: false,
            },
        ),
        0xB6 => Some(
            Operation {
                mnemonic: Mnemonic::Ldx,
                mode: AddressMode::ZeroPageY,
                cycles: 4,
                page_penalty: false,
            },
        ),
        0xB8 => Some(
            Operation {
                mnemonic: Mnemonic::Clv,
                mode: AddressMode::Implied,
                cycles: 2,
                page_penalty: false,
            },
        ),
        0xB9 => Some(
            Operation {
                mnemonic: Mnemonic::Lda,
                mode: AddressMode::AbsoluteY,
                cycles: 4,
                page_penalty: true,
            },
        ),
        0xBA => Some(
            Operation {
                mnemonic: Mnemonic::Tsx,
                mode: AddressMode::Implied,
                cycles: 2,
                page_penalty: false,
            },
        ),
        0xBC => Some(
            Operation {
                mnemonic: Mnemonic::Ldy,
                mode: AddressMode::AbsoluteX,
                cycles: 4,
                page_penalty: true,
            },
        ),
        0xBD => Some(
            Operation {
                mnemonic: Mnemonic::Lda,
                mode: AddressMode::AbsoluteX,
                cycles: 4,
                page_penalty: true,
            },
        ),
        0xBE => Some(
            Operation {
                mnemonic: Mnemonic::Ldx,
                mode: AddressMode::AbsoluteY,
                cycles: 4,
                page_penalty: true,
            },
        ),
        0xC0 => Some(
            Operation {
                mnemonic: Mnemonic::Cpy,
                mode: AddressMode::Immediate,
                cycles: 2,
                page_penalty: false,
            },
        ),
        0xC1 => Some(
            Operation {
                mnemonic: Mnemonic::Cmp,
                mode: AddressMode::IndirectX,
                cycles: 6,
                page_penalty: false,
            },
        ),
        0xC4 => Some(
            Operation {
                mnemonic: Mnemonic::Cpy,
                mode: AddressMode::ZeroPage,
                cycles: 3,
                page_penalty: false,
            },
        ),
        0xC5 => Some(
            Operation {
                mnemonic: Mnemonic::Cmp,
                mode: AddressMode::ZeroPage,
                cycles: 3,
                page_penalty: false,
            },
        ),
        0xC6 => Some(
            Operation {
                mnemonic: Mnemonic::Dec,
                mode: AddressMode::ZeroPage,
                cycles: 5,
                page_penalty: false,
            },
        ),
        0xC8 => Some(
            Operation {
                mnemonic: Mnemonic::Iny,
                mode: AddressMode::Implied,
                cycles: 2,
                page_penalty: false,
            },
        ),
        0xC9 => Some(
            Operation {
                mnemonic: Mnemonic::Cmp,
                mode: AddressMode::Immediate,
                cycles: 2,
                page_penalty: false,
            },
        ),
        0xCA => Some(
            Operation {
                mnemonic: Mnemonic::Dex,
                mode: AddressMode::Implied,
                cycles: 2,
                page_penalty: false,
            },
        ),
        0xCC => Some(
            Operation {
                mnemonic: Mnemonic::Cpy,
                mode: AddressMode::Absolute,
                cycles: 4,
                page_penalty: false,
            },
        ),
        0xCD => Some(
            Operation {
                mnemonic: Mnemonic::Cmp,
                mode: AddressMode::Absolute,
                cycles: 4,
                page_penalty: false,
            },
        ),
        0xCE => Some(
            Operation {
                mnemonic: Mnemonic::Dec,
                mode: AddressMode::Absolute,
                cycles: 6,
                page_penalty: false,
            },
        ),
        0xD0 => Some(
            Operation {
                mnemonic: Mnemonic::Bne,
                mode: AddressMode::Relative,
                cycles: 2,
                page_penalty: false,
            },
        ),
        0xD1 => Some(
            Operation {
                mnemonic: Mnemonic::Cmp,
                mode: AddressMode::IndirectY,
                cycles: 5,
                page_penalty: true,
            },
        ),
        0xD5 => Some(
            Operation {
                mnemonic: Mnemonic::Cmp,
                mode: AddressMode::ZeroPageX,
                cycles: 4,
                page_penalty: false,
            },
        ),
        0xD6 => Some(
            Operation {
                mnemonic: Mnemonic::Dec,
                mode: AddressMode::ZeroPageX,
                cycles: 6,
                page_penalty: false,
            },
        ),
        0xD8 => Some(
            Operation {
                mnemonic: Mnemonic::Cld,
                mode: AddressMode::Implied,
                cycles: 2,
                page_penalty: false,
            },
        ),
        0xD9 => Some(
            Operation {
                mnemonic: Mnemonic::Cmp,
                mode: AddressMode::AbsoluteY,
                cycles: 4,
                page_penalty: true,
            },
        ),
        0xDD => Some(
            Operation {
                mnemonic: Mnemonic::Cmp,
                mode: AddressMode::AbsoluteX,
                cycles: 4,
                page_penalty: true,
            },
        ),
        0xDE => Some(
            Operation {
                mnemonic: Mnemonic::Dec,
                mode: AddressMode::AbsoluteX,
                cycles: 7,
                page_penalty: false,
            },
        ),
        0xE0 => Some(
            Operation {
                mnemonic: Mnemonic::Cpx,
                mode: AddressMode::Immediate,
                cycles: 2,
                page_penalty: false,
            },
        ),
        0xE1 => Some(
            Operation {
                mnemonic: Mnemonic::Sbc,
                mode: AddressMode::IndirectX,
                cycles: 6,
                page_penalty: false,
            },
        ),
        0xE4 => Some(
            Operation {
                mnemonic: Mnemonic::Cpx,
                mode: AddressMode::ZeroPage,
                cycles: 3,
                page_penalty: false,
            },
        ),
        0xE5 => Some(
            Operation {
                mnemonic: Mnemonic::Sbc,
                mode: AddressMode::ZeroPage,
                cycles: 3,
                page_penalty: false,
            },
        ),
        0xE6 => Some(
            Operation {
                mnemonic: Mnemonic::Inc,
                mode: AddressMode::ZeroPage,
                cycles: 5,
                page_penalty: false,
            },
        ),
        0xE8 => Some(
            Operation {
                mnemonic: Mnemonic::Inx,
                mode: AddressMode::Implied,
                cycles: 2,
                page_penalty: false,
            },
        ),
        0xE9 => Some(
            Operation {
                mnemonic: Mnemonic::Sbc,
                mode: AddressMode::Immediate,
                cycles: 2,
                page_penalty: false,
            },
        ),
        0xEA => Some(
            Operation {
                mnemonic: Mnemonic::Nop,
                mode: AddressMode::Implied,
                cycles: 2,
                page_penalty: false,
            },
        ),
        0xEC => Some(
            Operation {
                mnemonic: Mnemonic::Cpx,
                mode: AddressMode::Absolute,
                cycles: 4,
                page_penalty: false,
            },
        ),
        0xED => Some(
            Operation {
                mnemonic: Mnemonic::Sbc,
                mode: AddressMode::Absolute,
                cycles: 4,
                page_penalty: false,
            },
        ),
        0xEE => Some(
            Operation {
                mnemonic: Mnemonic::Inc,
                mode: AddressMode::Absolute,
                cycles: 6,
                page_penalty: false,
            },
        ),
        0xF0 => Some(
            Operation {
                mnemonic: Mnemonic::Beq,
                mode: AddressMode::Relative,
                cycles: 2,
                page_penalty: false,
            },
        ),
        0xF1 => Some(
            Operation {
                mnemonic: Mnemonic::Sbc,
                mode: AddressMode::IndirectY,
                cycles: 5,
                page_penalty: true,
            },
        ),
        0xF5 => Some(
            Operation {
                mnemonic: Mnemonic::Sbc,
                mode: AddressMode::ZeroPageX,
                cycles: 4,
                page_penalty: false,
            },
        ),
        0xF6 => Some(
            Operation {
                mnemonic: Mnemonic::Inc,
                mode: AddressMode::ZeroPageX,
                cycles: 6,
                page_penalty: false,
            },
        ),
        0xF8 => Some(
            Operation {
                mnemonic: Mnemonic::Sed,
                mode: AddressMode::Implied,
                cycles: 2,
                page_penalty: false,
            },
        ),
        0xF9 => Some(
            Operation {
                mnemonic: Mnemonic::Sbc,
                mode: AddressMode::AbsoluteY,
                cycles: 4,
                page_penalty: true,
            },
        ),
        0xFD => Some(
            Operation {
                mnemonic: Mnemonic::Sbc,
                mode: AddressMode::AbsoluteX,
                cycles: 4,
                page_penalty: true,
            },
        ),
        0xFE => Some(
            Operation {
                mnemonic: Mnemonic::Inc,
                mode: AddressMode::AbsoluteX,
                cycles: 7,
                page_penalty: false,
            },
        ),
        _ => None,
    }
}

/// Looks an opcode byte up in the fixed 256-entry dispatch table.
pub fn decode(opcode: u8) -> (r: Option<Operation>)
    ensures
        r == spec_decode(opcode),
{
    proof {
        reveal(spec_decode);
    }
    match opcode {
        0x00 => Some(
            Operation {
                mnemonic: Mnemonic::Brk,
                mode: AddressMode::Implied,
                cycles: 7,
                page_penalty: false,
            },
        ),
        0x01 => Some(
            Operation {
                mnemonic: Mnemonic::Ora,
                mode: AddressMode::IndirectX,
                cycles: 6,
                page_penalty: false,
            },
        ),
        0x05 => Some(
            Operation {
                mnemonic: Mnemonic::Ora,
                mode: AddressMode::ZeroPage,
                cycles: 3,
                page_penalty: false,
            },
        ),
        0x06 => Some(
            Operation {
                mnemonic: Mnemonic::Asl,
                mode: AddressMode::ZeroPage,
                cycles: 5,
                page_penalty: false,
            },
        ),
        0x08 => Some(
            Operation {
                mnemonic: Mnemonic::Php,
                mode: AddressMode::Implied,
                cycles: 3,
                page_penalty: false,
            },
        ),
        0x09 => Some(
            Operation {
                mnemonic: Mnemonic::Ora,
                mode: AddressMode::Immediate,
                cycles: 2,
                page_penalty: false,
            },
        ),
        0x0A => Some(
            Operation {
                mnemonic: Mnemonic::Asl,
                mode: AddressMode::Implied,
                cycles: 2,
                page_penalty: false,
            },
        ),
        0x0D => Some(
            Operation {
                mnemonic: Mnemonic::Ora,
                mode: AddressMode::Absolute,
                cycles: 4,
                page_penalty: false,
            },
        ),
        0x0E => Some(
            Operation {
                mnemonic: Mnemonic::Asl,
                mode: AddressMode::Absolute,
                cycles: 6,
                page_penalty: false,
            },
        ),
        0x10 => Some(
            Operation {
                mnemonic: Mnemonic::Bpl,
                mode: AddressMode::Relative,
                cycles: 2,
                page_penalty: false,
            },
        ),
        0x11 => Some(
            Operation {
                mnemonic: Mnemonic::Ora,
                mode: AddressMode::IndirectY,
                cycles: 5,
                page_penalty: true,
            },
        ),
        0x15 => Some(
            Operation {
                mnemonic: Mnemonic::Ora,
                mode: AddressMode::ZeroPageX,
                cycles: 4,
                page_penalty: false,
            },
        ),
        0x16 => Some(
            Operation {
                mnemonic: Mnemonic::Asl,
                mode: AddressMode::ZeroPageX,
                cycles: 6,
                page_penalty: false,
            },
        ),
        0x18 => Some(
            Operation {
                mnemonic: Mnemonic::Clc,
                mode: AddressMode::Implied,
                cycles: 2,
                page_penalty: false,
            },
        ),
        0x19 => Some(
            Operation {
                mnemonic: Mnemonic::Ora,
                mode: AddressMode::AbsoluteY,
                cycles: 4,
                page_penalty: true,
            },
        ),
        0x1D => Some(
            Operation {
                mnemonic: Mnemonic::Ora,
                mode: AddressMode::AbsoluteX,
                cycles: 4,
                page_penalty: true,
            },
        ),
        0x1E => Some(
            Operation {
                mnemonic: Mnemonic::Asl,
                mode: AddressMode::AbsoluteX,
                cycles: 7,
                page_penalty: false,
            },
        ),
        0x20 => Some(
            Operation {
                mnemonic: Mnemonic::Jsr,
                mode: AddressMode::Absolute,
                cycles: 6,
                page_penalty: false,
            },
        ),
        0x21 => Some(
            Operation {
                mnemonic: Mnemonic::And,
                mode: AddressMode::IndirectX,
                cycles: 6,
                page_penalty: false,
            },
        ),
        0x24 => Some(
            Operation {
                mnemonic: Mnemonic::Bit,
                mode: AddressMode::ZeroPage,
                cycles: 3,
                page_penalty: false,
            },
        ),
        0x25 => Some(
            Operation {
                mnemonic: Mnemonic::And,
                mode: AddressMode::ZeroPage,
                cycles: 3,
                page_penalty: false,
            },
        ),
        0x26 => Some(
            Operation {
                mnemonic: Mnemonic::Rol,
                mode: AddressMode::ZeroPage,
                cycles: 5,
                page_penalty: false,
            },
        ),
        0x28 => Some(
            Operation {
                mnemonic: Mnemonic::Plp,
                mode: AddressMode::Implied,
                cycles: 4,
                page_penalty: false,
            },
        ),
        0x29 => Some(
            Operation {
                mnemonic: Mnemonic::And,
                mode: AddressMode::Immediate,
                cycles: 2,
                page_penalty: false,
            },
        ),
        0x2A => Some(
            Operation {
                mnemonic: Mnemonic::Rol,
                mode: AddressMode::Implied,
                cycles: 2,
                page_penalty: false,
            },
        ),
        0x2C => Some(
            Operation {
                mnemonic: Mnemonic::Bit,
                mode: AddressMode::Absolute,
                cycles: 4,
                page_penalty: false,
            },
        ),
        0x2D => Some(
            Operation {
                mnemonic: Mnemonic::And,
                mode: AddressMode::Absolute,
                cycles: 4,
                page_penalty: false,
            },
        ),
        0x2E => Some(
            Operation {
                mnemonic: Mnemonic::Rol,
                mode: AddressMode::Absolute,
                cycles: 6,
                page_penalty: false,
            },
        ),
        0x30 => Some(
            Operation {
                mnemonic: Mnemonic::Bmi,
                mode: AddressMode::Relative,
                cycles: 2,
                page_penalty: false,
            },
        ),
        0x31 => Some(
            Operation {
                mnemonic: Mnemonic::And,
                mode: AddressMode::IndirectY,
                cycles: 5,
                page_penalty: true,
            },
        ),
        0x35 => Some(
            Operation {
                mnemonic: Mnemonic::And,
                mode: AddressMode::ZeroPageX,
                cycles: 4,
                page_penalty: false,
            },
        ),
        0x36 => Some(
            Operation {
                mnemonic: Mnemonic::Rol,
                mode: AddressMode::ZeroPageX,
                cycles: 6,
                page_penalty: false,
            },
        ),
        0x38 => Some(
            Operation {
                mnemonic: Mnemonic::Sec,
                mode: AddressMode::Implied,
                cycles: 2,
                page_penalty: false,
            },
        ),
        0x39 => Some(
            Operation {
                mnemonic: Mnemonic::And,
                mode: AddressMode::AbsoluteY,
                cycles: 4,
                page_penalty: true,
            },
        ),
        0x3D => Some(
            Operation {
                mnemonic: Mnemonic::And,
                mode: AddressMode::AbsoluteX,
                cycles: 4,
                page_penalty: true,
            },
        ),
        0x3E => Some(
            Operation {
                mnemonic: Mnemonic::Rol,
                mode: AddressMode::AbsoluteX,
                cycles: 7,
                page_penalty: false,
            },
        ),
        0x40 => Some(
            Operation {
                mnemonic: Mnemonic::Rti,
                mode: AddressMode::Implied,
                cycles: 6,
                page_penalty: false,
            },
        ),
        0x41 => Some(
            Operation {
                mnemonic: Mnemonic::Eor,
                mode: AddressMode::IndirectX,
                cycles: 6,
                page_penalty: false,
            },
        ),
        0x45 => Some(
            Operation {
                mnemonic: Mnemonic::Eor,
                mode: AddressMode::ZeroPage,
                cycles: 3,
                page_penalty: false,
            },
        ),
        0x46 => Some(
            Operation {
                mnemonic: Mnemonic::Lsr,
                mode: AddressMode::ZeroPage,
                cycles: 5,
                page_penalty: false,
            },
        ),
        0x48 => Some(
            Operation {
                mnemonic: Mnemonic::Pha,
                mode: AddressMode::Implied,
                cycles: 3,
                page_penalty: false,
            },
        ),
        0x49 => Some(
            Operation {
                mnemonic: Mnemonic::Eor,
                mode: AddressMode::Immediate,
                cycles: 2,
                page_penalty: false,
            },
        ),
        0x4A => Some(
            Operation {
                mnemonic: Mnemonic::Lsr,
                mode: AddressMode::Implied,
                cycles: 2,
                page_penalty: false,
            },
        ),
        0x4C => Some(
            Operation {
                mnemonic: Mnemonic::Jmp,
                mode: AddressMode::Absolute,
                cycles: 3,
                page_penalty: false,
            },
        ),
        0x4D => Some(
            Operation {
                mnemonic: Mnemonic::Eor,
                mode: AddressMode::Absolute,
                cycles: 4,
                page_penalty: false,
            },
        ),
        0x4E => Some(
            Operation {
                mnemonic: Mnemonic::Lsr,
                mode: AddressMode::Absolute,
                cycles: 6,
                page_penalty: false,
            },
        ),
        0x50 => Some(
            Operation {
                mnemonic: Mnemonic::Bvc,
                mode: AddressMode::Relative,
                cycles: 2,
                page_penalty: false,
            },
        ),
        0x51 => Some(
            Operation {
                mnemonic: Mnemonic::Eor,
                mode: AddressMode::IndirectY,
                cycles: 5,
                page_penalty: true,
            },
        ),
        0x55 => Some(
            Operation {
                mnemonic: Mnemonic::Eor,
                mode: AddressMode::ZeroPageX,
                cycles: 4,
                page_penalty: false,
            },
        ),
        0x56 => Some(
            Operation {
                mnemonic: Mnemonic::Lsr,
                mode: AddressMode::ZeroPageX,
                cycles: 6,
                page_penalty: false,
            },
        ),
        0x58 => Some(
            Operation {
                mnemonic: Mnemonic::Cli,
                mode: AddressMode::Implied,
                cycles: 2,
                page_penalty: false,
            },
        ),
        0x59 => Some(
            Operation {
                mnemonic: Mnemonic::Eor,
                mode: AddressMode::AbsoluteY,
                cycles: 4,
                page_penalty: true,
            },
        ),
        0x5D => Some(
            Operation {
                mnemonic: Mnemonic::Eor,
                mode: AddressMode::AbsoluteX,
                cycles: 4,
                page_penalty: true,
            },
        ),
        0x5E => Some(
            Operation {
                mnemonic: Mnemonic::Lsr,
                mode: AddressMode::AbsoluteX,
                cycles: 7,
                page_penalty: false,
            },
        ),
        0x60 => Some(
            Operation {
                mnemonic: Mnemonic::Rts,
                mode: AddressMode::Implied,
                cycles: 6,
                page_penalty: false,
            },
        ),
        0x61 => Some(
            Operation {
                mnemonic: Mnemonic::Adc,
                mode: AddressMode::IndirectX,
                cycles: 6,
                page_penalty: false,
            },
        ),
        0x65 => Some(
            Operation {
                mnemonic: Mnemonic::Adc,
                mode: AddressMode::ZeroPage,
                cycles: 3,
                page_penalty: false,
            },
        ),
        0x66 => Some(
            Operation {
                mnemonic: Mnemonic::Ror,
                mode: AddressMode::ZeroPage,
                cycles: 5,
                page_penalty: false,
            },
        ),
        0x68 => Some(
            Operation {
                mnemonic: Mnemonic::Pla,
                mode: AddressMode::Implied,
                cycles: 4,
                page_penalty: false,
            },
        ),
        0x69 => Some(
            Operation {
                mnemonic: Mnemonic::Adc,
                mode: AddressMode::Immediate,
                cycles: 2,
                page_penalty: false,
            },
        ),
        0x6A => Some(
            Operation {
                mnemonic: Mnemonic::Ror,
                mode: AddressMode::Implied,
                cycles: 2,
                page_penalty: false,
            },
        ),
        0x6C => Some(
            Operation {
                mnemonic: Mnemonic::Jmp,
                mode: AddressMode::Indirect,
                cycles: 5,
                page_penalty: false,
            },
        ),
        0x6D => Some(
            Operation {
                mnemonic: Mnemonic::Adc,
                mode: AddressMode::Absolute,
                cycles: 4,
                page_penalty: false,
            },
        ),
        0x6E => Some(
            Operation {
                mnemonic: Mnemonic::Ror,
                mode: AddressMode::Absolute,
                cycles: 6,
                page_penalty: false,
            },
        ),
        0x70 => Some(
            Operation {
                mnemonic: Mnemonic::Bvs,
                mode: AddressMode::Relative,
                cycles: 2,
                page_penalty: false,
            },
        ),
        0x71 => Some(
            Operation {
                mnemonic: Mnemonic::Adc,
                mode: AddressMode::IndirectY,
                cycles: 5,
                page_penalty: true,
            },
        ),
        0x75 => Some(
            Operation {
                mnemonic: Mnemonic::Adc,
                mode: AddressMode::ZeroPageX,
                cycles: 4,
                page_penalty: false,
            },
        ),
        0x76 => Some(
            Operation {
                mnemonic: Mnemonic::Ror,
                mode: AddressMode::ZeroPageX,
                cycles: 6,
                page_penalty: false,
            },
        ),
        0x78 => Some(
            Operation {
                mnemonic: Mnemonic::Sei,
                mode: AddressMode::Implied,
                cycles: 2,
                page_penalty: false,
            },
        ),
        0x79 => Some(
            Operation {
                mnemonic: Mnemonic::Adc,
                mode: AddressMode::AbsoluteY,
                cycles: 4,
                page_penalty: true,
            },
        ),
        0x7D => Some(
            Operation {
                mnemonic: Mnemonic::Adc,
                mode: AddressMode::AbsoluteX,
                cycles: 4,
                page_penalty: true,
            },
        ),
        0x7E => Some(
            Operation {
                mnemonic: Mnemonic::Ror,
                mode: AddressMode::AbsoluteX,
                cycles: 7,
                page_penalty: false,
            },
        ),
        0x81 => Some(
            Operation {
                mnemonic: Mnemonic::Sta,
                mode: AddressMode::IndirectX,
                cycles: 6,
                page_penalty: false,
            },
        ),
        0x84 => Some(
            Operation {
                mnemonic: Mnemonic::Sty,
                mode: AddressMode::ZeroPage,
                cycles: 3,
                page_penalty: false,
            },
        ),
        0x85 => Some(
            Operation {
                mnemonic: Mnemonic::Sta,
                mode: AddressMode::ZeroPage,
                cycles: 3,
                page_penalty: false,
            },
        ),
        0x86 => Some(
            Operation {
                mnemonic: Mnemonic::Stx,
                mode: AddressMode::ZeroPage,
                cycles: 3,
                page_penalty: false,
            },
        ),
        0x88 => Some(
            Operation {
                mnemonic: Mnemonic::Dey,
                mode: AddressMode::Implied,
                cycles: 2,
                page_penalty: false,
            },
        ),
        0x8A => Some(
            Operation {
                mnemonic: Mnemonic::Txa,
                mode: AddressMode::Implied,
                cycles: 2,
                page_penalty: false,
            },
        ),
        0x8C => Some(
            Operation {
                mnemonic: Mnemonic::Sty,
                mode: AddressMode::Absolute,
                cycles: 4,
                page_penalty: false,
            },
        ),
        0x8D => Some(
            Operation {
                mnemonic: Mnemonic::Sta,
                mode: AddressMode::Absolute,
                cycles: 4,
                page_penalty: false,
            },
        ),
        0x8E => Some(
            Operation {
                mnemonic: Mnemonic::Stx,
                mode: AddressMode::Absolute,
                cycles: 4,
                page_penalty: false,
            },
        ),
        0x90 => Some(
            Operation {
                mnemonic: Mnemonic::Bcc,
                mode: AddressMode::Relative,
                cycles: 2,
                page_penalty: false,
            },
        ),
        0x91 => Some(
            Operation {
                mnemonic: Mnemonic::Sta,
                mode: AddressMode::IndirectY,
                cycles: 6,
                page_penalty: false,
            },
        ),
        0x94 => Some(
            Operation {
                mnemonic: Mnemonic::Sty,
                mode: AddressMode::ZeroPageX,
                cycles: 4,
                page_penalty: false,
            },
        ),
        0x95 => Some(
            Operation {
                mnemonic: Mnemonic::Sta,
                mode: AddressMode::ZeroPageX,
                cycles: 4,
                page_penalty: false,
            },
        ),
        0x96 => Some(
            Operation {
                mnemonic: Mnemonic::Stx,
                mode: AddressMode::ZeroPageY,
                cycles: 4,
                page_penalty: false,
            },
        ),
        0x98 => Some(
            Operation {
                mnemonic: Mnemonic::Tya,
                mode: AddressMode::Implied,
                cycles: 2,
                page_penalty: false,
            },
        ),
        0x99 => Some(
            Operation {
                mnemonic: Mnemonic::Sta,
                mode: AddressMode::AbsoluteY,
                cycles: 5,
                page_penalty: false,
            },
        ),
        0x9A => Some(
            Operation {
                mnemonic: Mnemonic::Txs,
                mode: AddressMode::Implied,
                cycles: 2,
                page_penalty: false,
            },
        ),
        0x9D => Some(
            Operation {
                mnemonic: Mnemonic::Sta,
                mode: AddressMode::AbsoluteX,
                cycles: 5,
                page_penalty: false,
            },
        ),
        0xA0 => Some(
            Operation {
                mnemonic: Mnemonic::Ldy,
                mode: AddressMode::Immediate,
                cycles: 2,
                page_penalty: false,
            },
        ),
        0xA1 => Some(
            Operation {
                mnemonic: Mnemonic::Lda,
                mode: AddressMode::IndirectX,
                cycles: 6,
                page_penalty: false,
            },
        ),
        0xA2 => Some(
            Operation {
                mnemonic: Mnemonic::Ldx,
                mode: AddressMode::Immediate,
                cycles: 2,
                page_penalty: false,
            },
        ),
        0xA4 => Some(
            Operation {
                mnemonic: Mnemonic::Ldy,
                mode: AddressMode::ZeroPage,
                cycles: 3,
                page_penalty: false,
            },
        ),
        0xA5 => Some(
            Operation {
                mnemonic: Mnemonic::Lda,
                mode: AddressMode::ZeroPage,
                cycles: 3,
                page_penalty: false,
            },
        ),
        0xA6 => Some(
            Operation {
                mnemonic: Mnemonic::Ldx,
                mode: AddressMode::ZeroPage,
                cycles: 3,
                page_penalty: false,
            },
        ),
        0xA8 => Some(
            Operation {
                mnemonic: Mnemonic::Tay,
                mode: AddressMode::Implied,
                cycles: 2,
                page_penalty: false,
            },
        ),
        0xA9 => Some(
            Operation {
                mnemonic: Mnemonic::Lda,
                mode: AddressMode::Immediate,
                cycles: 2,
                page_penalty: false,
            },
        ),
        0xAA => Some(
            Operation {
                mnemonic: Mnemonic::Tax,
                mode: AddressMode::Implied,
                cycles: 2,
                page_penalty: false,
            },
        ),
        0xAC => Some(
            Operation {
                mnemonic: Mnemonic::Ldy,
                mode: AddressMode::Absolute,
                cycles: 4,
                page_penalty: false,
            },
        ),
        0xAD => Some(
            Operation {
                mnemonic: Mnemonic::Lda,
                mode: AddressMode::Absolute,
                cycles: 4,
                page_penalty: false,
            },
        ),
        0xAE => Some(
            Operation {
                mnemonic: Mnemonic::Ldx,
                mode: AddressMode::Absolute,
                cycles: 4,
                page_penalty: false,
            },
        ),
        0xB0 => Some(
            Operation {
                mnemonic: Mnemonic::Bcs,
                mode: AddressMode::Relative,
                cycles: 2,
                page_penalty: false,
            },
        ),
        0xB1 => Some(
            Operation {
                mnemonic: Mnemonic::Lda,
                mode: AddressMode::IndirectY,
                cycles: 5,
                page_penalty: true,
            },
        ),
        0xB4 => Some(
            Operation {
                mnemonic: Mnemonic::Ldy,
                mode: AddressMode::ZeroPageX,
                cycles: 4,
                page_penalty: false,
            },
        ),
        0xB5 => Some(
            Operation {
                mnemonic: Mnemonic::Lda,
                mode: AddressMode::ZeroPageX,
                cycles: 4,
                page_penalty: false,
            },
        ),
        0xB6 => Some(
            Operation {
                mnemonic: Mnemonic::Ldx,
                mode: AddressMode::ZeroPageY,
                cycles: 4,
                page_penalty: false,
            },
        ),
        0xB8 => Some(
            Operation {
                mnemonic: Mnemonic::Clv,
                mode: AddressMode::Implied,
                cycles: 2,
                page_penalty: false,
            },
        ),
        0xB9 => Some(
            Operation {
                mnemonic: Mnemonic::Lda,
                mode: AddressMode::AbsoluteY,
                cycles: 4,
                page_penalty: true,
            },
        ),
        0xBA => Some(
            Operation {
                mnemonic: Mnemonic::Tsx,
                mode: AddressMode::Implied,
                cycles: 2,
                page_penalty: false,
            },
        ),
        0xBC => Some(
            Operation {
                mnemonic: Mnemonic::Ldy,
                mode: AddressMode::AbsoluteX,
                cycles: 4,
                page_penalty: true,
            },
        ),
        0xBD => Some(
            Operation {
                mnemonic: Mnemonic::Lda,
                mode: AddressMode::AbsoluteX,
                cycles: 4,
                page_penalty: true,
            },
        ),
        0xBE => Some(
            Operation {
                mnemonic: Mnemonic::Ldx,
                mode: AddressMode::AbsoluteY,
                cycles: 4,
                page_penalty: true,
            },
        ),
        0xC0 => Some(
            Operation {
                mnemonic: Mnemonic::Cpy,
                mode: AddressMode::Immediate,
                cycles: 2,
                page_penalty: false,
            },
        ),
        0xC1 => Some(
            Operation {
                mnemonic: Mnemonic::Cmp,
                mode: AddressMode::IndirectX,
                cycles: 6,
                page_penalty: false,
            },
        ),
        0xC4 => Some(
            Operation {
                mnemonic: Mnemonic::Cpy,
                mode: AddressMode::ZeroPage,
                cycles: 3,
                page_penalty: false,
            },
        ),
        0xC5 => Some(
            Operation {
                mnemonic: Mnemonic::Cmp,
                mode: AddressMode::ZeroPage,
                cycles: 3,
                page_penalty: false,
            },
        ),
        0xC6 => Some(
            Operation {
                mnemonic: Mnemonic::Dec,
                mode: AddressMode::ZeroPage,
                cycles: 5,
                page_penalty: false,
            },
        ),
        0xC8 => Some(
            Operation {
                mnemonic: Mnemonic::Iny,
                mode: AddressMode::Implied,
                cycles: 2,
                page_penalty: false,
            },
        ),
        0xC9 => Some(
            Operation {
                mnemonic: Mnemonic::Cmp,
                mode: AddressMode::Immediate,
                cycles: 2,
                page_penalty: false,
            },
        ),
        0xCA => Some(
            Operation {
                mnemonic: Mnemonic::Dex,
                mode: AddressMode::Implied,
                cycles: 2,
                page_penalty: false,
            },
        ),
        0xCC => Some(
            Operation {
                mnemonic: Mnemonic::Cpy,
                mode: AddressMode::Absolute,
                cycles: 4,
                page_penalty: false,
            },
        ),
        0xCD => Some(
            Operation {
                mnemonic: Mnemonic::Cmp,
                mode: AddressMode::Absolute,
                cycles: 4,
                page_penalty: false,
            },
        ),
        0xCE => Some(
            Operation {
                mnemonic: Mnemonic::Dec,
                mode: AddressMode::Absolute,
                cycles: 6,
                page_penalty: false,
            },
        ),
        0xD0 => Some(
            Operation {
                mnemonic: Mnemonic::Bne,
                mode: AddressMode::Relative,
                cycles: 2,
                page_penalty: false,
            },
        ),
        0xD1 => Some(
            Operation {
                mnemonic: Mnemonic::Cmp,
                mode: AddressMode::IndirectY,
                cycles: 5,
                page_penalty: true,
            },
        ),
        0xD5 => Some(
            Operation {
                mnemonic: Mnemonic::Cmp,
                mode: AddressMode::ZeroPageX,
                cycles: 4,
                page_penalty: false,
            },
        ),
        0xD6 => Some(
            Operation {
                mnemonic: Mnemonic::Dec,
                mode: AddressMode::ZeroPageX,
                cycles: 6,
                page_penalty: false,
            },
        ),
        0xD8 => Some(
            Operation {
                mnemonic: Mnemonic::Cld,
                mode: AddressMode::Implied,
                cycles: 2,
                page_penalty: false,
            },
        ),
        0xD9 => Some(
            Operation {
                mnemonic: Mnemonic::Cmp,
                mode: AddressMode::AbsoluteY,
                cycles: 4,
                page_penalty: true,
            },
        ),
        0xDD => Some(
            Operation {
                mnemonic: Mnemonic::Cmp,
                mode: AddressMode::AbsoluteX,
                cycles: 4,
                page_penalty: true,
            },
        ),
        0xDE => Some(
            Operation {
                mnemonic: Mnemonic::Dec,
                mode: AddressMode::AbsoluteX,
                cycles: 7,
                page_penalty: false,
            },
        ),
        0xE0 => Some(
            Operation {
                mnemonic: Mnemonic::Cpx,
                mode: AddressMode::Immediate,
                cycles: 2,
                page_penalty: false,
            },
        ),
        0xE1 => Some(
            Operation {
                mnemonic: Mnemonic::Sbc,
                mode: AddressMode::IndirectX,
                cycles: 6,
                page_penalty: false,
            },
        ),
        0xE4 => Some(
            Operation {
                mnemonic: Mnemonic::Cpx,
                mode: AddressMode::ZeroPage,
                cycles: 3,
                page_penalty: false,
            },
        ),
        0xE5 => Some(
            Operation {
                mnemonic: Mnemonic::Sbc,
                mode: AddressMode::ZeroPage,
                cycles: 3,
                page_penalty: false,
            },
        ),
        0xE6 => Some(
            Operation {
                mnemonic: Mnemonic::Inc,
                mode: AddressMode::ZeroPage,
                cycles: 5,
                page_penalty: false,
            },
        ),
        0xE8 => Some(
            Operation {
                mnemonic: Mnemonic::Inx,
                mode: AddressMode::Implied,
                cycles: 2,
                page_penalty: false,
            },
        ),
        0xE9 => Some(
            Operation {
                mnemonic: Mnemonic::Sbc,
                mode: AddressMode::Immediate,
                cycles: 2,
                page_penalty: false,
            },
        ),
        0xEA => Some(
            Operation {
                mnemonic: Mnemonic::Nop,
                mode: AddressMode::Implied,
                cycles: 2,
                page_penalty: false,
            },
        ),
        0xEC => Some(
            Operation {
                mnemonic: Mnemonic::Cpx,
                mode: AddressMode::Absolute,
                cycles: 4,
                page_penalty: false,
            },
        ),
        0xED => Some(
            Operation {
                mnemonic: Mnemonic::Sbc,
                mode: AddressMode::Absolute,
                cycles: 4,
                page_penalty: false,
            },
        ),
        0xEE => Some(
            Operation {
                mnemonic: Mnemonic::Inc,
                mode: AddressMode::Absolute,
                cycles: 6,
                page_penalty: false,
            },
        ),
        0xF0 => Some(
            Operation {
                mnemonic: Mnemonic::Beq,
                mode: AddressMode::Relative,
                cycles: 2,
                page_penalty: false,
            },
        ),
        0xF1 => Some(
            Operation {
                mnemonic: Mnemonic::Sbc,
                mode: AddressMode::IndirectY,
                cycles: 5,
                page_penalty: true,
            },
        ),
        0xF5 => Some(
            Operation {
                mnemonic: Mnemonic::Sbc,
                mode: AddressMode::ZeroPageX,
                cycles: 4,
                page_penalty: false,
            },
        ),
        0xF6 => Some(
            Operation {
                mnemonic: Mnemonic::Inc,
                mode: AddressMode::ZeroPageX,
                cycles: 6,
                page_penalty: false,
            },
        ),
        0xF8 => Some(
            Operation {
                mnemonic: Mnemonic::Sed,
                mode: AddressMode::Implied,
                cycles: 2,
                page_penalty: false,
            },
        ),
        0xF9 => Some(
            Operation {
                mnemonic: Mnemonic::Sbc,
                mode: AddressMode::AbsoluteY,
                cycles: 4,
                page_penalty: true,
            },
        ),
        0xFD => Some(
            Operation {
                mnemonic: Mnemonic::Sbc,
                mode: AddressMode::AbsoluteX,
                cycles: 4,
                page_penalty: true,
            },
        ),
        0xFE => Some(
            Operation {
                mnemonic: Mnemonic::Inc,
                mode: AddressMode::AbsoluteX,
                cycles: 7,
                page_penalty: false,
            },
        ),
        _ => None,
    }
}

/// Every table entry charges at least two and at most seven base cycles.
pub proof fn lemma_decode_cycle_bounds()
    ensures
        forall|opcode: u8| #[trigger] spec_decode(opcode) is Some ==> 2 <= spec_decode(
            opcode,
        )->Some_0.cycles <= 7,
{
    assert forall|opcode: u8| #[trigger] spec_decode(opcode) is Some implies 2 <= spec_decode(
        opcode,
    )->Some_0.cycles <= 7 by {
        reveal(spec_decode);
    }
}

} // verus!
