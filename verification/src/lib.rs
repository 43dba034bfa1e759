//! Cycle-accurate instruction-level emulator for the 6502 family of 8-bit
//! microprocessors: register file, status flags, addressing-mode resolution,
//! per-opcode semantics, stack discipline, interrupt vectoring, and
//! whole-instruction cycle accounting.

pub mod address;
pub mod bus;
pub mod cartridge;
pub mod cpu;
pub mod instructions;
pub mod laws;
pub mod memory;
pub mod operation;
pub mod ops;
pub mod processor;
pub mod ram;
pub mod registers;
pub mod status;

pub use address::Address;
pub use address::AddressingResult;
pub use address::RelativeAddress;
pub use bus::BUS;
pub use cartridge::Cartridge;
pub use cartridge::Mirroring;
pub use cpu::CPU;
pub use cpu::Processor;
pub use instructions::ADC_ABSOLUTE;
pub use instructions::ADC_ABSOLUTE_X;
pub use instructions::ADC_ABSOLUTE_Y;
pub use instructions::ADC_IMMEDIATE;
pub use instructions::ADC_INDIRECT_X;
pub use instructions::ADC_INDIRECT_Y;
pub use instructions::ADC_ZERO_PAGE;
pub use instructions::ADC_ZERO_PAGE_X;
pub use instructions::AND_ABSOLUTE;
pub use instructions::AND_ABSOLUTE_X;
pub use instructions::AND_ABSOLUTE_Y;
pub use instructions::AND_IMMEDIATE;
pub use instructions::AND_INDIRECT_X;
pub use instructions::AND_INDIRECT_Y;
pub use instructions::AND_ZERO_PAGE;
pub use instructions::AND_ZERO_PAGE_X;
pub use instructions::ASL_ABSOLUTE;
pub use instructions::ASL_ABSOLUTE_X;
pub use instructions::ASL_ACCUMULATOR;
pub use instructions::ASL_ZERO_PAGE;
pub use instructions::ASL_ZERO_PAGE_X;
pub use instructions::BCC_RELATIVE;
pub use instructions::BCS_RELATIVE;
pub use instructions::BEQ_RELATIVE;
pub use instructions::BIT_ABSOLUTE;
pub use instructions::BIT_ZERO_PAGE;
pub use instructions::BMI_RELATIVE;
pub use instructions::BNE_RELATIVE;
pub use instructions::BPL_RELATIVE;
pub use instructions::BRK_IMPLIED;
pub use instructions::BVC_RELATIVE;
pub use instructions::BVS_RELATIVE;
pub use instructions::CLC_IMPLIED;
pub use instructions::CLD_IMPLIED;
pub use instructions::CLI_IMPLIED;
pub use instructions::CLV_IMPLIED;
pub use instructions::CMP_ABSOLUTE;
pub use instructions::CMP_ABSOLUTE_X;
pub use instructions::CMP_ABSOLUTE_Y;
pub use instructions::CMP_IMMEDIATE;
pub use instructions::CMP_INDIRECT_X;
pub use instructions::CMP_INDIRECT_Y;
pub use instructions::CMP_ZERO_PAGE;
pub use instructions::CMP_ZERO_PAGE_X;
pub use instructions::CPX_ABSOLUTE;
pub use instructions::CPX_IMMEDIATE;
pub use instructions::CPX_ZERO_PAGE;
pub use instructions::CPY_ABSOLUTE;
pub use instructions::CPY_IMMEDIATE;
pub use instructions::CPY_ZERO_PAGE;
pub use instructions::DEC_ABSOLUTE;
pub use instructions::DEC_ABSOLUTE_X;
pub use instructions::DEC_ZERO_PAGE;
pub use instructions::DEC_ZERO_PAGE_X;
pub use instructions::DEX_IMPLIED;
pub use instructions::DEY_IMPLIED;
pub use instructions::EOR_ABSOLUTE;
pub use instructions::EOR_ABSOLUTE_X;
pub use instructions::EOR_ABSOLUTE_Y;
pub use instructions::EOR_IMMEDIATE;
pub use instructions::EOR_INDIRECT_X;
pub use instructions::EOR_INDIRECT_Y;
pub use instructions::EOR_ZERO_PAGE;
pub use instructions::EOR_ZERO_PAGE_X;
pub use instructions::INC_ABSOLUTE;
pub use instructions::INC_ABSOLUTE_X;
pub use instructions::INC_ZERO_PAGE;
pub use instructions::INC_ZERO_PAGE_X;
pub use instructions::INX_IMPLIED;
pub use instructions::INY_IMPLIED;
pub use instructions::JMP_ABSOLUTE;
pub use instructions::JMP_INDIRECT;
pub use instructions::JSR_ABSOLUTE;
pub use instructions::LDA_ABSOLUTE;
pub use instructions::LDA_ABSOLUTE_X;
pub use instructions::LDA_ABSOLUTE_Y;
pub use instructions::LDA_IMMEDIATE;
pub use instructions::LDA_INDIRECT_X;
pub use instructions::LDA_INDIRECT_Y;
pub use instructions::LDA_ZERO_PAGE;
pub use instructions::LDA_ZERO_PAGE_X;
pub use instructions::LDX_ABSOLUTE;
pub use instructions::LDX_ABSOLUTE_Y;
pub use instructions::LDX_IMMEDIATE;
pub use instructions::LDX_ZERO_PAGE;
pub use instructions::LDX_ZERO_PAGE_Y;
pub use instructions::LDY_ABSOLUTE;
pub use instructions::LDY_ABSOLUTE_X;
pub use instructions::LDY_IMMEDIATE;
pub use instructions::LDY_ZERO_PAGE;
pub use instructions::LDY_ZERO_PAGE_X;
pub use instructions::LSR_ABSOLUTE;
pub use instructions::LSR_ABSOLUTE_X;
pub use instructions::LSR_ACCUMULATOR;
pub use instructions::LSR_ZERO_PAGE;
pub use instructions::LSR_ZERO_PAGE_X;
pub use instructions::NOP_IMPLIED;
pub use instructions::ORA_ABSOLUTE;
pub use instructions::ORA_ABSOLUTE_X;
pub use instructions::ORA_ABSOLUTE_Y;
pub use instructions::ORA_IMMEDIATE;
pub use instructions::ORA_INDIRECT_X;
pub use instructions::ORA_INDIRECT_Y;
pub use instructions::ORA_ZERO_PAGE;
pub use instructions::ORA_ZERO_PAGE_X;
pub use instructions::PHA_IMPLIED;
pub use instructions::PHP_IMPLIED;
pub use instructions::PLA_IMPLIED;
pub use instructions::PLP_IMPLIED;
pub use instructions::ROL_ABSOLUTE;
pub use instructions::ROL_ABSOLUTE_X;
pub use instructions::ROL_ACCUMULATOR;
pub use instructions::ROL_ZERO_PAGE;
pub use instructions::ROL_ZERO_PAGE_X;
pub use instructions::ROR_ABSOLUTE;
pub use instructions::ROR_ABSOLUTE_X;
pub use instructions::ROR_ACCUMULATOR;
pub use instructions::ROR_ZERO_PAGE;
pub use instructions::ROR_ZERO_PAGE_X;
pub use instructions::RTI_IMPLIED;
pub use instructions::RTS_IMPLIED;
pub use instructions::SBC_ABSOLUTE;
pub use instructions::SBC_ABSOLUTE_X;
pub use instructions::SBC_ABSOLUTE_Y;
pub use instructions::SBC_IMMEDIATE;
pub use instructions::SBC_INDIRECT_X;
pub use instructions::SBC_INDIRECT_Y;
pub use instructions::SBC_ZERO_PAGE;
pub use instructions::SBC_ZERO_PAGE_X;
pub use instructions::SEC_IMPLIED;
pub use instructions::SED_IMPLIED;
pub use instructions::SEI_IMPLIED;
pub use instructions::STA_ABSOLUTE;
pub use instructions::STA_ABSOLUTE_X;
pub use instructions::STA_ABSOLUTE_Y;
pub use instructions::STA_INDIRECT_X;
pub use instructions::STA_INDIRECT_Y;
pub use instructions::STA_ZERO_PAGE;
pub use instructions::STA_ZERO_PAGE_X;
pub use instructions::STX_ABSOLUTE;
pub use instructions::STX_ZERO_PAGE;
pub use instructions::STX_ZERO_PAGE_Y;
pub use instructions::STY_ABSOLUTE;
pub use instructions::STY_ZERO_PAGE;
pub use instructions::STY_ZERO_PAGE_X;
pub use instructions::TAX_IMPLIED;
pub use instructions::TAY_IMPLIED;
pub use instructions::TSX_IMPLIED;
pub use instructions::TXA_IMPLIED;
pub use instructions::TXS_IMPLIED;
pub use instructions::TYA_IMPLIED;
pub use memory::Memory;
pub use operation::AddressMode;
pub use operation::Mnemonic;
pub use operation::Operation;
pub use processor::IllegalOpcode;
pub use ram::RAM;
pub use registers::FLAG_BREAK;
pub use registers::FLAG_CARRY;
pub use registers::FLAG_DECIMAL_MODE;
pub use registers::FLAG_INTERRUPT;
pub use registers::FLAG_NEGATIVE;
pub use registers::FLAG_OVERFLOW;
pub use registers::FLAG_UNUSED;
pub use registers::FLAG_ZERO;
pub use registers::Registers;
pub use status::CPUFlag;
