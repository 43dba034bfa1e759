use emu6502::{Processor, FLAG_BREAK, FLAG_UNUSED, PLP_IMPLIED};

#[test]
fn plp_implied() {
    let mut processor = Processor::new();
    processor.registers.pc = 0xFFFC;

    processor.registers.sp = 0xFE;
    processor.registers.from_byte(0x00);

    processor.memory.write_byte(0x01FF, 0x42 | FLAG_BREAK | FLAG_UNUSED);
    processor.memory.write_byte(0xFFFC, PLP_IMPLIED);

    let expected_cycles: u64 = 4;
    let used_cycles = processor.execute_cycles(expected_cycles);

    // The pull restores all eight bits verbatim, break and unused included.
    assert_eq!(processor.registers.to_byte(), 0x42 | FLAG_BREAK | FLAG_UNUSED);
    assert_eq!(used_cycles, expected_cycles);
}
