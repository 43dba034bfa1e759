use emu6502::{Processor, TXS_IMPLIED};

#[test]
fn txs_implied() {
    let mut processor = Processor::new();
    processor.registers.pc = 0xFFFC;

    processor.registers.x = 0x42;

    processor.memory.write_byte(0xFFFC, TXS_IMPLIED);

    let expected_cycles: u64 = 2;
    let used_cycles = processor.execute(expected_cycles);

    assert_eq!(processor.registers.sp, 0x42);
    assert_eq!(used_cycles, expected_cycles);
}
