use emu6502::{Processor, CLD_IMPLIED};

#[test]
fn cld_implied() {
    let mut processor = Processor::new();
    processor.registers.pc = 0xFFFC;

    processor.registers.set_decimal(true);

    processor.memory.write_byte(0xFFFC, CLD_IMPLIED);

    let expected_cycles: u64 = 2;
    let used_cycles = processor.execute_cycles(expected_cycles);

    assert_eq!(used_cycles, expected_cycles);

    assert_eq!(processor.registers.get_decimal(), false);
}
