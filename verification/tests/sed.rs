use emu6502::{Processor, SED_IMPLIED};

#[test]
fn sed_implied() {
    let mut processor = Processor::new();
    processor.registers.pc = 0xFFFC;

    processor.registers.d = false;

    processor.memory.write_byte(0xFFFC, SED_IMPLIED);

    let expected_cycles: u64 = 2;
    let used_cycles = processor.execute_cycles(expected_cycles);

    assert_eq!(used_cycles, expected_cycles);

    assert_eq!(processor.registers.d, true);
}
