use emu6502::{Processor, STX_ABSOLUTE, STX_ZERO_PAGE, STX_ZERO_PAGE_Y};

#[test]
fn stx_zero_page() {
    let mut processor = Processor::new();
    processor.registers.pc = 0xFFFC;

    processor.registers.x = 0x42;

    processor.memory.write_byte(0xFFFC, STX_ZERO_PAGE);
    processor.memory.write_byte(0xFFFD, 0x16);

    let expected_cycles: u64 = 3;
    let used_cycles = processor.execute_cycles(expected_cycles);

    assert_eq!(processor.memory.read_byte(0x0016), 0x42);
    assert_eq!(used_cycles, expected_cycles);
}

#[test]
fn stx_zero_page_y() {
    let mut processor = Processor::new();
    processor.registers.pc = 0xFFFC;

    processor.registers.y = 0x12;
    processor.registers.x = 0x42;

    processor.memory.write_byte(0xFFFC, STX_ZERO_PAGE_Y);
    processor.memory.write_byte(0xFFFD, 0x16);

    let expected_cycles: u64 = 4;
    let used_cycles = processor.execute_cycles(expected_cycles);

    assert_eq!(processor.memory.read_byte(0x0028), 0x42);
    assert_eq!(used_cycles, expected_cycles);
}

#[test]
fn stx_absolute() {
    let mut processor = Processor::new();
    processor.registers.pc = 0xFFFC;

    processor.registers.x = 0x42;

    processor.memory.write_byte(0xFFFC, STX_ABSOLUTE);
    processor.memory.write_byte(0xFFFD, 0x16);
    processor.memory.write_byte(0xFFFE, 0x16);

    let expected_cycles: u64 = 4;
    let used_cycles = processor.execute_cycles(expected_cycles);

    assert_eq!(processor.memory.read_byte(0x1616), 0x42);
    assert_eq!(used_cycles, expected_cycles);
}
