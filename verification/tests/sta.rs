use emu6502::{Processor, STA_ABSOLUTE, STA_INDIRECT_X, STA_ZERO_PAGE};

#[test]
fn sta_zero_page() {
    let mut processor = Processor::new();
    processor.registers.pc = 0xFFFC;

    processor.registers.a = 0x42;

    processor.memory.write_byte(0xFFFC, STA_ZERO_PAGE);
    processor.memory.write_byte(0xFFFD, 0x16);

    let expected_cycles: u64 = 3;
    let used_cycles = processor.execute_cycles(expected_cycles);

    assert_eq!(processor.memory.read_byte(0x0016), 0x42);
    assert_eq!(used_cycles, expected_cycles);
}

#[test]
fn sta_absolute() {
    let mut processor = Processor::new();
    processor.registers.pc = 0xFFFC;

    processor.registers.a = 0x42;

    processor.memory.write_byte(0xFFFC, STA_ABSOLUTE);
    processor.memory.write_byte(0xFFFD, 0x16);
    processor.memory.write_byte(0xFFFE, 0x16);

    let expected_cycles: u64 = 4;
    let used_cycles = processor.execute_cycles(expected_cycles);

    assert_eq!(processor.memory.read_byte(0x1616), 0x42);
    assert_eq!(used_cycles, expected_cycles);
}

#[test]
fn sta_indirect_x() {
    let mut processor = Processor::new();
    processor.registers.pc = 0xFFFC;

    processor.registers.a = 0x42;
    processor.registers.x = 0x04;

    processor.memory.write_byte(0xFFFC, STA_INDIRECT_X);
    processor.memory.write_byte(0xFFFD, 0x02);
    processor.memory.write_byte(0x0006, 0x00); // 0x04 + 0x02
    processor.memory.write_byte(0x0007, 0x80);

    let expected_cycles: u64 = 6;
    let used_cycles = processor.execute_cycles(expected_cycles);

    assert_eq!(processor.memory.read_byte(0x8000), 0x42);
    assert_eq!(used_cycles, expected_cycles);
}

#[test]
fn sta_indirect_y() {
    let mut processor = Processor::new();
    processor.registers.pc = 0xFFFC;

    processor.registers.y = 0x04;

    processor.memory.write_byte(0xFFFC, STA_INDIRECT_X);
    processor.memory.write_byte(0xFFFD, 0x02);
    processor.memory.write_byte(0x0002, 0x00);
    processor.memory.write_byte(0x0003, 0x80);
    processor.memory.write_byte(0x8004, 0x42); // 0x8000 + 0x04

    let expected_cycles: u64 = 6;
    let used_cycles = processor.execute_cycles(expected_cycles);

    assert_eq!(processor.memory.read_byte(0x8004), 0x42);
    assert_eq!(used_cycles, expected_cycles);
}
