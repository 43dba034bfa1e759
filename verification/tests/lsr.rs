use emu6502::{Processor, LSR_ABSOLUTE, LSR_ABSOLUTE_X, LSR_ACCUMULATOR, LSR_ZERO_PAGE, LSR_ZERO_PAGE_X};

#[test]
fn lsr_accumulator() {
    let mut processor = Processor::new();
    processor.registers.pc = 0xFFFC;

    processor.registers.a = 0b1100_0101; // -> 0b0110_0010

    processor.memory.write_byte(0xFFFC, LSR_ACCUMULATOR);

    let expected_cycles: u64 = 2;
    let used_cycles = processor.execute_cycles(expected_cycles);

    assert_eq!(processor.registers.a, 0b0110_0010);
    assert_eq!(used_cycles, expected_cycles);

    assert_eq!(processor.registers.n, false);
    assert_eq!(processor.registers.z, false);
    assert_eq!(processor.registers.c, true);
}

#[test]
fn lsr_zero_page() {
    let mut processor = Processor::new();
    processor.registers.pc = 0xFFFC;

    processor.memory.write_byte(0xFFFC, LSR_ZERO_PAGE);
    processor.memory.write_byte(0xFFFD, 0x42);
    processor.memory.write_byte(0x0042, 0b1100_0101);

    let expected_cycles: u64 = 5;
    let used_cycles = processor.execute_cycles(expected_cycles);

    assert_eq!(processor.memory.read_byte(0x0042), 0b0110_0010);
    assert_eq!(used_cycles, expected_cycles);

    assert_eq!(processor.registers.n, false);
    assert_eq!(processor.registers.z, false);
    assert_eq!(processor.registers.c, true);
}

#[test]
fn lsr_zero_page_x() {
    let mut processor = Processor::new();
    processor.registers.pc = 0xFFFC;

    processor.registers.x = 0x10;

    processor.memory.write_byte(0xFFFC, LSR_ZERO_PAGE_X);
    processor.memory.write_byte(0xFFFD, 0x42);
    processor.memory.write_byte(0x0052, 0b1100_0101);

    let expected_cycles: u64 = 6;
    let used_cycles = processor.execute_cycles(expected_cycles);

    assert_eq!(processor.memory.read_byte(0x0052), 0b0110_0010);
    assert_eq!(used_cycles, expected_cycles);

    assert_eq!(processor.registers.n, false);
    assert_eq!(processor.registers.z, false);
    assert_eq!(processor.registers.c, true);
}

#[test]
fn lsr_absolute() {
    let mut processor = Processor::new();
    processor.registers.pc = 0xFFFC;

    processor.memory.write_byte(0xFFFC, LSR_ABSOLUTE);
    processor.memory.write_byte(0xFFFD, 0x42);
    processor.memory.write_byte(0xFFFE, 0x42);
    processor.memory.write_byte(0x4242, 0b1100_0101);

    let expected_cycles: u64 = 6;
    let used_cycles = processor.execute_cycles(expected_cycles);

    assert_eq!(processor.memory.read_byte(0x4242), 0b0110_0010);
    assert_eq!(used_cycles, expected_cycles);

    assert_eq!(processor.registers.n, false);
    assert_eq!(processor.registers.z, false);
    assert_eq!(processor.registers.c, true);
}

#[test]
fn lsr_absolute_x() {
    let mut processor = Processor::new();
    processor.registers.pc = 0xFFFC;

    processor.registers.x = 0x10;

    processor.memory.write_byte(0xFFFC, LSR_ABSOLUTE_X);
    processor.memory.write_byte(0xFFFD, 0x42);
    processor.memory.write_byte(0xFFFE, 0x42);
    processor.memory.write_byte(0x4252, 0b1100_0101);

    let expected_cycles: u64 = 7;
    let used_cycles = processor.execute_cycles(expected_cycles);

    assert_eq!(processor.memory.read_byte(0x4252), 0b0110_0010);
    assert_eq!(used_cycles, expected_cycles);

    assert_eq!(processor.registers.n, false);
    assert_eq!(processor.registers.z, false);
    assert_eq!(processor.registers.c, true);
}
