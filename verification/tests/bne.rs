use emu6502::{Processor, BNE_RELATIVE, LDA_IMMEDIATE};

#[test]
fn bne_relative() {
    let mut processor = Processor::new();
    processor.registers.pc = 0xFFFC;

    processor.memory.write_byte(0xFFFC, LDA_IMMEDIATE); // 2
    processor.memory.write_byte(0xFFFD, 0b1000_0010); // sets the negative flag to true and the zero flag to false, meaning it will branch
    processor.memory.write_byte(0xFFFE, BNE_RELATIVE); // 4
    processor.memory.write_byte(0xFFFF, 0xF0); // -16

    let expected_cycles: u64 = 6;
    let used_cycles = processor.execute_cycles(expected_cycles);

    assert_eq!(processor.registers.a, 0b1000_0010);
    assert_eq!(processor.registers.pc, 0xFFF0); // 0xFFFF + -16
    assert_eq!(used_cycles, expected_cycles);

    assert_eq!(processor.registers.get_zero(), false);
    assert_eq!(processor.registers.get_negative(), true);
}
