use emu6502::{Processor, FLAG_BREAK, FLAG_UNUSED, PHP_IMPLIED};

#[test]
fn php_implied() {
    let mut processor = Processor::new();
    processor.registers.pc = 0xFFFC;

    processor.registers.from_byte(0xCC);

    processor.memory.write_byte(0xFFFC, PHP_IMPLIED);

    let expected_cycles: u64 = 3;
    let used_cycles = processor.execute_cycles(expected_cycles);

    //let byte = 0b00110000;

    assert_eq!(
        processor.memory.read_byte(processor.sp_to_address().to_word() + 1), // because the stack pointer decrement when you write a to the stack.
        0xCC | FLAG_BREAK | FLAG_UNUSED
    );
    assert_eq!(used_cycles, expected_cycles);
}
