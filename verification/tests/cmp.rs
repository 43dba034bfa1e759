use emu6502::{Processor, CMP_ABSOLUTE, CMP_ABSOLUTE_X, CMP_ABSOLUTE_Y, CMP_IMMEDIATE, CMP_INDIRECT_X, CMP_INDIRECT_Y, CMP_ZERO_PAGE, CMP_ZERO_PAGE_X};

#[test]
fn cmp_immediate() {
    {
        let mut processor = Processor::new();
        processor.registers.pc = 0xFFFC;

        processor.registers.a = 0x45;

        processor.memory.write_byte(0xFFFC, CMP_IMMEDIATE);
        processor.memory.write_byte(0xFFFD, 0x42);

        let expected_cycles: u64 = 2;
        let used_cycles = processor.execute(expected_cycles);

        assert_eq!(used_cycles, expected_cycles);

        assert_eq!(processor.registers.get_negative(), false);
        assert_eq!(processor.registers.get_carry(), true);
        assert_eq!(processor.registers.get_zero(), false);
    }
    {
        let mut processor = Processor::new();
        processor.registers.pc = 0xFFFC;

        processor.registers.a = 0x42;

        processor.memory.write_byte(0xFFFC, CMP_IMMEDIATE);
        processor.memory.write_byte(0xFFFD, 0x42);

        let expected_cycles: u64 = 2;
        let used_cycles = processor.execute(expected_cycles);

        assert_eq!(used_cycles, expected_cycles);

        assert_eq!(processor.registers.get_negative(), false);
        assert_eq!(processor.registers.get_carry(), true);
        assert_eq!(processor.registers.get_zero(), true);
    }
}

#[test]
fn cmp_zero_page() {
    {
        let mut processor = Processor::new();
        processor.registers.pc = 0xFFFC;

        processor.registers.a = 0x68;

        processor.memory.write_byte(0xFFFC, CMP_ZERO_PAGE);
        processor.memory.write_byte(0xFFFD, 0x42);
        processor.memory.write_byte(0x0042, 0x67);

        let expected_cycles: u64 = 3;
        let used_cycles = processor.execute(expected_cycles);

        assert_eq!(used_cycles, expected_cycles);

        assert_eq!(processor.registers.get_negative(), false);
        assert_eq!(processor.registers.get_carry(), true);
        assert_eq!(processor.registers.get_zero(), false);
    }
    {
        let mut processor = Processor::new();
        processor.registers.pc = 0xFFFC;

        processor.registers.a = 0x67;

        processor.memory.write_byte(0xFFFC, CMP_ZERO_PAGE);
        processor.memory.write_byte(0xFFFD, 0x42);
        processor.memory.write_byte(0x0042, 0x67);

        let expected_cycles: u64 = 3;
        let used_cycles = processor.execute(expected_cycles);

        assert_eq!(used_cycles, expected_cycles);

        assert_eq!(processor.registers.get_negative(), false);
        assert_eq!(processor.registers.get_carry(), true);
        assert_eq!(processor.registers.get_zero(), true);
    }
}

#[test]
fn cmp_zero_page_x() {
    {
        let mut processor = Processor::new();
        processor.registers.pc = 0xFFFC;

        processor.registers.x = 0x10;
        processor.registers.a = 0x68;

        processor.memory.write_byte(0xFFFC, CMP_ZERO_PAGE_X);
        processor.memory.write_byte(0xFFFD, 0x42);
        processor.memory.write_byte(0x0052, 0x67);

        let expected_cycles: u64 = 4;
        let used_cycles = processor.execute(expected_cycles);

        assert_eq!(used_cycles, expected_cycles);

        assert_eq!(processor.registers.get_negative(), false);
        assert_eq!(processor.registers.get_carry(), true);
        assert_eq!(processor.registers.get_zero(), false);
    }
    {
        let mut processor = Processor::new();
        processor.registers.pc = 0xFFFC;

        processor.registers.x = 0x10;
        processor.registers.a = 0x67;

        processor.memory.write_byte(0xFFFC, CMP_ZERO_PAGE_X);
        processor.memory.write_byte(0xFFFD, 0x42);
        processor.memory.write_byte(0x0052, 0x67);

        let expected_cycles: u64 = 4;
        let used_cycles = processor.execute(expected_cycles);

        assert_eq!(used_cycles, expected_cycles);

        assert_eq!(processor.registers.get_negative(), false);
        assert_eq!(processor.registers.get_carry(), true);
        assert_eq!(processor.registers.get_zero(), true);
    }
}

#[test]
fn cmp_absolute() {
    {
        let mut processor = Processor::new();
        processor.registers.pc = 0xFFFC;

        processor.registers.a = 0x68;

        processor.memory.write_byte(0xFFFC, CMP_ABSOLUTE);
        processor.memory.write_byte(0xFFFD, 0x42);
        processor.memory.write_byte(0xFFFE, 0x42);
        processor.memory.write_byte(0x4242, 0x67);

        let expected_cycles: u64 = 4;
        let used_cycles = processor.execute(expected_cycles);

        assert_eq!(used_cycles, expected_cycles);

        assert_eq!(processor.registers.get_negative(), false);
        assert_eq!(processor.registers.get_carry(), true);
        assert_eq!(processor.registers.get_zero(), false);
    }
    {
        let mut processor = Processor::new();
        processor.registers.pc = 0xFFFC;

        processor.registers.a = 0x67;

        processor.memory.write_byte(0xFFFC, CMP_ABSOLUTE);
        processor.memory.write_byte(0xFFFD, 0x42);
        processor.memory.write_byte(0xFFFE, 0x42);
        processor.memory.write_byte(0x4242, 0x67);

        let expected_cycles: u64 = 4;
        let used_cycles = processor.execute(expected_cycles);

        assert_eq!(used_cycles, expected_cycles);

        assert_eq!(processor.registers.get_negative(), false);
        assert_eq!(processor.registers.get_carry(), true);
        assert_eq!(processor.registers.get_zero(), true);
    }
}

#[test]
fn cmp_absolute_x() {
    {
        let mut processor = Processor::new();
        processor.registers.pc = 0xFFFC;

        processor.registers.x = 0x10;
        processor.registers.a = 0x68;

        processor.memory.write_byte(0xFFFC, CMP_ABSOLUTE_X);
        processor.memory.write_byte(0xFFFD, 0x42);
        processor.memory.write_byte(0xFFFE, 0x42);
        processor.memory.write_byte(0x4252, 0x67);

        let expected_cycles: u64 = 4;
        let used_cycles = processor.execute(expected_cycles);

        assert_eq!(used_cycles, expected_cycles);

        assert_eq!(processor.registers.get_negative(), false);
        assert_eq!(processor.registers.get_carry(), true);
        assert_eq!(processor.registers.get_zero(), false);
    }
    {
        let mut processor = Processor::new();
        processor.registers.pc = 0xFFFC;

        processor.registers.x = 0x10;
        processor.registers.a = 0x67;

        processor.memory.write_byte(0xFFFC, CMP_ABSOLUTE_X);
        processor.memory.write_byte(0xFFFD, 0x42);
        processor.memory.write_byte(0xFFFE, 0x42);
        processor.memory.write_byte(0x4252, 0x67);

        let expected_cycles: u64 = 4;
        let used_cycles = processor.execute(expected_cycles);

        assert_eq!(used_cycles, expected_cycles);

        assert_eq!(processor.registers.get_negative(), false);
        assert_eq!(processor.registers.get_carry(), true);
        assert_eq!(processor.registers.get_zero(), true);
    }
}

#[test]
fn cmp_absolute_y() {
    {
        let mut processor = Processor::new();
        processor.registers.pc = 0xFFFC;

        processor.registers.y = 0x10;
        processor.registers.a = 0x68;

        processor.memory.write_byte(0xFFFC, CMP_ABSOLUTE_Y);
        processor.memory.write_byte(0xFFFD, 0x42);
        processor.memory.write_byte(0xFFFE, 0x42);
        processor.memory.write_byte(0x4252, 0x67);

        let expected_cycles: u64 = 4;
        let used_cycles = processor.execute(expected_cycles);

        assert_eq!(used_cycles, expected_cycles);

        assert_eq!(processor.registers.get_negative(), false);
        assert_eq!(processor.registers.get_carry(), true);
        assert_eq!(processor.registers.get_zero(), false);
    }
    {
        let mut processor = Processor::new();
        processor.registers.pc = 0xFFFC;

        processor.registers.y = 0x10;
        processor.registers.a = 0x67;

        processor.memory.write_byte(0xFFFC, CMP_ABSOLUTE_Y);
        processor.memory.write_byte(0xFFFD, 0x42);
        processor.memory.write_byte(0xFFFE, 0x42);
        processor.memory.write_byte(0x4252, 0x67);

        let expected_cycles: u64 = 4;
        let used_cycles = processor.execute(expected_cycles);

        assert_eq!(used_cycles, expected_cycles);

        assert_eq!(processor.registers.get_negative(), false);
        assert_eq!(processor.registers.get_carry(), true);
        assert_eq!(processor.registers.get_zero(), true);
    }
}

#[test]
fn cmp_indirect_x() {
    {
        let mut processor = Processor::new();
        processor.registers.pc = 0xFFFC;

        processor.registers.a = 0x68;
        processor.registers.x = 0x04;

        processor.memory.write_byte(0xFFFC, CMP_INDIRECT_X);
        processor.memory.write_byte(0xFFFD, 0x02);
        processor.memory.write_byte(0x0006, 0x42);
        processor.memory.write_byte(0x0007, 0x42);
        processor.memory.write_byte(0x4242, 0x67);

        let expected_cycles: u64 = 6;
        let used_cycles = processor.execute(expected_cycles);

        assert_eq!(used_cycles, expected_cycles);

        assert_eq!(processor.registers.get_negative(), false);
        assert_eq!(processor.registers.get_carry(), true);
        assert_eq!(processor.registers.get_zero(), false);
    }
    {
        let mut processor = Processor::new();
        processor.registers.pc = 0xFFFC;

        processor.registers.a = 0x67;
        processor.registers.x = 0x04;

        processor.memory.write_byte(0xFFFC, CMP_INDIRECT_X);
        processor.memory.write_byte(0xFFFD, 0x02);
        processor.memory.write_byte(0x0006, 0x42);
        processor.memory.write_byte(0x0007, 0x42);
        processor.memory.write_byte(0x4242, 0x67);

        let expected_cycles: u64 = 6;
        let used_cycles = processor.execute(expected_cycles);

        assert_eq!(used_cycles, expected_cycles);

        assert_eq!(processor.registers.get_negative(), false);
        assert_eq!(processor.registers.get_carry(), true);
        assert_eq!(processor.registers.get_zero(), true);
    }
}

#[test]
fn cmp_indirect_y() {
    {
        let mut processor = Processor::new();
        processor.registers.pc = 0xFFFC;

        processor.registers.a = 0x68;
        processor.registers.y = 0x04;

        processor.memory.write_byte(0xFFFC, CMP_INDIRECT_Y);
        processor.memory.write_byte(0xFFFD, 0x02);
        processor.memory.write_byte(0x0002, 0x00);
        processor.memory.write_byte(0x0003, 0x80);
        processor.memory.write_byte(0x8004, 0x67); // 0x8000 + 0x04

        let expected_cycles: u64 = 5;
        let used_cycles = processor.execute(expected_cycles);

        assert_eq!(used_cycles, expected_cycles);

        assert_eq!(processor.registers.get_negative(), false);
        assert_eq!(processor.registers.get_carry(), true);
        assert_eq!(processor.registers.get_zero(), false);
    }
    {
        let mut processor = Processor::new();
        processor.registers.pc = 0xFFFC;

        processor.registers.a = 0x67;
        processor.registers.y = 0x04;

        processor.memory.write_byte(0xFFFC, CMP_INDIRECT_Y);
        processor.memory.write_byte(0xFFFD, 0x02);
        processor.memory.write_byte(0x0002, 0x00);
        processor.memory.write_byte(0x0003, 0x80);
        processor.memory.write_byte(0x8004, 0x67); // 0x8000 + 0x04

        let expected_cycles: u64 = 5;
        let used_cycles = processor.execute(expected_cycles);

        assert_eq!(used_cycles, expected_cycles);

        assert_eq!(processor.registers.get_negative(), false);
        assert_eq!(processor.registers.get_carry(), true);
        assert_eq!(processor.registers.get_zero(), true);
    }
}

#[test]
fn cmp_indirect_y_crosses() {
    {
        let mut processor = Processor::new();
        processor.registers.pc = 0xFFFC;

        processor.registers.a = 0x68;
        processor.registers.y = 0xFF;

        processor.memory.write_byte(0xFFFC, CMP_INDIRECT_Y);
        processor.memory.write_byte(0xFFFD, 0x02);
        processor.memory.write_byte(0x0002, 0x02);
        processor.memory.write_byte(0x0003, 0x80);
        processor.memory.write_byte(0x8101, 0x67); // 0x8002 + 0xFF

        let expected_cycles: u64 = 6;
        let used_cycles = processor.execute(expected_cycles);

        assert_eq!(used_cycles, expected_cycles);

        assert_eq!(processor.registers.get_negative(), false);
        assert_eq!(processor.registers.get_carry(), true);
        assert_eq!(processor.registers.get_zero(), false);
    }
    {
        let mut processor = Processor::new();
        processor.registers.pc = 0xFFFC;

        processor.registers.a = 0x67;
        processor.registers.y = 0xFF;

        processor.memory.write_byte(0xFFFC, CMP_INDIRECT_Y);
        processor.memory.write_byte(0xFFFD, 0x02);
        processor.memory.write_byte(0x0002, 0x02);
        processor.memory.write_byte(0x0003, 0x80);
        processor.memory.write_byte(0x8101, 0x67); // 0x8002 + 0xFF

        let expected_cycles: u64 = 6;
        let used_cycles = processor.execute(expected_cycles);

        assert_eq!(used_cycles, expected_cycles);

        assert_eq!(processor.registers.get_negative(), false);
        assert_eq!(processor.registers.get_carry(), true);
        assert_eq!(processor.registers.get_zero(), true);
    }
}
