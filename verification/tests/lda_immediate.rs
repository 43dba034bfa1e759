use emu6502::{Processor, LDA_IMMEDIATE};

#[test]
fn lda_immediate_lda_immediate() {
    let mut processor = Processor::new();
    processor.registers.pc = 0xFFFC;

    processor.memory.write_byte(0xFFFC, LDA_IMMEDIATE);
    processor.memory.write_byte(0xFFFD, 0x42);

    let copy_c = processor.registers.c;
    let copy_i = processor.registers.i;
    let copy_d = processor.registers.d;
    let copy_b = processor.registers.b;
    let copy_v = processor.registers.v;
    let used_cycles = processor.execute(2);

    assert_eq!(processor.registers.a, 0x42);
    assert_eq!(used_cycles, 2);

    assert_eq!(processor.registers.z, false);
    assert_eq!(processor.registers.n, false);

    assert_eq!(processor.registers.c, copy_c);
    assert_eq!(processor.registers.i, copy_i);
    assert_eq!(processor.registers.d, copy_d);
    assert_eq!(processor.registers.b, copy_b);
    assert_eq!(processor.registers.v, copy_v);
}
