use mos6502::cpu::CPU;

#[test]
fn test_lda_sta_dec() {
    let mut cpu = CPU::new();
    cpu.load_and_run(vec![0xa9, 0x05, 0x85, 0, 0xC6, 0]).unwrap();
    assert_eq!(cpu.register_a, 0x05);
    assert_eq!(cpu.memory[0], 0x04);
}

#[test]
fn test_ldx_dex() {
    let mut cpu = CPU::new();
    cpu.load_and_run(vec![0xA2, 0x04, 0xCA]).unwrap();
    assert_eq!(cpu.register_x, 0x03);
}

#[test]
fn test_ldy_dey() {
    let mut cpu = CPU::new();
    cpu.load_and_run(vec![0xA0, 0x05, 0x88]).unwrap();
    assert_eq!(cpu.register_y, 0x04);
}

#[test]
fn test_lda_sta_inc() {
    let mut cpu = CPU::new();
    cpu.load_and_run(vec![0xa9, 0x05, 0x85, 0, 0xE6, 0]).unwrap();
    assert_eq!(cpu.register_a, 0x05);
    assert_eq!(cpu.memory[0], 0x06);
}

#[test]
fn test_ldx_inx() {
    let mut cpu = CPU::new();
    cpu.load_and_run(vec![0xA2, 0x04, 0xE8]).unwrap();
    assert_eq!(cpu.register_x, 0x05);
}

#[test]
fn test_ldy_iny() {
    let mut cpu = CPU::new();
    cpu.load_and_run(vec![0xA0, 0x04, 0xC8]).unwrap();
    assert_eq!(cpu.register_y, 0x05);
}

#[test]
fn test_lda_and_immediate() {
    let mut cpu = CPU::new();
    cpu.load_and_run(vec![0xa9, 0x05, 0x29, 0x04, 0x8D, 0x00]).unwrap();
    assert_eq!(cpu.register_a, 0x04);
    assert_eq!(cpu.memory[0], 0x04);
}

#[test]
fn test_lda_eor_immediate() {
    let mut cpu = CPU::new();
    cpu.load_and_run(vec![0xa9, 0x05, 0x49, 0x04, 0x8D, 0x01]).unwrap();
    assert_eq!(cpu.register_a, 0x01);
    assert_eq!(cpu.memory[1], 0x01);
}

#[test]
fn test_lda_ora_immediate() {
    let mut cpu = CPU::new();
    cpu.load_and_run(vec![0xa9, 0x05, 0x09, 0x10, 0x8D, 0x02]).unwrap();
    assert_eq!(cpu.register_a, 0x15);
    assert_eq!(cpu.memory[2], 0x15);
}

#[test]
fn test_0xa9_lda_immediate_load_data() {
    let mut cpu = CPU::new();
    cpu.load_and_run(vec![0xa9, 0x05, 0x00]).unwrap();
    assert_eq!(cpu.register_a, 5); // 5 == 0x05
    assert!(cpu.status.zero() == 0);
    assert!(cpu.status.negative() == 0);
}

#[test]
fn test_0xa2_ldx_immediate_load_data() {
    let mut cpu = CPU::new();
    cpu.load_and_run(vec![0xa2, 0x05, 0x00]).unwrap();
    assert_eq!(cpu.register_x, 5); // 5 == 0x05
    assert!(cpu.status.zero() == 0);
    assert!(cpu.status.negative() == 0);
}

#[test]
fn test_0xa0_ldy_immediate_load_data() {
    let mut cpu = CPU::new();
    cpu.load_and_run(vec![0xa0, 0x05, 0x00]).unwrap();
    assert_eq!(cpu.register_y, 5); // 5 == 0x05
    assert!(cpu.status.zero() == 0);
    assert!(cpu.status.negative() == 0);
}

#[test]
fn test_0xa9_lda_zero_flag() {
    let mut cpu = CPU::new();
    cpu.load_and_run(vec![0xa9, 0x00, 0x00]).unwrap();
    assert!(cpu.status.zero() == 1);
}

#[test]
fn test_0xa2_ldx_zero_flag() {
    let mut cpu = CPU::new();
    cpu.load_and_run(vec![0xa2, 0x00, 0x00]).unwrap();
    assert!(cpu.status.zero() == 1);
}

#[test]
fn test_0xa0_ldy_zero_flag() {
    let mut cpu = CPU::new();
    cpu.load_and_run(vec![0xa0, 0x00, 0x00]).unwrap();
    assert!(cpu.status.zero() == 1);
}

#[test]
fn test_0xaa_tax_copy_a_to_x() {
    let mut cpu = CPU::new();
    cpu.load_and_run(vec![0xa9, 0x0a, 0xaa, 0x00]).unwrap();
    assert_eq!(cpu.register_x, 10); // 10 == 0x0a
}

#[test]
fn test_0xa8_tay_copy_a_to_y() {
    let mut cpu = CPU::new();
    cpu.load_and_run(vec![0xa9, 0x0a, 0xa8, 0x00]).unwrap();
    assert_eq!(cpu.register_y, 10); // 10 == 0x0a
}

#[test]
fn test_0x8a_txa_copy_x_to_a() {
    let mut cpu = CPU::new();
    cpu.load_and_run(vec![0xa2, 0x0a, 0x8a, 0x00]).unwrap();
    assert_eq!(cpu.register_a, 10); // 10 == 0x0a
}

#[test]
fn test_0x98_tya_move_y_to_a() {
    let mut cpu = CPU::new();
    cpu.load_and_run(vec![0xa0, 0x0a, 0x98, 0x00]).unwrap();
    assert_eq!(cpu.register_a, 10); // 10 == 0x0a
}

#[test]
fn test_5_ops_working_together() {
    let mut cpu = CPU::new();
    cpu.load_and_run(vec![0xa9, 0xc0, 0xaa, 0xe8, 0x00]).unwrap();
    assert_eq!(cpu.register_x, 0xc1); // 193 == 0xc1
}

#[test]
fn test_inx_overflow() {
    let mut cpu = CPU::new();
    cpu.load_and_run(vec![0xa9, 0xff, 0xaa, 0xe8, 0xe8, 0x00]).unwrap();

    assert_eq!(cpu.register_x, 1); // 1 == 0x01
}

#[test]
fn test_iny_overflow() {
    let mut cpu = CPU::new();
    cpu.load_and_run(vec![0xa9, 0xff, 0xa8, 0xc8, 0xc8, 0x00]).unwrap();

    assert_eq!(cpu.register_y, 1); // 1 == 0x01
}

#[test]
fn test_lda_from_memory() {
    let mut cpu = CPU::new();
    cpu.mem_write(0x10, 0x55);
    cpu.load_and_run(vec![0xa5, 0x10, 0x00]).unwrap();
    assert_eq!(cpu.register_a, 85); // 85 == 0x55
}

#[test]
fn test_lda_sta_zeropage() {
    let mut cpu = CPU::new();
    cpu.load_and_run(vec![0xA9, 0x11, 0x85, 0x00]).unwrap();
    assert_eq!(cpu.memory[0], 0x11);
}

#[test]
fn test_ldx_stx_zeropage() {
    let mut cpu = CPU::new();
    cpu.load_and_run(vec![0xA2, 0x12, 0x86, 0x00]).unwrap();
    assert_eq!(cpu.register_x, 0x12);
    assert_eq!(cpu.memory[0], 0x12);
}

#[test]
fn test_ldy_sty_zeropage() {
    let mut cpu = CPU::new();
    cpu.load_and_run(vec![0xA0, 0x13, 0x84, 0x00]).unwrap();
    assert_eq!(cpu.register_y, 0x13);
    assert_eq!(cpu.memory[0], 0x13);
}

#[test]
fn test_nop() {
    let mut cpu = CPU::new();
    cpu.load_and_run(vec![]).unwrap();
    let pc = cpu.program_counter; // u16 primitives are copied, not moved
    cpu.load_and_run(vec![0xEA, 0xEA, 0xEA]).unwrap();
    assert_eq!(cpu.program_counter, pc + 3);
}

#[test]
fn test_cmp_immediate() {
    let mut cpu = CPU::new();
    // register_a > data
    cpu.load_and_run(vec![0xA9, 0x02, 0xC9, 0x01]).unwrap();
    assert_eq!(cpu.status.carry(), 1);
    assert_eq!(cpu.status.zero(), 0);
    assert_eq!(cpu.status.negative(), 0);

    // register_a < data
    cpu.reset();
    cpu.load_and_run(vec![0xA9, 0x01, 0xC9, 0x02]).unwrap();
    assert_eq!(cpu.status.carry(), 0);
    assert_eq!(cpu.status.zero(), 0);
    assert_eq!(cpu.status.negative(), 1);

    // register_a == data
    cpu.reset();
    cpu.load_and_run(vec![0xA9, 0x01, 0xC9, 0x01]).unwrap();
    assert_eq!(cpu.status.carry(), 1);
    assert_eq!(cpu.status.zero(), 1);
    assert_eq!(cpu.status.negative(), 0);
}

#[test]
fn test_cpx_immediate() {
    let mut cpu = CPU::new();
    cpu.load_and_run(vec![0xA2, 0x02, 0xE0, 0x01]).unwrap();

    assert_eq!(cpu.status.carry(), 1);
    assert_eq!(cpu.status.zero(), 0);
    assert_eq!(cpu.status.negative(), 0);

    // register_x < data
    cpu.reset();
    cpu.load_and_run(vec![0xA2, 0x01, 0xE0, 0x02]).unwrap();
    assert_eq!(cpu.status.carry(), 0);
    assert_eq!(cpu.status.zero(), 0);
    assert_eq!(cpu.status.negative(), 1);

    // register_x == data
    cpu.reset();
    cpu.load_and_run(vec![0xA2, 0x01, 0xE0, 0x01]).unwrap();
    assert_eq!(cpu.status.carry(), 1);
    assert_eq!(cpu.status.zero(), 1);
    assert_eq!(cpu.status.negative(), 0);
}

#[test]
fn test_reset() {
    let mut cpu = CPU::new();
    cpu.load_and_run(vec![0xA0, 0x13, 0x84, 0x00]).unwrap();
    cpu.reset();
    assert_eq!(cpu.register_a, 0);
    assert_eq!(cpu.register_x, 0);
    assert_eq!(cpu.register_y, 0);
    assert_eq!(cpu.program_counter, 32768);
}

#[test]
fn test_status_flags() {
    let mut cpu = CPU::new();
    cpu.sec();
    assert_eq!(cpu.status.carry(), 1);
    cpu.sed();
    assert_eq!(cpu.status.decimal(), 1);
    cpu.sei();
    assert_eq!(cpu.status.interrupt(), 1);

    cpu.clc();
    assert_eq!(cpu.status.carry(), 0);
    cpu.cld();
    assert_eq!(cpu.status.decimal(), 0);
    cpu.cli();
    assert_eq!(cpu.status.interrupt(), 0);
    cpu.clv();
    assert_eq!(cpu.status.overflow(), 0);
}
