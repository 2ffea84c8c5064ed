use mos6502::cpu::AddressingMode;
use mos6502::cpu::CPU;
use mos6502::cpu::RunError;
use mos6502::op_codes::Mnemonic;
use mos6502::op_codes::OpCode;
use mos6502::op_codes::opcode_lookup;
use mos6502::cpu::StepOutcome;

#[test]
fn test_lda_immediate_all_values() {
    for v in 0..=255u8 {
        let mut cpu = CPU::new();
        cpu.load_and_run(vec![0xA9, v]).unwrap();
        assert_eq!(cpu.register_a, v);
        assert_eq!(cpu.status.zero(), if v == 0 { 1 } else { 0 });
        assert_eq!(cpu.status.negative(), if v & 0x80 != 0 { 1 } else { 0 });
    }
}

#[test]
fn test_dex_wraparound() {
    let mut cpu = CPU::new();
    cpu.load_and_run(vec![0xA2, 0x00, 0xCA]).unwrap();
    assert_eq!(cpu.register_x, 255);
    assert_eq!(cpu.status.negative(), 1);
}

#[test]
fn test_inx_wraparound() {
    let mut cpu = CPU::new();
    cpu.load_and_run(vec![0xA2, 0xFF, 0xE8]).unwrap();
    assert_eq!(cpu.register_x, 0);
    assert_eq!(cpu.status.zero(), 1);
}

#[test]
fn test_dey_iny_wraparound() {
    let mut cpu = CPU::new();
    cpu.load_and_run(vec![0xA0, 0x00, 0x88]).unwrap();
    assert_eq!(cpu.register_y, 255);

    let mut cpu = CPU::new();
    cpu.load_and_run(vec![0xA0, 0xFF, 0xC8]).unwrap();
    assert_eq!(cpu.register_y, 0);
}

#[test]
fn test_inc_dec_memory_wraparound() {
    let mut cpu = CPU::new();
    cpu.mem_write(0x00, 0xFF);
    cpu.load_and_run(vec![0xE6, 0x00]).unwrap();
    assert_eq!(cpu.memory[0], 0x00);
    assert_eq!(cpu.status.zero(), 1);

    let mut cpu = CPU::new();
    cpu.load_and_run(vec![0xC6, 0x00]).unwrap();
    assert_eq!(cpu.memory[0], 0xFF);
    assert_eq!(cpu.status.negative(), 1);
}

#[test]
fn test_jsr_rts_round_trip() {
    let mut cpu = CPU::new();
    // 0x8000: JSR $8006; 0x8003: LDA #1; 0x8005: BRK; 0x8006: RTS
    cpu.load_and_run(vec![0x20, 0x06, 0x80, 0xA9, 0x01, 0x00, 0x60]).unwrap();
    assert_eq!(cpu.register_a, 0x01);
    assert_eq!(cpu.program_counter, 0x8006);
    assert_eq!(cpu.stack.ptr(), 0xFF);
}

#[test]
fn test_stack_discipline_lifo_256() {
    let mut cpu = CPU::new();
    let original_ptr = cpu.stack.ptr();
    for v in 0..=255u8 {
        cpu.stack_push(v);
    }
    assert_eq!(cpu.stack.ptr(), original_ptr);
    for v in (0..=255u8).rev() {
        assert_eq!(cpu.stack_pop(), v);
    }
    assert_eq!(cpu.stack.ptr(), original_ptr);
}

#[test]
fn test_stack_push_pop_wraparound() {
    let mut cpu = CPU::new();
    cpu.stack.set_ptr(0x00);
    cpu.stack_push(0xAB);
    assert_eq!(cpu.memory[0x0100], 0xAB);
    assert_eq!(cpu.stack.ptr(), 0xFF);
    assert_eq!(cpu.stack_pop(), 0xAB);
    assert_eq!(cpu.stack.ptr(), 0x00);
}

#[test]
fn test_rol_carry_chain_first() {
    let mut cpu = CPU::new();
    cpu.load_and_run(vec![0xA9, 0b1000_0001, 0x2A]).unwrap();
    assert_eq!(cpu.register_a, 0b0000_0010);
    assert_eq!(cpu.status.carry(), 1);
}

#[test]
fn test_rol_carry_chain_second() {
    let mut cpu = CPU::new();
    cpu.load_and_run(vec![0xA9, 0b1000_0001, 0x2A, 0x2A]).unwrap();
    assert_eq!(cpu.register_a, 0b0000_0101);
    assert_eq!(cpu.status.carry(), 0);
}

#[test]
fn test_cpy_compare() {
    let mut cpu = CPU::new();
    cpu.load_and_run(vec![0xA0, 0x02, 0xC0, 0x01]).unwrap();
    assert_eq!(cpu.status.carry(), 1);
    assert_eq!(cpu.status.zero(), 0);
    assert_eq!(cpu.status.negative(), 0);

    cpu.reset();
    cpu.load_and_run(vec![0xA0, 0x01, 0xC0, 0x02]).unwrap();
    assert_eq!(cpu.status.carry(), 0);
    assert_eq!(cpu.status.zero(), 0);
    assert_eq!(cpu.status.negative(), 1);

    cpu.reset();
    cpu.load_and_run(vec![0xA0, 0x01, 0xC0, 0x01]).unwrap();
    assert_eq!(cpu.status.carry(), 1);
    assert_eq!(cpu.status.zero(), 1);
    assert_eq!(cpu.status.negative(), 0);
}

#[test]
fn test_jmp_indirect_page_bug() {
    let mut cpu = CPU::new();
    cpu.mem_write(0x30FF, 0x34); // low byte of the target
    cpu.mem_write(0x3000, 0x12); // high byte comes from the SAME page
    cpu.mem_write(0x3100, 0x56); // what a bug-free chip would read instead
    cpu.load_and_run(vec![0x6C, 0xFF, 0x30]).unwrap();
    // BRK at the target 0x1234 leaves the program counter one past it
    assert_eq!(cpu.program_counter, 0x1235);
}

#[test]
fn test_jmp_absolute() {
    let mut cpu = CPU::new();
    cpu.load_and_run(vec![0x4C, 0x05, 0x80, 0xA9, 0x07, 0xA2, 0x09]).unwrap();
    assert_eq!(cpu.register_a, 0x00);
    assert_eq!(cpu.register_x, 0x09);
}

#[test]
fn test_unknown_opcode_faults() {
    let mut cpu = CPU::new();
    let err = cpu.load_and_run(vec![0xFF]).unwrap_err();
    assert_eq!(err, RunError::UnknownOpcode { code: 0xFF, address: 0x8000 });
}

#[test]
fn test_unresolved_mode_faults() {
    let mut cpu = CPU::new();
    let bad = OpCode::new(0xA9, Mnemonic::LDA, 2, 2, AddressingMode::NoneAddressing);
    let err = cpu.lda(&bad).unwrap_err();
    assert_eq!(
        err,
        RunError::UnresolvedMode { mode: AddressingMode::NoneAddressing, address: 0 }
    );
}

#[test]
fn test_adc_signed_overflow() {
    let mut cpu = CPU::new();
    cpu.load_and_run(vec![0xA9, 0x50, 0x69, 0x50]).unwrap();
    assert_eq!(cpu.register_a, 0xA0);
    assert_eq!(cpu.status.carry(), 0);
    assert_eq!(cpu.status.overflow(), 1);
    assert_eq!(cpu.status.negative(), 1);
}

#[test]
fn test_adc_carry_in_and_out() {
    let mut cpu = CPU::new();
    cpu.load_and_run(vec![0x38, 0xA9, 0xFF, 0x69, 0x01]).unwrap();
    // 0xFF + 0x01 + carry-in 1 = 0x101: result 0x01 with carry out
    assert_eq!(cpu.register_a, 0x01);
    assert_eq!(cpu.status.carry(), 1);
    assert_eq!(cpu.status.overflow(), 0);
}

#[test]
fn test_sbc_with_and_without_borrow() {
    let mut cpu = CPU::new();
    cpu.load_and_run(vec![0x38, 0xA9, 0x05, 0xE9, 0x03]).unwrap();
    assert_eq!(cpu.register_a, 0x02);
    assert_eq!(cpu.status.carry(), 1);

    let mut cpu = CPU::new();
    cpu.load_and_run(vec![0x18, 0xA9, 0x05, 0xE9, 0x03]).unwrap();
    // the clear carry acts as a borrow: 5 - 3 - 1 = 1
    assert_eq!(cpu.register_a, 0x01);
    assert_eq!(cpu.status.carry(), 1);
}

#[test]
fn test_sbc_underflow_clears_carry() {
    let mut cpu = CPU::new();
    cpu.load_and_run(vec![0x38, 0xA9, 0x03, 0xE9, 0x05]).unwrap();
    assert_eq!(cpu.register_a, 0xFE);
    assert_eq!(cpu.status.carry(), 0);
    assert_eq!(cpu.status.negative(), 1);
}

#[test]
fn test_bit_sets_flags_from_operand() {
    let mut cpu = CPU::new();
    cpu.mem_write(0x10, 0xC0);
    cpu.load_and_run(vec![0xA9, 0x0F, 0x24, 0x10]).unwrap();
    assert_eq!(cpu.status.zero(), 1);
    assert_eq!(cpu.status.negative(), 1);
    assert_eq!(cpu.status.overflow(), 1);

    let mut cpu = CPU::new();
    cpu.mem_write(0x10, 0x01);
    cpu.load_and_run(vec![0xA9, 0x0F, 0x24, 0x10]).unwrap();
    assert_eq!(cpu.status.zero(), 0);
    assert_eq!(cpu.status.negative(), 0);
    assert_eq!(cpu.status.overflow(), 0);
}

#[test]
fn test_beq_taken_skips_forward() {
    let mut cpu = CPU::new();
    cpu.load_and_run(vec![0xA9, 0x00, 0xF0, 0x02, 0xA9, 0x7F, 0xA2, 0x42]).unwrap();
    assert_eq!(cpu.register_a, 0x00);
    assert_eq!(cpu.register_x, 0x42);
}

#[test]
fn test_bne_backward_loop() {
    let mut cpu = CPU::new();
    // LDX #3; DEX; BNE -3 (back to the DEX); BRK
    cpu.load_and_run(vec![0xA2, 0x03, 0xCA, 0xD0, 0xFD, 0x00]).unwrap();
    assert_eq!(cpu.register_x, 0x00);
}

#[test]
fn test_bcc_bcs() {
    let mut cpu = CPU::new();
    // carry clear: BCC taken, skips LDA #1
    cpu.load_and_run(vec![0x90, 0x02, 0xA9, 0x01, 0xA2, 0x05]).unwrap();
    assert_eq!(cpu.register_a, 0x00);
    assert_eq!(cpu.register_x, 0x05);

    let mut cpu = CPU::new();
    // carry set: BCS taken, skips LDA #1
    cpu.load_and_run(vec![0x38, 0xB0, 0x02, 0xA9, 0x01, 0xA2, 0x06]).unwrap();
    assert_eq!(cpu.register_a, 0x00);
    assert_eq!(cpu.register_x, 0x06);
}

#[test]
fn test_bmi_bpl_bvc_bvs() {
    let mut cpu = CPU::new();
    // negative set by LDA #$80: BMI taken
    cpu.load_and_run(vec![0xA9, 0x80, 0x30, 0x02, 0xA2, 0x01, 0xA0, 0x02]).unwrap();
    assert_eq!(cpu.register_x, 0x00);
    assert_eq!(cpu.register_y, 0x02);

    let mut cpu = CPU::new();
    // negative clear: BPL taken
    cpu.load_and_run(vec![0xA9, 0x01, 0x10, 0x02, 0xA2, 0x01, 0xA0, 0x03]).unwrap();
    assert_eq!(cpu.register_x, 0x00);
    assert_eq!(cpu.register_y, 0x03);

    let mut cpu = CPU::new();
    // overflow clear: BVC taken
    cpu.load_and_run(vec![0x50, 0x02, 0xA2, 0x01, 0xA0, 0x04]).unwrap();
    assert_eq!(cpu.register_x, 0x00);
    assert_eq!(cpu.register_y, 0x04);

    let mut cpu = CPU::new();
    // overflow set by ADC: BVS taken
    cpu.load_and_run(vec![0xA9, 0x50, 0x69, 0x50, 0x70, 0x02, 0xA2, 0x01, 0xA0, 0x05]).unwrap();
    assert_eq!(cpu.register_x, 0x00);
    assert_eq!(cpu.register_y, 0x05);
}

#[test]
fn test_branch_not_taken_falls_through() {
    let mut cpu = CPU::new();
    // carry clear: BCS not taken, LDA #1 executes
    cpu.load_and_run(vec![0xB0, 0x02, 0xA9, 0x01]).unwrap();
    assert_eq!(cpu.register_a, 0x01);
}

#[test]
fn test_asl_accumulator_and_memory() {
    let mut cpu = CPU::new();
    cpu.load_and_run(vec![0xA9, 0x81, 0x0A]).unwrap();
    assert_eq!(cpu.register_a, 0x02);
    assert_eq!(cpu.status.carry(), 1);

    let mut cpu = CPU::new();
    cpu.mem_write(0x10, 0x81);
    cpu.load_and_run(vec![0x06, 0x10]).unwrap();
    assert_eq!(cpu.memory[0x10], 0x02);
    assert_eq!(cpu.status.carry(), 1);
}

#[test]
fn test_lsr_accumulator_and_memory() {
    let mut cpu = CPU::new();
    cpu.load_and_run(vec![0xA9, 0x03, 0x4A]).unwrap();
    assert_eq!(cpu.register_a, 0x01);
    assert_eq!(cpu.status.carry(), 1);

    let mut cpu = CPU::new();
    cpu.mem_write(0x10, 0x02);
    cpu.load_and_run(vec![0x46, 0x10]).unwrap();
    assert_eq!(cpu.memory[0x10], 0x01);
    assert_eq!(cpu.status.carry(), 0);
}

#[test]
fn test_ror_inserts_carry_high() {
    let mut cpu = CPU::new();
    cpu.load_and_run(vec![0x38, 0xA9, 0x02, 0x6A]).unwrap();
    assert_eq!(cpu.register_a, 0x81);
    assert_eq!(cpu.status.carry(), 0);
    assert_eq!(cpu.status.negative(), 1);
}

#[test]
fn test_rol_memory_operand() {
    let mut cpu = CPU::new();
    cpu.mem_write(0x10, 0x80);
    cpu.load_and_run(vec![0x26, 0x10]).unwrap();
    assert_eq!(cpu.memory[0x10], 0x00);
    assert_eq!(cpu.status.carry(), 1);
    assert_eq!(cpu.status.zero(), 1);
}

#[test]
fn test_pha_pla_round_trip() {
    let mut cpu = CPU::new();
    cpu.load_and_run(vec![0xA9, 0x42, 0x48, 0xA9, 0x00, 0x68]).unwrap();
    assert_eq!(cpu.register_a, 0x42);
    assert_eq!(cpu.status.zero(), 0);
    assert_eq!(cpu.stack.ptr(), 0xFF);
}

#[test]
fn test_php_plp_round_trip() {
    let mut cpu = CPU::new();
    cpu.load_and_run(vec![0x38, 0x08, 0x18, 0x28]).unwrap();
    assert_eq!(cpu.status.carry(), 1);
}

#[test]
fn test_rti_restores_status_and_counter() {
    let mut cpu = CPU::new();
    cpu.stack_push_u16(0x1234);
    cpu.stack_push(0b0011_0001);
    cpu.rti();
    assert_eq!(cpu.program_counter, 0x1234);
    assert_eq!(cpu.status.carry(), 1);
}

#[test]
fn test_tsx_txs() {
    let mut cpu = CPU::new();
    cpu.load_and_run(vec![0xBA]).unwrap();
    assert_eq!(cpu.register_x, 0xFF);
    assert_eq!(cpu.status.negative(), 1);

    let mut cpu = CPU::new();
    cpu.load_and_run(vec![0xA2, 0x42, 0x9A]).unwrap();
    assert_eq!(cpu.stack.ptr(), 0x42);
}

#[test]
fn test_zeropage_x_wraps_in_page_zero() {
    let mut cpu = CPU::new();
    cpu.mem_write(0x007F, 0x99);
    cpu.load_and_run(vec![0xA2, 0x80, 0xB5, 0xFF]).unwrap();
    // 0xFF + X=0x80 wraps to 0x7F inside page zero
    assert_eq!(cpu.register_a, 0x99);
}

#[test]
fn test_absolute_and_indexed_modes() {
    let mut cpu = CPU::new();
    cpu.mem_write(0x1234, 0x77);
    cpu.load_and_run(vec![0xAD, 0x34, 0x12]).unwrap();
    assert_eq!(cpu.register_a, 0x77);

    let mut cpu = CPU::new();
    cpu.mem_write(0x1235, 0x78);
    cpu.load_and_run(vec![0xA2, 0x01, 0xBD, 0x34, 0x12]).unwrap();
    assert_eq!(cpu.register_a, 0x78);

    let mut cpu = CPU::new();
    cpu.mem_write(0x1236, 0x79);
    cpu.load_and_run(vec![0xA0, 0x02, 0xB9, 0x34, 0x12]).unwrap();
    assert_eq!(cpu.register_a, 0x79);
}

#[test]
fn test_indirect_x_mode() {
    let mut cpu = CPU::new();
    cpu.mem_write(0x24, 0x74);
    cpu.mem_write(0x25, 0x20);
    cpu.mem_write(0x2074, 0x55);
    cpu.load_and_run(vec![0xA2, 0x04, 0xA1, 0x20]).unwrap();
    assert_eq!(cpu.register_a, 0x55);
}

#[test]
fn test_indirect_y_mode() {
    let mut cpu = CPU::new();
    cpu.mem_write(0x86, 0x28);
    cpu.mem_write(0x87, 0x40);
    cpu.mem_write(0x4038, 0x66);
    cpu.load_and_run(vec![0xA0, 0x10, 0xB1, 0x86]).unwrap();
    assert_eq!(cpu.register_a, 0x66);
}

#[test]
fn test_sta_indexed_and_indirect() {
    let mut cpu = CPU::new();
    cpu.load_and_run(vec![0xA9, 0x33, 0xA2, 0x01, 0x9D, 0x00, 0x02]).unwrap();
    assert_eq!(cpu.memory[0x0201], 0x33);

    let mut cpu = CPU::new();
    cpu.mem_write(0x30, 0x00);
    cpu.mem_write(0x31, 0x03);
    cpu.load_and_run(vec![0xA9, 0x44, 0xA0, 0x05, 0x91, 0x30]).unwrap();
    assert_eq!(cpu.memory[0x0305], 0x44);
}

#[test]
fn test_step_runs_one_instruction() {
    let mut cpu = CPU::new();
    cpu.load(vec![0xA9, 0x07, 0x00]);
    cpu.reset();
    assert_eq!(cpu.step(), StepOutcome::Ran);
    assert_eq!(cpu.register_a, 0x07);
    assert_eq!(cpu.program_counter, 0x8002);
    assert_eq!(cpu.step(), StepOutcome::Halted);
    assert_eq!(cpu.program_counter, 0x8003);
}

#[test]
fn test_load_writes_image_and_reset_vector() {
    let mut cpu = CPU::new();
    cpu.load(vec![0x01, 0x02, 0x03]);
    assert_eq!(cpu.memory[0x8000], 0x01);
    assert_eq!(cpu.memory[0x8001], 0x02);
    assert_eq!(cpu.memory[0x8002], 0x03);
    assert_eq!(cpu.mem_read_u16(0xFFFC), 0x8000);
}

#[test]
fn test_mem_read_write_u16() {
    let mut cpu = CPU::new();
    cpu.mem_write_u16(0x0200, 0xBEEF);
    assert_eq!(cpu.memory[0x0200], 0xEF);
    assert_eq!(cpu.memory[0x0201], 0xBE);
    assert_eq!(cpu.mem_read_u16(0x0200), 0xBEEF);
}

#[test]
fn test_opcode_table_is_canonical() {
    let mut defined = 0;
    for code in 0..=255u8 {
        if let Some(op) = opcode_lookup(code) {
            assert_eq!(op.code, code);
            assert!(op.len >= 1 && op.len <= 3);
            defined += 1;
        }
    }
    assert_eq!(defined, 151);

    let lda = opcode_lookup(0xA9).unwrap();
    assert_eq!(lda.mnemonic, Mnemonic::LDA);
    assert_eq!(lda.len, 2);
    assert_eq!(lda.cycles, 2);
    assert!(matches!(lda.mode, AddressingMode::Immediate));

    let sta = opcode_lookup(0x91).unwrap();
    assert_eq!(sta.mnemonic, Mnemonic::STA);
    assert!(matches!(sta.mode, AddressingMode::Indirect_Y));

    assert_eq!(opcode_lookup(0x00).unwrap().mnemonic, Mnemonic::BRK);
    assert_eq!(opcode_lookup(0x02), None);
}

#[test]
fn test_opcode_new_builds_row() {
    let op = OpCode::new(0xEA, Mnemonic::NOP, 1, 2, AddressingMode::NoneAddressing);
    assert_eq!(op.code, 0xEA);
    assert_eq!(op.mnemonic, Mnemonic::NOP);
    assert_eq!(op.len, 1);
    assert_eq!(op.cycles, 2);
    assert!(matches!(op.mode, AddressingMode::NoneAddressing));
}

#[test]
fn test_plp_keeps_unused_bits_set() {
    let mut cpu = CPU::new();
    cpu.stack_push(0x00);
    cpu.plp();
    assert_eq!(cpu.status.flags & 0b0011_0000, 0b0011_0000);
}

#[test]
fn test_php_pushes_unused_bits_high() {
    let mut cpu = CPU::new();
    cpu.load_and_run(vec![0x38, 0x08]).unwrap();
    // SEC then PHP: the pushed byte has Carry and both unused bits set
    assert_eq!(cpu.memory[0x01FF], 0b0011_0001);
    assert_eq!(cpu.stack.ptr(), 0xFE);
}
