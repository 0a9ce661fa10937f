//! Each instruction family on chosen states, handler by handler.

use mos6502::{
    is_flag_set, AddressingMode, BREAK_FLAG, CARRY_FLAG, CPU, DECIMAL_FLAG, INTERRUPT_FLAG,
    INVALID_FLAG, NEGATIVE_FLAG, OVERFOW_FLAG, ZERO_FLAG,
};

/// A machine whose program counter points at an operand byte `operand`.
fn with_immediate(operand: u8) -> CPU {
    let mut cpu = CPU::new();
    cpu.program_counter = 0x0600;
    cpu.mem_write(0x0600, operand);
    cpu
}

#[test]
fn flag_constants_are_the_eight_bits() {
    assert_eq!(CARRY_FLAG, 0x01);
    assert_eq!(ZERO_FLAG, 0x02);
    assert_eq!(INTERRUPT_FLAG, 0x04);
    assert_eq!(DECIMAL_FLAG, 0x08);
    assert_eq!(BREAK_FLAG, 0x10);
    assert_eq!(INVALID_FLAG, 0x20);
    assert_eq!(OVERFOW_FLAG, 0x40);
    assert_eq!(NEGATIVE_FLAG, 0x80);
}

#[test]
fn is_flag_set_reads_one_bit() {
    assert!(is_flag_set(CARRY_FLAG, 0x01));
    assert!(!is_flag_set(CARRY_FLAG, 0xfe));
    assert!(is_flag_set(NEGATIVE_FLAG, 0x80));
    assert!(!is_flag_set(NEGATIVE_FLAG, 0x7f));
    assert!(!is_flag_set(ZERO_FLAG, 0x00));
    assert!(is_flag_set(OVERFOW_FLAG, 0xff));
}

#[test]
fn lda_ldx_ldy_load_and_flag() {
    let mut cpu = with_immediate(0x80);
    cpu.status = 0x43;
    cpu.lda(&AddressingMode::Immediate);
    assert_eq!(cpu.register_a, 0x80);
    assert_eq!(cpu.status, 0xc1);
    assert_eq!(cpu.program_counter, 0x0600);
    cpu.mem_write(0x0600, 0x00);
    cpu.ldx(&AddressingMode::Immediate);
    assert_eq!(cpu.register_x, 0x00);
    assert_eq!(cpu.status, 0x43);
    cpu.mem_write(0x0600, 0x7f);
    cpu.ldy(&AddressingMode::Immediate);
    assert_eq!(cpu.register_y, 0x7f);
    assert_eq!(cpu.status, 0x41);
    assert_eq!(cpu.register_a, 0x80);
}

#[test]
fn sta_stx_sty_store_without_flags() {
    let mut cpu = with_immediate(0x10);
    cpu.register_a = 0x00;
    cpu.register_x = 0x80;
    cpu.register_y = 0x33;
    cpu.status = 0x24;
    cpu.sta(&AddressingMode::Zeropage);
    assert_eq!(cpu.mem_read(0x0010), 0x00);
    cpu.stx(&AddressingMode::Zeropage);
    assert_eq!(cpu.mem_read(0x0010), 0x80);
    cpu.sty(&AddressingMode::Zeropage);
    assert_eq!(cpu.mem_read(0x0010), 0x33);
    assert_eq!(cpu.status, 0x24);
    assert_eq!(cpu.program_counter, 0x0600);
}

#[test]
fn transfers_copy_and_flag() {
    let mut cpu = CPU::new();
    cpu.register_a = 0x80;
    cpu.tax();
    assert_eq!(cpu.register_x, 0x80);
    assert_eq!(cpu.status, 0x80);
    cpu.register_a = 0x00;
    cpu.tay();
    assert_eq!(cpu.register_y, 0x00);
    assert_eq!(cpu.status, 0x02);
    cpu.txa();
    assert_eq!(cpu.register_a, 0x80);
    assert_eq!(cpu.status, 0x80);
    cpu.register_y = 0x01;
    cpu.tya();
    assert_eq!(cpu.register_a, 0x01);
    assert_eq!(cpu.status, 0x00);
    cpu.tsx();
    assert_eq!(cpu.register_x, 0xff);
    assert_eq!(cpu.status, 0x80);
}

#[test]
fn txs_changes_no_flag() {
    let mut cpu = CPU::new();
    cpu.register_x = 0x00;
    cpu.status = 0x80;
    cpu.txs();
    assert_eq!(cpu.stackpointer, 0x00);
    assert_eq!(cpu.status, 0x80);
    cpu.register_x = 0x80;
    cpu.status = 0x02;
    cpu.txs();
    assert_eq!(cpu.stackpointer, 0x80);
    assert_eq!(cpu.status, 0x02);
}

#[test]
fn adc_signed_overflow_into_negative() {
    let mut cpu = with_immediate(0x50);
    cpu.register_a = 0x50;
    cpu.status = CARRY_FLAG;
    cpu.adc(&AddressingMode::Immediate);
    assert_eq!(cpu.register_a, 0xa1);
    assert_eq!(cpu.status, 0xc0);
}

#[test]
fn adc_carry_out_without_overflow() {
    let mut cpu = with_immediate(0xd0);
    cpu.register_a = 0x50;
    cpu.status = CARRY_FLAG;
    cpu.adc(&AddressingMode::Immediate);
    assert_eq!(cpu.register_a, 0x21);
    assert_eq!(cpu.status, 0x01);
}

#[test]
fn adc_wraps_to_zero() {
    let mut cpu = with_immediate(0x01);
    cpu.register_a = 0xff;
    cpu.adc(&AddressingMode::Immediate);
    assert_eq!(cpu.register_a, 0x00);
    assert_eq!(cpu.status, 0x03);
}

#[test]
fn adc_all_ones_with_carry() {
    let mut cpu = with_immediate(0xff);
    cpu.register_a = 0xff;
    cpu.status = CARRY_FLAG;
    cpu.adc(&AddressingMode::Immediate);
    assert_eq!(cpu.register_a, 0xff);
    assert_eq!(cpu.status, 0x81);
}

#[test]
fn adc_two_negatives_overflow_to_positive() {
    let mut cpu = with_immediate(0x90);
    cpu.register_a = 0xd0;
    cpu.adc(&AddressingMode::Immediate);
    assert_eq!(cpu.register_a, 0x60);
    assert_eq!(cpu.status, 0x41);
}

#[test]
fn adc_ignores_decimal_mode() {
    let mut cpu = with_immediate(0x01);
    cpu.register_a = 0x09;
    cpu.status = DECIMAL_FLAG;
    cpu.adc(&AddressingMode::Immediate);
    assert_eq!(cpu.register_a, 0x0a);
    assert_eq!(cpu.status, 0x08);
}

#[test]
fn add_with_carry_keeps_other_flags() {
    let mut cpu = CPU::new();
    cpu.register_a = 0x01;
    cpu.status = 0x3c;
    cpu.add_with_carry(0x01);
    assert_eq!(cpu.register_a, 0x02);
    assert_eq!(cpu.status, 0x3c);
}

#[test]
fn sbc_without_borrow() {
    let mut cpu = with_immediate(0x10);
    cpu.register_a = 0x50;
    cpu.status = CARRY_FLAG;
    cpu.sbc(&AddressingMode::Immediate);
    assert_eq!(cpu.register_a, 0x40);
    assert_eq!(cpu.status, 0x01);
}

#[test]
fn sbc_with_borrow_in() {
    let mut cpu = with_immediate(0x10);
    cpu.register_a = 0x50;
    cpu.status = 0;
    cpu.sbc(&AddressingMode::Immediate);
    assert_eq!(cpu.register_a, 0x3f);
    assert_eq!(cpu.status, 0x01);
}

#[test]
fn sbc_borrows_below_zero() {
    let mut cpu = with_immediate(0x01);
    cpu.register_a = 0x00;
    cpu.status = CARRY_FLAG;
    cpu.sbc(&AddressingMode::Immediate);
    assert_eq!(cpu.register_a, 0xff);
    assert_eq!(cpu.status, 0x80);
}

#[test]
fn sbc_signed_overflow() {
    let mut cpu = with_immediate(0xb0);
    cpu.register_a = 0x50;
    cpu.status = CARRY_FLAG;
    cpu.sbc(&AddressingMode::Immediate);
    assert_eq!(cpu.register_a, 0xa0);
    assert_eq!(cpu.status, 0xc0);
}

#[test]
fn sbc_equal_operands_give_zero() {
    let mut cpu = with_immediate(0x42);
    cpu.register_a = 0x42;
    cpu.status = CARRY_FLAG;
    cpu.sbc(&AddressingMode::Immediate);
    assert_eq!(cpu.register_a, 0x00);
    assert_eq!(cpu.status, 0x03);
}

#[test]
fn inc_and_dec_wrap_in_memory() {
    let mut cpu = with_immediate(0x10);
    cpu.mem_write(0x0010, 0xff);
    cpu.inc(&AddressingMode::Zeropage);
    assert_eq!(cpu.mem_read(0x0010), 0x00);
    assert_eq!(cpu.status, 0x02);
    cpu.dec(&AddressingMode::Zeropage);
    assert_eq!(cpu.mem_read(0x0010), 0xff);
    assert_eq!(cpu.status, 0x80);
    cpu.dec(&AddressingMode::Zeropage);
    assert_eq!(cpu.mem_read(0x0010), 0xfe);
    assert_eq!(cpu.register_a, 0);
}

#[test]
fn index_registers_wrap() {
    let mut cpu = CPU::new();
    cpu.register_x = 0xff;
    cpu.inx();
    assert_eq!(cpu.register_x, 0x00);
    assert_eq!(cpu.status, 0x02);
    cpu.dex();
    assert_eq!(cpu.register_x, 0xff);
    assert_eq!(cpu.status, 0x80);
    cpu.register_y = 0x7f;
    cpu.iny();
    assert_eq!(cpu.register_y, 0x80);
    assert_eq!(cpu.status, 0x80);
    cpu.dey();
    assert_eq!(cpu.register_y, 0x7f);
    assert_eq!(cpu.status, 0x00);
    cpu.register_y = 0x00;
    cpu.dey();
    assert_eq!(cpu.register_y, 0xff);
}

#[test]
fn and_ora_eor() {
    let mut cpu = with_immediate(0xaa);
    cpu.register_a = 0x5d;
    cpu.and(&AddressingMode::Immediate);
    assert_eq!(cpu.register_a, 0x08);
    assert_eq!(cpu.status, 0x00);
    cpu.register_a = 0x55;
    cpu.and(&AddressingMode::Immediate);
    assert_eq!(cpu.register_a, 0x00);
    assert_eq!(cpu.status, 0x02);
    cpu.register_a = 0x55;
    cpu.ora(&AddressingMode::Immediate);
    assert_eq!(cpu.register_a, 0xff);
    assert_eq!(cpu.status, 0x80);
    cpu.eor(&AddressingMode::Immediate);
    assert_eq!(cpu.register_a, 0x55);
    assert_eq!(cpu.status, 0x00);
    cpu.register_a = 0xaa;
    cpu.eor(&AddressingMode::Immediate);
    assert_eq!(cpu.register_a, 0x00);
    assert_eq!(cpu.status, 0x02);
}

#[test]
fn bit_takes_flags_from_memory_and_keeps_accumulator() {
    let mut cpu = with_immediate(0x10);
    cpu.mem_write(0x0010, 0x40);
    cpu.register_a = 0x80;
    cpu.status = 0x81;
    cpu.bit(&AddressingMode::Zeropage);
    assert_eq!(cpu.register_a, 0x80);
    assert_eq!(cpu.status, 0x43);
    cpu.mem_write(0x0010, 0xc0);
    cpu.bit(&AddressingMode::Zeropage);
    assert_eq!(cpu.status, 0xc1);
    cpu.mem_write(0x0010, 0x01);
    cpu.bit(&AddressingMode::Zeropage);
    assert_eq!(cpu.status, 0x03);
    cpu.register_a = 0x01;
    cpu.bit(&AddressingMode::Zeropage);
    assert_eq!(cpu.status, 0x01);
}

#[test]
fn compare_register_below_memory() {
    let mut cpu = with_immediate(0x20);
    cpu.register_a = 0x10;
    cpu.status = 0x03;
    cpu.cmp(&AddressingMode::Immediate);
    assert_eq!(cpu.status, 0x80);
    assert_eq!(cpu.register_a, 0x10);
    assert_eq!(cpu.mem_read(0x0600), 0x20);
}

#[test]
fn compare_register_above_memory() {
    let mut cpu = with_immediate(0x01);
    cpu.register_a = 0x80;
    cpu.cmp(&AddressingMode::Immediate);
    assert_eq!(cpu.status, 0x01);
    cpu.register_a = 0xff;
    cpu.cmp(&AddressingMode::Immediate);
    assert_eq!(cpu.status, 0x81);
}

#[test]
fn compare_modular_difference_without_sign() {
    let mut cpu = with_immediate(0xff);
    cpu.register_a = 0x01;
    cpu.cmp(&AddressingMode::Immediate);
    assert_eq!(cpu.status, 0x00);
}

#[test]
fn compare_equal() {
    let mut cpu = with_immediate(0x40);
    cpu.register_a = 0x40;
    cpu.status = 0x40;
    cpu.cmp(&AddressingMode::Immediate);
    assert_eq!(cpu.status, 0x43);
}

#[test]
fn cpx_and_cpy_compare_their_register() {
    let mut cpu = with_immediate(0x30);
    cpu.register_a = 0x30;
    cpu.register_x = 0x2f;
    cpu.register_y = 0x31;
    cpu.cpx(&AddressingMode::Immediate);
    assert_eq!(cpu.status, 0x80);
    cpu.cpy(&AddressingMode::Immediate);
    assert_eq!(cpu.status, 0x01);
    cpu.register_x = 0x30;
    cpu.cpx(&AddressingMode::Immediate);
    assert_eq!(cpu.status, 0x03);
    assert_eq!(cpu.register_x, 0x30);
    assert_eq!(cpu.register_y, 0x31);
}

#[test]
fn asl_accumulator_and_memory() {
    let mut cpu = with_immediate(0x10);
    cpu.register_a = 0x81;
    cpu.asl(&AddressingMode::Accumulator);
    assert_eq!(cpu.register_a, 0x02);
    assert_eq!(cpu.status, 0x01);
    cpu.mem_write(0x0010, 0x40);
    cpu.asl(&AddressingMode::Zeropage);
    assert_eq!(cpu.mem_read(0x0010), 0x80);
    assert_eq!(cpu.status, 0x80);
    assert_eq!(cpu.register_a, 0x02);
}

#[test]
fn lsr_accumulator_and_memory() {
    let mut cpu = with_immediate(0x10);
    cpu.register_a = 0x01;
    cpu.status = 0x80;
    cpu.lsr(&AddressingMode::Accumulator);
    assert_eq!(cpu.register_a, 0x00);
    assert_eq!(cpu.status, 0x03);
    cpu.mem_write(0x0010, 0xfe);
    cpu.lsr(&AddressingMode::Zeropage);
    assert_eq!(cpu.mem_read(0x0010), 0x7f);
    assert_eq!(cpu.status, 0x00);
}

#[test]
fn rol_routes_carry_into_bit_zero() {
    let mut cpu = with_immediate(0x10);
    cpu.register_a = 0x80;
    cpu.status = CARRY_FLAG;
    cpu.rol(&AddressingMode::Accumulator);
    assert_eq!(cpu.register_a, 0x01);
    assert_eq!(cpu.status, 0x01);
    cpu.register_a = 0x40;
    cpu.status = 0;
    cpu.rol(&AddressingMode::Accumulator);
    assert_eq!(cpu.register_a, 0x80);
    assert_eq!(cpu.status, 0x80);
    cpu.mem_write(0x0010, 0xff);
    cpu.status = 0;
    cpu.rol(&AddressingMode::Zeropage);
    assert_eq!(cpu.mem_read(0x0010), 0xfe);
    assert_eq!(cpu.status, 0x81);
}

#[test]
fn ror_routes_carry_into_bit_seven() {
    let mut cpu = with_immediate(0x10);
    cpu.register_a = 0x01;
    cpu.status = CARRY_FLAG;
    cpu.ror(&AddressingMode::Accumulator);
    assert_eq!(cpu.register_a, 0x80);
    assert_eq!(cpu.status, 0x81);
    cpu.register_a = 0x02;
    cpu.status = 0;
    cpu.ror(&AddressingMode::Accumulator);
    assert_eq!(cpu.register_a, 0x01);
    assert_eq!(cpu.status, 0x00);
    cpu.mem_write(0x0010, 0x01);
    cpu.status = 0;
    cpu.ror(&AddressingMode::Zeropage);
    assert_eq!(cpu.mem_read(0x0010), 0x00);
    assert_eq!(cpu.status, 0x03);
}

#[test]
fn flag_instructions_touch_one_flag() {
    let mut cpu = CPU::new();
    cpu.sec();
    assert_eq!(cpu.status, 0x01);
    cpu.sei();
    assert_eq!(cpu.status, 0x05);
    cpu.sed();
    assert_eq!(cpu.status, 0x0d);
    cpu.status = 0xff;
    cpu.clc();
    assert_eq!(cpu.status, 0xfe);
    cpu.cli();
    assert_eq!(cpu.status, 0xfa);
    cpu.cld();
    assert_eq!(cpu.status, 0xf2);
    cpu.clv();
    assert_eq!(cpu.status, 0xb2);
}

#[test]
fn branches_taken_and_not_taken() {
    let relative = AddressingMode::Relative;
    let mut cpu = CPU::new();
    cpu.mem_write(0x0600, 0x10);

    cpu.program_counter = 0x0600;
    cpu.status = 0;
    cpu.bcc(&relative);
    assert_eq!(cpu.program_counter, 0x0611);
    cpu.program_counter = 0x0600;
    cpu.status = CARRY_FLAG;
    cpu.bcc(&relative);
    assert_eq!(cpu.program_counter, 0x0601);

    cpu.program_counter = 0x0600;
    cpu.bcs(&relative);
    assert_eq!(cpu.program_counter, 0x0611);
    cpu.program_counter = 0x0600;
    cpu.status = 0;
    cpu.bcs(&relative);
    assert_eq!(cpu.program_counter, 0x0601);

    cpu.program_counter = 0x0600;
    cpu.bne(&relative);
    assert_eq!(cpu.program_counter, 0x0611);
    cpu.program_counter = 0x0600;
    cpu.status = ZERO_FLAG;
    cpu.bne(&relative);
    assert_eq!(cpu.program_counter, 0x0601);

    cpu.program_counter = 0x0600;
    cpu.beq(&relative);
    assert_eq!(cpu.program_counter, 0x0611);
    cpu.program_counter = 0x0600;
    cpu.status = 0;
    cpu.beq(&relative);
    assert_eq!(cpu.program_counter, 0x0601);

    cpu.program_counter = 0x0600;
    cpu.bpl(&relative);
    assert_eq!(cpu.program_counter, 0x0611);
    cpu.program_counter = 0x0600;
    cpu.status = NEGATIVE_FLAG;
    cpu.bpl(&relative);
    assert_eq!(cpu.program_counter, 0x0601);

    cpu.program_counter = 0x0600;
    cpu.bmi(&relative);
    assert_eq!(cpu.program_counter, 0x0611);
    cpu.program_counter = 0x0600;
    cpu.status = 0;
    cpu.bmi(&relative);
    assert_eq!(cpu.program_counter, 0x0601);

    cpu.program_counter = 0x0600;
    cpu.bvc(&relative);
    assert_eq!(cpu.program_counter, 0x0611);
    cpu.program_counter = 0x0600;
    cpu.status = OVERFOW_FLAG;
    cpu.bvc(&relative);
    assert_eq!(cpu.program_counter, 0x0601);

    cpu.program_counter = 0x0600;
    cpu.bvs(&relative);
    assert_eq!(cpu.program_counter, 0x0611);
    cpu.program_counter = 0x0600;
    cpu.status = 0;
    cpu.bvs(&relative);
    assert_eq!(cpu.program_counter, 0x0601);
    assert_eq!(cpu.status, 0);
}

#[test]
fn branch_to_itself_is_taken() {
    let mut cpu = CPU::new();
    cpu.program_counter = 0x0601;
    cpu.mem_write(0x0601, 0xfe);
    cpu.branch(&AddressingMode::Relative, true);
    assert_eq!(cpu.program_counter, 0x0600);
    cpu.program_counter = 0x0601;
    cpu.mem_write(0x0601, 0xff);
    cpu.branch(&AddressingMode::Relative, true);
    assert_eq!(cpu.program_counter, 0x0601);
    cpu.branch(&AddressingMode::Relative, false);
    assert_eq!(cpu.program_counter, 0x0602);
}

#[test]
fn jmp_absolute() {
    let mut cpu = CPU::new();
    cpu.program_counter = 0x0600;
    cpu.mem_write_u16(0x0600, 0x1234);
    cpu.jmp(&AddressingMode::Absolute);
    assert_eq!(cpu.program_counter, 0x1234);
}

#[test]
fn jmp_indirect() {
    let mut cpu = CPU::new();
    cpu.program_counter = 0x0600;
    cpu.mem_write_u16(0x0600, 0x2000);
    cpu.mem_write_u16(0x2000, 0x3456);
    cpu.jmp(&AddressingMode::Indirect);
    assert_eq!(cpu.program_counter, 0x3456);
}

#[test]
fn jmp_indirect_wraps_within_the_page() {
    let mut cpu = CPU::new();
    cpu.program_counter = 0x0600;
    cpu.mem_write_u16(0x0600, 0x10ff);
    cpu.mem_write(0x10ff, 0x34);
    cpu.mem_write(0x1000, 0x12);
    cpu.mem_write(0x1100, 0x56);
    cpu.jmp(&AddressingMode::Indirect);
    assert_eq!(cpu.program_counter, 0x1234);
}

#[test]
fn jsr_pushes_last_byte_of_instruction() {
    let mut cpu = CPU::new();
    cpu.program_counter = 0x8001;
    cpu.mem_write_u16(0x8001, 0x9000);
    cpu.jsr(&AddressingMode::Absolute);
    assert_eq!(cpu.program_counter, 0x9000);
    assert_eq!(cpu.mem_read(0x01ff), 0x80);
    assert_eq!(cpu.mem_read(0x01fe), 0x02);
    assert_eq!(cpu.stackpointer, 0xfd);
    cpu.rts();
    assert_eq!(cpu.program_counter, 0x8003);
    assert_eq!(cpu.stackpointer, 0xff);
}

#[test]
fn rts_adds_one_to_the_address_pulled() {
    let mut cpu = CPU::new();
    cpu.stackpointer = 0x7d;
    cpu.mem_write(0x017e, 0xff);
    cpu.mem_write(0x017f, 0x12);
    cpu.rts();
    assert_eq!(cpu.program_counter, 0x1300);
    assert_eq!(cpu.stackpointer, 0x7f);
    cpu.stackpointer = 0x7d;
    cpu.mem_write(0x017f, 0xff);
    cpu.rts();
    assert_eq!(cpu.program_counter, 0x0000);
}

#[test]
fn rti_pulls_status_then_program_counter() {
    let mut cpu = CPU::new();
    cpu.stackpointer = 0xfc;
    cpu.mem_write(0x01fd, 0xd3);
    cpu.mem_write(0x01fe, 0x34);
    cpu.mem_write(0x01ff, 0x12);
    cpu.rti();
    assert_eq!(cpu.status, 0xe3);
    assert_eq!(cpu.program_counter, 0x1234);
    assert_eq!(cpu.stackpointer, 0xff);
}

#[test]
fn brk_pushes_return_address_and_status() {
    let mut cpu = CPU::new();
    cpu.program_counter = 0x8001;
    cpu.status = 0x01;
    cpu.mem_write_u16(0xfffe, 0x9000);
    cpu.brk();
    assert_eq!(cpu.mem_read(0x01ff), 0x80);
    assert_eq!(cpu.mem_read(0x01fe), 0x02);
    assert_eq!(cpu.mem_read(0x01fd), 0x31);
    assert_eq!(cpu.stackpointer, 0xfc);
    assert_eq!(cpu.status, 0x05);
    assert_eq!(cpu.program_counter, 0x9000);
}

#[test]
fn brk_then_rti_comes_back() {
    let mut cpu = CPU::new();
    cpu.program_counter = 0x8001;
    cpu.status = 0xc1;
    cpu.mem_write_u16(0xfffe, 0x9000);
    cpu.brk();
    cpu.rti();
    assert_eq!(cpu.program_counter, 0x8002);
    assert_eq!(cpu.status, 0xe1);
    assert_eq!(cpu.stackpointer, 0xff);
}

#[test]
fn stack_pushes_down_and_pulls_up() {
    let mut cpu = CPU::new();
    cpu.push_byte(0x11);
    cpu.push_byte(0x22);
    assert_eq!(cpu.mem_read(0x01ff), 0x11);
    assert_eq!(cpu.mem_read(0x01fe), 0x22);
    assert_eq!(cpu.stackpointer, 0xfd);
    assert_eq!(cpu.pop_byte(), 0x22);
    assert_eq!(cpu.pop_byte(), 0x11);
    assert_eq!(cpu.stackpointer, 0xff);
}

#[test]
fn stack_pointer_wraps_within_its_page() {
    let mut cpu = CPU::new();
    cpu.stackpointer = 0x00;
    cpu.push_byte(0x77);
    assert_eq!(cpu.mem_read(0x0100), 0x77);
    assert_eq!(cpu.stackpointer, 0xff);
    assert_eq!(cpu.mem_read(0x00ff), 0x00);
    assert_eq!(cpu.pop_byte(), 0x77);
    assert_eq!(cpu.stackpointer, 0x00);
}

#[test]
fn push_word_is_high_byte_first() {
    let mut cpu = CPU::new();
    cpu.push(0xabcd);
    assert_eq!(cpu.mem_read(0x01ff), 0xab);
    assert_eq!(cpu.mem_read(0x01fe), 0xcd);
    assert_eq!(cpu.stackpointer, 0xfd);
    assert_eq!(cpu.pop_pc(), 0xabcd);
    assert_eq!(cpu.stackpointer, 0xff);
}

#[test]
fn push_pc_pushes_program_counter_plus_one() {
    let mut cpu = CPU::new();
    cpu.program_counter = 0x12ff;
    cpu.push_pc();
    assert_eq!(cpu.mem_read(0x01ff), 0x13);
    assert_eq!(cpu.mem_read(0x01fe), 0x00);
    assert_eq!(cpu.program_counter, 0x12ff);
    cpu.program_counter = 0xffff;
    cpu.push_pc();
    assert_eq!(cpu.mem_read(0x01fd), 0x00);
    assert_eq!(cpu.mem_read(0x01fc), 0x00);
}

#[test]
fn pop_flag_sets_bit_five() {
    let mut cpu = CPU::new();
    cpu.push_byte(0x81);
    assert_eq!(cpu.pop_flag(), 0xa1);
    cpu.push_byte(0x10);
    assert_eq!(cpu.pop_flag(), 0x30);
}

#[test]
fn pla_flags_the_value_pulled() {
    let mut cpu = CPU::new();
    cpu.register_a = 0x80;
    cpu.pha();
    cpu.register_a = 0x00;
    cpu.pha();
    cpu.register_a = 0x55;
    cpu.pla();
    assert_eq!(cpu.register_a, 0x00);
    assert_eq!(cpu.status, 0x02);
    cpu.pla();
    assert_eq!(cpu.register_a, 0x80);
    assert_eq!(cpu.status, 0x80);
    assert_eq!(cpu.stackpointer, 0xff);
}

#[test]
fn php_pushes_break_and_bit_five() {
    let mut cpu = CPU::new();
    cpu.status = 0xc1;
    cpu.php();
    assert_eq!(cpu.mem_read(0x01ff), 0xf1);
    assert_eq!(cpu.status, 0xc1);
    assert_eq!(cpu.stackpointer, 0xfe);
}

#[test]
fn plp_keeps_break_and_sets_bit_five() {
    let mut cpu = CPU::new();
    cpu.push_byte(0x00);
    cpu.status = 0xff;
    cpu.plp();
    assert_eq!(cpu.status, 0x30);
    assert_eq!(cpu.stackpointer, 0xff);
    cpu.push_byte(0xdf);
    cpu.status = 0x00;
    cpu.plp();
    assert_eq!(cpu.status, 0xef);
    cpu.push_byte(0x10);
    cpu.status = 0x00;
    cpu.plp();
    assert_eq!(cpu.status, 0x20);
    cpu.push_byte(0x31);
    cpu.status = 0x00;
    cpu.plp();
    assert_eq!(cpu.status, 0x21);
    cpu.push_byte(0xc3);
    cpu.status = 0x10;
    cpu.plp();
    assert_eq!(cpu.status, 0xf3);
}

#[test]
fn php_then_plp_restores_every_flag() {
    let mut cpu = CPU::new();
    for p in 0..=255u8 {
        cpu.status = p;
        cpu.php();
        assert_eq!(cpu.mem_read(0x01ff), p | 0x30);
        cpu.plp();
        assert_eq!(cpu.status, p | 0x20);
        assert_eq!(cpu.stackpointer, 0xff);
    }
}
