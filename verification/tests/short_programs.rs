//! Short programs and the state they leave behind.

use mos6502::CPU;

#[test]
fn load_immediate_clears_zero_and_negative() {
    let mut cpu = CPU::new();
    cpu.load_and_run(vec![0xa9, 0x05, 0x00]).unwrap();
    assert_eq!(cpu.register_a, 0x05);
    assert_eq!(cpu.status & 0x02, 0);
    assert_eq!(cpu.status & 0x80, 0);
}

#[test]
fn load_immediate_zero_sets_zero() {
    let mut cpu = CPU::new();
    cpu.load_and_run(vec![0xa9, 0x00, 0x00]).unwrap();
    assert_eq!(cpu.register_a, 0x00);
    assert_eq!(cpu.status & 0x02, 0x02);
}

#[test]
fn inx_wraps_past_255() {
    let mut cpu = CPU::new();
    cpu.load_and_run(vec![0xa9, 0xff, 0xaa, 0xe8, 0xe8, 0x00]).unwrap();
    assert_eq!(cpu.register_x, 0x01);
}

#[test]
fn adc_with_carry_in_overflows() {
    let mut cpu = CPU::new();
    cpu.load_and_run(vec![0x38, 0xa9, 0x50, 0x69, 0x50, 0x00]).unwrap();
    assert_eq!(cpu.register_a, 0xa1);
    assert_eq!(cpu.status & 0x40, 0x40);
    assert_eq!(cpu.status & 0x80, 0x80);
    assert_eq!(cpu.status & 0x01, 0x00);
}

#[test]
fn adc_with_carry_in_carries_out() {
    let mut cpu = CPU::new();
    cpu.load_and_run(vec![0x38, 0xa9, 0x50, 0x69, 0xd0, 0x00]).unwrap();
    assert_eq!(cpu.register_a, 0x21);
    assert_eq!(cpu.status & 0x01, 0x01);
    assert_eq!(cpu.status & 0x40, 0x00);
}

#[test]
fn bit_against_preloaded_memory() {
    let mut cpu = CPU::new();
    cpu.mem_write(0x0000, 0x40);
    cpu.load(vec![0xa9, 0x80, 0x2c, 0x00, 0x00]);
    cpu.reset();
    cpu.run().unwrap();
    assert_eq!(cpu.status & 0x40, 0x40);
    assert_eq!(cpu.status & 0x80, 0x00);
    assert_eq!(cpu.status & 0x02, 0x02);
    assert_eq!(cpu.register_a, 0x80);
}

#[test]
fn bit_with_a_shared_bit_clears_zero() {
    let mut cpu = CPU::new();
    cpu.mem_write(0x0000, 0xc0);
    cpu.load(vec![0xa9, 0x80, 0x2c, 0x00, 0x00]);
    cpu.reset();
    cpu.run().unwrap();
    assert_eq!(cpu.status & 0x40, 0x40);
    assert_eq!(cpu.status & 0x80, 0x80);
    assert_eq!(cpu.status & 0x02, 0x00);
}

#[test]
fn branch_taken_skips_two_increments() {
    let mut cpu = CPU::new();
    cpu.load_and_run(vec![0x90, 0x02, 0xe8, 0xe8, 0xe8, 0x00]).unwrap();
    assert_eq!(cpu.register_x, 1);
}

#[test]
fn branch_not_taken_runs_all_increments() {
    let mut cpu = CPU::new();
    cpu.load_and_run(vec![0x38, 0x90, 0x02, 0xe8, 0xe8, 0xe8, 0x00]).unwrap();
    assert_eq!(cpu.register_x, 3);
}

#[test]
fn two_pushes_fill_the_top_of_the_stack() {
    let mut cpu = CPU::new();
    cpu.load_and_run(vec![0xa9, 0x50, 0x48, 0xa9, 0x05, 0x48, 0x00]).unwrap();
    assert_eq!(cpu.mem_read(0x01ff), 0x50);
    assert_eq!(cpu.mem_read(0x01fe), 0x05);
    assert_eq!(cpu.stackpointer, 0xfd);
}

#[test]
fn txs_sets_the_stack_pointer() {
    let mut cpu = CPU::new();
    cpu.load_and_run(vec![0xa2, 0x50, 0x9a, 0x00]).unwrap();
    assert_eq!(cpu.stackpointer, 0x50);
}

#[test]
fn compare_below_clears_carry_and_sets_negative() {
    let mut cpu = CPU::new();
    cpu.load_and_run(vec![0xa9, 0x10, 0xc9, 0x20, 0x00]).unwrap();
    assert_eq!(cpu.status & 0x83, 0x80);
    assert_eq!(cpu.register_a, 0x10);
}

#[test]
fn sbc_sets_carry_when_no_borrow() {
    let mut cpu = CPU::new();
    cpu.load_and_run(vec![0x38, 0xa9, 0x50, 0xe9, 0x10, 0x00]).unwrap();
    assert_eq!(cpu.register_a, 0x40);
    assert_eq!(cpu.status & 0xc3, 0x01);
}

#[test]
fn sty_zeropage_x_stores_at_indexed_address() {
    let mut cpu = CPU::new();
    cpu.load_and_run(vec![0xa0, 0x77, 0xa2, 0x03, 0x94, 0x10, 0x00]).unwrap();
    assert_eq!(cpu.mem_read(0x0013), 0x77);
    assert_eq!(cpu.mem_read(0x0010), 0x00);
}

#[test]
fn decimal_flag_is_set_and_inert() {
    let mut cpu = CPU::new();
    cpu.load_and_run(vec![0xf8, 0x18, 0xa9, 0x09, 0x69, 0x01, 0x00]).unwrap();
    assert_eq!(cpu.register_a, 0x0a);
    assert_eq!(cpu.status & 0x08, 0x08);
}

#[test]
fn rti_returns_without_adding_one() {
    let mut cpu = CPU::new();
    cpu.load_and_run(vec![
        0xa9, 0x80, 0x48, 0xa9, 0x0a, 0x48, 0xa9, 0xd3, 0x48, 0x40, 0x00, 0xe8, 0x00,
    ])
    .unwrap();
    assert_eq!(cpu.program_counter, 0x800b);
    assert_eq!(cpu.status, 0xe3);
    assert_eq!(cpu.register_x, 0);
    assert_eq!(cpu.stackpointer, 0xff);
}
