//! Decoding, single steps and whole runs.

use mos6502::{decode, AddressingMode, CpuError, Instruction, Mnemonic, CPU};

fn loaded(program: Vec<u8>) -> CPU {
    let mut cpu = CPU::new();
    cpu.load(program);
    cpu.reset();
    cpu
}

#[test]
fn opcode_map_has_151_instructions() {
    let mut count = 0;
    for opcode in 0..=255u8 {
        if decode(opcode).is_some() {
            count += 1;
        }
    }
    assert_eq!(count, 151);
}

#[test]
fn opcode_map_has_56_mnemonics_and_no_instruction_twice() {
    let mut seen: Vec<Instruction> = Vec::new();
    let mut mnemonics: Vec<Mnemonic> = Vec::new();
    for opcode in 0..=255u8 {
        if let Some(instruction) = decode(opcode) {
            assert!(!seen.contains(&instruction));
            seen.push(instruction);
            if !mnemonics.contains(&instruction.mnemonic) {
                mnemonics.push(instruction.mnemonic);
            }
        }
    }
    assert_eq!(mnemonics.len(), 56);
}

#[test]
fn decode_known_opcodes() {
    assert_eq!(
        decode(0x00),
        Some(Instruction { mnemonic: Mnemonic::Brk, mode: AddressingMode::NoneAddressinng })
    );
    assert_eq!(
        decode(0xa9),
        Some(Instruction { mnemonic: Mnemonic::Lda, mode: AddressingMode::Immediate })
    );
    assert_eq!(
        decode(0x6c),
        Some(Instruction { mnemonic: Mnemonic::Jmp, mode: AddressingMode::Indirect })
    );
    assert_eq!(
        decode(0x4c),
        Some(Instruction { mnemonic: Mnemonic::Jmp, mode: AddressingMode::Absolute })
    );
    assert_eq!(
        decode(0x94),
        Some(Instruction { mnemonic: Mnemonic::Sty, mode: AddressingMode::Zeropage_X })
    );
    assert_eq!(
        decode(0x96),
        Some(Instruction { mnemonic: Mnemonic::Stx, mode: AddressingMode::Zeropage_Y })
    );
    assert_eq!(
        decode(0xb6),
        Some(Instruction { mnemonic: Mnemonic::Ldx, mode: AddressingMode::Zeropage_Y })
    );
    assert_eq!(
        decode(0xbe),
        Some(Instruction { mnemonic: Mnemonic::Ldx, mode: AddressingMode::Absolute_Y })
    );
    assert_eq!(
        decode(0x0a),
        Some(Instruction { mnemonic: Mnemonic::Asl, mode: AddressingMode::Accumulator })
    );
    assert_eq!(
        decode(0x91),
        Some(Instruction { mnemonic: Mnemonic::Sta, mode: AddressingMode::Indirect_Y })
    );
    assert_eq!(
        decode(0xea),
        Some(Instruction { mnemonic: Mnemonic::Nop, mode: AddressingMode::NoneAddressinng })
    );
    assert_eq!(
        decode(0x20),
        Some(Instruction { mnemonic: Mnemonic::Jsr, mode: AddressingMode::Absolute })
    );
    assert_eq!(
        decode(0xf0),
        Some(Instruction { mnemonic: Mnemonic::Beq, mode: AddressingMode::Relative })
    );
}

#[test]
fn decode_illegal_opcodes() {
    assert_eq!(decode(0x02), None);
    assert_eq!(decode(0x03), None);
    assert_eq!(decode(0x80), None);
    assert_eq!(decode(0x89), None);
    assert_eq!(decode(0x9e), None);
    assert_eq!(decode(0xff), None);
}

#[test]
fn controls_flow_names_branches_and_jumps() {
    assert!(Mnemonic::Bcc.controls_flow());
    assert!(Mnemonic::Jmp.controls_flow());
    assert!(Mnemonic::Jsr.controls_flow());
    assert!(Mnemonic::Rts.controls_flow());
    assert!(Mnemonic::Rti.controls_flow());
    assert!(Mnemonic::Brk.controls_flow());
    assert!(!Mnemonic::Lda.controls_flow());
    assert!(!Mnemonic::Nop.controls_flow());
    assert!(!Mnemonic::Pha.controls_flow());
}

#[test]
fn step_advances_past_operand_bytes() {
    let mut cpu = loaded(vec![0xa9, 0x05, 0xad, 0x00, 0x80, 0xaa]);
    assert_eq!(cpu.program_counter, 0x8000);
    assert_eq!(cpu.step(), Ok(()));
    assert_eq!(cpu.program_counter, 0x8002);
    assert_eq!(cpu.register_a, 0x05);
    assert_eq!(cpu.step(), Ok(()));
    assert_eq!(cpu.program_counter, 0x8005);
    assert_eq!(cpu.register_a, 0xa9);
    assert_eq!(cpu.step(), Ok(()));
    assert_eq!(cpu.program_counter, 0x8006);
    assert_eq!(cpu.register_x, 0xa9);
}

#[test]
fn step_on_nop_only_advances() {
    let mut cpu = loaded(vec![0xea]);
    cpu.status = 0x24;
    assert_eq!(cpu.step(), Ok(()));
    assert_eq!(cpu.program_counter, 0x8001);
    assert_eq!(cpu.status, 0x24);
    assert_eq!(cpu.register_a, 0);
    assert_eq!(cpu.stackpointer, 0xff);
}

#[test]
fn step_on_brk_performs_the_interrupt() {
    let mut cpu = loaded(vec![0x00]);
    cpu.mem_write_u16(0xfffe, 0x9000);
    cpu.status = 0x01;
    assert_eq!(cpu.step(), Ok(()));
    assert_eq!(cpu.program_counter, 0x9000);
    assert_eq!(cpu.mem_read(0x01ff), 0x80);
    assert_eq!(cpu.mem_read(0x01fe), 0x02);
    assert_eq!(cpu.mem_read(0x01fd), 0x31);
    assert_eq!(cpu.stackpointer, 0xfc);
    assert_eq!(cpu.status, 0x05);
}

#[test]
fn step_on_illegal_opcode_fails() {
    let mut cpu = loaded(vec![0x02]);
    cpu.register_a = 7;
    assert_eq!(cpu.step(), Err(CpuError::IllegalOpcode { pc: 0x8000, opcode: 0x02 }));
    assert_eq!(cpu.program_counter, 0x8001);
    assert_eq!(cpu.register_a, 7);
    assert_eq!(cpu.stackpointer, 0xff);
}

#[test]
fn step_wraps_program_counter_at_top_of_memory() {
    let mut cpu = CPU::new();
    cpu.mem_write(0xffff, 0xa9);
    cpu.mem_write(0x0000, 0x42);
    cpu.program_counter = 0xffff;
    assert_eq!(cpu.step(), Ok(()));
    assert_eq!(cpu.register_a, 0x42);
    assert_eq!(cpu.program_counter, 0x0001);
}

#[test]
fn perform_runs_handler_then_advances() {
    let mut cpu = CPU::new();
    cpu.program_counter = 0x0600;
    cpu.mem_write(0x0600, 0x33);
    cpu.perform(Instruction { mnemonic: Mnemonic::Ldx, mode: AddressingMode::Immediate });
    assert_eq!(cpu.register_x, 0x33);
    assert_eq!(cpu.program_counter, 0x0601);
    cpu.mem_write_u16(0x0601, 0x1234);
    cpu.perform(Instruction { mnemonic: Mnemonic::Jmp, mode: AddressingMode::Absolute });
    assert_eq!(cpu.program_counter, 0x1234);
}

#[test]
fn execute_leaves_program_counter_to_the_loop() {
    let mut cpu = CPU::new();
    cpu.program_counter = 0x0600;
    cpu.mem_write(0x0600, 0x33);
    cpu.execute(Mnemonic::Lda, &AddressingMode::Immediate);
    assert_eq!(cpu.register_a, 0x33);
    assert_eq!(cpu.program_counter, 0x0600);
    cpu.execute(Mnemonic::Nop, &AddressingMode::NoneAddressinng);
    assert_eq!(cpu.register_a, 0x33);
    assert_eq!(cpu.program_counter, 0x0600);
}

#[test]
fn fetch_reads_opcode_and_advances() {
    let mut cpu = loaded(vec![0xe8]);
    assert_eq!(cpu.fetch(), 0xe8);
    assert_eq!(cpu.program_counter, 0x8001);
    assert_eq!(cpu.register_x, 0);
}

#[test]
fn run_ends_at_brk_without_performing_it() {
    let mut cpu = loaded(vec![0xe8, 0x00]);
    cpu.mem_write_u16(0xfffe, 0x9000);
    assert_eq!(cpu.run(), Ok(()));
    assert_eq!(cpu.register_x, 1);
    assert_eq!(cpu.program_counter, 0x8002);
    assert_eq!(cpu.stackpointer, 0xff);
    assert_eq!(cpu.status, 0x00);
    assert_eq!(cpu.mem_read(0x01ff), 0x00);
}

#[test]
fn run_on_fresh_machine_stops_at_once() {
    let mut cpu = CPU::new();
    assert_eq!(cpu.run(), Ok(()));
    assert_eq!(cpu.program_counter, 0x0001);
    assert_eq!(cpu.stackpointer, 0xff);
}

#[test]
fn run_reports_illegal_opcode_with_its_address() {
    let mut cpu = CPU::new();
    let result = cpu.load_and_run(vec![0xa9, 0x01, 0x02, 0xe8, 0x00]);
    assert_eq!(result, Err(CpuError::IllegalOpcode { pc: 0x8002, opcode: 0x02 }));
    assert_eq!(cpu.register_a, 0x01);
    assert_eq!(cpu.register_x, 0x00);
    assert_eq!(cpu.program_counter, 0x8003);
}

#[test]
fn run_through_subroutine_and_back() {
    let mut cpu = CPU::new();
    let result = cpu.load_and_run(vec![0x20, 0x06, 0x80, 0xe8, 0x00, 0x00, 0xc8, 0x60]);
    assert_eq!(result, Ok(()));
    assert_eq!(cpu.register_y, 1);
    assert_eq!(cpu.register_x, 1);
    assert_eq!(cpu.stackpointer, 0xff);
    assert_eq!(cpu.program_counter, 0x8005);
    assert_eq!(cpu.mem_read(0x01ff), 0x80);
    assert_eq!(cpu.mem_read(0x01fe), 0x02);
}

#[test]
fn run_jumps_indirect_through_page_end() {
    let mut cpu = CPU::new();
    cpu.mem_write(0x02ff, 0x00);
    cpu.mem_write(0x0200, 0x03);
    cpu.mem_write(0x0300, 0xe8);
    cpu.mem_write(0xe800, 0xc8);
    let result = cpu.load_and_run(vec![0x6c, 0xff, 0x02]);
    assert_eq!(result, Ok(()));
    assert_eq!(cpu.register_x, 1);
    assert_eq!(cpu.register_y, 0);
    assert_eq!(cpu.program_counter, 0x0302);
}

#[test]
fn run_counts_down_with_a_backward_branch() {
    let mut cpu = CPU::new();
    let result = cpu.load_and_run(vec![0xa2, 0x05, 0xc8, 0xca, 0xd0, 0xfc, 0x00]);
    assert_eq!(result, Ok(()));
    assert_eq!(cpu.register_x, 0);
    assert_eq!(cpu.register_y, 5);
    assert_eq!(cpu.program_counter, 0x8007);
}

#[test]
fn run_within_gives_up_on_endless_loop() {
    let mut cpu = loaded(vec![0xe8, 0x4c, 0x00, 0x80]);
    assert_eq!(cpu.run_within(10), Ok(false));
    assert_eq!(cpu.register_x, 5);
    assert_eq!(cpu.program_counter, 0x8000);
    assert_eq!(cpu.run_within(1), Ok(false));
    assert_eq!(cpu.register_x, 6);
    assert_eq!(cpu.program_counter, 0x8001);
}

#[test]
fn run_within_stops_where_run_stops() {
    let mut cpu = loaded(vec![0xe8, 0xe8, 0x00]);
    assert_eq!(cpu.run_within(2), Ok(true));
    assert_eq!(cpu.register_x, 2);
    assert_eq!(cpu.program_counter, 0x8003);
    let mut cpu = loaded(vec![0xe8, 0xe8, 0x00]);
    assert_eq!(cpu.run_within(1), Ok(false));
    assert_eq!(cpu.register_x, 1);
    assert_eq!(cpu.program_counter, 0x8001);
    assert_eq!(cpu.run_within(0), Ok(false));
    assert_eq!(cpu.program_counter, 0x8001);
    assert_eq!(cpu.run_within(1000), Ok(true));
    assert_eq!(cpu.register_x, 2);
    assert_eq!(cpu.program_counter, 0x8003);
}

#[test]
fn run_within_zero_steps_sees_a_stop_at_hand() {
    let mut cpu = loaded(vec![0x00]);
    assert_eq!(cpu.run_within(0), Ok(true));
    assert_eq!(cpu.program_counter, 0x8001);
    let mut cpu = loaded(vec![0xff]);
    assert_eq!(cpu.run_within(0), Err(CpuError::IllegalOpcode { pc: 0x8000, opcode: 0xff }));
    assert_eq!(cpu.program_counter, 0x8001);
}

#[test]
fn run_within_reports_illegal_opcode() {
    let mut cpu = loaded(vec![0xc8, 0x9e]);
    assert_eq!(cpu.run_within(5), Err(CpuError::IllegalOpcode { pc: 0x8001, opcode: 0x9e }));
    assert_eq!(cpu.register_y, 1);
    assert_eq!(cpu.program_counter, 0x8002);
}

#[test]
fn every_legal_opcode_steps_without_error() {
    for opcode in 0..=255u8 {
        let mut cpu = loaded(vec![opcode, 0x10, 0x02]);
        let result = cpu.step();
        match decode(opcode) {
            Some(_) => assert_eq!(result, Ok(())),
            None => assert_eq!(result, Err(CpuError::IllegalOpcode { pc: 0x8000, opcode })),
        }
    }
}

#[test]
fn straight_line_opcodes_advance_by_their_length() {
    for opcode in 0..=255u8 {
        if let Some(instruction) = decode(opcode) {
            if instruction.mnemonic.controls_flow() {
                continue;
            }
            let mut cpu = loaded(vec![opcode, 0x10, 0x02]);
            cpu.step().unwrap();
            assert_eq!(cpu.program_counter, 0x8001 + instruction.mode.operand_bytes());
        }
    }
}
