use nes_core::cpu::{AddressingMode, CPU, CARRY_FLAG, NEGATIVE_FLAG, OVERFLOW_FLAG, ZERO_FLAG};

#[test]
fn test_lda_from_memory() {
    let mut cpu = CPU::new();
    let _ = cpu.memory_write(0x10, 0x55);
    let _ = cpu.load_and_run(vec![0x55, 0x10, 0x00]);
    assert_eq!(cpu.register_a, 0x55);
}

#[test]
fn lda_immediate_sets_value_and_flags() {
    let mut cpu = CPU::new();
    cpu.load(vec![0xA9, 0x05, 0x00]);
    cpu.reset();
    let cycles = cpu.step_machine().unwrap();
    assert_eq!(cycles, 2);
    assert_eq!(cpu.register_a, 0x05);
    assert_eq!(cpu.status & ZERO_FLAG, 0);
    assert_eq!(cpu.status & NEGATIVE_FLAG, 0);
}

#[test]
fn lda_zero_sets_zero_flag() {
    let mut cpu = CPU::new();
    let _ = cpu.load_and_run(vec![0xA9, 0x00, 0x00]);
    assert_ne!(cpu.status & ZERO_FLAG, 0);
}

#[test]
fn lda_negative_sets_negative_flag() {
    let mut cpu = CPU::new();
    let _ = cpu.load_and_run(vec![0xA9, 0x80, 0x00]);
    assert_ne!(cpu.status & NEGATIVE_FLAG, 0);
}

#[test]
fn tax_copies_accumulator() {
    let mut cpu = CPU::new();
    let _ = cpu.load_and_run(vec![0xA9, 0x0A, 0xAA, 0x00]);
    assert_eq!(cpu.register_x, 0x0A);
}

#[test]
fn five_ops_work_together() {
    let mut cpu = CPU::new();
    let _ = cpu.load_and_run(vec![0xA9, 0xC0, 0xAA, 0xE8, 0x00]);
    assert_eq!(cpu.register_x, 0xC1);
}

#[test]
fn inx_wraps_at_255() {
    let mut cpu = CPU::new();
    let _ = cpu.load_and_run(vec![0xA9, 0xFF, 0xAA, 0xE8, 0xE8, 0x00]);
    assert_eq!(cpu.register_x, 0x01);
}

#[test]
fn adc_sets_overflow_on_same_sign_operands() {
    // 0x50 + 0x50 = 0xA0: positive + positive gives a negative result.
    let mut cpu = CPU::new();
    let _ = cpu.load_and_run(vec![0xA9, 0x50, 0x69, 0x50, 0x00]);
    assert_eq!(cpu.register_a, 0xA0);
    assert_ne!(cpu.status & OVERFLOW_FLAG, 0);
    assert_eq!(cpu.status & CARRY_FLAG, 0);
    assert_ne!(cpu.status & NEGATIVE_FLAG, 0);
}

#[test]
fn adc_sets_carry_on_wrap() {
    let mut cpu = CPU::new();
    let _ = cpu.load_and_run(vec![0xA9, 0xFF, 0x69, 0x02, 0x00]);
    assert_eq!(cpu.register_a, 0x01);
    assert_ne!(cpu.status & CARRY_FLAG, 0);
}

#[test]
fn sbc_subtracts_with_carry_set() {
    let mut cpu = CPU::new();
    let _ = cpu.load_and_run(vec![0x38, 0xA9, 0x10, 0xE9, 0x01, 0x00]);
    assert_eq!(cpu.register_a, 0x0F);
}

#[test]
fn cmp_equal_sets_zero_and_carry() {
    let mut cpu = CPU::new();
    let _ = cpu.load_and_run(vec![0xA9, 0x10, 0xC9, 0x10, 0x00]);
    assert_ne!(cpu.status & ZERO_FLAG, 0);
    assert_ne!(cpu.status & CARRY_FLAG, 0);
}

#[test]
fn bne_taken_skips_break() {
    let mut cpu = CPU::new();
    let _ = cpu.load_and_run(vec![0xA9, 0x01, 0xD0, 0x01, 0x00, 0xA9, 0x42, 0x00]);
    assert_eq!(cpu.register_a, 0x42);
}

#[test]
fn beq_not_taken_falls_through() {
    let mut cpu = CPU::new();
    let _ = cpu.load_and_run(vec![0xA9, 0x01, 0xF0, 0x02, 0xA9, 0x07, 0x00]);
    assert_eq!(cpu.register_a, 0x07);
}

#[test]
fn branch_cycle_costs() {
    // Not taken: 2 cycles; taken without page cross: 3 cycles.
    let mut cpu = CPU::new();
    cpu.load(vec![0xA9, 0x01, 0xF0, 0x01, 0x00, 0x00]);
    cpu.reset();
    let _ = cpu.step_machine().unwrap();
    let not_taken = cpu.step_machine().unwrap();
    assert_eq!(not_taken, 2);

    let mut cpu2 = CPU::new();
    cpu2.load(vec![0xA9, 0x01, 0xD0, 0x01, 0x00, 0x00]);
    cpu2.reset();
    let _ = cpu2.step_machine().unwrap();
    let taken = cpu2.step_machine().unwrap();
    assert_eq!(taken, 3);
}

#[test]
fn jsr_and_rts_round_trip() {
    let mut cpu = CPU::new();
    let _ = cpu.load_and_run(vec![0x20, 0x06, 0x80, 0xA9, 0x05, 0x00, 0xA0, 0x07, 0x60]);
    assert_eq!(cpu.register_a, 0x05);
    assert_eq!(cpu.register_y, 0x07);
}

#[test]
fn sta_stores_accumulator() {
    let mut cpu = CPU::new();
    let _ = cpu.load_and_run(vec![0xA9, 0x33, 0x85, 0x10, 0x00]);
    assert_eq!(cpu.memory_read(0x10), 0x33);
}

#[test]
fn asl_and_lsr_move_carry() {
    let mut cpu = CPU::new();
    let _ = cpu.load_and_run(vec![0xA9, 0x81, 0x0A, 0x00]);
    assert_eq!(cpu.register_a, 0x02);
    assert_ne!(cpu.status & CARRY_FLAG, 0);

    let mut cpu2 = CPU::new();
    let _ = cpu2.load_and_run(vec![0xA9, 0x03, 0x4A, 0x00]);
    assert_eq!(cpu2.register_a, 0x01);
    assert_ne!(cpu2.status & CARRY_FLAG, 0);
}

#[test]
fn zero_page_indexed_wraps_within_page_zero() {
    // Base 0xFF with X = 1 must resolve to 0x0000, never 0x0100.
    let mut cpu = CPU::new();
    let _ = cpu.memory_write(0x0000, 0x77);
    let _ = cpu.memory_write(0x0100, 0x99);
    let _ = cpu.load_and_run(vec![0xA2, 0x01, 0xB5, 0xFF, 0x00]);
    assert_eq!(cpu.register_a, 0x77);
}

#[test]
fn page_cross_costs_one_extra_cycle() {
    // LDA $00FF,X with X = 1 crosses into page 1: 5 cycles.
    let mut cpu = CPU::new();
    cpu.load(vec![0xA2, 0x01, 0xBD, 0xFF, 0x00, 0x00]);
    cpu.reset();
    let _ = cpu.step_machine().unwrap();
    let crossing = cpu.step_machine().unwrap();

    // The same instruction without a cross: 4 cycles.
    let mut cpu2 = CPU::new();
    cpu2.load(vec![0xA2, 0x01, 0xBD, 0x00, 0x00, 0x00]);
    cpu2.reset();
    let _ = cpu2.step_machine().unwrap();
    let straight = cpu2.step_machine().unwrap();

    assert_eq!(crossing, 5);
    assert_eq!(straight, 4);
    assert_eq!(crossing, straight + 1);
}

#[test]
fn indirect_y_load_resolves_pointer() {
    let mut cpu = CPU::new();
    let _ = cpu.memory_write(0x20, 0x00);
    let _ = cpu.memory_write(0x21, 0x02);
    let _ = cpu.memory_write(0x0203, 0x5A);
    let _ = cpu.load_and_run(vec![0xA0, 0x03, 0xB1, 0x20, 0x00]);
    assert_eq!(cpu.register_a, 0x5A);
}

#[test]
fn unimplemented_opcode_faults_with_context() {
    let mut cpu = CPU::new();
    let r = cpu.load_and_run(vec![0xFF, 0x00]);
    match r {
        Err(fault) => {
            assert_eq!(fault.opcode, 0xFF);
            assert_eq!(fault.address, 0x8000);
            assert_eq!(fault.cycle, 0);
        }
        Ok(()) => panic!("an unimplemented opcode must surface a fault"),
    }
}

#[test]
fn fault_reports_the_machine_cycle_and_halts_in_place() {
    // LDA #$05 runs (2 cycles), then the fetch at 0x8002 hits an opcode
    // the dispatcher does not hold: the run stops right there, with the
    // machine exactly as the faulting step left it.
    let mut cpu = CPU::new();
    let r = cpu.load_and_run(vec![0xA9, 0x05, 0xFF]);
    match r {
        Err(fault) => {
            assert_eq!(fault.opcode, 0xFF);
            assert_eq!(fault.address, 0x8002);
            assert_eq!(fault.cycle, 2);
        }
        Ok(()) => panic!("an unimplemented opcode must surface a fault"),
    }
    assert_eq!(cpu.register_a, 0x05);
    assert_eq!(cpu.bus.cycles, 2);
    assert!(!cpu.halted);
}

#[test]
fn snapshot_round_trip_replays_bit_identically() {
    let mut cpu = CPU::new();
    // INX; ADC #$03; JMP $8000 — an endless loop of register churn.
    cpu.load(vec![0xE8, 0x69, 0x03, 0x4C, 0x00, 0x80]);
    cpu.reset();
    for _ in 0..10 {
        cpu.step_machine().unwrap();
    }
    let snap = cpu.save();

    let mut first = Vec::new();
    for _ in 0..50 {
        cpu.step_machine().unwrap();
        first.push((
            cpu.register_a,
            cpu.register_x,
            cpu.status,
            cpu.program_counter,
            cpu.cycles,
            cpu.bus.cycles,
            cpu.bus.ppu.scanline,
            cpu.bus.ppu.cycle,
            cpu.bus.apu.frame_counter,
        ));
    }

    cpu.restore(&snap);
    let mut second = Vec::new();
    for _ in 0..50 {
        cpu.step_machine().unwrap();
        second.push((
            cpu.register_a,
            cpu.register_x,
            cpu.status,
            cpu.program_counter,
            cpu.cycles,
            cpu.bus.cycles,
            cpu.bus.ppu.scanline,
            cpu.bus.ppu.cycle,
            cpu.bus.apu.frame_counter,
        ));
    }
    assert_eq!(first, second);
}

#[test]
fn run_advances_picture_and_audio_clocks() {
    let mut cpu = CPU::new();
    cpu.load(vec![0xA9, 0x05, 0x00]);
    cpu.reset();
    let _ = cpu.run().unwrap();
    // LDA (2 cycles) + BRK (7 cycles) = 9 CPU cycles; the picture clock
    // runs three dots per CPU cycle.
    assert_eq!(cpu.bus.cycles, 9);
    assert_eq!(cpu.bus.ppu.cycle, 27);
    assert_eq!(cpu.bus.audio.len(), 9);
}

#[test]
fn sixteen_bit_memory_access_is_little_endian() {
    let mut cpu = CPU::new();
    cpu.mem_write_u16(0x0010, 0x1234);
    assert_eq!(cpu.memory_read(0x0010), 0x34);
    assert_eq!(cpu.memory_read(0x0011), 0x12);
    assert_eq!(cpu.mem_read_u16(0x0010), 0x1234);
}

#[test]
fn operand_resolution_reports_the_page_cross() {
    let mut cpu = CPU::new();
    // Zero-page indexed: base 0xFF plus X = 1 wraps to 0x0000.
    let _ = cpu.memory_write(0x0000, 0xFF);
    cpu.program_counter = 0x0000;
    cpu.register_x = 1;
    let (addr, crossed) = cpu.get_operand_address(&AddressingMode::ZeroPage_X);
    assert_eq!(addr, 0x0000);
    assert!(!crossed);
    // Absolute indexed: 0x00FF plus 1 crosses into page 1.
    let _ = cpu.memory_write(0x0000, 0xFF);
    let _ = cpu.memory_write(0x0001, 0x00);
    cpu.program_counter = 0x0000;
    let (addr2, crossed2) = cpu.get_operand_address(&AddressingMode::Absolute_X);
    assert_eq!(addr2, 0x0100);
    assert!(crossed2);
}
