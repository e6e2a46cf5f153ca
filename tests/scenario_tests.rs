use nestacean::nes::cpu::{Cpu, CpuError};

const FLAG_CARRY: u8 = 0b0000_0001;
const FLAG_ZERO: u8 = 0b0000_0010;
const FLAG_OVERFLOW: u8 = 0b0100_0000;
const FLAG_NEGATIVE: u8 = 0b1000_0000;

/// A CPU with `program` at $8000, reset and ready to fetch.
fn cpu_with(program: &[u8]) -> Cpu {
    let mut cpu = Cpu::new();
    cpu.load_program(program);
    cpu.reset();
    cpu
}

/// Runs one whole instruction and returns the cycles it took.
fn step_instruction(cpu: &mut Cpu) -> u32 {
    cpu.tick().unwrap();
    let mut cycles = 1;
    while !cpu.is_at_instruction_boundary() {
        cpu.tick().unwrap();
        cycles += 1;
    }
    cycles
}

/// Runs instructions until BRK has completed; returns the cycles spent before BRK.
fn run_until_brk(cpu: &mut Cpu) -> u32 {
    let mut cycles = 0;
    while cpu.mem_read(cpu.get_pc()) != 0x00 {
        cycles += step_instruction(cpu);
    }
    step_instruction(cpu);
    cycles
}

#[test]
fn scenario_load_transfer_increment() {
    let mut cpu = cpu_with(&[0xA9, 0xC0, 0xAA, 0xE8, 0x00]);
    run_until_brk(&mut cpu);
    assert_eq!(cpu.get_accumulator(), 0xC0);
    assert_eq!(cpu.get_index_x(), 0xC1);
    assert_eq!(cpu.get_status_p() & FLAG_NEGATIVE, FLAG_NEGATIVE);
    assert_eq!(cpu.get_status_p() & FLAG_ZERO, 0);
    assert!(!cpu.is_running());
}

#[test]
fn scenario_lda_absolute_x_page_cross() {
    let mut cpu = cpu_with(&[0xBD, 0xFF, 0x30, 0x00]);
    cpu.set_index_x(1);
    cpu.mem_write(0x3100, 0x55);
    assert_eq!(step_instruction(&mut cpu), 5);
    assert_eq!(cpu.get_accumulator(), 0x55);
}

#[test]
fn scenario_zero_page_wrap() {
    let mut cpu = cpu_with(&[0xF6, 0xFF, 0x00]);
    cpu.set_index_x(2);
    cpu.mem_write(0x01, 0x10);
    assert_eq!(step_instruction(&mut cpu), 6);
    assert_eq!(cpu.get_memory()[0x01], 0x11);
    assert_eq!(cpu.get_memory()[0x0101], 0x00);
}

#[test]
fn scenario_indexed_indirect_load() {
    let mut cpu = cpu_with(&[0xA1, 0x50, 0x00]);
    cpu.set_index_x(2);
    cpu.mem_write(0x52, 0x23);
    cpu.mem_write(0x53, 0x65);
    cpu.mem_write(0x6523, 0x69);
    assert_eq!(step_instruction(&mut cpu), 6);
    assert_eq!(cpu.get_accumulator(), 0x69);
}

#[test]
fn scenario_indirect_indexed_page_cross() {
    let mut cpu = cpu_with(&[0xB1, 0x50, 0x00]);
    cpu.set_index_y(1);
    cpu.mem_write(0x50, 0xFF);
    cpu.mem_write(0x51, 0x12);
    cpu.mem_write(0x1300, 0xAB);
    assert_eq!(step_instruction(&mut cpu), 6);
    assert_eq!(cpu.get_accumulator(), 0xAB);
}

#[test]
fn scenario_jsr_rts_round_trip() {
    let mut cpu = Cpu::new();
    // $0600: JSR $0606; BRK; NOP; NOP; $0606: LDA #$42; STA $0200; RTS
    let program = [
        0x20, 0x06, 0x06, 0x00, 0xEA, 0xEA, 0xA9, 0x42, 0x8D, 0x00, 0x02, 0x60,
    ];
    for (i, b) in program.iter().enumerate() {
        cpu.mem_write(0x0600 + i as u16, *b);
    }
    cpu.mem_write_u16(0xFFFC, 0x0600);
    cpu.reset();
    let sp_before = cpu.get_sp();
    assert_eq!(step_instruction(&mut cpu), 6);
    assert_eq!(cpu.get_pc(), 0x0606);
    assert_eq!(cpu.get_sp(), sp_before.wrapping_sub(2));
    assert_eq!(step_instruction(&mut cpu), 2);
    assert_eq!(step_instruction(&mut cpu), 4);
    assert_eq!(step_instruction(&mut cpu), 6);
    assert_eq!(cpu.get_pc(), 0x0603);
    assert_eq!(cpu.get_sp(), sp_before);
    assert_eq!(cpu.get_memory()[0x0200], 0x42);
}

#[test]
fn adc_sets_carry_and_overflow() {
    // CLC; LDA #$7F; ADC #$01 -> $80, V set, C clear, N set
    let mut cpu = cpu_with(&[0x18, 0xA9, 0x7F, 0x69, 0x01, 0x00]);
    step_instruction(&mut cpu);
    step_instruction(&mut cpu);
    assert_eq!(step_instruction(&mut cpu), 2);
    assert_eq!(cpu.get_accumulator(), 0x80);
    let p = cpu.get_status_p();
    assert_eq!(p & FLAG_OVERFLOW, FLAG_OVERFLOW);
    assert_eq!(p & FLAG_CARRY, 0);
    assert_eq!(p & FLAG_NEGATIVE, FLAG_NEGATIVE);
    // SEC; LDA #$FF; ADC #$01 -> $01 with carry in, C set, V clear
    let mut cpu = cpu_with(&[0x38, 0xA9, 0xFF, 0x69, 0x01, 0x00]);
    for _ in 0..3 {
        step_instruction(&mut cpu);
    }
    assert_eq!(cpu.get_accumulator(), 0x01);
    assert_eq!(cpu.get_status_p() & (FLAG_CARRY | FLAG_OVERFLOW), FLAG_CARRY);
}

#[test]
fn sbc_borrows_and_overflows() {
    // SEC; LDA #$50; SBC #$F0 -> $60, borrow (C clear), no overflow
    let mut cpu = cpu_with(&[0x38, 0xA9, 0x50, 0xE9, 0xF0, 0x00]);
    for _ in 0..3 {
        step_instruction(&mut cpu);
    }
    assert_eq!(cpu.get_accumulator(), 0x60);
    assert_eq!(cpu.get_status_p() & (FLAG_CARRY | FLAG_OVERFLOW), 0);
    // SEC; LDA #$50; SBC #$B0 -> $A0, borrow, overflow
    let mut cpu = cpu_with(&[0x38, 0xA9, 0x50, 0xE9, 0xB0, 0x00]);
    for _ in 0..3 {
        step_instruction(&mut cpu);
    }
    assert_eq!(cpu.get_accumulator(), 0xA0);
    assert_eq!(cpu.get_status_p() & (FLAG_CARRY | FLAG_OVERFLOW), FLAG_OVERFLOW);
    // CLC; LDA #$05; SBC #$03 -> 5 - 3 - 1 = $01, no borrow
    let mut cpu = cpu_with(&[0x18, 0xA9, 0x05, 0xE9, 0x03, 0x00]);
    for _ in 0..3 {
        step_instruction(&mut cpu);
    }
    assert_eq!(cpu.get_accumulator(), 0x01);
    assert_eq!(cpu.get_status_p() & FLAG_CARRY, FLAG_CARRY);
}

#[test]
fn compare_sets_carry_zero_negative() {
    // LDA #$40; CMP #$40 -> Z, C
    let mut cpu = cpu_with(&[0xA9, 0x40, 0xC9, 0x40, 0x00]);
    step_instruction(&mut cpu);
    step_instruction(&mut cpu);
    let p = cpu.get_status_p();
    assert_eq!(p & (FLAG_ZERO | FLAG_CARRY | FLAG_NEGATIVE), FLAG_ZERO | FLAG_CARRY);
    // LDX #$10; CPX #$20 -> no carry, N from $F0
    let mut cpu = cpu_with(&[0xA2, 0x10, 0xE0, 0x20, 0x00]);
    step_instruction(&mut cpu);
    step_instruction(&mut cpu);
    let p = cpu.get_status_p();
    assert_eq!(p & (FLAG_ZERO | FLAG_CARRY | FLAG_NEGATIVE), FLAG_NEGATIVE);
}

#[test]
fn shifts_and_rotates_accumulator() {
    // LDA #$81; ASL A -> $02, C set
    let mut cpu = cpu_with(&[0xA9, 0x81, 0x0A, 0x00]);
    step_instruction(&mut cpu);
    assert_eq!(step_instruction(&mut cpu), 2);
    assert_eq!(cpu.get_accumulator(), 0x02);
    assert_eq!(cpu.get_status_p() & FLAG_CARRY, FLAG_CARRY);
    // SEC; LDA #$02; ROR A -> $81, C clear, N set
    let mut cpu = cpu_with(&[0x38, 0xA9, 0x02, 0x6A, 0x00]);
    for _ in 0..3 {
        step_instruction(&mut cpu);
    }
    assert_eq!(cpu.get_accumulator(), 0x81);
    assert_eq!(cpu.get_status_p() & (FLAG_CARRY | FLAG_NEGATIVE), FLAG_NEGATIVE);
    // SEC; LDA #$80; ROL A -> $01, C set; LSR A -> $00, C set, Z set
    let mut cpu = cpu_with(&[0x38, 0xA9, 0x80, 0x2A, 0x4A, 0x00]);
    for _ in 0..3 {
        step_instruction(&mut cpu);
    }
    assert_eq!(cpu.get_accumulator(), 0x01);
    step_instruction(&mut cpu);
    assert_eq!(cpu.get_accumulator(), 0x00);
    assert_eq!(cpu.get_status_p() & (FLAG_CARRY | FLAG_ZERO), FLAG_CARRY | FLAG_ZERO);
}

#[test]
fn asl_memory_writes_the_shifted_value() {
    // ASL $10 with mem[$10] = $41 -> $82, N set, C clear; 5 cycles
    let mut cpu = cpu_with(&[0x06, 0x10, 0x00]);
    cpu.mem_write(0x10, 0x41);
    assert_eq!(step_instruction(&mut cpu), 5);
    assert_eq!(cpu.get_memory()[0x10], 0x82);
    assert_eq!(cpu.get_status_p() & (FLAG_CARRY | FLAG_NEGATIVE), FLAG_NEGATIVE);
}

#[test]
fn bit_test_copies_bits_six_and_seven() {
    // LDA #$01; BIT $20 with mem[$20] = $C0 -> Z set, N and V set
    let mut cpu = cpu_with(&[0xA9, 0x01, 0x24, 0x20, 0x00]);
    cpu.mem_write(0x20, 0xC0);
    step_instruction(&mut cpu);
    assert_eq!(step_instruction(&mut cpu), 3);
    let p = cpu.get_status_p();
    assert_eq!(p & (FLAG_ZERO | FLAG_NEGATIVE | FLAG_OVERFLOW), FLAG_ZERO | FLAG_NEGATIVE | FLAG_OVERFLOW);
}

#[test]
fn transfers_move_bytes_and_set_flags() {
    // LDX #$80; TXA; TAY; LDX #$00; TXS; TSX
    let mut cpu = cpu_with(&[0xA2, 0x80, 0x8A, 0xA8, 0xA2, 0x00, 0x9A, 0xBA, 0x00]);
    step_instruction(&mut cpu);
    step_instruction(&mut cpu);
    assert_eq!(cpu.get_accumulator(), 0x80);
    assert_eq!(cpu.get_status_p() & FLAG_NEGATIVE, FLAG_NEGATIVE);
    step_instruction(&mut cpu);
    assert_eq!(cpu.get_index_y(), 0x80);
    step_instruction(&mut cpu);
    let p_before_txs = cpu.get_status_p();
    assert_eq!(step_instruction(&mut cpu), 2);
    assert_eq!(cpu.get_sp(), 0x00);
    assert_eq!(cpu.get_status_p(), p_before_txs);
    step_instruction(&mut cpu);
    assert_eq!(cpu.get_index_x(), 0x00);
    assert_eq!(cpu.get_status_p() & FLAG_ZERO, FLAG_ZERO);
}

#[test]
fn increments_wrap_around() {
    // LDY #$00; DEY -> $FF, N set; INY -> $00, Z set
    let mut cpu = cpu_with(&[0xA0, 0x00, 0x88, 0xC8, 0x00]);
    step_instruction(&mut cpu);
    step_instruction(&mut cpu);
    assert_eq!(cpu.get_index_y(), 0xFF);
    assert_eq!(cpu.get_status_p() & FLAG_NEGATIVE, FLAG_NEGATIVE);
    step_instruction(&mut cpu);
    assert_eq!(cpu.get_index_y(), 0x00);
    assert_eq!(cpu.get_status_p() & FLAG_ZERO, FLAG_ZERO);
    // DEC $30 with mem[$30] = $00 -> $FF
    let mut cpu = cpu_with(&[0xC6, 0x30, 0x00]);
    step_instruction(&mut cpu);
    assert_eq!(cpu.get_memory()[0x30], 0xFF);
    assert_eq!(cpu.get_status_p() & FLAG_NEGATIVE, FLAG_NEGATIVE);
}

#[test]
fn pha_pla_and_php_plp_round_trips() {
    // LDA #$5A; PHA; LDA #$00; PLA
    let mut cpu = cpu_with(&[0xA9, 0x5A, 0x48, 0xA9, 0x00, 0x68, 0x00]);
    step_instruction(&mut cpu);
    let sp = cpu.get_sp();
    assert_eq!(step_instruction(&mut cpu), 3);
    step_instruction(&mut cpu);
    assert_eq!(step_instruction(&mut cpu), 4);
    assert_eq!(cpu.get_accumulator(), 0x5A);
    assert_eq!(cpu.get_sp(), sp);
    // PHP; PLP keeps the status byte as it was
    let mut cpu = cpu_with(&[0x08, 0x28, 0x00]);
    cpu.set_status_p(0b1100_0011);
    let sp = cpu.get_sp();
    step_instruction(&mut cpu);
    step_instruction(&mut cpu);
    assert_eq!(cpu.get_status_p(), 0b1100_0011);
    assert_eq!(cpu.get_sp(), sp);
}

#[test]
fn jmp_indirect_wraps_within_page() {
    // JMP ($30FF): low byte from $30FF, high byte from $3000
    let mut cpu = cpu_with(&[0x6C, 0xFF, 0x30]);
    cpu.mem_write(0x30FF, 0x34);
    cpu.mem_write(0x3000, 0x12);
    cpu.mem_write(0x3100, 0x56);
    assert_eq!(step_instruction(&mut cpu), 5);
    assert_eq!(cpu.get_pc(), 0x1234);
}

#[test]
fn jmp_indirect_inside_page() {
    let mut cpu = cpu_with(&[0x6C, 0x10, 0x30]);
    cpu.mem_write(0x3010, 0x78);
    cpu.mem_write(0x3011, 0x56);
    step_instruction(&mut cpu);
    assert_eq!(cpu.get_pc(), 0x5678);
}

#[test]
fn jmp_absolute_takes_three_cycles() {
    let mut cpu = cpu_with(&[0x4C, 0x34, 0x12]);
    assert_eq!(step_instruction(&mut cpu), 3);
    assert_eq!(cpu.get_pc(), 0x1234);
}

#[test]
fn branch_not_taken_takes_two_cycles() {
    // BEQ +5 with Z clear
    let mut cpu = cpu_with(&[0xF0, 0x05, 0x00]);
    assert_eq!(step_instruction(&mut cpu), 2);
    assert_eq!(cpu.get_pc(), 0x8002);
}

#[test]
fn branch_taken_same_page_takes_three_cycles() {
    // BNE +5 with Z clear
    let mut cpu = cpu_with(&[0xD0, 0x05, 0x00]);
    assert_eq!(step_instruction(&mut cpu), 3);
    assert_eq!(cpu.get_pc(), 0x8007);
}

#[test]
fn branch_backwards_across_page_takes_four_cycles() {
    // BNE -4 from $8002 lands on $7FFE
    let mut cpu = cpu_with(&[0xD0, 0xFC, 0x00]);
    assert_eq!(step_instruction(&mut cpu), 4);
    assert_eq!(cpu.get_pc(), 0x7FFE);
}

#[test]
fn absolute_index_wraps_in_sixteen_bits() {
    // LDA $FFFF,Y with Y = 2 reads $0001
    let mut cpu = cpu_with(&[0xB9, 0xFF, 0xFF, 0x00]);
    cpu.set_index_y(2);
    cpu.mem_write(0x0001, 0x77);
    assert_eq!(step_instruction(&mut cpu), 5);
    assert_eq!(cpu.get_accumulator(), 0x77);
}

#[test]
fn ldy_zero_page_x_uses_x() {
    let mut cpu = cpu_with(&[0xB4, 0x10, 0x00]);
    cpu.set_index_x(3);
    cpu.set_index_y(7);
    cpu.mem_write(0x13, 0x44);
    cpu.mem_write(0x17, 0x99);
    assert_eq!(step_instruction(&mut cpu), 4);
    assert_eq!(cpu.get_index_y(), 0x44);
}

#[test]
fn sta_absolute_x_always_takes_five_cycles() {
    let mut cpu = cpu_with(&[0x9D, 0x00, 0x20, 0x00]);
    cpu.set_accumulator(0x3C);
    cpu.set_index_x(1);
    assert_eq!(step_instruction(&mut cpu), 5);
    assert_eq!(cpu.get_memory()[0x2001], 0x3C);
}

#[test]
fn brk_pushes_state_and_rti_returns() {
    // BRK at $8000 with the vector at $9000, where RTI returns to $8002
    let mut cpu = cpu_with(&[0x00, 0xEA, 0xEA]);
    cpu.mem_write_u16(0xFFFE, 0x9000);
    cpu.mem_write(0x9000, 0x40);
    cpu.set_status_p(FLAG_CARRY);
    assert_eq!(step_instruction(&mut cpu), 7);
    assert_eq!(cpu.get_pc(), 0x9000);
    assert!(!cpu.is_running());
    assert_eq!(cpu.get_sp(), 0xFC);
    assert_eq!(cpu.get_memory()[0x01FF], 0x80);
    assert_eq!(cpu.get_memory()[0x01FE], 0x02);
    assert_eq!(cpu.get_memory()[0x01FD], FLAG_CARRY | 0b0001_0000);
    cpu.set_status_p(0);
    assert_eq!(step_instruction(&mut cpu), 6);
    assert_eq!(cpu.get_pc(), 0x8002);
    assert_eq!(cpu.get_sp(), 0xFF);
    assert_eq!(cpu.get_status_p(), FLAG_CARRY | 0b0001_0000);
}

#[test]
fn unknown_opcode_is_an_error() {
    let mut cpu = cpu_with(&[0x02, 0x00]);
    assert_eq!(cpu.tick(), Err(CpuError::UnimplementedOpcode(0x02)));
    assert_eq!(cpu.get_pc(), 0x8000);
    assert!(cpu.is_at_instruction_boundary());
}

#[test]
fn reset_loads_vector_and_clears_registers() {
    let mut cpu = Cpu::new();
    cpu.mem_write_u16(0xFFFC, 0xC123);
    cpu.set_accumulator(9);
    cpu.set_status_p(0xFF);
    cpu.reset();
    assert_eq!(cpu.get_pc(), 0xC123);
    assert_eq!(cpu.get_sp(), 0xFF);
    assert_eq!(cpu.get_accumulator(), 0);
    assert_eq!(cpu.get_status_p(), 0);
    assert!(cpu.is_running());
}

#[test]
fn word_access_is_little_endian_and_wraps() {
    let mut cpu = Cpu::new();
    cpu.mem_write_u16(0x1234, 0xBEEF);
    assert_eq!(cpu.mem_read(0x1234), 0xEF);
    assert_eq!(cpu.mem_read(0x1235), 0xBE);
    assert_eq!(cpu.mem_read_u16(0x1234), 0xBEEF);
    cpu.mem_write_u16(0xFFFF, 0x0102);
    assert_eq!(cpu.mem_read(0xFFFF), 0x02);
    assert_eq!(cpu.mem_read(0x0000), 0x01);
    assert_eq!(cpu.mem_read_u16(0xFFFF), 0x0102);
}

#[test]
fn load_test_game_sets_reset_vector() {
    let mut cpu = Cpu::new();
    cpu.load_test_game();
    assert_eq!(cpu.mem_read_u16(0xFFFC), 0x0600);
    assert_eq!(cpu.mem_read(0x0600), 0x20);
    assert_eq!(cpu.mem_read(0x0600 + 308), 0x60);
    cpu.reset();
    assert_eq!(step_instruction(&mut cpu), 6);
    assert_eq!(cpu.get_pc(), 0x0606);
}
