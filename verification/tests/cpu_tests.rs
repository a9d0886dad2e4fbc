use mos6502::bus::bus;
use mos6502::cpu::CPU_6502;
use mos6502::flags::FLAGS_6502;

/// Load `program` at `origin`, point the reset vector there, reset, and
/// run off the reset sequence's cycles so the core sits idle at `origin`.
fn boot(program: &[u8], origin: u16) -> CPU_6502 {
    let mut b = bus::new();
    b.cpu_write(0xFFFC, (origin & 0x00FF) as u8);
    b.cpu_write(0xFFFD, (origin >> 8) as u8);
    let mut addr = origin;
    for &byte in program {
        b.cpu_write(addr, byte);
        addr = addr.wrapping_add(1);
    }
    let mut core = CPU_6502::new(b);
    core.reset();
    core.step_instruction();
    core
}

#[test]
fn reset_loads_vector_and_clears_state() {
    let mut b = bus::new();
    b.cpu_write(0xFFFC, 0x34);
    b.cpu_write(0xFFFD, 0x12);
    let mut core = CPU_6502::new(b);
    core.reset();
    assert_eq!(core.pc(), 0x1234);
    assert_eq!(core.accum(), 0);
    assert_eq!(core.x_reg(), 0);
    assert_eq!(core.y_reg(), 0);
    assert_eq!(core.stkp(), 0xFD);
    assert_eq!(core.status_byte(), 0x20);
    assert_eq!(core.cycles(), 8);
}

#[test]
fn power_on_state_has_interrupts_disabled() {
    let core = CPU_6502::new(bus::new());
    assert_eq!(core.status_byte(), 0x24);
    assert_eq!(core.stkp(), 0xFD);
    assert_eq!(core.cycles(), 0);
    assert_eq!(core.clock_count(), 0);
}

#[test]
fn lda_immediate_loads_and_sets_flags() {
    // LDA #$00 ; LDA #$80
    let mut core = boot(&[0xA9, 0x00, 0xA9, 0x80], 0x8000);
    core.step_instruction();
    assert_eq!(core.accum(), 0x00);
    assert_eq!(core.get_flag(FLAGS_6502::Z), 1);
    assert_eq!(core.get_flag(FLAGS_6502::N), 0);
    core.step_instruction();
    assert_eq!(core.accum(), 0x80);
    assert_eq!(core.get_flag(FLAGS_6502::Z), 0);
    assert_eq!(core.get_flag(FLAGS_6502::N), 1);
}

#[test]
fn lda_immediate_takes_two_cycles() {
    let mut core = boot(&[0xA9, 0x42], 0x8000);
    let before = core.clock_count();
    core.step_instruction();
    assert_eq!(core.clock_count() - before, 2);
    assert_eq!(core.pc(), 0x8002);
}

#[test]
fn adc_50_plus_10_no_carry_no_overflow() {
    // LDA #$50 ; ADC #$10
    let mut core = boot(&[0xA9, 0x50, 0x69, 0x10], 0x8000);
    core.step_instruction();
    core.step_instruction();
    assert_eq!(core.accum(), 0x60);
    assert_eq!(core.get_flag(FLAGS_6502::C), 0);
    assert_eq!(core.get_flag(FLAGS_6502::V), 0);
    assert_eq!(core.get_flag(FLAGS_6502::N), 0);
    assert_eq!(core.get_flag(FLAGS_6502::Z), 0);
}

#[test]
fn adc_50_plus_50_signed_overflow() {
    let mut core = boot(&[0xA9, 0x50, 0x69, 0x50], 0x8000);
    core.step_instruction();
    core.step_instruction();
    assert_eq!(core.accum(), 0xA0);
    assert_eq!(core.get_flag(FLAGS_6502::V), 1);
    assert_eq!(core.get_flag(FLAGS_6502::C), 0);
    assert_eq!(core.get_flag(FLAGS_6502::N), 1);
}

#[test]
fn adc_80_plus_80_carry_and_overflow() {
    let mut core = boot(&[0xA9, 0x80, 0x69, 0x80], 0x8000);
    core.step_instruction();
    core.step_instruction();
    assert_eq!(core.accum(), 0x00);
    assert_eq!(core.get_flag(FLAGS_6502::C), 1);
    assert_eq!(core.get_flag(FLAGS_6502::V), 1);
    assert_eq!(core.get_flag(FLAGS_6502::Z), 1);
}

#[test]
fn adc_honours_carry_in() {
    // SEC ; LDA #$01 ; ADC #$01
    let mut core = boot(&[0x38, 0xA9, 0x01, 0x69, 0x01], 0x8000);
    core.step_instruction();
    core.step_instruction();
    core.step_instruction();
    assert_eq!(core.accum(), 0x03);
}

#[test]
fn sbc_subtracts_with_borrow_clear() {
    // SEC ; LDA #$10 ; SBC #$08
    let mut core = boot(&[0x38, 0xA9, 0x10, 0xE9, 0x08], 0x8000);
    core.step_instruction();
    core.step_instruction();
    core.step_instruction();
    assert_eq!(core.accum(), 0x08);
    assert_eq!(core.get_flag(FLAGS_6502::C), 1);
    assert_eq!(core.get_flag(FLAGS_6502::Z), 0);
}

#[test]
fn sbc_borrows_past_zero() {
    // SEC ; LDA #$03 ; SBC #$05  -> 0xFE, borrow taken (C = 0)
    let mut core = boot(&[0x38, 0xA9, 0x03, 0xE9, 0x05], 0x8000);
    core.step_instruction();
    core.step_instruction();
    core.step_instruction();
    assert_eq!(core.accum(), 0xFE);
    assert_eq!(core.get_flag(FLAGS_6502::C), 0);
    assert_eq!(core.get_flag(FLAGS_6502::N), 1);
}

#[test]
fn cmp_greater_equal_and_less() {
    // LDA #$40 ; CMP #$30
    let mut core = boot(&[0xA9, 0x40, 0xC9, 0x30], 0x8000);
    core.step_instruction();
    core.step_instruction();
    assert_eq!(core.get_flag(FLAGS_6502::C), 1);
    assert_eq!(core.get_flag(FLAGS_6502::Z), 0);
    // LDA #$30 ; CMP #$40
    let mut core = boot(&[0xA9, 0x30, 0xC9, 0x40], 0x8000);
    core.step_instruction();
    core.step_instruction();
    assert_eq!(core.get_flag(FLAGS_6502::C), 0);
    assert_eq!(core.get_flag(FLAGS_6502::N), 1);
    // CPX with equal operands
    let mut core = boot(&[0xA2, 0x22, 0xE0, 0x22], 0x8000);
    core.step_instruction();
    core.step_instruction();
    assert_eq!(core.get_flag(FLAGS_6502::C), 1);
    assert_eq!(core.get_flag(FLAGS_6502::Z), 1);
}

#[test]
fn asl_accumulator_shifts_into_carry() {
    // LDA #$81 ; ASL A
    let mut core = boot(&[0xA9, 0x81, 0x0A], 0x8000);
    core.step_instruction();
    core.step_instruction();
    assert_eq!(core.accum(), 0x02);
    assert_eq!(core.get_flag(FLAGS_6502::C), 1);
}

#[test]
fn lsr_accumulator_shifts_out_low_bit() {
    // LDA #$01 ; LSR A
    let mut core = boot(&[0xA9, 0x01, 0x4A], 0x8000);
    core.step_instruction();
    core.step_instruction();
    assert_eq!(core.accum(), 0x00);
    assert_eq!(core.get_flag(FLAGS_6502::C), 1);
    assert_eq!(core.get_flag(FLAGS_6502::Z), 1);
}

#[test]
fn rol_and_ror_rotate_through_carry() {
    // SEC ; LDA #$80 ; ROL A  -> 0x01, carry out 1
    let mut core = boot(&[0x38, 0xA9, 0x80, 0x2A], 0x8000);
    core.step_instruction();
    core.step_instruction();
    core.step_instruction();
    assert_eq!(core.accum(), 0x01);
    assert_eq!(core.get_flag(FLAGS_6502::C), 1);
    // SEC ; LDA #$01 ; ROR A  -> 0x80, carry out 1
    let mut core = boot(&[0x38, 0xA9, 0x01, 0x6A], 0x8000);
    core.step_instruction();
    core.step_instruction();
    core.step_instruction();
    assert_eq!(core.accum(), 0x80);
    assert_eq!(core.get_flag(FLAGS_6502::C), 1);
    assert_eq!(core.get_flag(FLAGS_6502::N), 1);
}

#[test]
fn asl_memory_writes_back_to_memory_not_accumulator() {
    // LDA #$77 ; ASL $0040  (0x40 holds 0x41)
    let mut core = boot(&[0xA9, 0x77, 0x06, 0x40], 0x8000);
    core.write_this(0x0040, 0x41);
    core.step_instruction();
    core.step_instruction();
    assert_eq!(core.read_this(0x0040), 0x82);
    assert_eq!(core.accum(), 0x77);
}

#[test]
fn inx_and_dex_wrap_around() {
    // LDX #$FF ; INX
    let mut core = boot(&[0xA2, 0xFF, 0xE8], 0x8000);
    core.step_instruction();
    core.step_instruction();
    assert_eq!(core.x_reg(), 0x00);
    assert_eq!(core.get_flag(FLAGS_6502::Z), 1);
    // LDX #$00 ; DEX
    let mut core = boot(&[0xA2, 0x00, 0xCA], 0x8000);
    core.step_instruction();
    core.step_instruction();
    assert_eq!(core.x_reg(), 0xFF);
    assert_eq!(core.get_flag(FLAGS_6502::N), 1);
}

#[test]
fn inc_and_dec_memory_wrap_around() {
    // INC $0040 with 0xFF there ; DEC $0041 with 0x00 there
    let mut core = boot(&[0xE6, 0x40, 0xC6, 0x41], 0x8000);
    core.write_this(0x0040, 0xFF);
    core.write_this(0x0041, 0x00);
    core.step_instruction();
    core.step_instruction();
    assert_eq!(core.read_this(0x0040), 0x00);
    assert_eq!(core.read_this(0x0041), 0xFF);
}

#[test]
fn bit_copies_operand_bits_to_flags() {
    // LDA #$01 ; BIT $0040 with 0xC0 there: Z=1 (no common bits), N=1, V=1
    let mut core = boot(&[0xA9, 0x01, 0x24, 0x40], 0x8000);
    core.write_this(0x0040, 0xC0);
    core.step_instruction();
    core.step_instruction();
    assert_eq!(core.get_flag(FLAGS_6502::Z), 1);
    assert_eq!(core.get_flag(FLAGS_6502::N), 1);
    assert_eq!(core.get_flag(FLAGS_6502::V), 1);
}

#[test]
fn logic_ops_combine_with_accumulator() {
    // LDA #$F0 ; AND #$3C -> 0x30 ; ORA #$03 -> 0x33 ; EOR #$FF -> 0xCC
    let mut core = boot(&[0xA9, 0xF0, 0x29, 0x3C, 0x09, 0x03, 0x49, 0xFF], 0x8000);
    core.step_instruction();
    core.step_instruction();
    assert_eq!(core.accum(), 0x30);
    core.step_instruction();
    assert_eq!(core.accum(), 0x33);
    core.step_instruction();
    assert_eq!(core.accum(), 0xCC);
    assert_eq!(core.get_flag(FLAGS_6502::N), 1);
}

#[test]
fn transfers_move_registers_and_set_flags() {
    // LDA #$00 ; TAX ; LDX #$80 ; TXA ; LDY #$05 ; TYA
    let mut core = boot(&[0xA9, 0x00, 0xAA, 0xA2, 0x80, 0x8A, 0xA0, 0x05, 0x98], 0x8000);
    core.step_instruction();
    core.step_instruction();
    assert_eq!(core.x_reg(), 0x00);
    assert_eq!(core.get_flag(FLAGS_6502::Z), 1);
    core.step_instruction();
    core.step_instruction();
    assert_eq!(core.accum(), 0x80);
    assert_eq!(core.get_flag(FLAGS_6502::N), 1);
    core.step_instruction();
    core.step_instruction();
    assert_eq!(core.accum(), 0x05);
    assert_eq!(core.get_flag(FLAGS_6502::N), 0);
    assert_eq!(core.get_flag(FLAGS_6502::Z), 0);
}

#[test]
fn stores_write_registers_to_memory() {
    // LDA #$11 ; STA $0040 ; LDX #$22 ; STX $0041 ; LDY #$33 ; STY $0042
    let mut core = boot(
        &[0xA9, 0x11, 0x85, 0x40, 0xA2, 0x22, 0x86, 0x41, 0xA0, 0x33, 0x84, 0x42],
        0x8000,
    );
    for _ in 0..6 {
        core.step_instruction();
    }
    assert_eq!(core.read_this(0x0040), 0x11);
    assert_eq!(core.read_this(0x0041), 0x22);
    assert_eq!(core.read_this(0x0042), 0x33);
}
