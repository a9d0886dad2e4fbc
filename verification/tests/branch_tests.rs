use mos6502::bus::bus;
use mos6502::cpu::CPU_6502;

/// Load `program` at `origin`, point the reset vector there, reset, and
/// run off the reset sequence's cycles so the core sits idle at `origin`.
fn boot(program: &[u8], origin: u16) -> CPU_6502 {
    let mut b = bus::new();
    b.cpu_write(0xFFFC, (origin & 0x00FF) as u8);
    b.cpu_write(0xFFFD, (origin >> 8) as u8);
    let mut addr = origin;
    for &byte in program {
        b.cpu_write(addr, byte);
        addr = addr.wrapping_add(1);
    }
    let mut core = CPU_6502::new(b);
    core.reset();
    core.step_instruction();
    core
}

/// Cycles one instruction takes, by the tick counter.
fn cycles_of_next_instruction(core: &mut CPU_6502) -> u32 {
    let before = core.clock_count();
    core.step_instruction();
    core.clock_count() - before
}

#[test]
fn branch_not_taken_costs_base_cycles() {
    // SEC ; BCC +$10 (not taken: carry is set)
    let mut core = boot(&[0x38, 0x90, 0x10], 0x80F8);
    core.step_instruction();
    assert_eq!(cycles_of_next_instruction(&mut core), 2);
    assert_eq!(core.pc(), 0x80FB);
}

#[test]
fn branch_taken_same_page_costs_one_extra_cycle() {
    // BCC +$02 at $8000: target $8004, same page
    let mut core = boot(&[0x90, 0x02], 0x8000);
    assert_eq!(cycles_of_next_instruction(&mut core), 3);
    assert_eq!(core.pc(), 0x8004);
}

#[test]
fn branch_taken_page_cross_costs_two_more_than_not_taken() {
    // Taken and crossing: BCC +$10 at $80F8 -> target $810A (page 0x81).
    let mut core = boot(&[0x90, 0x10], 0x80F8);
    let taken_crossing = cycles_of_next_instruction(&mut core);
    assert_eq!(core.pc(), 0x810A);

    // The same branch not taken: SEC first.
    let mut core = boot(&[0x38, 0x90, 0x10], 0x80F8);
    core.step_instruction();
    let not_taken = cycles_of_next_instruction(&mut core);

    assert_eq!(taken_crossing, 4);
    assert_eq!(not_taken, 2);
    assert_eq!(taken_crossing - not_taken, 2);
}

#[test]
fn branch_backward_with_negative_offset() {
    // NOP ; NOP ; BNE -$04 (0xFC): Z clear after reset, so taken back to $8000.
    let mut core = boot(&[0xEA, 0xEA, 0xD0, 0xFC], 0x8000);
    core.step_instruction();
    core.step_instruction();
    core.step_instruction();
    assert_eq!(core.pc(), 0x8000);
}

#[test]
fn beq_taken_only_when_zero_set() {
    // LDA #$00 ; BEQ +$02
    let mut core = boot(&[0xA9, 0x00, 0xF0, 0x02], 0x8000);
    core.step_instruction();
    core.step_instruction();
    assert_eq!(core.pc(), 0x8006);

    // LDA #$01 ; BEQ +$02 (not taken)
    let mut core = boot(&[0xA9, 0x01, 0xF0, 0x02], 0x8000);
    core.step_instruction();
    core.step_instruction();
    assert_eq!(core.pc(), 0x8004);
}

#[test]
fn bmi_and_bpl_test_the_negative_flag() {
    // LDA #$80 ; BMI +$02 (taken)
    let mut core = boot(&[0xA9, 0x80, 0x30, 0x02], 0x8000);
    core.step_instruction();
    core.step_instruction();
    assert_eq!(core.pc(), 0x8006);

    // LDA #$10 ; BPL +$02 (taken: N clear)
    let mut core = boot(&[0xA9, 0x10, 0x10, 0x02], 0x8000);
    core.step_instruction();
    core.step_instruction();
    assert_eq!(core.pc(), 0x8006);

    // LDA #$80 ; BPL +$02 (not taken: N set)
    let mut core = boot(&[0xA9, 0x80, 0x10, 0x02], 0x8000);
    core.step_instruction();
    core.step_instruction();
    assert_eq!(core.pc(), 0x8004);
}

#[test]
fn bvs_and_bvc_test_the_overflow_flag() {
    // LDA #$50 ; ADC #$50 (sets V) ; BVS +$02 (taken)
    let mut core = boot(&[0xA9, 0x50, 0x69, 0x50, 0x70, 0x02], 0x8000);
    core.step_instruction();
    core.step_instruction();
    core.step_instruction();
    assert_eq!(core.pc(), 0x8008);

    // CLV state after reset: BVC taken
    let mut core = boot(&[0x50, 0x02], 0x8000);
    core.step_instruction();
    assert_eq!(core.pc(), 0x8004);
}
