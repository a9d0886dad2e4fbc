use mos6502::bus::bus;
use mos6502::cpu::CPU_6502;

/// Load `program` at `origin`, point the reset vector there, reset, and
/// run off the reset sequence's cycles so the core sits idle at `origin`.
fn boot(program: &[u8], origin: u16) -> CPU_6502 {
    let mut b = bus::new();
    b.cpu_write(0xFFFC, (origin & 0x00FF) as u8);
    b.cpu_write(0xFFFD, (origin >> 8) as u8);
    let mut addr = origin;
    for &byte in program {
        b.cpu_write(addr, byte);
        addr = addr.wrapping_add(1);
    }
    let mut core = CPU_6502::new(b);
    core.reset();
    core.step_instruction();
    core
}

#[test]
fn every_tick_counts_once() {
    let mut core = boot(&[0xA9, 0x42], 0x8000);
    assert_eq!(core.clock_count(), 8);
    core.clock();
    assert_eq!(core.clock_count(), 9);
    core.clock();
    assert_eq!(core.clock_count(), 10);
    assert_eq!(core.cycles(), 0);
}

#[test]
fn dispatch_happens_only_when_idle() {
    // LDA #$42 takes two ticks; the accumulator changes on the first
    // (dispatching) tick and the program counter stays put on the second.
    let mut core = boot(&[0xA9, 0x42, 0xA9, 0x24], 0x8000);
    core.clock();
    assert_eq!(core.accum(), 0x42);
    assert_eq!(core.pc(), 0x8002);
    assert_eq!(core.cycles(), 1);
    core.clock();
    assert_eq!(core.pc(), 0x8002);
    assert_eq!(core.cycles(), 0);
}

#[test]
fn current_opcode_is_observable() {
    let mut core = boot(&[0xA9, 0x42], 0x8000);
    core.step_instruction();
    assert_eq!(core.opcode(), 0xA9);
}

#[test]
fn unused_flag_reads_one_after_every_instruction() {
    let mut core = boot(&[0xA9, 0x42, 0x08, 0x18], 0x8000);
    for _ in 0..3 {
        core.step_instruction();
        assert_eq!(core.status_byte() & 0x20, 0x20);
    }
}

#[test]
fn unassigned_opcode_is_a_diagnostic_noop_with_declared_cycles() {
    // Opcode $02 is unassigned: 2 cycles, no register effects.
    let mut core = boot(&[0x02, 0xA9, 0x42], 0x8000);
    let before = core.clock_count();
    assert_eq!(core.illegal_count(), 0);
    core.step_instruction();
    assert_eq!(core.clock_count() - before, 2);
    assert_eq!(core.pc(), 0x8001);
    assert_eq!(core.illegal_count(), 1);
    // Emulation continues normally afterwards.
    core.step_instruction();
    assert_eq!(core.accum(), 0x42);
}

#[test]
fn undocumented_opcode_consumes_its_table_cycles() {
    // Opcode $03 (an undocumented tag) declares 8 base cycles.
    let mut core = boot(&[0x03, 0x00], 0x8000);
    let before = core.clock_count();
    core.step_instruction();
    assert_eq!(core.clock_count() - before, 8);
    assert_eq!(core.illegal_count(), 1);
}

#[test]
fn nop_with_page_cross_honours_both_signals() {
    // Opcode $3C is an absolute,X NOP that reports the extra-cycle
    // signal: with X pushing the sum over a page edge it takes 5 ticks.
    let mut core = boot(&[0xA2, 0x20, 0x3C, 0xF0, 0x80], 0x8000);
    core.step_instruction();
    let before = core.clock_count();
    core.step_instruction();
    assert_eq!(core.clock_count() - before, 5);

    // Without the page cross it stays at its base 4 ticks.
    let mut core = boot(&[0xA2, 0x02, 0x3C, 0xF0, 0x80], 0x8000);
    core.step_instruction();
    let before = core.clock_count();
    core.step_instruction();
    assert_eq!(core.clock_count() - before, 4);
}

#[test]
fn step_instruction_finishes_an_instruction_in_flight() {
    let mut core = boot(&[0xA9, 0x42, 0xEA], 0x8000);
    core.clock();
    assert_eq!(core.cycles(), 1);
    core.step_instruction();
    assert_eq!(core.cycles(), 0);
    assert_eq!(core.pc(), 0x8002);
}

#[test]
fn reset_mid_program_restarts_from_the_vector() {
    let mut core = boot(&[0xA9, 0x42, 0xEA, 0xEA], 0x8000);
    core.step_instruction();
    assert_eq!(core.accum(), 0x42);
    core.reset();
    assert_eq!(core.pc(), 0x8000);
    assert_eq!(core.accum(), 0x00);
    assert_eq!(core.cycles(), 8);
    assert_eq!(core.status_byte(), 0x20);
}
