use mos6502::bus::bus;
use mos6502::cpu::CPU_6502;

/// Load `program` at `origin`, point the reset vector there, reset, and
/// run off the reset sequence's cycles so the core sits idle at `origin`.
fn boot(program: &[u8], origin: u16) -> CPU_6502 {
    let mut b = bus::new();
    b.cpu_write(0xFFFC, (origin & 0x00FF) as u8);
    b.cpu_write(0xFFFD, (origin >> 8) as u8);
    let mut addr = origin;
    for &byte in program {
        b.cpu_write(addr, byte);
        addr = addr.wrapping_add(1);
    }
    let mut core = CPU_6502::new(b);
    core.reset();
    core.step_instruction();
    core
}

/// Cycles one instruction takes, by the tick counter.
fn cycles_of_next_instruction(core: &mut CPU_6502) -> u32 {
    let before = core.clock_count();
    core.step_instruction();
    core.clock_count() - before
}

#[test]
fn indirect_jump_with_pointer_ending_ff_reads_high_byte_from_same_page() {
    // JMP ($10FF): low byte from $10FF, high byte from $1000 — not $1100.
    let mut core = boot(&[0x6C, 0xFF, 0x10], 0x8000);
    core.write_this(0x10FF, 0x34);
    core.write_this(0x1000, 0x12);
    core.write_this(0x1100, 0xEE);
    core.step_instruction();
    assert_eq!(core.pc(), 0x1234);
}

#[test]
fn indirect_jump_without_page_edge_reads_both_pointer_bytes() {
    // JMP ($1080)
    let mut core = boot(&[0x6C, 0x80, 0x10], 0x8000);
    core.write_this(0x1080, 0x78);
    core.write_this(0x1081, 0x56);
    core.step_instruction();
    assert_eq!(core.pc(), 0x5678);
}

#[test]
fn zero_page_loads_from_page_zero() {
    // LDA $40
    let mut core = boot(&[0xA5, 0x40], 0x8000);
    core.write_this(0x0040, 0x99);
    core.step_instruction();
    assert_eq!(core.accum(), 0x99);
}

#[test]
fn zero_page_x_wraps_within_page_zero() {
    // LDX #$10 ; LDA $F8,X  -> effective address ($F8+$10) mod 256 = $08
    let mut core = boot(&[0xA2, 0x10, 0xB5, 0xF8], 0x8000);
    core.write_this(0x0008, 0x5A);
    core.write_this(0x0108, 0xA5);
    core.step_instruction();
    core.step_instruction();
    assert_eq!(core.accum(), 0x5A);
}

#[test]
fn absolute_load_uses_little_endian_operand() {
    // LDA $1234
    let mut core = boot(&[0xAD, 0x34, 0x12], 0x8000);
    core.write_this(0x1234, 0x77);
    core.step_instruction();
    assert_eq!(core.accum(), 0x77);
}

#[test]
fn absolute_x_page_cross_adds_one_cycle() {
    // LDX #$20 ; LDA $80F0,X  -> $8110, crosses a page: 4 + 1 cycles
    let mut core = boot(&[0xA2, 0x20, 0xBD, 0xF0, 0x80], 0x8000);
    core.write_this(0x8110, 0x42);
    core.step_instruction();
    let crossing = cycles_of_next_instruction(&mut core);
    assert_eq!(core.accum(), 0x42);
    assert_eq!(crossing, 5);

    // LDX #$02 ; LDA $80F0,X -> same page: 4 cycles
    let mut core = boot(&[0xA2, 0x02, 0xBD, 0xF0, 0x80], 0x8000);
    core.write_this(0x80F2, 0x24);
    core.step_instruction();
    let same_page = cycles_of_next_instruction(&mut core);
    assert_eq!(core.accum(), 0x24);
    assert_eq!(same_page, 4);
}

#[test]
fn store_absolute_x_gets_no_extra_cycle_on_page_cross() {
    // Both extra-cycle signals must fire; STA reports none.
    // LDX #$20 ; STA $80F0,X -> base 5 cycles even though the sum crosses.
    let mut core = boot(&[0xA2, 0x20, 0x9D, 0xF0, 0x80], 0x8000);
    core.step_instruction();
    assert_eq!(cycles_of_next_instruction(&mut core), 5);
}

#[test]
fn pre_indexed_indirect_wraps_in_page_zero() {
    // LDX #$04 ; LDA ($FE,X): pointer at ($FE+$04) mod 256 = $02/$03
    let mut core = boot(&[0xA2, 0x04, 0xA1, 0xFE], 0x8000);
    core.write_this(0x0002, 0x00);
    core.write_this(0x0003, 0x30);
    core.write_this(0x3000, 0xAB);
    core.step_instruction();
    core.step_instruction();
    assert_eq!(core.accum(), 0xAB);
}

#[test]
fn post_indexed_indirect_adds_y_with_page_cross_cycle() {
    // LDY #$30 ; LDA ($40),Y: base from $40/$41 = $20F0, +$30 = $2120 (crossed)
    let mut core = boot(&[0xA0, 0x30, 0xB1, 0x40], 0x8000);
    core.write_this(0x0040, 0xF0);
    core.write_this(0x0041, 0x20);
    core.write_this(0x2120, 0xCD);
    core.step_instruction();
    let cycles = cycles_of_next_instruction(&mut core);
    assert_eq!(core.accum(), 0xCD);
    assert_eq!(cycles, 6);
}

#[test]
fn zero_page_y_indexes_with_y() {
    // LDY #$03 ; LDX $40,Y -> reads $43
    let mut core = boot(&[0xA0, 0x03, 0xB6, 0x40], 0x8000);
    core.write_this(0x0043, 0x66);
    core.step_instruction();
    core.step_instruction();
    assert_eq!(core.x_reg(), 0x66);
}

#[test]
fn bus_read_write_round_trip() {
    let mut b = bus::new();
    assert_eq!(b.cpu_read(0xABCD), 0x00);
    b.cpu_write(0xABCD, 0x5C);
    assert_eq!(b.cpu_read(0xABCD), 0x5C);
    assert_eq!(b.cpu_read(0xABCC), 0x00);
}
