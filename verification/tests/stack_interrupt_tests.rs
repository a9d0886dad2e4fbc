use mos6502::bus::bus;
use mos6502::cpu::CPU_6502;
use mos6502::flags::FLAGS_6502;

/// Load `program` at `origin`, point the reset vector there, reset, and
/// run off the reset sequence's cycles so the core sits idle at `origin`.
fn boot(program: &[u8], origin: u16) -> CPU_6502 {
    let mut b = bus::new();
    b.cpu_write(0xFFFC, (origin & 0x00FF) as u8);
    b.cpu_write(0xFFFD, (origin >> 8) as u8);
    let mut addr = origin;
    for &byte in program {
        b.cpu_write(addr, byte);
        addr = addr.wrapping_add(1);
    }
    let mut core = CPU_6502::new(b);
    core.reset();
    core.step_instruction();
    core
}

#[test]
fn push_pull_accumulator_restores_value_and_stack_pointer() {
    // LDA #$42 ; PHA ; LDA #$00 ; PLA
    let mut core = boot(&[0xA9, 0x42, 0x48, 0xA9, 0x00, 0x68], 0x8000);
    core.step_instruction();
    let sp_before = core.stkp();
    core.step_instruction();
    assert_eq!(core.stkp(), sp_before.wrapping_sub(1));
    core.step_instruction();
    assert_eq!(core.accum(), 0x00);
    core.step_instruction();
    assert_eq!(core.accum(), 0x42);
    assert_eq!(core.stkp(), sp_before);
}

#[test]
fn subroutine_call_and_return_restore_program_counter() {
    // $8000: JSR $8010 ; (next instruction at $8003)
    // $8010: RTS
    let mut core = boot(&[0x20, 0x10, 0x80], 0x8000);
    core.write_this(0x8010, 0x60);
    let sp_before = core.stkp();
    core.step_instruction();
    assert_eq!(core.pc(), 0x8010);
    assert_eq!(core.stkp(), sp_before.wrapping_sub(2));
    core.step_instruction();
    assert_eq!(core.pc(), 0x8003);
    assert_eq!(core.stkp(), sp_before);
}

#[test]
fn jsr_pushes_return_address_high_byte_first() {
    let mut core = boot(&[0x20, 0x10, 0x80], 0x8000);
    core.write_this(0x8010, 0x60);
    let sp = core.stkp();
    core.step_instruction();
    // Return address is the call's last byte, $8002: high byte on top.
    assert_eq!(core.read_this(0x0100 + sp as u16), 0x80);
    assert_eq!(core.read_this(0x0100 + sp.wrapping_sub(1) as u16), 0x02);
}

#[test]
fn php_pushes_status_with_break_and_unused_set() {
    // SEC ; PHP
    let mut core = boot(&[0x38, 0x08], 0x8000);
    let sp = core.stkp();
    core.step_instruction();
    core.step_instruction();
    // Pushed byte: Carry | Break | Unused = 0x01 | 0x10 | 0x20
    assert_eq!(core.read_this(0x0100 + sp as u16), 0x31);
}

#[test]
fn php_plp_round_trip_restores_carry() {
    // SEC ; PHP ; CLC ; PLP
    let mut core = boot(&[0x38, 0x08, 0x18, 0x28], 0x8000);
    core.step_instruction();
    core.step_instruction();
    core.step_instruction();
    assert_eq!(core.get_flag(FLAGS_6502::C), 0);
    core.step_instruction();
    assert_eq!(core.get_flag(FLAGS_6502::C), 1);
    assert_eq!(core.get_flag(FLAGS_6502::U), 1);
}

#[test]
fn brk_vectors_through_fffe_and_rti_returns() {
    // $8000: BRK (with padding byte) ; handler at $9000: RTI
    let mut core = boot(&[0x00, 0xFF], 0x8000);
    core.write_this(0xFFFE, 0x00);
    core.write_this(0xFFFF, 0x90);
    core.write_this(0x9000, 0x40);
    core.step_instruction();
    assert_eq!(core.pc(), 0x9000);
    assert_eq!(core.get_flag(FLAGS_6502::I), 1);
    core.step_instruction();
    // BRK pushed the address past its padding byte: $8000 + 3.
    assert_eq!(core.pc(), 0x8003);
}

#[test]
fn irq_has_no_effect_while_interrupt_disable_is_set() {
    // SEI
    let mut core = boot(&[0x78], 0x8000);
    core.step_instruction();
    let pc = core.pc();
    let sp = core.stkp();
    let status = core.status_byte();
    let cycles = core.cycles();
    core.irq();
    assert_eq!(core.pc(), pc);
    assert_eq!(core.stkp(), sp);
    assert_eq!(core.status_byte(), status);
    assert_eq!(core.cycles(), cycles);
}

#[test]
fn irq_vectors_through_fffe_when_enabled() {
    // Interrupt-disable is clear after reset.
    let mut core = boot(&[0xEA], 0x8000);
    core.write_this(0xFFFE, 0x00);
    core.write_this(0xFFFF, 0x90);
    let sp = core.stkp();
    core.irq();
    assert_eq!(core.pc(), 0x9000);
    assert_eq!(core.stkp(), sp.wrapping_sub(3));
    assert_eq!(core.cycles(), 7);
    assert_eq!(core.get_flag(FLAGS_6502::I), 1);
}

#[test]
fn nmi_is_taken_even_while_interrupt_disable_is_set() {
    // SEI ; NMI must still redirect control flow.
    let mut core = boot(&[0x78], 0x8000);
    core.step_instruction();
    core.write_this(0xFFFA, 0x00);
    core.write_this(0xFFFB, 0xA0);
    let sp = core.stkp();
    let pc = core.pc();
    core.nmi();
    assert_eq!(core.pc(), 0xA000);
    assert_eq!(core.stkp(), sp.wrapping_sub(3));
    assert_eq!(core.cycles(), 8);
    // The old program counter sits on the stack, high byte first.
    assert_eq!(core.read_this(0x0100 + sp as u16), (pc >> 8) as u8);
    assert_eq!(core.read_this(0x0100 + sp.wrapping_sub(1) as u16), (pc & 0xFF) as u8);
}

#[test]
fn interrupt_pushes_status_with_break_clear_and_unused_set() {
    let mut core = boot(&[0xEA], 0x8000);
    let sp = core.stkp();
    core.irq();
    let pushed = core.read_this(0x0100 + sp.wrapping_sub(2) as u16);
    assert_eq!(pushed & 0x10, 0);
    assert_eq!(pushed & 0x20, 0x20);
    // The pushed byte still shows Interrupt-disable clear; only the
    // live status register has it set afterwards.
    assert_eq!(pushed & 0x04, 0);
    assert_eq!(core.status_byte() & 0x04, 0x04);
}

#[test]
fn stack_pointer_wraps_below_zero() {
    // Drive the stack pointer down to 0 and push once more.
    let mut core = boot(&[0xA2, 0x00, 0x9A, 0x48], 0x8000);
    core.step_instruction();
    core.step_instruction();
    assert_eq!(core.stkp(), 0x00);
    core.step_instruction();
    assert_eq!(core.stkp(), 0xFF);
}
