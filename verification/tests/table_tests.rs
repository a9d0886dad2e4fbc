use mos6502::table::AddrMode;
use mos6502::table::Operation;
use mos6502::table::instruction_at;

#[test]
fn opcode_a9_is_lda_immediate_two_cycles() {
    let entry = instruction_at(0xA9);
    assert_eq!(entry.opcode(), 0xA9);
    assert_eq!(entry.addr_mode(), AddrMode::IMM);
    assert_eq!(entry.oper(), Operation::LDA);
    assert_eq!(entry.cycles(), 2);
}

#[test]
fn opcode_4c_is_jmp_absolute_three_cycles() {
    let entry = instruction_at(0x4C);
    assert_eq!(entry.opcode(), 0x4C);
    assert_eq!(entry.addr_mode(), AddrMode::ABS);
    assert_eq!(entry.oper(), Operation::JMP);
    assert_eq!(entry.cycles(), 3);
}

#[test]
fn opcode_00_is_brk_seven_cycles() {
    let entry = instruction_at(0x00);
    assert_eq!(entry.oper(), Operation::BRK);
    assert_eq!(entry.cycles(), 7);
}

#[test]
fn opcode_ea_is_nop_implied() {
    let entry = instruction_at(0xEA);
    assert_eq!(entry.addr_mode(), AddrMode::IMP);
    assert_eq!(entry.oper(), Operation::NOP);
    assert_eq!(entry.cycles(), 2);
}

#[test]
fn opcode_6c_is_jmp_indirect_five_cycles() {
    let entry = instruction_at(0x6C);
    assert_eq!(entry.addr_mode(), AddrMode::IND);
    assert_eq!(entry.oper(), Operation::JMP);
    assert_eq!(entry.cycles(), 5);
}

#[test]
fn opcode_20_is_jsr_absolute_six_cycles() {
    let entry = instruction_at(0x20);
    assert_eq!(entry.addr_mode(), AddrMode::ABS);
    assert_eq!(entry.oper(), Operation::JSR);
    assert_eq!(entry.cycles(), 6);
}

#[test]
fn undocumented_opcode_03_has_its_own_tag() {
    let entry = instruction_at(0x03);
    assert_eq!(entry.addr_mode(), AddrMode::IZX);
    assert_eq!(entry.oper(), Operation::SLO);
    assert_eq!(entry.cycles(), 8);
    assert_ne!(entry.oper(), Operation::NOP);
}

#[test]
fn table_is_total_with_base_cycles_in_range() {
    for op in 0..=255u8 {
        let entry = instruction_at(op);
        assert_eq!(entry.opcode(), op);
        assert!(entry.cycles() >= 2 && entry.cycles() <= 8);
    }
}
