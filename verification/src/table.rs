//! The decode table: a total mapping from each of the 256 opcode bytes to
//! an addressing mode, an operation, and a base cycle count.
//!
//! The table is the golden reference for dispatch: every byte value has an
//! entry, and undocumented opcodes carry their own distinct operation tags
//! rather than being folded into NOP.  `spec_instruction` is the table as a
//! mathematical function; `instruction_at` is the executable lookup proved
//! equal to it.

use vstd::prelude::*;

verus! {

/// The twelve addressing modes.
#[derive(Clone, Copy, Debug, PartialEq, Eq, Structural)]
pub enum AddrMode {
    IMP,
    IMM,
    ZP0,
    ZPX,
    ZPY,
    REL,
    ABS,
    ABX,
    ABY,
    IND,
    IZX,
    IZY,
}

/// Operation tags: the 56 documented operations, the undocumented ones
/// that appear in the decode table, and `XXX` for the remaining unassigned
/// opcode slots.
#[derive(Clone, Copy, Debug, PartialEq, Eq, Structural)]
pub enum Operation {
    ADC,
    AND,
    ASL,
    BCC,
    BCS,
    BEQ,
    BIT,
    BMI,
    BNE,
    BPL,
    BRK,
    BVC,
    BVS,
    CLC,
    CLD,
    CLI,
    CLV,
    CMP,
    CPX,
    CPY,
    DEC,
    DEX,
    DEY,
    EOR,
    INC,
    INX,
    INY,
    JMP,
    JSR,
    LDA,
    LDX,
    LDY,
    LSR,
    NOP,
    ORA,
    PHA,
    PHP,
    PLA,
    PLP,
    ROL,
    ROR,
    RTI,
    RTS,
    SBC,
    SEC,
    SED,
    SEI,
    STA,
    STX,
    STY,
    TAX,
    TAY,
    TSX,
    TXA,
    TXS,
    TYA,
    AHX,
    ALR,
    ANC,
    ARR,
    AXS,
    DCP,
    ISC,
    KIL,
    LAS,
    LAX,
    RLA,
    RRA,
    SAX,
    SHX,
    SHY,
    SLO,
    SRE,
    TAS,
    XAA,
    XXX,
}

/// One decode-table entry.
#[derive(Clone, Copy, Debug, PartialEq, Eq, Structural)]
pub struct Instruction {
    pub opcode: u8,
    pub addr_mode: AddrMode,
    pub oper: Operation,
    pub cycles: u8,
}

impl Instruction {
    /// The opcode byte this entry decodes.
    pub fn opcode(&self) -> (r: u8)
        ensures
            r == self.opcode,
    {
        self.opcode
    }

    /// The addressing mode the opcode selects.
    pub fn addr_mode(&self) -> (r: AddrMode)
        ensures
            r == self.addr_mode,
    {
        self.addr_mode
    }

    /// The operation the opcode selects.
    pub fn oper(&self) -> (r: Operation)
        ensures
            r == self.oper,
    {
        self.oper
    }

    /// The base cycle count, before any page-crossing or branch bonus.
    pub fn cycles(&self) -> (r: u8)
        ensures
            r == self.cycles,
    {
        self.cycles
    }
}

/// The decode table as a function of the opcode byte.  Opaque: its
/// definition is revealed only where an entry's content matters.
#[verifier::opaque]
pub open spec fn spec_instruction(op: u8) -> Instruction {
    match op {
        0x00 => (Instruction { opcode: 0x00, addr_mode: AddrMode::IMM, oper: Operation::BRK, cycles: 7 }),
        0x01 => (Instruction { opcode: 0x01, addr_mode: AddrMode::IZX, oper: Operation::ORA, cycles: 6 }),
        0x02 => (Instruction { opcode: 0x02, addr_mode: AddrMode::IMP, oper: Operation::XXX, cycles: 2 }),
        0x03 => (Instruction { opcode: 0x03, addr_mode: AddrMode::IZX, oper: Operation::SLO, cycles: 8 }),
        0x04 => (Instruction { opcode: 0x04, addr_mode: AddrMode::ZP0, oper: Operation::NOP, cycles: 3 }),
        0x05 => (Instruction { opcode: 0x05, addr_mode: AddrMode::ZP0, oper: Operation::ORA, cycles: 3 }),
        0x06 => (Instruction { opcode: 0x06, addr_mode: AddrMode::ZP0, oper: Operation::ASL, cycles: 5 }),
        0x07 => (Instruction { opcode: 0x07, addr_mode: AddrMode::ZP0, oper: Operation::SLO, cycles: 5 }),
        0x08 => (Instruction { opcode: 0x08, addr_mode: AddrMode::IMP, oper: Operation::PHP, cycles: 3 }),
        0x09 => (Instruction { opcode: 0x09, addr_mode: AddrMode::IMM, oper: Operation::ORA, cycles: 2 }),
        0x0A => (Instruction { opcode: 0x0A, addr_mode: AddrMode::IMP, oper: Operation::ASL, cycles: 2 }),
        0x0B => (Instruction { opcode: 0x0B, addr_mode: AddrMode::IMM, oper: Operation::ANC, cycles: 2 }),
        0x0C => (Instruction { opcode: 0x0C, addr_mode: AddrMode::ABS, oper: Operation::NOP, cycles: 4 }),
        0x0D => (Instruction { opcode: 0x0D, addr_mode: AddrMode::ABS, oper: Operation::ORA, cycles: 4 }),
        0x0E => (Instruction { opcode: 0x0E, addr_mode: AddrMode::ABS, oper: Operation::ASL, cycles: 6 }),
        0x0F => (Instruction { opcode: 0x0F, addr_mode: AddrMode::ABS, oper: Operation::SLO, cycles: 6 }),
        0x10 => (Instruction { opcode: 0x10, addr_mode: AddrMode::REL, oper: Operation::BPL, cycles: 2 }),
        0x11 => (Instruction { opcode: 0x11, addr_mode: AddrMode::IZY, oper: Operation::ORA, cycles: 5 }),
        0x12 => (Instruction { opcode: 0x12, addr_mode: AddrMode::IMP, oper: Operation::XXX, cycles: 2 }),
        0x13 => (Instruction { opcode: 0x13, addr_mode: AddrMode::IZY, oper: Operation::SLO, cycles: 8 }),
        0x14 => (Instruction { opcode: 0x14, addr_mode: AddrMode::ZPX, oper: Operation::NOP, cycles: 4 }),
        0x15 => (Instruction { opcode: 0x15, addr_mode: AddrMode::ZPX, oper: Operation::ORA, cycles: 4 }),
        0x16 => (Instruction { opcode: 0x16, addr_mode: AddrMode::ZPX, oper: Operation::ASL, cycles: 6 }),
        0x17 => (Instruction { opcode: 0x17, addr_mode: AddrMode::ZPX, oper: Operation::SLO, cycles: 6 }),
        0x18 => (Instruction { opcode: 0x18, addr_mode: AddrMode::IMP, oper: Operation::CLC, cycles: 2 }),
        0x19 => (Instruction { opcode: 0x19, addr_mode: AddrMode::ABY, oper: Operation::ORA, cycles: 4 }),
        0x1A => (Instruction { opcode: 0x1A, addr_mode: AddrMode::IMP, oper: Operation::NOP, cycles: 2 }),
        0x1B => (Instruction { opcode: 0x1B, addr_mode: AddrMode::ABY, oper: Operation::SLO, cycles: 7 }),
        0x1C => (Instruction { opcode: 0x1C, addr_mode: AddrMode::ABX, oper: Operation::NOP, cycles: 4 }),
        0x1D => (Instruction { opcode: 0x1D, addr_mode: AddrMode::ABX, oper: Operation::ORA, cycles: 4 }),
        0x1E => (Instruction { opcode: 0x1E, addr_mode: AddrMode::ABX, oper: Operation::ASL, cycles: 7 }),
        0x1F => (Instruction { opcode: 0x1F, addr_mode: AddrMode::ABX, oper: Operation::SLO, cycles: 7 }),
        0x20 => (Instruction { opcode: 0x20, addr_mode: AddrMode::ABS, oper: Operation::JSR, cycles: 6 }),
        0x21 => (Instruction { opcode: 0x21, addr_mode: AddrMode::IZX, oper: Operation::AND, cycles: 6 }),
        0x22 => (Instruction { opcode: 0x22, addr_mode: AddrMode::IMP, oper: Operation::XXX, cycles: 2 }),
        0x23 => (Instruction { opcode: 0x23, addr_mode: AddrMode::IZX, oper: Operation::RLA, cycles: 8 }),
        0x24 => (Instruction { opcode: 0x24, addr_mode: AddrMode::ZP0, oper: Operation::BIT, cycles: 3 }),
        0x25 => (Instruction { opcode: 0x25, addr_mode: AddrMode::ZP0, oper: Operation::AND, cycles: 3 }),
        0x26 => (Instruction { opcode: 0x26, addr_mode: AddrMode::ZP0, oper: Operation::ROL, cycles: 5 }),
        0x27 => (Instruction { opcode: 0x27, addr_mode: AddrMode::ZP0, oper: Operation::RLA, cycles: 5 }),
        0x28 => (Instruction { opcode: 0x28, addr_mode: AddrMode::IMP, oper: Operation::PLP, cycles: 4 }),
        0x29 => (Instruction { opcode: 0x29, addr_mode: AddrMode::IMM, oper: Operation::AND, cycles: 2 }),
        0x2A => (Instruction { opcode: 0x2A, addr_mode: AddrMode::IMP, oper: Operation::ROL, cycles: 2 }),
        0x2B => (Instruction { opcode: 0x2B, addr_mode: AddrMode::IMM, oper: Operation::ANC, cycles: 2 }),
        0x2C => (Instruction { opcode: 0x2C, addr_mode: AddrMode::ABS, oper: Operation::BIT, cycles: 4 }),
        0x2D => (Instruction { opcode: 0x2D, addr_mode: AddrMode::ABS, oper: Operation::AND, cycles: 4 }),
        0x2E => (Instruction { opcode: 0x2E, addr_mode: AddrMode::ABS, oper: Operation::ROL, cycles: 6 }),
        0x2F => (Instruction { opcode: 0x2F, addr_mode: AddrMode::ABS, oper: Operation::RLA, cycles: 6 }),
        0x30 => (Instruction { opcode: 0x30, addr_mode: AddrMode::REL, oper: Operation::BMI, cycles: 2 }),
        0x31 => (Instruction { opcode: 0x31, addr_mode: AddrMode::IZY, oper: Operation::AND, cycles: 5 }),
        0x32 => (Instruction { opcode: 0x32, addr_mode: AddrMode::IMP, oper: Operation::XXX, cycles: 2 }),
        0x33 => (Instruction { opcode: 0x33, addr_mode: AddrMode::IZY, oper: Operation::RLA, cycles: 8 }),
        0x34 => (Instruction { opcode: 0x34, addr_mode: AddrMode::ZPX, oper: Operation::NOP, cycles: 4 }),
        0x35 => (Instruction { opcode: 0x35, addr_mode: AddrMode::ZPX, oper: Operation::AND, cycles: 4 }),
        0x36 => (Instruction { opcode: 0x36, addr_mode: AddrMode::ZPX, oper: Operation::ROL, cycles: 6 }),
        0x37 => (Instruction { opcode: 0x37, addr_mode: AddrMode::ZPX, oper: Operation::RLA, cycles: 6 }),
        0x38 => (Instruction { opcode: 0x38, addr_mode: AddrMode::IMP, oper: Operation::SEC, cycles: 2 }),
        0x39 => (Instruction { opcode: 0x39, addr_mode: AddrMode::ABY, oper: Operation::AND, cycles: 4 }),
        0x3A => (Instruction { opcode: 0x3A, addr_mode: AddrMode::IMP, oper: Operation::NOP, cycles: 2 }),
        0x3B => (Instruction { opcode: 0x3B, addr_mode: AddrMode::ABY, oper: Operation::RLA, cycles: 7 }),
        0x3C => (Instruction { opcode: 0x3C, addr_mode: AddrMode::ABX, oper: Operation::NOP, cycles: 4 }),
        0x3D => (Instruction { opcode: 0x3D, addr_mode: AddrMode::ABX, oper: Operation::AND, cycles: 4 }),
        0x3E => (Instruction { opcode: 0x3E, addr_mode: AddrMode::ABX, oper: Operation::ROL, cycles: 7 }),
        0x3F => (Instruction { opcode: 0x3F, addr_mode: AddrMode::ABX, oper: Operation::RLA, cycles: 7 }),
        0x40 => (Instruction { opcode: 0x40, addr_mode: AddrMode::IMP, oper: Operation::RTI, cycles: 6 }),
        0x41 => (Instruction { opcode: 0x41, addr_mode: AddrMode::IZX, oper: Operation::EOR, cycles: 6 }),
        0x42 => (Instruction { opcode: 0x42, addr_mode: AddrMode::IMP, oper: Operation::XXX, cycles: 2 }),
        0x43 => (Instruction { opcode: 0x43, addr_mode: AddrMode::IZX, oper: Operation::SRE, cycles: 8 }),
        0x44 => (Instruction { opcode: 0x44, addr_mode: AddrMode::ZP0, oper: Operation::NOP, cycles: 3 }),
        0x45 => (Instruction { opcode: 0x45, addr_mode: AddrMode::ZP0, oper: Operation::EOR, cycles: 3 }),
        0x46 => (Instruction { opcode: 0x46, addr_mode: AddrMode::ZP0, oper: Operation::LSR, cycles: 5 }),
        0x47 => (Instruction { opcode: 0x47, addr_mode: AddrMode::ZP0, oper: Operation::SRE, cycles: 5 }),
        0x48 => (Instruction { opcode: 0x48, addr_mode: AddrMode::IMP, oper: Operation::PHA, cycles: 3 }),
        0x49 => (Instruction { opcode: 0x49, addr_mode: AddrMode::IMM, oper: Operation::EOR, cycles: 2 }),
        0x4A => (Instruction { opcode: 0x4A, addr_mode: AddrMode::IMP, oper: Operation::LSR, cycles: 2 }),
        0x4B => (Instruction { opcode: 0x4B, addr_mode: AddrMode::IMM, oper: Operation::ALR, cycles: 2 }),
        0x4C => (Instruction { opcode: 0x4C, addr_mode: AddrMode::ABS, oper: Operation::JMP, cycles: 3 }),
        0x4D => (Instruction { opcode: 0x4D, addr_mode: AddrMode::ABS, oper: Operation::EOR, cycles: 4 }),
        0x4E => (Instruction { opcode: 0x4E, addr_mode: AddrMode::ABS, oper: Operation::LSR, cycles: 6 }),
        0x4F => (Instruction { opcode: 0x4F, addr_mode: AddrMode::ABS, oper: Operation::SRE, cycles: 6 }),
        0x50 => (Instruction { opcode: 0x50, addr_mode: AddrMode::REL, oper: Operation::BVC, cycles: 2 }),
        0x51 => (Instruction { opcode: 0x51, addr_mode: AddrMode::IZY, oper: Operation::EOR, cycles: 5 }),
        0x52 => (Instruction { opcode: 0x52, addr_mode: AddrMode::IMP, oper: Operation::XXX, cycles: 2 }),
        0x53 => (Instruction { opcode: 0x53, addr_mode: AddrMode::IZY, oper: Operation::SRE, cycles: 8 }),
        0x54 => (Instruction { opcode: 0x54, addr_mode: AddrMode::ZPX, oper: Operation::NOP, cycles: 4 }),
        0x55 => (Instruction { opcode: 0x55, addr_mode: AddrMode::ZPX, oper: Operation::EOR, cycles: 4 }),
        0x56 => (Instruction { opcode: 0x56, addr_mode: AddrMode::ZPX, oper: Operation::LSR, cycles: 6 }),
        0x57 => (Instruction { opcode: 0x57, addr_mode: AddrMode::ZPX, oper: Operation::SRE, cycles: 6 }),
        0x58 => (Instruction { opcode: 0x58, addr_mode: AddrMode::IMP, oper: Operation::CLI, cycles: 2 }),
        0x59 => (Instruction { opcode: 0x59, addr_mode: AddrMode::ABY, oper: Operation::EOR, cycles: 4 }),
        0x5A => (Instruction { opcode: 0x5A, addr_mode: AddrMode::IMP, oper: Operation::NOP, cycles: 2 }),
        0x5B => (Instruction { opcode: 0x5B, addr_mode: AddrMode::ABY, oper: Operation::SRE, cycles: 7 }),
        0x5C => (Instruction { opcode: 0x5C, addr_mode: AddrMode::ABX, oper: Operation::NOP, cycles: 4 }),
        0x5D => (Instruction { opcode: 0x5D, addr_mode: AddrMode::ABX, oper: Operation::EOR, cycles: 4 }),
        0x5E => (Instruction { opcode: 0x5E, addr_mode: AddrMode::ABX, oper: Operation::LSR, cycles: 7 }),
        0x5F => (Instruction { opcode: 0x5F, addr_mode: AddrMode::ABX, oper: Operation::SRE, cycles: 7 }),
        0x60 => (Instruction { opcode: 0x60, addr_mode: AddrMode::IMP, oper: Operation::RTS, cycles: 6 }),
        0x61 => (Instruction { opcode: 0x61, addr_mode: AddrMode::IZX, oper: Operation::ADC, cycles: 6 }),
        0x62 => (Instruction { opcode: 0x62, addr_mode: AddrMode::IMP, oper: Operation::XXX, cycles: 2 }),
        0x63 => (Instruction { opcode: 0x63, addr_mode: AddrMode::IZX, oper: Operation::RRA, cycles: 8 }),
        0x64 => (Instruction { opcode: 0x64, addr_mode: AddrMode::ZP0, oper: Operation::NOP, cycles: 3 }),
        0x65 => (Instruction { opcode: 0x65, addr_mode: AddrMode::ZP0, oper: Operation::ADC, cycles: 3 }),
        0x66 => (Instruction { opcode: 0x66, addr_mode: AddrMode::ZP0, oper: Operation::ROR, cycles: 5 }),
        0x67 => (Instruction { opcode: 0x67, addr_mode: AddrMode::ZP0, oper: Operation::RRA, cycles: 5 }),
        0x68 => (Instruction { opcode: 0x68, addr_mode: AddrMode::IMP, oper: Operation::PLA, cycles: 4 }),
        0x69 => (Instruction { opcode: 0x69, addr_mode: AddrMode::IMM, oper: Operation::ADC, cycles: 2 }),
        0x6A => (Instruction { opcode: 0x6A, addr_mode: AddrMode::IMP, oper: Operation::ROR, cycles: 2 }),
        0x6B => (Instruction { opcode: 0x6B, addr_mode: AddrMode::IMM, oper: Operation::ARR, cycles: 2 }),
        0x6C => (Instruction { opcode: 0x6C, addr_mode: AddrMode::IND, oper: Operation::JMP, cycles: 5 }),
        0x6D => (Instruction { opcode: 0x6D, addr_mode: AddrMode::ABS, oper: Operation::ADC, cycles: 4 }),
        0x6E => (Instruction { opcode: 0x6E, addr_mode: AddrMode::ABS, oper: Operation::ROR, cycles: 6 }),
        0x6F => (Instruction { opcode: 0x6F, addr_mode: AddrMode::ABS, oper: Operation::RRA, cycles: 6 }),
        0x70 => (Instruction { opcode: 0x70, addr_mode: AddrMode::REL, oper: Operation::BVS, cycles: 2 }),
        0x71 => (Instruction { opcode: 0x71, addr_mode: AddrMode::IZY, oper: Operation::ADC, cycles: 5 }),
        0x72 => (Instruction { opcode: 0x72, addr_mode: AddrMode::IMP, oper: Operation::XXX, cycles: 2 }),
        0x73 => (Instruction { opcode: 0x73, addr_mode: AddrMode::IZY, oper: Operation::RRA, cycles: 8 }),
        0x74 => (Instruction { opcode: 0x74, addr_mode: AddrMode::ZPX, oper: Operation::NOP, cycles: 4 }),
        0x75 => (Instruction { opcode: 0x75, addr_mode: AddrMode::ZPX, oper: Operation::ADC, cycles: 4 }),
        0x76 => (Instruction { opcode: 0x76, addr_mode: AddrMode::ZPX, oper: Operation::ROR, cycles: 6 }),
        0x77 => (Instruction { opcode: 0x77, addr_mode: AddrMode::ZPX, oper: Operation::RRA, cycles: 6 }),
        0x78 => (Instruction { opcode: 0x78, addr_mode: AddrMode::IMP, oper: Operation::SEI, cycles: 2 }),
        0x79 => (Instruction { opcode: 0x79, addr_mode: AddrMode::ABY, oper: Operation::ADC, cycles: 4 }),
        0x7A => (Instruction { opcode: 0x7A, addr_mode: AddrMode::IMP, oper: Operation::NOP, cycles: 2 }),
        0x7B => (Instruction { opcode: 0x7B, addr_mode: AddrMode::ABY, oper: Operation::RRA, cycles: 7 }),
        0x7C => (Instruction { opcode: 0x7C, addr_mode: AddrMode::ABX, oper: Operation::NOP, cycles: 4 }),
        0x7D => (Instruction { opcode: 0x7D, addr_mode: AddrMode::ABX, oper: Operation::ADC, cycles: 4 }),
        0x7E => (Instruction { opcode: 0x7E, addr_mode: AddrMode::ABX, oper: Operation::ROR, cycles: 7 }),
        0x7F => (Instruction { opcode: 0x7F, addr_mode: AddrMode::ABX, oper: Operation::RRA, cycles: 7 }),
        0x80 => (Instruction { opcode: 0x80, addr_mode: AddrMode::IMM, oper: Operation::NOP, cycles: 2 }),
        0x81 => (Instruction { opcode: 0x81, addr_mode: AddrMode::IZX, oper: Operation::STA, cycles: 6 }),
        0x82 => (Instruction { opcode: 0x82, addr_mode: AddrMode::IMM, oper: Operation::NOP, cycles: 2 }),
        0x83 => (Instruction { opcode: 0x83, addr_mode: AddrMode::IZX, oper: Operation::SAX, cycles: 6 }),
        0x84 => (Instruction { opcode: 0x84, addr_mode: AddrMode::ZP0, oper: Operation::STY, cycles: 3 }),
        0x85 => (Instruction { opcode: 0x85, addr_mode: AddrMode::ZP0, oper: Operation::STA, cycles: 3 }),
        0x86 => (Instruction { opcode: 0x86, addr_mode: AddrMode::ZP0, oper: Operation::STX, cycles: 3 }),
        0x87 => (Instruction { opcode: 0x87, addr_mode: AddrMode::ZP0, oper: Operation::SAX, cycles: 3 }),
        0x88 => (Instruction { opcode: 0x88, addr_mode: AddrMode::IMP, oper: Operation::DEY, cycles: 2 }),
        0x89 => (Instruction { opcode: 0x89, addr_mode: AddrMode::IMM, oper: Operation::NOP, cycles: 2 }),
        0x8A => (Instruction { opcode: 0x8A, addr_mode: AddrMode::IMP, oper: Operation::TXA, cycles: 2 }),
        0x8B => (Instruction { opcode: 0x8B, addr_mode: AddrMode::IMM, oper: Operation::XAA, cycles: 2 }),
        0x8C => (Instruction { opcode: 0x8C, addr_mode: AddrMode::ABS, oper: Operation::STY, cycles: 4 }),
        0x8D => (Instruction { opcode: 0x8D, addr_mode: AddrMode::ABS, oper: Operation::STA, cycles: 4 }),
        0x8E => (Instruction { opcode: 0x8E, addr_mode: AddrMode::ABS, oper: Operation::STX, cycles: 4 }),
        0x8F => (Instruction { opcode: 0x8F, addr_mode: AddrMode::ABS, oper: Operation::SAX, cycles: 4 }),
        0x90 => (Instruction { opcode: 0x90, addr_mode: AddrMode::REL, oper: Operation::BCC, cycles: 2 }),
        0x91 => (Instruction { opcode: 0x91, addr_mode: AddrMode::IZY, oper: Operation::STA, cycles: 6 }),
        0x92 => (Instruction { opcode: 0x92, addr_mode: AddrMode::IMP, oper: Operation::XXX, cycles: 2 }),
        0x93 => (Instruction { opcode: 0x93, addr_mode: AddrMode::IZY, oper: Operation::AHX, cycles: 6 }),
        0x94 => (Instruction { opcode: 0x94, addr_mode: AddrMode::ZPX, oper: Operation::STY, cycles: 4 }),
        0x95 => (Instruction { opcode: 0x95, addr_mode: AddrMode::ZPX, oper: Operation::STA, cycles: 4 }),
        0x96 => (Instruction { opcode: 0x96, addr_mode: AddrMode::ZPY, oper: Operation::STX, cycles: 4 }),
        0x97 => (Instruction { opcode: 0x97, addr_mode: AddrMode::ZPY, oper: Operation::SAX, cycles: 4 }),
        0x98 => (Instruction { opcode: 0x98, addr_mode: AddrMode::IMP, oper: Operation::TYA, cycles: 2 }),
        0x99 => (Instruction { opcode: 0x99, addr_mode: AddrMode::ABY, oper: Operation::STA, cycles: 5 }),
        0x9A => (Instruction { opcode: 0x9A, addr_mode: AddrMode::IMP, oper: Operation::TXS, cycles: 2 }),
        0x9B => (Instruction { opcode: 0x9B, addr_mode: AddrMode::ABY, oper: Operation::TAS, cycles: 5 }),
        0x9C => (Instruction { opcode: 0x9C, addr_mode: AddrMode::ABX, oper: Operation::SHY, cycles: 5 }),
        0x9D => (Instruction { opcode: 0x9D, addr_mode: AddrMode::ABX, oper: Operation::STA, cycles: 5 }),
        0x9E => (Instruction { opcode: 0x9E, addr_mode: AddrMode::ABY, oper: Operation::SHX, cycles: 5 }),
        0x9F => (Instruction { opcode: 0x9F, addr_mode: AddrMode::ABY, oper: Operation::AHX, cycles: 5 }),
        0xA0 => (Instruction { opcode: 0xA0, addr_mode: AddrMode::IMM, oper: Operation::LDY, cycles: 2 }),
        0xA1 => (Instruction { opcode: 0xA1, addr_mode: AddrMode::IZX, oper: Operation::LDA, cycles: 6 }),
        0xA2 => (Instruction { opcode: 0xA2, addr_mode: AddrMode::IMM, oper: Operation::LDX, cycles: 2 }),
        0xA3 => (Instruction { opcode: 0xA3, addr_mode: AddrMode::IZX, oper: Operation::LAX, cycles: 6 }),
        0xA4 => (Instruction { opcode: 0xA4, addr_mode: AddrMode::ZP0, oper: Operation::LDY, cycles: 3 }),
        0xA5 => (Instruction { opcode: 0xA5, addr_mode: AddrMode::ZP0, oper: Operation::LDA, cycles: 3 }),
        0xA6 => (Instruction { opcode: 0xA6, addr_mode: AddrMode::ZP0, oper: Operation::LDX, cycles: 3 }),
        0xA7 => (Instruction { opcode: 0xA7, addr_mode: AddrMode::ZP0, oper: Operation::LAX, cycles: 3 }),
        0xA8 => (Instruction { opcode: 0xA8, addr_mode: AddrMode::IMP, oper: Operation::TAY, cycles: 2 }),
        0xA9 => (Instruction { opcode: 0xA9, addr_mode: AddrMode::IMM, oper: Operation::LDA, cycles: 2 }),
        0xAA => (Instruction { opcode: 0xAA, addr_mode: AddrMode::IMP, oper: Operation::TAX, cycles: 2 }),
        0xAB => (Instruction { opcode: 0xAB, addr_mode: AddrMode::IMM, oper: Operation::LAX, cycles: 2 }),
        0xAC => (Instruction { opcode: 0xAC, addr_mode: AddrMode::ABS, oper: Operation::LDY, cycles: 4 }),
        0xAD => (Instruction { opcode: 0xAD, addr_mode: AddrMode::ABS, oper: Operation::LDA, cycles: 4 }),
        0xAE => (Instruction { opcode: 0xAE, addr_mode: AddrMode::ABS, oper: Operation::LDX, cycles: 4 }),
        0xAF => (Instruction { opcode: 0xAF, addr_mode: AddrMode::ABS, oper: Operation::LAX, cycles: 4 }),
        0xB0 => (Instruction { opcode: 0xB0, addr_mode: AddrMode::REL, oper: Operation::BCS, cycles: 2 }),
        0xB1 => (Instruction { opcode: 0xB1, addr_mode: AddrMode::IZY, oper: Operation::LDA, cycles: 5 }),
        0xB2 => (Instruction { opcode: 0xB2, addr_mode: AddrMode::IMP, oper: Operation::XXX, cycles: 2 }),
        0xB3 => (Instruction { opcode: 0xB3, addr_mode: AddrMode::IZY, oper: Operation::LAX, cycles: 5 }),
        0xB4 => (Instruction { opcode: 0xB4, addr_mode: AddrMode::ZPX, oper: Operation::LDY, cycles: 4 }),
        0xB5 => (Instruction { opcode: 0xB5, addr_mode: AddrMode::ZPX, oper: Operation::LDA, cycles: 4 }),
        0xB6 => (Instruction { opcode: 0xB6, addr_mode: AddrMode::ZPY, oper: Operation::LDX, cycles: 4 }),
        0xB7 => (Instruction { opcode: 0xB7, addr_mode: AddrMode::ZPY, oper: Operation::LAX, cycles: 4 }),
        0xB8 => (Instruction { opcode: 0xB8, addr_mode: AddrMode::IMP, oper: Operation::CLV, cycles: 2 }),
        0xB9 => (Instruction { opcode: 0xB9, addr_mode: AddrMode::ABY, oper: Operation::LDA, cycles: 4 }),
        0xBA => (Instruction { opcode: 0xBA, addr_mode: AddrMode::IMP, oper: Operation::TSX, cycles: 2 }),
        0xBB => (Instruction { opcode: 0xBB, addr_mode: AddrMode::ABY, oper: Operation::LAS, cycles: 4 }),
        0xBC => (Instruction { opcode: 0xBC, addr_mode: AddrMode::ABX, oper: Operation::LDY, cycles: 4 }),
        0xBD => (Instruction { opcode: 0xBD, addr_mode: AddrMode::ABX, oper: Operation::LDA, cycles: 4 }),
        0xBE => (Instruction { opcode: 0xBE, addr_mode: AddrMode::ABY, oper: Operation::LDX, cycles: 4 }),
        0xBF => (Instruction { opcode: 0xBF, addr_mode: AddrMode::ABY, oper: Operation::LAX, cycles: 4 }),
        0xC0 => (Instruction { opcode: 0xC0, addr_mode: AddrMode::IMM, oper: Operation::CPY, cycles: 2 }),
        0xC1 => (Instruction { opcode: 0xC1, addr_mode: AddrMode::IZX, oper: Operation::CMP, cycles: 6 }),
        0xC2 => (Instruction { opcode: 0xC2, addr_mode: AddrMode::IMM, oper: Operation::NOP, cycles: 2 }),
        0xC3 => (Instruction { opcode: 0xC3, addr_mode: AddrMode::IZX, oper: Operation::DCP, cycles: 8 }),
        0xC4 => (Instruction { opcode: 0xC4, addr_mode: AddrMode::ZP0, oper: Operation::CPY, cycles: 3 }),
        0xC5 => (Instruction { opcode: 0xC5, addr_mode: AddrMode::ZP0, oper: Operation::CMP, cycles: 3 }),
        0xC6 => (Instruction { opcode: 0xC6, addr_mode: AddrMode::ZP0, oper: Operation::DEC, cycles: 5 }),
        0xC7 => (Instruction { opcode: 0xC7, addr_mode: AddrMode::ZP0, oper: Operation::DCP, cycles: 5 }),
        0xC8 => (Instruction { opcode: 0xC8, addr_mode: AddrMode::IMP, oper: Operation::INY, cycles: 2 }),
        0xC9 => (Instruction { opcode: 0xC9, addr_mode: AddrMode::IMM, oper: Operation::CMP, cycles: 2 }),
        0xCA => (Instruction { opcode: 0xCA, addr_mode: AddrMode::IMP, oper: Operation::DEX, cycles: 2 }),
        0xCB => (Instruction { opcode: 0xCB, addr_mode: AddrMode::IMM, oper: Operation::AXS, cycles: 2 }),
        0xCC => (Instruction { opcode: 0xCC, addr_mode: AddrMode::ABS, oper: Operation::CPY, cycles: 4 }),
        0xCD => (Instruction { opcode: 0xCD, addr_mode: AddrMode::ABS, oper: Operation::CMP, cycles: 4 }),
        0xCE => (Instruction { opcode: 0xCE, addr_mode: AddrMode::ABS, oper: Operation::DEC, cycles: 6 }),
        0xCF => (Instruction { opcode: 0xCF, addr_mode: AddrMode::ABS, oper: Operation::DCP, cycles: 6 }),
        0xD0 => (Instruction { opcode: 0xD0, addr_mode: AddrMode::REL, oper: Operation::BNE, cycles: 2 }),
        0xD1 => (Instruction { opcode: 0xD1, addr_mode: AddrMode::IZY, oper: Operation::CMP, cycles: 5 }),
        0xD2 => (Instruction { opcode: 0xD2, addr_mode: AddrMode::IMP, oper: Operation::XXX, cycles: 2 }),
        0xD3 => (Instruction { opcode: 0xD3, addr_mode: AddrMode::IZY, oper: Operation::DCP, cycles: 8 }),
        0xD4 => (Instruction { opcode: 0xD4, addr_mode: AddrMode::ZPX, oper: Operation::NOP, cycles: 4 }),
        0xD5 => (Instruction { opcode: 0xD5, addr_mode: AddrMode::ZPX, oper: Operation::CMP, cycles: 4 }),
        0xD6 => (Instruction { opcode: 0xD6, addr_mode: AddrMode::ZPX, oper: Operation::DEC, cycles: 6 }),
        0xD7 => (Instruction { opcode: 0xD7, addr_mode: AddrMode::ZPX, oper: Operation::DCP, cycles: 6 }),
        0xD8 => (Instruction { opcode: 0xD8, addr_mode: AddrMode::IMP, oper: Operation::CLD, cycles: 2 }),
        0xD9 => (Instruction { opcode: 0xD9, addr_mode: AddrMode::ABY, oper: Operation::CMP, cycles: 4 }),
        0xDA => (Instruction { opcode: 0xDA, addr_mode: AddrMode::IMP, oper: Operation::NOP, cycles: 2 }),
        0xDB => (Instruction { opcode: 0xDB, addr_mode: AddrMode::ABY, oper: Operation::DCP, cycles: 7 }),
        0xDC => (Instruction { opcode: 0xDC, addr_mode: AddrMode::ABX, oper: Operation::NOP, cycles: 4 }),
        0xDD => (Instruction { opcode: 0xDD, addr_mode: AddrMode::ABX, oper: Operation::CMP, cycles: 4 }),
        0xDE => (Instruction { opcode: 0xDE, addr_mode: AddrMode::ABX, oper: Operation::DEC, cycles: 7 }),
        0xDF => (Instruction { opcode: 0xDF, addr_mode: AddrMode::ABX, oper: Operation::DCP, cycles: 7 }),
        0xE0 => (Instruction { opcode: 0xE0, addr_mode: AddrMode::IMM, oper: Operation::CPX, cycles: 2 }),
        0xE1 => (Instruction { opcode: 0xE1, addr_mode: AddrMode::IZX, oper: Operation::SBC, cycles: 6 }),
        0xE2 => (Instruction { opcode: 0xE2, addr_mode: AddrMode::IMM, oper: Operation::NOP, cycles: 2 }),
        0xE3 => (Instruction { opcode: 0xE3, addr_mode: AddrMode::IZX, oper: Operation::ISC, cycles: 8 }),
        0xE4 => (Instruction { opcode: 0xE4, addr_mode: AddrMode::ZP0, oper: Operation::CPX, cycles: 3 }),
        0xE5 => (Instruction { opcode: 0xE5, addr_mode: AddrMode::ZP0, oper: Operation::SBC, cycles: 3 }),
        0xE6 => (Instruction { opcode: 0xE6, addr_mode: AddrMode::ZP0, oper: Operation::INC, cycles: 5 }),
        0xE7 => (Instruction { opcode: 0xE7, addr_mode: AddrMode::ZP0, oper: Operation::ISC, cycles: 5 }),
        0xE8 => (Instruction { opcode: 0xE8, addr_mode: AddrMode::IMP, oper: Operation::INX, cycles: 2 }),
        0xE9 => (Instruction { opcode: 0xE9, addr_mode: AddrMode::IMM, oper: Operation::SBC, cycles: 2 }),
        0xEA => (Instruction { opcode: 0xEA, addr_mode: AddrMode::IMP, oper: Operation::NOP, cycles: 2 }),
        0xEB => (Instruction { opcode: 0xEB, addr_mode: AddrMode::IMM, oper: Operation::SBC, cycles: 2 }),
        0xEC => (Instruction { opcode: 0xEC, addr_mode: AddrMode::ABS, oper: Operation::CPX, cycles: 4 }),
        0xED => (Instruction { opcode: 0xED, addr_mode: AddrMode::ABS, oper: Operation::SBC, cycles: 4 }),
        0xEE => (Instruction { opcode: 0xEE, addr_mode: AddrMode::ABS, oper: Operation::INC, cycles: 6 }),
        0xEF => (Instruction { opcode: 0xEF, addr_mode: AddrMode::ABS, oper: Operation::ISC, cycles: 6 }),
        0xF0 => (Instruction { opcode: 0xF0, addr_mode: AddrMode::REL, oper: Operation::BEQ, cycles: 2 }),
        0xF1 => (Instruction { opcode: 0xF1, addr_mode: AddrMode::IZY, oper: Operation::SBC, cycles: 5 }),
        0xF2 => (Instruction { opcode: 0xF2, addr_mode: AddrMode::IMP, oper: Operation::XXX, cycles: 2 }),
        0xF3 => (Instruction { opcode: 0xF3, addr_mode: AddrMode::IZY, oper: Operation::ISC, cycles: 8 }),
        0xF4 => (Instruction { opcode: 0xF4, addr_mode: AddrMode::ZPX, oper: Operation::NOP, cycles: 4 }),
        0xF5 => (Instruction { opcode: 0xF5, addr_mode: AddrMode::ZPX, oper: Operation::SBC, cycles: 4 }),
        0xF6 => (Instruction { opcode: 0xF6, addr_mode: AddrMode::ZPX, oper: Operation::INC, cycles: 6 }),
        0xF7 => (Instruction { opcode: 0xF7, addr_mode: AddrMode::ZPX, oper: Operation::ISC, cycles: 6 }),
        0xF8 => (Instruction { opcode: 0xF8, addr_mode: AddrMode::IMP, oper: Operation::SED, cycles: 2 }),
        0xF9 => (Instruction { opcode: 0xF9, addr_mode: AddrMode::ABY, oper: Operation::SBC, cycles: 4 }),
        0xFA => (Instruction { opcode: 0xFA, addr_mode: AddrMode::IMP, oper: Operation::NOP, cycles: 2 }),
        0xFB => (Instruction { opcode: 0xFB, addr_mode: AddrMode::ABY, oper: Operation::ISC, cycles: 7 }),
        0xFC => (Instruction { opcode: 0xFC, addr_mode: AddrMode::ABX, oper: Operation::NOP, cycles: 4 }),
        0xFD => (Instruction { opcode: 0xFD, addr_mode: AddrMode::ABX, oper: Operation::SBC, cycles: 4 }),
        0xFE => (Instruction { opcode: 0xFE, addr_mode: AddrMode::ABX, oper: Operation::INC, cycles: 7 }),
        _ => (Instruction { opcode: 0xFF, addr_mode: AddrMode::ABX, oper: Operation::ISC, cycles: 7 }),
    }
}

/// Executable lookup of the decode-table entry for `op`.
#[verifier::rlimit(60)]
pub fn instruction_at(op: u8) -> (r: Instruction)
    ensures
        r == spec_instruction(op),
{
    proof {
        reveal(spec_instruction);
    }
    match op {
        0x00 => (Instruction { opcode: 0x00, addr_mode: AddrMode::IMM, oper: Operation::BRK, cycles: 7 }),
        0x01 => (Instruction { opcode: 0x01, addr_mode: AddrMode::IZX, oper: Operation::ORA, cycles: 6 }),
        0x02 => (Instruction { opcode: 0x02, addr_mode: AddrMode::IMP, oper: Operation::XXX, cycles: 2 }),
        0x03 => (Instruction { opcode: 0x03, addr_mode: AddrMode::IZX, oper: Operation::SLO, cycles: 8 }),
        0x04 => (Instruction { opcode: 0x04, addr_mode: AddrMode::ZP0, oper: Operation::NOP, cycles: 3 }),
        0x05 => (Instruction { opcode: 0x05, addr_mode: AddrMode::ZP0, oper: Operation::ORA, cycles: 3 }),
        0x06 => (Instruction { opcode: 0x06, addr_mode: AddrMode::ZP0, oper: Operation::ASL, cycles: 5 }),
        0x07 => (Instruction { opcode: 0x07, addr_mode: AddrMode::ZP0, oper: Operation::SLO, cycles: 5 }),
        0x08 => (Instruction { opcode: 0x08, addr_mode: AddrMode::IMP, oper: Operation::PHP, cycles: 3 }),
        0x09 => (Instruction { opcode: 0x09, addr_mode: AddrMode::IMM, oper: Operation::ORA, cycles: 2 }),
        0x0A => (Instruction { opcode: 0x0A, addr_mode: AddrMode::IMP, oper: Operation::ASL, cycles: 2 }),
        0x0B => (Instruction { opcode: 0x0B, addr_mode: AddrMode::IMM, oper: Operation::ANC, cycles: 2 }),
        0x0C => (Instruction { opcode: 0x0C, addr_mode: AddrMode::ABS, oper: Operation::NOP, cycles: 4 }),
        0x0D => (Instruction { opcode: 0x0D, addr_mode: AddrMode::ABS, oper: Operation::ORA, cycles: 4 }),
        0x0E => (Instruction { opcode: 0x0E, addr_mode: AddrMode::ABS, oper: Operation::ASL, cycles: 6 }),
        0x0F => (Instruction { opcode: 0x0F, addr_mode: AddrMode::ABS, oper: Operation::SLO, cycles: 6 }),
        0x10 => (Instruction { opcode: 0x10, addr_mode: AddrMode::REL, oper: Operation::BPL, cycles: 2 }),
        0x11 => (Instruction { opcode: 0x11, addr_mode: AddrMode::IZY, oper: Operation::ORA, cycles: 5 }),
        0x12 => (Instruction { opcode: 0x12, addr_mode: AddrMode::IMP, oper: Operation::XXX, cycles: 2 }),
        0x13 => (Instruction { opcode: 0x13, addr_mode: AddrMode::IZY, oper: Operation::SLO, cycles: 8 }),
        0x14 => (Instruction { opcode: 0x14, addr_mode: AddrMode::ZPX, oper: Operation::NOP, cycles: 4 }),
        0x15 => (Instruction { opcode: 0x15, addr_mode: AddrMode::ZPX, oper: Operation::ORA, cycles: 4 }),
        0x16 => (Instruction { opcode: 0x16, addr_mode: AddrMode::ZPX, oper: Operation::ASL, cycles: 6 }),
        0x17 => (Instruction { opcode: 0x17, addr_mode: AddrMode::ZPX, oper: Operation::SLO, cycles: 6 }),
        0x18 => (Instruction { opcode: 0x18, addr_mode: AddrMode::IMP, oper: Operation::CLC, cycles: 2 }),
        0x19 => (Instruction { opcode: 0x19, addr_mode: AddrMode::ABY, oper: Operation::ORA, cycles: 4 }),
        0x1A => (Instruction { opcode: 0x1A, addr_mode: AddrMode::IMP, oper: Operation::NOP, cycles: 2 }),
        0x1B => (Instruction { opcode: 0x1B, addr_mode: AddrMode::ABY, oper: Operation::SLO, cycles: 7 }),
        0x1C => (Instruction { opcode: 0x1C, addr_mode: AddrMode::ABX, oper: Operation::NOP, cycles: 4 }),
        0x1D => (Instruction { opcode: 0x1D, addr_mode: AddrMode::ABX, oper: Operation::ORA, cycles: 4 }),
        0x1E => (Instruction { opcode: 0x1E, addr_mode: AddrMode::ABX, oper: Operation::ASL, cycles: 7 }),
        0x1F => (Instruction { opcode: 0x1F, addr_mode: AddrMode::ABX, oper: Operation::SLO, cycles: 7 }),
        0x20 => (Instruction { opcode: 0x20, addr_mode: AddrMode::ABS, oper: Operation::JSR, cycles: 6 }),
        0x21 => (Instruction { opcode: 0x21, addr_mode: AddrMode::IZX, oper: Operation::AND, cycles: 6 }),
        0x22 => (Instruction { opcode: 0x22, addr_mode: AddrMode::IMP, oper: Operation::XXX, cycles: 2 }),
        0x23 => (Instruction { opcode: 0x23, addr_mode: AddrMode::IZX, oper: Operation::RLA, cycles: 8 }),
        0x24 => (Instruction { opcode: 0x24, addr_mode: AddrMode::ZP0, oper: Operation::BIT, cycles: 3 }),
        0x25 => (Instruction { opcode: 0x25, addr_mode: AddrMode::ZP0, oper: Operation::AND, cycles: 3 }),
        0x26 => (Instruction { opcode: 0x26, addr_mode: AddrMode::ZP0, oper: Operation::ROL, cycles: 5 }),
        0x27 => (Instruction { opcode: 0x27, addr_mode: AddrMode::ZP0, oper: Operation::RLA, cycles: 5 }),
        0x28 => (Instruction { opcode: 0x28, addr_mode: AddrMode::IMP, oper: Operation::PLP, cycles: 4 }),
        0x29 => (Instruction { opcode: 0x29, addr_mode: AddrMode::IMM, oper: Operation::AND, cycles: 2 }),
        0x2A => (Instruction { opcode: 0x2A, addr_mode: AddrMode::IMP, oper: Operation::ROL, cycles: 2 }),
        0x2B => (Instruction { opcode: 0x2B, addr_mode: AddrMode::IMM, oper: Operation::ANC, cycles: 2 }),
        0x2C => (Instruction { opcode: 0x2C, addr_mode: AddrMode::ABS, oper: Operation::BIT, cycles: 4 }),
        0x2D => (Instruction { opcode: 0x2D, addr_mode: AddrMode::ABS, oper: Operation::AND, cycles: 4 }),
        0x2E => (Instruction { opcode: 0x2E, addr_mode: AddrMode::ABS, oper: Operation::ROL, cycles: 6 }),
        0x2F => (Instruction { opcode: 0x2F, addr_mode: AddrMode::ABS, oper: Operation::RLA, cycles: 6 }),
        0x30 => (Instruction { opcode: 0x30, addr_mode: AddrMode::REL, oper: Operation::BMI, cycles: 2 }),
        0x31 => (Instruction { opcode: 0x31, addr_mode: AddrMode::IZY, oper: Operation::AND, cycles: 5 }),
        0x32 => (Instruction { opcode: 0x32, addr_mode: AddrMode::IMP, oper: Operation::XXX, cycles: 2 }),
        0x33 => (Instruction { opcode: 0x33, addr_mode: AddrMode::IZY, oper: Operation::RLA, cycles: 8 }),
        0x34 => (Instruction { opcode: 0x34, addr_mode: AddrMode::ZPX, oper: Operation::NOP, cycles: 4 }),
        0x35 => (Instruction { opcode: 0x35, addr_mode: AddrMode::ZPX, oper: Operation::AND, cycles: 4 }),
        0x36 => (Instruction { opcode: 0x36, addr_mode: AddrMode::ZPX, oper: Operation::ROL, cycles: 6 }),
        0x37 => (Instruction { opcode: 0x37, addr_mode: AddrMode::ZPX, oper: Operation::RLA, cycles: 6 }),
        0x38 => (Instruction { opcode: 0x38, addr_mode: AddrMode::IMP, oper: Operation::SEC, cycles: 2 }),
        0x39 => (Instruction { opcode: 0x39, addr_mode: AddrMode::ABY, oper: Operation::AND, cycles: 4 }),
        0x3A => (Instruction { opcode: 0x3A, addr_mode: AddrMode::IMP, oper: Operation::NOP, cycles: 2 }),
        0x3B => (Instruction { opcode: 0x3B, addr_mode: AddrMode::ABY, oper: Operation::RLA, cycles: 7 }),
        0x3C => (Instruction { opcode: 0x3C, addr_mode: AddrMode::ABX, oper: Operation::NOP, cycles: 4 }),
        0x3D => (Instruction { opcode: 0x3D, addr_mode: AddrMode::ABX, oper: Operation::AND, cycles: 4 }),
        0x3E => (Instruction { opcode: 0x3E, addr_mode: AddrMode::ABX, oper: Operation::ROL, cycles: 7 }),
        0x3F => (Instruction { opcode: 0x3F, addr_mode: AddrMode::ABX, oper: Operation::RLA, cycles: 7 }),
        0x40 => (Instruction { opcode: 0x40, addr_mode: AddrMode::IMP, oper: Operation::RTI, cycles: 6 }),
        0x41 => (Instruction { opcode: 0x41, addr_mode: AddrMode::IZX, oper: Operation::EOR, cycles: 6 }),
        0x42 => (Instruction { opcode: 0x42, addr_mode: AddrMode::IMP, oper: Operation::XXX, cycles: 2 }),
        0x43 => (Instruction { opcode: 0x43, addr_mode: AddrMode::IZX, oper: Operation::SRE, cycles: 8 }),
        0x44 => (Instruction { opcode: 0x44, addr_mode: AddrMode::ZP0, oper: Operation::NOP, cycles: 3 }),
        0x45 => (Instruction { opcode: 0x45, addr_mode: AddrMode::ZP0, oper: Operation::EOR, cycles: 3 }),
        0x46 => (Instruction { opcode: 0x46, addr_mode: AddrMode::ZP0, oper: Operation::LSR, cycles: 5 }),
        0x47 => (Instruction { opcode: 0x47, addr_mode: AddrMode::ZP0, oper: Operation::SRE, cycles: 5 }),
        0x48 => (Instruction { opcode: 0x48, addr_mode: AddrMode::IMP, oper: Operation::PHA, cycles: 3 }),
        0x49 => (Instruction { opcode: 0x49, addr_mode: AddrMode::IMM, oper: Operation::EOR, cycles: 2 }),
        0x4A => (Instruction { opcode: 0x4A, addr_mode: AddrMode::IMP, oper: Operation::LSR, cycles: 2 }),
        0x4B => (Instruction { opcode: 0x4B, addr_mode: AddrMode::IMM, oper: Operation::ALR, cycles: 2 }),
        0x4C => (Instruction { opcode: 0x4C, addr_mode: AddrMode::ABS, oper: Operation::JMP, cycles: 3 }),
        0x4D => (Instruction { opcode: 0x4D, addr_mode: AddrMode::ABS, oper: Operation::EOR, cycles: 4 }),
        0x4E => (Instruction { opcode: 0x4E, addr_mode: AddrMode::ABS, oper: Operation::LSR, cycles: 6 }),
        0x4F => (Instruction { opcode: 0x4F, addr_mode: AddrMode::ABS, oper: Operation::SRE, cycles: 6 }),
        0x50 => (Instruction { opcode: 0x50, addr_mode: AddrMode::REL, oper: Operation::BVC, cycles: 2 }),
        0x51 => (Instruction { opcode: 0x51, addr_mode: AddrMode::IZY, oper: Operation::EOR, cycles: 5 }),
        0x52 => (Instruction { opcode: 0x52, addr_mode: AddrMode::IMP, oper: Operation::XXX, cycles: 2 }),
        0x53 => (Instruction { opcode: 0x53, addr_mode: AddrMode::IZY, oper: Operation::SRE, cycles: 8 }),
        0x54 => (Instruction { opcode: 0x54, addr_mode: AddrMode::ZPX, oper: Operation::NOP, cycles: 4 }),
        0x55 => (Instruction { opcode: 0x55, addr_mode: AddrMode::ZPX, oper: Operation::EOR, cycles: 4 }),
        0x56 => (Instruction { opcode: 0x56, addr_mode: AddrMode::ZPX, oper: Operation::LSR, cycles: 6 }),
        0x57 => (Instruction { opcode: 0x57, addr_mode: AddrMode::ZPX, oper: Operation::SRE, cycles: 6 }),
        0x58 => (Instruction { opcode: 0x58, addr_mode: AddrMode::IMP, oper: Operation::CLI, cycles: 2 }),
        0x59 => (Instruction { opcode: 0x59, addr_mode: AddrMode::ABY, oper: Operation::EOR, cycles: 4 }),
        0x5A => (Instruction { opcode: 0x5A, addr_mode: AddrMode::IMP, oper: Operation::NOP, cycles: 2 }),
        0x5B => (Instruction { opcode: 0x5B, addr_mode: AddrMode::ABY, oper: Operation::SRE, cycles: 7 }),
        0x5C => (Instruction { opcode: 0x5C, addr_mode: AddrMode::ABX, oper: Operation::NOP, cycles: 4 }),
        0x5D => (Instruction { opcode: 0x5D, addr_mode: AddrMode::ABX, oper: Operation::EOR, cycles: 4 }),
        0x5E => (Instruction { opcode: 0x5E, addr_mode: AddrMode::ABX, oper: Operation::LSR, cycles: 7 }),
        0x5F => (Instruction { opcode: 0x5F, addr_mode: AddrMode::ABX, oper: Operation::SRE, cycles: 7 }),
        0x60 => (Instruction { opcode: 0x60, addr_mode: AddrMode::IMP, oper: Operation::RTS, cycles: 6 }),
        0x61 => (Instruction { opcode: 0x61, addr_mode: AddrMode::IZX, oper: Operation::ADC, cycles: 6 }),
        0x62 => (Instruction { opcode: 0x62, addr_mode: AddrMode::IMP, oper: Operation::XXX, cycles: 2 }),
        0x63 => (Instruction { opcode: 0x63, addr_mode: AddrMode::IZX, oper: Operation::RRA, cycles: 8 }),
        0x64 => (Instruction { opcode: 0x64, addr_mode: AddrMode::ZP0, oper: Operation::NOP, cycles: 3 }),
        0x65 => (Instruction { opcode: 0x65, addr_mode: AddrMode::ZP0, oper: Operation::ADC, cycles: 3 }),
        0x66 => (Instruction { opcode: 0x66, addr_mode: AddrMode::ZP0, oper: Operation::ROR, cycles: 5 }),
        0x67 => (Instruction { opcode: 0x67, addr_mode: AddrMode::ZP0, oper: Operation::RRA, cycles: 5 }),
        0x68 => (Instruction { opcode: 0x68, addr_mode: AddrMode::IMP, oper: Operation::PLA, cycles: 4 }),
        0x69 => (Instruction { opcode: 0x69, addr_mode: AddrMode::IMM, oper: Operation::ADC, cycles: 2 }),
        0x6A => (Instruction { opcode: 0x6A, addr_mode: AddrMode::IMP, oper: Operation::ROR, cycles: 2 }),
        0x6B => (Instruction { opcode: 0x6B, addr_mode: AddrMode::IMM, oper: Operation::ARR, cycles: 2 }),
        0x6C => (Instruction { opcode: 0x6C, addr_mode: AddrMode::IND, oper: Operation::JMP, cycles: 5 }),
        0x6D => (Instruction { opcode: 0x6D, addr_mode: AddrMode::ABS, oper: Operation::ADC, cycles: 4 }),
        0x6E => (Instruction { opcode: 0x6E, addr_mode: AddrMode::ABS, oper: Operation::ROR, cycles: 6 }),
        0x6F => (Instruction { opcode: 0x6F, addr_mode: AddrMode::ABS, oper: Operation::RRA, cycles: 6 }),
        0x70 => (Instruction { opcode: 0x70, addr_mode: AddrMode::REL, oper: Operation::BVS, cycles: 2 }),
        0x71 => (Instruction { opcode: 0x71, addr_mode: AddrMode::IZY, oper: Operation::ADC, cycles: 5 }),
        0x72 => (Instruction { opcode: 0x72, addr_mode: AddrMode::IMP, oper: Operation::XXX, cycles: 2 }),
        0x73 => (Instruction { opcode: 0x73, addr_mode: AddrMode::IZY, oper: Operation::RRA, cycles: 8 }),
        0x74 => (Instruction { opcode: 0x74, addr_mode: AddrMode::ZPX, oper: Operation::NOP, cycles: 4 }),
        0x75 => (Instruction { opcode: 0x75, addr_mode: AddrMode::ZPX, oper: Operation::ADC, cycles: 4 }),
        0x76 => (Instruction { opcode: 0x76, addr_mode: AddrMode::ZPX, oper: Operation::ROR, cycles: 6 }),
        0x77 => (Instruction { opcode: 0x77, addr_mode: AddrMode::ZPX, oper: Operation::RRA, cycles: 6 }),
        0x78 => (Instruction { opcode: 0x78, addr_mode: AddrMode::IMP, oper: Operation::SEI, cycles: 2 }),
        0x79 => (Instruction { opcode: 0x79, addr_mode: AddrMode::ABY, oper: Operation::ADC, cycles: 4 }),
        0x7A => (Instruction { opcode: 0x7A, addr_mode: AddrMode::IMP, oper: Operation::NOP, cycles: 2 }),
        0x7B => (Instruction { opcode: 0x7B, addr_mode: AddrMode::ABY, oper: Operation::RRA, cycles: 7 }),
        0x7C => (Instruction { opcode: 0x7C, addr_mode: AddrMode::ABX, oper: Operation::NOP, cycles: 4 }),
        0x7D => (Instruction { opcode: 0x7D, addr_mode: AddrMode::ABX, oper: Operation::ADC, cycles: 4 }),
        0x7E => (Instruction { opcode: 0x7E, addr_mode: AddrMode::ABX, oper: Operation::ROR, cycles: 7 }),
        0x7F => (Instruction { opcode: 0x7F, addr_mode: AddrMode::ABX, oper: Operation::RRA, cycles: 7 }),
        0x80 => (Instruction { opcode: 0x80, addr_mode: AddrMode::IMM, oper: Operation::NOP, cycles: 2 }),
        0x81 => (Instruction { opcode: 0x81, addr_mode: AddrMode::IZX, oper: Operation::STA, cycles: 6 }),
        0x82 => (Instruction { opcode: 0x82, addr_mode: AddrMode::IMM, oper: Operation::NOP, cycles: 2 }),
        0x83 => (Instruction { opcode: 0x83, addr_mode: AddrMode::IZX, oper: Operation::SAX, cycles: 6 }),
        0x84 => (Instruction { opcode: 0x84, addr_mode: AddrMode::ZP0, oper: Operation::STY, cycles: 3 }),
        0x85 => (Instruction { opcode: 0x85, addr_mode: AddrMode::ZP0, oper: Operation::STA, cycles: 3 }),
        0x86 => (Instruction { opcode: 0x86, addr_mode: AddrMode::ZP0, oper: Operation::STX, cycles: 3 }),
        0x87 => (Instruction { opcode: 0x87, addr_mode: AddrMode::ZP0, oper: Operation::SAX, cycles: 3 }),
        0x88 => (Instruction { opcode: 0x88, addr_mode: AddrMode::IMP, oper: Operation::DEY, cycles: 2 }),
        0x89 => (Instruction { opcode: 0x89, addr_mode: AddrMode::IMM, oper: Operation::NOP, cycles: 2 }),
        0x8A => (Instruction { opcode: 0x8A, addr_mode: AddrMode::IMP, oper: Operation::TXA, cycles: 2 }),
        0x8B => (Instruction { opcode: 0x8B, addr_mode: AddrMode::IMM, oper: Operation::XAA, cycles: 2 }),
        0x8C => (Instruction { opcode: 0x8C, addr_mode: AddrMode::ABS, oper: Operation::STY, cycles: 4 }),
        0x8D => (Instruction { opcode: 0x8D, addr_mode: AddrMode::ABS, oper: Operation::STA, cycles: 4 }),
        0x8E => (Instruction { opcode: 0x8E, addr_mode: AddrMode::ABS, oper: Operation::STX, cycles: 4 }),
        0x8F => (Instruction { opcode: 0x8F, addr_mode: AddrMode::ABS, oper: Operation::SAX, cycles: 4 }),
        0x90 => (Instruction { opcode: 0x90, addr_mode: AddrMode::REL, oper: Operation::BCC, cycles: 2 }),
        0x91 => (Instruction { opcode: 0x91, addr_mode: AddrMode::IZY, oper: Operation::STA, cycles: 6 }),
        0x92 => (Instruction { opcode: 0x92, addr_mode: AddrMode::IMP, oper: Operation::XXX, cycles: 2 }),
        0x93 => (Instruction { opcode: 0x93, addr_mode: AddrMode::IZY, oper: Operation::AHX, cycles: 6 }),
        0x94 => (Instruction { opcode: 0x94, addr_mode: AddrMode::ZPX, oper: Operation::STY, cycles: 4 }),
        0x95 => (Instruction { opcode: 0x95, addr_mode: AddrMode::ZPX, oper: Operation::STA, cycles: 4 }),
        0x96 => (Instruction { opcode: 0x96, addr_mode: AddrMode::ZPY, oper: Operation::STX, cycles: 4 }),
        0x97 => (Instruction { opcode: 0x97, addr_mode: AddrMode::ZPY, oper: Operation::SAX, cycles: 4 }),
        0x98 => (Instruction { opcode: 0x98, addr_mode: AddrMode::IMP, oper: Operation::TYA, cycles: 2 }),
        0x99 => (Instruction { opcode: 0x99, addr_mode: AddrMode::ABY, oper: Operation::STA, cycles: 5 }),
        0x9A => (Instruction { opcode: 0x9A, addr_mode: AddrMode::IMP, oper: Operation::TXS, cycles: 2 }),
        0x9B => (Instruction { opcode: 0x9B, addr_mode: AddrMode::ABY, oper: Operation::TAS, cycles: 5 }),
        0x9C => (Instruction { opcode: 0x9C, addr_mode: AddrMode::ABX, oper: Operation::SHY, cycles: 5 }),
        0x9D => (Instruction { opcode: 0x9D, addr_mode: AddrMode::ABX, oper: Operation::STA, cycles: 5 }),
        0x9E => (Instruction { opcode: 0x9E, addr_mode: AddrMode::ABY, oper: Operation::SHX, cycles: 5 }),
        0x9F => (Instruction { opcode: 0x9F, addr_mode: AddrMode::ABY, oper: Operation::AHX, cycles: 5 }),
        0xA0 => (Instruction { opcode: 0xA0, addr_mode: AddrMode::IMM, oper: Operation::LDY, cycles: 2 }),
        0xA1 => (Instruction { opcode: 0xA1, addr_mode: AddrMode::IZX, oper: Operation::LDA, cycles: 6 }),
        0xA2 => (Instruction { opcode: 0xA2, addr_mode: AddrMode::IMM, oper: Operation::LDX, cycles: 2 }),
        0xA3 => (Instruction { opcode: 0xA3, addr_mode: AddrMode::IZX, oper: Operation::LAX, cycles: 6 }),
        0xA4 => (Instruction { opcode: 0xA4, addr_mode: AddrMode::ZP0, oper: Operation::LDY, cycles: 3 }),
        0xA5 => (Instruction { opcode: 0xA5, addr_mode: AddrMode::ZP0, oper: Operation::LDA, cycles: 3 }),
        0xA6 => (Instruction { opcode: 0xA6, addr_mode: AddrMode::ZP0, oper: Operation::LDX, cycles: 3 }),
        0xA7 => (Instruction { opcode: 0xA7, addr_mode: AddrMode::ZP0, oper: Operation::LAX, cycles: 3 }),
        0xA8 => (Instruction { opcode: 0xA8, addr_mode: AddrMode::IMP, oper: Operation::TAY, cycles: 2 }),
        0xA9 => (Instruction { opcode: 0xA9, addr_mode: AddrMode::IMM, oper: Operation::LDA, cycles: 2 }),
        0xAA => (Instruction { opcode: 0xAA, addr_mode: AddrMode::IMP, oper: Operation::TAX, cycles: 2 }),
        0xAB => (Instruction { opcode: 0xAB, addr_mode: AddrMode::IMM, oper: Operation::LAX, cycles: 2 }),
        0xAC => (Instruction { opcode: 0xAC, addr_mode: AddrMode::ABS, oper: Operation::LDY, cycles: 4 }),
        0xAD => (Instruction { opcode: 0xAD, addr_mode: AddrMode::ABS, oper: Operation::LDA, cycles: 4 }),
        0xAE => (Instruction { opcode: 0xAE, addr_mode: AddrMode::ABS, oper: Operation::LDX, cycles: 4 }),
        0xAF => (Instruction { opcode: 0xAF, addr_mode: AddrMode::ABS, oper: Operation::LAX, cycles: 4 }),
        0xB0 => (Instruction { opcode: 0xB0, addr_mode: AddrMode::REL, oper: Operation::BCS, cycles: 2 }),
        0xB1 => (Instruction { opcode: 0xB1, addr_mode: AddrMode::IZY, oper: Operation::LDA, cycles: 5 }),
        0xB2 => (Instruction { opcode: 0xB2, addr_mode: AddrMode::IMP, oper: Operation::XXX, cycles: 2 }),
        0xB3 => (Instruction { opcode: 0xB3, addr_mode: AddrMode::IZY, oper: Operation::LAX, cycles: 5 }),
        0xB4 => (Instruction { opcode: 0xB4, addr_mode: AddrMode::ZPX, oper: Operation::LDY, cycles: 4 }),
        0xB5 => (Instruction { opcode: 0xB5, addr_mode: AddrMode::ZPX, oper: Operation::LDA, cycles: 4 }),
        0xB6 => (Instruction { opcode: 0xB6, addr_mode: AddrMode::ZPY, oper: Operation::LDX, cycles: 4 }),
        0xB7 => (Instruction { opcode: 0xB7, addr_mode: AddrMode::ZPY, oper: Operation::LAX, cycles: 4 }),
        0xB8 => (Instruction { opcode: 0xB8, addr_mode: AddrMode::IMP, oper: Operation::CLV, cycles: 2 }),
        0xB9 => (Instruction { opcode: 0xB9, addr_mode: AddrMode::ABY, oper: Operation::LDA, cycles: 4 }),
        0xBA => (Instruction { opcode: 0xBA, addr_mode: AddrMode::IMP, oper: Operation::TSX, cycles: 2 }),
        0xBB => (Instruction { opcode: 0xBB, addr_mode: AddrMode::ABY, oper: Operation::LAS, cycles: 4 }),
        0xBC => (Instruction { opcode: 0xBC, addr_mode: AddrMode::ABX, oper: Operation::LDY, cycles: 4 }),
        0xBD => (Instruction { opcode: 0xBD, addr_mode: AddrMode::ABX, oper: Operation::LDA, cycles: 4 }),
        0xBE => (Instruction { opcode: 0xBE, addr_mode: AddrMode::ABY, oper: Operation::LDX, cycles: 4 }),
        0xBF => (Instruction { opcode: 0xBF, addr_mode: AddrMode::ABY, oper: Operation::LAX, cycles: 4 }),
        0xC0 => (Instruction { opcode: 0xC0, addr_mode: AddrMode::IMM, oper: Operation::CPY, cycles: 2 }),
        0xC1 => (Instruction { opcode: 0xC1, addr_mode: AddrMode::IZX, oper: Operation::CMP, cycles: 6 }),
        0xC2 => (Instruction { opcode: 0xC2, addr_mode: AddrMode::IMM, oper: Operation::NOP, cycles: 2 }),
        0xC3 => (Instruction { opcode: 0xC3, addr_mode: AddrMode::IZX, oper: Operation::DCP, cycles: 8 }),
        0xC4 => (Instruction { opcode: 0xC4, addr_mode: AddrMode::ZP0, oper: Operation::CPY, cycles: 3 }),
        0xC5 => (Instruction { opcode: 0xC5, addr_mode: AddrMode::ZP0, oper: Operation::CMP, cycles: 3 }),
        0xC6 => (Instruction { opcode: 0xC6, addr_mode: AddrMode::ZP0, oper: Operation::DEC, cycles: 5 }),
        0xC7 => (Instruction { opcode: 0xC7, addr_mode: AddrMode::ZP0, oper: Operation::DCP, cycles: 5 }),
        0xC8 => (Instruction { opcode: 0xC8, addr_mode: AddrMode::IMP, oper: Operation::INY, cycles: 2 }),
        0xC9 => (Instruction { opcode: 0xC9, addr_mode: AddrMode::IMM, oper: Operation::CMP, cycles: 2 }),
        0xCA => (Instruction { opcode: 0xCA, addr_mode: AddrMode::IMP, oper: Operation::DEX, cycles: 2 }),
        0xCB => (Instruction { opcode: 0xCB, addr_mode: AddrMode::IMM, oper: Operation::AXS, cycles: 2 }),
        0xCC => (Instruction { opcode: 0xCC, addr_mode: AddrMode::ABS, oper: Operation::CPY, cycles: 4 }),
        0xCD => (Instruction { opcode: 0xCD, addr_mode: AddrMode::ABS, oper: Operation::CMP, cycles: 4 }),
        0xCE => (Instruction { opcode: 0xCE, addr_mode: AddrMode::ABS, oper: Operation::DEC, cycles: 6 }),
        0xCF => (Instruction { opcode: 0xCF, addr_mode: AddrMode::ABS, oper: Operation::DCP, cycles: 6 }),
        0xD0 => (Instruction { opcode: 0xD0, addr_mode: AddrMode::REL, oper: Operation::BNE, cycles: 2 }),
        0xD1 => (Instruction { opcode: 0xD1, addr_mode: AddrMode::IZY, oper: Operation::CMP, cycles: 5 }),
        0xD2 => (Instruction { opcode: 0xD2, addr_mode: AddrMode::IMP, oper: Operation::XXX, cycles: 2 }),
        0xD3 => (Instruction { opcode: 0xD3, addr_mode: AddrMode::IZY, oper: Operation::DCP, cycles: 8 }),
        0xD4 => (Instruction { opcode: 0xD4, addr_mode: AddrMode::ZPX, oper: Operation::NOP, cycles: 4 }),
        0xD5 => (Instruction { opcode: 0xD5, addr_mode: AddrMode::ZPX, oper: Operation::CMP, cycles: 4 }),
        0xD6 => (Instruction { opcode: 0xD6, addr_mode: AddrMode::ZPX, oper: Operation::DEC, cycles: 6 }),
        0xD7 => (Instruction { opcode: 0xD7, addr_mode: AddrMode::ZPX, oper: Operation::DCP, cycles: 6 }),
        0xD8 => (Instruction { opcode: 0xD8, addr_mode: AddrMode::IMP, oper: Operation::CLD, cycles: 2 }),
        0xD9 => (Instruction { opcode: 0xD9, addr_mode: AddrMode::ABY, oper: Operation::CMP, cycles: 4 }),
        0xDA => (Instruction { opcode: 0xDA, addr_mode: AddrMode::IMP, oper: Operation::NOP, cycles: 2 }),
        0xDB => (Instruction { opcode: 0xDB, addr_mode: AddrMode::ABY, oper: Operation::DCP, cycles: 7 }),
        0xDC => (Instruction { opcode: 0xDC, addr_mode: AddrMode::ABX, oper: Operation::NOP, cycles: 4 }),
        0xDD => (Instruction { opcode: 0xDD, addr_mode: AddrMode::ABX, oper: Operation::CMP, cycles: 4 }),
        0xDE => (Instruction { opcode: 0xDE, addr_mode: AddrMode::ABX, oper: Operation::DEC, cycles: 7 }),
        0xDF => (Instruction { opcode: 0xDF, addr_mode: AddrMode::ABX, oper: Operation::DCP, cycles: 7 }),
        0xE0 => (Instruction { opcode: 0xE0, addr_mode: AddrMode::IMM, oper: Operation::CPX, cycles: 2 }),
        0xE1 => (Instruction { opcode: 0xE1, addr_mode: AddrMode::IZX, oper: Operation::SBC, cycles: 6 }),
        0xE2 => (Instruction { opcode: 0xE2, addr_mode: AddrMode::IMM, oper: Operation::NOP, cycles: 2 }),
        0xE3 => (Instruction { opcode: 0xE3, addr_mode: AddrMode::IZX, oper: Operation::ISC, cycles: 8 }),
        0xE4 => (Instruction { opcode: 0xE4, addr_mode: AddrMode::ZP0, oper: Operation::CPX, cycles: 3 }),
        0xE5 => (Instruction { opcode: 0xE5, addr_mode: AddrMode::ZP0, oper: Operation::SBC, cycles: 3 }),
        0xE6 => (Instruction { opcode: 0xE6, addr_mode: AddrMode::ZP0, oper: Operation::INC, cycles: 5 }),
        0xE7 => (Instruction { opcode: 0xE7, addr_mode: AddrMode::ZP0, oper: Operation::ISC, cycles: 5 }),
        0xE8 => (Instruction { opcode: 0xE8, addr_mode: AddrMode::IMP, oper: Operation::INX, cycles: 2 }),
        0xE9 => (Instruction { opcode: 0xE9, addr_mode: AddrMode::IMM, oper: Operation::SBC, cycles: 2 }),
        0xEA => (Instruction { opcode: 0xEA, addr_mode: AddrMode::IMP, oper: Operation::NOP, cycles: 2 }),
        0xEB => (Instruction { opcode: 0xEB, addr_mode: AddrMode::IMM, oper: Operation::SBC, cycles: 2 }),
        0xEC => (Instruction { opcode: 0xEC, addr_mode: AddrMode::ABS, oper: Operation::CPX, cycles: 4 }),
        0xED => (Instruction { opcode: 0xED, addr_mode: AddrMode::ABS, oper: Operation::SBC, cycles: 4 }),
        0xEE => (Instruction { opcode: 0xEE, addr_mode: AddrMode::ABS, oper: Operation::INC, cycles: 6 }),
        0xEF => (Instruction { opcode: 0xEF, addr_mode: AddrMode::ABS, oper: Operation::ISC, cycles: 6 }),
        0xF0 => (Instruction { opcode: 0xF0, addr_mode: AddrMode::REL, oper: Operation::BEQ, cycles: 2 }),
        0xF1 => (Instruction { opcode: 0xF1, addr_mode: AddrMode::IZY, oper: Operation::SBC, cycles: 5 }),
        0xF2 => (Instruction { opcode: 0xF2, addr_mode: AddrMode::IMP, oper: Operation::XXX, cycles: 2 }),
        0xF3 => (Instruction { opcode: 0xF3, addr_mode: AddrMode::IZY, oper: Operation::ISC, cycles: 8 }),
        0xF4 => (Instruction { opcode: 0xF4, addr_mode: AddrMode::ZPX, oper: Operation::NOP, cycles: 4 }),
        0xF5 => (Instruction { opcode: 0xF5, addr_mode: AddrMode::ZPX, oper: Operation::SBC, cycles: 4 }),
        0xF6 => (Instruction { opcode: 0xF6, addr_mode: AddrMode::ZPX, oper: Operation::INC, cycles: 6 }),
        0xF7 => (Instruction { opcode: 0xF7, addr_mode: AddrMode::ZPX, oper: Operation::ISC, cycles: 6 }),
        0xF8 => (Instruction { opcode: 0xF8, addr_mode: AddrMode::IMP, oper: Operation::SED, cycles: 2 }),
        0xF9 => (Instruction { opcode: 0xF9, addr_mode: AddrMode::ABY, oper: Operation::SBC, cycles: 4 }),
        0xFA => (Instruction { opcode: 0xFA, addr_mode: AddrMode::IMP, oper: Operation::NOP, cycles: 2 }),
        0xFB => (Instruction { opcode: 0xFB, addr_mode: AddrMode::ABY, oper: Operation::ISC, cycles: 7 }),
        0xFC => (Instruction { opcode: 0xFC, addr_mode: AddrMode::ABX, oper: Operation::NOP, cycles: 4 }),
        0xFD => (Instruction { opcode: 0xFD, addr_mode: AddrMode::ABX, oper: Operation::SBC, cycles: 4 }),
        0xFE => (Instruction { opcode: 0xFE, addr_mode: AddrMode::ABX, oper: Operation::INC, cycles: 7 }),
        _ => (Instruction { opcode: 0xFF, addr_mode: AddrMode::ABX, oper: Operation::ISC, cycles: 7 }),
    }
}

/// Every entry decodes its own opcode byte, and every base cycle count
/// lies between 2 and 8.
#[verifier::rlimit(60)]
pub proof fn lemma_instruction_table_shape(op: u8)
    ensures
        spec_instruction(op).opcode == op,
        2 <= spec_instruction(op).cycles <= 8,
{
    reveal(spec_instruction);
}

} // verus!
