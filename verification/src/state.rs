//! The mathematical model of the processor.
//!
//! `CpuState` is the ghost image of the whole machine: registers, flags,
//! transient execution state, cycle counters, and the memory behind the
//! bus.  The spec functions in this module form a complete interpreter of
//! that model — one function per addressing mode, one per operation, and
//! `spec_step` for a full instruction dispatch.  Every executable function
//! of the core is proved to transform its view exactly as the matching
//! spec function says, so the laws in `laws` and the contracts of the
//! public operations all speak about this one model.
//!
//! Register arithmetic wraps modulo 256 and the program counter modulo
//! 65536, matching hardware wraparound.

use vstd::prelude::*;

use crate::flags::StatusFlags;
use crate::flags::b01;
use crate::flags::spec_status_from_byte;
use crate::flags::spec_status_to_byte;
use crate::table::AddrMode;
use crate::table::Operation;
use crate::table::spec_instruction;

verus! {

/// The complete machine state: register file, status flags, transient
/// execution state, cycle counters, and memory.
#[verifier::ext_equal]
pub ghost struct CpuState {
    /// Accumulator register.
    pub accum: u8,
    /// Index register X.
    pub x: u8,
    /// Index register Y.
    pub y: u8,
    /// Stack pointer; addresses page 0x0100-0x01FF.
    pub stkp: u8,
    /// Program counter.
    pub pc: u16,
    /// Status flags.
    pub status: StatusFlags,
    /// Operand byte fetched for the current instruction.
    pub fetched: u8,
    /// Effective address the addressing mode resolved to.
    pub addr_abs: u16,
    /// Sign-extended relative branch offset.
    pub addr_rel: u16,
    /// Opcode byte of the current instruction.
    pub opcode: u8,
    /// Cycles remaining before the next instruction dispatch.
    pub cycles: u8,
    /// Total elapsed clock ticks.
    pub clock_count: u32,
    /// How many unassigned opcodes have executed (diagnostic channel).
    pub illegal_count: u32,
    /// The memory space behind the bus.
    pub mem: Seq<u8>,
}

impl CpuState {
    /// The model always covers the full 16-bit address space.
    pub open spec fn wf(self) -> bool {
        self.mem.len() == 0x10000
    }
}

// ---------------------------------------------------------------------------
// Wrapping arithmetic
// ---------------------------------------------------------------------------

/// `x + 1` modulo 256.
pub open spec fn wrap_inc8(x: u8) -> u8 {
    if x == 255 {
        0
    } else {
        (x + 1) as u8
    }
}

/// `a - b` modulo 256.
pub open spec fn wrap_sub8(a: u8, b: u8) -> u8 {
    if a >= b {
        (a - b) as u8
    } else {
        ((a - b + 256) as u8)
    }
}

/// `x - 1` modulo 256.
pub open spec fn wrap_dec8(x: u8) -> u8 {
    if x == 0 {
        255
    } else {
        (x - 1) as u8
    }
}

/// `x + 1` modulo 65536.
pub open spec fn wrap_inc16(x: u16) -> u16 {
    if x == 0xFFFF {
        0
    } else {
        (x + 1) as u16
    }
}

/// `x - 1` modulo 65536.
pub open spec fn wrap_dec16(x: u16) -> u16 {
    if x == 0 {
        0xFFFF
    } else {
        (x - 1) as u16
    }
}

/// `a + b` modulo 65536.
pub open spec fn wrap_add16(a: u16, b: u16) -> u16 {
    if a + b > 0xFFFF {
        (a + b - 0x10000) as u16
    } else {
        (a + b) as u16
    }
}

/// `x + 1` modulo 2^32.
pub open spec fn wrap_inc32(x: u32) -> u32 {
    if x == 0xFFFF_FFFF {
        0
    } else {
        (x + 1) as u32
    }
}

/// `c + n` modulo 2^32, for a tick count advanced by `n` ticks.
pub open spec fn wrap_add32(c: u32, n: int) -> u32 {
    (((c + n) % 0x1_0000_0000) as u32)
}

/// The 16-bit word with high byte `hi` and low byte `lo`.
pub open spec fn word(hi: u8, lo: u8) -> u16 {
    (hi * 256 + lo) as u16
}

/// High byte of a 16-bit word.
pub open spec fn hi_byte(w: u16) -> u8 {
    (w / 256) as u8
}

/// Low byte of a 16-bit word.
pub open spec fn lo_byte(w: u16) -> u8 {
    (w % 256) as u8
}

/// The 256-byte page an address lies in.
pub open spec fn page(a: u16) -> int {
    a as int / 256
}

// ---------------------------------------------------------------------------
// Memory and stack primitives
// ---------------------------------------------------------------------------

/// The byte the bus yields at `a`.
pub open spec fn mem_read(s: CpuState, a: u16) -> u8 {
    s.mem[a as int]
}

/// The state after the bus stores `d` at `a`.
pub open spec fn mem_write(s: CpuState, a: u16, d: u8) -> CpuState {
    CpuState { mem: s.mem.update(a as int, d), ..s }
}

/// The stack lives in page 0x0100.
pub open spec fn stack_addr(sp: u8) -> u16 {
    (0x0100 + sp) as u16
}

/// Push `d`: store at the stack pointer, then decrement it (wrapping).
pub open spec fn spec_push(s: CpuState, d: u8) -> CpuState {
    let s1 = mem_write(s, stack_addr(s.stkp), d);
    CpuState { stkp: wrap_dec8(s.stkp), ..s1 }
}

/// Pull: increment the stack pointer (wrapping), then read there.
pub open spec fn spec_pull(s: CpuState) -> (CpuState, u8) {
    let sp = wrap_inc8(s.stkp);
    (CpuState { stkp: sp, ..s }, mem_read(s, stack_addr(sp)))
}

/// Zero and Negative updated from a freshly produced value.
pub open spec fn zn(st: StatusFlags, v: u8) -> StatusFlags {
    StatusFlags { z: v == 0, n: v >= 128, ..st }
}

// ---------------------------------------------------------------------------
// Addressing modes
// ---------------------------------------------------------------------------

/// Implied: the operand is the accumulator; no memory read.
pub open spec fn spec_imp(s: CpuState) -> (CpuState, u8) {
    (CpuState { fetched: s.accum, ..s }, 0)
}

/// Immediate: the operand byte follows the opcode.
pub open spec fn spec_imm(s: CpuState) -> (CpuState, u8) {
    (CpuState { addr_abs: s.pc, pc: wrap_inc16(s.pc), ..s }, 0)
}

/// Zero page: one operand byte addresses page zero.
pub open spec fn spec_zp0(s: CpuState) -> (CpuState, u8) {
    (CpuState { addr_abs: mem_read(s, s.pc) as u16, pc: wrap_inc16(s.pc), ..s }, 0)
}

/// Zero page indexed by X; the sum wraps within page zero.
pub open spec fn spec_zpx(s: CpuState) -> (CpuState, u8) {
    (
        CpuState {
            addr_abs: (((mem_read(s, s.pc) + s.x) % 256) as u16),
            pc: wrap_inc16(s.pc),
            ..s
        },
        0,
    )
}

/// Zero page indexed by Y; the sum wraps within page zero.
pub open spec fn spec_zpy(s: CpuState) -> (CpuState, u8) {
    (
        CpuState {
            addr_abs: (((mem_read(s, s.pc) + s.y) % 256) as u16),
            pc: wrap_inc16(s.pc),
            ..s
        },
        0,
    )
}

/// Relative: the offset byte is sign-extended into the full 16-bit range.
pub open spec fn spec_rel(s: CpuState) -> (CpuState, u8) {
    let offset = mem_read(s, s.pc);
    let rel: u16 = if offset >= 128 {
        ((0xFF00 + offset) as u16)
    } else {
        (offset as u16)
    };
    (CpuState { addr_rel: rel, pc: wrap_inc16(s.pc), ..s }, 0)
}

/// Absolute: two operand bytes, low then high.
pub open spec fn spec_abs(s: CpuState) -> (CpuState, u8) {
    let lo = mem_read(s, s.pc);
    let hi = mem_read(s, wrap_inc16(s.pc));
    (CpuState { addr_abs: word(hi, lo), pc: wrap_inc16(wrap_inc16(s.pc)), ..s }, 0)
}

/// Absolute indexed by X; one extra cycle when the sum crosses a page.
pub open spec fn spec_abx(s: CpuState) -> (CpuState, u8) {
    let lo = mem_read(s, s.pc);
    let hi = mem_read(s, wrap_inc16(s.pc));
    let addr = wrap_add16(word(hi, lo), s.x as u16);
    let extra: u8 = if page(addr) != hi {
        1
    } else {
        0
    };
    (CpuState { addr_abs: addr, pc: wrap_inc16(wrap_inc16(s.pc)), ..s }, extra)
}

/// Absolute indexed by Y; one extra cycle when the sum crosses a page.
pub open spec fn spec_aby(s: CpuState) -> (CpuState, u8) {
    let lo = mem_read(s, s.pc);
    let hi = mem_read(s, wrap_inc16(s.pc));
    let addr = wrap_add16(word(hi, lo), s.y as u16);
    let extra: u8 = if page(addr) != hi {
        1
    } else {
        0
    };
    (CpuState { addr_abs: addr, pc: wrap_inc16(wrap_inc16(s.pc)), ..s }, extra)
}

/// Indirect, with the documented hardware defect: when the pointer's low
/// byte is 0xFF, the target's high byte is read from the start of the
/// *same* page instead of wrapping into the next one.
pub open spec fn spec_ind(s: CpuState) -> (CpuState, u8) {
    let ptr_lo = mem_read(s, s.pc);
    let ptr_hi = mem_read(s, wrap_inc16(s.pc));
    let ptr = word(ptr_hi, ptr_lo);
    let target_lo = mem_read(s, ptr);
    let target_hi = if ptr_lo == 0xFF {
        mem_read(s, word(ptr_hi, 0))
    } else {
        mem_read(s, wrap_inc16(ptr))
    };
    (
        CpuState {
            addr_abs: word(target_hi, target_lo),
            pc: wrap_inc16(wrap_inc16(s.pc)),
            ..s
        },
        0,
    )
}

/// Pre-indexed indirect: the zero-page pointer is offset by X before the
/// 16-bit target is read from page zero (wrapping within the page).
pub open spec fn spec_izx(s: CpuState) -> (CpuState, u8) {
    let t = mem_read(s, s.pc) as int;
    let x = s.x as int;
    let lo = mem_read(s, (((t + x) % 256) as u16));
    let hi = mem_read(s, (((t + x + 1) % 256) as u16));
    (CpuState { addr_abs: word(hi, lo), pc: wrap_inc16(s.pc), ..s }, 0)
}

/// Post-indexed indirect: the 16-bit base is read from page zero, then
/// offset by Y; one extra cycle when the sum crosses a page.
pub open spec fn spec_izy(s: CpuState) -> (CpuState, u8) {
    let t = mem_read(s, s.pc) as int;
    let lo = mem_read(s, (t as u16));
    let hi = mem_read(s, (((t + 1) % 256) as u16));
    let addr = wrap_add16(word(hi, lo), s.y as u16);
    let extra: u8 = if page(addr) != hi {
        1
    } else {
        0
    };
    (CpuState { addr_abs: addr, pc: wrap_inc16(s.pc), ..s }, extra)
}

/// The addressing-mode resolver the decode table names.  Opaque: the
/// executable resolver reveals it arm by arm.
#[verifier::opaque]
pub open spec fn spec_addr_mode(m: AddrMode, s: CpuState) -> (CpuState, u8) {
    match m {
        AddrMode::IMP => spec_imp(s),
        AddrMode::IMM => spec_imm(s),
        AddrMode::ZP0 => spec_zp0(s),
        AddrMode::ZPX => spec_zpx(s),
        AddrMode::ZPY => spec_zpy(s),
        AddrMode::REL => spec_rel(s),
        AddrMode::ABS => spec_abs(s),
        AddrMode::ABX => spec_abx(s),
        AddrMode::ABY => spec_aby(s),
        AddrMode::IND => spec_ind(s),
        AddrMode::IZX => spec_izx(s),
        AddrMode::IZY => spec_izy(s),
    }
}

// ---------------------------------------------------------------------------
// Operand fetch
// ---------------------------------------------------------------------------

/// Read the operand from the effective address, except in implied mode
/// where the addressing step already copied the accumulator.
pub open spec fn spec_fetch(s: CpuState) -> CpuState {
    if spec_instruction(s.opcode).addr_mode != AddrMode::IMP {
        CpuState { fetched: mem_read(s, s.addr_abs), ..s }
    } else {
        s
    }
}

/// Signed-overflow detection for an 8-bit addition: the operands agree in
/// sign and the result differs from them.
pub open spec fn spec_add_overflow(a: u8, m: u8, r: u8) -> bool {
    ((a >= 128) == (m >= 128)) && ((a >= 128) != (r >= 128))
}

// ---------------------------------------------------------------------------
// Operations
// ---------------------------------------------------------------------------

/// Add with carry, in a widened intermediate so the carry-out is bit 8.
pub open spec fn spec_adc(s: CpuState) -> (CpuState, u8) {
    let s1 = spec_fetch(s);
    let sum = s1.accum + s1.fetched + b01(s1.status.c);
    let result = ((sum % 256) as u8);
    let st = StatusFlags {
        c: sum > 255,
        z: result == 0,
        v: spec_add_overflow(s1.accum, s1.fetched, result),
        n: result >= 128,
        ..s1.status
    };
    (CpuState { accum: result, status: st, ..s1 }, 1)
}

/// Subtract with borrow: add the one's complement of the operand.
pub open spec fn spec_sbc(s: CpuState) -> (CpuState, u8) {
    let s1 = spec_fetch(s);
    let value = ((255 - s1.fetched) as u8);
    let sum = s1.accum + value + b01(s1.status.c);
    let result = ((sum % 256) as u8);
    let st = StatusFlags {
        c: sum > 255,
        z: result == 0,
        v: spec_add_overflow(s1.accum, value, result),
        n: result >= 128,
        ..s1.status
    };
    (CpuState { accum: result, status: st, ..s1 }, 1)
}

/// Bitwise AND into the accumulator.
pub open spec fn spec_and(s: CpuState) -> (CpuState, u8) {
    let s1 = spec_fetch(s);
    let result = s1.accum & s1.fetched;
    (CpuState { accum: result, status: zn(s1.status, result), ..s1 }, 1)
}

/// Bitwise OR into the accumulator.
pub open spec fn spec_ora(s: CpuState) -> (CpuState, u8) {
    let s1 = spec_fetch(s);
    let result = s1.accum | s1.fetched;
    (CpuState { accum: result, status: zn(s1.status, result), ..s1 }, 1)
}

/// Bitwise exclusive OR into the accumulator.
pub open spec fn spec_eor(s: CpuState) -> (CpuState, u8) {
    let s1 = spec_fetch(s);
    let result = s1.accum ^ s1.fetched;
    (CpuState { accum: result, status: zn(s1.status, result), ..s1 }, 1)
}

/// Shift/rotate writeback: to the accumulator in implied mode, otherwise
/// to the resolved effective address — selected by the addressing-mode
/// tag carried with the current instruction.
pub open spec fn spec_shift_writeback(s: CpuState, result: u8) -> CpuState {
    if spec_instruction(s.opcode).addr_mode == AddrMode::IMP {
        CpuState { accum: result, ..s }
    } else {
        mem_write(s, s.addr_abs, result)
    }
}

/// Arithmetic shift left.
pub open spec fn spec_asl(s: CpuState) -> (CpuState, u8) {
    let s1 = spec_fetch(s);
    let t = s1.fetched * 2;
    let result = ((t % 256) as u8);
    let st = StatusFlags { c: t > 255, z: result == 0, n: result >= 128, ..s1.status };
    (spec_shift_writeback(CpuState { status: st, ..s1 }, result), 0)
}

/// Logical shift right.
pub open spec fn spec_lsr(s: CpuState) -> (CpuState, u8) {
    let s1 = spec_fetch(s);
    let result = ((s1.fetched / 2) as u8);
    let st = StatusFlags {
        c: s1.fetched % 2 == 1,
        z: result == 0,
        n: result >= 128,
        ..s1.status
    };
    (spec_shift_writeback(CpuState { status: st, ..s1 }, result), 0)
}

/// Rotate left through the carry.
pub open spec fn spec_rol(s: CpuState) -> (CpuState, u8) {
    let s1 = spec_fetch(s);
    let t = s1.fetched * 2 + b01(s1.status.c);
    let result = ((t % 256) as u8);
    let st = StatusFlags { c: t > 255, z: result == 0, n: result >= 128, ..s1.status };
    (spec_shift_writeback(CpuState { status: st, ..s1 }, result), 0)
}

/// Rotate right through the carry.
pub open spec fn spec_ror(s: CpuState) -> (CpuState, u8) {
    let s1 = spec_fetch(s);
    let result = ((b01(s1.status.c) * 128 + s1.fetched / 2) as u8);
    let st = StatusFlags {
        c: s1.fetched % 2 == 1,
        z: result == 0,
        n: result >= 128,
        ..s1.status
    };
    (spec_shift_writeback(CpuState { status: st, ..s1 }, result), 0)
}

/// Bit test: Zero from the masked accumulator, Negative and Overflow
/// copied from bits 7 and 6 of the operand.
pub open spec fn spec_bit(s: CpuState) -> (CpuState, u8) {
    let s1 = spec_fetch(s);
    let st = StatusFlags {
        z: s1.accum & s1.fetched == 0,
        n: s1.fetched >= 128,
        v: s1.fetched & 0x40 != 0,
        ..s1.status
    };
    (CpuState { status: st, ..s1 }, 0)
}

/// A branch: when taken it costs one extra cycle, and a second one when
/// the target lies in a different 256-byte page than the program counter.
pub open spec fn spec_branch(s: CpuState, taken: bool) -> (CpuState, u8) {
    if taken {
        let target = wrap_add16(s.pc, s.addr_rel);
        let c1 = ((s.cycles + 1) as u8);
        let c2 = if page(target) != page(s.pc) {
            ((c1 + 1) as u8)
        } else {
            c1
        };
        (CpuState { cycles: c2, addr_abs: target, pc: target, ..s }, 0)
    } else {
        (s, 0)
    }
}

/// Software interrupt: push the incremented program counter and the
/// status byte (Break and Unused forced to 1), set Interrupt-disable,
/// and jump through the vector at 0xFFFE/0xFFFF.
pub open spec fn spec_brk(s: CpuState) -> (CpuState, u8) {
    let pc1 = wrap_inc16(s.pc);
    let st = StatusFlags { i: true, ..s.status };
    let s1 = CpuState { pc: pc1, status: st, ..s };
    let s2 = spec_push(s1, hi_byte(pc1));
    let s3 = spec_push(s2, lo_byte(pc1));
    let s4 = spec_push(s3, spec_status_to_byte(StatusFlags { b: true, u: true, ..st }));
    let lo = mem_read(s4, 0xFFFE);
    let hi = mem_read(s4, 0xFFFF);
    (CpuState { pc: word(hi, lo), status: StatusFlags { b: false, ..st }, ..s4 }, 0)
}

/// Compare a register against the operand: Carry when the register is
/// greater or equal, Zero/Negative from the wrapped difference.
pub open spec fn spec_compare(s: CpuState, reg: u8) -> CpuState {
    let s1 = spec_fetch(s);
    let diff = wrap_sub8(reg, s1.fetched);
    let st = StatusFlags {
        c: reg >= s1.fetched,
        z: diff == 0,
        n: diff >= 128,
        ..s1.status
    };
    (CpuState { status: st, ..s1 })
}

/// Decrement the value at the effective address.
pub open spec fn spec_dec(s: CpuState) -> (CpuState, u8) {
    let s1 = spec_fetch(s);
    let result = wrap_dec8(s1.fetched);
    let s2 = mem_write(s1, s1.addr_abs, result);
    (CpuState { status: zn(s2.status, result), ..s2 }, 1)
}

/// Increment the value at the effective address.
pub open spec fn spec_inc(s: CpuState) -> (CpuState, u8) {
    let s1 = spec_fetch(s);
    let result = wrap_inc8(s1.fetched);
    let s2 = mem_write(s1, s1.addr_abs, result);
    (CpuState { status: zn(s2.status, result), ..s2 }, 0)
}

/// Jump to the effective address.
pub open spec fn spec_jmp(s: CpuState) -> (CpuState, u8) {
    (CpuState { pc: s.addr_abs, ..s }, 0)
}

/// Subroutine call: push the decremented program counter, high byte
/// first, then jump to the effective address.
pub open spec fn spec_jsr(s: CpuState) -> (CpuState, u8) {
    let ret = wrap_dec16(s.pc);
    let s1 = CpuState { pc: ret, ..s };
    let s2 = spec_push(s1, hi_byte(ret));
    let s3 = spec_push(s2, lo_byte(ret));
    (CpuState { pc: s.addr_abs, ..s3 }, 0)
}

/// A no-op; a handful of unofficial NOP opcodes honour the page-crossing
/// extra cycle.
pub open spec fn spec_nop(s: CpuState) -> (CpuState, u8) {
    let extra: u8 = if s.opcode == 0x1C || s.opcode == 0x3C || s.opcode == 0x5C || s.opcode
        == 0x7C || s.opcode == 0xDC || s.opcode == 0xFC {
        1
    } else {
        0
    };
    (s, extra)
}

/// Push the accumulator.
pub open spec fn spec_pha(s: CpuState) -> (CpuState, u8) {
    (spec_push(s, s.accum), 0)
}

/// Push the status byte with Break and Unused forced to 1; afterwards
/// both flags are left clear (the engine re-asserts Unused at the end of
/// every instruction).
pub open spec fn spec_php(s: CpuState) -> (CpuState, u8) {
    let s1 = spec_push(s, spec_status_to_byte(StatusFlags { b: true, u: true, ..s.status }));
    (CpuState { status: StatusFlags { b: false, u: false, ..s1.status }, ..s1 }, 0)
}

/// Pull the accumulator and set Zero/Negative from it.
pub open spec fn spec_pla(s: CpuState) -> (CpuState, u8) {
    let (s1, v) = spec_pull(s);
    (CpuState { accum: v, status: zn(s1.status, v), ..s1 }, 0)
}

/// Pull the status byte; Unused is forced back to 1.
pub open spec fn spec_plp(s: CpuState) -> (CpuState, u8) {
    let (s1, v) = spec_pull(s);
    (CpuState { status: StatusFlags { u: true, ..spec_status_from_byte(v) }, ..s1 }, 0)
}

/// Return from interrupt: pull status (Break and Unused cleared), then
/// pull the program counter, low byte first.
pub open spec fn spec_rti(s: CpuState) -> (CpuState, u8) {
    let (s1, v) = spec_pull(s);
    let st = StatusFlags { b: false, u: false, ..spec_status_from_byte(v) };
    let (s2, lo) = spec_pull(s1);
    let (s3, hi) = spec_pull(s2);
    (CpuState { status: st, pc: word(hi, lo), ..s3 }, 0)
}

/// Return from subroutine: pull the program counter, low byte first, and
/// step past the call instruction.
pub open spec fn spec_rts(s: CpuState) -> (CpuState, u8) {
    let (s1, lo) = spec_pull(s);
    let (s2, hi) = spec_pull(s1);
    (CpuState { pc: wrap_inc16(word(hi, lo)), ..s2 }, 0)
}

/// Unassigned opcode: a diagnostic no-op that only bumps the counter of
/// illegal executions.
pub open spec fn spec_xxx(s: CpuState) -> (CpuState, u8) {
    (CpuState { illegal_count: wrap_inc32(s.illegal_count), ..s }, 0)
}

/// The operation the decode table names, applied to the state the
/// addressing mode produced.  Opaque: the executable dispatcher reveals
/// it arm by arm.
#[verifier::opaque]
pub open spec fn spec_operate(o: Operation, s: CpuState) -> (CpuState, u8) {
    match o {
        Operation::ADC => spec_adc(s),
        Operation::SBC => spec_sbc(s),
        Operation::AND => spec_and(s),
        Operation::ORA => spec_ora(s),
        Operation::EOR => spec_eor(s),
        Operation::ASL => spec_asl(s),
        Operation::LSR => spec_lsr(s),
        Operation::ROL => spec_rol(s),
        Operation::ROR => spec_ror(s),
        Operation::BIT => spec_bit(s),
        Operation::BCC => spec_branch(s, !s.status.c),
        Operation::BCS => spec_branch(s, s.status.c),
        Operation::BEQ => spec_branch(s, s.status.z),
        Operation::BNE => spec_branch(s, !s.status.z),
        Operation::BMI => spec_branch(s, s.status.n),
        Operation::BPL => spec_branch(s, !s.status.n),
        Operation::BVS => spec_branch(s, s.status.v),
        Operation::BVC => spec_branch(s, !s.status.v),
        Operation::BRK => spec_brk(s),
        Operation::CLC => (CpuState { status: StatusFlags { c: false, ..s.status }, ..s }, 0),
        Operation::CLD => (CpuState { status: StatusFlags { d: false, ..s.status }, ..s }, 0),
        Operation::CLI => (CpuState { status: StatusFlags { i: false, ..s.status }, ..s }, 0),
        Operation::CLV => (CpuState { status: StatusFlags { v: false, ..s.status }, ..s }, 0),
        Operation::SEC => (CpuState { status: StatusFlags { c: true, ..s.status }, ..s }, 0),
        Operation::SED => (CpuState { status: StatusFlags { d: true, ..s.status }, ..s }, 0),
        Operation::SEI => (CpuState { status: StatusFlags { i: true, ..s.status }, ..s }, 0),
        Operation::CMP => (spec_compare(s, s.accum), 1),
        Operation::CPX => (spec_compare(s, s.x), 0),
        Operation::CPY => (spec_compare(s, s.y), 1),
        Operation::DEC => spec_dec(s),
        Operation::INC => spec_inc(s),
        Operation::DEX => (
            CpuState { x: wrap_dec8(s.x), status: zn(s.status, wrap_dec8(s.x)), ..s },
            0,
        ),
        Operation::DEY => (
            CpuState { y: wrap_dec8(s.y), status: zn(s.status, wrap_dec8(s.y)), ..s },
            0,
        ),
        Operation::INX => (
            CpuState { x: wrap_inc8(s.x), status: zn(s.status, wrap_inc8(s.x)), ..s },
            0,
        ),
        Operation::INY => (
            CpuState { y: wrap_inc8(s.y), status: zn(s.status, wrap_inc8(s.y)), ..s },
            0,
        ),
        Operation::JMP => spec_jmp(s),
        Operation::JSR => spec_jsr(s),
        Operation::LDA => {
            let s1 = spec_fetch(s);
            (CpuState { accum: s1.fetched, status: zn(s1.status, s1.fetched), ..s1 }, 1)
        },
        Operation::LDX => {
            let s1 = spec_fetch(s);
            (CpuState { x: s1.fetched, status: zn(s1.status, s1.fetched), ..s1 }, 1)
        },
        Operation::LDY => {
            let s1 = spec_fetch(s);
            (CpuState { y: s1.fetched, status: zn(s1.status, s1.fetched), ..s1 }, 1)
        },
        Operation::NOP => spec_nop(s),
        Operation::PHA => spec_pha(s),
        Operation::PHP => spec_php(s),
        Operation::PLA => spec_pla(s),
        Operation::PLP => spec_plp(s),
        Operation::RTI => spec_rti(s),
        Operation::RTS => spec_rts(s),
        Operation::STA => (mem_write(s, s.addr_abs, s.accum), 0),
        Operation::STX => (mem_write(s, s.addr_abs, s.x), 0),
        Operation::STY => (mem_write(s, s.addr_abs, s.y), 0),
        Operation::TAX => (CpuState { x: s.accum, status: zn(s.status, s.accum), ..s }, 0),
        Operation::TAY => (CpuState { y: s.accum, status: zn(s.status, s.accum), ..s }, 0),
        Operation::TSX => (CpuState { x: s.stkp, status: zn(s.status, s.stkp), ..s }, 0),
        Operation::TXA => (CpuState { accum: s.x, status: zn(s.status, s.x), ..s }, 0),
        Operation::TXS => (CpuState { stkp: s.x, ..s }, 0),
        Operation::TYA => (CpuState { accum: s.y, status: zn(s.status, s.y), ..s }, 0),
        _ => spec_xxx(s),
    }
}

// ---------------------------------------------------------------------------
// Dispatch and interrupts
// ---------------------------------------------------------------------------

/// One full instruction dispatch: fetch the opcode, advance the program
/// counter, force Unused, look the opcode up, run the addressing mode and
/// the operation, and load the cycle counter with the base count plus one
/// when *both* extra-cycle signals fire.
pub open spec fn spec_step(s: CpuState) -> CpuState {
    let op = mem_read(s, s.pc);
    let instr = spec_instruction(op);
    let s1 = CpuState {
        opcode: op,
        pc: wrap_inc16(s.pc),
        status: StatusFlags { u: true, ..s.status },
        cycles: instr.cycles,
        ..s
    };
    let (s2, e1) = spec_addr_mode(instr.addr_mode, s1);
    let (s3, e2) = spec_operate(instr.oper, s2);
    let bonus: u8 = if e1 == 1 && e2 == 1 {
        1
    } else {
        0
    };
    CpuState {
        cycles: ((s3.cycles + bonus) as u8),
        status: StatusFlags { u: true, ..s3.status },
        ..s3
    }
}

/// One clock tick: dispatch a new instruction when idle, then consume one
/// cycle and count it.
pub open spec fn spec_clock(s: CpuState) -> CpuState {
    let t = if s.cycles == 0 {
        spec_step(s)
    } else {
        s
    };
    CpuState {
        cycles: ((t.cycles - 1) as u8),
        clock_count: wrap_inc32(s.clock_count),
        ..t
    }
}

/// One more tick on a counter already advanced by `n` ticks.
pub proof fn lemma_wrap_add32_step(c: u32, n: int)
    requires
        0 <= n,
    ensures
        wrap_add32(c, 0) == c,
        wrap_inc32(wrap_add32(c, n)) == wrap_add32(c, n + 1),
{
    let m: int = 0x1_0000_0000;
    vstd::arithmetic::div_mod::lemma_small_mod(c as nat, m as nat);
    vstd::arithmetic::div_mod::lemma_add_mod_noop(c + n, 1, m);
    vstd::arithmetic::div_mod::lemma_small_mod(1nat, m as nat);
    let r = (c + n) % m;
    if r == m - 1 {
        vstd::arithmetic::div_mod::lemma_mod_self_0(m);
    } else {
        vstd::arithmetic::div_mod::lemma_small_mod((r + 1) as nat, m as nat);
    }
}

/// Run to the next instruction boundary: when idle, dispatch one full
/// instruction and consume all its cycles; when mid-instruction, consume
/// the remaining cycles.  Each consumed cycle counts one tick.
pub open spec fn spec_run_instruction(s: CpuState) -> CpuState {
    let t = if s.cycles == 0 {
        spec_step(s)
    } else {
        s
    };
    CpuState { cycles: 0, clock_count: wrap_add32(s.clock_count, t.cycles as int), ..t }
}

/// The reset sequence: load the program counter through the vector at
/// 0xFFFC, clear the registers, and take 8 cycles.
pub open spec fn spec_reset(s: CpuState) -> CpuState {
    let lo = mem_read(s, 0xFFFC);
    let hi = mem_read(s, 0xFFFD);
    CpuState {
        pc: word(hi, lo),
        accum: 0,
        x: 0,
        y: 0,
        stkp: 0xFD,
        status: StatusFlags { u: true, ..StatusFlags::spec_all_clear() },
        addr_rel: 0,
        addr_abs: 0,
        fetched: 0,
        cycles: 8,
        ..s
    }
}

/// The common interrupt sequence: push the program counter (high byte
/// first), push the status byte with Break cleared and Unused set, then
/// set Interrupt-disable and jump through the vector.  The pushed byte
/// carries the Interrupt-disable flag as it was before the sequence.
pub open spec fn spec_interrupt(s: CpuState, vector: u16, cycles: u8) -> CpuState {
    let s1 = spec_push(s, hi_byte(s.pc));
    let s2 = spec_push(s1, lo_byte(s.pc));
    let pushed = spec_status_to_byte(StatusFlags { b: false, u: true, ..s.status });
    let s3 = spec_push(s2, pushed);
    let st = StatusFlags { b: false, u: true, i: true, ..s.status };
    let lo = mem_read(s3, vector);
    let hi = mem_read(s3, wrap_inc16(vector));
    CpuState { pc: word(hi, lo), status: st, addr_abs: vector, cycles: cycles, ..s3 }
}

/// A maskable interrupt request: honoured only while Interrupt-disable is
/// clear; 7 cycles, vector 0xFFFE.
pub open spec fn spec_irq(s: CpuState) -> CpuState {
    if s.status.i {
        s
    } else {
        spec_interrupt(s, 0xFFFE, 7)
    }
}

/// A non-maskable interrupt: never suppressed; 8 cycles, vector 0xFFFA.
pub open spec fn spec_nmi(s: CpuState) -> CpuState {
    spec_interrupt(s, 0xFFFA, 8)
}

} // verus!
