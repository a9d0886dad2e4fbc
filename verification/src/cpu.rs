//! The execution engine: fetch-decode-execute driver, register file,
//! addressing-mode resolvers, the operation set, and interrupt sequences.
//!
//! Every method is proved to transform the processor's view exactly as
//! the matching spec function in `state` says.  The engine has two
//! observable states: idle between instructions (`cycles` = 0) and
//! mid-instruction (`cycles` > 0); one clock tick either consumes a cycle
//! or performs a full dispatch.

use vstd::prelude::*;

use crate::bus;
use crate::flags::FLAGS_6502;
use crate::flags::StatusFlags;
use crate::flags::b01;
use crate::flags::spec_flag;
use crate::flags::spec_set_flag;
use crate::flags::spec_status_to_byte;
use crate::state::CpuState;
use crate::state::mem_read;
use crate::state::mem_write;
use crate::state::spec_clock;
use crate::state::spec_fetch;
use crate::state::spec_irq;
use crate::state::spec_nmi;
use crate::state::spec_branch;
use crate::state::spec_compare;
use crate::state::spec_operate;
use crate::state::spec_pull;
use crate::state::spec_push;
use crate::state::spec_shift_writeback;
use crate::state::spec_xxx;
use crate::state::zn;
use crate::state::spec_reset;
use crate::state::spec_run_instruction;
use crate::state::spec_step;
use crate::state::wrap_add16;
use crate::state::wrap_add32;
use crate::state::wrap_dec8;
use crate::state::wrap_dec16;
use crate::state::wrap_inc8;
use crate::state::wrap_inc16;
use crate::state::wrap_inc32;
use crate::table::AddrMode;
use crate::table::Operation;
use crate::table::instruction_at;
use crate::table::lemma_instruction_table_shape;
use crate::table::spec_instruction;

verus! {

// ---------------------------------------------------------------------------
// Wrapping arithmetic helpers
// ---------------------------------------------------------------------------

/// Increment modulo 256.
fn inc_u8(x: u8) -> (r: u8)
    ensures
        r == wrap_inc8(x),
{
    if x == 255 {
        0
    } else {
        x + 1
    }
}

/// Decrement modulo 256.
fn dec_u8(x: u8) -> (r: u8)
    ensures
        r == wrap_dec8(x),
{
    if x == 0 {
        255
    } else {
        x - 1
    }
}

/// Increment modulo 65536.
fn inc_u16(x: u16) -> (r: u16)
    ensures
        r == wrap_inc16(x),
{
    if x == 0xFFFF {
        0
    } else {
        x + 1
    }
}

/// Decrement modulo 65536.
fn dec_u16(x: u16) -> (r: u16)
    ensures
        r == wrap_dec16(x),
{
    if x == 0 {
        0xFFFF
    } else {
        x - 1
    }
}

/// Addition modulo 65536.
fn add_u16(a: u16, b: u16) -> (r: u16)
    ensures
        r == wrap_add16(a, b),
{
    let s: u32 = a as u32 + b as u32;
    if s > 0xFFFF {
        (s - 0x10000) as u16
    } else {
        s as u16
    }
}

/// Increment modulo 2^32.
fn inc_u32(x: u32) -> (r: u32)
    ensures
        r == wrap_inc32(x),
{
    if x == 0xFFFF_FFFF {
        0
    } else {
        x + 1
    }
}

// ---------------------------------------------------------------------------
// The processor
// ---------------------------------------------------------------------------

/// The 6502-family processor core: register file, status flags, transient
/// execution state, cycle counters, and the memory bus it was constructed
/// with.
pub struct CPU_6502 {
    accum: u8,
    x: u8,
    y: u8,
    stkp: u8,
    pc: u16,
    status: StatusFlags,
    fetched: u8,
    addr_abs: u16,
    addr_rel: u16,
    opcode: u8,
    cycles: u8,
    clock_count: u32,
    illegal_count: u32,
    bus: bus::bus,
}

impl View for CPU_6502 {
    type V = CpuState;

    closed spec fn view(&self) -> CpuState {
        CpuState {
            accum: self.accum,
            x: self.x,
            y: self.y,
            stkp: self.stkp,
            pc: self.pc,
            status: self.status,
            fetched: self.fetched,
            addr_abs: self.addr_abs,
            addr_rel: self.addr_rel,
            opcode: self.opcode,
            cycles: self.cycles,
            clock_count: self.clock_count,
            illegal_count: self.illegal_count,
            mem: self.bus@,
        }
    }
}

impl CPU_6502 {
    /// The bus behind the core covers the full 16-bit address space.
    pub open spec fn wf(&self) -> bool {
        self@.wf()
    }

    /// A processor at power-on, attached to the given memory bus: all
    /// registers clear except the stack pointer (0xFD) and the
    /// Interrupt-disable and Unused flags.
    pub fn new(xBus: bus::bus) -> (r: CPU_6502)
        requires
            xBus.wf(),
        ensures
            r.wf(),
            r@ == (CpuState {
                accum: 0,
                x: 0,
                y: 0,
                stkp: 0xFD,
                pc: 0,
                status: StatusFlags {
                    i: true,
                    u: true,
                    ..StatusFlags::spec_all_clear()
                },
                fetched: 0,
                addr_abs: 0,
                addr_rel: 0,
                opcode: 0,
                cycles: 0,
                clock_count: 0,
                illegal_count: 0,
                mem: xBus@,
            }),
    {
        CPU_6502 {
            accum: 0,
            x: 0,
            y: 0,
            stkp: 0xFD,
            pc: 0,
            status: StatusFlags {
                c: false,
                z: false,
                i: true,
                d: false,
                b: false,
                u: true,
                v: false,
                n: false,
            },
            fetched: 0,
            addr_abs: 0,
            addr_rel: 0,
            opcode: 0,
            cycles: 0,
            clock_count: 0,
            illegal_count: 0,
            bus: xBus,
        }
    }

    // -----------------------------------------------------------------------
    // Memory port
    // -----------------------------------------------------------------------

    /// Read a byte from the bus.
    pub fn read_this(&self, a: u16) -> (r: u8)
        requires
            self.wf(),
        ensures
            r == mem_read(self@, a),
    {
        self.bus.cpu_read(a)
    }

    /// Write a byte to the bus.
    pub fn write_this(&mut self, a: u16, d: u8)
        requires
            old(self).wf(),
        ensures
            final(self).wf(),
            final(self)@ == mem_write(old(self)@, a, d),
    {
        self.bus.cpu_write(a, d);
    }

    // -----------------------------------------------------------------------
    // Flag access
    // -----------------------------------------------------------------------

    /// 1 when the selected flag is set, 0 when it is clear.
    pub fn get_flag(&self, f: FLAGS_6502) -> (r: u8)
        ensures
            r == b01(spec_flag(self@.status, f)),
    {
        let set = match f {
            FLAGS_6502::C => self.status.c,
            FLAGS_6502::Z => self.status.z,
            FLAGS_6502::I => self.status.i,
            FLAGS_6502::D => self.status.d,
            FLAGS_6502::B => self.status.b,
            FLAGS_6502::U => self.status.u,
            FLAGS_6502::V => self.status.v,
            FLAGS_6502::N => self.status.n,
        };
        if set {
            1
        } else {
            0
        }
    }

    /// Force the selected flag to `v`.
    pub fn set_flag(&mut self, f: FLAGS_6502, v: bool)
        ensures
            final(self)@ == (CpuState {
                status: spec_set_flag(old(self)@.status, f, v),
                ..old(self)@
            }),
            final(self).wf() == old(self).wf(),
    {
        match f {
            FLAGS_6502::C => self.status.c = v,
            FLAGS_6502::Z => self.status.z = v,
            FLAGS_6502::I => self.status.i = v,
            FLAGS_6502::D => self.status.d = v,
            FLAGS_6502::B => self.status.b = v,
            FLAGS_6502::U => self.status.u = v,
            FLAGS_6502::V => self.status.v = v,
            FLAGS_6502::N => self.status.n = v,
        }
    }

    // -----------------------------------------------------------------------
    // Stack discipline
    // -----------------------------------------------------------------------

    /// Push a byte onto the stack in page 0x0100 and move the stack
    /// pointer down (wrapping).
    fn push(&mut self, d: u8)
        requires
            old(self).wf(),
        ensures
            final(self).wf(),
            final(self)@ == spec_push(old(self)@, d),
    {
        let addr: u16 = 0x0100 + self.stkp as u16;
        self.write_this(addr, d);
        self.stkp = dec_u8(self.stkp);
    }

    /// Move the stack pointer up (wrapping) and read the byte there.
    fn pull(&mut self) -> (r: u8)
        requires
            old(self).wf(),
        ensures
            final(self).wf(),
            final(self)@ == spec_pull(old(self)@).0,
            r == spec_pull(old(self)@).1,
    {
        self.stkp = inc_u8(self.stkp);
        self.read_this(0x0100 + self.stkp as u16)
    }

    // -----------------------------------------------------------------------
    // Interrupt sequences
    // -----------------------------------------------------------------------

    /// Reset: load the program counter through the vector at
    /// 0xFFFC/0xFFFD, clear the registers, set the stack pointer to 0xFD,
    /// leave only the Unused flag set, and take 8 cycles.
    pub fn reset(&mut self)
        requires
            old(self).wf(),
        ensures
            final(self).wf(),
            final(self)@ == spec_reset(old(self)@),
    {
        let lo = self.read_this(0xFFFC) as u16;
        let hi = self.read_this(0xFFFD) as u16;
        self.pc = hi * 256 + lo;

        self.accum = 0;
        self.x = 0;
        self.y = 0;
        self.stkp = 0xFD;
        self.status = StatusFlags {
            c: false,
            z: false,
            i: false,
            d: false,
            b: false,
            u: true,
            v: false,
            n: false,
        };

        self.addr_rel = 0;
        self.addr_abs = 0;
        self.fetched = 0;

        self.cycles = 8;
    }

    /// The common interrupt entry: push the program counter (high byte
    /// first) and the status byte (Break cleared, Unused set), then set
    /// Interrupt-disable and jump through `vector`.
    fn interrupt(&mut self, vector: u16, cycles: u8)
        requires
            old(self).wf(),
            vector < 0xFFFF,
        ensures
            final(self).wf(),
            final(self)@ == crate::state::spec_interrupt(old(self)@, vector, cycles),
    {
        let pc_hi = (self.pc / 256) as u8;
        let pc_lo = (self.pc % 256) as u8;
        self.push(pc_hi);
        self.push(pc_lo);

        self.status.b = false;
        self.status.u = true;
        let byte = self.status.to_byte();
        self.push(byte);
        self.status.i = true;

        self.addr_abs = vector;
        let lo = self.read_this(vector) as u16;
        let hi = self.read_this(vector + 1) as u16;
        self.pc = hi * 256 + lo;

        self.cycles = cycles;
    }

    /// Maskable interrupt request: ignored entirely while the
    /// Interrupt-disable flag is set; otherwise redirects through the
    /// vector at 0xFFFE and takes 7 cycles.
    pub fn irq(&mut self)
        requires
            old(self).wf(),
        ensures
            final(self).wf(),
            final(self)@ == spec_irq(old(self)@),
            old(self)@.status.i ==> final(self)@ == old(self)@,
    {
        if self.get_flag(FLAGS_6502::I) == 0 {
            self.interrupt(0xFFFE, 7);
        }
    }

    /// Non-maskable interrupt: never suppressed; redirects through the
    /// vector at 0xFFFA and takes 8 cycles.
    pub fn nmi(&mut self)
        requires
            old(self).wf(),
        ensures
            final(self).wf(),
            final(self)@ == spec_nmi(old(self)@),
    {
        self.interrupt(0xFFFA, 8);
    }

    // -----------------------------------------------------------------------
    // Addressing modes
    // -----------------------------------------------------------------------

    /// Implied: the operand is the accumulator; no memory read.
    fn IMP(&mut self) -> (r: u8)
        requires
            old(self).wf(),
        ensures
            final(self).wf(),
            final(self)@ == crate::state::spec_imp(old(self)@).0,
            r == crate::state::spec_imp(old(self)@).1,
            final(self)@.cycles == old(self)@.cycles,
    {
        self.fetched = self.accum;
        0
    }

    /// Immediate: the operand byte follows the opcode.
    fn IMM(&mut self) -> (r: u8)
        requires
            old(self).wf(),
        ensures
            final(self).wf(),
            final(self)@ == crate::state::spec_imm(old(self)@).0,
            r == crate::state::spec_imm(old(self)@).1,
            final(self)@.cycles == old(self)@.cycles,
    {
        self.addr_abs = self.pc;
        self.pc = inc_u16(self.pc);
        0
    }

    /// Zero page: one operand byte addresses page zero.
    fn ZP0(&mut self) -> (r: u8)
        requires
            old(self).wf(),
        ensures
            final(self).wf(),
            final(self)@ == crate::state::spec_zp0(old(self)@).0,
            r == crate::state::spec_zp0(old(self)@).1,
            final(self)@.cycles == old(self)@.cycles,
    {
        self.addr_abs = self.read_this(self.pc) as u16;
        self.pc = inc_u16(self.pc);
        0
    }

    /// Zero page indexed by X; the sum wraps within page zero.
    fn ZPX(&mut self) -> (r: u8)
        requires
            old(self).wf(),
        ensures
            final(self).wf(),
            final(self)@ == crate::state::spec_zpx(old(self)@).0,
            r == crate::state::spec_zpx(old(self)@).1,
            final(self)@.cycles == old(self)@.cycles,
    {
        let base = self.read_this(self.pc);
        self.addr_abs = (base as u16 + self.x as u16) % 256;
        self.pc = inc_u16(self.pc);
        0
    }

    /// Zero page indexed by Y; the sum wraps within page zero.
    fn ZPY(&mut self) -> (r: u8)
        requires
            old(self).wf(),
        ensures
            final(self).wf(),
            final(self)@ == crate::state::spec_zpy(old(self)@).0,
            r == crate::state::spec_zpy(old(self)@).1,
            final(self)@.cycles == old(self)@.cycles,
    {
        let base = self.read_this(self.pc);
        self.addr_abs = (base as u16 + self.y as u16) % 256;
        self.pc = inc_u16(self.pc);
        0
    }

    /// Relative: the offset byte is sign-extended into the full 16-bit
    /// range.
    fn REL(&mut self) -> (r: u8)
        requires
            old(self).wf(),
        ensures
            final(self).wf(),
            final(self)@ == crate::state::spec_rel(old(self)@).0,
            r == crate::state::spec_rel(old(self)@).1,
            final(self)@.cycles == old(self)@.cycles,
    {
        let offset = self.read_this(self.pc);
        self.addr_rel = if offset >= 128 {
            0xFF00 + offset as u16
        } else {
            offset as u16
        };
        self.pc = inc_u16(self.pc);
        0
    }

    /// Absolute: two operand bytes, low then high.
    fn ABS(&mut self) -> (r: u8)
        requires
            old(self).wf(),
        ensures
            final(self).wf(),
            final(self)@ == crate::state::spec_abs(old(self)@).0,
            r == crate::state::spec_abs(old(self)@).1,
            final(self)@.cycles == old(self)@.cycles,
    {
        let lo = self.read_this(self.pc) as u16;
        self.pc = inc_u16(self.pc);
        let hi = self.read_this(self.pc) as u16;
        self.pc = inc_u16(self.pc);
        self.addr_abs = hi * 256 + lo;
        0
    }

    /// Absolute indexed by X; one extra cycle when the sum crosses a
    /// page.
    fn ABX(&mut self) -> (r: u8)
        requires
            old(self).wf(),
        ensures
            final(self).wf(),
            final(self)@ == crate::state::spec_abx(old(self)@).0,
            r == crate::state::spec_abx(old(self)@).1,
            final(self)@.cycles == old(self)@.cycles,
    {
        let lo = self.read_this(self.pc) as u16;
        self.pc = inc_u16(self.pc);
        let hi = self.read_this(self.pc) as u16;
        self.pc = inc_u16(self.pc);
        self.addr_abs = add_u16(hi * 256 + lo, self.x as u16);
        if self.addr_abs / 256 != hi {
            1
        } else {
            0
        }
    }

    /// Absolute indexed by Y; one extra cycle when the sum crosses a
    /// page.
    fn ABY(&mut self) -> (r: u8)
        requires
            old(self).wf(),
        ensures
            final(self).wf(),
            final(self)@ == crate::state::spec_aby(old(self)@).0,
            r == crate::state::spec_aby(old(self)@).1,
            final(self)@.cycles == old(self)@.cycles,
    {
        let lo = self.read_this(self.pc) as u16;
        self.pc = inc_u16(self.pc);
        let hi = self.read_this(self.pc) as u16;
        self.pc = inc_u16(self.pc);
        self.addr_abs = add_u16(hi * 256 + lo, self.y as u16);
        if self.addr_abs / 256 != hi {
            1
        } else {
            0
        }
    }

    /// Indirect, reproducing the documented hardware defect: when the
    /// pointer's low byte is 0xFF, the target's high byte is read from
    /// the start of the *same* page instead of the next one.
    fn IND(&mut self) -> (r: u8)
        requires
            old(self).wf(),
        ensures
            final(self).wf(),
            final(self)@ == crate::state::spec_ind(old(self)@).0,
            r == crate::state::spec_ind(old(self)@).1,
            final(self)@.cycles == old(self)@.cycles,
    {
        let ptr_lo = self.read_this(self.pc);
        self.pc = inc_u16(self.pc);
        let ptr_hi = self.read_this(self.pc);
        self.pc = inc_u16(self.pc);

        let ptr: u16 = ptr_hi as u16 * 256 + ptr_lo as u16;
        let target_lo = self.read_this(ptr) as u16;
        let target_hi = if ptr_lo == 0xFF {
            self.read_this(ptr_hi as u16 * 256) as u16
        } else {
            self.read_this(inc_u16(ptr)) as u16
        };
        self.addr_abs = target_hi * 256 + target_lo;
        0
    }

    /// Pre-indexed indirect: the zero-page pointer is offset by X before
    /// the 16-bit target is read from page zero (wrapping within the
    /// page).
    fn IZX(&mut self) -> (r: u8)
        requires
            old(self).wf(),
        ensures
            final(self).wf(),
            final(self)@ == crate::state::spec_izx(old(self)@).0,
            r == crate::state::spec_izx(old(self)@).1,
            final(self)@.cycles == old(self)@.cycles,
    {
        let t = self.read_this(self.pc) as u16;
        self.pc = inc_u16(self.pc);

        let lo = self.read_this((t + self.x as u16) % 256) as u16;
        let hi = self.read_this((t + self.x as u16 + 1) % 256) as u16;
        self.addr_abs = hi * 256 + lo;
        0
    }

    /// Post-indexed indirect: the 16-bit base is read from page zero,
    /// then offset by Y; one extra cycle when the sum crosses a page.
    fn IZY(&mut self) -> (r: u8)
        requires
            old(self).wf(),
        ensures
            final(self).wf(),
            final(self)@ == crate::state::spec_izy(old(self)@).0,
            r == crate::state::spec_izy(old(self)@).1,
            final(self)@.cycles == old(self)@.cycles,
    {
        let t = self.read_this(self.pc) as u16;
        self.pc = inc_u16(self.pc);

        let lo = self.read_this(t) as u16;
        let hi = self.read_this((t + 1) % 256) as u16;
        self.addr_abs = add_u16(hi * 256 + lo, self.y as u16);
        if self.addr_abs / 256 != hi {
            1
        } else {
            0
        }
    }

    // -----------------------------------------------------------------------
    // Operand fetch
    // -----------------------------------------------------------------------

    /// Read the operand for the current instruction from the effective
    /// address — except in implied mode, where the addressing step
    /// already copied the accumulator.
    fn fetch(&mut self) -> (r: u8)
        requires
            old(self).wf(),
        ensures
            final(self).wf(),
            final(self)@ == spec_fetch(old(self)@),
            r == final(self)@.fetched,
    {
        if instruction_at(self.opcode).addr_mode() != AddrMode::IMP {
            self.fetched = self.read_this(self.addr_abs);
        }
        self.fetched
    }

    // -----------------------------------------------------------------------
    // Operation helpers
    // -----------------------------------------------------------------------

    /// Set Zero and Negative from a freshly produced value.
    fn set_zn(&mut self, v: u8)
        ensures
            final(self)@ == (CpuState { status: zn(old(self)@.status, v), ..old(self)@ }),
            final(self).wf() == old(self).wf(),
    {
        self.status.z = v == 0;
        self.status.n = v >= 128;
    }

    /// Take a branch when its condition holds: one extra cycle, and a
    /// second when the target lies in a different page.
    fn branch_if(&mut self, taken: bool) -> (r: u8)
        requires
            old(self).wf(),
            old(self)@.cycles <= 253,
        ensures
            final(self).wf(),
            final(self)@ == spec_branch(old(self)@, taken).0,
            r == spec_branch(old(self)@, taken).1,
            old(self)@.cycles <= final(self)@.cycles <= old(self)@.cycles + 2,
    {
        if taken {
            self.cycles = self.cycles + 1;
            let target = add_u16(self.pc, self.addr_rel);
            if target / 256 != self.pc / 256 {
                self.cycles = self.cycles + 1;
            }
            self.addr_abs = target;
            self.pc = target;
        }
        0
    }

    /// Compare a register against the fetched operand.
    fn compare_with(&mut self, reg: u8)
        requires
            old(self).wf(),
        ensures
            final(self).wf(),
            final(self)@ == spec_compare(old(self)@, reg),
            final(self)@.cycles == old(self)@.cycles,
    {
        self.fetch();
        let diff: u8 = if reg >= self.fetched {
            reg - self.fetched
        } else {
            (reg as u16 + 256 - self.fetched as u16) as u8
        };
        self.status.c = reg >= self.fetched;
        self.status.z = diff == 0;
        self.status.n = diff >= 128;
    }

    /// Write a shift/rotate result back to the accumulator in implied
    /// mode, otherwise to the effective address — selected by the
    /// addressing-mode tag of the current instruction.
    fn shift_writeback(&mut self, result: u8)
        requires
            old(self).wf(),
        ensures
            final(self).wf(),
            final(self)@ == spec_shift_writeback(old(self)@, result),
            final(self)@.cycles == old(self)@.cycles,
    {
        if instruction_at(self.opcode).addr_mode() == AddrMode::IMP {
            self.accum = result;
        } else {
            self.write_this(self.addr_abs, result);
        }
    }

    // -----------------------------------------------------------------------
    // Arithmetic and logic operations
    // -----------------------------------------------------------------------

    /// Add with carry, in a widened intermediate so the carry-out is
    /// bit 8; Overflow comes from the operand and result sign bits.
    fn ADC(&mut self) -> (r: u8)
        requires
            old(self).wf(),
        ensures
            final(self).wf(),
            final(self)@ == crate::state::spec_adc(old(self)@).0,
            r == crate::state::spec_adc(old(self)@).1,
            old(self)@.cycles <= final(self)@.cycles <= old(self)@.cycles + 2,
    {
        self.fetch();
        let carry_in: u16 = if self.status.c {
            1
        } else {
            0
        };
        let sum: u16 = self.accum as u16 + self.fetched as u16 + carry_in;
        let result: u8 = (sum % 256) as u8;
        let overflow = ((self.accum >= 128) == (self.fetched >= 128)) && ((self.accum >= 128)
            != (result >= 128));
        self.status.c = sum > 255;
        self.status.z = result == 0;
        self.status.v = overflow;
        self.status.n = result >= 128;
        self.accum = result;
        1
    }

    /// Subtract with borrow: add the one's complement of the operand.
    fn SBC(&mut self) -> (r: u8)
        requires
            old(self).wf(),
        ensures
            final(self).wf(),
            final(self)@ == crate::state::spec_sbc(old(self)@).0,
            r == crate::state::spec_sbc(old(self)@).1,
            old(self)@.cycles <= final(self)@.cycles <= old(self)@.cycles + 2,
    {
        self.fetch();
        let value: u8 = 255 - self.fetched;
        let carry_in: u16 = if self.status.c {
            1
        } else {
            0
        };
        let sum: u16 = self.accum as u16 + value as u16 + carry_in;
        let result: u8 = (sum % 256) as u8;
        let overflow = ((self.accum >= 128) == (value >= 128)) && ((self.accum >= 128) != (
        result >= 128));
        self.status.c = sum > 255;
        self.status.z = result == 0;
        self.status.v = overflow;
        self.status.n = result >= 128;
        self.accum = result;
        1
    }

    /// Bitwise AND into the accumulator.
    fn AND(&mut self) -> (r: u8)
        requires
            old(self).wf(),
        ensures
            final(self).wf(),
            final(self)@ == crate::state::spec_and(old(self)@).0,
            r == crate::state::spec_and(old(self)@).1,
            old(self)@.cycles <= final(self)@.cycles <= old(self)@.cycles + 2,
    {
        self.fetch();
        self.accum = self.accum & self.fetched;
        let v = self.accum;
        self.set_zn(v);
        1
    }

    /// Bitwise OR into the accumulator.
    fn ORA(&mut self) -> (r: u8)
        requires
            old(self).wf(),
        ensures
            final(self).wf(),
            final(self)@ == crate::state::spec_ora(old(self)@).0,
            r == crate::state::spec_ora(old(self)@).1,
            old(self)@.cycles <= final(self)@.cycles <= old(self)@.cycles + 2,
    {
        self.fetch();
        self.accum = self.accum | self.fetched;
        let v = self.accum;
        self.set_zn(v);
        1
    }

    /// Bitwise exclusive OR into the accumulator.
    fn EOR(&mut self) -> (r: u8)
        requires
            old(self).wf(),
        ensures
            final(self).wf(),
            final(self)@ == crate::state::spec_eor(old(self)@).0,
            r == crate::state::spec_eor(old(self)@).1,
            old(self)@.cycles <= final(self)@.cycles <= old(self)@.cycles + 2,
    {
        self.fetch();
        self.accum = self.accum ^ self.fetched;
        let v = self.accum;
        self.set_zn(v);
        1
    }

    /// Bit test: Zero from the masked accumulator, Negative and Overflow
    /// copied from bits 7 and 6 of the operand.
    fn BIT(&mut self) -> (r: u8)
        requires
            old(self).wf(),
        ensures
            final(self).wf(),
            final(self)@ == crate::state::spec_bit(old(self)@).0,
            r == crate::state::spec_bit(old(self)@).1,
            old(self)@.cycles <= final(self)@.cycles <= old(self)@.cycles + 2,
    {
        self.fetch();
        self.status.z = self.accum & self.fetched == 0;
        self.status.n = self.fetched >= 128;
        self.status.v = self.fetched & 0x40 != 0;
        0
    }

    /// Arithmetic shift left.
    fn ASL(&mut self) -> (r: u8)
        requires
            old(self).wf(),
        ensures
            final(self).wf(),
            final(self)@ == crate::state::spec_asl(old(self)@).0,
            r == crate::state::spec_asl(old(self)@).1,
            old(self)@.cycles <= final(self)@.cycles <= old(self)@.cycles + 2,
    {
        self.fetch();
        let t: u16 = self.fetched as u16 * 2;
        let result: u8 = (t % 256) as u8;
        self.status.c = t > 255;
        self.status.z = result == 0;
        self.status.n = result >= 128;
        self.shift_writeback(result);
        0
    }

    /// Logical shift right.
    fn LSR(&mut self) -> (r: u8)
        requires
            old(self).wf(),
        ensures
            final(self).wf(),
            final(self)@ == crate::state::spec_lsr(old(self)@).0,
            r == crate::state::spec_lsr(old(self)@).1,
            old(self)@.cycles <= final(self)@.cycles <= old(self)@.cycles + 2,
    {
        self.fetch();
        let result: u8 = self.fetched / 2;
        self.status.c = self.fetched % 2 == 1;
        self.status.z = result == 0;
        self.status.n = result >= 128;
        self.shift_writeback(result);
        0
    }

    /// Rotate left through the carry.
    fn ROL(&mut self) -> (r: u8)
        requires
            old(self).wf(),
        ensures
            final(self).wf(),
            final(self)@ == crate::state::spec_rol(old(self)@).0,
            r == crate::state::spec_rol(old(self)@).1,
            old(self)@.cycles <= final(self)@.cycles <= old(self)@.cycles + 2,
    {
        self.fetch();
        let carry_in: u16 = if self.status.c {
            1
        } else {
            0
        };
        let t: u16 = self.fetched as u16 * 2 + carry_in;
        let result: u8 = (t % 256) as u8;
        self.status.c = t > 255;
        self.status.z = result == 0;
        self.status.n = result >= 128;
        self.shift_writeback(result);
        0
    }

    /// Rotate right through the carry.
    fn ROR(&mut self) -> (r: u8)
        requires
            old(self).wf(),
        ensures
            final(self).wf(),
            final(self)@ == crate::state::spec_ror(old(self)@).0,
            r == crate::state::spec_ror(old(self)@).1,
            old(self)@.cycles <= final(self)@.cycles <= old(self)@.cycles + 2,
    {
        self.fetch();
        let carry_in: u8 = if self.status.c {
            128
        } else {
            0
        };
        let result: u8 = carry_in + self.fetched / 2;
        self.status.c = self.fetched % 2 == 1;
        self.status.z = result == 0;
        self.status.n = result >= 128;
        self.shift_writeback(result);
        0
    }

    /// Compare the accumulator.
    fn CMP(&mut self) -> (r: u8)
        requires
            old(self).wf(),
        ensures
            final(self).wf(),
            final(self)@ == spec_compare(old(self)@, old(self)@.accum),
            r == 1,
            old(self)@.cycles <= final(self)@.cycles <= old(self)@.cycles + 2,
    {
        let reg = self.accum;
        self.compare_with(reg);
        1
    }

    /// Compare the X register.
    fn CPX(&mut self) -> (r: u8)
        requires
            old(self).wf(),
        ensures
            final(self).wf(),
            final(self)@ == spec_compare(old(self)@, old(self)@.x),
            r == 0,
            old(self)@.cycles <= final(self)@.cycles <= old(self)@.cycles + 2,
    {
        let reg = self.x;
        self.compare_with(reg);
        0
    }

    /// Compare the Y register.
    fn CPY(&mut self) -> (r: u8)
        requires
            old(self).wf(),
        ensures
            final(self).wf(),
            final(self)@ == spec_compare(old(self)@, old(self)@.y),
            r == 1,
            old(self)@.cycles <= final(self)@.cycles <= old(self)@.cycles + 2,
    {
        let reg = self.y;
        self.compare_with(reg);
        1
    }

    // -----------------------------------------------------------------------
    // Increment and decrement
    // -----------------------------------------------------------------------

    /// Decrement the value at the effective address.
    fn DEC(&mut self) -> (r: u8)
        requires
            old(self).wf(),
        ensures
            final(self).wf(),
            final(self)@ == crate::state::spec_dec(old(self)@).0,
            r == crate::state::spec_dec(old(self)@).1,
            old(self)@.cycles <= final(self)@.cycles <= old(self)@.cycles + 2,
    {
        self.fetch();
        let result = dec_u8(self.fetched);
        self.write_this(self.addr_abs, result);
        self.set_zn(result);
        1
    }

    /// Increment the value at the effective address.
    fn INC(&mut self) -> (r: u8)
        requires
            old(self).wf(),
        ensures
            final(self).wf(),
            final(self)@ == crate::state::spec_inc(old(self)@).0,
            r == crate::state::spec_inc(old(self)@).1,
            old(self)@.cycles <= final(self)@.cycles <= old(self)@.cycles + 2,
    {
        self.fetch();
        let result = inc_u8(self.fetched);
        self.write_this(self.addr_abs, result);
        self.set_zn(result);
        0
    }

    /// Decrement the X register.
    fn DEX(&mut self) -> (r: u8)
        requires
            old(self).wf(),
        ensures
            final(self).wf(),
            final(self)@ == spec_operate(Operation::DEX, old(self)@).0,
            r == spec_operate(Operation::DEX, old(self)@).1,
            old(self)@.cycles <= final(self)@.cycles <= old(self)@.cycles + 2,
    {
        proof {
            reveal(spec_operate);
        }
        self.x = dec_u8(self.x);
        let v = self.x;
        self.set_zn(v);
        0
    }

    /// Decrement the Y register.
    fn DEY(&mut self) -> (r: u8)
        requires
            old(self).wf(),
        ensures
            final(self).wf(),
            final(self)@ == spec_operate(Operation::DEY, old(self)@).0,
            r == spec_operate(Operation::DEY, old(self)@).1,
            old(self)@.cycles <= final(self)@.cycles <= old(self)@.cycles + 2,
    {
        proof {
            reveal(spec_operate);
        }
        self.y = dec_u8(self.y);
        let v = self.y;
        self.set_zn(v);
        0
    }

    /// Increment the X register.
    fn INX(&mut self) -> (r: u8)
        requires
            old(self).wf(),
        ensures
            final(self).wf(),
            final(self)@ == spec_operate(Operation::INX, old(self)@).0,
            r == spec_operate(Operation::INX, old(self)@).1,
            old(self)@.cycles <= final(self)@.cycles <= old(self)@.cycles + 2,
    {
        proof {
            reveal(spec_operate);
        }
        self.x = inc_u8(self.x);
        let v = self.x;
        self.set_zn(v);
        0
    }

    /// Increment the Y register.
    fn INY(&mut self) -> (r: u8)
        requires
            old(self).wf(),
        ensures
            final(self).wf(),
            final(self)@ == spec_operate(Operation::INY, old(self)@).0,
            r == spec_operate(Operation::INY, old(self)@).1,
            old(self)@.cycles <= final(self)@.cycles <= old(self)@.cycles + 2,
    {
        proof {
            reveal(spec_operate);
        }
        self.y = inc_u8(self.y);
        let v = self.y;
        self.set_zn(v);
        0
    }

    // -----------------------------------------------------------------------
    // Loads, stores and transfers
    // -----------------------------------------------------------------------

    /// Load the accumulator.
    fn LDA(&mut self) -> (r: u8)
        requires
            old(self).wf(),
        ensures
            final(self).wf(),
            final(self)@ == spec_operate(Operation::LDA, old(self)@).0,
            r == spec_operate(Operation::LDA, old(self)@).1,
            old(self)@.cycles <= final(self)@.cycles <= old(self)@.cycles + 2,
    {
        proof {
            reveal(spec_operate);
        }
        self.fetch();
        self.accum = self.fetched;
        let v = self.accum;
        self.set_zn(v);
        1
    }

    /// Load the X register.
    fn LDX(&mut self) -> (r: u8)
        requires
            old(self).wf(),
        ensures
            final(self).wf(),
            final(self)@ == spec_operate(Operation::LDX, old(self)@).0,
            r == spec_operate(Operation::LDX, old(self)@).1,
            old(self)@.cycles <= final(self)@.cycles <= old(self)@.cycles + 2,
    {
        proof {
            reveal(spec_operate);
        }
        self.fetch();
        self.x = self.fetched;
        let v = self.x;
        self.set_zn(v);
        1
    }

    /// Load the Y register.
    fn LDY(&mut self) -> (r: u8)
        requires
            old(self).wf(),
        ensures
            final(self).wf(),
            final(self)@ == spec_operate(Operation::LDY, old(self)@).0,
            r == spec_operate(Operation::LDY, old(self)@).1,
            old(self)@.cycles <= final(self)@.cycles <= old(self)@.cycles + 2,
    {
        proof {
            reveal(spec_operate);
        }
        self.fetch();
        self.y = self.fetched;
        let v = self.y;
        self.set_zn(v);
        1
    }

    /// Store the accumulator at the effective address.
    fn STA(&mut self) -> (r: u8)
        requires
            old(self).wf(),
        ensures
            final(self).wf(),
            final(self)@ == spec_operate(Operation::STA, old(self)@).0,
            r == spec_operate(Operation::STA, old(self)@).1,
            old(self)@.cycles <= final(self)@.cycles <= old(self)@.cycles + 2,
    {
        proof {
            reveal(spec_operate);
        }
        let addr = self.addr_abs;
        self.write_this(addr, self.accum);
        0
    }

    /// Store the X register at the effective address.
    fn STX(&mut self) -> (r: u8)
        requires
            old(self).wf(),
        ensures
            final(self).wf(),
            final(self)@ == spec_operate(Operation::STX, old(self)@).0,
            r == spec_operate(Operation::STX, old(self)@).1,
            old(self)@.cycles <= final(self)@.cycles <= old(self)@.cycles + 2,
    {
        proof {
            reveal(spec_operate);
        }
        let addr = self.addr_abs;
        self.write_this(addr, self.x);
        0
    }

    /// Store the Y register at the effective address.
    fn STY(&mut self) -> (r: u8)
        requires
            old(self).wf(),
        ensures
            final(self).wf(),
            final(self)@ == spec_operate(Operation::STY, old(self)@).0,
            r == spec_operate(Operation::STY, old(self)@).1,
            old(self)@.cycles <= final(self)@.cycles <= old(self)@.cycles + 2,
    {
        proof {
            reveal(spec_operate);
        }
        let addr = self.addr_abs;
        self.write_this(addr, self.y);
        0
    }

    /// Transfer the accumulator to X.
    fn TAX(&mut self) -> (r: u8)
        requires
            old(self).wf(),
        ensures
            final(self).wf(),
            final(self)@ == spec_operate(Operation::TAX, old(self)@).0,
            r == spec_operate(Operation::TAX, old(self)@).1,
            old(self)@.cycles <= final(self)@.cycles <= old(self)@.cycles + 2,
    {
        proof {
            reveal(spec_operate);
        }
        self.x = self.accum;
        let v = self.x;
        self.set_zn(v);
        0
    }

    /// Transfer the accumulator to Y.
    fn TAY(&mut self) -> (r: u8)
        requires
            old(self).wf(),
        ensures
            final(self).wf(),
            final(self)@ == spec_operate(Operation::TAY, old(self)@).0,
            r == spec_operate(Operation::TAY, old(self)@).1,
            old(self)@.cycles <= final(self)@.cycles <= old(self)@.cycles + 2,
    {
        proof {
            reveal(spec_operate);
        }
        self.y = self.accum;
        let v = self.y;
        self.set_zn(v);
        0
    }

    /// Transfer the stack pointer to X.
    fn TSX(&mut self) -> (r: u8)
        requires
            old(self).wf(),
        ensures
            final(self).wf(),
            final(self)@ == spec_operate(Operation::TSX, old(self)@).0,
            r == spec_operate(Operation::TSX, old(self)@).1,
            old(self)@.cycles <= final(self)@.cycles <= old(self)@.cycles + 2,
    {
        proof {
            reveal(spec_operate);
        }
        self.x = self.stkp;
        let v = self.x;
        self.set_zn(v);
        0
    }

    /// Transfer X to the accumulator.
    fn TXA(&mut self) -> (r: u8)
        requires
            old(self).wf(),
        ensures
            final(self).wf(),
            final(self)@ == spec_operate(Operation::TXA, old(self)@).0,
            r == spec_operate(Operation::TXA, old(self)@).1,
            old(self)@.cycles <= final(self)@.cycles <= old(self)@.cycles + 2,
    {
        proof {
            reveal(spec_operate);
        }
        self.accum = self.x;
        let v = self.accum;
        self.set_zn(v);
        0
    }

    /// Transfer X to the stack pointer (no flags touched).
    fn TXS(&mut self) -> (r: u8)
        requires
            old(self).wf(),
        ensures
            final(self).wf(),
            final(self)@ == spec_operate(Operation::TXS, old(self)@).0,
            r == spec_operate(Operation::TXS, old(self)@).1,
            old(self)@.cycles <= final(self)@.cycles <= old(self)@.cycles + 2,
    {
        proof {
            reveal(spec_operate);
        }
        self.stkp = self.x;
        0
    }

    /// Transfer Y to the accumulator.
    fn TYA(&mut self) -> (r: u8)
        requires
            old(self).wf(),
        ensures
            final(self).wf(),
            final(self)@ == spec_operate(Operation::TYA, old(self)@).0,
            r == spec_operate(Operation::TYA, old(self)@).1,
            old(self)@.cycles <= final(self)@.cycles <= old(self)@.cycles + 2,
    {
        proof {
            reveal(spec_operate);
        }
        self.accum = self.y;
        let v = self.accum;
        self.set_zn(v);
        0
    }

    // -----------------------------------------------------------------------
    // Branches
    // -----------------------------------------------------------------------

    /// Branch if Carry clear.
    fn BCC(&mut self) -> (r: u8)
        requires
            old(self).wf(),
            old(self)@.cycles <= 253,
        ensures
            final(self).wf(),
            final(self)@ == spec_branch(old(self)@, !old(self)@.status.c).0,
            r == spec_branch(old(self)@, !old(self)@.status.c).1,
            old(self)@.cycles <= final(self)@.cycles <= old(self)@.cycles + 2,
    {
        let taken = !self.status.c;
        self.branch_if(taken)
    }

    /// Branch if Carry set.
    fn BCS(&mut self) -> (r: u8)
        requires
            old(self).wf(),
            old(self)@.cycles <= 253,
        ensures
            final(self).wf(),
            final(self)@ == spec_branch(old(self)@, old(self)@.status.c).0,
            r == spec_branch(old(self)@, old(self)@.status.c).1,
            old(self)@.cycles <= final(self)@.cycles <= old(self)@.cycles + 2,
    {
        let taken = self.status.c;
        self.branch_if(taken)
    }

    /// Branch if equal (Zero set).
    fn BEQ(&mut self) -> (r: u8)
        requires
            old(self).wf(),
            old(self)@.cycles <= 253,
        ensures
            final(self).wf(),
            final(self)@ == spec_branch(old(self)@, old(self)@.status.z).0,
            r == spec_branch(old(self)@, old(self)@.status.z).1,
            old(self)@.cycles <= final(self)@.cycles <= old(self)@.cycles + 2,
    {
        let taken = self.status.z;
        self.branch_if(taken)
    }

    /// Branch if not equal (Zero clear).
    fn BNE(&mut self) -> (r: u8)
        requires
            old(self).wf(),
            old(self)@.cycles <= 253,
        ensures
            final(self).wf(),
            final(self)@ == spec_branch(old(self)@, !old(self)@.status.z).0,
            r == spec_branch(old(self)@, !old(self)@.status.z).1,
            old(self)@.cycles <= final(self)@.cycles <= old(self)@.cycles + 2,
    {
        let taken = !self.status.z;
        self.branch_if(taken)
    }

    /// Branch if minus (Negative set).
    fn BMI(&mut self) -> (r: u8)
        requires
            old(self).wf(),
            old(self)@.cycles <= 253,
        ensures
            final(self).wf(),
            final(self)@ == spec_branch(old(self)@, old(self)@.status.n).0,
            r == spec_branch(old(self)@, old(self)@.status.n).1,
            old(self)@.cycles <= final(self)@.cycles <= old(self)@.cycles + 2,
    {
        let taken = self.status.n;
        self.branch_if(taken)
    }

    /// Branch if plus (Negative clear).
    fn BPL(&mut self) -> (r: u8)
        requires
            old(self).wf(),
            old(self)@.cycles <= 253,
        ensures
            final(self).wf(),
            final(self)@ == spec_branch(old(self)@, !old(self)@.status.n).0,
            r == spec_branch(old(self)@, !old(self)@.status.n).1,
            old(self)@.cycles <= final(self)@.cycles <= old(self)@.cycles + 2,
    {
        let taken = !self.status.n;
        self.branch_if(taken)
    }

    /// Branch if Overflow set.
    fn BVS(&mut self) -> (r: u8)
        requires
            old(self).wf(),
            old(self)@.cycles <= 253,
        ensures
            final(self).wf(),
            final(self)@ == spec_branch(old(self)@, old(self)@.status.v).0,
            r == spec_branch(old(self)@, old(self)@.status.v).1,
            old(self)@.cycles <= final(self)@.cycles <= old(self)@.cycles + 2,
    {
        let taken = self.status.v;
        self.branch_if(taken)
    }

    /// Branch if Overflow clear.
    fn BVC(&mut self) -> (r: u8)
        requires
            old(self).wf(),
            old(self)@.cycles <= 253,
        ensures
            final(self).wf(),
            final(self)@ == spec_branch(old(self)@, !old(self)@.status.v).0,
            r == spec_branch(old(self)@, !old(self)@.status.v).1,
            old(self)@.cycles <= final(self)@.cycles <= old(self)@.cycles + 2,
    {
        let taken = !self.status.v;
        self.branch_if(taken)
    }

    // -----------------------------------------------------------------------
    // Flag operations
    // -----------------------------------------------------------------------

    /// Clear the Carry flag.
    fn CLC(&mut self) -> (r: u8)
        requires
            old(self).wf(),
        ensures
            final(self).wf(),
            final(self)@ == spec_operate(Operation::CLC, old(self)@).0,
            r == spec_operate(Operation::CLC, old(self)@).1,
            old(self)@.cycles <= final(self)@.cycles <= old(self)@.cycles + 2,
    {
        proof {
            reveal(spec_operate);
        }
        self.status.c = false;
        0
    }

    /// Clear the Decimal flag.
    fn CLD(&mut self) -> (r: u8)
        requires
            old(self).wf(),
        ensures
            final(self).wf(),
            final(self)@ == spec_operate(Operation::CLD, old(self)@).0,
            r == spec_operate(Operation::CLD, old(self)@).1,
            old(self)@.cycles <= final(self)@.cycles <= old(self)@.cycles + 2,
    {
        proof {
            reveal(spec_operate);
        }
        self.status.d = false;
        0
    }

    /// Clear the Interrupt-disable flag.
    fn CLI(&mut self) -> (r: u8)
        requires
            old(self).wf(),
        ensures
            final(self).wf(),
            final(self)@ == spec_operate(Operation::CLI, old(self)@).0,
            r == spec_operate(Operation::CLI, old(self)@).1,
            old(self)@.cycles <= final(self)@.cycles <= old(self)@.cycles + 2,
    {
        proof {
            reveal(spec_operate);
        }
        self.status.i = false;
        0
    }

    /// Clear the Overflow flag.
    fn CLV(&mut self) -> (r: u8)
        requires
            old(self).wf(),
        ensures
            final(self).wf(),
            final(self)@ == spec_operate(Operation::CLV, old(self)@).0,
            r == spec_operate(Operation::CLV, old(self)@).1,
            old(self)@.cycles <= final(self)@.cycles <= old(self)@.cycles + 2,
    {
        proof {
            reveal(spec_operate);
        }
        self.status.v = false;
        0
    }

    /// Set the Carry flag.
    fn SEC(&mut self) -> (r: u8)
        requires
            old(self).wf(),
        ensures
            final(self).wf(),
            final(self)@ == spec_operate(Operation::SEC, old(self)@).0,
            r == spec_operate(Operation::SEC, old(self)@).1,
            old(self)@.cycles <= final(self)@.cycles <= old(self)@.cycles + 2,
    {
        proof {
            reveal(spec_operate);
        }
        self.status.c = true;
        0
    }

    /// Set the Decimal flag.
    fn SED(&mut self) -> (r: u8)
        requires
            old(self).wf(),
        ensures
            final(self).wf(),
            final(self)@ == spec_operate(Operation::SED, old(self)@).0,
            r == spec_operate(Operation::SED, old(self)@).1,
            old(self)@.cycles <= final(self)@.cycles <= old(self)@.cycles + 2,
    {
        proof {
            reveal(spec_operate);
        }
        self.status.d = true;
        0
    }

    /// Set the Interrupt-disable flag.
    fn SEI(&mut self) -> (r: u8)
        requires
            old(self).wf(),
        ensures
            final(self).wf(),
            final(self)@ == spec_operate(Operation::SEI, old(self)@).0,
            r == spec_operate(Operation::SEI, old(self)@).1,
            old(self)@.cycles <= final(self)@.cycles <= old(self)@.cycles + 2,
    {
        proof {
            reveal(spec_operate);
        }
        self.status.i = true;
        0
    }

    // -----------------------------------------------------------------------
    // Jumps, subroutines and interrupts
    // -----------------------------------------------------------------------

    /// Jump to the effective address.
    fn JMP(&mut self) -> (r: u8)
        requires
            old(self).wf(),
        ensures
            final(self).wf(),
            final(self)@ == crate::state::spec_jmp(old(self)@).0,
            r == crate::state::spec_jmp(old(self)@).1,
            old(self)@.cycles <= final(self)@.cycles <= old(self)@.cycles + 2,
    {
        self.pc = self.addr_abs;
        0
    }

    /// Subroutine call: push the decremented program counter, high byte
    /// first, then jump to the effective address.
    fn JSR(&mut self) -> (r: u8)
        requires
            old(self).wf(),
        ensures
            final(self).wf(),
            final(self)@ == crate::state::spec_jsr(old(self)@).0,
            r == crate::state::spec_jsr(old(self)@).1,
            old(self)@.cycles <= final(self)@.cycles <= old(self)@.cycles + 2,
    {
        let ret = dec_u16(self.pc);
        self.pc = ret;
        self.push((ret / 256) as u8);
        self.push((ret % 256) as u8);
        self.pc = self.addr_abs;
        0
    }

    /// Return from subroutine: pull the program counter, low byte first,
    /// and step past the call instruction.
    fn RTS(&mut self) -> (r: u8)
        requires
            old(self).wf(),
        ensures
            final(self).wf(),
            final(self)@ == crate::state::spec_rts(old(self)@).0,
            r == crate::state::spec_rts(old(self)@).1,
            old(self)@.cycles <= final(self)@.cycles <= old(self)@.cycles + 2,
    {
        let lo = self.pull() as u16;
        let hi = self.pull() as u16;
        self.pc = inc_u16(hi * 256 + lo);
        0
    }

    /// Software interrupt: push the incremented program counter and the
    /// status byte (Break and Unused forced to 1), set
    /// Interrupt-disable, and jump through the vector at 0xFFFE/0xFFFF.
    fn BRK(&mut self) -> (r: u8)
        requires
            old(self).wf(),
        ensures
            final(self).wf(),
            final(self)@ == crate::state::spec_brk(old(self)@).0,
            r == crate::state::spec_brk(old(self)@).1,
            old(self)@.cycles <= final(self)@.cycles <= old(self)@.cycles + 2,
    {
        self.pc = inc_u16(self.pc);
        self.status.i = true;

        self.push((self.pc / 256) as u8);
        self.push((self.pc % 256) as u8);

        let byte = (StatusFlags { b: true, u: true, ..self.status }).to_byte();
        self.push(byte);
        self.status.b = false;

        let lo = self.read_this(0xFFFE) as u16;
        let hi = self.read_this(0xFFFF) as u16;
        self.pc = hi * 256 + lo;
        0
    }

    /// Return from interrupt: pull the status byte (Break and Unused
    /// cleared), then pull the program counter, low byte first.
    fn RTI(&mut self) -> (r: u8)
        requires
            old(self).wf(),
        ensures
            final(self).wf(),
            final(self)@ == crate::state::spec_rti(old(self)@).0,
            r == crate::state::spec_rti(old(self)@).1,
            old(self)@.cycles <= final(self)@.cycles <= old(self)@.cycles + 2,
    {
        let byte = self.pull();
        self.status = StatusFlags::from_byte(byte);
        self.status.b = false;
        self.status.u = false;

        let lo = self.pull() as u16;
        let hi = self.pull() as u16;
        self.pc = hi * 256 + lo;
        0
    }

    // -----------------------------------------------------------------------
    // Stack operations
    // -----------------------------------------------------------------------

    /// Push the accumulator.
    fn PHA(&mut self) -> (r: u8)
        requires
            old(self).wf(),
        ensures
            final(self).wf(),
            final(self)@ == crate::state::spec_pha(old(self)@).0,
            r == crate::state::spec_pha(old(self)@).1,
            old(self)@.cycles <= final(self)@.cycles <= old(self)@.cycles + 2,
    {
        let v = self.accum;
        self.push(v);
        0
    }

    /// Push the status byte with Break and Unused forced to 1, then
    /// leave both flags clear.
    fn PHP(&mut self) -> (r: u8)
        requires
            old(self).wf(),
        ensures
            final(self).wf(),
            final(self)@ == crate::state::spec_php(old(self)@).0,
            r == crate::state::spec_php(old(self)@).1,
            old(self)@.cycles <= final(self)@.cycles <= old(self)@.cycles + 2,
    {
        let byte = (StatusFlags { b: true, u: true, ..self.status }).to_byte();
        self.push(byte);
        self.status.b = false;
        self.status.u = false;
        0
    }

    /// Pull the accumulator and set Zero/Negative from it.
    fn PLA(&mut self) -> (r: u8)
        requires
            old(self).wf(),
        ensures
            final(self).wf(),
            final(self)@ == crate::state::spec_pla(old(self)@).0,
            r == crate::state::spec_pla(old(self)@).1,
            old(self)@.cycles <= final(self)@.cycles <= old(self)@.cycles + 2,
    {
        let v = self.pull();
        self.accum = v;
        self.set_zn(v);
        0
    }

    /// Pull the status byte; Unused is forced back to 1.
    fn PLP(&mut self) -> (r: u8)
        requires
            old(self).wf(),
        ensures
            final(self).wf(),
            final(self)@ == crate::state::spec_plp(old(self)@).0,
            r == crate::state::spec_plp(old(self)@).1,
            old(self)@.cycles <= final(self)@.cycles <= old(self)@.cycles + 2,
    {
        let byte = self.pull();
        self.status = StatusFlags::from_byte(byte);
        self.status.u = true;
        0
    }

    // -----------------------------------------------------------------------
    // No-ops and unassigned opcodes
    // -----------------------------------------------------------------------

    /// A no-op; a handful of unofficial NOP opcodes honour the
    /// page-crossing extra cycle.
    fn NOP(&mut self) -> (r: u8)
        requires
            old(self).wf(),
        ensures
            final(self).wf(),
            final(self)@ == crate::state::spec_nop(old(self)@).0,
            r == crate::state::spec_nop(old(self)@).1,
            old(self)@.cycles <= final(self)@.cycles <= old(self)@.cycles + 2,
    {
        match self.opcode {
            0x1C | 0x3C | 0x5C | 0x7C | 0xDC | 0xFC => 1,
            _ => 0,
        }
    }

    /// Unassigned opcode: a diagnostic no-op that only bumps the counter
    /// of illegal executions and consumes the table's base cycle count.
    fn XXX(&mut self) -> (r: u8)
        requires
            old(self).wf(),
        ensures
            final(self).wf(),
            final(self)@ == spec_xxx(old(self)@).0,
            r == spec_xxx(old(self)@).1,
            old(self)@.cycles <= final(self)@.cycles <= old(self)@.cycles + 2,
    {
        self.illegal_count = inc_u32(self.illegal_count);
        0
    }

    // -----------------------------------------------------------------------
    // The clock driver
    // -----------------------------------------------------------------------

    /// Invoke the addressing-mode resolver the decode table names.
    fn resolve_addr_mode(&mut self, m: AddrMode) -> (r: u8)
        requires
            old(self).wf(),
        ensures
            final(self).wf(),
            final(self)@ == crate::state::spec_addr_mode(m, old(self)@).0,
            r == crate::state::spec_addr_mode(m, old(self)@).1,
            final(self)@.cycles == old(self)@.cycles,
            final(self)@.clock_count == old(self)@.clock_count,
    {
        proof {
            reveal(crate::state::spec_addr_mode);
        }
        match m {
            AddrMode::IMP => self.IMP(),
            AddrMode::IMM => self.IMM(),
            AddrMode::ZP0 => self.ZP0(),
            AddrMode::ZPX => self.ZPX(),
            AddrMode::ZPY => self.ZPY(),
            AddrMode::REL => self.REL(),
            AddrMode::ABS => self.ABS(),
            AddrMode::ABX => self.ABX(),
            AddrMode::ABY => self.ABY(),
            AddrMode::IND => self.IND(),
            AddrMode::IZX => self.IZX(),
            AddrMode::IZY => self.IZY(),
        }
    }

    /// Run the operation the decode table names, on the state the
    /// addressing mode produced.
    fn run_operation(&mut self, o: Operation) -> (r: u8)
        requires
            old(self).wf(),
            old(self)@.cycles <= 253,
        ensures
            final(self).wf(),
            final(self)@ == spec_operate(o, old(self)@).0,
            r == spec_operate(o, old(self)@).1,
            old(self)@.cycles <= final(self)@.cycles <= old(self)@.cycles + 2,
            final(self)@.clock_count == old(self)@.clock_count,
    {
        proof {
            reveal(spec_operate);
        }
        match o {
                Operation::ADC => self.ADC(),
                Operation::SBC => self.SBC(),
                Operation::AND => self.AND(),
                Operation::ORA => self.ORA(),
                Operation::EOR => self.EOR(),
                Operation::ASL => self.ASL(),
                Operation::LSR => self.LSR(),
                Operation::ROL => self.ROL(),
                Operation::ROR => self.ROR(),
                Operation::BIT => self.BIT(),
                Operation::BCC => self.BCC(),
                Operation::BCS => self.BCS(),
                Operation::BEQ => self.BEQ(),
                Operation::BNE => self.BNE(),
                Operation::BMI => self.BMI(),
                Operation::BPL => self.BPL(),
                Operation::BVS => self.BVS(),
                Operation::BVC => self.BVC(),
                Operation::BRK => self.BRK(),
                Operation::CLC => self.CLC(),
                Operation::CLD => self.CLD(),
                Operation::CLI => self.CLI(),
                Operation::CLV => self.CLV(),
                Operation::SEC => self.SEC(),
                Operation::SED => self.SED(),
                Operation::SEI => self.SEI(),
                Operation::CMP => self.CMP(),
                Operation::CPX => self.CPX(),
                Operation::CPY => self.CPY(),
                Operation::DEC => self.DEC(),
                Operation::INC => self.INC(),
                Operation::DEX => self.DEX(),
                Operation::DEY => self.DEY(),
                Operation::INX => self.INX(),
                Operation::INY => self.INY(),
                Operation::JMP => self.JMP(),
                Operation::JSR => self.JSR(),
                Operation::LDA => self.LDA(),
                Operation::LDX => self.LDX(),
                Operation::LDY => self.LDY(),
                Operation::NOP => self.NOP(),
                Operation::PHA => self.PHA(),
                Operation::PHP => self.PHP(),
                Operation::PLA => self.PLA(),
                Operation::PLP => self.PLP(),
                Operation::RTI => self.RTI(),
                Operation::RTS => self.RTS(),
                Operation::STA => self.STA(),
                Operation::STX => self.STX(),
                Operation::STY => self.STY(),
                Operation::TAX => self.TAX(),
                Operation::TAY => self.TAY(),
                Operation::TSX => self.TSX(),
                Operation::TXA => self.TXA(),
                Operation::TXS => self.TXS(),
                Operation::TYA => self.TYA(),
            _ => self.XXX(),
        }
    }

    /// One full instruction dispatch: fetch the opcode, advance the
    /// program counter, force the Unused flag, look the opcode up,
    /// resolve the addressing mode and run the operation, and reload the
    /// cycle counter with the base count — plus one when *both*
    /// extra-cycle signals fire.
    #[verifier::rlimit(100)]
    fn dispatch(&mut self)
        requires
            old(self).wf(),
        ensures
            final(self).wf(),
            final(self)@ == spec_step(old(self)@),
            final(self)@.cycles >= 2,
            final(self)@.clock_count == old(self)@.clock_count,
    {
        let ghost s0 = self@;
        let op = self.read_this(self.pc);
        self.opcode = op;
        self.status.u = true;
        self.pc = inc_u16(self.pc);

        let instr = instruction_at(op);
        self.cycles = instr.cycles();
        proof {
            lemma_instruction_table_shape(op);
            assert(self@ =~= (CpuState {
                opcode: op,
                pc: wrap_inc16(s0.pc),
                status: StatusFlags { u: true, ..s0.status },
                cycles: spec_instruction(op).cycles,
                ..s0
            }));
        }
        let ghost s1 = self@;

        let e1 = self.resolve_addr_mode(instr.addr_mode());
        let ghost s2 = self@;
        proof {
            assert((s2, e1) == crate::state::spec_addr_mode(instr.addr_mode, s1));
        }

        let e2 = self.run_operation(instr.oper());
        let ghost s3 = self@;
        proof {
            assert((s3, e2) == spec_operate(instr.oper, s2));
        }

        if e1 == 1 && e2 == 1 {
            self.cycles = self.cycles + 1;
        }
        self.status.u = true;
        proof {
            assert(self@ =~= (CpuState {
                cycles: ((s3.cycles + if e1 == 1 && e2 == 1 {
                    1u8
                } else {
                    0u8
                }) as u8),
                status: StatusFlags { u: true, ..s3.status },
                ..s3
            }));
            assert(self@ =~= spec_step(s0));
        }
    }

    /// Advance the emulation by exactly one cycle: dispatch a new
    /// instruction when the core is idle, then consume one cycle and
    /// count the tick.
    pub fn clock(&mut self)
        requires
            old(self).wf(),
        ensures
            final(self).wf(),
            final(self)@ == spec_clock(old(self)@),
            old(self)@.cycles == 0 ==> spec_step(old(self)@).cycles >= 2,
    {
        if self.cycles == 0 {
            self.dispatch();
        }

        self.cycles = self.cycles - 1;
        self.clock_count = inc_u32(self.clock_count);
    }

    /// Run whole clock ticks until the core is idle again: from an
    /// instruction boundary this executes exactly one full instruction;
    /// mid-instruction it finishes the one in flight.
    pub fn step_instruction(&mut self)
        requires
            old(self).wf(),
        ensures
            final(self).wf(),
            final(self)@ == spec_run_instruction(old(self)@),
    {
        let ghost s0 = old(self)@;
        let ghost t = if s0.cycles == 0 {
            spec_step(s0)
        } else {
            s0
        };

        proof {
            crate::state::lemma_wrap_add32_step(s0.clock_count, 0);
        }
        self.clock();

        while self.cycles > 0
            invariant
                self.wf(),
                self@.cycles <= t.cycles,
                self@ == (CpuState {
                    cycles: self@.cycles,
                    clock_count: wrap_add32(s0.clock_count, t.cycles - self@.cycles),
                    ..t
                }),
            decreases self@.cycles,
        {
            proof {
                crate::state::lemma_wrap_add32_step(
                    s0.clock_count,
                    t.cycles - self@.cycles,
                );
            }
            self.clock();
        }
    }

    // -----------------------------------------------------------------------
    // Read-only introspection
    // -----------------------------------------------------------------------

    /// The accumulator.
    pub fn accum(&self) -> (r: u8)
        ensures
            r == self@.accum,
    {
        self.accum
    }

    /// Index register X.
    pub fn x_reg(&self) -> (r: u8)
        ensures
            r == self@.x,
    {
        self.x
    }

    /// Index register Y.
    pub fn y_reg(&self) -> (r: u8)
        ensures
            r == self@.y,
    {
        self.y
    }

    /// The stack pointer.
    pub fn stkp(&self) -> (r: u8)
        ensures
            r == self@.stkp,
    {
        self.stkp
    }

    /// The program counter.
    pub fn pc(&self) -> (r: u16)
        ensures
            r == self@.pc,
    {
        self.pc
    }

    /// The packed status byte.
    pub fn status_byte(&self) -> (r: u8)
        ensures
            r == spec_status_to_byte(self@.status),
    {
        self.status.to_byte()
    }

    /// The opcode byte of the current instruction.
    pub fn opcode(&self) -> (r: u8)
        ensures
            r == self@.opcode,
    {
        self.opcode
    }

    /// Cycles remaining before the next instruction dispatch.
    pub fn cycles(&self) -> (r: u8)
        ensures
            r == self@.cycles,
    {
        self.cycles
    }

    /// Total elapsed clock ticks.
    pub fn clock_count(&self) -> (r: u32)
        ensures
            r == self@.clock_count,
    {
        self.clock_count
    }

    /// How many unassigned opcodes have executed (diagnostic channel).
    pub fn illegal_count(&self) -> (r: u32)
        ensures
            r == self@.illegal_count,
    {
        self.illegal_count
    }
}

} // verus!
