//! Processor status flags.
//!
//! The status register is modelled as one named `bool` per flag
//! (`StatusFlags`), which keeps every flag update a plain field write.
//! The packed byte layout of the hardware register (bit 0 = Carry up to
//! bit 7 = Negative) only matters when the status register travels over
//! the data bus — pushes, pulls and introspection — and is captured by
//! `spec_status_to_byte` / `spec_status_from_byte`.

use vstd::prelude::*;

verus! {

/// The eight status flags of the processor, in bit order:
/// Carry, Zero, Interrupt-disable, Decimal, Break, Unused, Overflow, Negative.
#[derive(Clone, Copy, Debug, PartialEq, Eq, Structural)]
pub enum FLAGS_6502 {
    C,
    Z,
    I,
    D,
    B,
    U,
    V,
    N,
}

/// Status register state, one field per flag.
///
/// The hardware invariant that the Unused bit reads as 1 in every
/// post-instruction observable state is maintained by the execution
/// engine, not by this type.
#[derive(Clone, Copy, Debug, PartialEq, Eq, Structural)]
pub struct StatusFlags {
    pub c: bool,
    pub z: bool,
    pub i: bool,
    pub d: bool,
    pub b: bool,
    pub u: bool,
    pub v: bool,
    pub n: bool,
}

/// 1 for a set flag, 0 for a clear one.
pub open spec fn b01(b: bool) -> u8 {
    if b {
        1
    } else {
        0
    }
}

/// Which flag a `FLAGS_6502` tag selects.
pub open spec fn spec_flag(st: StatusFlags, f: FLAGS_6502) -> bool {
    match f {
        FLAGS_6502::C => st.c,
        FLAGS_6502::Z => st.z,
        FLAGS_6502::I => st.i,
        FLAGS_6502::D => st.d,
        FLAGS_6502::B => st.b,
        FLAGS_6502::U => st.u,
        FLAGS_6502::V => st.v,
        FLAGS_6502::N => st.n,
    }
}

/// The flags with the selected flag forced to `v`.
pub open spec fn spec_set_flag(st: StatusFlags, f: FLAGS_6502, v: bool) -> StatusFlags {
    match f {
        FLAGS_6502::C => StatusFlags { c: v, ..st },
        FLAGS_6502::Z => StatusFlags { z: v, ..st },
        FLAGS_6502::I => StatusFlags { i: v, ..st },
        FLAGS_6502::D => StatusFlags { d: v, ..st },
        FLAGS_6502::B => StatusFlags { b: v, ..st },
        FLAGS_6502::U => StatusFlags { u: v, ..st },
        FLAGS_6502::V => StatusFlags { v: v, ..st },
        FLAGS_6502::N => StatusFlags { n: v, ..st },
    }
}

/// The packed status byte: bit 0 holds Carry, bit 7 holds Negative.
pub open spec fn spec_status_to_byte(st: StatusFlags) -> u8 {
    (b01(st.c) + 2 * b01(st.z) + 4 * b01(st.i) + 8 * b01(st.d) + 16 * b01(st.b) + 32 * b01(st.u)
        + 64 * b01(st.v) + 128 * b01(st.n)) as u8
}

/// The flags encoded by a packed status byte.
pub open spec fn spec_status_from_byte(byte: u8) -> StatusFlags {
    StatusFlags {
        c: byte % 2 == 1,
        z: (byte / 2) % 2 == 1,
        i: (byte / 4) % 2 == 1,
        d: (byte / 8) % 2 == 1,
        b: (byte / 16) % 2 == 1,
        u: (byte / 32) % 2 == 1,
        v: (byte / 64) % 2 == 1,
        n: byte / 128 == 1,
    }
}

impl StatusFlags {
    /// All flags clear.
    pub open spec fn spec_all_clear() -> StatusFlags {
        StatusFlags {
            c: false,
            z: false,
            i: false,
            d: false,
            b: false,
            u: false,
            v: false,
            n: false,
        }
    }

    /// Pack the flags into the hardware byte layout.
    pub fn to_byte(&self) -> (r: u8)
        ensures
            r == spec_status_to_byte(*self),
    {
        let mut byte: u8 = 0;
        if self.c {
            byte = byte + 1;
        }
        if self.z {
            byte = byte + 2;
        }
        if self.i {
            byte = byte + 4;
        }
        if self.d {
            byte = byte + 8;
        }
        if self.b {
            byte = byte + 16;
        }
        if self.u {
            byte = byte + 32;
        }
        if self.v {
            byte = byte + 64;
        }
        if self.n {
            byte = byte + 128;
        }
        byte
    }

    /// Unpack a hardware status byte into flags.
    pub fn from_byte(byte: u8) -> (r: StatusFlags)
        ensures
            r == spec_status_from_byte(byte),
    {
        StatusFlags {
            c: byte % 2 == 1,
            z: (byte / 2) % 2 == 1,
            i: (byte / 4) % 2 == 1,
            d: (byte / 8) % 2 == 1,
            b: (byte / 16) % 2 == 1,
            u: (byte / 32) % 2 == 1,
            v: (byte / 64) % 2 == 1,
            n: byte / 128 == 1,
        }
    }
}

} // verus!
