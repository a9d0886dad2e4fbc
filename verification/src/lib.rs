//! Instruction-execution core of a 6502-family 8-bit microprocessor emulator.
//!
//! The crate reproduces the processor's fetch-decode-execute behaviour
//! cycle for cycle: register and flag semantics, the twelve classic
//! addressing modes, the total 256-entry opcode table, interrupt handling,
//! and stack discipline.  Every executable function is verified against a
//! mathematical model of the machine state (`state::CpuState`), and the
//! cross-instruction laws (stack round trips, branch cycle costs, interrupt
//! masking) are proved in `laws`.
#![allow(non_camel_case_types)]
#![allow(non_snake_case)]

pub mod bus;
pub mod cpu;
pub mod flags;
pub mod laws;
pub mod state;
pub mod table;
