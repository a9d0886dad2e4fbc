//! Cross-instruction laws of the processor model, proved once and for
//! all over the spec-level interpreter in `state`.

use vstd::prelude::*;

use crate::flags::StatusFlags;
use crate::flags::spec_status_from_byte;
use crate::flags::spec_status_to_byte;
use crate::state::CpuState;
use crate::state::hi_byte;
use crate::state::lo_byte;
use crate::state::mem_read;
use crate::state::page;
use crate::state::spec_branch;
use crate::state::spec_irq;
use crate::state::spec_jsr;
use crate::state::spec_nmi;
use crate::state::spec_pha;
use crate::state::spec_pla;
use crate::state::spec_rts;
use crate::state::stack_addr;
use crate::state::word;
use crate::state::wrap_add16;
use crate::state::wrap_dec8;

verus! {

/// A taken branch whose target lies in a different 256-byte page costs
/// exactly two cycles more than the same branch not taken: one for
/// taking it and one for crossing the page.
pub proof fn lemma_branch_page_cross_cost(s: CpuState)
    requires
        s.cycles <= 253,
        page(wrap_add16(s.pc, s.addr_rel)) != page(s.pc),
    ensures
        spec_branch(s, true).0.cycles == s.cycles + 2,
        spec_branch(s, false).0.cycles == s.cycles,
{
}

/// A taken branch that stays within the page costs exactly one cycle
/// more than the same branch not taken.
pub proof fn lemma_branch_same_page_cost(s: CpuState)
    requires
        s.cycles <= 253,
        page(wrap_add16(s.pc, s.addr_rel)) == page(s.pc),
    ensures
        spec_branch(s, true).0.cycles == s.cycles + 1,
        spec_branch(s, false).0.cycles == s.cycles,
{
}

/// Push-accumulator followed by pull-accumulator restores the original
/// accumulator value and leaves the stack pointer unchanged from its
/// pre-push value.
pub proof fn lemma_push_pull_accumulator(s: CpuState)
    requires
        s.wf(),
    ensures
        spec_pla(spec_pha(s).0).0.accum == s.accum,
        spec_pla(spec_pha(s).0).0.stkp == s.stkp,
{
}

/// A subroutine call followed by a return restores the program counter
/// to the address immediately following the call instruction (the value
/// it had once the call's operand bytes were consumed), and restores the
/// stack pointer.
pub proof fn lemma_call_return_round_trip(s: CpuState)
    requires
        s.wf(),
    ensures
        spec_rts(spec_jsr(s).0).0.pc == s.pc,
        spec_rts(spec_jsr(s).0).0.stkp == s.stkp,
{
    let ret = crate::state::wrap_dec16(s.pc);
    vstd::arithmetic::div_mod::lemma_fundamental_div_mod(ret as int, 256);
}

/// While the Interrupt-disable flag is set, a maskable interrupt request
/// has no observable effect at all, but a non-maskable interrupt still
/// runs the full entry sequence: the old program counter is pushed
/// (high byte first), Interrupt-disable stays set, 8 cycles are loaded,
/// and control continues at the address the vector at 0xFFFA/0xFFFB
/// holds afterwards.
pub proof fn lemma_interrupt_masking(s: CpuState)
    requires
        s.wf(),
        s.status.i,
    ensures
        spec_irq(s) == s,
        spec_nmi(s).cycles == 8,
        spec_nmi(s).status.i,
        mem_read(spec_nmi(s), stack_addr(s.stkp)) == hi_byte(s.pc),
        mem_read(spec_nmi(s), stack_addr(wrap_dec8(s.stkp))) == lo_byte(s.pc),
        spec_nmi(s).pc == word(mem_read(spec_nmi(s), 0xFFFB), mem_read(spec_nmi(s), 0xFFFA)),
{
}

/// The packed status byte is a lossless image of the flags: packing and
/// unpacking are mutually inverse, so a status register that travels
/// over the stack comes back bit for bit.
pub proof fn lemma_status_byte_round_trip(st: StatusFlags)
    ensures
        spec_status_from_byte(spec_status_to_byte(st)) == st,
{
}

} // verus!
