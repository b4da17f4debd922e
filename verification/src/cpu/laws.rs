//! Laws that relate several instructions or summarize the cycle accounting
//! across the addressing modes.

use vstd::prelude::*;
use crate::bus::Bus;
use crate::cpu::modes::{inst_rel, jsr_rel, pha_rel, pla_rel, rts_rel};
use crate::cpu::ops::op_apply;
use crate::cpu::{join16, page_crossed, stack_idx, AddrMode, CPU6502, Fault, Op};
use crate::mapper::Mapper;

verus! {

/// The documented base cycle cost of each addressing mode: what a
/// non-page-crossing access is charged.
pub open spec fn base_cycles(m: AddrMode) -> u64 {
    match m {
        AddrMode::Implied => 2,
        AddrMode::Accumulator => 2,
        AddrMode::Immediate => 2,
        AddrMode::Relative => 2,
        AddrMode::ZeroPage => 3,
        AddrMode::ZeroPageRmw => 5,
        AddrMode::ZeroPageWrite => 3,
        AddrMode::ZeroPageX => 4,
        AddrMode::ZeroPageXRmw => 6,
        AddrMode::ZeroPageXWrite => 4,
        AddrMode::ZeroPageY => 4,
        AddrMode::ZeroPageYWrite => 4,
        AddrMode::IndexedIndirect => 6,
        AddrMode::IndexedIndirectWrite => 6,
        AddrMode::IndirectIndexed => 5,
        AddrMode::IndirectIndexedWrite => 6,
        AddrMode::Absolute => 4,
        AddrMode::AbsoluteRmw => 6,
        AddrMode::AbsoluteWrite => 4,
        AddrMode::AbsoluteX => 4,
        AddrMode::AbsoluteXRmw => 7,
        AddrMode::AbsoluteXWrite => 5,
        AddrMode::AbsoluteY => 4,
        AddrMode::AbsoluteYWrite => 5,
    }
}

/// The modes whose charge can ever exceed the base cost: the plain indexed
/// read modes and the relative (branch) mode. Read-modify-write and
/// indexed-write modes are never among them.
pub open spec fn penalized(m: AddrMode) -> bool {
    m is AbsoluteX || m is AbsoluteY || m is IndirectIndexed || m is Relative
}

/// Whether an indexed read under mode `m`, started from engine state `c0`
/// against bus `b0`, crosses a 256-byte page boundary.
pub open spec fn indexed_read_crossed<C: Mapper, P: Mapper>(
    m: AddrMode,
    c0: CPU6502,
    b0: Bus<C, P>,
) -> bool {
    match m {
        AddrMode::AbsoluteX | AddrMode::AbsoluteY => {
            let idx = if m is AbsoluteX {
                c0.x
            } else {
                c0.y
            };
            match b0.read_spec(c0.pc) {
                Some(lo) => match b0.read_spec(c0.pc.wrapping_add(1)) {
                    Some(hi) => page_crossed(join16(hi, lo), idx),
                    None => false,
                },
                None => false,
            }
        },
        AddrMode::IndirectIndexed => match b0.read_spec(c0.pc) {
            Some(off) => {
                let lo = b0.memory@[off as int];
                let hi = b0.memory@[off.wrapping_add(1) as int];
                page_crossed(join16(hi, lo), c0.y)
            },
            None => false,
        },
        _ => false,
    }
}

/// Operations touch only registers, flags and the scratch: the program
/// counter and the cycle counter pass through every operation unchanged.
#[verifier::rlimit(100)]
pub proof fn lemma_op_apply_keeps()
    ensures
        forall|op: Op, c: CPU6502|
            (#[trigger] op_apply(op, c)).cycles == c.cycles && op_apply(op, c).pc == c.pc,
{
    assert forall|op: Op, c: CPU6502|
        (#[trigger] op_apply(op, c)).cycles == c.cycles && op_apply(op, c).pc == c.pc by {
        reveal(crate::cpu::ops::op_apply);
    }
}

/// Cycle accounting law. For every operation run through an addressing mode
/// that completed without a fault: a mode outside the penalized set charges
/// exactly its documented base cost — in particular read-modify-write and
/// indexed-write modes never vary their charge; a plain indexed read mode
/// charges its base cost, plus exactly one when and only when the access
/// crosses a page boundary; a branch charges its base cost plus at most the
/// taken and page-crossing penalties, whose exact accounting is
/// [`crate::cpu::modes::relative_rel`].
#[verifier::rlimit(100)]
pub proof fn lemma_cycle_cost<C: Mapper, P: Mapper>(
    m: AddrMode,
    op: Op,
    c0: CPU6502,
    b0: Bus<C, P>,
    c1: CPU6502,
    b1: Bus<C, P>,
    r: Result<(), Fault>,
)
    requires
        inst_rel(m, op, c0, b0, c1, b1, r),
        r == Ok::<(), Fault>(()),
    ensures
        !penalized(m) ==> c1.cycles == base_cycles(m),
        (m is AbsoluteX || m is AbsoluteY || m is IndirectIndexed) ==> c1.cycles == (
        if indexed_read_crossed(m, c0, b0) {
            (base_cycles(m) + 1) as u64
        } else {
            base_cycles(m)
        }),
        m is Relative ==> base_cycles(m) <= c1.cycles <= base_cycles(m) + 2,
{
    lemma_op_apply_keeps();
    reveal(crate::cpu::modes::implied_rel);
    reveal(crate::cpu::modes::accumulator_rel);
    reveal(crate::cpu::modes::immediate_rel);
    reveal(crate::cpu::modes::relative_rel);
    reveal(crate::cpu::modes::zero_page_rel);
    reveal(crate::cpu::modes::zero_page_indexed_rel);
    reveal(crate::cpu::modes::absolute_rel);
    reveal(crate::cpu::modes::absolute_indexed_rel);
    reveal(crate::cpu::modes::indexed_indirect_rel);
    reveal(crate::cpu::modes::indirect_indexed_rel);
    reveal(crate::cpu::modes::zero_page_rmw_rel);
    reveal(crate::cpu::modes::zero_page_x_rmw_rel);
    reveal(crate::cpu::modes::absolute_rmw_rel);
    reveal(crate::cpu::modes::absolute_x_rmw_rel);
    reveal(crate::cpu::modes::zero_page_write_rel);
    reveal(crate::cpu::modes::zero_page_x_write_rel);
    reveal(crate::cpu::modes::zero_page_y_write_rel);
    reveal(crate::cpu::modes::absolute_write_rel);
    reveal(crate::cpu::modes::absolute_x_write_rel);
    reveal(crate::cpu::modes::absolute_y_write_rel);
    reveal(crate::cpu::modes::indexed_indirect_write_rel);
    reveal(crate::cpu::modes::indirect_indexed_write_rel);
}

/// Push/pop inverse law over the stack discipline. A push writes at
/// `0x0100 + sp` and decrements the pointer; a pop increments the pointer and
/// reads `0x0100 + sp`. For every starting pointer — the 8-bit wraparound
/// boundaries included — the pop that follows a push reads back the pushed
/// byte and restores the pointer.
pub proof fn lemma_push_pop_inverse(ram: Seq<u8>, sp: u8, d: u8)
    requires
        ram.len() == 0x800,
    ensures
        ({
            let pushed_ram = ram.update(stack_idx(sp), d);
            let sp_after_push = sp.wrapping_sub(1);
            let sp_after_pop = sp_after_push.wrapping_add(1);
            &&& sp_after_pop == sp
            &&& pushed_ram[stack_idx(sp_after_pop)] == d
        }),
{
}

/// The page-crossing charge condition means exactly that the indexed access
/// leaves the base address's 256-byte page: the carry out of the low-byte sum
/// and a change of high byte in the wrapped 16-bit sum are the same thing.
pub proof fn lemma_page_cross_is_page_change(base: u16, idx: u8)
    ensures
        page_crossed(base, idx) <==> base.wrapping_add(idx as u16) / 256 != base / 256,
{
    let q = base / 256;
    let rem = base % 256;
    assert(base == q * 256 + rem);
    let target = base.wrapping_add(idx as u16);
    if rem + idx < 256 {
        assert(target == q * 256 + (rem + idx));
        assert(target / 256 == q) by (nonlinear_arith)
            requires
                target == q * 256 + (rem + idx),
                rem + idx < 256,
                q <= 255,
        ;
    } else {
        if base + idx <= 0xFFFF {
            assert(target == (q + 1) * 256 + (rem + idx - 256));
            assert(target / 256 == q + 1) by (nonlinear_arith)
                requires
                    target == (q + 1) * 256 + (rem + idx - 256),
                    0 <= rem + idx - 256 < 256,
                ;
        } else {
            assert(q == 255) by (nonlinear_arith)
                requires
                    base == q * 256 + rem,
                    base + idx > 0xFFFF,
                    rem < 256,
                    idx < 256,
                    q <= 255,
            ;
            assert(target == rem + idx - 256);
            assert(target / 256 == 0);
        }
    }
}

/// Stack round-trip law: a push of the accumulator followed by a pop into it
/// restores the accumulator and leaves the stack pointer unchanged, for
/// every starting stack pointer, wraparound at the 8-bit boundary included.
pub proof fn lemma_stack_round_trip<C: Mapper, P: Mapper>(
    c0: CPU6502,
    b0: Bus<C, P>,
    c1: CPU6502,
    b1: Bus<C, P>,
    c2: CPU6502,
    r1: Result<(), Fault>,
    r2: Result<(), Fault>,
)
    requires
        b0.wf(),
        pha_rel(c0, b0, c1, b1, r1),
        pla_rel(c1, b1, c2, r2),
    ensures
        c2.acc == c0.acc,
        c2.sp == c0.sp,
{
    reveal(crate::cpu::modes::pha_rel);
    reveal(crate::cpu::modes::pla_rel);
}

/// Subroutine round-trip law: a JSR followed immediately by the RTS it
/// reaches returns the program counter to the instruction directly after
/// the JSR's operand, and restores the stack pointer.
pub proof fn lemma_jsr_rts<C: Mapper, P: Mapper>(
    c0: CPU6502,
    b0: Bus<C, P>,
    c1: CPU6502,
    b1: Bus<C, P>,
    c2: CPU6502,
    r1: Result<(), Fault>,
    r2: Result<(), Fault>,
)
    requires
        b0.wf(),
        jsr_rel(c0, b0, c1, b1, r1),
        r1 == Ok::<(), Fault>(()),
        rts_rel(c1, b1, c2, r2),
    ensures
        c2.pc == c0.pc.wrapping_add(2),
        c2.sp == c0.sp,
{
    reveal(crate::cpu::modes::jsr_rel);
    reveal(crate::cpu::modes::rts_rel);
    let ret = c0.pc.wrapping_add(1);
    assert(join16((ret / 256) as u8, (ret % 256) as u8) == ret);
}

} // verus!
