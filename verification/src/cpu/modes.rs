//! The addressing-mode procedures and the control-flow instructions.
//!
//! Each addressing mode fetches its operand bytes with program-counter
//! relative reads, computes the effective address, charges its documented
//! base cycle cost, fills the operand scratch (read and read-modify-write
//! modes) or runs the operation first and stores the scratch it produced
//! (write modes), and writes the possibly-mutated scratch back to the same
//! address for read-modify-write modes. The one-cycle page-crossing penalty
//! is charged only by the plain indexed read modes and by a taken branch
//! whose target leaves the current page; read-modify-write and indexed-write
//! modes always charge their fixed worst-case cost.
//!
//! Each procedure's behaviour, fault cases included, is pinned down by a
//! relation (`*_rel`) between the engine and bus before and after the call.

use vstd::prelude::*;
use crate::bus::{write_rel, Bus};
use crate::cpu::ops::{op_apply, op_faults};
use crate::cpu::{
    join16, page_crossed, stack_idx, with_nz, AddrMode, CPU6502, Fault, FlowKind, Mnemonic, Op,
};
use crate::mapper::Mapper;
use crate::status::StatusRegister;

verus! {

/// How executing operation `op` through addressing mode `m` relates the
/// engine and bus before and after: the dispatch over the per-mode
/// relations. Modes that never write leave the bus untouched.
pub open spec fn inst_rel<C: Mapper, P: Mapper>(
    m: AddrMode,
    op: Op,
    c0: CPU6502,
    b0: Bus<C, P>,
    c1: CPU6502,
    b1: Bus<C, P>,
    r: Result<(), Fault>,
) -> bool {
    match m {
        AddrMode::Implied => implied_rel(op, c0, c1, r) && b1 == b0,
        AddrMode::Accumulator => accumulator_rel(op, c0, c1, r) && b1 == b0,
        AddrMode::Immediate => immediate_rel(op, c0, b0, c1, r) && b1 == b0,
        AddrMode::Relative => relative_rel(op, c0, b0, c1, r) && b1 == b0,
        AddrMode::ZeroPage => zero_page_rel(op, c0, b0, c1, r) && b1 == b0,
        AddrMode::ZeroPageX => zero_page_indexed_rel(op, c0.x, c0, b0, c1, r) && b1 == b0,
        AddrMode::ZeroPageY => zero_page_indexed_rel(op, c0.y, c0, b0, c1, r) && b1 == b0,
        AddrMode::IndexedIndirect => indexed_indirect_rel(op, c0, b0, c1, r) && b1 == b0,
        AddrMode::IndirectIndexed => indirect_indexed_rel(op, c0, b0, c1, r) && b1 == b0,
        AddrMode::Absolute => absolute_rel(op, c0, b0, c1, r) && b1 == b0,
        AddrMode::AbsoluteX => absolute_indexed_rel(op, c0.x, c0, b0, c1, r) && b1 == b0,
        AddrMode::AbsoluteY => absolute_indexed_rel(op, c0.y, c0, b0, c1, r) && b1 == b0,
        AddrMode::ZeroPageRmw => zero_page_rmw_rel(op, c0, b0, c1, b1, r),
        AddrMode::ZeroPageXRmw => zero_page_x_rmw_rel(op, c0, b0, c1, b1, r),
        AddrMode::AbsoluteRmw => absolute_rmw_rel(op, c0, b0, c1, b1, r),
        AddrMode::AbsoluteXRmw => absolute_x_rmw_rel(op, c0, b0, c1, b1, r),
        AddrMode::ZeroPageWrite => zero_page_write_rel(op, c0, b0, c1, b1, r),
        AddrMode::ZeroPageXWrite => zero_page_x_write_rel(op, c0, b0, c1, b1, r),
        AddrMode::ZeroPageYWrite => zero_page_y_write_rel(op, c0, b0, c1, b1, r),
        AddrMode::AbsoluteWrite => absolute_write_rel(op, c0, b0, c1, b1, r),
        AddrMode::AbsoluteXWrite => absolute_x_write_rel(op, c0, b0, c1, b1, r),
        AddrMode::AbsoluteYWrite => absolute_y_write_rel(op, c0, b0, c1, b1, r),
        AddrMode::IndexedIndirectWrite => indexed_indirect_write_rel(op, c0, b0, c1, b1, r),
        AddrMode::IndirectIndexedWrite => indirect_indexed_write_rel(op, c0, b0, c1, b1, r),
    }
}

/// How executing control-flow instruction `f` relates the engine and bus
/// before and after: the dispatch over the per-instruction relations.
pub open spec fn flow_rel<C: Mapper, P: Mapper>(
    f: FlowKind,
    c0: CPU6502,
    b0: Bus<C, P>,
    c1: CPU6502,
    b1: Bus<C, P>,
    r: Result<(), Fault>,
) -> bool {
    match f {
        FlowKind::Brk => brk_rel(c0, b0, c1, b1, r),
        FlowKind::Php => php_rel(c0, b0, c1, b1, r),
        FlowKind::Pha => pha_rel(c0, b0, c1, b1, r),
        FlowKind::Plp => plp_rel(c0, b0, c1, r) && b1 == b0,
        FlowKind::Pla => pla_rel(c0, b0, c1, r) && b1 == b0,
        FlowKind::Rti => rti_rel(c0, b0, c1, r) && b1 == b0,
        FlowKind::Rts => rts_rel(c0, b0, c1, r) && b1 == b0,
        FlowKind::Jsr => jsr_rel(c0, b0, c1, b1, r),
        FlowKind::JmpAbsolute => jmp_absolute_rel(c0, b0, c1, r) && b1 == b0,
        FlowKind::JmpIndirect => jmp_indirect_rel(c0, b0, c1, r) && b1 == b0,
    }
}

/// How running operation `op` from intermediate state `mid` relates the final
/// engine state and result: exactly the decimal-mode add and subtract fault
/// and leave the state as it was; everything else applies [`op_apply`].
pub open spec fn op_finish(op: Op, mid: CPU6502, c1: CPU6502, r: Result<(), Fault>) -> bool {
    if op_faults(op, mid) {
        r == Err::<(), Fault>(Fault::DecimalMode) && c1 == mid
    } else {
        r == Ok::<(), Fault>(()) && c1 == op_apply(op, mid)
    }
}

/// The branch destination: the program counter plus the sign-extended 8-bit
/// displacement, wrapping modulo 65536.
pub open spec fn branch_target(pc: u16, disp: u8) -> u16 {
    if disp >= 128 {
        pc.wrapping_add(disp as u16).wrapping_add(0xFF00)
    } else {
        pc.wrapping_add(disp as u16)
    }
}

/// Whether the branch destination lies in a different 256-byte page than the
/// program counter it starts from.
pub open spec fn branch_crossed(pc: u16, disp: u8) -> bool {
    branch_target(pc, disp) / 256 != pc / 256
}

/// Implied mode: two cycles, no operand.
pub open spec fn implied_rel(op: Op, c0: CPU6502, c1: CPU6502, r: Result<(), Fault>) -> bool {
    op_finish(op, CPU6502 { cycles: 2, ..c0 }, c1, r)
}

/// Accumulator mode: two cycles; the accumulator passes through the scratch
/// and takes the operation's result back.
pub open spec fn accumulator_rel(op: Op, c0: CPU6502, c1: CPU6502, r: Result<(), Fault>) -> bool {
    let mid = CPU6502 { buffer: c0.acc, cycles: 2, ..c0 };
    if op_faults(op, mid) {
        r == Err::<(), Fault>(Fault::DecimalMode) && c1 == mid
    } else {
        r == Ok::<(), Fault>(()) && c1 == (CPU6502 { acc: op_apply(op, mid).buffer, ..op_apply(op, mid) })
    }
}

/// Immediate mode: two cycles; the operand byte follows the opcode.
#[verifier::opaque]
pub open spec fn immediate_rel<C: Mapper, P: Mapper>(
    op: Op,
    c0: CPU6502,
    bus: Bus<C, P>,
    c1: CPU6502,
    r: Result<(), Fault>,
) -> bool {
    match bus.read_spec(c0.pc) {
        Some(b) => op_finish(
            op,
            CPU6502 { pc: c0.pc.wrapping_add(1), buffer: b, cycles: 2, ..c0 },
            c1,
            r,
        ),
        None => r == Err::<(), Fault>(Fault::Unmapped(c0.pc)) && c1 == (CPU6502 {
            cycles: 2,
            ..c0
        }),
    }
}

/// Relative mode (branches): two cycles, plus one when the branch is taken
/// and one more when the taken branch's target leaves the current page.
#[verifier::opaque]
pub open spec fn relative_rel<C: Mapper, P: Mapper>(
    op: Op,
    c0: CPU6502,
    bus: Bus<C, P>,
    c1: CPU6502,
    r: Result<(), Fault>,
) -> bool {
    match bus.read_spec(c0.pc) {
        Some(disp) => {
            let mid = CPU6502 { pc: c0.pc.wrapping_add(1), buffer: disp, cycles: 2, ..c0 };
            if op_faults(op, mid) {
                r == Err::<(), Fault>(Fault::DecimalMode) && c1 == mid
            } else {
                let c_op = op_apply(op, mid);
                if c_op.take_branch {
                    r == Ok::<(), Fault>(()) && c1 == (CPU6502 {
                        pc: branch_target(c_op.pc, disp),
                        cycles: if branch_crossed(c_op.pc, disp) {
                            4
                        } else {
                            3
                        },
                        take_branch: false,
                        ..c_op
                    })
                } else {
                    r == Ok::<(), Fault>(()) && c1 == c_op
                }
            }
        },
        None => r == Err::<(), Fault>(Fault::Unmapped(c0.pc)) && c1 == (CPU6502 {
            cycles: 2,
            ..c0
        }),
    }
}

/// Zero-page mode: three cycles; a one-byte address into the first page.
#[verifier::opaque]
pub open spec fn zero_page_rel<C: Mapper, P: Mapper>(
    op: Op,
    c0: CPU6502,
    bus: Bus<C, P>,
    c1: CPU6502,
    r: Result<(), Fault>,
) -> bool {
    match bus.read_spec(c0.pc) {
        Some(off) => {
            let val = bus.memory@[off as int];
            op_finish(
                op,
                CPU6502 { pc: c0.pc.wrapping_add(1), buffer: val, cycles: 3, ..c0 },
                c1,
                r,
            )
        },
        None => r == Err::<(), Fault>(Fault::Unmapped(c0.pc)) && c1 == (CPU6502 {
            cycles: 3,
            ..c0
        }),
    }
}

/// Zero-page indexed mode: four cycles; the index wraps inside the page.
#[verifier::opaque]
pub open spec fn zero_page_indexed_rel<C: Mapper, P: Mapper>(
    op: Op,
    idx: u8,
    c0: CPU6502,
    bus: Bus<C, P>,
    c1: CPU6502,
    r: Result<(), Fault>,
) -> bool {
    match bus.read_spec(c0.pc) {
        Some(off) => {
            let val = bus.memory@[off.wrapping_add(idx) as int];
            op_finish(
                op,
                CPU6502 { pc: c0.pc.wrapping_add(1), buffer: val, cycles: 4, ..c0 },
                c1,
                r,
            )
        },
        None => r == Err::<(), Fault>(Fault::Unmapped(c0.pc)) && c1 == (CPU6502 {
            cycles: 4,
            ..c0
        }),
    }
}

/// Absolute mode: four cycles; a two-byte address, low byte first.
#[verifier::opaque]
pub open spec fn absolute_rel<C: Mapper, P: Mapper>(
    op: Op,
    c0: CPU6502,
    bus: Bus<C, P>,
    c1: CPU6502,
    r: Result<(), Fault>,
) -> bool {
    match bus.read_spec(c0.pc) {
        Some(lo) => match bus.read_spec(c0.pc.wrapping_add(1)) {
            Some(hi) => {
                let adr = join16(hi, lo);
                match bus.read_spec(adr) {
                    Some(val) => op_finish(
                        op,
                        CPU6502 { pc: c0.pc.wrapping_add(2), buffer: val, cycles: 4, ..c0 },
                        c1,
                        r,
                    ),
                    None => r == Err::<(), Fault>(Fault::Unmapped(adr)) && c1 == (CPU6502 {
                        pc: c0.pc.wrapping_add(2),
                        cycles: 4,
                        ..c0
                    }),
                }
            },
            None => r == Err::<(), Fault>(Fault::Unmapped(c0.pc.wrapping_add(1))) && c1
                == (CPU6502 { pc: c0.pc.wrapping_add(1), cycles: 4, ..c0 }),
        },
        None => r == Err::<(), Fault>(Fault::Unmapped(c0.pc)) && c1 == (CPU6502 {
            cycles: 4,
            ..c0
        }),
    }
}

/// Absolute indexed read mode: four cycles plus one when indexing leaves the
/// base address's page.
#[verifier::opaque]
pub open spec fn absolute_indexed_rel<C: Mapper, P: Mapper>(
    op: Op,
    idx: u8,
    c0: CPU6502,
    bus: Bus<C, P>,
    c1: CPU6502,
    r: Result<(), Fault>,
) -> bool {
    match bus.read_spec(c0.pc) {
        Some(lo) => match bus.read_spec(c0.pc.wrapping_add(1)) {
            Some(hi) => {
                let base = join16(hi, lo);
                let adr = base.wrapping_add(idx as u16);
                let cyc: u64 = if page_crossed(base, idx) {
                    5
                } else {
                    4
                };
                match bus.read_spec(adr) {
                    Some(val) => op_finish(
                        op,
                        CPU6502 { pc: c0.pc.wrapping_add(2), buffer: val, cycles: cyc, ..c0 },
                        c1,
                        r,
                    ),
                    None => r == Err::<(), Fault>(Fault::Unmapped(adr)) && c1 == (CPU6502 {
                        pc: c0.pc.wrapping_add(2),
                        cycles: cyc,
                        ..c0
                    }),
                }
            },
            None => r == Err::<(), Fault>(Fault::Unmapped(c0.pc.wrapping_add(1))) && c1
                == (CPU6502 { pc: c0.pc.wrapping_add(1), cycles: 4, ..c0 }),
        },
        None => r == Err::<(), Fault>(Fault::Unmapped(c0.pc)) && c1 == (CPU6502 {
            cycles: 4,
            ..c0
        }),
    }
}

/// Zero-page indexed-indirect mode (`(zp,X)`): six cycles; the one-byte
/// operand plus X selects a two-byte pointer inside the zero page.
#[verifier::opaque]
pub open spec fn indexed_indirect_rel<C: Mapper, P: Mapper>(
    op: Op,
    c0: CPU6502,
    bus: Bus<C, P>,
    c1: CPU6502,
    r: Result<(), Fault>,
) -> bool {
    match bus.read_spec(c0.pc) {
        Some(off) => {
            let p = off.wrapping_add(c0.x);
            let lo = bus.memory@[p as int];
            let hi = bus.memory@[p.wrapping_add(1) as int];
            let adr = join16(hi, lo);
            match bus.read_spec(adr) {
                Some(val) => op_finish(
                    op,
                    CPU6502 { pc: c0.pc.wrapping_add(1), buffer: val, cycles: 6, ..c0 },
                    c1,
                    r,
                ),
                None => r == Err::<(), Fault>(Fault::Unmapped(adr)) && c1 == (CPU6502 {
                    pc: c0.pc.wrapping_add(1),
                    cycles: 6,
                    ..c0
                }),
            }
        },
        None => r == Err::<(), Fault>(Fault::Unmapped(c0.pc)) && c1 == (CPU6502 {
            cycles: 6,
            ..c0
        }),
    }
}

/// Zero-page indirect-indexed mode (`(zp),Y`): five cycles plus one when
/// adding Y to the fetched pointer leaves its page.
#[verifier::opaque]
pub open spec fn indirect_indexed_rel<C: Mapper, P: Mapper>(
    op: Op,
    c0: CPU6502,
    bus: Bus<C, P>,
    c1: CPU6502,
    r: Result<(), Fault>,
) -> bool {
    match bus.read_spec(c0.pc) {
        Some(off) => {
            let lo = bus.memory@[off as int];
            let hi = bus.memory@[off.wrapping_add(1) as int];
            let base = join16(hi, lo);
            let adr = base.wrapping_add(c0.y as u16);
            let cyc: u64 = if page_crossed(base, c0.y) {
                6
            } else {
                5
            };
            match bus.read_spec(adr) {
                Some(val) => op_finish(
                    op,
                    CPU6502 { pc: c0.pc.wrapping_add(1), buffer: val, cycles: cyc, ..c0 },
                    c1,
                    r,
                ),
                None => r == Err::<(), Fault>(Fault::Unmapped(adr)) && c1 == (CPU6502 {
                    pc: c0.pc.wrapping_add(1),
                    cycles: cyc,
                    ..c0
                }),
            }
        },
        None => r == Err::<(), Fault>(Fault::Unmapped(c0.pc)) && c1 == (CPU6502 {
            cycles: 5,
            ..c0
        }),
    }
}

/// Zero-page read-modify-write mode: five cycles; the operand is read,
/// transformed, and written back to the same zero-page address.
#[verifier::opaque]
pub open spec fn zero_page_rmw_rel<C: Mapper, P: Mapper>(
    op: Op,
    c0: CPU6502,
    b0: Bus<C, P>,
    c1: CPU6502,
    b1: Bus<C, P>,
    r: Result<(), Fault>,
) -> bool {
    match b0.read_spec(c0.pc) {
        Some(off) => {
            let val = b0.memory@[off as int];
            let mid = CPU6502 { pc: c0.pc.wrapping_add(1), buffer: val, cycles: 5, ..c0 };
            if op_faults(op, mid) {
                r == Err::<(), Fault>(Fault::DecimalMode) && c1 == mid && b1 == b0
            } else {
                r == Ok::<(), Fault>(()) && c1 == op_apply(op, mid) && write_rel(
                    b0,
                    b1,
                    off as u16,
                    op_apply(op, mid).buffer,
                )
            }
        },
        None => r == Err::<(), Fault>(Fault::Unmapped(c0.pc)) && c1 == (CPU6502 {
            cycles: 5,
            ..c0
        }) && b1 == b0,
    }
}

/// Zero-page X-indexed read-modify-write mode: six cycles, fixed; the index
/// wraps inside the page.
#[verifier::opaque]
pub open spec fn zero_page_x_rmw_rel<C: Mapper, P: Mapper>(
    op: Op,
    c0: CPU6502,
    b0: Bus<C, P>,
    c1: CPU6502,
    b1: Bus<C, P>,
    r: Result<(), Fault>,
) -> bool {
    match b0.read_spec(c0.pc) {
        Some(off) => {
            let eff = off.wrapping_add(c0.x);
            let val = b0.memory@[eff as int];
            let mid = CPU6502 { pc: c0.pc.wrapping_add(1), buffer: val, cycles: 6, ..c0 };
            if op_faults(op, mid) {
                r == Err::<(), Fault>(Fault::DecimalMode) && c1 == mid && b1 == b0
            } else {
                r == Ok::<(), Fault>(()) && c1 == op_apply(op, mid) && write_rel(
                    b0,
                    b1,
                    eff as u16,
                    op_apply(op, mid).buffer,
                )
            }
        },
        None => r == Err::<(), Fault>(Fault::Unmapped(c0.pc)) && c1 == (CPU6502 {
            cycles: 6,
            ..c0
        }) && b1 == b0,
    }
}

/// Absolute read-modify-write mode: six cycles, fixed.
#[verifier::opaque]
pub open spec fn absolute_rmw_rel<C: Mapper, P: Mapper>(
    op: Op,
    c0: CPU6502,
    b0: Bus<C, P>,
    c1: CPU6502,
    b1: Bus<C, P>,
    r: Result<(), Fault>,
) -> bool {
    match b0.read_spec(c0.pc) {
        Some(lo) => match b0.read_spec(c0.pc.wrapping_add(1)) {
            Some(hi) => {
                let adr = join16(hi, lo);
                match b0.read_spec(adr) {
                    Some(val) => {
                        let mid = CPU6502 {
                            pc: c0.pc.wrapping_add(2),
                            buffer: val,
                            cycles: 6,
                            ..c0
                        };
                        if op_faults(op, mid) {
                            r == Err::<(), Fault>(Fault::DecimalMode) && c1 == mid && b1 == b0
                        } else {
                            r == Ok::<(), Fault>(()) && c1 == op_apply(op, mid) && write_rel(
                                b0,
                                b1,
                                adr,
                                op_apply(op, mid).buffer,
                            )
                        }
                    },
                    None => r == Err::<(), Fault>(Fault::Unmapped(adr)) && c1 == (CPU6502 {
                        pc: c0.pc.wrapping_add(2),
                        cycles: 6,
                        ..c0
                    }) && b1 == b0,
                }
            },
            None => r == Err::<(), Fault>(Fault::Unmapped(c0.pc.wrapping_add(1))) && c1
                == (CPU6502 { pc: c0.pc.wrapping_add(1), cycles: 6, ..c0 }) && b1 == b0,
        },
        None => r == Err::<(), Fault>(Fault::Unmapped(c0.pc)) && c1 == (CPU6502 {
            cycles: 6,
            ..c0
        }) && b1 == b0,
    }
}

/// Absolute X-indexed read-modify-write mode: seven cycles, fixed, never a
/// page-crossing penalty.
#[verifier::opaque]
pub open spec fn absolute_x_rmw_rel<C: Mapper, P: Mapper>(
    op: Op,
    c0: CPU6502,
    b0: Bus<C, P>,
    c1: CPU6502,
    b1: Bus<C, P>,
    r: Result<(), Fault>,
) -> bool {
    match b0.read_spec(c0.pc) {
        Some(lo) => match b0.read_spec(c0.pc.wrapping_add(1)) {
            Some(hi) => {
                let adr = join16(hi, lo).wrapping_add(c0.x as u16);
                match b0.read_spec(adr) {
                    Some(val) => {
                        let mid = CPU6502 {
                            pc: c0.pc.wrapping_add(2),
                            buffer: val,
                            cycles: 7,
                            ..c0
                        };
                        if op_faults(op, mid) {
                            r == Err::<(), Fault>(Fault::DecimalMode) && c1 == mid && b1 == b0
                        } else {
                            r == Ok::<(), Fault>(()) && c1 == op_apply(op, mid) && write_rel(
                                b0,
                                b1,
                                adr,
                                op_apply(op, mid).buffer,
                            )
                        }
                    },
                    None => r == Err::<(), Fault>(Fault::Unmapped(adr)) && c1 == (CPU6502 {
                        pc: c0.pc.wrapping_add(2),
                        cycles: 7,
                        ..c0
                    }) && b1 == b0,
                }
            },
            None => r == Err::<(), Fault>(Fault::Unmapped(c0.pc.wrapping_add(1))) && c1
                == (CPU6502 { pc: c0.pc.wrapping_add(1), cycles: 7, ..c0 }) && b1 == b0,
        },
        None => r == Err::<(), Fault>(Fault::Unmapped(c0.pc)) && c1 == (CPU6502 {
            cycles: 7,
            ..c0
        }) && b1 == b0,
    }
}

/// Zero-page write mode: three cycles; the operation fills the scratch and
/// the mode stores it at the one-byte address.
#[verifier::opaque]
pub open spec fn zero_page_write_rel<C: Mapper, P: Mapper>(
    op: Op,
    c0: CPU6502,
    b0: Bus<C, P>,
    c1: CPU6502,
    b1: Bus<C, P>,
    r: Result<(), Fault>,
) -> bool {
    let mid = CPU6502 { cycles: 3, ..c0 };
    if op_faults(op, mid) {
        r == Err::<(), Fault>(Fault::DecimalMode) && c1 == mid && b1 == b0
    } else {
        let c_op = op_apply(op, mid);
        match b0.read_spec(c_op.pc) {
            Some(off) => r == Ok::<(), Fault>(()) && c1 == (CPU6502 {
                pc: c_op.pc.wrapping_add(1),
                ..c_op
            }) && write_rel(b0, b1, off as u16, c_op.buffer),
            None => r == Err::<(), Fault>(Fault::Unmapped(c_op.pc)) && c1 == c_op && b1 == b0,
        }
    }
}

/// Zero-page X-indexed write mode: four cycles, fixed; the index wraps
/// inside the page.
#[verifier::opaque]
pub open spec fn zero_page_x_write_rel<C: Mapper, P: Mapper>(
    op: Op,
    c0: CPU6502,
    b0: Bus<C, P>,
    c1: CPU6502,
    b1: Bus<C, P>,
    r: Result<(), Fault>,
) -> bool {
    let mid = CPU6502 { cycles: 4, ..c0 };
    if op_faults(op, mid) {
        r == Err::<(), Fault>(Fault::DecimalMode) && c1 == mid && b1 == b0
    } else {
        let c_op = op_apply(op, mid);
        match b0.read_spec(c_op.pc) {
            Some(off) => r == Ok::<(), Fault>(()) && c1 == (CPU6502 {
                pc: c_op.pc.wrapping_add(1),
                ..c_op
            }) && write_rel(b0, b1, off.wrapping_add(c_op.x) as u16, c_op.buffer),
            None => r == Err::<(), Fault>(Fault::Unmapped(c_op.pc)) && c1 == c_op && b1 == b0,
        }
    }
}

/// Zero-page Y-indexed write mode: four cycles, fixed; the index wraps
/// inside the page.
#[verifier::opaque]
pub open spec fn zero_page_y_write_rel<C: Mapper, P: Mapper>(
    op: Op,
    c0: CPU6502,
    b0: Bus<C, P>,
    c1: CPU6502,
    b1: Bus<C, P>,
    r: Result<(), Fault>,
) -> bool {
    let mid = CPU6502 { cycles: 4, ..c0 };
    if op_faults(op, mid) {
        r == Err::<(), Fault>(Fault::DecimalMode) && c1 == mid && b1 == b0
    } else {
        let c_op = op_apply(op, mid);
        match b0.read_spec(c_op.pc) {
            Some(off) => r == Ok::<(), Fault>(()) && c1 == (CPU6502 {
                pc: c_op.pc.wrapping_add(1),
                ..c_op
            }) && write_rel(b0, b1, off.wrapping_add(c_op.y) as u16, c_op.buffer),
            None => r == Err::<(), Fault>(Fault::Unmapped(c_op.pc)) && c1 == c_op && b1 == b0,
        }
    }
}

/// Absolute write mode: four cycles.
#[verifier::opaque]
pub open spec fn absolute_write_rel<C: Mapper, P: Mapper>(
    op: Op,
    c0: CPU6502,
    b0: Bus<C, P>,
    c1: CPU6502,
    b1: Bus<C, P>,
    r: Result<(), Fault>,
) -> bool {
    let mid = CPU6502 { cycles: 4, ..c0 };
    if op_faults(op, mid) {
        r == Err::<(), Fault>(Fault::DecimalMode) && c1 == mid && b1 == b0
    } else {
        let c_op = op_apply(op, mid);
        match b0.read_spec(c_op.pc) {
            Some(lo) => match b0.read_spec(c_op.pc.wrapping_add(1)) {
                Some(hi) => r == Ok::<(), Fault>(()) && c1 == (CPU6502 {
                    pc: c_op.pc.wrapping_add(2),
                    ..c_op
                }) && write_rel(b0, b1, join16(hi, lo), c_op.buffer),
                None => r == Err::<(), Fault>(Fault::Unmapped(c_op.pc.wrapping_add(1))) && c1
                    == (CPU6502 { pc: c_op.pc.wrapping_add(1), ..c_op }) && b1 == b0,
            },
            None => r == Err::<(), Fault>(Fault::Unmapped(c_op.pc)) && c1 == c_op && b1 == b0,
        }
    }
}

/// Absolute X-indexed write mode: five cycles, fixed, never a page-crossing
/// penalty.
#[verifier::opaque]
pub open spec fn absolute_x_write_rel<C: Mapper, P: Mapper>(
    op: Op,
    c0: CPU6502,
    b0: Bus<C, P>,
    c1: CPU6502,
    b1: Bus<C, P>,
    r: Result<(), Fault>,
) -> bool {
    let mid = CPU6502 { cycles: 5, ..c0 };
    if op_faults(op, mid) {
        r == Err::<(), Fault>(Fault::DecimalMode) && c1 == mid && b1 == b0
    } else {
        let c_op = op_apply(op, mid);
        match b0.read_spec(c_op.pc) {
            Some(lo) => match b0.read_spec(c_op.pc.wrapping_add(1)) {
                Some(hi) => r == Ok::<(), Fault>(()) && c1 == (CPU6502 {
                    pc: c_op.pc.wrapping_add(2),
                    ..c_op
                }) && write_rel(
                    b0,
                    b1,
                    join16(hi, lo).wrapping_add(c_op.x as u16),
                    c_op.buffer,
                ),
                None => r == Err::<(), Fault>(Fault::Unmapped(c_op.pc.wrapping_add(1))) && c1
                    == (CPU6502 { pc: c_op.pc.wrapping_add(1), ..c_op }) && b1 == b0,
            },
            None => r == Err::<(), Fault>(Fault::Unmapped(c_op.pc)) && c1 == c_op && b1 == b0,
        }
    }
}

/// Absolute Y-indexed write mode: five cycles, fixed, never a page-crossing
/// penalty.
#[verifier::opaque]
pub open spec fn absolute_y_write_rel<C: Mapper, P: Mapper>(
    op: Op,
    c0: CPU6502,
    b0: Bus<C, P>,
    c1: CPU6502,
    b1: Bus<C, P>,
    r: Result<(), Fault>,
) -> bool {
    let mid = CPU6502 { cycles: 5, ..c0 };
    if op_faults(op, mid) {
        r == Err::<(), Fault>(Fault::DecimalMode) && c1 == mid && b1 == b0
    } else {
        let c_op = op_apply(op, mid);
        match b0.read_spec(c_op.pc) {
            Some(lo) => match b0.read_spec(c_op.pc.wrapping_add(1)) {
                Some(hi) => r == Ok::<(), Fault>(()) && c1 == (CPU6502 {
                    pc: c_op.pc.wrapping_add(2),
                    ..c_op
                }) && write_rel(
                    b0,
                    b1,
                    join16(hi, lo).wrapping_add(c_op.y as u16),
                    c_op.buffer,
                ),
                None => r == Err::<(), Fault>(Fault::Unmapped(c_op.pc.wrapping_add(1))) && c1
                    == (CPU6502 { pc: c_op.pc.wrapping_add(1), ..c_op }) && b1 == b0,
            },
            None => r == Err::<(), Fault>(Fault::Unmapped(c_op.pc)) && c1 == c_op && b1 == b0,
        }
    }
}

/// Zero-page indexed-indirect write mode (`(zp,X)`): six cycles; the pointer
/// is fetched from the zero page and the scratch is stored through it.
#[verifier::opaque]
pub open spec fn indexed_indirect_write_rel<C: Mapper, P: Mapper>(
    op: Op,
    c0: CPU6502,
    b0: Bus<C, P>,
    c1: CPU6502,
    b1: Bus<C, P>,
    r: Result<(), Fault>,
) -> bool {
    let mid = CPU6502 { cycles: 6, ..c0 };
    if op_faults(op, mid) {
        r == Err::<(), Fault>(Fault::DecimalMode) && c1 == mid && b1 == b0
    } else {
        let c_op = op_apply(op, mid);
        match b0.read_spec(c_op.pc) {
            Some(off) => {
                let p = off.wrapping_add(c_op.x);
                let lo = b0.memory@[p as int];
                let hi = b0.memory@[p.wrapping_add(1) as int];
                r == Ok::<(), Fault>(()) && c1 == (CPU6502 {
                    pc: c_op.pc.wrapping_add(1),
                    ..c_op
                }) && write_rel(b0, b1, join16(hi, lo), c_op.buffer)
            },
            None => r == Err::<(), Fault>(Fault::Unmapped(c_op.pc)) && c1 == c_op && b1 == b0,
        }
    }
}

/// Zero-page indirect-indexed write mode (`(zp),Y`): six cycles, fixed,
/// never a page-crossing penalty.
#[verifier::opaque]
pub open spec fn indirect_indexed_write_rel<C: Mapper, P: Mapper>(
    op: Op,
    c0: CPU6502,
    b0: Bus<C, P>,
    c1: CPU6502,
    b1: Bus<C, P>,
    r: Result<(), Fault>,
) -> bool {
    let mid = CPU6502 { cycles: 6, ..c0 };
    if op_faults(op, mid) {
        r == Err::<(), Fault>(Fault::DecimalMode) && c1 == mid && b1 == b0
    } else {
        let c_op = op_apply(op, mid);
        match b0.read_spec(c_op.pc) {
            Some(off) => {
                let lo = b0.memory@[off as int];
                let hi = b0.memory@[off.wrapping_add(1) as int];
                let adr = join16(hi, lo).wrapping_add(c_op.y as u16);
                r == Ok::<(), Fault>(()) && c1 == (CPU6502 {
                    pc: c_op.pc.wrapping_add(1),
                    ..c_op
                }) && write_rel(b0, b1, adr, c_op.buffer)
            },
            None => r == Err::<(), Fault>(Fault::Unmapped(c_op.pc)) && c1 == c_op && b1 == b0,
        }
    }
}

/// BRK: seven cycles. Skips the signature byte, pushes the incremented
/// program counter's high byte, then its low byte, then the status byte with
/// the break bit forced set, and sets the interrupt-disable flag. The
/// program counter is not otherwise altered: loading the interrupt vector is
/// left to the surrounding system.
#[verifier::opaque]
pub open spec fn brk_rel<C: Mapper, P: Mapper>(
    c0: CPU6502,
    b0: Bus<C, P>,
    c1: CPU6502,
    b1: Bus<C, P>,
    r: Result<(), Fault>,
) -> bool {
    let pc1 = c0.pc.wrapping_add(1);
    &&& r == Ok::<(), Fault>(())
    &&& c1 == (CPU6502 {
        pc: pc1,
        sp: c0.sp.wrapping_sub(3),
        cycles: 7,
        opcode: Mnemonic::Brk,
        status: StatusRegister { i: 1, ..c0.status },
        ..c0
    })
    &&& b1.memory@ == b0.memory@.update(stack_idx(c0.sp), (pc1 / 256) as u8).update(
        stack_idx(c0.sp.wrapping_sub(1)),
        (pc1 % 256) as u8,
    ).update(stack_idx(c0.sp.wrapping_sub(2)), c0.status.to_byte() | 16)
    &&& b1.cart == b0.cart
    &&& b1.ppu == b0.ppu
}

/// PHP: three cycles; pushes the packed status byte (break and unused
/// positions read as one).
#[verifier::opaque]
pub open spec fn php_rel<C: Mapper, P: Mapper>(
    c0: CPU6502,
    b0: Bus<C, P>,
    c1: CPU6502,
    b1: Bus<C, P>,
    r: Result<(), Fault>,
) -> bool {
    &&& r == Ok::<(), Fault>(())
    &&& c1 == (CPU6502 { sp: c0.sp.wrapping_sub(1), cycles: 3, opcode: Mnemonic::Php, ..c0 })
    &&& b1.memory@ == b0.memory@.update(stack_idx(c0.sp), c0.status.to_byte())
    &&& b1.cart == b0.cart
    &&& b1.ppu == b0.ppu
}

/// PHA: three cycles; pushes the accumulator.
#[verifier::opaque]
pub open spec fn pha_rel<C: Mapper, P: Mapper>(
    c0: CPU6502,
    b0: Bus<C, P>,
    c1: CPU6502,
    b1: Bus<C, P>,
    r: Result<(), Fault>,
) -> bool {
    &&& r == Ok::<(), Fault>(())
    &&& c1 == (CPU6502 { sp: c0.sp.wrapping_sub(1), cycles: 3, opcode: Mnemonic::Pha, ..c0 })
    &&& b1.memory@ == b0.memory@.update(stack_idx(c0.sp), c0.acc)
    &&& b1.cart == b0.cart
    &&& b1.ppu == b0.ppu
}

/// PLA: four cycles; pops into the accumulator and sets N and Z from it.
#[verifier::opaque]
pub open spec fn pla_rel<C: Mapper, P: Mapper>(
    c0: CPU6502,
    bus: Bus<C, P>,
    c1: CPU6502,
    r: Result<(), Fault>,
) -> bool {
    let v = bus.memory@[stack_idx(c0.sp.wrapping_add(1))];
    &&& r == Ok::<(), Fault>(())
    &&& c1 == with_nz(
        CPU6502 { sp: c0.sp.wrapping_add(1), acc: v, cycles: 4, opcode: Mnemonic::Pla, ..c0 },
        v,
    )
}

/// PLP: four cycles; pops the status byte, restoring N,V,D,I,Z,C only.
#[verifier::opaque]
pub open spec fn plp_rel<C: Mapper, P: Mapper>(
    c0: CPU6502,
    bus: Bus<C, P>,
    c1: CPU6502,
    r: Result<(), Fault>,
) -> bool {
    let v = bus.memory@[stack_idx(c0.sp.wrapping_add(1))];
    &&& r == Ok::<(), Fault>(())
    &&& c1 == (CPU6502 {
        sp: c0.sp.wrapping_add(1),
        cycles: 4,
        status: StatusRegister::from_byte(v),
        opcode: Mnemonic::Plp,
        ..c0
    })
}

/// RTI: six cycles; pops the status byte (restoring N,V,D,I,Z,C only), then
/// the program counter's low byte, then its high byte.
#[verifier::opaque]
pub open spec fn rti_rel<C: Mapper, P: Mapper>(
    c0: CPU6502,
    bus: Bus<C, P>,
    c1: CPU6502,
    r: Result<(), Fault>,
) -> bool {
    let v = bus.memory@[stack_idx(c0.sp.wrapping_add(1))];
    let lo = bus.memory@[stack_idx(c0.sp.wrapping_add(2))];
    let hi = bus.memory@[stack_idx(c0.sp.wrapping_add(3))];
    &&& r == Ok::<(), Fault>(())
    &&& c1 == (CPU6502 {
        sp: c0.sp.wrapping_add(3),
        pc: join16(hi, lo),
        cycles: 6,
        status: StatusRegister::from_byte(v),
        opcode: Mnemonic::Rti,
        ..c0
    })
}

/// RTS: six cycles; pops the program counter low byte then high byte and
/// increments the counter by one, undoing JSR's off-by-one push.
#[verifier::opaque]
pub open spec fn rts_rel<C: Mapper, P: Mapper>(
    c0: CPU6502,
    bus: Bus<C, P>,
    c1: CPU6502,
    r: Result<(), Fault>,
) -> bool {
    let lo = bus.memory@[stack_idx(c0.sp.wrapping_add(1))];
    let hi = bus.memory@[stack_idx(c0.sp.wrapping_add(2))];
    &&& r == Ok::<(), Fault>(())
    &&& c1 == (CPU6502 {
        sp: c0.sp.wrapping_add(2),
        pc: join16(hi, lo).wrapping_add(1),
        cycles: 6,
        opcode: Mnemonic::Rts,
        ..c0
    })
}

/// JSR: six cycles; fetches the target, pushes the address of the last byte
/// of the instruction (high byte first), and jumps.
#[verifier::opaque]
pub open spec fn jsr_rel<C: Mapper, P: Mapper>(
    c0: CPU6502,
    b0: Bus<C, P>,
    c1: CPU6502,
    b1: Bus<C, P>,
    r: Result<(), Fault>,
) -> bool {
    match b0.read_spec(c0.pc) {
        Some(lo) => match b0.read_spec(c0.pc.wrapping_add(1)) {
            Some(hi) => {
                let ret = c0.pc.wrapping_add(1);
                &&& r == Ok::<(), Fault>(())
                &&& c1 == (CPU6502 {
                    pc: join16(hi, lo),
                    sp: c0.sp.wrapping_sub(2),
                    cycles: 6,
                    opcode: Mnemonic::Jsr,
                    ..c0
                })
                &&& b1.memory@ == b0.memory@.update(stack_idx(c0.sp), (ret / 256) as u8).update(
                    stack_idx(c0.sp.wrapping_sub(1)),
                    (ret % 256) as u8,
                )
                &&& b1.cart == b0.cart
                &&& b1.ppu == b0.ppu
            },
            None => r == Err::<(), Fault>(Fault::Unmapped(c0.pc.wrapping_add(1))) && c1
                == (CPU6502 {
                pc: c0.pc.wrapping_add(1),
                cycles: 6,
                opcode: Mnemonic::Jsr,
                ..c0
            }) && b1 == b0,
        },
        None => r == Err::<(), Fault>(Fault::Unmapped(c0.pc)) && c1 == (CPU6502 {
            cycles: 6,
            opcode: Mnemonic::Jsr,
            ..c0
        }) && b1 == b0,
    }
}

/// JMP absolute: three cycles; loads the program counter with the two-byte
/// operand.
#[verifier::opaque]
pub open spec fn jmp_absolute_rel<C: Mapper, P: Mapper>(
    c0: CPU6502,
    bus: Bus<C, P>,
    c1: CPU6502,
    r: Result<(), Fault>,
) -> bool {
    match bus.read_spec(c0.pc) {
        Some(lo) => match bus.read_spec(c0.pc.wrapping_add(1)) {
            Some(hi) => r == Ok::<(), Fault>(()) && c1 == (CPU6502 {
                pc: join16(hi, lo),
                cycles: 3,
                opcode: Mnemonic::Jmp,
                ..c0
            }),
            None => r == Err::<(), Fault>(Fault::Unmapped(c0.pc.wrapping_add(1))) && c1
                == (CPU6502 {
                pc: c0.pc.wrapping_add(1),
                cycles: 3,
                opcode: Mnemonic::Jmp,
                ..c0
            }),
        },
        None => r == Err::<(), Fault>(Fault::Unmapped(c0.pc)) && c1 == (CPU6502 {
            cycles: 3,
            opcode: Mnemonic::Jmp,
            ..c0
        }),
    }
}

/// JMP indirect: five cycles; fetches a pointer, then loads the program
/// counter through it.
#[verifier::opaque]
pub open spec fn jmp_indirect_rel<C: Mapper, P: Mapper>(
    c0: CPU6502,
    bus: Bus<C, P>,
    c1: CPU6502,
    r: Result<(), Fault>,
) -> bool {
    match bus.read_spec(c0.pc) {
        Some(lo) => match bus.read_spec(c0.pc.wrapping_add(1)) {
            Some(hi) => {
                let ptr = join16(hi, lo);
                match bus.read_spec(ptr) {
                    Some(lo2) => match bus.read_spec(ptr.wrapping_add(1)) {
                        Some(hi2) => r == Ok::<(), Fault>(()) && c1 == (CPU6502 {
                            pc: join16(hi2, lo2),
                            cycles: 5,
                            opcode: Mnemonic::Jmp,
                            ..c0
                        }),
                        None => r == Err::<(), Fault>(Fault::Unmapped(ptr.wrapping_add(1))) && c1
                            == (CPU6502 {
                            pc: c0.pc.wrapping_add(2),
                            cycles: 5,
                            opcode: Mnemonic::Jmp,
                            ..c0
                        }),
                    },
                    None => r == Err::<(), Fault>(Fault::Unmapped(ptr)) && c1 == (CPU6502 {
                        pc: c0.pc.wrapping_add(2),
                        cycles: 5,
                        opcode: Mnemonic::Jmp,
                        ..c0
                    }),
                }
            },
            None => r == Err::<(), Fault>(Fault::Unmapped(c0.pc.wrapping_add(1))) && c1
                == (CPU6502 {
                pc: c0.pc.wrapping_add(1),
                cycles: 5,
                opcode: Mnemonic::Jmp,
                ..c0
            }),
        },
        None => r == Err::<(), Fault>(Fault::Unmapped(c0.pc)) && c1 == (CPU6502 {
            cycles: 5,
            opcode: Mnemonic::Jmp,
            ..c0
        }),
    }
}

/// Reads a byte that is known to live in the first 2KB, the RAM region,
/// which always answers.
fn ram_read<C: Mapper, P: Mapper>(bus: &Bus<C, P>, adr: u16) -> (r: u8)
    requires
        bus.wf(),
        adr < 0x800,
    ensures
        r == bus.memory@[adr as int],
{
    proof {
        assert(adr as int % 0x800 == adr as int);
    }
    match bus.read(adr) {
        Some(v) => v,
        None => 0,
    }
}

impl CPU6502 {
    /// Implied addressing: the operation works on registers alone.
    fn implied(&mut self, op: Op) -> (r: Result<(), Fault>)
        requires
            old(self).inv(),
        ensures
            final(self).inv(),
            implied_rel(op, *old(self), *final(self), r),
    {
        proof {
            reveal(crate::cpu::modes::implied_rel);
        }
        self.cycles = 2;
        self.apply_op(op)
    }

    /// Accumulator addressing: the scratch is the accumulator, read-modify-
    /// write.
    fn accumulator_rmw(&mut self, op: Op) -> (r: Result<(), Fault>)
        requires
            old(self).inv(),
        ensures
            final(self).inv(),
            accumulator_rel(op, *old(self), *final(self), r),
    {
        proof {
            reveal(crate::cpu::modes::accumulator_rel);
        }
        self.cycles = 2;
        self.buffer = self.acc;
        self.apply_op(op)?;
        self.acc = self.buffer;
        Ok(())
    }

    /// Immediate addressing: the operand byte follows the opcode.
    fn immediate<C: Mapper, P: Mapper>(&mut self, bus: &Bus<C, P>, op: Op) -> (r: Result<
        (),
        Fault,
    >)
        requires
            old(self).inv(),
            bus.wf(),
        ensures
            final(self).inv(),
            immediate_rel(op, *old(self), *bus, *final(self), r),
    {
        proof {
            reveal(crate::cpu::modes::immediate_rel);
        }
        self.cycles = 2;
        let b = self.pc_read(bus)?;
        self.buffer = b;
        self.apply_op(op)
    }

    /// Relative addressing, for branches: consumes the take-branch decision,
    /// sign-extends the displacement, and charges the taken and page-crossing
    /// penalties.
    fn relative<C: Mapper, P: Mapper>(&mut self, bus: &Bus<C, P>, op: Op) -> (r: Result<
        (),
        Fault,
    >)
        requires
            old(self).inv(),
            bus.wf(),
        ensures
            final(self).inv(),
            relative_rel(op, *old(self), *bus, *final(self), r),
    {
        proof {
            reveal(crate::cpu::modes::relative_rel);
        }
        self.cycles = 2;
        let disp = self.pc_read(bus)?;
        self.buffer = disp;
        self.apply_op(op)?;
        if self.take_branch {
            self.take_branch = false;
            let base = self.pc;
            let plain = base.wrapping_add(disp as u16);
            let target = if disp >= 128 {
                plain.wrapping_add(0xFF00)
            } else {
                plain
            };
            self.cycles = if target / 256 != base / 256 {
                4
            } else {
                3
            };
            self.pc = target;
        }
        Ok(())
    }

    /// Zero-page addressing.
    fn zero_page<C: Mapper, P: Mapper>(&mut self, bus: &Bus<C, P>, op: Op) -> (r: Result<
        (),
        Fault,
    >)
        requires
            old(self).inv(),
            bus.wf(),
        ensures
            final(self).inv(),
            zero_page_rel(op, *old(self), *bus, *final(self), r),
    {
        proof {
            reveal(crate::cpu::modes::zero_page_rel);
        }
        self.cycles = 3;
        let off = self.pc_read(bus)?;
        self.buffer = ram_read(bus, off as u16);
        self.apply_op(op)
    }

    /// Zero-page addressing indexed by X; the sum wraps inside the page.
    fn zero_page_indexed_x<C: Mapper, P: Mapper>(&mut self, bus: &Bus<C, P>, op: Op) -> (r: Result<
        (),
        Fault,
    >)
        requires
            old(self).inv(),
            bus.wf(),
        ensures
            final(self).inv(),
            zero_page_indexed_rel(op, old(self).x, *old(self), *bus, *final(self), r),
    {
        proof {
            reveal(crate::cpu::modes::zero_page_indexed_rel);
        }
        self.cycles = 4;
        let off = self.pc_read(bus)?;
        let eff = off.wrapping_add(self.x);
        self.buffer = ram_read(bus, eff as u16);
        self.apply_op(op)
    }

    /// Zero-page addressing indexed by Y; the sum wraps inside the page.
    fn zero_page_indexed_y<C: Mapper, P: Mapper>(&mut self, bus: &Bus<C, P>, op: Op) -> (r: Result<
        (),
        Fault,
    >)
        requires
            old(self).inv(),
            bus.wf(),
        ensures
            final(self).inv(),
            zero_page_indexed_rel(op, old(self).y, *old(self), *bus, *final(self), r),
    {
        proof {
            reveal(crate::cpu::modes::zero_page_indexed_rel);
        }
        self.cycles = 4;
        let off = self.pc_read(bus)?;
        let eff = off.wrapping_add(self.y);
        self.buffer = ram_read(bus, eff as u16);
        self.apply_op(op)
    }

    /// Absolute addressing.
    fn absolute_adr<C: Mapper, P: Mapper>(&mut self, bus: &Bus<C, P>, op: Op) -> (r: Result<
        (),
        Fault,
    >)
        requires
            old(self).inv(),
            bus.wf(),
        ensures
            final(self).inv(),
            absolute_rel(op, *old(self), *bus, *final(self), r),
    {
        proof {
            reveal(crate::cpu::modes::absolute_rel);
        }
        self.cycles = 4;
        let lo = self.pc_read(bus)?;
        let hi = self.pc_read(bus)?;
        let adr = crate::cpu::to16(hi, lo);
        match bus.read(adr) {
            Some(val) => {
                self.buffer = val;
                self.apply_op(op)
            },
            None => Err(Fault::Unmapped(adr)),
        }
    }

    /// Absolute addressing indexed by X, read class: charges the page-cross
    /// penalty.
    fn absolute_x<C: Mapper, P: Mapper>(&mut self, bus: &Bus<C, P>, op: Op) -> (r: Result<
        (),
        Fault,
    >)
        requires
            old(self).inv(),
            bus.wf(),
        ensures
            final(self).inv(),
            absolute_indexed_rel(op, old(self).x, *old(self), *bus, *final(self), r),
    {
        proof {
            reveal(crate::cpu::modes::absolute_indexed_rel);
        }
        self.cycles = 4;
        let lo = self.pc_read(bus)?;
        let hi = self.pc_read(bus)?;
        let base = crate::cpu::to16(hi, lo);
        let idx = self.x;
        let adr = self.handle_page_cross(base, idx);
        match bus.read(adr) {
            Some(val) => {
                self.buffer = val;
                self.apply_op(op)
            },
            None => Err(Fault::Unmapped(adr)),
        }
    }

    /// Absolute addressing indexed by Y, read class: charges the page-cross
    /// penalty.
    fn absolute_y<C: Mapper, P: Mapper>(&mut self, bus: &Bus<C, P>, op: Op) -> (r: Result<
        (),
        Fault,
    >)
        requires
            old(self).inv(),
            bus.wf(),
        ensures
            final(self).inv(),
            absolute_indexed_rel(op, old(self).y, *old(self), *bus, *final(self), r),
    {
        proof {
            reveal(crate::cpu::modes::absolute_indexed_rel);
        }
        self.cycles = 4;
        let lo = self.pc_read(bus)?;
        let hi = self.pc_read(bus)?;
        let base = crate::cpu::to16(hi, lo);
        let idx = self.y;
        let adr = self.handle_page_cross(base, idx);
        match bus.read(adr) {
            Some(val) => {
                self.buffer = val;
                self.apply_op(op)
            },
            None => Err(Fault::Unmapped(adr)),
        }
    }

    /// Zero-page indexed-indirect addressing (`(zp,X)`), read class.
    fn zero_page_indexed_x_indirect<C: Mapper, P: Mapper>(
        &mut self,
        bus: &Bus<C, P>,
        op: Op,
    ) -> (r: Result<(), Fault>)
        requires
            old(self).inv(),
            bus.wf(),
        ensures
            final(self).inv(),
            indexed_indirect_rel(op, *old(self), *bus, *final(self), r),
    {
        proof {
            reveal(crate::cpu::modes::indexed_indirect_rel);
        }
        self.cycles = 6;
        let off = self.pc_read(bus)?;
        let p = off.wrapping_add(self.x);
        let lo = ram_read(bus, p as u16);
        let hi = ram_read(bus, p.wrapping_add(1) as u16);
        let adr = crate::cpu::to16(hi, lo);
        match bus.read(adr) {
            Some(val) => {
                self.buffer = val;
                self.apply_op(op)
            },
            None => Err(Fault::Unmapped(adr)),
        }
    }

    /// Zero-page indirect-indexed addressing (`(zp),Y`), read class: charges
    /// the page-cross penalty.
    fn zero_page_indirect_indexed_y<C: Mapper, P: Mapper>(
        &mut self,
        bus: &Bus<C, P>,
        op: Op,
    ) -> (r: Result<(), Fault>)
        requires
            old(self).inv(),
            bus.wf(),
        ensures
            final(self).inv(),
            indirect_indexed_rel(op, *old(self), *bus, *final(self), r),
    {
        proof {
            reveal(crate::cpu::modes::indirect_indexed_rel);
        }
        self.cycles = 5;
        let off = self.pc_read(bus)?;
        let lo = ram_read(bus, off as u16);
        let hi = ram_read(bus, off.wrapping_add(1) as u16);
        let base = crate::cpu::to16(hi, lo);
        let idx = self.y;
        let adr = self.handle_page_cross(base, idx);
        match bus.read(adr) {
            Some(val) => {
                self.buffer = val;
                self.apply_op(op)
            },
            None => Err(Fault::Unmapped(adr)),
        }
    }

    /// Zero-page read-modify-write addressing.
    fn zero_page_rmw<C: Mapper, P: Mapper>(&mut self, bus: &mut Bus<C, P>, op: Op) -> (r: Result<
        (),
        Fault,
    >)
        requires
            old(self).inv(),
            old(bus).wf(),
        ensures
            final(self).inv(),
            final(bus).wf(),
            zero_page_rmw_rel(op, *old(self), *old(bus), *final(self), *final(bus), r),
    {
        proof {
            reveal(crate::cpu::modes::zero_page_rmw_rel);
        }
        self.cycles = 5;
        let off = self.pc_read(&*bus)?;
        let adr = off as u16;
        self.buffer = ram_read(&*bus, adr);
        self.apply_op(op)?;
        bus.write(adr, self.buffer);
        Ok(())
    }

    /// Zero-page X-indexed read-modify-write addressing.
    fn zero_page_indexed_x_rmw<C: Mapper, P: Mapper>(
        &mut self,
        bus: &mut Bus<C, P>,
        op: Op,
    ) -> (r: Result<(), Fault>)
        requires
            old(self).inv(),
            old(bus).wf(),
        ensures
            final(self).inv(),
            final(bus).wf(),
            zero_page_x_rmw_rel(op, *old(self), *old(bus), *final(self), *final(bus), r),
    {
        proof {
            reveal(crate::cpu::modes::zero_page_x_rmw_rel);
        }
        self.cycles = 6;
        let off = self.pc_read(&*bus)?;
        let adr = off.wrapping_add(self.x) as u16;
        self.buffer = ram_read(&*bus, adr);
        self.apply_op(op)?;
        bus.write(adr, self.buffer);
        Ok(())
    }

    /// Absolute read-modify-write addressing.
    fn absolute_rmw<C: Mapper, P: Mapper>(&mut self, bus: &mut Bus<C, P>, op: Op) -> (r: Result<
        (),
        Fault,
    >)
        requires
            old(self).inv(),
            old(bus).wf(),
        ensures
            final(self).inv(),
            final(bus).wf(),
            absolute_rmw_rel(op, *old(self), *old(bus), *final(self), *final(bus), r),
    {
        proof {
            reveal(crate::cpu::modes::absolute_rmw_rel);
        }
        self.cycles = 6;
        let lo = self.pc_read(&*bus)?;
        let hi = self.pc_read(&*bus)?;
        let adr = crate::cpu::to16(hi, lo);
        match bus.read(adr) {
            Some(val) => {
                self.buffer = val;
                self.apply_op(op)?;
                bus.write(adr, self.buffer);
                Ok(())
            },
            None => Err(Fault::Unmapped(adr)),
        }
    }

    /// Absolute X-indexed read-modify-write addressing: fixed worst-case
    /// cost, no page-crossing penalty.
    fn absolute_x_rmw<C: Mapper, P: Mapper>(&mut self, bus: &mut Bus<C, P>, op: Op) -> (r: Result<
        (),
        Fault,
    >)
        requires
            old(self).inv(),
            old(bus).wf(),
        ensures
            final(self).inv(),
            final(bus).wf(),
            absolute_x_rmw_rel(op, *old(self), *old(bus), *final(self), *final(bus), r),
    {
        proof {
            reveal(crate::cpu::modes::absolute_x_rmw_rel);
        }
        self.cycles = 7;
        let lo = self.pc_read(&*bus)?;
        let hi = self.pc_read(&*bus)?;
        let adr = crate::cpu::to16(hi, lo).wrapping_add(self.x as u16);
        match bus.read(adr) {
            Some(val) => {
                self.buffer = val;
                self.apply_op(op)?;
                bus.write(adr, self.buffer);
                Ok(())
            },
            None => Err(Fault::Unmapped(adr)),
        }
    }

    /// Zero-page write addressing: the operation fills the scratch first.
    fn zero_page_write<C: Mapper, P: Mapper>(&mut self, bus: &mut Bus<C, P>, op: Op) -> (r: Result<
        (),
        Fault,
    >)
        requires
            old(self).inv(),
            old(bus).wf(),
        ensures
            final(self).inv(),
            final(bus).wf(),
            zero_page_write_rel(op, *old(self), *old(bus), *final(self), *final(bus), r),
    {
        proof {
            reveal(crate::cpu::modes::zero_page_write_rel);
        }
        self.cycles = 3;
        self.apply_op(op)?;
        let off = self.pc_read(&*bus)?;
        bus.write(off as u16, self.buffer);
        Ok(())
    }

    /// Zero-page X-indexed write addressing.
    fn zero_page_indexed_x_write<C: Mapper, P: Mapper>(
        &mut self,
        bus: &mut Bus<C, P>,
        op: Op,
    ) -> (r: Result<(), Fault>)
        requires
            old(self).inv(),
            old(bus).wf(),
        ensures
            final(self).inv(),
            final(bus).wf(),
            zero_page_x_write_rel(op, *old(self), *old(bus), *final(self), *final(bus), r),
    {
        proof {
            reveal(crate::cpu::modes::zero_page_x_write_rel);
        }
        self.cycles = 4;
        self.apply_op(op)?;
        let off = self.pc_read(&*bus)?;
        let adr = off.wrapping_add(self.x) as u16;
        bus.write(adr, self.buffer);
        Ok(())
    }

    /// Zero-page Y-indexed write addressing.
    fn zero_page_indexed_y_write<C: Mapper, P: Mapper>(
        &mut self,
        bus: &mut Bus<C, P>,
        op: Op,
    ) -> (r: Result<(), Fault>)
        requires
            old(self).inv(),
            old(bus).wf(),
        ensures
            final(self).inv(),
            final(bus).wf(),
            zero_page_y_write_rel(op, *old(self), *old(bus), *final(self), *final(bus), r),
    {
        proof {
            reveal(crate::cpu::modes::zero_page_y_write_rel);
        }
        self.cycles = 4;
        self.apply_op(op)?;
        let off = self.pc_read(&*bus)?;
        let adr = off.wrapping_add(self.y) as u16;
        bus.write(adr, self.buffer);
        Ok(())
    }

    /// Absolute write addressing.
    fn absolute_write<C: Mapper, P: Mapper>(&mut self, bus: &mut Bus<C, P>, op: Op) -> (r: Result<
        (),
        Fault,
    >)
        requires
            old(self).inv(),
            old(bus).wf(),
        ensures
            final(self).inv(),
            final(bus).wf(),
            absolute_write_rel(op, *old(self), *old(bus), *final(self), *final(bus), r),
    {
        proof {
            reveal(crate::cpu::modes::absolute_write_rel);
        }
        self.cycles = 4;
        self.apply_op(op)?;
        let lo = self.pc_read(&*bus)?;
        let hi = self.pc_read(&*bus)?;
        let adr = crate::cpu::to16(hi, lo);
        bus.write(adr, self.buffer);
        Ok(())
    }

    /// Absolute X-indexed write addressing: fixed cost, no page-crossing
    /// penalty.
    fn absolute_x_write<C: Mapper, P: Mapper>(&mut self, bus: &mut Bus<C, P>, op: Op) -> (r: Result<
        (),
        Fault,
    >)
        requires
            old(self).inv(),
            old(bus).wf(),
        ensures
            final(self).inv(),
            final(bus).wf(),
            absolute_x_write_rel(op, *old(self), *old(bus), *final(self), *final(bus), r),
    {
        proof {
            reveal(crate::cpu::modes::absolute_x_write_rel);
        }
        self.cycles = 5;
        self.apply_op(op)?;
        let lo = self.pc_read(&*bus)?;
        let hi = self.pc_read(&*bus)?;
        let adr = crate::cpu::to16(hi, lo).wrapping_add(self.x as u16);
        bus.write(adr, self.buffer);
        Ok(())
    }

    /// Absolute Y-indexed write addressing: fixed cost, no page-crossing
    /// penalty.
    fn absolute_y_write<C: Mapper, P: Mapper>(&mut self, bus: &mut Bus<C, P>, op: Op) -> (r: Result<
        (),
        Fault,
    >)
        requires
            old(self).inv(),
            old(bus).wf(),
        ensures
            final(self).inv(),
            final(bus).wf(),
            absolute_y_write_rel(op, *old(self), *old(bus), *final(self), *final(bus), r),
    {
        proof {
            reveal(crate::cpu::modes::absolute_y_write_rel);
        }
        self.cycles = 5;
        self.apply_op(op)?;
        let lo = self.pc_read(&*bus)?;
        let hi = self.pc_read(&*bus)?;
        let adr = crate::cpu::to16(hi, lo).wrapping_add(self.y as u16);
        bus.write(adr, self.buffer);
        Ok(())
    }

    /// Zero-page indexed-indirect write addressing (`(zp,X)`).
    fn zero_page_indexed_x_indirect_write<C: Mapper, P: Mapper>(
        &mut self,
        bus: &mut Bus<C, P>,
        op: Op,
    ) -> (r: Result<(), Fault>)
        requires
            old(self).inv(),
            old(bus).wf(),
        ensures
            final(self).inv(),
            final(bus).wf(),
            indexed_indirect_write_rel(op, *old(self), *old(bus), *final(self), *final(bus), r),
    {
        proof {
            reveal(crate::cpu::modes::indexed_indirect_write_rel);
        }
        self.cycles = 6;
        self.apply_op(op)?;
        let off = self.pc_read(&*bus)?;
        let p = off.wrapping_add(self.x);
        let lo = ram_read(&*bus, p as u16);
        let hi = ram_read(&*bus, p.wrapping_add(1) as u16);
        let adr = crate::cpu::to16(hi, lo);
        bus.write(adr, self.buffer);
        Ok(())
    }

    /// Zero-page indirect-indexed write addressing (`(zp),Y`): fixed cost,
    /// no page-crossing penalty.
    fn zero_page_indirect_indexed_y_write<C: Mapper, P: Mapper>(
        &mut self,
        bus: &mut Bus<C, P>,
        op: Op,
    ) -> (r: Result<(), Fault>)
        requires
            old(self).inv(),
            old(bus).wf(),
        ensures
            final(self).inv(),
            final(bus).wf(),
            indirect_indexed_write_rel(op, *old(self), *old(bus), *final(self), *final(bus), r),
    {
        proof {
            reveal(crate::cpu::modes::indirect_indexed_write_rel);
        }
        self.cycles = 6;
        self.apply_op(op)?;
        let off = self.pc_read(&*bus)?;
        let lo = ram_read(&*bus, off as u16);
        let hi = ram_read(&*bus, off.wrapping_add(1) as u16);
        let adr = crate::cpu::to16(hi, lo).wrapping_add(self.y as u16);
        bus.write(adr, self.buffer);
        Ok(())
    }

    /// BRK: software interrupt entry; saves return state and the status byte
    /// with the break bit set, then disables interrupts.
    fn brk<C: Mapper, P: Mapper>(&mut self, bus: &mut Bus<C, P>) -> (r: Result<(), Fault>)
        requires
            old(self).inv(),
            old(bus).wf(),
        ensures
            final(self).inv(),
            final(bus).wf(),
            brk_rel(*old(self), *old(bus), *final(self), *final(bus), r),
    {
        proof {
            reveal(crate::cpu::modes::brk_rel);
        }
        self.set_opcode(Mnemonic::Brk);
        self.cycles = 7;
        self.pc = self.pc.wrapping_add(1);
        let pch = (self.pc / 256) as u8;
        let pcl = (self.pc % 256) as u8;
        self.push(bus, pch);
        self.push(bus, pcl);
        let sb = self.status.as_u8() | 16;
        self.push(bus, sb);
        self.status.i = 1;
        Ok(())
    }

    /// PHP: pushes the packed status byte.
    fn php<C: Mapper, P: Mapper>(&mut self, bus: &mut Bus<C, P>) -> (r: Result<(), Fault>)
        requires
            old(self).inv(),
            old(bus).wf(),
        ensures
            final(self).inv(),
            final(bus).wf(),
            php_rel(*old(self), *old(bus), *final(self), *final(bus), r),
    {
        proof {
            reveal(crate::cpu::modes::php_rel);
        }
        self.set_opcode(Mnemonic::Php);
        self.cycles = 3;
        let sb = self.status.as_u8();
        self.push(bus, sb);
        Ok(())
    }

    /// PHA: pushes the accumulator.
    fn pha<C: Mapper, P: Mapper>(&mut self, bus: &mut Bus<C, P>) -> (r: Result<(), Fault>)
        requires
            old(self).inv(),
            old(bus).wf(),
        ensures
            final(self).inv(),
            final(bus).wf(),
            pha_rel(*old(self), *old(bus), *final(self), *final(bus), r),
    {
        proof {
            reveal(crate::cpu::modes::pha_rel);
        }
        self.set_opcode(Mnemonic::Pha);
        self.cycles = 3;
        let a = self.acc;
        self.push(bus, a);
        Ok(())
    }

    /// PLA: pops into the accumulator.
    fn pla<C: Mapper, P: Mapper>(&mut self, bus: &Bus<C, P>) -> (r: Result<(), Fault>)
        requires
            old(self).inv(),
            bus.wf(),
        ensures
            final(self).inv(),
            pla_rel(*old(self), *bus, *final(self), r),
    {
        proof {
            reveal(crate::cpu::modes::pla_rel);
        }
        self.set_opcode(Mnemonic::Pla);
        self.cycles = 4;
        let v = self.pop(bus);
        self.acc = v;
        self.update_nz_flags(v);
        Ok(())
    }

    /// PLP: pops the status byte.
    fn plp<C: Mapper, P: Mapper>(&mut self, bus: &Bus<C, P>) -> (r: Result<(), Fault>)
        requires
            old(self).inv(),
            bus.wf(),
        ensures
            final(self).inv(),
            plp_rel(*old(self), *bus, *final(self), r),
    {
        proof {
            reveal(crate::cpu::modes::plp_rel);
        }
        self.set_opcode(Mnemonic::Plp);
        self.cycles = 4;
        let v = self.pop(bus);
        self.status.from_u8(v);
        Ok(())
    }

    /// RTI: restores the status byte and the program counter from the stack.
    fn rti<C: Mapper, P: Mapper>(&mut self, bus: &Bus<C, P>) -> (r: Result<(), Fault>)
        requires
            old(self).inv(),
            bus.wf(),
        ensures
            final(self).inv(),
            rti_rel(*old(self), *bus, *final(self), r),
    {
        proof {
            reveal(crate::cpu::modes::rti_rel);
        }
        self.set_opcode(Mnemonic::Rti);
        self.cycles = 6;
        let v = self.pop(bus);
        self.status.from_u8(v);
        let lo = self.pop(bus);
        let hi = self.pop(bus);
        self.pc = crate::cpu::to16(hi, lo);
        Ok(())
    }

    /// RTS: restores the program counter from the stack, plus one.
    fn rts<C: Mapper, P: Mapper>(&mut self, bus: &Bus<C, P>) -> (r: Result<(), Fault>)
        requires
            old(self).inv(),
            bus.wf(),
        ensures
            final(self).inv(),
            rts_rel(*old(self), *bus, *final(self), r),
    {
        proof {
            reveal(crate::cpu::modes::rts_rel);
        }
        self.set_opcode(Mnemonic::Rts);
        self.cycles = 6;
        let lo = self.pop(bus);
        let hi = self.pop(bus);
        self.pc = crate::cpu::to16(hi, lo).wrapping_add(1);
        Ok(())
    }

    /// JSR: pushes the address of the instruction's last byte and jumps.
    fn jsr<C: Mapper, P: Mapper>(&mut self, bus: &mut Bus<C, P>) -> (r: Result<(), Fault>)
        requires
            old(self).inv(),
            old(bus).wf(),
        ensures
            final(self).inv(),
            final(bus).wf(),
            jsr_rel(*old(self), *old(bus), *final(self), *final(bus), r),
    {
        proof {
            reveal(crate::cpu::modes::jsr_rel);
        }
        self.set_opcode(Mnemonic::Jsr);
        self.cycles = 6;
        let lo = self.pc_read(&*bus)?;
        let hi = self.pc_read(&*bus)?;
        let adr = crate::cpu::to16(hi, lo);
        let ret = self.pc.wrapping_sub(1);
        let rh = (ret / 256) as u8;
        let rl = (ret % 256) as u8;
        self.push(bus, rh);
        self.push(bus, rl);
        self.pc = adr;
        Ok(())
    }

    /// JMP absolute.
    fn jmp_absolute<C: Mapper, P: Mapper>(&mut self, bus: &Bus<C, P>) -> (r: Result<(), Fault>)
        requires
            old(self).inv(),
            bus.wf(),
        ensures
            final(self).inv(),
            jmp_absolute_rel(*old(self), *bus, *final(self), r),
    {
        proof {
            reveal(crate::cpu::modes::jmp_absolute_rel);
        }
        self.set_opcode(Mnemonic::Jmp);
        self.cycles = 3;
        let lo = self.pc_read(bus)?;
        let hi = self.pc_read(bus)?;
        self.pc = crate::cpu::to16(hi, lo);
        Ok(())
    }

    /// JMP indirect.
    fn jmp_indirect<C: Mapper, P: Mapper>(&mut self, bus: &Bus<C, P>) -> (r: Result<(), Fault>)
        requires
            old(self).inv(),
            bus.wf(),
        ensures
            final(self).inv(),
            jmp_indirect_rel(*old(self), *bus, *final(self), r),
    {
        proof {
            reveal(crate::cpu::modes::jmp_indirect_rel);
        }
        self.set_opcode(Mnemonic::Jmp);
        self.cycles = 5;
        let lo = self.pc_read(bus)?;
        let hi = self.pc_read(bus)?;
        let ptr = crate::cpu::to16(hi, lo);
        let lo2 = match bus.read(ptr) {
            Some(v) => v,
            None => {
                return Err(Fault::Unmapped(ptr));
            },
        };
        let p2 = ptr.wrapping_add(1);
        let hi2 = match bus.read(p2) {
            Some(v) => v,
            None => {
                return Err(Fault::Unmapped(p2));
            },
        };
        self.pc = crate::cpu::to16(hi2, lo2);
        Ok(())
    }

    /// Runs one (addressing mode, operation) pair.
    pub(crate) fn run_inst<C: Mapper, P: Mapper>(
        &mut self,
        bus: &mut Bus<C, P>,
        m: AddrMode,
        op: Op,
    ) -> (r: Result<(), Fault>)
        requires
            old(self).inv(),
            old(bus).wf(),
        ensures
            final(self).inv(),
            final(bus).wf(),
            inst_rel(m, op, *old(self), *old(bus), *final(self), *final(bus), r),
    {
        match m {
            AddrMode::ZeroPageRmw
            | AddrMode::ZeroPageXRmw
            | AddrMode::AbsoluteRmw
            | AddrMode::AbsoluteXRmw => self.run_inst_rmw(bus, m, op),
            AddrMode::ZeroPageWrite
            | AddrMode::ZeroPageXWrite
            | AddrMode::ZeroPageYWrite
            | AddrMode::AbsoluteWrite
            | AddrMode::AbsoluteXWrite
            | AddrMode::AbsoluteYWrite
            | AddrMode::IndexedIndirectWrite
            | AddrMode::IndirectIndexedWrite => self.run_inst_store(bus, m, op),
            _ => self.run_inst_read(&*bus, m, op),
        }
    }

    /// Runs a pair whose mode only reads the bus.
    #[verifier::rlimit(50)]
    fn run_inst_read<C: Mapper, P: Mapper>(&mut self, bus: &Bus<C, P>, m: AddrMode, op: Op) -> (r:
        Result<(), Fault>)
        requires
            old(self).inv(),
            bus.wf(),
            m is Implied || m is Accumulator || m is Immediate || m is Relative || m is ZeroPage
                || m is ZeroPageX || m is ZeroPageY || m is IndexedIndirect
                || m is IndirectIndexed || m is Absolute || m is AbsoluteX || m is AbsoluteY,
        ensures
            final(self).inv(),
            inst_rel(m, op, *old(self), *bus, *final(self), *bus, r),
    {
        match m {
            AddrMode::Implied => self.implied(op),
            AddrMode::Accumulator => self.accumulator_rmw(op),
            AddrMode::Immediate => self.immediate(bus, op),
            AddrMode::Relative => self.relative(bus, op),
            AddrMode::ZeroPage => self.zero_page(bus, op),
            AddrMode::ZeroPageX => self.zero_page_indexed_x(bus, op),
            AddrMode::ZeroPageY => self.zero_page_indexed_y(bus, op),
            AddrMode::IndexedIndirect => self.zero_page_indexed_x_indirect(bus, op),
            AddrMode::IndirectIndexed => self.zero_page_indirect_indexed_y(bus, op),
            AddrMode::Absolute => self.absolute_adr(bus, op),
            AddrMode::AbsoluteX => self.absolute_x(bus, op),
            _ => self.absolute_y(bus, op),
        }
    }

    /// Runs a pair whose mode reads, transforms and writes back.
    #[verifier::rlimit(50)]
    fn run_inst_rmw<C: Mapper, P: Mapper>(
        &mut self,
        bus: &mut Bus<C, P>,
        m: AddrMode,
        op: Op,
    ) -> (r: Result<(), Fault>)
        requires
            old(self).inv(),
            old(bus).wf(),
            m is ZeroPageRmw || m is ZeroPageXRmw || m is AbsoluteRmw || m is AbsoluteXRmw,
        ensures
            final(self).inv(),
            final(bus).wf(),
            inst_rel(m, op, *old(self), *old(bus), *final(self), *final(bus), r),
    {
        match m {
            AddrMode::ZeroPageRmw => self.zero_page_rmw(bus, op),
            AddrMode::ZeroPageXRmw => self.zero_page_indexed_x_rmw(bus, op),
            AddrMode::AbsoluteRmw => self.absolute_rmw(bus, op),
            _ => self.absolute_x_rmw(bus, op),
        }
    }

    /// Runs a pair whose mode stores the scratch the operation produced.
    #[verifier::rlimit(50)]
    fn run_inst_store<C: Mapper, P: Mapper>(
        &mut self,
        bus: &mut Bus<C, P>,
        m: AddrMode,
        op: Op,
    ) -> (r: Result<(), Fault>)
        requires
            old(self).inv(),
            old(bus).wf(),
            m is ZeroPageWrite || m is ZeroPageXWrite || m is ZeroPageYWrite
                || m is AbsoluteWrite || m is AbsoluteXWrite || m is AbsoluteYWrite
                || m is IndexedIndirectWrite || m is IndirectIndexedWrite,
        ensures
            final(self).inv(),
            final(bus).wf(),
            inst_rel(m, op, *old(self), *old(bus), *final(self), *final(bus), r),
    {
        match m {
            AddrMode::ZeroPageWrite => self.zero_page_write(bus, op),
            AddrMode::ZeroPageXWrite => self.zero_page_indexed_x_write(bus, op),
            AddrMode::ZeroPageYWrite => self.zero_page_indexed_y_write(bus, op),
            AddrMode::AbsoluteWrite => self.absolute_write(bus, op),
            AddrMode::AbsoluteXWrite => self.absolute_x_write(bus, op),
            AddrMode::AbsoluteYWrite => self.absolute_y_write(bus, op),
            AddrMode::IndexedIndirectWrite => self.zero_page_indexed_x_indirect_write(bus, op),
            _ => self.zero_page_indirect_indexed_y_write(bus, op),
        }
    }

    /// Runs one control-flow instruction.
    pub(crate) fn run_flow<C: Mapper, P: Mapper>(&mut self, bus: &mut Bus<C, P>, f: FlowKind) -> (r:
        Result<(), Fault>)
        requires
            old(self).inv(),
            old(bus).wf(),
        ensures
            final(self).inv(),
            final(bus).wf(),
            flow_rel(f, *old(self), *old(bus), *final(self), *final(bus), r),
    {
        match f {
            FlowKind::Brk => self.brk(bus),
            FlowKind::Php => self.php(bus),
            FlowKind::Pha => self.pha(bus),
            FlowKind::Plp => self.plp(&*bus),
            FlowKind::Pla => self.pla(&*bus),
            FlowKind::Rti => self.rti(&*bus),
            FlowKind::Rts => self.rts(&*bus),
            FlowKind::Jsr => self.jsr(bus),
            FlowKind::JmpAbsolute => self.jmp_absolute(&*bus),
            FlowKind::JmpIndirect => self.jmp_indirect(&*bus),
        }
    }
}

} // verus!
