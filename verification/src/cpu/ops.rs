//! The operation procedures: each reads and/or writes only the operand
//! scratch byte and the architectural registers and flags, never the bus, so
//! one procedure serves every addressing mode that supports the instruction.
//!
//! Flag rules: every load, transfer, logical, arithmetic, shift, increment,
//! decrement and compare updates N (top bit of the result) and Z (result is
//! zero). ADC forms a 9-bit sum including the incoming carry, takes C from
//! bit 8, and asserts V only when both operands share a sign that the result
//! does not; when the operand signs differ, overflow is impossible and V is
//! left untouched. SBC is ADC of the complemented subtrahend. Compares set C
//! exactly when the register is at least the operand and take N and Z from
//! the wrapping difference. Decimal-mode ADC/SBC is explicitly unsupported
//! and is rejected with [`Fault::DecimalMode`] rather than silently producing
//! binary results.

use vstd::prelude::*;
use crate::cpu::{n_of, with_nz, CPU6502, Fault, Mnemonic, Op};
use crate::status::StatusRegister;

verus! {

/// Add with carry: 9-bit sum of accumulator, scratch and carry-in.
pub open spec fn apply_adc(c: CPU6502) -> CPU6502 {
    let sum = c.acc + c.buffer + c.status.c;
    let res = (sum % 256) as u8;
    let carry = (sum / 256) as u8;
    let v = if n_of(c.acc) == n_of(c.buffer) {
        if n_of(c.acc) != n_of(res) {
            1u8
        } else {
            0u8
        }
    } else {
        c.status.v
    };
    with_nz(
        CPU6502 {
            acc: res,
            status: StatusRegister { c: carry, v: v, ..c.status },
            opcode: Mnemonic::Adc,
            ..c
        },
        res,
    )
}

/// Subtract with carry: ADC of the bitwise complement of the scratch.
pub open spec fn apply_sbc(c: CPU6502) -> CPU6502 {
    CPU6502 { opcode: Mnemonic::Sbc, ..apply_adc(CPU6502 { buffer: !c.buffer, ..c }) }
}

/// Bitwise AND into the accumulator.
pub open spec fn apply_and(c: CPU6502) -> CPU6502 {
    let res = c.acc & c.buffer;
    with_nz(CPU6502 { acc: res, opcode: Mnemonic::And, ..c }, res)
}

/// Bitwise OR into the accumulator.
pub open spec fn apply_ora(c: CPU6502) -> CPU6502 {
    let res = c.acc | c.buffer;
    with_nz(CPU6502 { acc: res, opcode: Mnemonic::Ora, ..c }, res)
}

/// Bitwise exclusive OR into the accumulator.
pub open spec fn apply_eor(c: CPU6502) -> CPU6502 {
    let res = c.acc ^ c.buffer;
    with_nz(CPU6502 { acc: res, opcode: Mnemonic::Eor, ..c }, res)
}

/// Arithmetic shift left of the scratch; C takes the bit shifted out.
pub open spec fn apply_asl(c: CPU6502) -> CPU6502 {
    let res = c.buffer << 1;
    with_nz(
        CPU6502 {
            buffer: res,
            status: StatusRegister { c: c.buffer / 128, ..c.status },
            opcode: Mnemonic::Asl,
            ..c
        },
        res,
    )
}

/// Logical shift right of the scratch; C takes the bit shifted out.
pub open spec fn apply_lsr(c: CPU6502) -> CPU6502 {
    let res = c.buffer >> 1;
    with_nz(
        CPU6502 {
            buffer: res,
            status: StatusRegister { c: c.buffer % 2, ..c.status },
            opcode: Mnemonic::Lsr,
            ..c
        },
        res,
    )
}

/// Rotate left through carry.
pub open spec fn apply_rol(c: CPU6502) -> CPU6502 {
    let res = (c.buffer << 1) | c.status.c;
    with_nz(
        CPU6502 {
            buffer: res,
            status: StatusRegister { c: c.buffer / 128, ..c.status },
            opcode: Mnemonic::Rol,
            ..c
        },
        res,
    )
}

/// Rotate right through carry.
pub open spec fn apply_ror(c: CPU6502) -> CPU6502 {
    let res = (c.buffer >> 1) | (c.status.c << 7);
    with_nz(
        CPU6502 {
            buffer: res,
            status: StatusRegister { c: c.buffer % 2, ..c.status },
            opcode: Mnemonic::Ror,
            ..c
        },
        res,
    )
}

/// Bit test: N and V from bits 7 and 6 of the operand, Z from the AND with
/// the accumulator.
pub open spec fn apply_bit(c: CPU6502) -> CPU6502 {
    CPU6502 {
        status: StatusRegister {
            n: c.buffer / 128,
            v: (c.buffer / 64) % 2,
            z: if c.acc & c.buffer == 0 {
                1u8
            } else {
                0u8
            },
            ..c.status
        },
        opcode: Mnemonic::Bit,
        ..c
    }
}

/// Compare of a register value against the scratch: C when the register is
/// at least the operand, N and Z from the wrapping difference.
pub open spec fn compare(c: CPU6502, reg: u8, m: Mnemonic) -> CPU6502 {
    let res = reg.wrapping_sub(c.buffer);
    with_nz(
        CPU6502 {
            status: StatusRegister {
                c: if reg >= c.buffer {
                    1u8
                } else {
                    0u8
                },
                ..c.status
            },
            opcode: m,
            ..c
        },
        res,
    )
}

/// Compare accumulator.
pub open spec fn apply_cmp(c: CPU6502) -> CPU6502 {
    compare(c, c.acc, Mnemonic::Cmp)
}

/// Compare X.
pub open spec fn apply_cpx(c: CPU6502) -> CPU6502 {
    compare(c, c.x, Mnemonic::Cpx)
}

/// Compare Y.
pub open spec fn apply_cpy(c: CPU6502) -> CPU6502 {
    compare(c, c.y, Mnemonic::Cpy)
}

/// Decrement the scratch.
pub open spec fn apply_dec(c: CPU6502) -> CPU6502 {
    let res = c.buffer.wrapping_sub(1);
    with_nz(CPU6502 { buffer: res, opcode: Mnemonic::Dec, ..c }, res)
}

/// Increment the scratch.
pub open spec fn apply_inc(c: CPU6502) -> CPU6502 {
    let res = c.buffer.wrapping_add(1);
    with_nz(CPU6502 { buffer: res, opcode: Mnemonic::Inc, ..c }, res)
}

/// Decrement X.
pub open spec fn apply_dex(c: CPU6502) -> CPU6502 {
    let res = c.x.wrapping_sub(1);
    with_nz(CPU6502 { x: res, opcode: Mnemonic::Dex, ..c }, res)
}

/// Decrement Y.
pub open spec fn apply_dey(c: CPU6502) -> CPU6502 {
    let res = c.y.wrapping_sub(1);
    with_nz(CPU6502 { y: res, opcode: Mnemonic::Dey, ..c }, res)
}

/// Increment X.
pub open spec fn apply_inx(c: CPU6502) -> CPU6502 {
    let res = c.x.wrapping_add(1);
    with_nz(CPU6502 { x: res, opcode: Mnemonic::Inx, ..c }, res)
}

/// Increment Y.
pub open spec fn apply_iny(c: CPU6502) -> CPU6502 {
    let res = c.y.wrapping_add(1);
    with_nz(CPU6502 { y: res, opcode: Mnemonic::Iny, ..c }, res)
}

/// Load accumulator from the scratch.
pub open spec fn apply_lda(c: CPU6502) -> CPU6502 {
    with_nz(CPU6502 { acc: c.buffer, opcode: Mnemonic::Lda, ..c }, c.buffer)
}

/// Load X from the scratch.
pub open spec fn apply_ldx(c: CPU6502) -> CPU6502 {
    with_nz(CPU6502 { x: c.buffer, opcode: Mnemonic::Ldx, ..c }, c.buffer)
}

/// Load Y from the scratch.
pub open spec fn apply_ldy(c: CPU6502) -> CPU6502 {
    with_nz(CPU6502 { y: c.buffer, opcode: Mnemonic::Ldy, ..c }, c.buffer)
}

/// Store accumulator: fills the scratch for the addressing mode to commit.
pub open spec fn apply_sta(c: CPU6502) -> CPU6502 {
    CPU6502 { buffer: c.acc, opcode: Mnemonic::Sta, ..c }
}

/// Store X.
pub open spec fn apply_stx(c: CPU6502) -> CPU6502 {
    CPU6502 { buffer: c.x, opcode: Mnemonic::Stx, ..c }
}

/// Store Y.
pub open spec fn apply_sty(c: CPU6502) -> CPU6502 {
    CPU6502 { buffer: c.y, opcode: Mnemonic::Sty, ..c }
}

/// Transfer accumulator to X.
pub open spec fn apply_tax(c: CPU6502) -> CPU6502 {
    with_nz(CPU6502 { x: c.acc, opcode: Mnemonic::Tax, ..c }, c.acc)
}

/// Transfer accumulator to Y.
pub open spec fn apply_tay(c: CPU6502) -> CPU6502 {
    with_nz(CPU6502 { y: c.acc, opcode: Mnemonic::Tay, ..c }, c.acc)
}

/// Transfer stack pointer to X.
pub open spec fn apply_tsx(c: CPU6502) -> CPU6502 {
    with_nz(CPU6502 { x: c.sp, opcode: Mnemonic::Tsx, ..c }, c.sp)
}

/// Transfer X to accumulator.
pub open spec fn apply_txa(c: CPU6502) -> CPU6502 {
    with_nz(CPU6502 { acc: c.x, opcode: Mnemonic::Txa, ..c }, c.x)
}

/// Transfer X to stack pointer.
pub open spec fn apply_txs(c: CPU6502) -> CPU6502 {
    with_nz(CPU6502 { sp: c.x, opcode: Mnemonic::Txs, ..c }, c.x)
}

/// Transfer Y to accumulator.
pub open spec fn apply_tya(c: CPU6502) -> CPU6502 {
    with_nz(CPU6502 { acc: c.y, opcode: Mnemonic::Tya, ..c }, c.y)
}

/// Set or clear one flag, leaving the rest of the engine unchanged.
pub open spec fn apply_flag(c: CPU6502, s: StatusRegister, m: Mnemonic) -> CPU6502 {
    CPU6502 { status: s, opcode: m, ..c }
}

/// A branch operation: records the take-branch decision for the relative
/// addressing mode to consume.
pub open spec fn apply_branch(c: CPU6502, taken: bool, m: Mnemonic) -> CPU6502 {
    CPU6502 { take_branch: taken, opcode: m, ..c }
}

/// What operation `op` does to the registers, scratch and flags. Defined
/// only on non-faulting states (see [`op_faults`]). Kept opaque so that
/// reasoning about dispatch does not unfold every operation at once.
#[verifier::opaque]
pub open spec fn op_apply(op: Op, c: CPU6502) -> CPU6502 {
    match op {
        Op::Adc => apply_adc(c),
        Op::Sbc => apply_sbc(c),
        Op::And => apply_and(c),
        Op::Ora => apply_ora(c),
        Op::Eor => apply_eor(c),
        Op::Asl => apply_asl(c),
        Op::Lsr => apply_lsr(c),
        Op::Rol => apply_rol(c),
        Op::Ror => apply_ror(c),
        Op::Bit => apply_bit(c),
        Op::Cmp => apply_cmp(c),
        Op::Cpx => apply_cpx(c),
        Op::Cpy => apply_cpy(c),
        Op::Dec => apply_dec(c),
        Op::Inc => apply_inc(c),
        Op::Dex => apply_dex(c),
        Op::Dey => apply_dey(c),
        Op::Inx => apply_inx(c),
        Op::Iny => apply_iny(c),
        Op::Lda => apply_lda(c),
        Op::Ldx => apply_ldx(c),
        Op::Ldy => apply_ldy(c),
        Op::Sta => apply_sta(c),
        Op::Stx => apply_stx(c),
        Op::Sty => apply_sty(c),
        Op::Tax => apply_tax(c),
        Op::Tay => apply_tay(c),
        Op::Tsx => apply_tsx(c),
        Op::Txa => apply_txa(c),
        Op::Txs => apply_txs(c),
        Op::Tya => apply_tya(c),
        Op::Clc => apply_flag(c, StatusRegister { c: 0, ..c.status }, Mnemonic::Clc),
        Op::Cld => apply_flag(c, StatusRegister { d: 0, ..c.status }, Mnemonic::Cld),
        Op::Cli => apply_flag(c, StatusRegister { i: 0, ..c.status }, Mnemonic::Cli),
        Op::Clv => apply_flag(c, StatusRegister { v: 0, ..c.status }, Mnemonic::Clv),
        Op::Sec => apply_flag(c, StatusRegister { c: 1, ..c.status }, Mnemonic::Sec),
        Op::Sed => apply_flag(c, StatusRegister { d: 1, ..c.status }, Mnemonic::Sed),
        Op::Sei => apply_flag(c, StatusRegister { i: 1, ..c.status }, Mnemonic::Sei),
        Op::Bcc => apply_branch(c, c.status.c == 0, Mnemonic::Bcc),
        Op::Bcs => apply_branch(c, c.status.c == 1, Mnemonic::Bcs),
        Op::Beq => apply_branch(c, c.status.z == 1, Mnemonic::Beq),
        Op::Bne => apply_branch(c, c.status.z == 0, Mnemonic::Bne),
        Op::Bmi => apply_branch(c, c.status.n == 1, Mnemonic::Bmi),
        Op::Bpl => apply_branch(c, c.status.n == 0, Mnemonic::Bpl),
        Op::Bvc => apply_branch(c, c.status.v == 0, Mnemonic::Bvc),
        Op::Bvs => apply_branch(c, c.status.v == 1, Mnemonic::Bvs),
        Op::Nop => CPU6502 { opcode: Mnemonic::Nop, ..c },
    }
}

/// Whether `op` faults in state `c`: only decimal-mode add and subtract do.
pub open spec fn op_faults(op: Op, c: CPU6502) -> bool {
    (op == Op::Adc || op == Op::Sbc) && c.status.d == 1
}

impl CPU6502 {
    /// Add with carry. Rejects decimal mode with a clear signal.
    pub fn op_adc(&mut self) -> (r: Result<(), Fault>)
        requires
            old(self).inv(),
        ensures
            final(self).inv(),
            if old(self).status.d == 1 {
                r == Err::<(), Fault>(Fault::DecimalMode) && *final(self) == *old(self)
            } else {
                r == Ok::<(), Fault>(()) && *final(self) == apply_adc(*old(self))
            },
    {
        if self.status.d == 1 {
            return Err(Fault::DecimalMode);
        }
        self.set_opcode(Mnemonic::Adc);
        let sum: u16 = self.acc as u16 + self.buffer as u16 + self.status.c as u16;
        let res: u8 = (sum % 256) as u8;
        let sign_a: u8 = self.acc / 128;
        let sign_b: u8 = self.buffer / 128;
        let sign_r: u8 = res / 128;
        self.status.c = (sum / 256) as u8;
        if sign_a == sign_b {
            self.status.v = if sign_a != sign_r {
                1
            } else {
                0
            };
        }
        self.acc = res;
        self.update_nz_flags(res);
        Ok(())
    }

    /// Subtract with carry: complements the scratch and adds. Rejects decimal
    /// mode with a clear signal.
    pub fn op_sbc(&mut self) -> (r: Result<(), Fault>)
        requires
            old(self).inv(),
        ensures
            final(self).inv(),
            if old(self).status.d == 1 {
                r == Err::<(), Fault>(Fault::DecimalMode) && *final(self) == *old(self)
            } else {
                r == Ok::<(), Fault>(()) && *final(self) == apply_sbc(*old(self))
            },
    {
        if self.status.d == 1 {
            return Err(Fault::DecimalMode);
        }
        self.buffer = !self.buffer;
        let _ = self.op_adc();
        self.set_opcode(Mnemonic::Sbc);
        Ok(())
    }

    /// Bitwise AND into the accumulator.
    pub fn op_and(&mut self)
        requires
            old(self).inv(),
        ensures
            final(self).inv(),
            *final(self) == apply_and(*old(self)),
    {
        proof {
            reveal(crate::cpu::ops::op_apply);
        }
        self.set_opcode(Mnemonic::And);
        let res = self.acc & self.buffer;
        self.acc = res;
        self.update_nz_flags(res);
    }

    /// Bitwise OR into the accumulator.
    pub fn op_ora(&mut self)
        requires
            old(self).inv(),
        ensures
            final(self).inv(),
            *final(self) == apply_ora(*old(self)),
    {
        proof {
            reveal(crate::cpu::ops::op_apply);
        }
        self.set_opcode(Mnemonic::Ora);
        let res = self.acc | self.buffer;
        self.acc = res;
        self.update_nz_flags(res);
    }

    /// Bitwise exclusive OR into the accumulator.
    pub fn op_eor(&mut self)
        requires
            old(self).inv(),
        ensures
            final(self).inv(),
            *final(self) == apply_eor(*old(self)),
    {
        proof {
            reveal(crate::cpu::ops::op_apply);
        }
        self.set_opcode(Mnemonic::Eor);
        let res = self.acc ^ self.buffer;
        self.acc = res;
        self.update_nz_flags(res);
    }

    /// Arithmetic shift left of the scratch.
    pub fn op_asl(&mut self)
        requires
            old(self).inv(),
        ensures
            final(self).inv(),
            *final(self) == apply_asl(*old(self)),
    {
        proof {
            reveal(crate::cpu::ops::op_apply);
        }
        self.set_opcode(Mnemonic::Asl);
        self.status.c = self.buffer / 128;
        let res = self.buffer << 1u8;
        self.buffer = res;
        self.update_nz_flags(res);
    }

    /// Logical shift right of the scratch.
    pub fn op_lsr(&mut self)
        requires
            old(self).inv(),
        ensures
            final(self).inv(),
            *final(self) == apply_lsr(*old(self)),
    {
        proof {
            reveal(crate::cpu::ops::op_apply);
        }
        self.set_opcode(Mnemonic::Lsr);
        self.status.c = self.buffer % 2;
        let res = self.buffer >> 1u8;
        self.buffer = res;
        self.update_nz_flags(res);
    }

    /// Rotate left through carry.
    pub fn op_rol(&mut self)
        requires
            old(self).inv(),
        ensures
            final(self).inv(),
            *final(self) == apply_rol(*old(self)),
    {
        proof {
            reveal(crate::cpu::ops::op_apply);
        }
        self.set_opcode(Mnemonic::Rol);
        let carry_in = self.status.c;
        self.status.c = self.buffer / 128;
        let res = (self.buffer << 1u8) | carry_in;
        self.buffer = res;
        self.update_nz_flags(res);
    }

    /// Rotate right through carry.
    pub fn op_ror(&mut self)
        requires
            old(self).inv(),
        ensures
            final(self).inv(),
            *final(self) == apply_ror(*old(self)),
    {
        proof {
            reveal(crate::cpu::ops::op_apply);
        }
        self.set_opcode(Mnemonic::Ror);
        let carry_in = self.status.c;
        self.status.c = self.buffer % 2;
        let res = (self.buffer >> 1u8) | (carry_in << 7u8);
        self.buffer = res;
        self.update_nz_flags(res);
    }

    /// Bit test.
    pub fn op_bit(&mut self)
        requires
            old(self).inv(),
        ensures
            final(self).inv(),
            *final(self) == apply_bit(*old(self)),
    {
        proof {
            reveal(crate::cpu::ops::op_apply);
        }
        self.set_opcode(Mnemonic::Bit);
        self.status.n = self.buffer / 128;
        self.status.v = (self.buffer / 64) % 2;
        self.status.z = if self.acc & self.buffer == 0 {
            1
        } else {
            0
        };
    }

    /// Compare accumulator with the scratch.
    pub fn op_cmp(&mut self)
        requires
            old(self).inv(),
        ensures
            final(self).inv(),
            *final(self) == apply_cmp(*old(self)),
    {
        proof {
            reveal(crate::cpu::ops::op_apply);
        }
        self.set_opcode(Mnemonic::Cmp);
        self.status.c = if self.acc >= self.buffer {
            1
        } else {
            0
        };
        let res = self.acc.wrapping_sub(self.buffer);
        self.update_nz_flags(res);
    }

    /// Compare X with the scratch.
    pub fn op_cpx(&mut self)
        requires
            old(self).inv(),
        ensures
            final(self).inv(),
            *final(self) == apply_cpx(*old(self)),
    {
        proof {
            reveal(crate::cpu::ops::op_apply);
        }
        self.set_opcode(Mnemonic::Cpx);
        self.status.c = if self.x >= self.buffer {
            1
        } else {
            0
        };
        let res = self.x.wrapping_sub(self.buffer);
        self.update_nz_flags(res);
    }

    /// Compare Y with the scratch.
    pub fn op_cpy(&mut self)
        requires
            old(self).inv(),
        ensures
            final(self).inv(),
            *final(self) == apply_cpy(*old(self)),
    {
        proof {
            reveal(crate::cpu::ops::op_apply);
        }
        self.set_opcode(Mnemonic::Cpy);
        self.status.c = if self.y >= self.buffer {
            1
        } else {
            0
        };
        let res = self.y.wrapping_sub(self.buffer);
        self.update_nz_flags(res);
    }

    /// Decrement the scratch.
    pub fn op_dec(&mut self)
        requires
            old(self).inv(),
        ensures
            final(self).inv(),
            *final(self) == apply_dec(*old(self)),
    {
        proof {
            reveal(crate::cpu::ops::op_apply);
        }
        self.set_opcode(Mnemonic::Dec);
        let res = self.buffer.wrapping_sub(1);
        self.buffer = res;
        self.update_nz_flags(res);
    }

    /// Increment the scratch.
    pub fn op_inc(&mut self)
        requires
            old(self).inv(),
        ensures
            final(self).inv(),
            *final(self) == apply_inc(*old(self)),
    {
        proof {
            reveal(crate::cpu::ops::op_apply);
        }
        self.set_opcode(Mnemonic::Inc);
        let res = self.buffer.wrapping_add(1);
        self.buffer = res;
        self.update_nz_flags(res);
    }

    /// Decrement X.
    pub fn op_dex(&mut self)
        requires
            old(self).inv(),
        ensures
            final(self).inv(),
            *final(self) == apply_dex(*old(self)),
    {
        proof {
            reveal(crate::cpu::ops::op_apply);
        }
        self.set_opcode(Mnemonic::Dex);
        let res = self.x.wrapping_sub(1);
        self.x = res;
        self.update_nz_flags(res);
    }

    /// Decrement Y.
    pub fn op_dey(&mut self)
        requires
            old(self).inv(),
        ensures
            final(self).inv(),
            *final(self) == apply_dey(*old(self)),
    {
        proof {
            reveal(crate::cpu::ops::op_apply);
        }
        self.set_opcode(Mnemonic::Dey);
        let res = self.y.wrapping_sub(1);
        self.y = res;
        self.update_nz_flags(res);
    }

    /// Increment X.
    pub fn op_inx(&mut self)
        requires
            old(self).inv(),
        ensures
            final(self).inv(),
            *final(self) == apply_inx(*old(self)),
    {
        proof {
            reveal(crate::cpu::ops::op_apply);
        }
        self.set_opcode(Mnemonic::Inx);
        let res = self.x.wrapping_add(1);
        self.x = res;
        self.update_nz_flags(res);
    }

    /// Increment Y.
    pub fn op_iny(&mut self)
        requires
            old(self).inv(),
        ensures
            final(self).inv(),
            *final(self) == apply_iny(*old(self)),
    {
        proof {
            reveal(crate::cpu::ops::op_apply);
        }
        self.set_opcode(Mnemonic::Iny);
        let res = self.y.wrapping_add(1);
        self.y = res;
        self.update_nz_flags(res);
    }

    /// Load accumulator from the scratch.
    pub fn op_lda(&mut self)
        requires
            old(self).inv(),
        ensures
            final(self).inv(),
            *final(self) == apply_lda(*old(self)),
    {
        proof {
            reveal(crate::cpu::ops::op_apply);
        }
        self.set_opcode(Mnemonic::Lda);
        let res = self.buffer;
        self.acc = res;
        self.update_nz_flags(res);
    }

    /// Load X from the scratch.
    pub fn op_ldx(&mut self)
        requires
            old(self).inv(),
        ensures
            final(self).inv(),
            *final(self) == apply_ldx(*old(self)),
    {
        proof {
            reveal(crate::cpu::ops::op_apply);
        }
        self.set_opcode(Mnemonic::Ldx);
        let res = self.buffer;
        self.x = res;
        self.update_nz_flags(res);
    }

    /// Load Y from the scratch.
    pub fn op_ldy(&mut self)
        requires
            old(self).inv(),
        ensures
            final(self).inv(),
            *final(self) == apply_ldy(*old(self)),
    {
        proof {
            reveal(crate::cpu::ops::op_apply);
        }
        self.set_opcode(Mnemonic::Ldy);
        let res = self.buffer;
        self.y = res;
        self.update_nz_flags(res);
    }

    /// Store accumulator: fills the scratch for the mode to commit.
    pub fn op_sta(&mut self)
        requires
            old(self).inv(),
        ensures
            final(self).inv(),
            *final(self) == apply_sta(*old(self)),
    {
        proof {
            reveal(crate::cpu::ops::op_apply);
        }
        self.set_opcode(Mnemonic::Sta);
        self.buffer = self.acc;
    }

    /// Store X.
    pub fn op_stx(&mut self)
        requires
            old(self).inv(),
        ensures
            final(self).inv(),
            *final(self) == apply_stx(*old(self)),
    {
        proof {
            reveal(crate::cpu::ops::op_apply);
        }
        self.set_opcode(Mnemonic::Stx);
        self.buffer = self.x;
    }

    /// Store Y.
    pub fn op_sty(&mut self)
        requires
            old(self).inv(),
        ensures
            final(self).inv(),
            *final(self) == apply_sty(*old(self)),
    {
        proof {
            reveal(crate::cpu::ops::op_apply);
        }
        self.set_opcode(Mnemonic::Sty);
        self.buffer = self.y;
    }

    /// Transfer accumulator to X.
    pub fn op_tax(&mut self)
        requires
            old(self).inv(),
        ensures
            final(self).inv(),
            *final(self) == apply_tax(*old(self)),
    {
        proof {
            reveal(crate::cpu::ops::op_apply);
        }
        self.set_opcode(Mnemonic::Tax);
        self.x = self.acc;
        let res = self.acc;
        self.update_nz_flags(res);
    }

    /// Transfer accumulator to Y.
    pub fn op_tay(&mut self)
        requires
            old(self).inv(),
        ensures
            final(self).inv(),
            *final(self) == apply_tay(*old(self)),
    {
        proof {
            reveal(crate::cpu::ops::op_apply);
        }
        self.set_opcode(Mnemonic::Tay);
        self.y = self.acc;
        let res = self.acc;
        self.update_nz_flags(res);
    }

    /// Transfer stack pointer to X.
    pub fn op_tsx(&mut self)
        requires
            old(self).inv(),
        ensures
            final(self).inv(),
            *final(self) == apply_tsx(*old(self)),
    {
        proof {
            reveal(crate::cpu::ops::op_apply);
        }
        self.set_opcode(Mnemonic::Tsx);
        self.x = self.sp;
        let res = self.sp;
        self.update_nz_flags(res);
    }

    /// Transfer X to accumulator.
    pub fn op_txa(&mut self)
        requires
            old(self).inv(),
        ensures
            final(self).inv(),
            *final(self) == apply_txa(*old(self)),
    {
        proof {
            reveal(crate::cpu::ops::op_apply);
        }
        self.set_opcode(Mnemonic::Txa);
        self.acc = self.x;
        let res = self.x;
        self.update_nz_flags(res);
    }

    /// Transfer X to stack pointer.
    pub fn op_txs(&mut self)
        requires
            old(self).inv(),
        ensures
            final(self).inv(),
            *final(self) == apply_txs(*old(self)),
    {
        proof {
            reveal(crate::cpu::ops::op_apply);
        }
        self.set_opcode(Mnemonic::Txs);
        self.sp = self.x;
        let res = self.x;
        self.update_nz_flags(res);
    }

    /// Transfer Y to accumulator.
    pub fn op_tya(&mut self)
        requires
            old(self).inv(),
        ensures
            final(self).inv(),
            *final(self) == apply_tya(*old(self)),
    {
        proof {
            reveal(crate::cpu::ops::op_apply);
        }
        self.set_opcode(Mnemonic::Tya);
        self.acc = self.y;
        let res = self.y;
        self.update_nz_flags(res);
    }

    /// No operation.
    pub fn op_nop(&mut self)
        requires
            old(self).inv(),
        ensures
            final(self).inv(),
            *final(self) == op_apply(Op::Nop, *old(self)),
    {
        proof {
            reveal(crate::cpu::ops::op_apply);
        }
        self.set_opcode(Mnemonic::Nop);
    }

    /// Runs one pure operation, dispatching to its procedure. Exactly the
    /// decimal-mode add and subtract fault; every other operation succeeds
    /// and transforms the engine as [`op_apply`] says.
    pub fn apply_op(&mut self, op: Op) -> (r: Result<(), Fault>)
        requires
            old(self).inv(),
        ensures
            final(self).inv(),
            if op_faults(op, *old(self)) {
                r == Err::<(), Fault>(Fault::DecimalMode) && *final(self) == *old(self)
            } else {
                r == Ok::<(), Fault>(()) && *final(self) == op_apply(op, *old(self))
            },
    {
        proof {
            reveal(crate::cpu::ops::op_apply);
        }
        match op {
            Op::Adc => self.op_adc(),
            Op::Sbc => self.op_sbc(),
            Op::And => {
                self.op_and();
                Ok(())
            },
            Op::Ora => {
                self.op_ora();
                Ok(())
            },
            Op::Eor => {
                self.op_eor();
                Ok(())
            },
            Op::Asl => {
                self.op_asl();
                Ok(())
            },
            Op::Lsr => {
                self.op_lsr();
                Ok(())
            },
            Op::Rol => {
                self.op_rol();
                Ok(())
            },
            Op::Ror => {
                self.op_ror();
                Ok(())
            },
            Op::Bit => {
                self.op_bit();
                Ok(())
            },
            Op::Cmp => {
                self.op_cmp();
                Ok(())
            },
            Op::Cpx => {
                self.op_cpx();
                Ok(())
            },
            Op::Cpy => {
                self.op_cpy();
                Ok(())
            },
            Op::Dec => {
                self.op_dec();
                Ok(())
            },
            Op::Inc => {
                self.op_inc();
                Ok(())
            },
            Op::Dex => {
                self.op_dex();
                Ok(())
            },
            Op::Dey => {
                self.op_dey();
                Ok(())
            },
            Op::Inx => {
                self.op_inx();
                Ok(())
            },
            Op::Iny => {
                self.op_iny();
                Ok(())
            },
            Op::Lda => {
                self.op_lda();
                Ok(())
            },
            Op::Ldx => {
                self.op_ldx();
                Ok(())
            },
            Op::Ldy => {
                self.op_ldy();
                Ok(())
            },
            Op::Sta => {
                self.op_sta();
                Ok(())
            },
            Op::Stx => {
                self.op_stx();
                Ok(())
            },
            Op::Sty => {
                self.op_sty();
                Ok(())
            },
            Op::Tax => {
                self.op_tax();
                Ok(())
            },
            Op::Tay => {
                self.op_tay();
                Ok(())
            },
            Op::Tsx => {
                self.op_tsx();
                Ok(())
            },
            Op::Txa => {
                self.op_txa();
                Ok(())
            },
            Op::Txs => {
                self.op_txs();
                Ok(())
            },
            Op::Tya => {
                self.op_tya();
                Ok(())
            },
            Op::Nop => {
                self.op_nop();
                Ok(())
            },
            Op::Clc => {
                self.op_clc();
                Ok(())
            },
            Op::Cld => {
                self.op_cld();
                Ok(())
            },
            Op::Cli => {
                self.op_cli();
                Ok(())
            },
            Op::Clv => {
                self.op_clv();
                Ok(())
            },
            Op::Sec => {
                self.op_sec();
                Ok(())
            },
            Op::Sed => {
                self.op_sed();
                Ok(())
            },
            Op::Sei => {
                self.op_sei();
                Ok(())
            },
            Op::Bcc => {
                self.op_bcc();
                Ok(())
            },
            Op::Bcs => {
                self.op_bcs();
                Ok(())
            },
            Op::Beq => {
                self.op_beq();
                Ok(())
            },
            Op::Bne => {
                self.op_bne();
                Ok(())
            },
            Op::Bmi => {
                self.op_bmi();
                Ok(())
            },
            Op::Bpl => {
                self.op_bpl();
                Ok(())
            },
            Op::Bvc => {
                self.op_bvc();
                Ok(())
            },
            Op::Bvs => {
                self.op_bvs();
                Ok(())
            },
        }
    }

    /// Clear carry.
    pub fn op_clc(&mut self)
        requires
            old(self).inv(),
        ensures
            final(self).inv(),
            *final(self) == op_apply(Op::Clc, *old(self)),
    {
        proof {
            reveal(crate::cpu::ops::op_apply);
        }
        self.set_opcode(Mnemonic::Clc);
        self.status.c = 0;
    }

    /// Clear decimal.
    pub fn op_cld(&mut self)
        requires
            old(self).inv(),
        ensures
            final(self).inv(),
            *final(self) == op_apply(Op::Cld, *old(self)),
    {
        proof {
            reveal(crate::cpu::ops::op_apply);
        }
        self.set_opcode(Mnemonic::Cld);
        self.status.d = 0;
    }

    /// Clear interrupt disable.
    pub fn op_cli(&mut self)
        requires
            old(self).inv(),
        ensures
            final(self).inv(),
            *final(self) == op_apply(Op::Cli, *old(self)),
    {
        proof {
            reveal(crate::cpu::ops::op_apply);
        }
        self.set_opcode(Mnemonic::Cli);
        self.status.i = 0;
    }

    /// Clear overflow.
    pub fn op_clv(&mut self)
        requires
            old(self).inv(),
        ensures
            final(self).inv(),
            *final(self) == op_apply(Op::Clv, *old(self)),
    {
        proof {
            reveal(crate::cpu::ops::op_apply);
        }
        self.set_opcode(Mnemonic::Clv);
        self.status.v = 0;
    }

    /// Set carry.
    pub fn op_sec(&mut self)
        requires
            old(self).inv(),
        ensures
            final(self).inv(),
            *final(self) == op_apply(Op::Sec, *old(self)),
    {
        proof {
            reveal(crate::cpu::ops::op_apply);
        }
        self.set_opcode(Mnemonic::Sec);
        self.status.c = 1;
    }

    /// Set decimal.
    pub fn op_sed(&mut self)
        requires
            old(self).inv(),
        ensures
            final(self).inv(),
            *final(self) == op_apply(Op::Sed, *old(self)),
    {
        proof {
            reveal(crate::cpu::ops::op_apply);
        }
        self.set_opcode(Mnemonic::Sed);
        self.status.d = 1;
    }

    /// Set interrupt disable.
    pub fn op_sei(&mut self)
        requires
            old(self).inv(),
        ensures
            final(self).inv(),
            *final(self) == op_apply(Op::Sei, *old(self)),
    {
        proof {
            reveal(crate::cpu::ops::op_apply);
        }
        self.set_opcode(Mnemonic::Sei);
        self.status.i = 1;
    }

    /// Branch if carry clear.
    pub fn op_bcc(&mut self)
        requires
            old(self).inv(),
        ensures
            final(self).inv(),
            *final(self) == op_apply(Op::Bcc, *old(self)),
    {
        proof {
            reveal(crate::cpu::ops::op_apply);
        }
        self.set_opcode(Mnemonic::Bcc);
        self.take_branch = self.status.c == 0;
    }

    /// Branch if carry set.
    pub fn op_bcs(&mut self)
        requires
            old(self).inv(),
        ensures
            final(self).inv(),
            *final(self) == op_apply(Op::Bcs, *old(self)),
    {
        proof {
            reveal(crate::cpu::ops::op_apply);
        }
        self.set_opcode(Mnemonic::Bcs);
        self.take_branch = self.status.c == 1;
    }

    /// Branch if equal (zero set).
    pub fn op_beq(&mut self)
        requires
            old(self).inv(),
        ensures
            final(self).inv(),
            *final(self) == op_apply(Op::Beq, *old(self)),
    {
        proof {
            reveal(crate::cpu::ops::op_apply);
        }
        self.set_opcode(Mnemonic::Beq);
        self.take_branch = self.status.z == 1;
    }

    /// Branch if not equal (zero clear).
    pub fn op_bne(&mut self)
        requires
            old(self).inv(),
        ensures
            final(self).inv(),
            *final(self) == op_apply(Op::Bne, *old(self)),
    {
        proof {
            reveal(crate::cpu::ops::op_apply);
        }
        self.set_opcode(Mnemonic::Bne);
        self.take_branch = self.status.z == 0;
    }

    /// Branch if minus (negative set).
    pub fn op_bmi(&mut self)
        requires
            old(self).inv(),
        ensures
            final(self).inv(),
            *final(self) == op_apply(Op::Bmi, *old(self)),
    {
        proof {
            reveal(crate::cpu::ops::op_apply);
        }
        self.set_opcode(Mnemonic::Bmi);
        self.take_branch = self.status.n == 1;
    }

    /// Branch if plus (negative clear).
    pub fn op_bpl(&mut self)
        requires
            old(self).inv(),
        ensures
            final(self).inv(),
            *final(self) == op_apply(Op::Bpl, *old(self)),
    {
        proof {
            reveal(crate::cpu::ops::op_apply);
        }
        self.set_opcode(Mnemonic::Bpl);
        self.take_branch = self.status.n == 0;
    }

    /// Branch if overflow clear.
    pub fn op_bvc(&mut self)
        requires
            old(self).inv(),
        ensures
            final(self).inv(),
            *final(self) == op_apply(Op::Bvc, *old(self)),
    {
        proof {
            reveal(crate::cpu::ops::op_apply);
        }
        self.set_opcode(Mnemonic::Bvc);
        self.take_branch = self.status.v == 0;
    }

    /// Branch if overflow set.
    pub fn op_bvs(&mut self)
        requires
            old(self).inv(),
        ensures
            final(self).inv(),
            *final(self) == op_apply(Op::Bvs, *old(self)),
    {
        proof {
            reveal(crate::cpu::ops::op_apply);
        }
        self.set_opcode(Mnemonic::Bvs);
        self.take_branch = self.status.v == 1;
    }
}

} // verus!
