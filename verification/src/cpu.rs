//! The execution engine: architectural registers, the status register, the
//! transient operand scratch byte, and the instruction stepper.
//!
//! One [`CPU6502::tick`] call runs one instruction: it fetches the opcode
//! byte through the bus, decodes it to an (addressing mode, operation) pair
//! through a flat table, and executes the pair. The addressing-mode procedure
//! fetches operand bytes, computes the effective address, charges the mode's
//! base cycle cost plus the page-crossing penalty where the mode reads
//! through an index, fills the operand scratch, and commits the scratch back
//! to the bus for write and read-modify-write modes; the operation procedure
//! touches only the scratch and the registers and is reused verbatim across
//! every mode that supports it.

use vstd::prelude::*;
use crate::bus::Bus;
use crate::mapper::Mapper;
use crate::status::StatusRegister;

pub mod ops;
pub mod modes;
pub mod laws;

verus! {

/// An explicit fault surfaced to the caller of `tick` instead of a crash.
#[derive(Clone, Copy, PartialEq, Eq, Structural, Debug)]
pub enum Fault {
    /// A read reached an address its decoded device does not implement.
    Unmapped(u16),
    /// An add-with-carry or subtract-with-carry was decoded while the decimal
    /// flag was set; decimal-mode arithmetic is explicitly unsupported.
    DecimalMode,
}

/// The mnemonic of the last executed instruction, kept as a diagnostic.
#[derive(Clone, Copy, PartialEq, Eq, Structural, Debug)]
pub enum Mnemonic {
    Adc, And, Asl, Bcc, Bcs, Beq, Bit, Bmi, Bne, Bpl, Brk, Bvc, Bvs,
    Clc, Cld, Cli, Clv, Cmp, Cpx, Cpy, Dec, Dex, Dey, Eor, Inc, Inx,
    Iny, Jmp, Jsr, Lda, Ldx, Ldy, Lsr, Nop, Ora, Pha, Php, Pla, Plp,
    Rol, Ror, Rti, Rts, Sbc, Sec, Sed, Sei, Sta, Stx, Sty, Tax, Tay,
    Tsx, Txa, Txs, Tya,
    /// No instruction has executed yet.
    Unset,
}

/// An operation that reads and writes only the operand scratch and the
/// architectural registers, reusable across every addressing mode that
/// supports it.
#[derive(Clone, Copy, PartialEq, Eq, Structural, Debug)]
pub enum Op {
    Adc, And, Asl, Bcc, Bcs, Beq, Bit, Bmi, Bne, Bpl, Bvc, Bvs,
    Clc, Cld, Cli, Clv, Cmp, Cpx, Cpy, Dec, Dex, Dey, Eor, Inc, Inx,
    Iny, Lda, Ldx, Ldy, Lsr, Nop, Ora, Rol, Ror, Sbc, Sec, Sed, Sei,
    Sta, Stx, Sty, Tax, Tay, Tsx, Txa, Txs, Tya,
}

/// An addressing mode: how an instruction's operand location, cycle cost and
/// commit behaviour are computed, independent of what the operation does.
/// `...Rmw` variants read the operand, run the operation, and write the
/// scratch back to the same address; `...Write` variants run the operation
/// first and store the scratch it produced.
#[derive(Clone, Copy, PartialEq, Eq, Structural, Debug)]
pub enum AddrMode {
    Implied,
    Accumulator,
    Immediate,
    Relative,
    ZeroPage,
    ZeroPageRmw,
    ZeroPageWrite,
    ZeroPageX,
    ZeroPageXRmw,
    ZeroPageXWrite,
    ZeroPageY,
    ZeroPageYWrite,
    IndexedIndirect,
    IndexedIndirectWrite,
    IndirectIndexed,
    IndirectIndexedWrite,
    Absolute,
    AbsoluteRmw,
    AbsoluteWrite,
    AbsoluteX,
    AbsoluteXRmw,
    AbsoluteXWrite,
    AbsoluteY,
    AbsoluteYWrite,
}

/// A control-flow or stack instruction, executed by a dedicated procedure
/// because it touches the bus beyond the operand scratch protocol.
#[derive(Clone, Copy, PartialEq, Eq, Structural, Debug)]
pub enum FlowKind {
    Brk, Php, Pha, Plp, Pla, Rti, Rts, Jsr, JmpAbsolute, JmpIndirect,
}

/// One entry of the opcode table.
#[derive(Clone, Copy, PartialEq, Eq, Structural, Debug)]
pub enum Decoded {
    /// An (addressing mode, operation) pair.
    Inst(AddrMode, Op),
    /// A control-flow or stack instruction.
    Flow(FlowKind),
    /// An opcode outside the documented table: treated as an inert no-op
    /// whose fetch is still consumed and charged.
    Illegal,
}

/// The execution engine. All fields are readable as the diagnostic snapshot;
/// `buffer`, `cycles` and `take_branch` are transient working state, valid
/// only for the duration of one `tick` call.
pub struct CPU6502 {
    /// Program counter; wraps modulo 65536.
    pub pc: u16,
    /// The operand scratch byte: written by the addressing mode, consumed and
    /// possibly replaced by the operation, committed back by write and
    /// read-modify-write modes. Not meaningful between steps.
    pub buffer: u8,
    /// Accumulator.
    pub acc: u8,
    /// Index register X.
    pub x: u8,
    /// Index register Y.
    pub y: u8,
    /// The condition flags.
    pub status: StatusRegister,
    /// Stack pointer, dereferenced as `0x0100 + sp`; wraps at the 8-bit
    /// boundary.
    pub sp: u8,
    /// Cycles charged by the current step; reset at the start of every
    /// `tick`, not a running total.
    pub cycles: u64,
    /// Mnemonic of the last executed instruction.
    pub opcode: Mnemonic,
    /// A branch operation's decision, consumed by the relative addressing
    /// mode and reset before the step ends.
    pub take_branch: bool,
}

/// The 16-bit value with high byte `h` and low byte `l`.
pub open spec fn join16(h: u8, l: u8) -> u16 {
    ((h as u16) * 256 + (l as u16)) as u16
}

/// Where the stack slot for stack pointer `sp` lives in RAM.
pub open spec fn stack_idx(sp: u8) -> int {
    0x100 + sp as int
}

/// The N flag produced by a result byte: its top bit.
pub open spec fn n_of(data: u8) -> u8 {
    data / 128
}

/// The Z flag produced by a result byte: one exactly when the byte is zero.
pub open spec fn z_of(data: u8) -> u8 {
    if data == 0 {
        1u8
    } else {
        0u8
    }
}

/// `c` with the N and Z flags recomputed from `data`.
pub open spec fn with_nz(c: CPU6502, data: u8) -> CPU6502 {
    CPU6502 { status: StatusRegister { n: n_of(data), z: z_of(data), ..c.status }, ..c }
}

/// Whether adding the 8-bit index to `base` leaves the 256-byte page of
/// `base`'s low half, which charges indexed read modes one extra cycle.
pub open spec fn page_crossed(base: u16, idx: u8) -> bool {
    base % 256 + idx >= 256
}

impl CPU6502 {
    /// The engine's invariant: the flags are single bits.
    pub open spec fn inv(&self) -> bool {
        self.status.wf()
    }

    /// A fresh engine: all registers, flags and counters zero.
    pub fn new() -> (c: CPU6502)
        ensures
            c == (CPU6502 {
                pc: 0,
                buffer: 0,
                acc: 0,
                x: 0,
                y: 0,
                status: StatusRegister { n: 0, v: 0, d: 0, i: 0, z: 0, c: 0 },
                sp: 0,
                cycles: 0,
                opcode: Mnemonic::Unset,
                take_branch: false,
            }),
            c.inv(),
    {
        CPU6502 {
            pc: 0,
            buffer: 0,
            acc: 0,
            x: 0,
            y: 0,
            status: StatusRegister::new(),
            sp: 0,
            cycles: 0,
            opcode: Mnemonic::Unset,
            take_branch: false,
        }
    }

    /// Records the mnemonic of the instruction being executed.
    fn set_opcode(&mut self, m: Mnemonic)
        ensures
            *final(self) == (CPU6502 { opcode: m, ..*old(self) }),
    {
        self.opcode = m;
    }

    /// Recomputes the N and Z flags from a result byte.
    fn update_nz_flags(&mut self, data: u8)
        ensures
            *final(self) == with_nz(*old(self), data),
    {
        self.status.n = data / 128;
        self.status.z = if data == 0 {
            1
        } else {
            0
        };
    }

    /// Reads the byte at the program counter and advances it by one, wrapping
    /// modulo 65536. The counter does not move when the read faults.
    fn pc_read<C: Mapper, P: Mapper>(&mut self, bus: &Bus<C, P>) -> (r: Result<u8, Fault>)
        requires
            bus.wf(),
        ensures
            match bus.read_spec(old(self).pc) {
                Some(b) => r == Ok::<u8, Fault>(b) && *final(self) == (CPU6502 {
                    pc: old(self).pc.wrapping_add(1),
                    ..*old(self)
                }),
                None => r == Err::<u8, Fault>(Fault::Unmapped(old(self).pc)) && *final(self)
                    == *old(self),
            },
    {
        match bus.read(self.pc) {
            Some(b) => {
                let pc0 = self.pc;
                self.pc = pc0.wrapping_add(1);
                Ok(b)
            },
            None => Err(Fault::Unmapped(self.pc)),
        }
    }

    /// Pushes one byte: writes it at `0x0100 + sp`, then decrements the stack
    /// pointer, wrapping at the 8-bit boundary.
    fn push<C: Mapper, P: Mapper>(&mut self, bus: &mut Bus<C, P>, data: u8)
        requires
            old(bus).wf(),
        ensures
            final(bus).wf(),
            *final(self) == (CPU6502 { sp: old(self).sp.wrapping_sub(1), ..*old(self) }),
            final(bus).memory@ == old(bus).memory@.update(stack_idx(old(self).sp), data),
            final(bus).cart == old(bus).cart,
            final(bus).ppu == old(bus).ppu,
    {
        let adr: u16 = 0x0100 + (self.sp as u16);
        bus.write(adr, data);
        self.sp = self.sp.wrapping_sub(1);
    }

    /// Pops one byte: increments the stack pointer, wrapping at the 8-bit
    /// boundary, then reads `0x0100 + sp`. Stack slots live in RAM, so a pop
    /// never faults.
    fn pop<C: Mapper, P: Mapper>(&mut self, bus: &Bus<C, P>) -> (r: u8)
        requires
            bus.wf(),
        ensures
            *final(self) == (CPU6502 { sp: old(self).sp.wrapping_add(1), ..*old(self) }),
            r == bus.memory@[stack_idx(old(self).sp.wrapping_add(1))],
    {
        self.sp = self.sp.wrapping_add(1);
        let adr: u16 = 0x0100 + (self.sp as u16);
        match bus.read(adr) {
            Some(b) => b,
            None => 0,
        }
    }

    /// Adds an 8-bit index to a base address, wrapping modulo 65536, and
    /// charges one extra cycle when the sum leaves the base's 256-byte page.
    fn handle_page_cross(&mut self, adr: u16, data: u8) -> (r: u16)
        requires
            old(self).cycles < 100,
        ensures
            r == adr.wrapping_add(data as u16),
            *final(self) == (CPU6502 {
                cycles: if page_crossed(adr, data) {
                    (old(self).cycles + 1) as u64
                } else {
                    old(self).cycles
                },
                ..*old(self)
            }),
    {
        if adr % 256 + (data as u16) >= 256 {
            self.cycles = self.cycles + 1;
        }
        adr.wrapping_add(data as u16)
    }
}

/// Joins a high and a low byte into the 16-bit value they spell.
pub fn to16(h: u8, l: u8) -> (r: u16)
    ensures
        r == join16(h, l),
{
    (h as u16) * 256 + (l as u16)
}

/// The opcode table: which (addressing mode, operation) pair or control-flow
/// instruction each opcode byte names. Bytes outside the documented legal set
/// decode to [`Decoded::Illegal`]. Kept opaque so that reasoning about a step
/// does not unfold the whole table; [`decode_op`] is its executable form.
#[verifier::opaque]
pub open spec fn decode(opb: u8) -> Decoded {
    match opb {
        0x00 => Decoded::Flow(FlowKind::Brk),
        0x01 => Decoded::Inst(AddrMode::IndexedIndirect, Op::Ora),
        0x05 => Decoded::Inst(AddrMode::ZeroPage, Op::Ora),
        0x06 => Decoded::Inst(AddrMode::ZeroPageRmw, Op::Asl),
        0x08 => Decoded::Flow(FlowKind::Php),
        0x09 => Decoded::Inst(AddrMode::Immediate, Op::Ora),
        0x0A => Decoded::Inst(AddrMode::Accumulator, Op::Asl),
        0x0D => Decoded::Inst(AddrMode::Absolute, Op::Ora),
        0x0E => Decoded::Inst(AddrMode::AbsoluteRmw, Op::Asl),
        0x10 => Decoded::Inst(AddrMode::Relative, Op::Bpl),
        0x11 => Decoded::Inst(AddrMode::IndirectIndexed, Op::Ora),
        0x15 => Decoded::Inst(AddrMode::ZeroPageX, Op::Ora),
        0x16 => Decoded::Inst(AddrMode::ZeroPageXRmw, Op::Asl),
        0x18 => Decoded::Inst(AddrMode::Implied, Op::Clc),
        0x19 => Decoded::Inst(AddrMode::AbsoluteY, Op::Ora),
        0x1D => Decoded::Inst(AddrMode::AbsoluteX, Op::Ora),
        0x1E => Decoded::Inst(AddrMode::AbsoluteXRmw, Op::Asl),
        0x20 => Decoded::Flow(FlowKind::Jsr),
        0x21 => Decoded::Inst(AddrMode::IndexedIndirect, Op::And),
        0x24 => Decoded::Inst(AddrMode::ZeroPage, Op::Bit),
        0x25 => Decoded::Inst(AddrMode::ZeroPage, Op::And),
        0x26 => Decoded::Inst(AddrMode::ZeroPageRmw, Op::Rol),
        0x28 => Decoded::Flow(FlowKind::Plp),
        0x29 => Decoded::Inst(AddrMode::Immediate, Op::And),
        0x2A => Decoded::Inst(AddrMode::Accumulator, Op::Rol),
        0x2C => Decoded::Inst(AddrMode::Absolute, Op::Bit),
        0x2D => Decoded::Inst(AddrMode::Absolute, Op::And),
        0x2E => Decoded::Inst(AddrMode::AbsoluteRmw, Op::Rol),
        0x30 => Decoded::Inst(AddrMode::Relative, Op::Bmi),
        0x31 => Decoded::Inst(AddrMode::IndirectIndexed, Op::And),
        0x35 => Decoded::Inst(AddrMode::ZeroPageX, Op::And),
        0x36 => Decoded::Inst(AddrMode::ZeroPageXRmw, Op::Rol),
        0x38 => Decoded::Inst(AddrMode::Implied, Op::Sec),
        0x39 => Decoded::Inst(AddrMode::AbsoluteY, Op::And),
        0x3D => Decoded::Inst(AddrMode::AbsoluteX, Op::And),
        0x3E => Decoded::Inst(AddrMode::AbsoluteXRmw, Op::Rol),
        0x40 => Decoded::Flow(FlowKind::Rti),
        0x41 => Decoded::Inst(AddrMode::IndexedIndirect, Op::Eor),
        0x45 => Decoded::Inst(AddrMode::ZeroPage, Op::Eor),
        0x46 => Decoded::Inst(AddrMode::ZeroPageRmw, Op::Lsr),
        0x48 => Decoded::Flow(FlowKind::Pha),
        0x49 => Decoded::Inst(AddrMode::Immediate, Op::Eor),
        0x4A => Decoded::Inst(AddrMode::Accumulator, Op::Lsr),
        0x4C => Decoded::Flow(FlowKind::JmpAbsolute),
        0x4D => Decoded::Inst(AddrMode::Absolute, Op::Eor),
        0x4E => Decoded::Inst(AddrMode::AbsoluteRmw, Op::Lsr),
        0x50 => Decoded::Inst(AddrMode::Relative, Op::Bvc),
        0x51 => Decoded::Inst(AddrMode::IndirectIndexed, Op::Eor),
        0x55 => Decoded::Inst(AddrMode::ZeroPageX, Op::Eor),
        0x56 => Decoded::Inst(AddrMode::ZeroPageXRmw, Op::Lsr),
        0x58 => Decoded::Inst(AddrMode::Implied, Op::Cli),
        0x59 => Decoded::Inst(AddrMode::AbsoluteY, Op::Eor),
        0x5D => Decoded::Inst(AddrMode::AbsoluteX, Op::Eor),
        0x5E => Decoded::Inst(AddrMode::AbsoluteXRmw, Op::Lsr),
        0x60 => Decoded::Flow(FlowKind::Rts),
        0x61 => Decoded::Inst(AddrMode::IndexedIndirect, Op::Adc),
        0x65 => Decoded::Inst(AddrMode::ZeroPage, Op::Adc),
        0x66 => Decoded::Inst(AddrMode::ZeroPageRmw, Op::Ror),
        0x68 => Decoded::Flow(FlowKind::Pla),
        0x69 => Decoded::Inst(AddrMode::Immediate, Op::Adc),
        0x6A => Decoded::Inst(AddrMode::Accumulator, Op::Ror),
        0x6C => Decoded::Flow(FlowKind::JmpIndirect),
        0x6D => Decoded::Inst(AddrMode::Absolute, Op::Adc),
        0x6E => Decoded::Inst(AddrMode::AbsoluteRmw, Op::Ror),
        0x70 => Decoded::Inst(AddrMode::Relative, Op::Bvs),
        0x71 => Decoded::Inst(AddrMode::IndirectIndexed, Op::Adc),
        0x75 => Decoded::Inst(AddrMode::ZeroPageX, Op::Adc),
        0x76 => Decoded::Inst(AddrMode::ZeroPageXRmw, Op::Ror),
        0x78 => Decoded::Inst(AddrMode::Implied, Op::Sei),
        0x79 => Decoded::Inst(AddrMode::AbsoluteY, Op::Adc),
        0x7D => Decoded::Inst(AddrMode::AbsoluteX, Op::Adc),
        0x7E => Decoded::Inst(AddrMode::AbsoluteXRmw, Op::Ror),
        0x81 => Decoded::Inst(AddrMode::IndexedIndirectWrite, Op::Sta),
        0x84 => Decoded::Inst(AddrMode::ZeroPageWrite, Op::Sty),
        0x85 => Decoded::Inst(AddrMode::ZeroPageWrite, Op::Sta),
        0x86 => Decoded::Inst(AddrMode::ZeroPageWrite, Op::Stx),
        0x88 => Decoded::Inst(AddrMode::Implied, Op::Dey),
        0x8A => Decoded::Inst(AddrMode::Implied, Op::Txa),
        0x8C => Decoded::Inst(AddrMode::AbsoluteWrite, Op::Sty),
        0x8D => Decoded::Inst(AddrMode::AbsoluteWrite, Op::Sta),
        0x8E => Decoded::Inst(AddrMode::AbsoluteWrite, Op::Stx),
        0x90 => Decoded::Inst(AddrMode::Relative, Op::Bcc),
        0x91 => Decoded::Inst(AddrMode::IndirectIndexedWrite, Op::Sta),
        0x94 => Decoded::Inst(AddrMode::ZeroPageXWrite, Op::Sty),
        0x95 => Decoded::Inst(AddrMode::ZeroPageXWrite, Op::Sta),
        0x96 => Decoded::Inst(AddrMode::ZeroPageYWrite, Op::Stx),
        0x98 => Decoded::Inst(AddrMode::Implied, Op::Tya),
        0x99 => Decoded::Inst(AddrMode::AbsoluteYWrite, Op::Sta),
        0x9A => Decoded::Inst(AddrMode::Implied, Op::Txs),
        0x9D => Decoded::Inst(AddrMode::AbsoluteXWrite, Op::Sta),
        0xA0 => Decoded::Inst(AddrMode::Immediate, Op::Ldy),
        0xA1 => Decoded::Inst(AddrMode::IndexedIndirect, Op::Lda),
        0xA2 => Decoded::Inst(AddrMode::Immediate, Op::Ldx),
        0xA4 => Decoded::Inst(AddrMode::ZeroPage, Op::Ldy),
        0xA5 => Decoded::Inst(AddrMode::ZeroPage, Op::Lda),
        0xA6 => Decoded::Inst(AddrMode::ZeroPage, Op::Ldx),
        0xA8 => Decoded::Inst(AddrMode::Implied, Op::Tay),
        0xA9 => Decoded::Inst(AddrMode::Immediate, Op::Lda),
        0xAA => Decoded::Inst(AddrMode::Implied, Op::Tax),
        0xAC => Decoded::Inst(AddrMode::Absolute, Op::Ldy),
        0xAD => Decoded::Inst(AddrMode::Absolute, Op::Lda),
        0xAE => Decoded::Inst(AddrMode::Absolute, Op::Ldx),
        0xB0 => Decoded::Inst(AddrMode::Relative, Op::Bcs),
        0xB1 => Decoded::Inst(AddrMode::IndirectIndexed, Op::Lda),
        0xB4 => Decoded::Inst(AddrMode::ZeroPageX, Op::Ldy),
        0xB5 => Decoded::Inst(AddrMode::ZeroPageX, Op::Lda),
        0xB6 => Decoded::Inst(AddrMode::ZeroPageY, Op::Ldx),
        0xB8 => Decoded::Inst(AddrMode::Implied, Op::Clv),
        0xB9 => Decoded::Inst(AddrMode::AbsoluteY, Op::Lda),
        0xBA => Decoded::Inst(AddrMode::Implied, Op::Tsx),
        0xBC => Decoded::Inst(AddrMode::AbsoluteX, Op::Ldy),
        0xBD => Decoded::Inst(AddrMode::AbsoluteX, Op::Lda),
        0xBE => Decoded::Inst(AddrMode::AbsoluteY, Op::Ldx),
        0xC0 => Decoded::Inst(AddrMode::Immediate, Op::Cpy),
        0xC1 => Decoded::Inst(AddrMode::IndexedIndirect, Op::Cmp),
        0xC4 => Decoded::Inst(AddrMode::ZeroPage, Op::Cpy),
        0xC5 => Decoded::Inst(AddrMode::ZeroPage, Op::Cmp),
        0xC6 => Decoded::Inst(AddrMode::ZeroPageRmw, Op::Dec),
        0xC8 => Decoded::Inst(AddrMode::Implied, Op::Iny),
        0xC9 => Decoded::Inst(AddrMode::Immediate, Op::Cmp),
        0xCA => Decoded::Inst(AddrMode::Implied, Op::Dex),
        0xCC => Decoded::Inst(AddrMode::Absolute, Op::Cpy),
        0xCD => Decoded::Inst(AddrMode::Absolute, Op::Cmp),
        0xCE => Decoded::Inst(AddrMode::AbsoluteRmw, Op::Dec),
        0xD0 => Decoded::Inst(AddrMode::Relative, Op::Bne),
        0xD1 => Decoded::Inst(AddrMode::IndirectIndexed, Op::Cmp),
        0xD5 => Decoded::Inst(AddrMode::ZeroPageX, Op::Cmp),
        0xD6 => Decoded::Inst(AddrMode::ZeroPageXRmw, Op::Dec),
        0xD8 => Decoded::Inst(AddrMode::Implied, Op::Cld),
        0xD9 => Decoded::Inst(AddrMode::AbsoluteY, Op::Cmp),
        0xDD => Decoded::Inst(AddrMode::AbsoluteX, Op::Cmp),
        0xDE => Decoded::Inst(AddrMode::AbsoluteXRmw, Op::Dec),
        0xE0 => Decoded::Inst(AddrMode::Immediate, Op::Cpx),
        0xE1 => Decoded::Inst(AddrMode::IndexedIndirect, Op::Sbc),
        0xE4 => Decoded::Inst(AddrMode::ZeroPage, Op::Cpx),
        0xE5 => Decoded::Inst(AddrMode::ZeroPage, Op::Sbc),
        0xE6 => Decoded::Inst(AddrMode::ZeroPageRmw, Op::Inc),
        0xE8 => Decoded::Inst(AddrMode::Implied, Op::Inx),
        0xE9 => Decoded::Inst(AddrMode::Immediate, Op::Sbc),
        0xEA => Decoded::Inst(AddrMode::Implied, Op::Nop),
        0xEC => Decoded::Inst(AddrMode::Absolute, Op::Cpx),
        0xED => Decoded::Inst(AddrMode::Absolute, Op::Sbc),
        0xEE => Decoded::Inst(AddrMode::AbsoluteRmw, Op::Inc),
        0xF0 => Decoded::Inst(AddrMode::Relative, Op::Beq),
        0xF1 => Decoded::Inst(AddrMode::IndirectIndexed, Op::Sbc),
        0xF5 => Decoded::Inst(AddrMode::ZeroPageX, Op::Sbc),
        0xF6 => Decoded::Inst(AddrMode::ZeroPageXRmw, Op::Inc),
        0xF8 => Decoded::Inst(AddrMode::Implied, Op::Sed),
        0xF9 => Decoded::Inst(AddrMode::AbsoluteY, Op::Sbc),
        0xFD => Decoded::Inst(AddrMode::AbsoluteX, Op::Sbc),
        0xFE => Decoded::Inst(AddrMode::AbsoluteXRmw, Op::Inc),
        _ => Decoded::Illegal,
    }
}

/// The opcode table as executable code: returns exactly what [`decode`]
/// says.
#[verifier::rlimit(100)]
pub fn decode_op(opb: u8) -> (d: Decoded)
    ensures
        d == decode(opb),
{
    proof {
        reveal(crate::cpu::decode);
    }
    match opb {
        0x00 => Decoded::Flow(FlowKind::Brk),
        0x01 => Decoded::Inst(AddrMode::IndexedIndirect, Op::Ora),
        0x05 => Decoded::Inst(AddrMode::ZeroPage, Op::Ora),
        0x06 => Decoded::Inst(AddrMode::ZeroPageRmw, Op::Asl),
        0x08 => Decoded::Flow(FlowKind::Php),
        0x09 => Decoded::Inst(AddrMode::Immediate, Op::Ora),
        0x0A => Decoded::Inst(AddrMode::Accumulator, Op::Asl),
        0x0D => Decoded::Inst(AddrMode::Absolute, Op::Ora),
        0x0E => Decoded::Inst(AddrMode::AbsoluteRmw, Op::Asl),
        0x10 => Decoded::Inst(AddrMode::Relative, Op::Bpl),
        0x11 => Decoded::Inst(AddrMode::IndirectIndexed, Op::Ora),
        0x15 => Decoded::Inst(AddrMode::ZeroPageX, Op::Ora),
        0x16 => Decoded::Inst(AddrMode::ZeroPageXRmw, Op::Asl),
        0x18 => Decoded::Inst(AddrMode::Implied, Op::Clc),
        0x19 => Decoded::Inst(AddrMode::AbsoluteY, Op::Ora),
        0x1D => Decoded::Inst(AddrMode::AbsoluteX, Op::Ora),
        0x1E => Decoded::Inst(AddrMode::AbsoluteXRmw, Op::Asl),
        0x20 => Decoded::Flow(FlowKind::Jsr),
        0x21 => Decoded::Inst(AddrMode::IndexedIndirect, Op::And),
        0x24 => Decoded::Inst(AddrMode::ZeroPage, Op::Bit),
        0x25 => Decoded::Inst(AddrMode::ZeroPage, Op::And),
        0x26 => Decoded::Inst(AddrMode::ZeroPageRmw, Op::Rol),
        0x28 => Decoded::Flow(FlowKind::Plp),
        0x29 => Decoded::Inst(AddrMode::Immediate, Op::And),
        0x2A => Decoded::Inst(AddrMode::Accumulator, Op::Rol),
        0x2C => Decoded::Inst(AddrMode::Absolute, Op::Bit),
        0x2D => Decoded::Inst(AddrMode::Absolute, Op::And),
        0x2E => Decoded::Inst(AddrMode::AbsoluteRmw, Op::Rol),
        0x30 => Decoded::Inst(AddrMode::Relative, Op::Bmi),
        0x31 => Decoded::Inst(AddrMode::IndirectIndexed, Op::And),
        0x35 => Decoded::Inst(AddrMode::ZeroPageX, Op::And),
        0x36 => Decoded::Inst(AddrMode::ZeroPageXRmw, Op::Rol),
        0x38 => Decoded::Inst(AddrMode::Implied, Op::Sec),
        0x39 => Decoded::Inst(AddrMode::AbsoluteY, Op::And),
        0x3D => Decoded::Inst(AddrMode::AbsoluteX, Op::And),
        0x3E => Decoded::Inst(AddrMode::AbsoluteXRmw, Op::Rol),
        0x40 => Decoded::Flow(FlowKind::Rti),
        0x41 => Decoded::Inst(AddrMode::IndexedIndirect, Op::Eor),
        0x45 => Decoded::Inst(AddrMode::ZeroPage, Op::Eor),
        0x46 => Decoded::Inst(AddrMode::ZeroPageRmw, Op::Lsr),
        0x48 => Decoded::Flow(FlowKind::Pha),
        0x49 => Decoded::Inst(AddrMode::Immediate, Op::Eor),
        0x4A => Decoded::Inst(AddrMode::Accumulator, Op::Lsr),
        0x4C => Decoded::Flow(FlowKind::JmpAbsolute),
        0x4D => Decoded::Inst(AddrMode::Absolute, Op::Eor),
        0x4E => Decoded::Inst(AddrMode::AbsoluteRmw, Op::Lsr),
        0x50 => Decoded::Inst(AddrMode::Relative, Op::Bvc),
        0x51 => Decoded::Inst(AddrMode::IndirectIndexed, Op::Eor),
        0x55 => Decoded::Inst(AddrMode::ZeroPageX, Op::Eor),
        0x56 => Decoded::Inst(AddrMode::ZeroPageXRmw, Op::Lsr),
        0x58 => Decoded::Inst(AddrMode::Implied, Op::Cli),
        0x59 => Decoded::Inst(AddrMode::AbsoluteY, Op::Eor),
        0x5D => Decoded::Inst(AddrMode::AbsoluteX, Op::Eor),
        0x5E => Decoded::Inst(AddrMode::AbsoluteXRmw, Op::Lsr),
        0x60 => Decoded::Flow(FlowKind::Rts),
        0x61 => Decoded::Inst(AddrMode::IndexedIndirect, Op::Adc),
        0x65 => Decoded::Inst(AddrMode::ZeroPage, Op::Adc),
        0x66 => Decoded::Inst(AddrMode::ZeroPageRmw, Op::Ror),
        0x68 => Decoded::Flow(FlowKind::Pla),
        0x69 => Decoded::Inst(AddrMode::Immediate, Op::Adc),
        0x6A => Decoded::Inst(AddrMode::Accumulator, Op::Ror),
        0x6C => Decoded::Flow(FlowKind::JmpIndirect),
        0x6D => Decoded::Inst(AddrMode::Absolute, Op::Adc),
        0x6E => Decoded::Inst(AddrMode::AbsoluteRmw, Op::Ror),
        0x70 => Decoded::Inst(AddrMode::Relative, Op::Bvs),
        0x71 => Decoded::Inst(AddrMode::IndirectIndexed, Op::Adc),
        0x75 => Decoded::Inst(AddrMode::ZeroPageX, Op::Adc),
        0x76 => Decoded::Inst(AddrMode::ZeroPageXRmw, Op::Ror),
        0x78 => Decoded::Inst(AddrMode::Implied, Op::Sei),
        0x79 => Decoded::Inst(AddrMode::AbsoluteY, Op::Adc),
        0x7D => Decoded::Inst(AddrMode::AbsoluteX, Op::Adc),
        0x7E => Decoded::Inst(AddrMode::AbsoluteXRmw, Op::Ror),
        0x81 => Decoded::Inst(AddrMode::IndexedIndirectWrite, Op::Sta),
        0x84 => Decoded::Inst(AddrMode::ZeroPageWrite, Op::Sty),
        0x85 => Decoded::Inst(AddrMode::ZeroPageWrite, Op::Sta),
        0x86 => Decoded::Inst(AddrMode::ZeroPageWrite, Op::Stx),
        0x88 => Decoded::Inst(AddrMode::Implied, Op::Dey),
        0x8A => Decoded::Inst(AddrMode::Implied, Op::Txa),
        0x8C => Decoded::Inst(AddrMode::AbsoluteWrite, Op::Sty),
        0x8D => Decoded::Inst(AddrMode::AbsoluteWrite, Op::Sta),
        0x8E => Decoded::Inst(AddrMode::AbsoluteWrite, Op::Stx),
        0x90 => Decoded::Inst(AddrMode::Relative, Op::Bcc),
        0x91 => Decoded::Inst(AddrMode::IndirectIndexedWrite, Op::Sta),
        0x94 => Decoded::Inst(AddrMode::ZeroPageXWrite, Op::Sty),
        0x95 => Decoded::Inst(AddrMode::ZeroPageXWrite, Op::Sta),
        0x96 => Decoded::Inst(AddrMode::ZeroPageYWrite, Op::Stx),
        0x98 => Decoded::Inst(AddrMode::Implied, Op::Tya),
        0x99 => Decoded::Inst(AddrMode::AbsoluteYWrite, Op::Sta),
        0x9A => Decoded::Inst(AddrMode::Implied, Op::Txs),
        0x9D => Decoded::Inst(AddrMode::AbsoluteXWrite, Op::Sta),
        0xA0 => Decoded::Inst(AddrMode::Immediate, Op::Ldy),
        0xA1 => Decoded::Inst(AddrMode::IndexedIndirect, Op::Lda),
        0xA2 => Decoded::Inst(AddrMode::Immediate, Op::Ldx),
        0xA4 => Decoded::Inst(AddrMode::ZeroPage, Op::Ldy),
        0xA5 => Decoded::Inst(AddrMode::ZeroPage, Op::Lda),
        0xA6 => Decoded::Inst(AddrMode::ZeroPage, Op::Ldx),
        0xA8 => Decoded::Inst(AddrMode::Implied, Op::Tay),
        0xA9 => Decoded::Inst(AddrMode::Immediate, Op::Lda),
        0xAA => Decoded::Inst(AddrMode::Implied, Op::Tax),
        0xAC => Decoded::Inst(AddrMode::Absolute, Op::Ldy),
        0xAD => Decoded::Inst(AddrMode::Absolute, Op::Lda),
        0xAE => Decoded::Inst(AddrMode::Absolute, Op::Ldx),
        0xB0 => Decoded::Inst(AddrMode::Relative, Op::Bcs),
        0xB1 => Decoded::Inst(AddrMode::IndirectIndexed, Op::Lda),
        0xB4 => Decoded::Inst(AddrMode::ZeroPageX, Op::Ldy),
        0xB5 => Decoded::Inst(AddrMode::ZeroPageX, Op::Lda),
        0xB6 => Decoded::Inst(AddrMode::ZeroPageY, Op::Ldx),
        0xB8 => Decoded::Inst(AddrMode::Implied, Op::Clv),
        0xB9 => Decoded::Inst(AddrMode::AbsoluteY, Op::Lda),
        0xBA => Decoded::Inst(AddrMode::Implied, Op::Tsx),
        0xBC => Decoded::Inst(AddrMode::AbsoluteX, Op::Ldy),
        0xBD => Decoded::Inst(AddrMode::AbsoluteX, Op::Lda),
        0xBE => Decoded::Inst(AddrMode::AbsoluteY, Op::Ldx),
        0xC0 => Decoded::Inst(AddrMode::Immediate, Op::Cpy),
        0xC1 => Decoded::Inst(AddrMode::IndexedIndirect, Op::Cmp),
        0xC4 => Decoded::Inst(AddrMode::ZeroPage, Op::Cpy),
        0xC5 => Decoded::Inst(AddrMode::ZeroPage, Op::Cmp),
        0xC6 => Decoded::Inst(AddrMode::ZeroPageRmw, Op::Dec),
        0xC8 => Decoded::Inst(AddrMode::Implied, Op::Iny),
        0xC9 => Decoded::Inst(AddrMode::Immediate, Op::Cmp),
        0xCA => Decoded::Inst(AddrMode::Implied, Op::Dex),
        0xCC => Decoded::Inst(AddrMode::Absolute, Op::Cpy),
        0xCD => Decoded::Inst(AddrMode::Absolute, Op::Cmp),
        0xCE => Decoded::Inst(AddrMode::AbsoluteRmw, Op::Dec),
        0xD0 => Decoded::Inst(AddrMode::Relative, Op::Bne),
        0xD1 => Decoded::Inst(AddrMode::IndirectIndexed, Op::Cmp),
        0xD5 => Decoded::Inst(AddrMode::ZeroPageX, Op::Cmp),
        0xD6 => Decoded::Inst(AddrMode::ZeroPageXRmw, Op::Dec),
        0xD8 => Decoded::Inst(AddrMode::Implied, Op::Cld),
        0xD9 => Decoded::Inst(AddrMode::AbsoluteY, Op::Cmp),
        0xDD => Decoded::Inst(AddrMode::AbsoluteX, Op::Cmp),
        0xDE => Decoded::Inst(AddrMode::AbsoluteXRmw, Op::Dec),
        0xE0 => Decoded::Inst(AddrMode::Immediate, Op::Cpx),
        0xE1 => Decoded::Inst(AddrMode::IndexedIndirect, Op::Sbc),
        0xE4 => Decoded::Inst(AddrMode::ZeroPage, Op::Cpx),
        0xE5 => Decoded::Inst(AddrMode::ZeroPage, Op::Sbc),
        0xE6 => Decoded::Inst(AddrMode::ZeroPageRmw, Op::Inc),
        0xE8 => Decoded::Inst(AddrMode::Implied, Op::Inx),
        0xE9 => Decoded::Inst(AddrMode::Immediate, Op::Sbc),
        0xEA => Decoded::Inst(AddrMode::Implied, Op::Nop),
        0xEC => Decoded::Inst(AddrMode::Absolute, Op::Cpx),
        0xED => Decoded::Inst(AddrMode::Absolute, Op::Sbc),
        0xEE => Decoded::Inst(AddrMode::AbsoluteRmw, Op::Inc),
        0xF0 => Decoded::Inst(AddrMode::Relative, Op::Beq),
        0xF1 => Decoded::Inst(AddrMode::IndirectIndexed, Op::Sbc),
        0xF5 => Decoded::Inst(AddrMode::ZeroPageX, Op::Sbc),
        0xF6 => Decoded::Inst(AddrMode::ZeroPageXRmw, Op::Inc),
        0xF8 => Decoded::Inst(AddrMode::Implied, Op::Sed),
        0xF9 => Decoded::Inst(AddrMode::AbsoluteY, Op::Sbc),
        0xFD => Decoded::Inst(AddrMode::AbsoluteX, Op::Sbc),
        0xFE => Decoded::Inst(AddrMode::AbsoluteXRmw, Op::Inc),
        _ => Decoded::Illegal,
    }
}

/// How one `tick` call relates the engine and bus before and after: the
/// opcode byte at the program counter is fetched and consumed, the cycle
/// counter restarts, and the decoded instruction's own relation takes over.
/// An opcode outside the table is an inert no-op: its byte is consumed and
/// the one-cycle fetch is charged, nothing else changes. A fetch from an
/// unhandled address is reported and changes nothing else.
pub open spec fn step_rel<C: Mapper, P: Mapper>(
    c0: CPU6502,
    b0: Bus<C, P>,
    c1: CPU6502,
    b1: Bus<C, P>,
    r: Result<(), Fault>,
) -> bool {
    match b0.read_spec(c0.pc) {
        Some(opb) => {
            let c = CPU6502 { pc: c0.pc.wrapping_add(1), cycles: 0, ..c0 };
            match decode(opb) {
                Decoded::Inst(m, o) => crate::cpu::modes::inst_rel(m, o, c, b0, c1, b1, r),
                Decoded::Flow(f) => crate::cpu::modes::flow_rel(f, c, b0, c1, b1, r),
                Decoded::Illegal => r == Ok::<(), Fault>(()) && c1 == (CPU6502 {
                    cycles: 1,
                    ..c
                }) && b1 == b0,
            }
        },
        None => r == Err::<(), Fault>(Fault::Unmapped(c0.pc)) && c1 == (CPU6502 {
            cycles: 0,
            ..c0
        }) && b1 == b0,
    }
}

impl CPU6502 {
    /// Runs one instruction: resets the cycle counter, fetches the opcode
    /// byte through the bus, and executes the decoded (addressing mode,
    /// operation) pair or control-flow instruction. Everything it did is
    /// pinned down by [`step_rel`]; the cycles the step charged are left in
    /// `self.cycles`. An unrecognized opcode byte is treated as a
    /// charged-but-inert no-op: the byte is consumed, the one-cycle fetch is
    /// charged, and nothing else changes.
    pub fn tick<C: Mapper, P: Mapper>(&mut self, bus: &mut Bus<C, P>) -> (r: Result<(), Fault>)
        requires
            old(self).inv(),
            old(bus).wf(),
        ensures
            final(self).inv(),
            final(bus).wf(),
            step_rel(*old(self), *old(bus), *final(self), *final(bus), r),
    {
        self.cycles = 0;
        let opb = match self.pc_read(&*bus) {
            Ok(b) => b,
            Err(e) => {
                return Err(e);
            },
        };
        match decode_op(opb) {
            Decoded::Inst(m, o) => self.run_inst(bus, m, o),
            Decoded::Flow(f) => self.run_flow(bus, f),
            Decoded::Illegal => {
                self.cycles = 1;
                Ok(())
            },
        }
    }
}

} // verus!

