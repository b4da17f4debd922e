//! The processor status register: seven logical condition flags packed into
//! an 8-bit encoding with two fixed bits.
//!
//! Byte layout: bit 7 = N (negative), bit 6 = V (overflow), bit 5 = constant
//! one (unused), bit 4 = break flag (synthesized only when the status byte is
//! pushed to the stack, never held as live state), bit 3 = D (decimal),
//! bit 2 = I (interrupt disable), bit 1 = Z (zero), bit 0 = C (carry).

use vstd::prelude::*;

verus! {

/// The live condition flags, each stored as a 0/1 bit. The break flag is
/// write-only from the register's perspective and is not held here.
#[derive(Clone, Copy, PartialEq, Eq, Structural, Debug)]
pub struct StatusRegister {
    pub n: u8,
    pub v: u8,
    pub d: u8,
    pub i: u8,
    pub z: u8,
    pub c: u8,
}

impl StatusRegister {
    /// Every flag is a single bit.
    pub open spec fn wf(&self) -> bool {
        &&& self.n <= 1
        &&& self.v <= 1
        &&& self.d <= 1
        &&& self.i <= 1
        &&& self.z <= 1
        &&& self.c <= 1
    }

    /// The byte that packs N,V,1,1,D,I,Z,C at bits 7..0. Bits 5 and 4 are
    /// the constant-one bits of the encoding.
    pub open spec fn to_byte(&self) -> u8 {
        (self.n * 128 + self.v * 64 + 32 + 16 + self.d * 8 + self.i * 4 + self.z * 2
            + self.c) as u8
    }

    /// The flags restored from a byte: N,V,D,I,Z,C come from bits 7,6,3,2,1,0.
    /// Bits 5 and 4 of the incoming byte are never restored.
    pub open spec fn from_byte(data: u8) -> StatusRegister {
        StatusRegister {
            n: data / 128,
            v: (data / 64) % 2,
            d: (data / 8) % 2,
            i: (data / 4) % 2,
            z: (data / 2) % 2,
            c: data % 2,
        }
    }

    /// All flags clear.
    pub fn new() -> (s: StatusRegister)
        ensures
            s == (StatusRegister { n: 0, v: 0, d: 0, i: 0, z: 0, c: 0 }),
    {
        StatusRegister { n: 0, v: 0, d: 0, i: 0, z: 0, c: 0 }
    }

    /// Packs the flags into one byte. The break-flag position (bit 4) and the
    /// unused position (bit 5) are emitted as constant ones.
    pub fn as_u8(&self) -> (r: u8)
        requires
            self.wf(),
        ensures
            r == self.to_byte(),
    {
        self.n * 128 + self.v * 64 + 32 + 16 + self.d * 8 + self.i * 4 + self.z * 2 + self.c
    }

    /// Restores N,V,D,I,Z,C from bits 7,6,3,2,1,0 of `data`; bits 5 and 4 are
    /// ignored.
    pub fn from_u8(&mut self, data: u8)
        ensures
            *final(self) == StatusRegister::from_byte(data),
            final(self).wf(),
    {
        self.n = data / 128;
        self.v = (data / 64) % 2;
        self.d = (data / 8) % 2;
        self.i = (data / 4) % 2;
        self.z = (data / 2) % 2;
        self.c = data % 2;
    }
}

/// Round-trip law: packing the flags and restoring them reproduces
/// N,V,D,I,Z,C bit for bit, for every well-formed register. The break flag is
/// excluded from the round trip by design.
pub proof fn lemma_status_round_trip(s: StatusRegister)
    requires
        s.wf(),
    ensures
        StatusRegister::from_byte(s.to_byte()) == s,
{
    let b = s.to_byte();
    assert(b == s.n * 128 + s.v * 64 + 32 + 16 + s.d * 8 + s.i * 4 + s.z * 2 + s.c);
    assert(b / 128 == s.n && (b / 64) % 2 == s.v && (b / 8) % 2 == s.d && (b / 4) % 2 == s.i
        && (b / 2) % 2 == s.z && b % 2 == s.c) by (nonlinear_arith)
        requires
            s.wf(),
            b == s.n * 128 + s.v * 64 + 32 + 16 + s.d * 8 + s.i * 4 + s.z * 2 + s.c,
    ;
}

} // verus!
