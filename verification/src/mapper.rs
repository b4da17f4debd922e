//! The capability contract a peripheral or cartridge implements to
//! participate in bus address decoding, and a small bit-access helper trait.

use vstd::prelude::*;

verus! {

/// A memory-mapped device. Each implementation describes itself through
/// three spec functions: which addresses it handles, which of those accept
/// writes, and the byte currently visible at each handled address.
///
/// `read` must answer for every handled address and must signal an explicit
/// unhandled-address condition (`None`) elsewhere — never silent garbage and
/// never a process abort. `write` is a no-op for read-only addresses.
pub trait Mapper: Sized {
    /// The device's internal invariant; established by its constructor and
    /// preserved by `write`.
    spec fn inv(&self) -> bool;

    /// Whether the device decodes `adr` at all.
    spec fn handles(&self, adr: u16) -> bool;

    /// Whether a write to `adr` is stored (as opposed to ignored).
    spec fn writable(&self, adr: u16) -> bool;

    /// The byte visible at `adr`; meaningful only where `handles(adr)`.
    spec fn mval(&self, adr: u16) -> u8;

    /// The byte at `adr`, or `None` for an address the device does not
    /// implement.
    fn read(&self, adr: u16) -> (r: Option<u8>)
        requires
            self.inv(),
        ensures
            r == (if self.handles(adr) {
                Some(self.mval(adr))
            } else {
                None::<u8>
            }),
    ;

    /// Stores `data` at `adr` if that address is writable; ignores the write
    /// otherwise. Never changes which addresses the device decodes.
    fn write(&mut self, adr: u16, data: u8)
        requires
            old(self).inv(),
        ensures
            final(self).inv(),
            forall|a: u16| final(self).handles(a) == old(self).handles(a),
            forall|a: u16| final(self).writable(a) == old(self).writable(a),
            forall|a: u16|
                final(self).mval(a) == (if old(self).writable(adr) && a == adr {
                    data
                } else {
                    old(self).mval(a)
                }),
    ;
}

/// How one `Mapper::write` call relates the device state before (`m0`) and
/// after (`m1`): the handled and writable address sets are unchanged, and the
/// visible contents change at `adr` alone, and only if `adr` is writable.
pub open spec fn mapper_write_rel<M: Mapper>(m0: M, m1: M, adr: u16, data: u8) -> bool {
    &&& forall|a: u16| m1.handles(a) == m0.handles(a)
    &&& forall|a: u16| m1.writable(a) == m0.writable(a)
    &&& forall|a: u16|
        m1.mval(a) == (if m0.writable(adr) && a == adr {
            data
        } else {
            m0.mval(a)
        })
}

/// Single-bit access on byte-like values.
pub trait BinaryHandler: Sized {
    /// Which bit positions exist in the value.
    spec fn bit_in_range(&self, bit: usize) -> bool;

    /// The bit at position `bit`, as the spec sees it.
    spec fn bit_spec(&self, bit: usize) -> u8;

    /// The bit at position `bit`, as 0 or 1.
    fn bit(&self, bit: usize) -> (r: u8)
        requires
            self.bit_in_range(bit),
        ensures
            r == self.bit_spec(bit),
            r <= 1,
    ;

    /// Whether the bit at position `bit` is set.
    fn flag(&self, bit: usize) -> (r: bool)
        requires
            self.bit_in_range(bit),
        ensures
            r == (self.bit_spec(bit) == 1),
    ;
}

impl BinaryHandler for u8 {
    open spec fn bit_in_range(&self, bit: usize) -> bool {
        bit < 8
    }

    open spec fn bit_spec(&self, bit: usize) -> u8 {
        (*self >> (bit as u8)) & 1
    }

    fn bit(&self, bit: usize) -> (r: u8) {
        let v: u8 = *self;
        let b: u8 = bit as u8;
        let r = (v >> b) & 1;
        proof {
            assert((v >> b) & 1 <= 1) by (bit_vector);
        }
        r
    }

    fn flag(&self, bit: usize) -> (r: bool) {
        self.bit(bit) == 1
    }
}

} // verus!
