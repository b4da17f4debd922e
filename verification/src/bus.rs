//! The bus: owns the 2KB of general RAM and decodes the 16-bit address space
//! into RAM, three RAM mirrors, the video-peripheral register window (eight
//! registers mirrored every eight bytes), the inert audio/IO window, and the
//! cartridge window, delegating outside-RAM accesses to the owned
//! [`Mapper`] devices.
//!
//! Memory map: `0x0000..=0x07FF` RAM; `0x0800..=0x1FFF` three mirrors of the
//! same 2KB; `0x2000..=0x3FFF` the peripheral register window;
//! `0x4000..=0x401F` the secondary (audio/IO) window, currently inert;
//! `0x4020..=0xFFFF` the cartridge window.

use vstd::prelude::*;
use crate::mapper::Mapper;

verus! {

/// Size of the general RAM, in bytes.
pub const RAM_SIZE: usize = 0x800;

/// The system bus: general RAM plus the two attached devices.
pub struct Bus<C: Mapper, P: Mapper> {
    /// The 2KB of general RAM behind `0x0000..=0x1FFF`.
    pub memory: Vec<u8>,
    /// The cartridge device behind `0x4020..=0xFFFF`.
    pub cart: C,
    /// The video peripheral behind the `0x2000..=0x3FFF` register window.
    pub ppu: P,
}

impl<C: Mapper, P: Mapper> Bus<C, P> {
    /// RAM has its fixed size and both devices satisfy their invariants.
    pub open spec fn wf(&self) -> bool {
        &&& self.memory@.len() == RAM_SIZE
        &&& self.cart.inv()
        &&& self.ppu.inv()
    }

    /// The byte visible at `adr`, or `None` where the decoded device reports
    /// the address unhandled. RAM and its mirrors fold onto the same 2KB; the
    /// peripheral window folds onto eight registers before forwarding; the
    /// inert window reads as zero.
    pub open spec fn read_spec(&self, adr: u16) -> Option<u8> {
        if adr < 0x2000 {
            Some(self.memory@[adr as int % 0x800])
        } else if adr < 0x4000 {
            let reg = (0x2000 + (adr % 8)) as u16;
            if self.ppu.handles(reg) {
                Some(self.ppu.mval(reg))
            } else {
                None
            }
        } else if adr < 0x4020 {
            Some(0)
        } else {
            if self.cart.handles(adr) {
                Some(self.cart.mval(adr))
            } else {
                None
            }
        }
    }

    /// Reads the byte at `adr`. Total over the full 16-bit space: every
    /// address decodes, and an address the decoded device does not implement
    /// is reported as `None`, never invented.
    pub fn read(&self, adr: u16) -> (r: Option<u8>)
        requires
            self.wf(),
        ensures
            r == self.read_spec(adr),
    {
        if adr < 0x2000 {
            Some(self.memory[(adr % 0x800) as usize])
        } else if adr < 0x4000 {
            self.ppu.read(0x2000 + (adr % 8))
        } else if adr < 0x4020 {
            Some(0)
        } else {
            self.cart.read(adr)
        }
    }

    /// Writes `data` at `adr`: into RAM through any mirror, forwarded to the
    /// folded peripheral register, ignored in the inert window, or forwarded
    /// to the cartridge.
    pub fn write(&mut self, adr: u16, data: u8)
        requires
            old(self).wf(),
        ensures
            final(self).wf(),
            write_rel(*old(self), *final(self), adr, data),
    {
        if adr < 0x2000 {
            self.memory[(adr % 0x800) as usize] = data;
        } else if adr < 0x4000 {
            self.ppu.write(0x2000 + (adr % 8), data);
        } else if adr < 0x4020 {
        } else {
            self.cart.write(adr, data);
        }
    }

    /// Builds a bus over zeroed RAM and the two devices.
    pub fn new(cart: C, ppu: P) -> (b: Bus<C, P>)
        requires
            cart.inv(),
            ppu.inv(),
        ensures
            b.wf(),
            b.memory@ == Seq::new(RAM_SIZE as nat, |i: int| 0u8),
            b.cart == cart,
            b.ppu == ppu,
    {
        let mut memory: Vec<u8> = Vec::new();
        let mut i: usize = 0;
        while i < RAM_SIZE
            invariant
                i <= RAM_SIZE,
                memory@.len() == i,
                memory@ == Seq::new(i as nat, |j: int| 0u8),
            decreases RAM_SIZE - i,
        {
            memory.push(0);
            proof {
                assert(memory@ =~= Seq::new((i + 1) as nat, |j: int| 0u8));
            }
            i += 1;
        }
        Bus { memory, cart, ppu }
    }
}

/// How one `Bus::write` call relates the bus before (`b0`) and after (`b1`):
/// exactly the decoded region changes. A RAM or mirror write updates the one
/// underlying cell; a peripheral-window write reaches the folded register and
/// leaves RAM and cartridge alone; an inert-window write changes nothing; a
/// cartridge-window write updates the cartridge's one writable cell.
pub open spec fn write_rel<C: Mapper, P: Mapper>(
    b0: Bus<C, P>,
    b1: Bus<C, P>,
    adr: u16,
    data: u8,
) -> bool {
    if adr < 0x2000 {
        &&& b1.memory@ == b0.memory@.update(adr as int % 0x800, data)
        &&& b1.cart == b0.cart
        &&& b1.ppu == b0.ppu
    } else if adr < 0x4000 {
        &&& b1.memory@ == b0.memory@
        &&& b1.cart == b0.cart
        &&& crate::mapper::mapper_write_rel(b0.ppu, b1.ppu, (0x2000 + (adr % 8)) as u16, data)
    } else if adr < 0x4020 {
        b1 == b0
    } else {
        &&& b1.memory@ == b0.memory@
        &&& b1.ppu == b0.ppu
        &&& crate::mapper::mapper_write_rel(b0.cart, b1.cart, adr, data)
    }
}

/// RAM mirroring law: after a write anywhere in the RAM region, the written
/// byte is visible when reading through every mirror address that folds onto
/// the same underlying cell.
pub proof fn lemma_ram_mirroring<C: Mapper, P: Mapper>(
    b0: Bus<C, P>,
    b1: Bus<C, P>,
    adr: u16,
    mirror: u16,
    data: u8,
)
    requires
        b0.wf(),
        write_rel(b0, b1, adr, data),
        adr < 0x2000,
        mirror < 0x2000,
        mirror as int % 0x800 == adr as int % 0x800,
    ensures
        b1.read_spec(mirror) == Some(data),
{
}

} // verus!
