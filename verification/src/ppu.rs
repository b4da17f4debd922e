//! A stub of the video peripheral's register file. It answers the status
//! register alone, with a constant byte, and ignores writes; every other
//! register is reported as unhandled rather than invented.

use vstd::prelude::*;
use crate::mapper::Mapper;

verus! {

/// The address of the one register the stub implements.
pub const PPU_STATUS_ADR: u16 = 0x2002;

/// The constant byte the stub answers at the status register.
pub const PPU_STATUS_VALUE: u8 = 0xFF;

/// The video peripheral's register file, as an inert stub.
pub struct PPU {}

impl PPU {
    /// Builds the stub.
    pub fn new() -> (p: PPU)
        ensures
            p.inv(),
    {
        PPU {  }
    }
}

impl Mapper for PPU {
    open spec fn inv(&self) -> bool {
        true
    }

    open spec fn handles(&self, adr: u16) -> bool {
        adr == PPU_STATUS_ADR
    }

    open spec fn writable(&self, adr: u16) -> bool {
        false
    }

    open spec fn mval(&self, adr: u16) -> u8 {
        PPU_STATUS_VALUE
    }

    fn read(&self, adr: u16) -> (r: Option<u8>) {
        if adr == PPU_STATUS_ADR {
            Some(PPU_STATUS_VALUE)
        } else {
            None
        }
    }

    fn write(&mut self, adr: u16, data: u8) {
    }
}

} // verus!
