//! The cartridge device: in the simplified test-harness form it exposes a
//! flat 64KB byte array through the [`Mapper`] capability, handling every
//! address handed to it and accepting every write.
//!
//! Parsing a cartridge image file (header validation, bank sizing) is an
//! external loader concern: the loader hands the finished byte array to
//! [`Cartridge::new`].

use vstd::prelude::*;
use crate::mapper::Mapper;

verus! {

/// A cartridge backed by a flat 64KB array covering the whole address space.
pub struct Cartridge {
    ram: Vec<u8>,
}

impl Cartridge {
    /// The bytes the cartridge exposes.
    pub closed spec fn contents(&self) -> Seq<u8> {
        self.ram@
    }

    /// Builds a cartridge over a full 64KB image.
    pub fn new(ram: Vec<u8>) -> (c: Cartridge)
        requires
            ram@.len() == 0x10000,
        ensures
            c.inv(),
            c.contents() == ram@,
    {
        Cartridge { ram }
    }
}

impl Mapper for Cartridge {
    open spec fn inv(&self) -> bool {
        self.contents().len() == 0x10000
    }

    open spec fn handles(&self, adr: u16) -> bool {
        true
    }

    open spec fn writable(&self, adr: u16) -> bool {
        true
    }

    open spec fn mval(&self, adr: u16) -> u8 {
        self.contents()[adr as int]
    }

    fn read(&self, adr: u16) -> (r: Option<u8>) {
        Some(self.ram[adr as usize])
    }

    fn write(&mut self, adr: u16, data: u8) {
        self.ram[adr as usize] = data;
    }
}

} // verus!
