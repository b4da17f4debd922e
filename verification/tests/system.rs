//! Status register, bus decoding, devices and the helper traits.

use nes6502::bus::Bus;
use nes6502::cartridge::Cartridge;
use nes6502::cpu::to16;
use nes6502::mapper::{BinaryHandler, Mapper};
use nes6502::ppu::PPU;
use nes6502::status::StatusRegister;

fn empty_bus() -> Bus<Cartridge, PPU> {
    let ram = vec![0u8; 0x10000];
    Bus::new(Cartridge::new(ram), PPU::new())
}

#[test]
fn status_round_trip_preserves_six_flags() {
    // All 64 combinations of N,V,D,I,Z,C survive a pack/unpack round trip.
    for bits in 0u8..64 {
        let mut s = StatusRegister::new();
        s.n = (bits >> 5) & 1;
        s.v = (bits >> 4) & 1;
        s.d = (bits >> 3) & 1;
        s.i = (bits >> 2) & 1;
        s.z = (bits >> 1) & 1;
        s.c = bits & 1;
        let packed = s.as_u8();
        let mut restored = StatusRegister::new();
        restored.from_u8(packed);
        assert_eq!(restored, s);
    }
}

#[test]
fn status_byte_layout() {
    let mut s = StatusRegister::new();
    s.n = 1;
    s.c = 1;
    // N at bit 7, constant ones at bits 5 and 4, C at bit 0.
    assert_eq!(s.as_u8(), 0b1011_0001);
    s.n = 0;
    s.v = 1;
    s.d = 1;
    s.i = 1;
    s.z = 1;
    s.c = 0;
    assert_eq!(s.as_u8(), 0b0111_1110);
}

#[test]
fn status_from_u8_ignores_break_and_unused() {
    let mut s = StatusRegister::new();
    s.from_u8(0b0011_0000);
    assert_eq!(s, StatusRegister::new());
}

#[test]
fn ram_write_is_visible_through_all_mirrors() {
    let mut bus = empty_bus();
    bus.write(0x0000, 0xAB);
    assert_eq!(bus.read(0x0000), Some(0xAB));
    assert_eq!(bus.read(0x0800), Some(0xAB));
    assert_eq!(bus.read(0x1000), Some(0xAB));
    assert_eq!(bus.read(0x1800), Some(0xAB));
}

#[test]
fn mirror_write_lands_in_ram() {
    let mut bus = empty_bus();
    bus.write(0x1A34, 0x5C);
    assert_eq!(bus.read(0x0234), Some(0x5C));
    assert_eq!(bus.read(0x0A34), Some(0x5C));
}

#[test]
fn ppu_status_register_answers_through_window_mirrors() {
    let bus = empty_bus();
    assert_eq!(bus.read(0x2002), Some(0xFF));
    // The eight-register window repeats every eight bytes up to 0x3FFF.
    assert_eq!(bus.read(0x200A), Some(0xFF));
    assert_eq!(bus.read(0x3FFA), Some(0xFF));
}

#[test]
fn unimplemented_ppu_register_is_unhandled() {
    let bus = empty_bus();
    assert_eq!(bus.read(0x2000), None);
    assert_eq!(bus.read(0x2003), None);
    assert_eq!(bus.read(0x3FFF), None);
}

#[test]
fn ppu_window_write_is_ignored() {
    let mut bus = empty_bus();
    bus.write(0x2002, 0x12);
    assert_eq!(bus.read(0x2002), Some(0xFF));
}

#[test]
fn inert_window_reads_zero() {
    let mut bus = empty_bus();
    assert_eq!(bus.read(0x4000), Some(0));
    assert_eq!(bus.read(0x401F), Some(0));
    bus.write(0x4000, 0x33);
    assert_eq!(bus.read(0x4000), Some(0));
}

#[test]
fn cartridge_window_reads_and_writes() {
    let mut ram = vec![0u8; 0x10000];
    ram[0x9000] = 0x77;
    let mut bus = Bus::new(Cartridge::new(ram), PPU::new());
    assert_eq!(bus.read(0x9000), Some(0x77));
    bus.write(0x5000, 0x99);
    assert_eq!(bus.read(0x5000), Some(0x99));
}

#[test]
fn binary_handler_bits_and_flags() {
    let v: u8 = 0b1010_0101;
    assert_eq!(v.bit(0), 1);
    assert_eq!(v.bit(1), 0);
    assert_eq!(v.bit(5), 1);
    assert_eq!(v.bit(7), 1);
    assert!(v.flag(2));
    assert!(!v.flag(6));
}

#[test]
fn to16_joins_bytes() {
    assert_eq!(to16(0x12, 0x34), 0x1234);
    assert_eq!(to16(0x00, 0xFF), 0x00FF);
    assert_eq!(to16(0xFF, 0x00), 0xFF00);
}
