//! Cycle accounting: the documented base cost of every addressing mode, the
//! one-cycle penalty for page-crossing indexed reads, the fixed cost of
//! read-modify-write and indexed-write modes, and the branch penalties.

use nes6502::bus::Bus;
use nes6502::cartridge::Cartridge;
use nes6502::cpu::CPU6502;
use nes6502::ppu::PPU;

const ORG: u16 = 0x8000;

fn system(prog: &[u8]) -> (CPU6502, Bus<Cartridge, PPU>) {
    let mut ram = vec![0u8; 0x10000];
    for (i, b) in prog.iter().enumerate() {
        ram[ORG as usize + i] = *b;
    }
    let bus = Bus::new(Cartridge::new(ram), PPU::new());
    let mut cpu = CPU6502::new();
    cpu.pc = ORG;
    (cpu, bus)
}

/// Runs the one instruction in `prog` and returns the cycles it charged.
fn cycles_of(prog: &[u8]) -> u64 {
    let (mut cpu, mut bus) = system(prog);
    cpu.tick(&mut bus).expect("step faulted");
    cpu.cycles
}

#[test]
fn base_costs_of_read_modes() {
    assert_eq!(cycles_of(&[0xA9, 0x01]), 2); // LDA immediate
    assert_eq!(cycles_of(&[0xA5, 0x10]), 3); // LDA zero page
    assert_eq!(cycles_of(&[0xB5, 0x10]), 4); // LDA zero page,X
    assert_eq!(cycles_of(&[0xB6, 0x10]), 4); // LDX zero page,Y
    assert_eq!(cycles_of(&[0xAD, 0x10, 0x02]), 4); // LDA absolute
    assert_eq!(cycles_of(&[0xBD, 0x10, 0x02]), 4); // LDA absolute,X
    assert_eq!(cycles_of(&[0xB9, 0x10, 0x02]), 4); // LDA absolute,Y
    assert_eq!(cycles_of(&[0xA1, 0x10]), 6); // LDA (zp,X)
    assert_eq!(cycles_of(&[0xB1, 0x10]), 5); // LDA (zp),Y
}

#[test]
fn base_costs_of_implied_and_accumulator_modes() {
    assert_eq!(cycles_of(&[0xEA]), 2); // NOP
    assert_eq!(cycles_of(&[0x18]), 2); // CLC
    assert_eq!(cycles_of(&[0xAA]), 2); // TAX
    assert_eq!(cycles_of(&[0x0A]), 2); // ASL accumulator
    assert_eq!(cycles_of(&[0x4A]), 2); // LSR accumulator
}

#[test]
fn base_costs_of_rmw_modes() {
    assert_eq!(cycles_of(&[0xE6, 0x10]), 5); // INC zero page
    assert_eq!(cycles_of(&[0xF6, 0x10]), 6); // INC zero page,X
    assert_eq!(cycles_of(&[0xEE, 0x10, 0x02]), 6); // INC absolute
    assert_eq!(cycles_of(&[0xFE, 0x10, 0x02]), 7); // INC absolute,X
    assert_eq!(cycles_of(&[0x06, 0x10]), 5); // ASL zero page
    assert_eq!(cycles_of(&[0x2E, 0x10, 0x02]), 6); // ROL absolute
}

#[test]
fn base_costs_of_write_modes() {
    assert_eq!(cycles_of(&[0x85, 0x10]), 3); // STA zero page
    assert_eq!(cycles_of(&[0x95, 0x10]), 4); // STA zero page,X
    assert_eq!(cycles_of(&[0x96, 0x10]), 4); // STX zero page,Y
    assert_eq!(cycles_of(&[0x8D, 0x10, 0x02]), 4); // STA absolute
    assert_eq!(cycles_of(&[0x9D, 0x10, 0x02]), 5); // STA absolute,X
    assert_eq!(cycles_of(&[0x99, 0x10, 0x02]), 5); // STA absolute,Y
    assert_eq!(cycles_of(&[0x81, 0x10]), 6); // STA (zp,X)
    assert_eq!(cycles_of(&[0x91, 0x10]), 6); // STA (zp),Y
}

#[test]
fn base_costs_of_flow_instructions() {
    assert_eq!(cycles_of(&[0x00]), 7); // BRK
    assert_eq!(cycles_of(&[0x08]), 3); // PHP
    assert_eq!(cycles_of(&[0x48]), 3); // PHA
    assert_eq!(cycles_of(&[0x28]), 4); // PLP
    assert_eq!(cycles_of(&[0x68]), 4); // PLA
    assert_eq!(cycles_of(&[0x40]), 6); // RTI
    assert_eq!(cycles_of(&[0x60]), 6); // RTS
    assert_eq!(cycles_of(&[0x20, 0x05, 0x80]), 6); // JSR
    assert_eq!(cycles_of(&[0x4C, 0x05, 0x80]), 3); // JMP absolute
    assert_eq!(cycles_of(&[0x6C, 0x10, 0x00]), 5); // JMP indirect
}

#[test]
fn indexed_read_page_cross_charges_one_extra() {
    // LDA $02F0,X with X=0x20 crosses into page 3: 4+1 cycles.
    let (mut cpu, mut bus) = system(&[0xBD, 0xF0, 0x02]);
    cpu.x = 0x20;
    cpu.tick(&mut bus).expect("step faulted");
    assert_eq!(cpu.cycles, 5);

    // The same access without the crossing stays at 4.
    let (mut cpu2, mut bus2) = system(&[0xBD, 0xF0, 0x02]);
    cpu2.x = 0x05;
    cpu2.tick(&mut bus2).expect("step faulted");
    assert_eq!(cpu2.cycles, 4);

    // Absolute,Y behaves the same way.
    let (mut cpu3, mut bus3) = system(&[0xB9, 0xF0, 0x02]);
    cpu3.y = 0x20;
    cpu3.tick(&mut bus3).expect("step faulted");
    assert_eq!(cpu3.cycles, 5);
}

#[test]
fn indirect_indexed_read_page_cross_charges_one_extra() {
    let (mut cpu, mut bus) = system(&[0xB1, 0x20]);
    bus.write(0x0020, 0xF0);
    bus.write(0x0021, 0x02);
    cpu.y = 0x20;
    cpu.tick(&mut bus).expect("step faulted");
    assert_eq!(cpu.cycles, 6);

    let (mut cpu2, mut bus2) = system(&[0xB1, 0x20]);
    bus2.write(0x0020, 0xF0);
    bus2.write(0x0021, 0x02);
    cpu2.y = 0x05;
    cpu2.tick(&mut bus2).expect("step faulted");
    assert_eq!(cpu2.cycles, 5);
}

#[test]
fn rmw_and_write_modes_never_vary_with_page_crossing() {
    // INC absolute,X crossing a page still charges 7.
    let (mut cpu, mut bus) = system(&[0xFE, 0xF0, 0x02]);
    cpu.x = 0x20;
    cpu.tick(&mut bus).expect("step faulted");
    assert_eq!(cpu.cycles, 7);

    // STA absolute,X crossing a page still charges 5.
    let (mut cpu2, mut bus2) = system(&[0x9D, 0xF0, 0x02]);
    cpu2.x = 0x20;
    cpu2.tick(&mut bus2).expect("step faulted");
    assert_eq!(cpu2.cycles, 5);

    // STA (zp),Y crossing a page still charges 6.
    let (mut cpu3, mut bus3) = system(&[0x91, 0x20]);
    bus3.write(0x0020, 0xF0);
    bus3.write(0x0021, 0x02);
    cpu3.y = 0x20;
    cpu3.tick(&mut bus3).expect("step faulted");
    assert_eq!(cpu3.cycles, 6);
}

#[test]
fn branch_costs() {
    // Not taken: 2 cycles.
    let (mut cpu, mut bus) = system(&[0xD0, 0x02]);
    cpu.status.z = 1;
    cpu.tick(&mut bus).expect("step faulted");
    assert_eq!(cpu.cycles, 2);

    // Taken inside the page: 3 cycles.
    let (mut cpu2, mut bus2) = system(&[0xD0, 0x02]);
    cpu2.tick(&mut bus2).expect("step faulted");
    assert_eq!(cpu2.cycles, 3);
    assert_eq!(cpu2.pc, 0x8004);

    // Taken across a page boundary: 4 cycles. From 0x80F0 the branch's
    // operand ends at 0x80F2; +0x20 lands at 0x8112.
    let mut ram = vec![0u8; 0x10000];
    ram[0x80F0] = 0xD0;
    ram[0x80F1] = 0x20;
    let mut bus3 = Bus::new(Cartridge::new(ram), PPU::new());
    let mut cpu3 = CPU6502::new();
    cpu3.pc = 0x80F0;
    cpu3.tick(&mut bus3).expect("step faulted");
    assert_eq!(cpu3.cycles, 4);
    assert_eq!(cpu3.pc, 0x8112);
}

#[test]
fn illegal_opcode_charges_only_the_fetch() {
    assert_eq!(cycles_of(&[0x02]), 1);
}
