//! Instruction semantics: flags, arithmetic, stack and control flow.

use nes6502::bus::Bus;
use nes6502::cartridge::Cartridge;
use nes6502::cpu::{CPU6502, Fault, Mnemonic};
use nes6502::ppu::PPU;

const ORG: u16 = 0x8000;

/// A system whose cartridge holds `prog` at `ORG`, with the processor
/// pointed there.
fn system(prog: &[u8]) -> (CPU6502, Bus<Cartridge, PPU>) {
    let mut ram = vec![0u8; 0x10000];
    for (i, b) in prog.iter().enumerate() {
        ram[ORG as usize + i] = *b;
    }
    let bus = Bus::new(Cartridge::new(ram), PPU::new());
    let mut cpu = CPU6502::new();
    cpu.pc = ORG;
    (cpu, bus)
}

fn run(cpu: &mut CPU6502, bus: &mut Bus<Cartridge, PPU>, steps: usize) {
    for _ in 0..steps {
        cpu.tick(bus).expect("step faulted");
    }
}

#[test]
fn adc_sets_overflow_on_like_signs() {
    // 0x50 + 0x50 -> 0xA0 with N=1, V=1, C=0, Z=0.
    let (mut cpu, mut bus) = system(&[0xA9, 0x50, 0x69, 0x50]);
    run(&mut cpu, &mut bus, 2);
    assert_eq!(cpu.acc, 0xA0);
    assert_eq!(cpu.status.n, 1);
    assert_eq!(cpu.status.v, 1);
    assert_eq!(cpu.status.c, 0);
    assert_eq!(cpu.status.z, 0);
}

#[test]
fn adc_wraps_with_carry_out() {
    // 0xFF + 0x01 -> 0x00 with C=1, Z=1, N=0, V=0.
    let (mut cpu, mut bus) = system(&[0xA9, 0xFF, 0x69, 0x01]);
    run(&mut cpu, &mut bus, 2);
    assert_eq!(cpu.acc, 0x00);
    assert_eq!(cpu.status.c, 1);
    assert_eq!(cpu.status.z, 1);
    assert_eq!(cpu.status.n, 0);
    assert_eq!(cpu.status.v, 0);
}

#[test]
fn adc_overflow_at_sign_boundary() {
    // 0x7F + 0x01 -> 0x80 with V=1, N=1.
    let (mut cpu, mut bus) = system(&[0xA9, 0x7F, 0x69, 0x01]);
    run(&mut cpu, &mut bus, 2);
    assert_eq!(cpu.acc, 0x80);
    assert_eq!(cpu.status.v, 1);
    assert_eq!(cpu.status.n, 1);
}

#[test]
fn adc_uses_incoming_carry() {
    // SEC; LDA #$01; ADC #$01 -> 0x03.
    let (mut cpu, mut bus) = system(&[0x38, 0xA9, 0x01, 0x69, 0x01]);
    run(&mut cpu, &mut bus, 3);
    assert_eq!(cpu.acc, 0x03);
}

#[test]
fn adc_leaves_overflow_alone_on_differing_signs() {
    // Set V via 0x50+0x50, then add operands of differing signs
    // (0xA0 and 0x10): overflow is impossible there and V stays set.
    let (mut cpu, mut bus) = system(&[0xA9, 0x50, 0x69, 0x50, 0x69, 0x10]);
    run(&mut cpu, &mut bus, 3);
    assert_eq!(cpu.acc, 0xB0);
    assert_eq!(cpu.status.v, 1);
}

#[test]
fn sbc_subtracts_with_borrow_discipline() {
    // SEC; LDA #$10; SBC #$05 -> 0x0B with C=1 (no borrow).
    let (mut cpu, mut bus) = system(&[0x38, 0xA9, 0x10, 0xE9, 0x05]);
    run(&mut cpu, &mut bus, 3);
    assert_eq!(cpu.acc, 0x0B);
    assert_eq!(cpu.status.c, 1);
    assert_eq!(cpu.opcode, Mnemonic::Sbc);
}

#[test]
fn cmp_equal_values() {
    // 0x10 compared with 0x10 -> C=1, Z=1, N=0.
    let (mut cpu, mut bus) = system(&[0xA9, 0x10, 0xC9, 0x10]);
    run(&mut cpu, &mut bus, 2);
    assert_eq!(cpu.status.c, 1);
    assert_eq!(cpu.status.z, 1);
    assert_eq!(cpu.status.n, 0);
}

#[test]
fn cmp_smaller_operand_sets_carry() {
    let (mut cpu, mut bus) = system(&[0xA9, 0x20, 0xC9, 0x10]);
    run(&mut cpu, &mut bus, 2);
    assert_eq!(cpu.status.c, 1);
    assert_eq!(cpu.status.z, 0);
}

#[test]
fn cmp_larger_operand_clears_carry() {
    // 0x10 vs 0x20: wrapping difference 0xF0, N=1, C=0.
    let (mut cpu, mut bus) = system(&[0xA9, 0x10, 0xC9, 0x20]);
    run(&mut cpu, &mut bus, 2);
    assert_eq!(cpu.status.c, 0);
    assert_eq!(cpu.status.n, 1);
}

#[test]
fn cpx_and_cpy_compare_index_registers() {
    let (mut cpu, mut bus) = system(&[0xA2, 0x05, 0xE0, 0x05, 0xA0, 0x01, 0xC0, 0x02]);
    run(&mut cpu, &mut bus, 2);
    assert_eq!(cpu.status.z, 1);
    run(&mut cpu, &mut bus, 2);
    assert_eq!(cpu.status.c, 0);
}

#[test]
fn pha_pla_round_trip_restores_acc_and_sp() {
    // Starting at sp=0 also exercises the 8-bit wraparound.
    let (mut cpu, mut bus) = system(&[0xA9, 0x42, 0x48, 0xA9, 0x00, 0x68]);
    assert_eq!(cpu.sp, 0x00);
    run(&mut cpu, &mut bus, 4);
    assert_eq!(cpu.acc, 0x42);
    assert_eq!(cpu.sp, 0x00);
}

#[test]
fn pop_with_wrapped_pointer_reads_0x0101() {
    // A pop first increments sp, then reads 0x0100 + sp.
    let (mut cpu, mut bus) = system(&[0x68]);
    cpu.sp = 0x00;
    bus.write(0x0101, 0x77);
    run(&mut cpu, &mut bus, 1);
    assert_eq!(cpu.acc, 0x77);
    assert_eq!(cpu.sp, 0x01);
}

#[test]
fn push_with_zero_pointer_writes_0x0100_and_wraps() {
    let (mut cpu, mut bus) = system(&[0x48]);
    cpu.acc = 0x5A;
    cpu.sp = 0x00;
    run(&mut cpu, &mut bus, 1);
    assert_eq!(bus.read(0x0100), Some(0x5A));
    assert_eq!(cpu.sp, 0xFF);
}

#[test]
fn php_plp_round_trip_restores_flags() {
    let (mut cpu, mut bus) = system(&[0x38, 0xF8, 0x08, 0x18, 0xD8, 0x28]);
    cpu.sp = 0xFD;
    run(&mut cpu, &mut bus, 6);
    assert_eq!(cpu.status.c, 1);
    assert_eq!(cpu.status.d, 1);
    assert_eq!(cpu.sp, 0xFD);
}

#[test]
fn jsr_then_rts_returns_to_next_instruction() {
    // 0x8000: JSR $8005 ; 0x8003: next instruction ; 0x8005: RTS.
    let (mut cpu, mut bus) = system(&[0x20, 0x05, 0x80, 0xEA, 0xEA, 0x60]);
    cpu.sp = 0xFD;
    run(&mut cpu, &mut bus, 1);
    assert_eq!(cpu.pc, 0x8005);
    run(&mut cpu, &mut bus, 1);
    assert_eq!(cpu.pc, 0x8003);
    assert_eq!(cpu.sp, 0xFD);
}

#[test]
fn jsr_pushes_address_of_last_instruction_byte() {
    let (mut cpu, mut bus) = system(&[0x20, 0x05, 0x80]);
    cpu.sp = 0xFD;
    run(&mut cpu, &mut bus, 1);
    // The pushed return address is 0x8002: high byte first.
    assert_eq!(bus.read(0x01FD), Some(0x80));
    assert_eq!(bus.read(0x01FC), Some(0x02));
}

#[test]
fn brk_pushes_pc_then_status_and_sets_i() {
    let (mut cpu, mut bus) = system(&[0x00]);
    cpu.sp = 0xFA;
    cpu.status.c = 1;
    run(&mut cpu, &mut bus, 1);
    // (PC+1) after the opcode fetch is 0x8002: high byte, low byte, then the
    // status byte with the break bit set.
    assert_eq!(bus.read(0x01FA), Some(0x80));
    assert_eq!(bus.read(0x01F9), Some(0x02));
    assert_eq!(bus.read(0x01F8), Some(0b0011_0001));
    assert_eq!(cpu.status.i, 1);
    assert_eq!(cpu.sp, 0xF7);
    assert_eq!(cpu.cycles, 7);
    assert_eq!(cpu.pc, 0x8002);
}

#[test]
fn rti_restores_flags_and_pc() {
    let (mut cpu, mut bus) = system(&[0x40]);
    cpu.sp = 0xF8;
    bus.write(0x01F9, 0b1000_0001);
    bus.write(0x01FA, 0x34);
    bus.write(0x01FB, 0x12);
    run(&mut cpu, &mut bus, 1);
    assert_eq!(cpu.status.n, 1);
    assert_eq!(cpu.status.c, 1);
    assert_eq!(cpu.pc, 0x1234);
    assert_eq!(cpu.sp, 0xFB);
}

#[test]
fn jmp_absolute_loads_pc() {
    let (mut cpu, mut bus) = system(&[0x4C, 0x00, 0x90]);
    run(&mut cpu, &mut bus, 1);
    assert_eq!(cpu.pc, 0x9000);
    assert_eq!(cpu.opcode, Mnemonic::Jmp);
}

#[test]
fn jmp_indirect_loads_pc_through_pointer() {
    let (mut cpu, mut bus) = system(&[0x6C, 0x10, 0x00]);
    bus.write(0x0010, 0x00);
    bus.write(0x0011, 0x90);
    run(&mut cpu, &mut bus, 1);
    assert_eq!(cpu.pc, 0x9000);
    assert_eq!(cpu.cycles, 5);
}

#[test]
fn branches_follow_their_flags() {
    // BNE taken when Z=0.
    let (mut cpu, mut bus) = system(&[0xA9, 0x01, 0xD0, 0x02]);
    run(&mut cpu, &mut bus, 2);
    assert_eq!(cpu.pc, 0x8006);
    // BEQ not taken on the same flags.
    let (mut cpu2, mut bus2) = system(&[0xA9, 0x01, 0xF0, 0x02]);
    run(&mut cpu2, &mut bus2, 2);
    assert_eq!(cpu2.pc, 0x8004);
}

#[test]
fn branch_backwards_sign_extends() {
    // BCC -2 from 0x8002 lands back on the branch itself.
    let (mut cpu, mut bus) = system(&[0x90, 0xFE]);
    run(&mut cpu, &mut bus, 1);
    assert_eq!(cpu.pc, 0x8000);
}

#[test]
fn shifts_and_rotates() {
    // LDA #$81; ASL A -> 0x02, C=1.
    let (mut cpu, mut bus) = system(&[0xA9, 0x81, 0x0A]);
    run(&mut cpu, &mut bus, 2);
    assert_eq!(cpu.acc, 0x02);
    assert_eq!(cpu.status.c, 1);

    // SEC; LDA #$02; ROR A -> 0x81, C=0.
    let (mut cpu2, mut bus2) = system(&[0x38, 0xA9, 0x02, 0x6A]);
    run(&mut cpu2, &mut bus2, 3);
    assert_eq!(cpu2.acc, 0x81);
    assert_eq!(cpu2.status.c, 0);

    // SEC; LDA #$80; ROL A -> 0x01, C=1.
    let (mut cpu3, mut bus3) = system(&[0x38, 0xA9, 0x80, 0x2A]);
    run(&mut cpu3, &mut bus3, 3);
    assert_eq!(cpu3.acc, 0x01);
    assert_eq!(cpu3.status.c, 1);

    // LDA #$03; LSR A -> 0x01, C=1.
    let (mut cpu4, mut bus4) = system(&[0xA9, 0x03, 0x4A]);
    run(&mut cpu4, &mut bus4, 2);
    assert_eq!(cpu4.acc, 0x01);
    assert_eq!(cpu4.status.c, 1);
}

#[test]
fn rmw_writes_back_to_memory() {
    // INC $10 twice, then DEC $10.
    let (mut cpu, mut bus) = system(&[0xE6, 0x10, 0xE6, 0x10, 0xC6, 0x10]);
    run(&mut cpu, &mut bus, 2);
    assert_eq!(bus.read(0x0010), Some(2));
    run(&mut cpu, &mut bus, 1);
    assert_eq!(bus.read(0x0010), Some(1));
}

#[test]
fn dec_wraps_and_sets_n() {
    let (mut cpu, mut bus) = system(&[0xC6, 0x10]);
    run(&mut cpu, &mut bus, 1);
    assert_eq!(bus.read(0x0010), Some(0xFF));
    assert_eq!(cpu.status.n, 1);
}

#[test]
fn asl_on_memory_shifts_the_operand_not_the_accumulator() {
    let (mut cpu, mut bus) = system(&[0x06, 0x10]);
    bus.write(0x0010, 0x41);
    cpu.acc = 0x55;
    run(&mut cpu, &mut bus, 1);
    assert_eq!(bus.read(0x0010), Some(0x82));
    assert_eq!(cpu.acc, 0x55);
}

#[test]
fn logical_operations() {
    // LDA #$F0; AND #$3C -> 0x30; ORA #$03 -> 0x33; EOR #$FF -> 0xCC.
    let (mut cpu, mut bus) = system(&[0xA9, 0xF0, 0x29, 0x3C, 0x09, 0x03, 0x49, 0xFF]);
    run(&mut cpu, &mut bus, 2);
    assert_eq!(cpu.acc, 0x30);
    run(&mut cpu, &mut bus, 1);
    assert_eq!(cpu.acc, 0x33);
    run(&mut cpu, &mut bus, 1);
    assert_eq!(cpu.acc, 0xCC);
    assert_eq!(cpu.status.n, 1);
}

#[test]
fn bit_reads_operand_bits_into_n_and_v() {
    let (mut cpu, mut bus) = system(&[0x24, 0x10]);
    bus.write(0x0010, 0xC0);
    run(&mut cpu, &mut bus, 1);
    assert_eq!(cpu.status.n, 1);
    assert_eq!(cpu.status.v, 1);
    assert_eq!(cpu.status.z, 1);
}

#[test]
fn loads_stores_and_transfers() {
    // LDX #$7F; TXS updates N,Z; STX $10; LDY $10; STY $11.
    let (mut cpu, mut bus) = system(&[0xA2, 0x7F, 0x9A, 0x86, 0x10, 0xA4, 0x10, 0x84, 0x11]);
    run(&mut cpu, &mut bus, 2);
    assert_eq!(cpu.sp, 0x7F);
    assert_eq!(cpu.status.z, 0);
    run(&mut cpu, &mut bus, 3);
    assert_eq!(bus.read(0x0011), Some(0x7F));
    assert_eq!(cpu.y, 0x7F);
}

#[test]
fn transfers_update_flags() {
    // LDX #$00; TXS leaves Z set; TSX copies back.
    let (mut cpu, mut bus) = system(&[0xA2, 0x00, 0x9A, 0xBA]);
    run(&mut cpu, &mut bus, 3);
    assert_eq!(cpu.sp, 0x00);
    assert_eq!(cpu.x, 0x00);
    assert_eq!(cpu.status.z, 1);
}

#[test]
fn inx_wraps_and_dex_wraps() {
    let (mut cpu, mut bus) = system(&[0xA2, 0xFF, 0xE8, 0xCA]);
    run(&mut cpu, &mut bus, 2);
    assert_eq!(cpu.x, 0x00);
    assert_eq!(cpu.status.z, 1);
    run(&mut cpu, &mut bus, 1);
    assert_eq!(cpu.x, 0xFF);
    assert_eq!(cpu.status.n, 1);
}

#[test]
fn zero_page_indexed_wraps_inside_the_page() {
    // LDA $F0,X with X=0x20 reads $10, not $110.
    let (mut cpu, mut bus) = system(&[0xA2, 0x20, 0xB5, 0xF0]);
    bus.write(0x0010, 0x5A);
    run(&mut cpu, &mut bus, 2);
    assert_eq!(cpu.acc, 0x5A);
}

#[test]
fn indexed_indirect_reads_through_zero_page_pointer() {
    // LDA ($20,X) with X=4: pointer at $24/$25.
    let (mut cpu, mut bus) = system(&[0xA2, 0x04, 0xA1, 0x20]);
    bus.write(0x0024, 0x34);
    bus.write(0x0025, 0x02);
    bus.write(0x0234, 0x99);
    run(&mut cpu, &mut bus, 2);
    assert_eq!(cpu.acc, 0x99);
}

#[test]
fn indirect_indexed_adds_y_to_the_pointer() {
    // LDA ($20),Y with Y=5: pointer $0230 + 5.
    let (mut cpu, mut bus) = system(&[0xA0, 0x05, 0xB1, 0x20]);
    bus.write(0x0020, 0x30);
    bus.write(0x0021, 0x02);
    bus.write(0x0235, 0x77);
    run(&mut cpu, &mut bus, 2);
    assert_eq!(cpu.acc, 0x77);
}

#[test]
fn sta_through_indirect_indexed_writes_memory() {
    let (mut cpu, mut bus) = system(&[0xA9, 0x66, 0xA0, 0x02, 0x91, 0x20]);
    bus.write(0x0020, 0x40);
    bus.write(0x0021, 0x00);
    run(&mut cpu, &mut bus, 3);
    assert_eq!(bus.read(0x0042), Some(0x66));
}

#[test]
fn flag_set_and_clear_instructions() {
    let (mut cpu, mut bus) = system(&[0x38, 0xF8, 0x78, 0x18, 0xD8, 0x58]);
    run(&mut cpu, &mut bus, 3);
    assert_eq!(cpu.status.c, 1);
    assert_eq!(cpu.status.d, 1);
    assert_eq!(cpu.status.i, 1);
    run(&mut cpu, &mut bus, 3);
    assert_eq!(cpu.status.c, 0);
    assert_eq!(cpu.status.d, 0);
    assert_eq!(cpu.status.i, 0);
}

#[test]
fn clv_clears_overflow() {
    let (mut cpu, mut bus) = system(&[0xA9, 0x50, 0x69, 0x50, 0xB8]);
    run(&mut cpu, &mut bus, 3);
    assert_eq!(cpu.status.v, 0);
}

#[test]
fn decimal_mode_arithmetic_is_rejected() {
    let (mut cpu, mut bus) = system(&[0xF8, 0x69, 0x01]);
    run(&mut cpu, &mut bus, 1);
    let r = cpu.tick(&mut bus);
    assert_eq!(r, Err(Fault::DecimalMode));
    // The registers and flags are untouched by the rejected add.
    assert_eq!(cpu.acc, 0x00);
    assert_eq!(cpu.status.z, 0);
}

#[test]
fn unmapped_read_is_reported() {
    // LDA $2000 reaches an unimplemented peripheral register.
    let (mut cpu, mut bus) = system(&[0xAD, 0x00, 0x20]);
    let r = cpu.tick(&mut bus);
    assert_eq!(r, Err(Fault::Unmapped(0x2000)));
}

#[test]
fn ppu_status_read_through_cpu() {
    let (mut cpu, mut bus) = system(&[0xAD, 0x02, 0x20]);
    run(&mut cpu, &mut bus, 1);
    assert_eq!(cpu.acc, 0xFF);
}

#[test]
fn illegal_opcode_is_an_inert_no_op() {
    let (mut cpu, mut bus) = system(&[0x02, 0xA9, 0x11]);
    let before_acc = cpu.acc;
    run(&mut cpu, &mut bus, 1);
    assert_eq!(cpu.pc, 0x8001);
    assert_eq!(cpu.cycles, 1);
    assert_eq!(cpu.acc, before_acc);
    run(&mut cpu, &mut bus, 1);
    assert_eq!(cpu.acc, 0x11);
}

#[test]
fn lda_sets_n_and_z() {
    let (mut cpu, mut bus) = system(&[0xA9, 0x00, 0xA9, 0x80]);
    run(&mut cpu, &mut bus, 1);
    assert_eq!(cpu.status.z, 1);
    assert_eq!(cpu.status.n, 0);
    run(&mut cpu, &mut bus, 1);
    assert_eq!(cpu.status.z, 0);
    assert_eq!(cpu.status.n, 1);
}

#[test]
fn sbc_with_borrow_clears_carry() {
    // SEC; LDA #$05; SBC #$10 -> 0xF5 with C=0 (borrow taken), N=1.
    let (mut cpu, mut bus) = system(&[0x38, 0xA9, 0x05, 0xE9, 0x10]);
    run(&mut cpu, &mut bus, 3);
    assert_eq!(cpu.acc, 0xF5);
    assert_eq!(cpu.status.c, 0);
    assert_eq!(cpu.status.n, 1);
}

#[test]
fn pla_sets_flags_from_the_pulled_value() {
    let (mut cpu, mut bus) = system(&[0xA9, 0x01, 0x68]);
    cpu.sp = 0xFC;
    bus.write(0x01FD, 0x00);
    run(&mut cpu, &mut bus, 2);
    assert_eq!(cpu.acc, 0x00);
    assert_eq!(cpu.status.z, 1);
}

#[test]
fn sta_absolute_x_stores_at_the_indexed_address() {
    let (mut cpu, mut bus) = system(&[0xA9, 0x77, 0xA2, 0x10, 0x9D, 0x00, 0x02]);
    run(&mut cpu, &mut bus, 3);
    assert_eq!(bus.read(0x0210), Some(0x77));
}

#[test]
fn countdown_loop_runs_to_completion() {
    // LDX #$03 ; loop: DEX ; BNE loop.
    let (mut cpu, mut bus) = system(&[0xA2, 0x03, 0xCA, 0xD0, 0xFD]);
    run(&mut cpu, &mut bus, 1);
    for expected_x in [2u8, 1] {
        run(&mut cpu, &mut bus, 1);
        assert_eq!(cpu.x, expected_x);
        run(&mut cpu, &mut bus, 1);
        // Branch taken inside the page: three cycles.
        assert_eq!(cpu.cycles, 3);
        assert_eq!(cpu.pc, 0x8002);
    }
    run(&mut cpu, &mut bus, 2);
    assert_eq!(cpu.x, 0x00);
    assert_eq!(cpu.status.z, 1);
    assert_eq!(cpu.cycles, 2);
    assert_eq!(cpu.pc, 0x8005);
}

#[test]
fn program_counter_wraps_modulo_65536() {
    let mut ram = vec![0u8; 0x10000];
    ram[0xFFFF] = 0xEA;
    ram[0x0000] = 0x00;
    let mut bus = Bus::new(Cartridge::new(ram), PPU::new());
    let mut cpu = CPU6502::new();
    cpu.pc = 0xFFFF;
    cpu.tick(&mut bus).expect("step faulted");
    assert_eq!(cpu.pc, 0x0000);
    assert_eq!(cpu.opcode, Mnemonic::Nop);
}
