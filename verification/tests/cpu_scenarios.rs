use gameboy::cartridge::{Cartridge, CartridgeType};
use gameboy::cpu::{Cpu, CpuError, Flag, Instruction, Register};
use gameboy::memory::{Memory, MemoryType};

fn machine() -> (Cpu, Memory) {
    let mut mem = Memory::new();
    mem.load(
        vec![0; 32768],
        &Cartridge { cartidge_type: CartridgeType::RomOnly, rom_size: 32768, ram_size: 0 },
    )
    .unwrap();
    (Cpu::new(), mem)
}

fn place(mem: &mut Memory, at: u16, bytes: &[u8]) {
    for (i, b) in bytes.iter().enumerate() {
        mem.write_byte(at + i as u16, *b);
    }
}

fn flags(cpu: &Cpu) -> (bool, bool, bool, bool) {
    (cpu.get_flag(Flag::Z), cpu.get_flag(Flag::N), cpu.get_flag(Flag::H), cpu.get_flag(Flag::C))
}

#[test]
fn af_keeps_only_the_high_bits_of_f() {
    let mut cpu = Cpu::new();
    for v in [0x0000u16, 0xFFFF, 0x1234, 0x00F0, 0x000F, 0xABCD] {
        cpu.set_af(v);
        assert_eq!(cpu.AF, v & 0xFFF0);
        assert_eq!(cpu.get_f() & 0x0F, 0);
    }
}

#[test]
fn pop_af_masks_the_low_bits() {
    let (mut cpu, mut mem) = machine();
    cpu.SP = 0xC100;
    mem.write_word(0xC100, 0x12FF);
    place(&mut mem, 0xC000, &[0xF1]);
    cpu.PC = 0xC000;
    assert_eq!(cpu.fetch_decode(&mut mem), Ok(12));
    assert_eq!(cpu.AF, 0x12F0);
    assert_eq!(cpu.SP, 0xC102);
    assert_eq!(cpu.PC, 0xC001);
}

#[test]
fn inc_wraps_to_zero() {
    let (mut cpu, mut mem) = machine();
    for carry in [false, true] {
        cpu.set_af(0);
        cpu.set_flag(Flag::C, carry);
        cpu.set_b(0xFF);
        let instr = cpu.execute(0x04, &mut mem);
        assert!(matches!(instr, Instruction::Valid(0x04, 1, 4, "INC")));
        assert_eq!(cpu.get_b(), 0x00);
        assert_eq!(flags(&cpu), (true, false, true, carry));
    }
}

#[test]
fn dec_wraps_to_ff() {
    let (mut cpu, mut mem) = machine();
    for carry in [false, true] {
        cpu.set_af(0);
        cpu.set_flag(Flag::C, carry);
        cpu.set_b(0x00);
        let instr = cpu.execute(0x05, &mut mem);
        assert!(matches!(instr, Instruction::Valid(0x05, 1, 4, "DEC")));
        assert_eq!(cpu.get_b(), 0xFF);
        assert_eq!(flags(&cpu), (false, true, true, carry));
    }
}

#[test]
fn add_hl_hl_carries() {
    let (mut cpu, mut mem) = machine();
    cpu.set_af(0);
    cpu.HL = 0x0FFF;
    let instr = cpu.execute(0x29, &mut mem);
    assert!(matches!(instr, Instruction::Valid(0x29, 1, 8, "ADD")));
    assert_eq!(cpu.HL, 0x1FFE);
    // 0xFFF + 0xFFF carries out of bit 11 and not out of bit 15.
    assert_eq!(flags(&cpu), (false, false, true, false));

    for zero in [false, true] {
        cpu.set_af(0);
        cpu.set_flag(Flag::Z, zero);
        cpu.set_flag(Flag::N, true);
        cpu.HL = 0x8000;
        cpu.execute(0x29, &mut mem);
        assert_eq!(cpu.HL, 0x0000);
        assert_eq!(flags(&cpu), (zero, false, false, true));
    }
}

#[test]
fn ld_hl_sp_plus_negative_offset() {
    let (mut cpu, mut mem) = machine();
    cpu.set_af(0x00F0);
    cpu.SP = 0x0005;
    place(&mut mem, 0xC000, &[0xF8, 0xFB]);
    cpu.PC = 0xC000;
    assert_eq!(cpu.fetch_decode(&mut mem), Ok(12));
    assert_eq!(cpu.HL, 0x0000);
    assert_eq!(cpu.SP, 0x0005);
    assert_eq!(cpu.PC, 0xC002);
    // Low byte 0x05 + 0xFB: 0x5 + 0xB carries out of bit 3, and the
    // bytes carry out of bit 7.
    assert_eq!(flags(&cpu), (false, false, true, true));
}

#[test]
fn add_sp_signed() {
    let (mut cpu, mut mem) = machine();
    cpu.set_af(0x00F0);
    cpu.SP = 0xFFF8;
    place(&mut mem, 0xC000, &[0xE8, 0x08]);
    cpu.PC = 0xC000;
    assert_eq!(cpu.fetch_decode(&mut mem), Ok(16));
    assert_eq!(cpu.SP, 0x0000);
    assert_eq!(flags(&cpu), (false, false, true, true));

    cpu.SP = 0x0100;
    place(&mut mem, 0xC000, &[0xE8, 0xFF]);
    cpu.PC = 0xC000;
    cpu.fetch_decode(&mut mem).unwrap();
    assert_eq!(cpu.SP, 0x00FF);
    assert_eq!(flags(&cpu), (false, false, false, false));
}

#[test]
fn rlca_scenario() {
    let (mut cpu, mut mem) = machine();
    cpu.set_af(0x00F0);
    cpu.set_a(0b10001000);
    cpu.set_flag(Flag::C, false);
    let instr = cpu.execute(0x07, &mut mem);
    assert!(matches!(instr, Instruction::Valid(0x07, 1, 4, "RLCA")));
    assert_eq!(cpu.get_a(), 0b00010001);
    assert_eq!(flags(&cpu), (false, false, false, true));
}

#[test]
fn rra_scenario() {
    let (mut cpu, mut mem) = machine();
    cpu.set_af(0x00F0);
    cpu.set_a(0b10001001);
    cpu.set_flag(Flag::C, true);
    let instr = cpu.execute(0x1F, &mut mem);
    assert!(matches!(instr, Instruction::Valid(0x1F, 1, 4, "RRA")));
    assert_eq!(cpu.get_a(), 0b11000100);
    assert_eq!(flags(&cpu), (false, false, false, true));
}

#[test]
fn rrca_and_rla() {
    let (mut cpu, mut mem) = machine();
    cpu.set_af(0);
    cpu.set_a(0b00000001);
    cpu.execute(0x0F, &mut mem);
    assert_eq!(cpu.get_a(), 0b10000000);
    assert_eq!(flags(&cpu), (false, false, false, true));

    cpu.set_af(0);
    cpu.set_a(0b10000000);
    cpu.execute(0x17, &mut mem);
    assert_eq!(cpu.get_a(), 0);
    assert_eq!(flags(&cpu), (false, false, false, true));
}

#[test]
fn call_then_ret() {
    // The cartridge holds a RET at 0x1234.
    let mut image = vec![0u8; 32768];
    image[0x1234] = 0xC9;
    let mut mem = Memory::new();
    mem.load(
        image,
        &Cartridge { cartidge_type: CartridgeType::RomOnly, rom_size: 32768, ram_size: 0 },
    )
    .unwrap();
    let mut cpu = Cpu::new();
    cpu.SP = 0xFFFE;
    cpu.PC = 0xC000;
    place(&mut mem, 0xC000, &[0xCD, 0x34, 0x12, 0xC9]);
    assert_eq!(cpu.fetch_decode(&mut mem), Ok(24));
    assert_eq!(cpu.SP, 0xFFFC);
    assert_eq!(cpu.PC, 0x1234);
    assert_eq!(mem.read_byte(0xFFFC), 0x03);
    assert_eq!(mem.read_byte(0xFFFD), 0xC0);

    assert_eq!(mem.read_byte(0x1234), 0xC9);
    assert_eq!(cpu.fetch_decode(&mut mem), Ok(16));
    assert_eq!(cpu.PC, 0xC003);
    assert_eq!(cpu.SP, 0xFFFE);
}

#[test]
fn ret_through_the_table() {
    let (mut cpu, mut mem) = machine();
    cpu.SP = 0xFFFC;
    mem.write_word(0xFFFC, 0xC003);
    cpu.PC = 0x1234;
    let instr = cpu.execute(0xC9, &mut mem);
    assert!(matches!(instr, Instruction::Valid(0xC9, 0, 16, "RET")));
    assert_eq!(cpu.PC, 0xC003);
    assert_eq!(cpu.SP, 0xFFFE);
}

#[test]
fn conditional_jumps_cost_more_when_taken() {
    let (mut cpu, mut mem) = machine();
    place(&mut mem, 0xC000, &[0x20, 0x05]);
    cpu.set_af(0);
    cpu.PC = 0xC000;
    assert_eq!(cpu.fetch_decode(&mut mem), Ok(12));
    assert_eq!(cpu.PC, 0xC007);

    cpu.set_flag(Flag::Z, true);
    cpu.PC = 0xC000;
    assert_eq!(cpu.fetch_decode(&mut mem), Ok(8));
    assert_eq!(cpu.PC, 0xC002);

    place(&mut mem, 0xC000, &[0x18, 0xFE]);
    cpu.PC = 0xC000;
    assert_eq!(cpu.fetch_decode(&mut mem), Ok(12));
    assert_eq!(cpu.PC, 0xC000);

    place(&mut mem, 0xC000, &[0xCA, 0x00, 0xD0]);
    cpu.PC = 0xC000;
    assert_eq!(cpu.fetch_decode(&mut mem), Ok(16));
    assert_eq!(cpu.PC, 0xD000);
    cpu.set_flag(Flag::Z, false);
    cpu.PC = 0xC000;
    assert_eq!(cpu.fetch_decode(&mut mem), Ok(12));
    assert_eq!(cpu.PC, 0xC003);

    place(&mut mem, 0xC000, &[0xC4, 0x00, 0xD0]);
    cpu.SP = 0xFFFE;
    cpu.PC = 0xC000;
    assert_eq!(cpu.fetch_decode(&mut mem), Ok(24));
    assert_eq!(cpu.PC, 0xD000);
    assert_eq!(mem.read_word(0xFFFC), 0xC003);
    cpu.set_flag(Flag::Z, true);
    cpu.PC = 0xC000;
    assert_eq!(cpu.fetch_decode(&mut mem), Ok(12));
    assert_eq!(cpu.PC, 0xC003);

    place(&mut mem, 0xC000, &[0xC0]);
    cpu.PC = 0xC000;
    assert_eq!(cpu.fetch_decode(&mut mem), Ok(8));
    assert_eq!(cpu.PC, 0xC001);
    cpu.set_flag(Flag::Z, false);
    cpu.SP = 0xFFFC;
    cpu.PC = 0xC000;
    assert_eq!(cpu.fetch_decode(&mut mem), Ok(20));
    assert_eq!(cpu.PC, 0xC003);
}

#[test]
fn rst_pushes_the_next_instruction() {
    let (mut cpu, mut mem) = machine();
    place(&mut mem, 0xC000, &[0xEF]);
    cpu.SP = 0xFFFE;
    cpu.PC = 0xC000;
    cpu.IME = true;
    assert_eq!(cpu.fetch_decode(&mut mem), Ok(16));
    assert_eq!(cpu.PC, 0x0028);
    assert_eq!(mem.read_word(0xFFFC), 0xC001);
    assert!(cpu.IME);
}

#[test]
fn illegal_opcodes_are_errors() {
    for opcode in [0xD3u8, 0xDB, 0xDD, 0xE3, 0xE4, 0xEB, 0xEC, 0xED, 0xF4, 0xFC, 0xFD] {
        let (mut cpu, mut mem) = machine();
        place(&mut mem, 0xC000, &[opcode]);
        cpu.PC = 0xC000;
        assert_eq!(
            cpu.fetch_decode(&mut mem),
            Err(CpuError::IllegalOpcode { pc: 0xC000, opcode })
        );
        assert_eq!(cpu.PC, 0xC000);
        assert!(matches!(cpu.execute(opcode, &mut mem), Instruction::Invalid(_)));
    }
}

#[test]
fn every_other_base_opcode_runs() {
    let illegal = [0xCBu8, 0xD3, 0xDB, 0xDD, 0xE3, 0xE4, 0xEB, 0xEC, 0xED, 0xF4, 0xFC, 0xFD];
    for opcode in 0..=255u8 {
        let (mut cpu, mut mem) = machine();
        cpu.PC = 0xC000;
        cpu.HL = 0xC800;
        cpu.SP = 0xD000;
        let instr = cpu.execute(opcode, &mut mem);
        match instr {
            Instruction::Valid(op, length, cycles, _) => {
                assert!(!illegal.contains(&opcode));
                assert_eq!(op, opcode);
                assert!(length <= 3);
                assert!(cycles >= 4 && cycles <= 24 && cycles % 4 == 0);
            }
            _ => assert!(illegal.contains(&opcode)),
        }
        assert_eq!(cpu.AF & 0x000F, 0);
    }
}

#[test]
fn every_prefixed_opcode_runs() {
    for opcode in 0..=255u8 {
        let (mut cpu, mut mem) = machine();
        cpu.HL = 0xC800;
        let instr = cpu.execute_cb(opcode, &mut mem);
        match instr {
            Instruction::Valid(op, length, cycles, _) => {
                assert_eq!(op, opcode);
                assert_eq!(length, 2);
                let on_memory = opcode % 8 == 6;
                let bit_test = opcode / 64 == 1;
                let expected = if !on_memory { 8 } else if bit_test { 12 } else { 16 };
                assert_eq!(cycles, expected);
            }
            _ => panic!("prefixed opcode {opcode:#04x} did not run"),
        }
    }
}

#[test]
fn prefixed_opcodes_through_fetch() {
    let (mut cpu, mut mem) = machine();
    // SWAP A
    place(&mut mem, 0xC000, &[0xCB, 0x37]);
    cpu.set_af(0x00F0);
    cpu.set_a(0xF1);
    cpu.PC = 0xC000;
    assert_eq!(cpu.fetch_decode(&mut mem), Ok(8));
    assert_eq!(cpu.get_a(), 0x1F);
    assert_eq!(flags(&cpu), (false, false, false, false));
    assert_eq!(cpu.PC, 0xC002);

    // BIT 7,(HL)
    place(&mut mem, 0xC000, &[0xCB, 0x7E]);
    cpu.HL = 0xC100;
    mem.write_byte(0xC100, 0x7F);
    cpu.set_flag(Flag::C, true);
    cpu.PC = 0xC000;
    assert_eq!(cpu.fetch_decode(&mut mem), Ok(12));
    assert_eq!(flags(&cpu), (true, false, true, true));

    // SET 0,(HL) and RES 7,(HL)
    place(&mut mem, 0xC000, &[0xCB, 0xC6]);
    cpu.PC = 0xC000;
    mem.write_byte(0xC100, 0x80);
    assert_eq!(cpu.fetch_decode(&mut mem), Ok(16));
    assert_eq!(mem.read_byte(0xC100), 0x81);
    place(&mut mem, 0xC000, &[0xCB, 0xBE]);
    cpu.PC = 0xC000;
    assert_eq!(cpu.fetch_decode(&mut mem), Ok(16));
    assert_eq!(mem.read_byte(0xC100), 0x01);

    // SRA B keeps the sign; SLA, SRL
    cpu.set_b(0x81);
    cpu.execute_cb(0x28, &mut mem);
    assert_eq!(cpu.get_b(), 0xC0);
    assert!(cpu.get_flag(Flag::C));
    cpu.set_b(0x81);
    cpu.execute_cb(0x20, &mut mem);
    assert_eq!(cpu.get_b(), 0x02);
    assert!(cpu.get_flag(Flag::C));
    cpu.set_b(0x81);
    cpu.execute_cb(0x38, &mut mem);
    assert_eq!(cpu.get_b(), 0x40);
    assert!(cpu.get_flag(Flag::C));
}

#[test]
fn arithmetic_flags() {
    let (mut cpu, _mem) = machine();
    cpu.set_af(0);
    cpu.set_a(0x3A);
    cpu.add_a(0xC6);
    assert_eq!(cpu.get_a(), 0x00);
    assert_eq!(flags(&cpu), (true, false, true, true));

    cpu.set_a(0xE1);
    cpu.set_flags(false, false, false, true);
    cpu.adc_a(0x0F);
    assert_eq!(cpu.get_a(), 0xF1);
    assert_eq!(flags(&cpu), (false, false, true, false));

    cpu.set_a(0x3E);
    cpu.sub_a(0x3E);
    assert_eq!(cpu.get_a(), 0x00);
    assert_eq!(flags(&cpu), (true, true, false, false));

    cpu.set_a(0x3B);
    cpu.set_flags(false, false, false, true);
    cpu.sbc_a(0x4F);
    assert_eq!(cpu.get_a(), 0xEB);
    assert_eq!(flags(&cpu), (false, true, true, true));

    cpu.set_a(0x5A);
    cpu.and_a(0x3F);
    assert_eq!(cpu.get_a(), 0x1A);
    assert_eq!(flags(&cpu), (false, false, true, false));

    cpu.set_a(0x5A);
    cpu.or_a(0x0F);
    assert_eq!(cpu.get_a(), 0x5F);
    assert_eq!(flags(&cpu), (false, false, false, false));

    cpu.set_a(0xFF);
    cpu.xor_a(0xFF);
    assert_eq!(cpu.get_a(), 0x00);
    assert_eq!(flags(&cpu), (true, false, false, false));

    cpu.set_a(0x3C);
    cpu.cp_a(0x40);
    assert_eq!(cpu.get_a(), 0x3C);
    assert_eq!(flags(&cpu), (false, true, false, true));
}

#[test]
fn decimal_adjust() {
    let (mut cpu, mut mem) = machine();
    // 0x45 + 0x38 = 0x7D, adjusted to 0x83.
    cpu.set_af(0);
    cpu.set_a(0x45);
    cpu.add_a(0x38);
    cpu.execute(0x27, &mut mem);
    assert_eq!(cpu.get_a(), 0x83);
    assert_eq!(flags(&cpu), (false, false, false, false));

    // 0x83 - 0x38 = 0x4B, adjusted to 0x45.
    cpu.sub_a(0x38);
    cpu.execute(0x27, &mut mem);
    assert_eq!(cpu.get_a(), 0x45);
    assert_eq!(flags(&cpu), (false, true, false, false));

    // 0x99 + 0x01 = 0x9A, adjusted to 0x00 with carry.
    cpu.set_af(0);
    cpu.set_a(0x99);
    cpu.add_a(0x01);
    cpu.execute(0x27, &mut mem);
    assert_eq!(cpu.get_a(), 0x00);
    assert_eq!(flags(&cpu), (true, false, false, true));
}

#[test]
fn complement_and_carry_flags() {
    let (mut cpu, mut mem) = machine();
    cpu.set_af(0x0080);
    cpu.set_a(0x35);
    cpu.execute(0x2F, &mut mem);
    assert_eq!(cpu.get_a(), 0xCA);
    assert_eq!(flags(&cpu), (true, true, true, false));
    cpu.execute(0x37, &mut mem);
    assert_eq!(flags(&cpu), (true, false, false, true));
    cpu.execute(0x3F, &mut mem);
    assert_eq!(flags(&cpu), (true, false, false, false));
}

#[test]
fn sixteen_bit_steps_leave_the_flags() {
    let (mut cpu, mut mem) = machine();
    cpu.set_af(0x00F0);
    cpu.BC = 0xFFFF;
    let instr = cpu.execute(0x03, &mut mem);
    assert!(matches!(instr, Instruction::Valid(0x03, 1, 8, "INC")));
    assert_eq!(cpu.BC, 0x0000);
    cpu.execute(0x0B, &mut mem);
    assert_eq!(cpu.BC, 0xFFFF);
    assert_eq!(cpu.get_f(), 0xF0);
    cpu.SP = 0;
    cpu.execute(0x3B, &mut mem);
    assert_eq!(cpu.SP, 0xFFFF);
}

#[test]
fn loads_through_memory() {
    let (mut cpu, mut mem) = machine();
    // LD (a16),SP
    place(&mut mem, 0xC000, &[0x08, 0x00, 0xC1]);
    cpu.SP = 0xBEEF;
    cpu.PC = 0xC000;
    assert_eq!(cpu.fetch_decode(&mut mem), Ok(20));
    assert_eq!(mem.read_word(0xC100), 0xBEEF);
    assert_eq!(cpu.PC, 0xC003);

    // LDH (a8),A and LDH A,(a8)
    place(&mut mem, 0xC000, &[0xE0, 0x80, 0xF0, 0x80]);
    cpu.set_a(0x5A);
    cpu.PC = 0xC000;
    assert_eq!(cpu.fetch_decode(&mut mem), Ok(12));
    assert_eq!(mem.read_byte(0xFF80), 0x5A);
    cpu.set_a(0);
    assert_eq!(cpu.fetch_decode(&mut mem), Ok(12));
    assert_eq!(cpu.get_a(), 0x5A);

    // LD (C),A is one byte long
    place(&mut mem, 0xC000, &[0xE2]);
    cpu.set_c(0x81);
    cpu.set_a(0x77);
    cpu.PC = 0xC000;
    assert_eq!(cpu.fetch_decode(&mut mem), Ok(8));
    assert_eq!(cpu.PC, 0xC001);
    assert_eq!(mem.read_byte(0xFF81), 0x77);

    // INC (HL) works on one byte
    place(&mut mem, 0xC000, &[0x34]);
    cpu.HL = 0xC200;
    mem.write_word(0xC200, 0x12FF);
    cpu.PC = 0xC000;
    assert_eq!(cpu.fetch_decode(&mut mem), Ok(12));
    assert_eq!(mem.read_word(0xC200), 0x1200);
    assert_eq!(cpu.PC, 0xC001);

    // LD C,d8 loads C
    place(&mut mem, 0xC000, &[0x0E, 0x42]);
    cpu.BC = 0;
    cpu.DE = 0;
    cpu.PC = 0xC000;
    assert_eq!(cpu.fetch_decode(&mut mem), Ok(8));
    assert_eq!(cpu.BC, 0x0042);
    assert_eq!(cpu.DE, 0x0000);
}

#[test]
fn post_boot_registers() {
    let cpu = Cpu::new();
    assert_eq!(cpu.AF, 0x01B0);
    assert_eq!(cpu.BC, 0x0013);
    assert_eq!(cpu.DE, 0x00D8);
    assert_eq!(cpu.HL, 0x014D);
    assert_eq!(cpu.SP, 0xFFFE);
    assert_eq!(cpu.PC, 0x0100);
    assert!(!cpu.IME);
    assert!(!cpu.HALT);
}

#[test]
fn interrupt_dispatch() {
    let (mut cpu, mut mem) = machine();
    cpu.IME = true;
    cpu.PC = 0xC123;
    cpu.SP = 0xFFFE;
    mem.write_byte(0xFFFF, 0x1F);
    mem.write_byte(0xFF0F, 0x14);
    assert_eq!(mem.read_byte(0xFF0F), 0xF4);
    assert_eq!(cpu.fetch_decode(&mut mem), Ok(20));
    // The timer (bit 2) goes before the joypad (bit 4).
    assert_eq!(cpu.PC, 0x0050);
    assert_eq!(cpu.SP, 0xFFFC);
    assert_eq!(mem.read_word(0xFFFC), 0xC123);
    assert!(!cpu.IME);
    assert_eq!(mem.read_byte(0xFF0F), 0xF0);
    assert_eq!(cpu.triggered_interruption, Some(2));
    assert_eq!(cpu.get_clock_t(), 20);
}

#[test]
fn interrupt_vectors_by_priority() {
    for k in 0..5u8 {
        let (mut cpu, mut mem) = machine();
        cpu.IME = true;
        cpu.PC = 0xC000;
        mem.write_byte(0xFFFF, 0x1F);
        mem.write_byte(0xFF0F, 0x1F & !((1u8 << k) - 1));
        assert_eq!(cpu.fetch_decode(&mut mem), Ok(20));
        assert_eq!(cpu.PC, 0x40 + 8 * k as u16);
    }
}

#[test]
fn masked_interrupts_wait() {
    let (mut cpu, mut mem) = machine();
    place(&mut mem, 0xC000, &[0x00]);
    cpu.PC = 0xC000;
    cpu.IME = true;
    mem.write_byte(0xFFFF, 0x01);
    mem.write_byte(0xFF0F, 0x02);
    assert_eq!(cpu.fetch_decode(&mut mem), Ok(4));
    assert_eq!(cpu.PC, 0xC001);
    cpu.IME = false;
    mem.write_byte(0xFF0F, 0x01);
    cpu.PC = 0xC000;
    assert_eq!(cpu.fetch_decode(&mut mem), Ok(4));
    assert_eq!(cpu.PC, 0xC001);
}

#[test]
fn ei_takes_effect_after_the_next_instruction() {
    let (mut cpu, mut mem) = machine();
    // EI; NOP; NOP
    place(&mut mem, 0xC000, &[0xFB, 0x00, 0x00]);
    cpu.PC = 0xC000;
    cpu.fetch_decode(&mut mem).unwrap();
    assert!(!cpu.IME);
    cpu.fetch_decode(&mut mem).unwrap();
    assert!(cpu.IME);

    // EI; DI leaves interrupts off.
    let (mut cpu, mut mem) = machine();
    place(&mut mem, 0xC000, &[0xFB, 0xF3, 0x00]);
    cpu.PC = 0xC000;
    cpu.fetch_decode(&mut mem).unwrap();
    cpu.fetch_decode(&mut mem).unwrap();
    assert!(!cpu.IME);
    cpu.fetch_decode(&mut mem).unwrap();
    assert!(!cpu.IME);
}

#[test]
fn reti_sets_ime_at_once() {
    let (mut cpu, mut mem) = machine();
    place(&mut mem, 0xC000, &[0xD9]);
    cpu.SP = 0xC100;
    mem.write_word(0xC100, 0xC200);
    cpu.PC = 0xC000;
    assert_eq!(cpu.fetch_decode(&mut mem), Ok(16));
    assert!(cpu.IME);
    assert_eq!(cpu.PC, 0xC200);
}

#[test]
fn halt_waits_for_an_interrupt() {
    let (mut cpu, mut mem) = machine();
    place(&mut mem, 0xC000, &[0x76, 0x3C]);
    cpu.PC = 0xC000;
    cpu.IME = true;
    mem.write_byte(0xFFFF, 0x04);
    assert_eq!(cpu.fetch_decode(&mut mem), Ok(4));
    assert!(cpu.HALT);
    assert_eq!(cpu.PC, 0xC001);
    for _ in 0..3 {
        assert_eq!(cpu.fetch_decode(&mut mem), Ok(4));
        assert!(cpu.HALT);
        assert_eq!(cpu.PC, 0xC001);
    }
    mem.write_byte(0xFF0F, 0x04);
    assert_eq!(cpu.fetch_decode(&mut mem), Ok(20));
    assert!(!cpu.HALT);
    assert_eq!(cpu.PC, 0x0050);
    assert_eq!(mem.read_word(cpu.SP), 0xC001);
}

#[test]
fn halt_wakes_without_ime() {
    let (mut cpu, mut mem) = machine();
    place(&mut mem, 0xC000, &[0x76, 0x3C]);
    cpu.PC = 0xC000;
    cpu.set_a(0);
    mem.write_byte(0xFFFF, 0x04);
    cpu.fetch_decode(&mut mem).unwrap();
    assert!(cpu.HALT);
    mem.write_byte(0xFF0F, 0x04);
    cpu.fetch_decode(&mut mem).unwrap();
    assert!(!cpu.HALT);
    assert_eq!(cpu.get_a(), 1);
    assert_eq!(cpu.PC, 0xC002);
    assert_eq!(mem.read_byte(0xFF0F) & 0x04, 0x04);
}

#[test]
fn halt_with_a_pending_interrupt_repeats_a_byte() {
    let (mut cpu, mut mem) = machine();
    // HALT; LD A,0x14 is read as LD A,0x3E; INC D
    place(&mut mem, 0xC000, &[0x76, 0x3E, 0x14]);
    cpu.PC = 0xC000;
    cpu.DE = 0;
    mem.write_byte(0xFFFF, 0x01);
    mem.write_byte(0xFF0F, 0x01);
    cpu.fetch_decode(&mut mem).unwrap();
    assert!(!cpu.HALT);
    assert!(cpu.halt_bug);
    cpu.fetch_decode(&mut mem).unwrap();
    assert_eq!(cpu.get_a(), 0x3E);
    assert_eq!(cpu.PC, 0xC002);
    assert!(!cpu.halt_bug);
    cpu.fetch_decode(&mut mem).unwrap();
    assert_eq!(cpu.get_d(), 1);
}

#[test]
fn steps_are_counted() {
    let (mut cpu, mut mem) = machine();
    place(&mut mem, 0xC000, &[0x00, 0x00]);
    cpu.PC = 0xC000;
    assert!(!cpu.has_reached_operation_count(0));
    cpu.tick(&mut mem).unwrap();
    cpu.tick(&mut mem).unwrap();
    assert!(cpu.has_reached_operation_count(2));
    assert!(!cpu.has_reached_operation_count(3));
    assert_eq!(cpu.PC(), 0xC002);
}

#[test]
fn relative_jump_helpers() {
    let mut cpu = Cpu::new();
    cpu.PC = 0x0100;
    cpu.jump_relative(-2);
    assert_eq!(cpu.PC, 0x0100);
    cpu.jump_relative(5);
    assert_eq!(cpu.PC, 0x0107);
    cpu.set_af(0);
    assert!(!cpu.jump_relative_with_flag(5, Flag::Z, true));
    assert_eq!(cpu.PC, 0x0107);
    assert!(cpu.jump_relative_with_flag(-128, Flag::Z, false));
    assert_eq!(cpu.PC, 0x0089);
    assert_eq!(Cpu::offset_signed(0x0000, 0xFF), 0xFFFF);
}

#[test]
fn static_arithmetic_helpers() {
    assert_eq!(Cpu::overflow_add(0xFF, 0x02), (0x01, true));
    assert_eq!(Cpu::overflow_add(0x01, 0x02), (0x03, false));
    assert_eq!(Cpu::overflow_add_16(0xFFFF, 0x0002), (0x0001, true));
    assert_eq!(Cpu::borrow_sub(0x01, 0x02), (0xFF, true));
    assert_eq!(Cpu::borrow_sub_16(0x0001, 0x0002), (0xFFFF, true));
    assert!(Cpu::is_half_carry_add(0x0F, 0x01));
    assert!(!Cpu::is_half_carry_add(0x0E, 0x01));
    assert!(Cpu::is_half_borrowing_sub(0x10, 0x01));
    assert!(Cpu::is_half_carry_on_add_16(0x0FFF, 0x0001));
    assert!(Cpu::is_half_carry_on_sub_16(0x1000, 0x0001));
    assert_eq!(Cpu::get_upper(0x1234), 0x12);
    assert_eq!(Cpu::get_lower(0x1234), 0x34);
    assert_eq!(Cpu::set_upper(0x1234, 0xAB), 0xAB34);
    assert_eq!(Cpu::set_lower(0x1234, 0xAB), 0x12AB);
    assert_eq!(Cpu::daa_adjust(0x7D, false, false, false), (0x83, false));

    let mut cpu = Cpu::new();
    cpu.set_af(0x0080);
    assert_eq!(cpu.add_16(0x8000, 0x8000), 0x0000);
    assert!(cpu.get_flag(Flag::Z) && cpu.get_flag(Flag::C) && !cpu.get_flag(Flag::N));
    assert_eq!(cpu.sub_16(0x0000, 0x0001), 0xFFFF);
    assert!(cpu.get_flag(Flag::N) && cpu.get_flag(Flag::C) && cpu.get_flag(Flag::H));
    assert_eq!(cpu.inc_8(0x0F), 0x10);
    assert_eq!(cpu.dec_8(0x10), 0x0F);
    cpu.set_l(0x01);
    cpu.dec_register(Register::L);
    assert_eq!(cpu.get_l(), 0x00);
    assert!(cpu.get_flag(Flag::Z) && cpu.get_flag(Flag::N) && !cpu.get_flag(Flag::H));
    cpu.set_clocks(3, 12);
    assert_eq!(cpu.get_clock_t(), 12);
    cpu.set_f(0xFF);
    assert_eq!(cpu.get_f(), 0xF0);
}
