use gba::bus::{is_word_readable, Bus};
use gba::cpu::Cpu;
use gba::gba::Gba;
use gba::program_status_register::ProgramStatusRegister;
use gba::thumb::{decode_instruction, ThumbInstruction};

/// Writes `opcode` at the program counter and runs one cycle.
fn step(cpu: &mut Cpu, bus: &mut Bus, opcode: u16) {
    bus.write_16(cpu.get_program_counter() as usize, opcode);
    assert!(cpu.can_cycle(bus));
    cpu.cpu_cycle(bus);
}

// Status register

#[test]
fn status_register_starts_clear() {
    let psr = ProgramStatusRegister::default();
    assert!(!psr.get_negative());
    assert!(!psr.get_zero());
    assert!(!psr.get_carry());
    assert!(!psr.get_overflow());
    assert!(!psr.get_irq_disable());
    assert!(!psr.get_fiq_disable());
    assert!(!psr.get_state_bit());
    let word: u32 = psr.into();
    assert_eq!(word, 0);
}

#[test]
fn status_register_setters_read_back() {
    let mut psr = ProgramStatusRegister::default();
    psr.set_carry(true);
    assert!(psr.get_carry());
    assert!(!psr.get_zero());
    psr.set_zero(true);
    psr.set_carry(false);
    assert!(psr.get_zero());
    assert!(!psr.get_carry());
    psr.set_irq_disable(true);
    psr.set_fiq_disable(true);
    psr.set_state_bit(true);
    psr.set_overflow(true);
    psr.set_negative(true);
    assert!(psr.get_irq_disable() && psr.get_fiq_disable() && psr.get_state_bit());
    assert!(psr.get_overflow() && psr.get_negative());
}

#[test]
fn status_register_packs_flag_bits() {
    let mut psr = ProgramStatusRegister::default();
    psr.set_negative(true);
    psr.set_carry(true);
    let word: u32 = psr.into();
    assert_eq!(word, 0xA000);

    let mut psr = ProgramStatusRegister::default();
    psr.set_zero(true);
    psr.set_overflow(true);
    psr.set_irq_disable(true);
    psr.set_fiq_disable(true);
    psr.set_state_bit(true);
    let word: u32 = psr.into();
    assert_eq!(word, 0x4000 | 0x1000 | 0x80 | 0x40 | 0x20);
}

// Bus

#[test]
fn bus_starts_zeroed() {
    let bus = Bus::new();
    assert_eq!(bus.read_32(0), 0);
    assert_eq!(bus.read_32(0x0200_0000), 0);
    assert_eq!(bus.read_32(0x0600_0000), 0);
    assert_eq!(bus.read_32(0x0700_03FC), 0);
}

#[test]
fn bus_words_are_big_endian() {
    let mut bus = Bus::new();
    bus.write_16(0x10, 0x1234);
    bus.write_16(0x12, 0x5678);
    assert_eq!(bus.read_32(0x10), 0x1234_5678);
    assert_eq!(bus.read_16(0x10), 0x1234);
    assert_eq!(bus.read_8(0x10), 0x12);
    assert_eq!(bus.read_16(0x11), 0x3456);
}

#[test]
fn bus_read_after_write_16() {
    let mut bus = Bus::new();
    bus.write_16(0x3FFC, 0xBEEF);
    assert_eq!(bus.read_16(0x3FFC), 0xBEEF);
    assert_eq!(bus.read_8(0x3FFC), 0xBE);
    assert_eq!(bus.read_32(0x3FF8), 0);
}

#[test]
fn bus_read_after_write_32_and_8() {
    let mut bus = Bus::new();
    bus.write_32(0x20, 0xDEAD_BEEF);
    assert_eq!(bus.read_32(0x20), 0xDEAD_BEEF);
    assert_eq!(bus.read_16(0x20), 0xDEAD);
    bus.write_8(0x21, 0x42);
    assert_eq!(bus.read_32(0x20), 0xDE42_BEEF);
    assert_eq!(bus.read_8(0x21), 0x42);
}

#[test]
fn bus_unmapped_reads_zero() {
    let mut bus = Bus::new();
    bus.write_16(0, 0xFFFF);
    assert_eq!(bus.read_32(0x0100_0000), 0);
    assert_eq!(bus.read_32(0x0800_0000), 0);
    assert_eq!(bus.read_16(0x0400_03FF), 0);
}

#[test]
fn bus_word_readability_at_region_ends() {
    assert!(is_word_readable(0x3FFC));
    assert!(!is_word_readable(0x3FFD));
    assert!(is_word_readable(0x0400_03FB));
    assert!(!is_word_readable(0x0400_03FC));
    assert!(is_word_readable(0x0400_03FF));
    assert!(is_word_readable(0x0623_FFFC));
    assert!(!is_word_readable(0x0623_FFFF));
    assert!(is_word_readable(0x0100_0000));
}

// Decoder

#[test]
fn decoder_picks_formats() {
    assert_eq!(decode_instruction(0xDF12), ThumbInstruction::SoftwareInterrupt);
    assert_eq!(decode_instruction(0xE123), ThumbInstruction::UnconditionalBranch);
    assert_eq!(decode_instruction(0xD123), ThumbInstruction::ConditionalBranch);
    assert_eq!(decode_instruction(0xC123), ThumbInstruction::MultipleLoadstore);
    assert_eq!(decode_instruction(0xF123), ThumbInstruction::LongBranchWithLink);
    assert_eq!(decode_instruction(0xB012), ThumbInstruction::AddOffsetToStackPointer);
    assert_eq!(decode_instruction(0xB612), ThumbInstruction::PushPopRegisters);
    assert_eq!(decode_instruction(0x8123), ThumbInstruction::LoadStoreHalfword);
    assert_eq!(decode_instruction(0x9123), ThumbInstruction::SPRelativeLoadStore);
    assert_eq!(decode_instruction(0xA123), ThumbInstruction::LoadAddress);
    assert_eq!(decode_instruction(0x7123), ThumbInstruction::LoadStoreWithImmediateOffset);
    assert_eq!(decode_instruction(0x5088), ThumbInstruction::LoadStoreWithRegisterOffset);
    assert_eq!(decode_instruction(0x5288), ThumbInstruction::LoadStoreSignExtendedByteHalfword);
    assert_eq!(decode_instruction(0x4801), ThumbInstruction::PCRelativeLoad);
    assert_eq!(decode_instruction(0x4480), ThumbInstruction::HiRegisterOperationsBranchExchange);
    assert_eq!(decode_instruction(0x4008), ThumbInstruction::ALUOperations);
    assert_eq!(decode_instruction(0x2342), ThumbInstruction::MoveCompareAddSubtractImmediate);
    assert_eq!(decode_instruction(0x1842), ThumbInstruction::AddSubtract);
    assert_eq!(decode_instruction(0x0001), ThumbInstruction::MoveShiftedRegister);
}

#[test]
fn decoder_leaves_unmatched_opcodes_unimplemented() {
    assert_eq!(decode_instruction(0xB400), ThumbInstruction::Unimplemented);
    assert_eq!(decode_instruction(0xE800), ThumbInstruction::Unimplemented);
    assert_eq!(decode_instruction(0xBE00), ThumbInstruction::PushPopRegisters);
}

// Instructions

#[test]
fn cycle_moves_program_counter_past_opcode() {
    let mut cpu = Cpu::default();
    let mut bus = Bus::new();
    step(&mut cpu, &mut bus, 0xDF00);
    assert_eq!(cpu.get_program_counter(), 2);
    step(&mut cpu, &mut bus, 0x0000);
    assert_eq!(cpu.get_program_counter(), 4);
}

#[test]
fn unconditional_branch_adds_halfword_offset() {
    let mut cpu = Cpu::default();
    let mut bus = Bus::new();
    step(&mut cpu, &mut bus, 0xE001);
    assert_eq!(cpu.get_program_counter(), 4);

    let mut cpu = Cpu::default();
    let mut bus = Bus::new();
    step(&mut cpu, &mut bus, 0xE004);
    assert_eq!(cpu.get_program_counter(), 10);

    let mut cpu = Cpu::default();
    let mut bus = Bus::new();
    step(&mut cpu, &mut bus, 0xE7FE);
    assert_eq!(cpu.get_program_counter(), 0xFFE);
}

#[test]
fn add_offset_to_stack_pointer_up_and_down() {
    let mut cpu = Cpu::default();
    let mut bus = Bus::new();
    cpu.stack_pointer = 0x100;
    step(&mut cpu, &mut bus, 0xB010);
    assert_eq!(cpu.stack_pointer, 0x140);
    step(&mut cpu, &mut bus, 0xB090);
    assert_eq!(cpu.stack_pointer, 0x100);

    let mut cpu = Cpu::default();
    let mut bus = Bus::new();
    step(&mut cpu, &mut bus, 0xB081);
    assert_eq!(cpu.stack_pointer, 0xFFFF_FFFC);
}

#[test]
fn stack_offset_up_then_down_restores_stack_pointer() {
    let mut cpu = Cpu::default();
    let mut bus = Bus::new();
    cpu.stack_pointer = 0xFFFF_FFF0;
    step(&mut cpu, &mut bus, 0xB07F);
    assert_eq!(cpu.stack_pointer, 0x1EC);
    step(&mut cpu, &mut bus, 0xB0FF);
    assert_eq!(cpu.stack_pointer, 0xFFFF_FFF0);
}

#[test]
fn load_store_halfword_offset_is_twice_the_field() {
    let mut cpu = Cpu::default();
    let mut bus = Bus::new();
    bus.write_16(2, 0xBEEF);
    bus.write_16(4, 0x1234);
    cpu.program_counter = 0x10;
    step(&mut cpu, &mut bus, 0x8841);
    assert_eq!(cpu.r01, 0xBEEF);
}

#[test]
fn default_register_file_has_clear_flags() {
    let cpu = Cpu::default();
    assert!(!cpu.program_status_register.get_carry());
    let word: u32 = cpu.program_status_register.into();
    assert_eq!(word, 0);
    assert_eq!(alu(0x4188, 5, 2, false).r01, 2);
}

#[test]
fn push_pop_with_empty_list_changes_nothing() {
    let mut cpu = Cpu::default();
    let mut bus = Bus::new();
    cpu.r00 = 7;
    step(&mut cpu, &mut bus, 0xB600);
    assert_eq!(cpu.r00, 7);
    assert_eq!(cpu.get_program_counter(), 2);
    bus.write_16(2, 0xB601);
    assert!(!cpu.can_cycle(&bus));
}

#[test]
fn move_compare_add_subtract_immediate_operations() {
    let mut cpu = Cpu::default();
    let mut bus = Bus::new();
    step(&mut cpu, &mut bus, 0x2342);
    assert_eq!(cpu.r03, 0x42);
    step(&mut cpu, &mut bus, 0x2B42);
    assert!(cpu.program_status_register.get_zero());
    assert!(cpu.program_status_register.get_carry());
    assert!(!cpu.program_status_register.get_negative());
    step(&mut cpu, &mut bus, 0x3301);
    assert_eq!(cpu.r03, 0x43);
    step(&mut cpu, &mut bus, 0x3B44);
    assert_eq!(cpu.r03, 0xFFFF_FFFF);
}

fn alu(opcode: u16, r0: u32, r1: u32, carry: bool) -> Cpu {
    let mut cpu = Cpu::default();
    let mut bus = Bus::new();
    cpu.r00 = r0;
    cpu.r01 = r1;
    cpu.program_status_register.set_carry(carry);
    step(&mut cpu, &mut bus, opcode);
    cpu
}

#[test]
fn alu_logical_operations() {
    assert_eq!(alu(0x4008, 0b1100, 0b1010, false).r00, 0b1000);
    assert_eq!(alu(0x4048, 0b1100, 0b1010, false).r00, 0b1110);
    assert_eq!(alu(0x4308, 0b1100, 0b1010, false).r00, 0b1110);
    assert_eq!(alu(0x4388, 0b1111, 0b0101, false).r00, 0b1010);
    assert_eq!(alu(0x43C8, 5, 0, false).r00, 0xFFFF_FFFF);
}

#[test]
fn alu_shift_operations() {
    assert_eq!(alu(0x4088, 1, 4, false).r00, 16);
    assert_eq!(alu(0x40C8, 0x100, 4, false).r00, 0x10);
    assert_eq!(alu(0x4108, 0x8000_0000, 4, false).r00, 0xF800_0000);
}

#[test]
fn alu_arithmetic_operations() {
    assert_eq!(alu(0x4148, 1, 2, true).r00, 4);
    assert_eq!(alu(0x4148, 0xFFFF_FFFF, 1, false).r00, 0);
    assert_eq!(alu(0x4188, 5, 2, false).r00, 2);
    assert_eq!(alu(0x4188, 5, 2, true).r00, 3);
    assert_eq!(alu(0x4248, 9, 1, false).r00, 0xFFFF_FFFF);
    assert_eq!(alu(0x4348, 3, 5, false).r00, 15);
    assert_eq!(alu(0x4348, 0x8000_0000, 2, false).r00, 0);
}

#[test]
fn alu_rotate_through_carry() {
    let cpu = alu(0x41C8, 0, 3, false);
    assert_eq!(cpu.r00, 1);
    assert!(cpu.program_status_register.get_carry());
    let cpu = alu(0x41C8, 0, 2, true);
    assert_eq!(cpu.r00, 0x8000_0001);
    assert!(!cpu.program_status_register.get_carry());
}

#[test]
fn alu_test_and_compare_set_flags_only() {
    let cpu = alu(0x4208, 1, 2, false);
    assert_eq!(cpu.r00, 1);
    assert!(cpu.program_status_register.get_zero());
    assert!(!cpu.program_status_register.get_negative());

    let cpu = alu(0x4288, 1, 2, false);
    assert_eq!(cpu.r00, 1);
    assert!(cpu.program_status_register.get_negative());
    assert!(!cpu.program_status_register.get_zero());
    assert!(!cpu.program_status_register.get_carry());
    assert!(cpu.program_status_register.get_overflow());

    let cpu = alu(0x42C8, 0xFFFF_FFFF, 1, false);
    assert_eq!(cpu.r00, 0xFFFF_FFFF);
    assert!(cpu.program_status_register.get_zero());
    assert!(cpu.program_status_register.get_carry());
    assert!(cpu.program_status_register.get_overflow());
}

#[test]
fn alu_register_shift_of_32_is_not_executable() {
    let mut cpu = Cpu::default();
    let mut bus = Bus::new();
    cpu.r01 = 32;
    bus.write_16(0, 0x4088);
    assert!(!cpu.can_cycle(&bus));
    cpu.r01 = 31;
    assert!(cpu.can_cycle(&bus));
}

#[test]
fn hi_register_operations() {
    let mut cpu = Cpu::default();
    let mut bus = Bus::new();
    cpu.r08 = 1;
    cpu.r00 = 2;
    step(&mut cpu, &mut bus, 0x4480);
    assert_eq!(cpu.r08, 3);
    step(&mut cpu, &mut bus, 0x4580);
    assert!(!cpu.program_status_register.get_zero());
    assert!(cpu.program_status_register.get_carry());
    step(&mut cpu, &mut bus, 0x4680);
    assert_eq!(cpu.r08, 2);
}

#[test]
fn branch_exchange_to_thumb_clears_bit_zero() {
    let mut cpu = Cpu::default();
    let mut bus = Bus::new();
    cpu.r00 = 0x101;
    step(&mut cpu, &mut bus, 0x4700);
    assert_eq!(cpu.get_program_counter(), 0x100);

    let mut cpu = Cpu::default();
    let mut bus = Bus::new();
    cpu.r00 = 0x100;
    bus.write_16(0, 0x4700);
    assert!(!cpu.can_cycle(&bus));
}

#[test]
fn pc_relative_load_reads_word() {
    let mut cpu = Cpu::default();
    let mut bus = Bus::new();
    bus.write_16(6, 0x1234);
    bus.write_16(8, 0x5678);
    step(&mut cpu, &mut bus, 0x4801);
    assert_eq!(cpu.r00, 0x1234_5678);
}

#[test]
fn load_address_reads_word() {
    let mut cpu = Cpu::default();
    let mut bus = Bus::new();
    bus.write_32(6, 0xCAFE_F00D);
    step(&mut cpu, &mut bus, 0xA001);
    assert_eq!(cpu.r00, 0xCAFE_F00D);

    let mut cpu = Cpu::default();
    let mut bus = Bus::new();
    cpu.stack_pointer = 0x100;
    bus.write_32(0x104, 0x0102_0304);
    step(&mut cpu, &mut bus, 0xA901);
    assert_eq!(cpu.r01, 0x0102_0304);
}

#[test]
fn load_store_halfword_round_trip() {
    let mut cpu = Cpu::default();
    let mut bus = Bus::new();
    cpu.r01 = 0x100;
    cpu.r00 = 0x1234_ABCD;
    step(&mut cpu, &mut bus, 0x8048);
    assert_eq!(bus.read_16(0x102), 0xABCD);
    assert_eq!(bus.read_16(0x104), 0);
    cpu.r00 = 0;
    step(&mut cpu, &mut bus, 0x8848);
    assert_eq!(cpu.r00, 0xABCD);
}

#[test]
fn load_store_with_immediate_offset_word_and_byte() {
    let mut cpu = Cpu::default();
    let mut bus = Bus::new();
    cpu.r01 = 0x100;
    cpu.r00 = 0xDEAD_BEEF;
    step(&mut cpu, &mut bus, 0x6048);
    assert_eq!(bus.read_32(0x104), 0xDEAD_BEEF);
    cpu.r00 = 0;
    step(&mut cpu, &mut bus, 0x6848);
    assert_eq!(cpu.r00, 0xDEAD_BEEF);
    cpu.r00 = 0x77;
    step(&mut cpu, &mut bus, 0x7048);
    assert_eq!(bus.read_8(0x101), 0x77);
    cpu.r00 = 0;
    step(&mut cpu, &mut bus, 0x7848);
    assert_eq!(cpu.r00, 0x77);
}

#[test]
fn load_store_with_register_offset_word_and_byte() {
    let mut cpu = Cpu::default();
    let mut bus = Bus::new();
    cpu.r01 = 0x100;
    cpu.r02 = 0x10;
    cpu.r00 = 0x0BAD_F00D;
    step(&mut cpu, &mut bus, 0x5088);
    assert_eq!(bus.read_32(0x110), 0x0BAD_F00D);
    cpu.r00 = 0;
    step(&mut cpu, &mut bus, 0x5888);
    assert_eq!(cpu.r00, 0x0BAD_F00D);
    cpu.r00 = 0x1FF;
    step(&mut cpu, &mut bus, 0x5488);
    assert_eq!(bus.read_8(0x110), 0xFF);
    step(&mut cpu, &mut bus, 0x5C88);
    assert_eq!(cpu.r00, 0xFF);
}

#[test]
fn load_store_sign_extended_loads_zero_extend() {
    let mut cpu = Cpu::default();
    let mut bus = Bus::new();
    cpu.r01 = 0x100;
    cpu.r02 = 0x20;
    cpu.r00 = 0x8081;
    step(&mut cpu, &mut bus, 0x5288);
    assert_eq!(bus.read_16(0x120), 0x8081);
    step(&mut cpu, &mut bus, 0x5A88);
    assert_eq!(cpu.r00, 0x8081);
    step(&mut cpu, &mut bus, 0x5688);
    assert_eq!(cpu.r00, 0x80);
    cpu.r00 = 0;
    step(&mut cpu, &mut bus, 0x5E88);
    assert_eq!(cpu.r00, 0x8081);
}

#[test]
fn stores_outside_bios_are_not_executable() {
    let mut cpu = Cpu::default();
    let mut bus = Bus::new();
    cpu.r01 = 0x3FFF;
    bus.write_16(0, 0x8008);
    assert!(!cpu.can_cycle(&bus));
    cpu.r01 = 0x3FFE;
    assert!(cpu.can_cycle(&bus));
}

#[test]
fn formats_without_execution_are_not_executable() {
    let cpu = Cpu::default();
    for opcode in [0xD000u16, 0xC000, 0xF000, 0x9000, 0xB400, 0xE800] {
        let mut bus = Bus::new();
        bus.write_16(0, opcode);
        assert!(!cpu.can_cycle(&bus));
    }
    let mut cpu = Cpu::default();
    cpu.program_counter = 0x3FFD;
    let bus = Bus::new();
    assert!(!cpu.can_cycle(&bus));
}

#[test]
fn get_register_and_store_cover_all_registers() {
    let mut cpu = Cpu::default();
    for r in 0u16..16 {
        cpu.store(u32::from(r) * 3 + 1, r);
    }
    for r in 0u16..16 {
        assert_eq!(cpu.get_register(r), u32::from(r) * 3 + 1);
    }
    assert_eq!(cpu.stack_pointer, 40);
    assert_eq!(cpu.link_register, 43);
    assert_eq!(cpu.get_program_counter(), 46);
    cpu.set_r00(9);
    assert_eq!(cpu.get_r00(), 9);
    assert_eq!(cpu.get_r01(), 4);
}

// Whole machine

#[test]
fn gba_inserted_opcode_is_next_instruction() {
    let mut gba = Gba::new();
    assert_eq!(gba.get_program_counter(), 0);
    gba.insert_opcode(0x1C41);
    assert_eq!(gba.get_next_instruction(), (0x1C41, ThumbInstruction::AddSubtract));
    assert_eq!(gba.get_rom(), 0x1C41_0000);
}

#[test]
fn gba_runs_inserted_opcodes() {
    let mut gba = Gba::new();
    gba.set_r00(0xFFFF);
    gba.insert_opcode(0x0001);
    assert!(gba.can_cycle());
    gba.cpu_cycle();
    assert_eq!(gba.get_r01(), 0xFFFF);
    assert_eq!(gba.get_r00(), 0xFFFF);
    assert_eq!(gba.get_program_counter(), 2);
    gba.insert_opcode(0xD000);
    assert!(!gba.can_cycle());
}

#[test]
fn cycle_keeps_flags_outside_flag_setting_formats() {
    let mut cpu = Cpu::default();
    let mut bus = Bus::new();
    cpu.program_status_register.set_carry(true);
    cpu.program_status_register.set_zero(true);
    cpu.r00 = 5;
    step(&mut cpu, &mut bus, 0x1C41);
    assert_eq!(cpu.r01, 6);
    assert!(cpu.program_status_register.get_carry());
    assert!(cpu.program_status_register.get_zero());
}

#[test]
fn loads_leave_memory_unchanged() {
    let mut cpu = Cpu::default();
    let mut bus = Bus::new();
    bus.write_32(0x40, 0x1122_3344);
    cpu.r01 = 0x40;
    step(&mut cpu, &mut bus, 0x6808);
    assert_eq!(cpu.r00, 0x1122_3344);
    assert_eq!(bus.read_32(0x40), 0x1122_3344);
    assert_eq!(bus.read_16(0), 0x6808);
    assert_eq!(cpu.get_program_counter(), 2);
}
