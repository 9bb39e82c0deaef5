use nes_cpu::bus::{Bus, Location, Memory};
use nes_cpu::cpu::{Cpu, CpuError, StepOutcome};
use nes_cpu::flags::{CARRY, NEGATIVE, OVERFLOW, ZERO};
use nes_cpu::opcodes::{AddressingMode, Mnemonic, OpCode};

/// Loads `program` at 0x0600, resets, and runs it to the first BRK.
fn run(program: Vec<u8>) -> Cpu {
    let mut cpu = Cpu::new(Bus::new());
    cpu.load(&program);
    cpu.reset();
    assert_eq!(cpu.run_with_callback(|_| {}), Ok(()));
    cpu
}

#[test]
fn lda_immediate_sets_value_and_clears_flags() {
    let cpu = run(vec![0xa9, 0x05, 0x00]);
    assert_eq!(cpu.register_a, 0x05);
    assert!(!cpu.flags.contains(ZERO));
    assert!(!cpu.flags.contains(NEGATIVE));
}

#[test]
fn lda_zero_sets_zero_flag() {
    let cpu = run(vec![0xa9, 0x00, 0x00]);
    assert_eq!(cpu.register_a, 0x00);
    assert!(cpu.flags.contains(ZERO));
    assert!(!cpu.flags.contains(NEGATIVE));
}

#[test]
fn lda_tax_negative_value() {
    let cpu = run(vec![0xa9, 0xff, 0xaa, 0x00]);
    assert_eq!(cpu.register_a, 0xff);
    assert_eq!(cpu.register_x, 0xff);
    assert!(cpu.flags.contains(NEGATIVE));
}

#[test]
fn lda_tax_inx() {
    let cpu = run(vec![0xa9, 0xc0, 0xaa, 0xe8, 0x00]);
    assert_eq!(cpu.register_x, 0xc1);
}

#[test]
fn inx_wraps_after_reset_setup() {
    let mut cpu = Cpu::new(Bus::new());
    cpu.load(&vec![0xe8, 0xe8, 0x00]);
    cpu.reset();
    cpu.register_x = 0xff;
    assert_eq!(cpu.run_with_callback(|_| {}), Ok(()));
    assert_eq!(cpu.register_x, 0x01);
    assert!(!cpu.flags.contains(ZERO));
}

#[test]
fn lda_zero_page_reads_memory() {
    let mut cpu = Cpu::new(Bus::new());
    cpu.bus.mem_write(0x10, 0x55);
    cpu.bus.mem_write(0xff, 0x65);
    cpu.load(&vec![0xa5, 0x10, 0xa5, 0xff, 0x00]);
    cpu.reset();
    assert_eq!(cpu.run_with_callback(|_| {}), Ok(()));
    assert_eq!(cpu.register_a, 0x65);
}

#[test]
fn adc_signed_overflow() {
    let cpu = run(vec![0xa9, 0x50, 0x69, 0x50, 0x00]);
    assert_eq!(cpu.register_a, 0xa0);
    assert!(!cpu.flags.contains(CARRY));
    assert!(cpu.flags.contains(OVERFLOW));
    assert!(cpu.flags.contains(NEGATIVE));
}

#[test]
fn adc_carry_out() {
    // 0xff + 0x02 = 0x101
    let cpu = run(vec![0xa9, 0xff, 0x69, 0x02, 0x00]);
    assert_eq!(cpu.register_a, 0x01);
    assert!(cpu.flags.contains(CARRY));
    assert!(!cpu.flags.contains(OVERFLOW));
}

#[test]
fn nz_flags_follow_result_and_keep_carry() {
    // SEC; LDA #$80
    let cpu = run(vec![0x38, 0xa9, 0x80, 0x00]);
    assert!(cpu.flags.contains(NEGATIVE));
    assert!(!cpu.flags.contains(ZERO));
    assert!(cpu.flags.contains(CARRY));
}

#[test]
fn push_then_pull_restores_byte_and_stack_pointer() {
    // LDA #$42; PHA; LDA #$00; PLA
    let cpu = run(vec![0xa9, 0x42, 0x48, 0xa9, 0x00, 0x68, 0x00]);
    assert_eq!(cpu.register_a, 0x42);
    assert_eq!(cpu.stack_pointer, 0xfd);
    assert_eq!(cpu.bus.mem_read(0x01fd), 0x42);
}

#[test]
fn stack_push_pop_direct() {
    let mut cpu = Cpu::new(Bus::new());
    cpu.stack_pointer = 0x00;
    cpu.stack_push(0x9a);
    assert_eq!(cpu.stack_pointer, 0xff);
    assert_eq!(cpu.stack_pop(), 0x9a);
    assert_eq!(cpu.stack_pointer, 0x00);
}

#[test]
fn word_round_trip_in_ram_and_device_region() {
    let mut bus = Bus::new();
    bus.mem_write_u16(0x0123, 0xbeef);
    assert_eq!(bus.mem_read_u16(0x0123), 0xbeef);
    assert_eq!(bus.mem_read(0x0123), 0xef);
    assert_eq!(bus.mem_read(0x0124), 0xbe);
    bus.mem_write_u16(0x8000, 0x1234);
    assert_eq!(bus.mem_read_u16(0x8000), 0x1234);
}

#[test]
fn word_read_wraps_at_top_of_address_space() {
    let mut bus = Bus::new();
    bus.mem_write(0xffff, 0x34);
    bus.mem_write(0x0000, 0x12);
    assert_eq!(bus.mem_read_u16(0xffff), 0x1234);
}

#[test]
fn ram_is_mirrored_through_0x1fff() {
    let mut bus = Bus::new();
    bus.mem_write(0x0001, 0x07);
    assert_eq!(bus.mem_read(0x0801), 0x07);
    assert_eq!(bus.mem_read(0x1001), 0x07);
    assert_eq!(bus.mem_read(0x1801), 0x07);
    bus.mem_write(0x1fff, 0x09);
    assert_eq!(bus.mem_read(0x07ff), 0x09);
}

#[test]
fn ppu_registers_read_zero_and_drop_writes() {
    let mut bus = Bus::new();
    bus.mem_write(0x2000, 0x05);
    assert_eq!(bus.mem_read(0x2000), 0);
    assert_eq!(bus.mem_read(0x2008), 0);
    assert_eq!(bus.get_real_address(0x3ff9), Location::PpuRegister(0x2001));
    assert_eq!(bus.get_real_address(0x0801), Location::Ram(0x0001));
    assert_eq!(bus.get_real_address(0x4001), Location::Device(0x0001));
}

#[test]
fn adc_then_sbc_restores_a_and_carry() {
    // SEC; LDA #$10; ADC #$20; SBC #$20
    let cpu = run(vec![0x38, 0xa9, 0x10, 0x69, 0x20, 0xe9, 0x20, 0x00]);
    assert_eq!(cpu.register_a, 0x10);
    assert!(cpu.flags.contains(CARRY));
}

#[test]
fn sbc_borrows() {
    // SEC; LDA #$05; SBC #$06
    let cpu = run(vec![0x38, 0xa9, 0x05, 0xe9, 0x06, 0x00]);
    assert_eq!(cpu.register_a, 0xff);
    assert!(!cpu.flags.contains(CARRY));
    assert!(cpu.flags.contains(NEGATIVE));
}

#[test]
fn jmp_indirect_wraps_within_page() {
    let mut cpu = Cpu::new(Bus::new());
    cpu.bus.mem_write(0x02ff, 0x10);
    cpu.bus.mem_write(0x0200, 0x07);
    cpu.bus.mem_write(0x0300, 0x08);
    // JMP ($02FF)
    cpu.load(&vec![0x6c, 0xff, 0x02]);
    cpu.reset();
    assert_eq!(cpu.step(), Ok(StepOutcome::Continued));
    assert_eq!(cpu.program_counter, 0x0710);
}

#[test]
fn jmp_absolute() {
    let mut cpu = Cpu::new(Bus::new());
    cpu.load(&vec![0x4c, 0x34, 0x12]);
    cpu.reset();
    assert_eq!(cpu.step(), Ok(StepOutcome::Continued));
    assert_eq!(cpu.program_counter, 0x1234);
}

#[test]
fn beq_offset_is_signed() {
    let mut cpu = Cpu::new(Bus::new());
    cpu.load(&vec![0xf0, 0x80]);
    cpu.reset();
    cpu.flags.insert(ZERO);
    assert_eq!(cpu.step(), Ok(StepOutcome::Continued));
    assert_eq!(cpu.program_counter, 0x0602 - 128);
}

#[test]
fn beq_not_taken_steps_past_offset() {
    let mut cpu = Cpu::new(Bus::new());
    cpu.load(&vec![0xf0, 0x80]);
    cpu.reset();
    cpu.flags.remove(ZERO);
    assert_eq!(cpu.step(), Ok(StepOutcome::Continued));
    assert_eq!(cpu.program_counter, 0x0602);
}

#[test]
fn dex_bne_loop() {
    // LDX #$03; DEX; BNE -3; BRK
    let cpu = run(vec![0xa2, 0x03, 0xca, 0xd0, 0xfd, 0x00]);
    assert_eq!(cpu.register_x, 0);
    assert!(cpu.flags.contains(ZERO));
}

#[test]
fn jsr_and_rts() {
    // JSR $0605; BRK; NOP; INX; RTS
    let cpu = run(vec![0x20, 0x05, 0x06, 0x00, 0xea, 0xe8, 0x60]);
    assert_eq!(cpu.register_x, 1);
    assert_eq!(cpu.stack_pointer, 0xfd);
    assert_eq!(cpu.program_counter, 0x0604);
}

#[test]
fn shifts_and_rotates_on_accumulator() {
    // LDA #$81; ASL A
    let cpu = run(vec![0xa9, 0x81, 0x0a, 0x00]);
    assert_eq!(cpu.register_a, 0x02);
    assert!(cpu.flags.contains(CARRY));
    // ... ROL A
    let cpu = run(vec![0xa9, 0x81, 0x0a, 0x2a, 0x00]);
    assert_eq!(cpu.register_a, 0x05);
    assert!(!cpu.flags.contains(CARRY));
    // LDA #$05; LSR A
    let cpu = run(vec![0xa9, 0x05, 0x4a, 0x00]);
    assert_eq!(cpu.register_a, 0x02);
    assert!(cpu.flags.contains(CARRY));
    // ... ROR A
    let cpu = run(vec![0xa9, 0x05, 0x4a, 0x6a, 0x00]);
    assert_eq!(cpu.register_a, 0x81);
    assert!(!cpu.flags.contains(CARRY));
    assert!(cpu.flags.contains(NEGATIVE));
}

#[test]
fn shifts_and_increments_on_memory() {
    let mut cpu = Cpu::new(Bus::new());
    cpu.bus.mem_write(0x10, 0x40);
    cpu.bus.mem_write(0x11, 0xff);
    // ASL $10; INC $11; DEC $12
    cpu.load(&vec![0x06, 0x10, 0xe6, 0x11, 0xc6, 0x12, 0x00]);
    cpu.reset();
    assert_eq!(cpu.run_with_callback(|_| {}), Ok(()));
    assert_eq!(cpu.bus.mem_read(0x10), 0x80);
    assert_eq!(cpu.bus.mem_read(0x11), 0x00);
    assert_eq!(cpu.bus.mem_read(0x12), 0xff);
    assert!(cpu.flags.contains(NEGATIVE));
}

#[test]
fn compare_sets_carry_zero_negative() {
    // LDA #$05; CMP #$05
    let cpu = run(vec![0xa9, 0x05, 0xc9, 0x05, 0x00]);
    assert!(cpu.flags.contains(ZERO));
    assert!(cpu.flags.contains(CARRY));
    // LDA #$05; CMP #$06
    let cpu = run(vec![0xa9, 0x05, 0xc9, 0x06, 0x00]);
    assert!(!cpu.flags.contains(ZERO));
    assert!(!cpu.flags.contains(CARRY));
    assert!(cpu.flags.contains(NEGATIVE));
}

#[test]
fn bit_takes_n_and_v_from_memory() {
    let mut cpu = Cpu::new(Bus::new());
    cpu.bus.mem_write(0x10, 0xc0);
    // LDA #$01; BIT $10
    cpu.load(&vec![0xa9, 0x01, 0x24, 0x10, 0x00]);
    cpu.reset();
    assert_eq!(cpu.run_with_callback(|_| {}), Ok(()));
    assert!(cpu.flags.contains(ZERO));
    assert!(cpu.flags.contains(NEGATIVE));
    assert!(cpu.flags.contains(OVERFLOW));
}

#[test]
fn php_forces_break_bits_and_plp_clears_break() {
    // PHP; PLA
    let cpu = run(vec![0x08, 0x68, 0x00]);
    assert_eq!(cpu.register_a, 0b0011_0100);
    // LDA #$FF; PHA; PLP
    let cpu = run(vec![0xa9, 0xff, 0x48, 0x28, 0x00]);
    assert_eq!(cpu.flags.bits(), 0b1110_1111);
}

#[test]
fn indirect_addressing_modes() {
    let mut cpu = Cpu::new(Bus::new());
    cpu.bus.mem_write(0x21, 0x00);
    cpu.bus.mem_write(0x22, 0x03);
    cpu.bus.mem_write(0x0300, 0x77);
    cpu.bus.mem_write(0x0302, 0x55);
    cpu.load(&vec![0xa1, 0x20, 0x00]);
    cpu.reset();
    cpu.register_x = 1;
    assert_eq!(cpu.run_with_callback(|_| {}), Ok(()));
    assert_eq!(cpu.register_a, 0x77);

    cpu.load(&vec![0xb1, 0x21, 0x00]);
    cpu.reset();
    cpu.register_y = 2;
    assert_eq!(cpu.run_with_callback(|_| {}), Ok(()));
    assert_eq!(cpu.register_a, 0x55);
}

#[test]
fn indirect_pointer_wraps_in_zero_page() {
    let mut cpu = Cpu::new(Bus::new());
    cpu.bus.mem_write(0xff, 0x00);
    cpu.bus.mem_write(0x00, 0x03);
    cpu.bus.mem_write(0x0100, 0x11);
    cpu.bus.mem_write(0x0300, 0x22);
    // LDA ($FF),Y
    cpu.load(&vec![0xb1, 0xff, 0x00]);
    cpu.reset();
    assert_eq!(cpu.run_with_callback(|_| {}), Ok(()));
    assert_eq!(cpu.register_a, 0x22);
}

#[test]
fn store_and_transfer() {
    // LDX #$09; TXA; TAY; STY $40; TSX
    let cpu = run(vec![0xa2, 0x09, 0x8a, 0xa8, 0x84, 0x40, 0xba, 0x00]);
    assert_eq!(cpu.register_a, 0x09);
    assert_eq!(cpu.register_y, 0x09);
    assert_eq!(cpu.bus.mem_read(0x40), 0x09);
    assert_eq!(cpu.register_x, 0xfd);
}

#[test]
fn unrecognized_opcode_is_reported() {
    let mut cpu = Cpu::new(Bus::new());
    cpu.load(&vec![0xe8, 0x02, 0x00]);
    cpu.reset();
    let r = cpu.run_with_callback(|_| {});
    assert_eq!(r, Err(CpuError::UnrecognizedOpcode { opcode: 0x02, pc: 0x0601 }));
    assert_eq!(cpu.program_counter, 0x0601);
    assert_eq!(cpu.register_x, 1);
}

#[test]
fn callback_runs_after_every_instruction_including_brk() {
    let mut cpu = Cpu::new(Bus::new());
    cpu.load(&vec![0xe8, 0xea, 0x00]);
    cpu.reset();
    let mut calls = 0;
    assert_eq!(cpu.run_with_callback(|_| calls += 1), Ok(()));
    assert_eq!(calls, 3);
}

#[test]
fn reset_reads_vector_and_sets_registers() {
    let mut cpu = Cpu::new(Bus::new());
    cpu.bus.mem_write_u16(0xfffc, 0x8000);
    cpu.register_a = 1;
    cpu.register_x = 2;
    cpu.register_y = 3;
    cpu.reset();
    assert_eq!(cpu.program_counter, 0x8000);
    assert_eq!(cpu.stack_pointer, 0xfd);
    assert_eq!(cpu.flags.bits(), 0b0010_0100);
    assert_eq!((cpu.register_a, cpu.register_x, cpu.register_y), (0, 0, 0));
}

#[test]
fn load_at_custom_base_and_vector() {
    let mut cpu = Cpu::new(Bus::new());
    cpu.load_at(&vec![0xa9, 0x07, 0x00], 0x8000, 0x8000);
    assert_eq!(cpu.bus.mem_read_u16(0xfffc), 0x8000);
    cpu.reset();
    assert_eq!(cpu.run_with_callback(|_| {}), Ok(()));
    assert_eq!(cpu.register_a, 0x07);
}

#[test]
fn opcode_table_lookup() {
    let lda = OpCode::lookup(0xa9).unwrap();
    assert_eq!(lda.mnemonic, Mnemonic::Lda);
    assert_eq!(lda.mode, AddressingMode::Immediate);
    assert_eq!(lda.len, 2);
    let jmp = OpCode::lookup(0x6c).unwrap();
    assert_eq!(jmp.mnemonic, Mnemonic::Jmp);
    assert_eq!(jmp.len, 3);
    assert_eq!(OpCode::lookup(0x02), None);
    let official = (0..=255u8).filter(|c| OpCode::lookup(*c).is_some()).count();
    assert_eq!(official, 151);
}

#[test]
fn calculate_address_modes() {
    let mut cpu = Cpu::new(Bus::new());
    cpu.bus.mem_write(0x0600, 0xf0);
    cpu.bus.mem_write(0x0601, 0x12);
    cpu.program_counter = 0x0600;
    cpu.register_x = 0x20;
    cpu.register_y = 0x01;
    assert_eq!(cpu.calculate_address(&AddressingMode::Immediate), 0x0600);
    assert_eq!(cpu.calculate_address(&AddressingMode::ZeroPage), 0x00f0);
    assert_eq!(cpu.calculate_address(&AddressingMode::ZeroPageX), 0x0010);
    assert_eq!(cpu.calculate_address(&AddressingMode::ZeroPageY), 0x00f1);
    assert_eq!(cpu.calculate_address(&AddressingMode::Absolute), 0x12f0);
    assert_eq!(cpu.calculate_address(&AddressingMode::AbsoluteX), 0x1310);
    assert_eq!(cpu.calculate_address(&AddressingMode::AbsoluteY), 0x12f1);
}

#[test]
fn unrecognized_first_opcode_skips_callback() {
    let mut cpu = Cpu::new(Bus::new());
    cpu.load(&vec![0x02, 0x00]);
    cpu.reset();
    let mut calls = 0;
    let r = cpu.run_with_callback(|_| calls += 1);
    assert_eq!(r, Err(CpuError::UnrecognizedOpcode { opcode: 0x02, pc: 0x0600 }));
    assert_eq!(calls, 0);
    assert_eq!(cpu.program_counter, 0x0600);
}

#[test]
fn brk_first_returns_ok_after_one_callback() {
    let mut cpu = Cpu::new(Bus::new());
    cpu.load(&vec![0x00]);
    cpu.reset();
    let mut calls = 0;
    assert_eq!(cpu.run_with_callback(|_| calls += 1), Ok(()));
    assert_eq!(calls, 1);
    assert_eq!(cpu.program_counter, 0x0601);
}
