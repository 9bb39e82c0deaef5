use nes_cpu::bus::{Bus, Memory};
use nes_cpu::cpu::Cpu;

#[test]
fn test_0xa9_lda_immediate_load_data() {
    let bus = Bus::new();
    let mut cpu = Cpu::new(bus);
    let _ = cpu.load_and_run(&vec![0xa9, 0x05, 0x00]);
    assert_eq!(cpu.register_a, 5);
    assert!(cpu.flags.bits() & 0b0000_0010 == 0b00);
    assert!(cpu.flags.bits() & 0b1000_0000 == 0);
}

#[test]
fn test_0xaa_tax_move_a_to_x() {
    let bus = Bus::new();
    let mut cpu = Cpu::new(bus);
    cpu.register_a = 10;
    let _ = cpu.load_and_run(&vec![0xaa, 0x00]);

    assert_eq!(cpu.register_x, 10)
}

#[test]
fn test_5_ops_working_together() {
    let bus = Bus::new();
    let mut cpu = Cpu::new(bus);
    cpu.program_counter = 0x600;
    let _ = cpu.load_and_run(&vec![0xa9, 0xc0, 0xaa, 0xe8, 0x00]);

    assert_eq!(cpu.register_x, 0xc1)
}

#[test]
fn test_inx_overflow() {
    let bus = Bus::new();
    let mut cpu = Cpu::new(bus);
    cpu.program_counter = 0x600;
    cpu.register_x = 0xff;
    let _ = cpu.load_and_run(&vec![0xe8, 0xe8, 0x00]);

    assert_eq!(cpu.register_x, 1)
}

#[test]
fn test_lda_from_memory() {
    let bus = Bus::new();
    let mut cpu = Cpu::new(bus);
    cpu.bus.mem_write(0x10, 0x55);
    cpu.bus.mem_write(0xff, 0x65);
    cpu.program_counter = 0x600;
    let _ = cpu.load_and_run(&vec![0xa5, 0x10, 0xa5, 0xff, 0x00]);

    assert_eq!(cpu.register_a, 0x65);
}
