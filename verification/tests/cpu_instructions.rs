use gba::bus::Bus;
use gba::cpu::Cpu;

#[test]
fn move_shifted_register_sets_register() {
    let mut cpu = Cpu::default();
    let mut bus = Bus::new();

    cpu.r00 = 0xFFFF_FFFF;
    bus.write_16(cpu.get_program_counter() as usize, 0x0001);
    cpu.cpu_cycle(&mut bus);
    assert_eq!(cpu.r01, 0xFFFF_FFFF);
}

#[test]
fn move_shifted_register_left_shift() {
    let mut cpu = Cpu::default();
    let mut bus = Bus::new();

    cpu.r00 = 0x0000_0001;
    bus.write_16(0, 0x0040);
    cpu.cpu_cycle(&mut bus);
    assert_eq!(cpu.r00, 0x0000_0002);
}

#[test]
fn move_shifted_register_right_shift() {
    let mut cpu = Cpu::default();
    let mut bus = Bus::new();

    cpu.r00 = 0x0000_0002;
    bus.write_16(0, 0x0840);
    cpu.cpu_cycle(&mut bus);
    assert_eq!(cpu.r00, 0x0000_0001);
}

#[test]
fn move_shifted_register_arithmetic_shift() {
    let mut cpu = Cpu::default();
    let mut bus = Bus::new();

    cpu.r00 = 0x8000_0002;
    bus.write_16(0, 0x1040);
    cpu.cpu_cycle(&mut bus);
    assert_eq!(cpu.r00, 0xC000_0001);
}

#[test]
fn add_subtract_add_register() {
    let mut cpu = Cpu::default();
    let mut bus = Bus::new();

    cpu.r00 = 0x0000_0001;
    cpu.r01 = 0x0000_0001;
    bus.write_16(0, 0x1842);
    cpu.cpu_cycle(&mut bus);
    assert_eq!(cpu.r02, 0x0000_0002);
}

#[test]
fn add_subtract_add_immediate() {
    let mut cpu = Cpu::default();
    let mut bus = Bus::new();

    cpu.r00 = 0x0000_0001;
    bus.write_16(0, 0x1C41);
    cpu.cpu_cycle(&mut bus);
    assert_eq!(cpu.r01, 0x0000_0002);
}

#[test]
fn add_subtract_sub_register() {
    let mut cpu = Cpu::default();
    let mut bus = Bus::new();

    cpu.r00 = 0x0000_0001;
    cpu.r01 = 0x0000_0001;
    bus.write_16(0, 0x1A42);
    cpu.cpu_cycle(&mut bus);
    assert_eq!(cpu.r02, 0x0000_0000);
}

#[test]
fn add_subtract_sub_immediate() {
    let mut cpu = Cpu::default();
    let mut bus = Bus::new();

    cpu.r00 = 0x0000_0001;
    bus.write_16(0, 0x1E41);
    cpu.cpu_cycle(&mut bus);
    assert_eq!(cpu.r01, 0x0000_0000);
}
