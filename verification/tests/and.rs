use mos6502::{Status, CPU};

const BUDGET: u64 = 1_000;

#[test]
fn register_immediate() {
    let mut cpu = CPU::new();
    cpu.register_a = 0xFF;

    cpu.load(vec![0x29, 0xFF]).unwrap();
    assert_eq!(cpu.run(BUDGET), Ok(Status::Halted));

    assert_eq!(cpu.register_a, 0xFF);
}

#[test]
fn register_zero_page() {
    let mut cpu = CPU::new();
    cpu.mem_write(0x10, 0x55);
    cpu.register_a = 0xFF;

    cpu.load(vec![0x25, 0x10, 0x00]).unwrap();
    assert_eq!(cpu.run(BUDGET), Ok(Status::Halted));

    assert_eq!(cpu.register_a, 0x55);
}

#[test]
fn register_zero_page_x() {
    let mut cpu = CPU::new();
    cpu.mem_write(0x11, 0x55);
    cpu.register_x = 0x01;
    cpu.register_a = 0xFF;

    cpu.load(vec![0x35, 0x10, 0x00]).unwrap();
    assert_eq!(cpu.run(BUDGET), Ok(Status::Halted));

    assert_eq!(cpu.register_a, 0x55);
}

#[test]
fn register_absolute() {
    let mut cpu = CPU::new();
    cpu.mem_write(0x1234, 0x55);
    cpu.register_a = 0xFF;

    cpu.load(vec![0x2D, 0x34, 0x12, 0x00]).unwrap();
    assert_eq!(cpu.run(BUDGET), Ok(Status::Halted));

    assert_eq!(cpu.register_a, 0x55);
}

#[test]
fn register_absolute_x() {
    let mut cpu = CPU::new();
    cpu.mem_write(0x1234, 0x55);
    cpu.register_x = 0x04;
    cpu.register_a = 0xFF;

    cpu.load(vec![0x3D, 0x30, 0x12, 0x00]).unwrap();
    assert_eq!(cpu.run(BUDGET), Ok(Status::Halted));

    assert_eq!(cpu.register_a, 0x55);
}

#[test]
fn register_absolute_y() {
    let mut cpu = CPU::new();
    cpu.mem_write(0x1234, 0x55);
    cpu.register_y = 0x04;
    cpu.register_a = 0xFF;

    cpu.load(vec![0x39, 0x30, 0x12, 0x00]).unwrap();
    assert_eq!(cpu.run(BUDGET), Ok(Status::Halted));

    assert_eq!(cpu.register_a, 0x55);
}

#[test]
fn register_indirect_x() {
    let mut cpu = CPU::new();
    cpu.mem_write(0x31, 0x55);
    cpu.mem_write(0x55, 0x12);
    cpu.register_x = 0x01;
    cpu.register_a = 0xFF;

    cpu.load(vec![0x21, 0x30, 0x00]).unwrap();
    assert_eq!(cpu.run(BUDGET), Ok(Status::Halted));

    assert_eq!(cpu.register_a, 0x12);
}

#[test]
fn register_indirect_y() {
    let mut cpu = CPU::new();
    cpu.mem_write_u16(0x30, 0x1110);
    cpu.mem_write(0x1111, 0x55);
    cpu.register_y = 0x01;
    cpu.register_a = 0xFF;

    cpu.load(vec![0x31, 0x30, 0x00]).unwrap();
    assert_eq!(cpu.run(BUDGET), Ok(Status::Halted));

    assert_eq!(cpu.register_a, 0x55);
}
