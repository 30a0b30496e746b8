use mos6502::{Status, CPU};

const BUDGET: u64 = 1_000;

#[test]
fn move_a_to_x() {
    let mut cpu = CPU::new();

    cpu.register_a = 10;

    cpu.load(vec![0xaa, 0x00]).unwrap();
    assert_eq!(cpu.run(BUDGET), Ok(Status::Halted));

    assert_eq!(cpu.register_x, 10)
}

#[test]
fn inx() {
    let mut cpu = CPU::new();
    cpu.register_x = 0x00;
    cpu.load(vec![0xE8, 0x00]).unwrap();
    assert_eq!(cpu.run(BUDGET), Ok(Status::Halted));

    assert_eq!(cpu.register_x, 1)
}

#[test]
fn inx_overflow() {
    let mut cpu = CPU::new();
    cpu.register_x = 0xff;
    cpu.load(vec![0xE8, 0xE8, 0x00]).unwrap();
    assert_eq!(cpu.run(BUDGET), Ok(Status::Halted));

    assert_eq!(cpu.register_x, 1)
}

#[test]
fn inx_passes_through_zero() {
    let mut cpu = CPU::new();
    cpu.register_x = 0xff;
    cpu.inx();
    assert_eq!(cpu.register_x, 0x00);
    assert_eq!(cpu.status & 0b1000_0010, 0b0000_0010);
    cpu.inx();
    assert_eq!(cpu.register_x, 0x01);
    assert_eq!(cpu.status & 0b1000_0010, 0);
}

#[test]
fn tax_sets_negative_flag() {
    let mut cpu = CPU::new();
    cpu.register_a = 0x80;
    cpu.tax();
    assert_eq!(cpu.register_x, 0x80);
    assert_eq!(cpu.status, 0b1000_0000);
}
