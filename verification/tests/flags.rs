use mos6502::instructions::{NEGATIVE_FLAG, ZERO_FLAG};
use mos6502::{AddressingMode, CPU};

const OPERAND_MODES: [AddressingMode; 9] = [
    AddressingMode::Immediate,
    AddressingMode::ZeroPage,
    AddressingMode::ZeroPageX,
    AddressingMode::ZeroPageY,
    AddressingMode::Absolute,
    AddressingMode::AbsoluteX,
    AddressingMode::AbsoluteY,
    AddressingMode::IndirectX,
    AddressingMode::IndirectY,
];

fn flags_match(status: u8, result: u8) {
    assert_eq!(status & ZERO_FLAG != 0, result == 0);
    assert_eq!(status & NEGATIVE_FLAG != 0, result & 0x80 != 0);
}

fn scene() -> CPU {
    let mut cpu = CPU::new();
    cpu.program_counter = 0x8001;
    cpu.mem_write(0x8001, 0x40);
    cpu.mem_write(0x8002, 0x20);
    cpu.mem_write_u16(0x40, 0x3000);
    cpu.mem_write_u16(0x43, 0x3100);
    cpu.register_x = 0x03;
    cpu.register_y = 0x05;
    cpu
}

#[test]
fn flag_constants() {
    assert_eq!(ZERO_FLAG, 0b0000_0010);
    assert_eq!(NEGATIVE_FLAG, 0b1000_0000);
}

#[test]
fn flag_update_for_every_result() {
    for status in [0x00u8, 0xFF, 0x7D, 0x82, 0x41] {
        for result in 0..=255u8 {
            let mut cpu = CPU::new();
            cpu.status = status;
            cpu.update_zero_and_negative_flags(result);
            flags_match(cpu.status, result);
            assert_eq!(cpu.status & 0b0111_1101, status & 0b0111_1101);
        }
    }
}

#[test]
fn flag_update_exact_values() {
    let mut cpu = CPU::new();
    cpu.status = 0b0100_0001;
    cpu.update_zero_and_negative_flags(0x00);
    assert_eq!(cpu.status, 0b0100_0011);
    cpu.update_zero_and_negative_flags(0x80);
    assert_eq!(cpu.status, 0b1100_0001);
    cpu.update_zero_and_negative_flags(0x7F);
    assert_eq!(cpu.status, 0b0100_0001);
}

#[test]
fn flag_update_touches_only_the_status() {
    let mut cpu = scene();
    cpu.register_a = 0x12;
    cpu.update_zero_and_negative_flags(0xFF);
    assert_eq!(cpu.register_a, 0x12);
    assert_eq!(cpu.register_x, 0x03);
    assert_eq!(cpu.register_y, 0x05);
    assert_eq!(cpu.program_counter, 0x8001);
    assert_eq!(cpu.mem_read(0x8001), 0x40);
}

#[test]
fn flags_follow_lda_and_and() {
    for value in [0x00u8, 0x01, 0x7F, 0x80, 0xFF] {
        let mut cpu = scene();
        cpu.status = 0xFF;
        cpu.lda(&AddressingMode::Immediate);
        assert_eq!(cpu.register_a, 0x40);
        flags_match(cpu.status, 0x40);

        let mut cpu = scene();
        cpu.mem_write(0x8001, value);
        cpu.lda(&AddressingMode::Immediate);
        assert_eq!(cpu.register_a, value);
        flags_match(cpu.status, value);

        let mut cpu = scene();
        cpu.mem_write(0x8001, value);
        cpu.register_a = 0xF0;
        cpu.and(&AddressingMode::Immediate);
        assert_eq!(cpu.register_a, 0xF0 & value);
        flags_match(cpu.status, 0xF0 & value);
    }
}

#[test]
fn flags_follow_tax_and_inx() {
    for value in [0x00u8, 0x01, 0x7F, 0x80, 0xFE, 0xFF] {
        let mut cpu = CPU::new();
        cpu.register_a = value;
        cpu.tax();
        assert_eq!(cpu.register_x, value);
        flags_match(cpu.status, value);

        let mut cpu = CPU::new();
        cpu.register_x = value;
        cpu.inx();
        assert_eq!(cpu.register_x, value.wrapping_add(1));
        flags_match(cpu.status, value.wrapping_add(1));
    }
}

#[test]
fn and_is_the_bitwise_and_in_every_mode() {
    for mode in OPERAND_MODES.iter() {
        let mut cpu = scene();
        let addr = cpu.get_operand_address(mode);
        cpu.mem_write(addr, 0b1100_1010);
        cpu.register_a = 0b1010_0110;
        let operand = cpu.mem_read(cpu.get_operand_address(mode));
        cpu.and(mode);
        assert_eq!(cpu.register_a, 0b1010_0110 & operand);
        assert_eq!(cpu.register_a, operand & 0b1010_0110);
    }
    let mut cpu = scene();
    cpu.mem_write(0x3005, 0b1100_1010);
    cpu.register_a = 0b1010_0110;
    cpu.and(&AddressingMode::IndirectY);
    assert_eq!(cpu.register_a, 0b1000_0010);
}

#[test]
fn sta_round_trip_in_every_mode() {
    for mode in OPERAND_MODES.iter() {
        let mut cpu = scene();
        cpu.register_a = 0x98;
        cpu.status = 0x41;
        let addr = cpu.get_operand_address(mode);
        cpu.sta(mode);
        assert_eq!(cpu.mem_read(addr), 0x98);
        assert_eq!(cpu.register_a, 0x98);
        assert_eq!(cpu.status, 0x41);
    }
}

#[test]
fn sta_writes_one_byte() {
    let mut cpu = scene();
    cpu.register_a = 0x98;
    let before = cpu.memory;
    cpu.sta(&AddressingMode::IndirectX);
    assert_eq!(cpu.mem_read(0x3100), 0x98);
    for (addr, byte) in cpu.memory.iter().enumerate() {
        if addr != 0x3100 {
            assert_eq!(*byte, before[addr]);
        }
    }
}

#[test]
fn sta_round_trip_when_it_overwrites_its_own_pointer() {
    let mut cpu = CPU::new();
    cpu.program_counter = 0x8001;
    cpu.mem_write(0x8001, 0x40);
    cpu.mem_write_u16(0x40, 0x0040);
    cpu.register_a = 0x98;
    let addr = cpu.get_operand_address(&AddressingMode::IndirectX);
    assert_eq!(addr, 0x0040);
    cpu.sta(&AddressingMode::IndirectX);
    assert_eq!(cpu.mem_read(addr), 0x98);
}
