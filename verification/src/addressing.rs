use vstd::prelude::*;
use crate::machine::{join_bytes, word, Machine, CPU};

verus! {

/// The rule by which an instruction finds its operand.
#[derive(Clone, Copy, Debug, PartialEq, Eq, Structural)]
pub enum AddressingMode {
    Absolute,
    AbsoluteX,
    AbsoluteY,
    Immediate,
    IndirectX,
    IndirectY,
    /// The instruction has no operand; this mode has no effective address.
    NoneAddressing,
    ZeroPage,
    ZeroPageX,
    ZeroPageY,
}

impl AddressingMode {
    /// True for every mode that names an operand in memory.
    pub open spec fn has_operand(self) -> bool {
        self != AddressingMode::NoneAddressing
    }
}

impl Machine {
    /// The zero-page address `memory[pc] + index`, wrapping within page 0.
    pub open spec fn zero_page_indexed(self, index: u8) -> u16 {
        self.read(self.pc).wrapping_add(index) as u16
    }

    /// The word at the program counter plus `index`, wrapping at 16 bits.
    pub open spec fn absolute_indexed(self, index: u8) -> u16 {
        self.read_u16(self.pc).wrapping_add(index as u16)
    }

    /// The word stored in page 0 at `ptr`; the high byte comes from
    /// `ptr + 1` taken modulo 256, so it never leaves page 0.
    pub open spec fn zero_page_word(self, ptr: u8) -> u16 {
        word(self.read(ptr as u16), self.read(ptr.wrapping_add(1) as u16))
    }

    /// The word stored in page 0 at `memory[pc] + x`.
    pub open spec fn indexed_indirect(self) -> u16 {
        self.zero_page_word(self.read(self.pc).wrapping_add(self.x))
    }

    /// The word stored in page 0 at `memory[pc]`, plus `y`, wrapping at 16
    /// bits.
    pub open spec fn indirect_indexed(self) -> u16 {
        self.zero_page_word(self.read(self.pc)).wrapping_add(self.y as u16)
    }

    /// The effective address of the operand whose first byte is at the
    /// program counter. `NoneAddressing` has no effective address.
    pub open spec fn operand_address(self, mode: AddressingMode) -> u16
        recommends
            mode.has_operand(),
    {
        match mode {
            AddressingMode::Immediate => self.pc,
            AddressingMode::ZeroPage => self.read(self.pc) as u16,
            AddressingMode::ZeroPageX => self.zero_page_indexed(self.x),
            AddressingMode::ZeroPageY => self.zero_page_indexed(self.y),
            AddressingMode::Absolute => self.read_u16(self.pc),
            AddressingMode::AbsoluteX => self.absolute_indexed(self.x),
            AddressingMode::AbsoluteY => self.absolute_indexed(self.y),
            AddressingMode::IndirectX => self.indexed_indirect(),
            AddressingMode::IndirectY => self.indirect_indexed(),
            AddressingMode::NoneAddressing => arbitrary(),
        }
    }
}

impl CPU {
    /// Resolves `mode` to the effective address of the operand at the
    /// program counter. The processor is not changed.
    pub fn get_operand_address(&self, mode: &AddressingMode) -> (addr: u16)
        requires
            mode.has_operand(),
        ensures
            addr == self@.operand_address(*mode),
    {
        match mode {
            AddressingMode::Absolute => self.mem_read_u16(self.program_counter),
            AddressingMode::AbsoluteX => self.absolute_register(self.register_x),
            AddressingMode::AbsoluteY => self.absolute_register(self.register_y),
            AddressingMode::Immediate => self.program_counter,
            AddressingMode::IndirectX => self.indirect_register_x(),
            AddressingMode::IndirectY => self.indirect_register_y(),
            AddressingMode::ZeroPage => self.mem_read(self.program_counter) as u16,
            AddressingMode::ZeroPageX => self.zero_page_register(self.register_x),
            AddressingMode::ZeroPageY => self.zero_page_register(self.register_y),
            AddressingMode::NoneAddressing => vstd::pervasive::unreached(),
        }
    }

    /// The absolute operand plus `register_value`, wrapping at 16 bits.
    pub fn absolute_register(&self, register_value: u8) -> (addr: u16)
        ensures
            addr == self@.absolute_indexed(register_value),
    {
        let base: u16 = self.mem_read_u16(self.program_counter);
        base.wrapping_add(register_value as u16)
    }

    /// The address held in page 0 at the operand byte plus X.
    pub fn indirect_register_x(&self) -> (addr: u16)
        ensures
            addr == self@.indexed_indirect(),
    {
        let base: u8 = self.mem_read(self.program_counter);
        let ptr: u8 = base.wrapping_add(self.register_x);
        join_bytes(self.mem_read(ptr as u16), self.mem_read(ptr.wrapping_add(1) as u16))
    }

    /// The address held in page 0 at the operand byte, plus Y.
    pub fn indirect_register_y(&self) -> (addr: u16)
        ensures
            addr == self@.indirect_indexed(),
    {
        let base: u8 = self.mem_read(self.program_counter);
        let lo: u8 = self.mem_read(base as u16);
        let hi: u8 = self.mem_read(base.wrapping_add(1) as u16);
        let deref: u16 = join_bytes(lo, hi);
        deref.wrapping_add(self.register_y as u16)
    }

    /// The zero-page operand plus `register_value`, wrapping within page 0.
    pub fn zero_page_register(&self, register_value: u8) -> (addr: u16)
        ensures
            addr == self@.zero_page_indexed(register_value),
            addr < 0x100,
    {
        let pos: u8 = self.mem_read(self.program_counter);
        pos.wrapping_add(register_value) as u16
    }
}

} // verus!
