use vstd::prelude::*;

verus! {

/// Number of bytes in the address space.
pub const MEMORY_SIZE: usize = 0x10000;

/// Mathematical model of the processor: the registers and the memory image.
pub struct Machine {
    pub a: u8,
    pub x: u8,
    pub y: u8,
    pub status: u8,
    pub pc: u16,
    pub mem: Seq<u8>,
}

impl Machine {
    /// The memory image covers the whole address space.
    pub open spec fn wf(self) -> bool {
        self.mem.len() == MEMORY_SIZE
    }

    /// The byte stored at `addr`.
    pub open spec fn read(self, addr: u16) -> u8 {
        self.mem[addr as int]
    }

    /// The machine after storing `data` at `addr`.
    pub open spec fn write(self, addr: u16, data: u8) -> Machine {
        Machine { mem: self.mem.update(addr as int, data), ..self }
    }

    /// The little-endian word whose low byte is at `pos` and whose high byte
    /// is at the next address, which is 0 after 0xFFFF.
    pub open spec fn read_u16(self, pos: u16) -> u16 {
        word(self.read(pos), self.read(pos.wrapping_add(1)))
    }

    /// The machine after storing `data` little-endian at `pos` and the next
    /// address, the low byte first.
    pub open spec fn write_u16(self, pos: u16, data: u16) -> Machine {
        self.write(pos, low_byte(data)).write(pos.wrapping_add(1), high_byte(data))
    }
}

/// The 16-bit value with low byte `lo` and high byte `hi`.
pub open spec fn word(lo: u8, hi: u8) -> u16 {
    (hi * 256 + lo) as u16
}

/// The low byte of `data`.
pub open spec fn low_byte(data: u16) -> u8 {
    (data % 256) as u8
}

/// The high byte of `data`.
pub open spec fn high_byte(data: u16) -> u8 {
    (data / 256) as u8
}

/// Splitting a word into its bytes and joining them again gives the word
/// back, and joining two bytes and splitting gives the bytes back.
pub proof fn lemma_word_bytes(data: u16, lo: u8, hi: u8)
    ensures
        word(low_byte(data), high_byte(data)) == data,
        low_byte(word(lo, hi)) == lo,
        high_byte(word(lo, hi)) == hi,
{
}

/// The processor state: register file, status flags, program counter and
/// the memory image, owned by one execution context.
pub struct CPU {
    pub register_a: u8,
    pub register_x: u8,
    pub register_y: u8,
    pub status: u8,
    pub program_counter: u16,
    pub memory: [u8; 0x10000],
}

impl View for CPU {
    type V = Machine;

    open spec fn view(&self) -> Machine {
        Machine {
            a: self.register_a,
            x: self.register_x,
            y: self.register_y,
            status: self.status,
            pc: self.program_counter,
            mem: self.memory@,
        }
    }
}

impl CPU {
    /// A processor with every register, flag and memory byte zero.
    pub fn new() -> (cpu: Self)
        ensures
            cpu@.a == 0,
            cpu@.x == 0,
            cpu@.y == 0,
            cpu@.status == 0,
            cpu@.pc == 0,
            cpu@.mem =~= Seq::new(MEMORY_SIZE as nat, |i: int| 0u8),
            cpu@.wf(),
    {
        CPU {
            register_a: 0,
            register_x: 0,
            register_y: 0,
            status: 0,
            program_counter: 0,
            memory: [0u8; 0x10000],
        }
    }

    /// The model of a processor always has a full memory image.
    pub proof fn lemma_view_wf(&self)
        ensures
            self@.wf(),
    {
    }

    /// Reads the byte at `addr`.
    pub fn mem_read(&self, addr: u16) -> (value: u8)
        ensures
            value == self@.read(addr),
    {
        self.memory[addr as usize]
    }

    /// Reads the little-endian word at `pos`.
    pub fn mem_read_u16(&self, pos: u16) -> (value: u16)
        ensures
            value == self@.read_u16(pos),
    {
        let lo: u8 = self.mem_read(pos);
        let hi: u8 = self.mem_read(pos.wrapping_add(1));
        join_bytes(lo, hi)
    }

    /// Stores `data` little-endian at `pos`.
    pub fn mem_write_u16(&mut self, pos: u16, data: u16)
        ensures
            final(self)@ == old(self)@.write_u16(pos, data),
    {
        let first: u8 = (data % 256) as u8;
        let second: u8 = (data / 256) as u8;
        self.mem_write(pos, first);
        self.mem_write(pos.wrapping_add(1), second);
    }

    /// Stores `data` at `addr` and changes nothing else.
    pub fn mem_write(&mut self, addr: u16, data: u8)
        ensures
            final(self)@ == old(self)@.write(addr, data),
    {
        self.memory[addr as usize] = data;
    }
}

/// Joins a low and a high byte into a word.
pub fn join_bytes(lo: u8, hi: u8) -> (value: u16)
    ensures
        value == word(lo, hi),
{
    (hi as u16) * 256 + (lo as u16)
}

} // verus!
