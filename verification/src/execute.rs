use vstd::prelude::*;
use crate::machine::{Machine, CPU};
use crate::opcodes::{standard_table, Entry, Handler, OpcodeTable};
use crate::addressing::AddressingMode;

verus! {

/// Address at which `load` places a program.
pub const PROGRAM_START: u16 = 0x8000;

/// Address of the little-endian word that `reset` takes the program counter
/// from.
pub const RESET_VECTOR: u16 = 0xFFFC;

/// Number of bytes from `PROGRAM_START` to the top of memory.
pub const PROGRAM_SPACE: usize = 0x8000;

/// Why an operation on the processor was refused.
#[derive(Clone, Copy, Debug, PartialEq, Eq, Structural)]
pub enum CpuError {
    /// The fetched byte has no table row, or its row has no routine wired.
    UnsupportedOpcode(u8),
    /// The program is longer than the space above `PROGRAM_START`.
    OutOfBoundsLoad,
}

/// Whether the processor can go on.
#[derive(Clone, Copy, Debug, PartialEq, Eq, Structural)]
pub enum Status {
    /// The last instruction completed and the next one can be fetched.
    Running,
    /// The halt instruction was executed.
    Halted,
}

impl Machine {
    /// The machine after `program` is copied to `PROGRAM_START`, the program
    /// counter is set there, and `PROGRAM_START` is written to the reset
    /// vector. The vector is written last, so it replaces program bytes that
    /// reach it.
    pub open spec fn load(self, program: Seq<u8>) -> Machine
        recommends
            program.len() <= PROGRAM_SPACE,
    {
        Machine {
            pc: PROGRAM_START,
            mem: Seq::new(
                self.mem.len(),
                |i: int|
                    if PROGRAM_START <= i < PROGRAM_START + program.len() {
                        program[i - PROGRAM_START]
                    } else {
                        self.mem[i]
                    },
            ),
            ..self
        }.write_u16(RESET_VECTOR, PROGRAM_START)
    }

    /// The machine with registers and flags zero and the program counter
    /// taken from the reset vector.
    pub open spec fn reset(self) -> Machine {
        Machine { a: 0, x: 0, y: 0, status: 0, pc: self.read_u16(RESET_VECTOR), ..self }
    }

    /// The machine with the program counter moved past the byte it pointed
    /// at.
    pub open spec fn fetched(self) -> Machine {
        Machine { pc: self.pc.wrapping_add(1), ..self }
    }

    /// The machine after `handler` has run with `mode`.
    pub open spec fn execute(self, handler: Handler, mode: AddressingMode) -> Machine {
        match handler {
            Handler::And => self.and(mode),
            Handler::Lda => self.lda(mode),
            Handler::Sta => self.sta(mode),
            Handler::Tax => self.tax(),
            Handler::Inx => self.inx(),
            Handler::Brk => self,
        }
    }

    /// The machine after the operand bytes of an instruction of `len` bytes
    /// are skipped, unless the routine moved the program counter away from
    /// `pc_after_fetch` itself.
    pub open spec fn advanced(self, pc_after_fetch: u16, len: u8) -> Machine {
        if self.pc == pc_after_fetch {
            Machine { pc: self.pc.wrapping_add((len - 1) as u16), ..self }
        } else {
            self
        }
    }

    /// The routine wired to `code` in `table`, if any.
    pub open spec fn dispatch(table: Map<u8, Entry>, code: u8) -> Option<Entry> {
        if table.contains_key(code) && table[code].handler is Some {
            Some(table[code])
        } else {
            None
        }
    }

    /// One fetch-dispatch-execute-advance cycle: the next machine and how
    /// the cycle ended. The halt and a byte that cannot be dispatched leave
    /// the program counter just past that byte and change nothing else.
    pub open spec fn step(self, table: Map<u8, Entry>) -> (Machine, Result<Status, CpuError>) {
        let code = self.read(self.pc);
        let fetched = self.fetched();
        match Self::dispatch(table, code) {
            None => (fetched, Err(CpuError::UnsupportedOpcode(code))),
            Some(entry) => {
                let handler = entry.handler->Some_0;
                if handler == Handler::Brk {
                    (fetched, Ok(Status::Halted))
                } else {
                    (
                        fetched.execute(handler, entry.opcode.mode).advanced(
                            fetched.pc,
                            entry.opcode.len,
                        ),
                        Ok(Status::Running),
                    )
                }
            },
        }
    }

    /// At most `steps` cycles, stopping at the first that does not end in
    /// `Running`.
    pub open spec fn run(self, table: Map<u8, Entry>, steps: nat) -> (Machine, Result<Status, CpuError>)
        decreases steps,
    {
        if steps == 0 {
            (self, Ok(Status::Running))
        } else {
            let (next, outcome) = self.step(table);
            if outcome == Ok::<Status, CpuError>(Status::Running) {
                next.run(table, (steps - 1) as nat)
            } else {
                (next, outcome)
            }
        }
    }
}

impl CPU {
    /// Zeroes the registers and flags and takes the program counter from the
    /// reset vector. Memory is kept.
    pub fn reset(&mut self)
        ensures
            final(self)@ == old(self)@.reset(),
    {
        self.register_a = 0;
        self.register_x = 0;
        self.register_y = 0;
        self.status = 0;
        self.program_counter = self.mem_read_u16(RESET_VECTOR);
    }

    /// Copies `program` to `PROGRAM_START`, points the program counter and
    /// the reset vector there. A program longer than `PROGRAM_SPACE` is
    /// refused and the processor is left as it was.
    pub fn load(&mut self, program: Vec<u8>) -> (result: Result<(), CpuError>)
        ensures
            program.len() <= PROGRAM_SPACE ==> {
                &&& result == Ok::<(), CpuError>(())
                &&& final(self)@ == old(self)@.load(program@)
            },
            program.len() > PROGRAM_SPACE ==> {
                &&& result == Err::<(), CpuError>(CpuError::OutOfBoundsLoad)
                &&& *final(self) == *old(self)
            },
    {
        let n: usize = program.len();
        if n > PROGRAM_SPACE {
            return Err(CpuError::OutOfBoundsLoad);
        }
        let ghost start = self@;
        let mut i: usize = 0;
        while i < n
            invariant
                i <= n <= PROGRAM_SPACE,
                n == program.len(),
                self@.a == start.a,
                self@.x == start.x,
                self@.y == start.y,
                self@.status == start.status,
                start.mem.len() == 0x10000,
                self@.mem =~= Seq::new(
                    0x10000,
                    |j: int|
                        if PROGRAM_START <= j < PROGRAM_START + i {
                            program@[j - PROGRAM_START]
                        } else {
                            start.mem[j]
                        },
                ),
            decreases n - i,
        {
            self.memory[PROGRAM_SPACE + i] = program[i];
            i += 1;
        }
        self.program_counter = PROGRAM_START;
        self.mem_write_u16(RESET_VECTOR, PROGRAM_START);
        Ok(())
    }

    /// Runs one fetch-dispatch-execute-advance cycle with `table`: `Running`
    /// after a completed instruction, `Halted` at the halt instruction,
    /// `UnsupportedOpcode` at a byte that `table` cannot dispatch.
    pub fn step(&mut self, table: &OpcodeTable) -> (result: Result<Status, CpuError>)
        ensures
            (final(self)@, result) == old(self)@.step(table@),
    {
        proof {
            use_type_invariant(table);
        }
        let code: u8 = self.mem_read(self.program_counter);
        self.program_counter = self.program_counter.wrapping_add(1);
        let current_pc: u16 = self.program_counter;
        let entry = match table.get(code) {
            Some(entry) => entry,
            None => {
                return Err(CpuError::UnsupportedOpcode(code));
            },
        };
        let handler = match entry.handler {
            Some(handler) => handler,
            None => {
                return Err(CpuError::UnsupportedOpcode(code));
            },
        };
        match handler {
            Handler::And => self.and(&entry.opcode.mode),
            Handler::Lda => self.lda(&entry.opcode.mode),
            Handler::Sta => self.sta(&entry.opcode.mode),
            Handler::Tax => self.tax(),
            Handler::Inx => self.inx(),
            Handler::Brk => {
                return Ok(Status::Halted);
            },
        }
        if self.program_counter == current_pc {
            self.program_counter = self.program_counter.wrapping_add((entry.opcode.len - 1) as u16);
        }
        Ok(Status::Running)
    }

    /// Runs cycles with `table` until the processor halts, an instruction is
    /// refused, or `max_steps` cycles are done. `Ok(Running)` says that the
    /// budget ran out first; a further call goes on from there.
    pub fn run_with(&mut self, table: &OpcodeTable, max_steps: u64) -> (result: Result<Status, CpuError>)
        ensures
            (final(self)@, result) == old(self)@.run(table@, max_steps as nat),
    {
        let mut remaining: u64 = max_steps;
        while remaining > 0
            invariant
                self@.run(table@, remaining as nat) == old(self)@.run(table@, max_steps as nat),
            decreases remaining,
        {
            match self.step(table) {
                Ok(Status::Running) => {
                    remaining -= 1;
                },
                outcome => {
                    return outcome;
                },
            }
        }
        Ok(Status::Running)
    }

    /// Runs the supported instruction set from the current program counter
    /// for at most `max_steps` cycles.
    pub fn run(&mut self, max_steps: u64) -> (result: Result<Status, CpuError>)
        ensures
            (final(self)@, result) == old(self)@.run(standard_table(), max_steps as nat),
    {
        let table = OpcodeTable::new();
        self.run_with(&table, max_steps)
    }

    /// `load`, then `reset`, then `run`. A program that does not fit is
    /// refused and the processor is left as it was.
    pub fn load_and_run(&mut self, program: Vec<u8>, max_steps: u64) -> (result: Result<Status, CpuError>)
        ensures
            program.len() <= PROGRAM_SPACE ==> {
                let loaded = old(self)@.load(program@).reset();
                (final(self)@, result) == loaded.run(standard_table(), max_steps as nat)
            },
            program.len() > PROGRAM_SPACE ==> {
                &&& result == Err::<Status, CpuError>(CpuError::OutOfBoundsLoad)
                &&& *final(self) == *old(self)
            },
    {
        match self.load(program) {
            Err(e) => Err(e),
            Ok(()) => {
                self.reset();
                self.run(max_steps)
            },
        }
    }
}

} // verus!
