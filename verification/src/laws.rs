use vstd::prelude::*;
use crate::addressing::AddressingMode;
use crate::execute::{CpuError, Status, PROGRAM_SPACE, PROGRAM_START, RESET_VECTOR};
use crate::instructions::{lemma_zero_and_negative, negative_flag, zero_flag};
use crate::machine::Machine;
use crate::opcodes::{standard_table, wf_table, Entry, Handler};

verus! {

/// The three zero-page modes resolve to an address in page 0, whatever the
/// index register holds.
pub proof fn lemma_zero_page_stays_in_page_zero(m: Machine)
    ensures
        m.operand_address(AddressingMode::ZeroPage) < 0x100,
        m.operand_address(AddressingMode::ZeroPageX) < 0x100,
        m.operand_address(AddressingMode::ZeroPageY) < 0x100,
{
}

/// Resolving an address reads memory, the program counter and the index
/// registers only: machines that agree on those resolve alike.
pub proof fn lemma_address_ignores_accumulator_and_flags(
    m: Machine,
    a: u8,
    status: u8,
    mode: AddressingMode,
)
    ensures
        (Machine { a, status, ..m }).operand_address(mode) == m.operand_address(mode),
{
}

/// After AND and LDA the zero flag is set exactly when the accumulator is
/// zero and the negative flag exactly when its high bit is set; after TAX
/// and INX the same holds of register X.
pub proof fn lemma_flags_follow_result(m: Machine, mode: AddressingMode)
    ensures
        zero_flag(m.and(mode).status) <==> m.and(mode).a == 0,
        negative_flag(m.and(mode).status) <==> m.and(mode).a >= 0x80,
        zero_flag(m.lda(mode).status) <==> m.lda(mode).a == 0,
        negative_flag(m.lda(mode).status) <==> m.lda(mode).a >= 0x80,
        zero_flag(m.tax().status) <==> m.tax().x == 0,
        negative_flag(m.tax().status) <==> m.tax().x >= 0x80,
        zero_flag(m.inx().status) <==> m.inx().x == 0,
        negative_flag(m.inx().status) <==> m.inx().x >= 0x80,
{
    lemma_zero_and_negative(m.status, m.a & m.operand(mode));
    lemma_zero_and_negative(m.status, m.operand(mode));
    lemma_zero_and_negative(m.status, m.a);
    lemma_zero_and_negative(m.status, m.x.wrapping_add(1));
}

/// The accumulator after AND is the bitwise AND of the accumulator before
/// and the operand, in either order, whatever the addressing mode.
pub proof fn lemma_and_commutes(m: Machine, mode: AddressingMode)
    ensures
        m.and(mode).a == m.a & m.operand(mode),
        m.and(mode).a == m.operand(mode) & m.a,
{
    let a = m.a;
    let v = m.operand(mode);
    assert(a & v == v & a) by (bit_vector);
}

/// INX twice from 0xFF passes through 0x00, and in general INX adds one
/// modulo 256.
pub proof fn lemma_inx_wraps(m: Machine)
    ensures
        m.inx().x == (m.x + 1) % 256,
        m.x == 0xFF ==> m.inx().x == 0x00 && m.inx().inx().x == 0x01,
{
}

/// Reading the address that STA resolved gives the accumulator that STA
/// stored there, whatever the addressing mode.
pub proof fn lemma_sta_round_trip(m: Machine, mode: AddressingMode)
    requires
        m.wf(),
        mode.has_operand(),
    ensures
        m.sta(mode).read(m.operand_address(mode)) == m.a,
        m.sta(mode).a == m.a,
        m.sta(mode).status == m.status,
{
}

/// A cycle that runs a routine other than the halt leaves the program
/// counter right behind the instruction: at the old counter plus the
/// instruction's length, modulo 65536.
pub proof fn lemma_step_advances(m: Machine, table: Map<u8, Entry>)
    requires
        wf_table(table),
        Machine::dispatch(table, m.read(m.pc)) is Some,
        table[m.read(m.pc)].handler != Some(Handler::Brk),
    ensures
        m.step(table).1 == Ok::<Status, CpuError>(Status::Running),
        m.step(table).0.pc == (m.pc + table[m.read(m.pc)].opcode.len) % 0x10000,
{
}

/// A cycle that meets the halt instruction ends in `Halted` with registers,
/// flags and memory untouched and the program counter one past the
/// instruction; `run` with any budget above zero stops there.
pub proof fn lemma_halt(m: Machine, table: Map<u8, Entry>, steps: nat)
    requires
        Machine::dispatch(table, m.read(m.pc)) is Some,
        table[m.read(m.pc)].handler == Some(Handler::Brk),
        steps > 0,
    ensures
        m.step(table) == (m.fetched(), Ok::<Status, CpuError>(Status::Halted)),
        m.run(table, steps) == (m.fetched(), Ok::<Status, CpuError>(Status::Halted)),
        m.fetched().a == m.a,
        m.fetched().x == m.x,
        m.fetched().y == m.y,
        m.fetched().status == m.status,
        m.fetched().mem == m.mem,
{
}

/// In the supported instruction set the byte 0x00 halts.
pub proof fn lemma_zero_halts(m: Machine, steps: nat)
    requires
        m.read(m.pc) == 0x00,
        steps > 0,
    ensures
        m.run(standard_table(), steps) == (m.fetched(), Ok::<Status, CpuError>(Status::Halted)),
{
    lemma_halt(m, standard_table(), steps);
}

/// A byte without a wired routine ends the cycle, and `run` with any budget
/// above zero, in `UnsupportedOpcode` of that byte; only the program counter
/// has moved.
pub proof fn lemma_unsupported(m: Machine, table: Map<u8, Entry>, steps: nat)
    requires
        Machine::dispatch(table, m.read(m.pc)) is None,
        steps > 0,
    ensures
        m.run(table, steps) == (
            m.fetched(),
            Err::<Status, CpuError>(CpuError::UnsupportedOpcode(m.read(m.pc))),
        ),
{
}

/// Every cycle keeps the memory image at its full size.
pub proof fn lemma_step_keeps_wf(m: Machine, table: Map<u8, Entry>)
    requires
        m.wf(),
    ensures
        m.step(table).0.wf(),
{
}

/// Running keeps the memory image at its full size.
pub proof fn lemma_run_keeps_wf(m: Machine, table: Map<u8, Entry>, steps: nat)
    requires
        m.wf(),
    ensures
        m.run(table, steps).0.wf(),
    decreases steps,
{
    if steps > 0 {
        lemma_step_keeps_wf(m, table);
        lemma_run_keeps_wf(m.step(table).0, table, (steps - 1) as nat);
    }
}

/// A run that used up its budget can be resumed: running `first` cycles and
/// then `second` more is running `first + second` cycles, and a run that
/// stopped early stays where it stopped.
pub proof fn lemma_run_resumes(m: Machine, table: Map<u8, Entry>, first: nat, second: nat)
    ensures
        m.run(table, first + second) == if m.run(table, first).1 == Ok::<Status, CpuError>(
            Status::Running,
        ) {
            m.run(table, first).0.run(table, second)
        } else {
            m.run(table, first)
        },
    decreases first,
{
    if first > 0 {
        let (next, outcome) = m.step(table);
        if outcome == Ok::<Status, CpuError>(Status::Running) {
            lemma_run_resumes(next, table, (first - 1) as nat, second);
        }
    }
}

/// Once a run has stopped, at the halt or at a refused byte, a larger budget
/// gives the same machine and the same outcome.
pub proof fn lemma_run_settles(m: Machine, table: Map<u8, Entry>, enough: nat, more: nat)
    requires
        m.run(table, enough).1 != Ok::<Status, CpuError>(Status::Running),
        enough <= more,
    ensures
        m.run(table, more) == m.run(table, enough),
{
    lemma_run_resumes(m, table, enough, (more - enough) as nat);
}

/// After `load` the program counter and the reset vector point at
/// `PROGRAM_START`, every program byte below the vector is in place, memory
/// outside the program and the vector is untouched, and `reset` brings the
/// program counter back to `PROGRAM_START`.
pub proof fn lemma_load(m: Machine, program: Seq<u8>)
    requires
        m.wf(),
        program.len() <= PROGRAM_SPACE,
    ensures
        m.load(program).wf(),
        m.load(program).pc == PROGRAM_START,
        m.load(program).read_u16(RESET_VECTOR) == PROGRAM_START,
        m.load(program).reset().pc == PROGRAM_START,
        forall|i: int|
            0 <= i < program.len() && PROGRAM_START + i != RESET_VECTOR && PROGRAM_START + i
                != RESET_VECTOR + 1 ==> #[trigger] m.load(program).mem[PROGRAM_START + i]
                == program[i],
        forall|j: int|
            0 <= j < PROGRAM_START ==> #[trigger] m.load(program).mem[j] == m.mem[j],
        forall|j: int|
            PROGRAM_START + program.len() <= j < 0x10000 && j != RESET_VECTOR && j
                != RESET_VECTOR + 1 ==> #[trigger] m.load(program).mem[j] == m.mem[j],
{
}

} // verus!
