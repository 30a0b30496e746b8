use std::collections::HashMap;
use vstd::prelude::*;
use crate::addressing::AddressingMode;

verus! {

broadcast use vstd::std_specs::hash::group_hash_axioms;

/// What is known of one operation code: its mnemonic, how many bytes the
/// instruction takes (the code itself included), its cycle count (kept for
/// information, never enforced) and how it finds its operand.
#[derive(Clone, Copy, Debug)]
pub struct Opcode {
    pub code: u8,
    pub name: &'static str,
    pub cycles: u8,
    pub len: u8,
    pub mode: AddressingMode,
}

impl Opcode {
    /// The descriptor with the given fields.
    pub open spec fn spec_new(
        code: u8,
        name: &'static str,
        len: u8,
        cycles: u8,
        mode: AddressingMode,
    ) -> Opcode {
        Opcode { code, name, cycles, len, mode }
    }

    /// Builds a descriptor.
    #[verifier::when_used_as_spec(spec_new)]
    pub fn new(code: u8, name: &'static str, len: u8, cycles: u8, mode: AddressingMode) -> (op:
        Self)
        ensures
            op == Self::spec_new(code, name, len, cycles, mode),
    {
        Opcode { code, name, cycles, len, mode }
    }
}

/// The routine that carries out an instruction.
#[derive(Clone, Copy, Debug, PartialEq, Eq, Structural)]
pub enum Handler {
    And,
    Lda,
    Sta,
    Tax,
    Inx,
    Brk,
}

impl Handler {
    /// The routine resolves an operand address.
    pub open spec fn needs_operand(self) -> bool {
        self == Handler::And || self == Handler::Lda || self == Handler::Sta
    }
}

/// One row of the dispatch table: a descriptor and the routine wired to it,
/// if any.
#[derive(Clone, Copy, Debug)]
pub struct Entry {
    pub opcode: Opcode,
    pub handler: Option<Handler>,
}

impl Entry {
    /// The row for `opcode` with `handler` wired to it.
    pub open spec fn spec_new(opcode: Opcode, handler: Option<Handler>) -> Entry {
        Entry { opcode, handler }
    }

    /// Builds a row.
    #[verifier::when_used_as_spec(spec_new)]
    pub fn new(opcode: Opcode, handler: Option<Handler>) -> (entry: Self)
        ensures
            entry == Self::spec_new(opcode, handler),
    {
        Entry { opcode, handler }
    }

    /// The row can be dispatched: its instruction is at least one byte long,
    /// and a routine that resolves an operand comes with a mode that has one.
    pub open spec fn wf(self) -> bool {
        &&& self.opcode.len >= 1
        &&& (self.handler matches Some(h) && h.needs_operand())
            ==> self.opcode.mode.has_operand()
    }

    /// Tells whether the row can be dispatched.
    pub fn is_wf(&self) -> (ok: bool)
        ensures
            ok == self.wf(),
    {
        let operand_found = match self.handler {
            Some(Handler::And) | Some(Handler::Lda) | Some(Handler::Sta) => {
                match self.opcode.mode {
                    AddressingMode::NoneAddressing => false,
                    _ => true,
                }
            },
            _ => true,
        };
        self.opcode.len >= 1 && operand_found
    }
}

/// The row with the given descriptor fields and routine.
pub open spec fn row(
    code: u8,
    name: &'static str,
    len: u8,
    cycles: u8,
    mode: AddressingMode,
    handler: Option<Handler>,
) -> Entry {
    Entry::spec_new(Opcode::spec_new(code, name, len, cycles, mode), handler)
}

/// `table` with `entry` filed under its own code, in place of any row that
/// was there.
pub open spec fn bind(table: Map<u8, Entry>, entry: Entry) -> Map<u8, Entry> {
    table.insert(entry.opcode.code, entry)
}

/// Every row is filed under its own code and can be dispatched.
pub open spec fn wf_table(table: Map<u8, Entry>) -> bool {
    forall|code: u8| #[trigger]
        table.contains_key(code) ==> table[code].opcode.code == code && table[code].wf()
}

/// The supported instruction set.
pub open spec fn standard_table() -> Map<u8, Entry> {
    let t = Map::<u8, Entry>::empty();
    let t = bind(t, row(0x29, "AND", 2, 2, AddressingMode::Immediate, Some(Handler::And)));
    let t = bind(t, row(0x25, "AND", 2, 3, AddressingMode::ZeroPage, Some(Handler::And)));
    let t = bind(t, row(0x35, "AND", 2, 4, AddressingMode::ZeroPageX, Some(Handler::And)));
    let t = bind(t, row(0x2D, "AND", 3, 4, AddressingMode::Absolute, Some(Handler::And)));
    let t = bind(t, row(0x3D, "AND", 3, 4, AddressingMode::AbsoluteX, Some(Handler::And)));
    let t = bind(t, row(0x39, "AND", 3, 4, AddressingMode::AbsoluteY, Some(Handler::And)));
    let t = bind(t, row(0x21, "AND", 2, 6, AddressingMode::IndirectX, Some(Handler::And)));
    let t = bind(t, row(0x31, "AND", 2, 5, AddressingMode::IndirectY, Some(Handler::And)));
    let t = bind(t, row(0x90, "BCC", 2, 2, AddressingMode::NoneAddressing, None));
    let t = bind(t, row(0x00, "BRK", 1, 7, AddressingMode::NoneAddressing, Some(Handler::Brk)));
    let t = bind(t, row(0xAA, "TAX", 1, 2, AddressingMode::NoneAddressing, Some(Handler::Tax)));
    let t = bind(t, row(0xE8, "INX", 1, 2, AddressingMode::NoneAddressing, Some(Handler::Inx)));
    let t = bind(t, row(0xA9, "LDA", 2, 2, AddressingMode::Immediate, Some(Handler::Lda)));
    let t = bind(t, row(0xA5, "LDA", 2, 3, AddressingMode::ZeroPage, Some(Handler::Lda)));
    let t = bind(t, row(0xB5, "LDA", 2, 4, AddressingMode::ZeroPageX, Some(Handler::Lda)));
    let t = bind(t, row(0xAD, "LDA", 3, 4, AddressingMode::Absolute, Some(Handler::Lda)));
    let t = bind(t, row(0xBD, "LDA", 3, 4, AddressingMode::AbsoluteX, Some(Handler::Lda)));
    let t = bind(t, row(0xB9, "LDA", 3, 4, AddressingMode::AbsoluteY, Some(Handler::Lda)));
    let t = bind(t, row(0xA1, "LDA", 2, 6, AddressingMode::IndirectX, Some(Handler::Lda)));
    let t = bind(t, row(0xB1, "LDA", 2, 5, AddressingMode::IndirectY, Some(Handler::Lda)));
    let t = bind(t, row(0x85, "STA", 2, 3, AddressingMode::ZeroPage, Some(Handler::Sta)));
    let t = bind(t, row(0x95, "STA", 2, 4, AddressingMode::ZeroPageX, Some(Handler::Sta)));
    let t = bind(t, row(0x8D, "STA", 3, 4, AddressingMode::Absolute, Some(Handler::Sta)));
    let t = bind(t, row(0x9D, "STA", 3, 5, AddressingMode::AbsoluteX, Some(Handler::Sta)));
    let t = bind(t, row(0x99, "STA", 3, 5, AddressingMode::AbsoluteY, Some(Handler::Sta)));
    let t = bind(t, row(0x81, "STA", 2, 6, AddressingMode::IndirectX, Some(Handler::Sta)));
    let t = bind(t, row(0x91, "STA", 2, 6, AddressingMode::IndirectY, Some(Handler::Sta)));
    t
}

/// The standard table is well formed.
pub proof fn lemma_standard_table_wf()
    ensures
        wf_table(standard_table()),
{
}

/// The mapping from operation code to table row. Every table holds only
/// rows that can be dispatched, each filed under its own code.
pub struct OpcodeTable {
    entries: HashMap<u8, Entry>,
}

impl View for OpcodeTable {
    type V = Map<u8, Entry>;

    closed spec fn view(&self) -> Map<u8, Entry> {
        self.entries@
    }
}

impl OpcodeTable {
    /// What holds of every table.
    #[verifier::type_invariant]
    pub open spec fn inv(&self) -> bool {
        wf_table(self@)
    }

    /// A table without rows.
    pub fn empty() -> (table: Self)
        ensures
            table@ == Map::<u8, Entry>::empty(),
    {
        OpcodeTable { entries: HashMap::new() }
    }

    /// Files `entry` under its code in place of any row that was there, and
    /// says `true`. A row that cannot be dispatched is refused: the table
    /// stays as it was and the answer is `false`.
    pub fn insert(&mut self, entry: Entry) -> (accepted: bool)
        ensures
            accepted == entry.wf(),
            final(self)@ == if entry.wf() {
                bind(old(self)@, entry)
            } else {
                old(self)@
            },
    {
        proof {
            use_type_invariant(&*self);
        }
        if entry.is_wf() {
            // The map is taken out while it changes, so that the table holds
            // only rows that can be dispatched at every point.
            let mut entries: HashMap<u8, Entry> = HashMap::new();
            std::mem::swap(&mut self.entries, &mut entries);
            entries.insert(entry.opcode.code, entry);
            std::mem::swap(&mut self.entries, &mut entries);
            true
        } else {
            false
        }
    }

    /// The row filed under `code`, if there is one.
    pub fn get(&self, code: u8) -> (found: Option<Entry>)
        ensures
            found == if self@.contains_key(code) {
                Some(self@[code])
            } else {
                None
            },
    {
        match self.entries.get(&code) {
            Some(entry) => Some(*entry),
            None => None,
        }
    }

    /// The table of the supported instruction set.
    pub fn new() -> (table: Self)
        ensures
            table@ == standard_table(),
            wf_table(table@),
    {
        let mut t = OpcodeTable::empty();
        t.insert(Entry::new(Opcode::new(0x29, "AND", 2, 2, AddressingMode::Immediate), Some(Handler::And)));
        t.insert(Entry::new(Opcode::new(0x25, "AND", 2, 3, AddressingMode::ZeroPage), Some(Handler::And)));
        t.insert(Entry::new(Opcode::new(0x35, "AND", 2, 4, AddressingMode::ZeroPageX), Some(Handler::And)));
        t.insert(Entry::new(Opcode::new(0x2D, "AND", 3, 4, AddressingMode::Absolute), Some(Handler::And)));
        t.insert(Entry::new(Opcode::new(0x3D, "AND", 3, 4, AddressingMode::AbsoluteX), Some(Handler::And)));
        t.insert(Entry::new(Opcode::new(0x39, "AND", 3, 4, AddressingMode::AbsoluteY), Some(Handler::And)));
        t.insert(Entry::new(Opcode::new(0x21, "AND", 2, 6, AddressingMode::IndirectX), Some(Handler::And)));
        t.insert(Entry::new(Opcode::new(0x31, "AND", 2, 5, AddressingMode::IndirectY), Some(Handler::And)));
        t.insert(Entry::new(Opcode::new(0x90, "BCC", 2, 2, AddressingMode::NoneAddressing), None));
        t.insert(Entry::new(Opcode::new(0x00, "BRK", 1, 7, AddressingMode::NoneAddressing), Some(Handler::Brk)));
        t.insert(Entry::new(Opcode::new(0xAA, "TAX", 1, 2, AddressingMode::NoneAddressing), Some(Handler::Tax)));
        t.insert(Entry::new(Opcode::new(0xE8, "INX", 1, 2, AddressingMode::NoneAddressing), Some(Handler::Inx)));
        t.insert(Entry::new(Opcode::new(0xA9, "LDA", 2, 2, AddressingMode::Immediate), Some(Handler::Lda)));
        t.insert(Entry::new(Opcode::new(0xA5, "LDA", 2, 3, AddressingMode::ZeroPage), Some(Handler::Lda)));
        t.insert(Entry::new(Opcode::new(0xB5, "LDA", 2, 4, AddressingMode::ZeroPageX), Some(Handler::Lda)));
        t.insert(Entry::new(Opcode::new(0xAD, "LDA", 3, 4, AddressingMode::Absolute), Some(Handler::Lda)));
        t.insert(Entry::new(Opcode::new(0xBD, "LDA", 3, 4, AddressingMode::AbsoluteX), Some(Handler::Lda)));
        t.insert(Entry::new(Opcode::new(0xB9, "LDA", 3, 4, AddressingMode::AbsoluteY), Some(Handler::Lda)));
        t.insert(Entry::new(Opcode::new(0xA1, "LDA", 2, 6, AddressingMode::IndirectX), Some(Handler::Lda)));
        t.insert(Entry::new(Opcode::new(0xB1, "LDA", 2, 5, AddressingMode::IndirectY), Some(Handler::Lda)));
        t.insert(Entry::new(Opcode::new(0x85, "STA", 2, 3, AddressingMode::ZeroPage), Some(Handler::Sta)));
        t.insert(Entry::new(Opcode::new(0x95, "STA", 2, 4, AddressingMode::ZeroPageX), Some(Handler::Sta)));
        t.insert(Entry::new(Opcode::new(0x8D, "STA", 3, 4, AddressingMode::Absolute), Some(Handler::Sta)));
        t.insert(Entry::new(Opcode::new(0x9D, "STA", 3, 5, AddressingMode::AbsoluteX), Some(Handler::Sta)));
        t.insert(Entry::new(Opcode::new(0x99, "STA", 3, 5, AddressingMode::AbsoluteY), Some(Handler::Sta)));
        t.insert(Entry::new(Opcode::new(0x81, "STA", 2, 6, AddressingMode::IndirectX), Some(Handler::Sta)));
        t.insert(Entry::new(Opcode::new(0x91, "STA", 2, 6, AddressingMode::IndirectY), Some(Handler::Sta)));
        t
    }
}

} // verus!
