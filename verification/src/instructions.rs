use vstd::prelude::*;
use crate::addressing::AddressingMode;
use crate::machine::{Machine, CPU};

verus! {

/// Status bit that records a zero result.
pub const ZERO_FLAG: u8 = 0b0000_0010;

/// Status bit that records a result with its high bit set.
pub const NEGATIVE_FLAG: u8 = 0b1000_0000;

/// The zero flag is set in `status`.
pub open spec fn zero_flag(status: u8) -> bool {
    status & ZERO_FLAG != 0
}

/// The negative flag is set in `status`.
pub open spec fn negative_flag(status: u8) -> bool {
    status & NEGATIVE_FLAG != 0
}

/// `status` with the zero flag set exactly when `result` is zero, the
/// negative flag copied from the high bit of `result`, and the six other
/// bits kept.
pub open spec fn with_zero_and_negative(status: u8, result: u8) -> u8 {
    (status & 0b0111_1101) | (if result == 0 {
        ZERO_FLAG
    } else {
        0
    }) | (result & NEGATIVE_FLAG)
}

/// After the flag update the zero flag is set exactly when the result is
/// zero, the negative flag is set exactly when the high bit of the result is
/// set, and the six other status bits are those from before.
pub proof fn lemma_zero_and_negative(status: u8, result: u8)
    ensures
        zero_flag(with_zero_and_negative(status, result)) <==> result == 0,
        negative_flag(with_zero_and_negative(status, result)) <==> result >= 0x80,
        with_zero_and_negative(status, result) & 0b0111_1101 == status & 0b0111_1101,
{
    assert(zero_flag(with_zero_and_negative(status, result)) <==> result == 0) by (bit_vector);
    assert(negative_flag(with_zero_and_negative(status, result)) <==> result >= 0x80)
        by (bit_vector);
    assert(with_zero_and_negative(status, result) & 0b0111_1101 == status & 0b0111_1101)
        by (bit_vector);
}

impl Machine {
    /// The machine after the flag update for `result`.
    pub open spec fn set_zero_and_negative(self, result: u8) -> Machine {
        Machine { status: with_zero_and_negative(self.status, result), ..self }
    }

    /// The byte that an instruction with addressing mode `mode` works on.
    pub open spec fn operand(self, mode: AddressingMode) -> u8 {
        self.read(self.operand_address(mode))
    }

    /// AND: the accumulator becomes its bitwise AND with the operand.
    pub open spec fn and(self, mode: AddressingMode) -> Machine {
        let value = self.a & self.operand(mode);
        Machine { a: value, ..self }.set_zero_and_negative(value)
    }

    /// LDA: the accumulator becomes the operand.
    pub open spec fn lda(self, mode: AddressingMode) -> Machine {
        let value = self.operand(mode);
        Machine { a: value, ..self }.set_zero_and_negative(value)
    }

    /// STA: the accumulator is stored at the operand's address.
    pub open spec fn sta(self, mode: AddressingMode) -> Machine {
        self.write(self.operand_address(mode), self.a)
    }

    /// TAX: register X becomes the accumulator.
    pub open spec fn tax(self) -> Machine {
        Machine { x: self.a, ..self }.set_zero_and_negative(self.a)
    }

    /// INX: register X is incremented, and 0xFF becomes 0x00.
    pub open spec fn inx(self) -> Machine {
        let value = self.x.wrapping_add(1);
        Machine { x: value, ..self }.set_zero_and_negative(value)
    }
}

impl CPU {
    /// AND the accumulator with the operand and update the flags.
    pub fn and(&mut self, mode: &AddressingMode)
        requires
            mode.has_operand(),
        ensures
            final(self)@ == old(self)@.and(*mode),
            final(self).register_a == old(self).register_a & old(self)@.operand(*mode),
            zero_flag(final(self).status) <==> final(self).register_a == 0,
            negative_flag(final(self).status) <==> final(self).register_a >= 0x80,
    {
        let addr: u16 = self.get_operand_address(mode);
        let value: u8 = self.mem_read(addr);
        self.register_a = self.register_a & value;
        self.update_zero_and_negative_flags(self.register_a)
    }

    /// Copy the accumulator to register X and update the flags.
    pub fn tax(&mut self)
        ensures
            final(self)@ == old(self)@.tax(),
            final(self).register_x == old(self).register_a,
            zero_flag(final(self).status) <==> final(self).register_x == 0,
            negative_flag(final(self).status) <==> final(self).register_x >= 0x80,
    {
        self.register_x = self.register_a;
        self.update_zero_and_negative_flags(self.register_x)
    }

    /// Store the accumulator at the operand's address. No flag changes.
    pub fn sta(&mut self, mode: &AddressingMode)
        requires
            mode.has_operand(),
        ensures
            final(self)@ == old(self)@.sta(*mode),
            final(self)@.read(old(self)@.operand_address(*mode)) == old(self).register_a,
            final(self).status == old(self).status,
    {
        let addr: u16 = self.get_operand_address(mode);
        self.mem_write(addr, self.register_a);
    }

    /// Load the operand into the accumulator and update the flags.
    pub fn lda(&mut self, mode: &AddressingMode)
        requires
            mode.has_operand(),
        ensures
            final(self)@ == old(self)@.lda(*mode),
            final(self).register_a == old(self)@.operand(*mode),
            zero_flag(final(self).status) <==> final(self).register_a == 0,
            negative_flag(final(self).status) <==> final(self).register_a >= 0x80,
    {
        let addr: u16 = self.get_operand_address(mode);
        let value: u8 = self.mem_read(addr);
        self.register_a = value;
        self.update_zero_and_negative_flags(self.register_a)
    }

    /// Increment register X with 8-bit wrap and update the flags.
    pub fn inx(&mut self)
        ensures
            final(self)@ == old(self)@.inx(),
            final(self).register_x == (old(self).register_x + 1) % 256,
            zero_flag(final(self).status) <==> final(self).register_x == 0,
            negative_flag(final(self).status) <==> final(self).register_x >= 0x80,
    {
        self.register_x = self.register_x.wrapping_add(1);
        self.update_zero_and_negative_flags(self.register_x)
    }

    /// Set the zero and negative flags from `result`; every other status bit
    /// and the rest of the processor stay as they are.
    pub fn update_zero_and_negative_flags(&mut self, result: u8)
        ensures
            final(self)@ == old(self)@.set_zero_and_negative(result),
            zero_flag(final(self).status) <==> result == 0,
            negative_flag(final(self).status) <==> result >= 0x80,
            final(self).status & 0b0111_1101 == old(self).status & 0b0111_1101,
    {
        proof {
            let status = self.status;
            lemma_zero_and_negative(status, result);
            assert(with_zero_and_negative(status, result) == if result & 0b1000_0000 != 0 {
                (if result == 0 {
                    status | 0b0000_0010
                } else {
                    status & 0b1111_1101
                }) | 0b1000_0000
            } else {
                (if result == 0 {
                    status | 0b0000_0010
                } else {
                    status & 0b1111_1101
                }) & 0b0111_1111
            }) by (bit_vector);
        }
        if result == 0 {
            self.status = self.status | 0b0000_0010;
        } else {
            self.status = self.status & 0b1111_1101;
        }
        if result & 0b1000_0000 != 0 {
            self.status = self.status | 0b1000_0000;
        } else {
            self.status = self.status & 0b0111_1111;
        }
    }
}

} // verus!
