//! The register file: eight general-purpose registers, the program counter and
//! the condition flag.
use crate::bits::sign_bit;
use crate::vm::Lc3;
use vstd::prelude::*;

verus! {

/// Where the program counter of a fresh machine points.
pub const PC_START: u16 = 0x3000;

/// The sign of the value last loaded into a register by an instruction that
/// sets the condition codes.
#[derive(Debug, Clone, Copy, PartialEq, Eq, Structural)]
pub enum ConditionalFlag {
    /// P: the value was positive.
    Pos,
    /// Z: the value was zero.
    Zro,
    /// N: the value was negative, that is bit 15 was set.
    Neg,
}

impl ConditionalFlag {
    /// The flag as it is laid out in the `nzp` field of a branch: P is bit 0,
    /// Z is bit 1 and N is bit 2.
    pub open spec fn mask(self) -> u16 {
        match self {
            ConditionalFlag::Pos => 1,
            ConditionalFlag::Zro => 2,
            ConditionalFlag::Neg => 4,
        }
    }

    /// The flag that describes `value`: zero, negative when bit 15 is set,
    /// positive otherwise.
    pub open spec fn of(value: u16) -> ConditionalFlag {
        if value == 0 {
            ConditionalFlag::Zro
        } else if sign_bit(value, 16) {
            ConditionalFlag::Neg
        } else {
            ConditionalFlag::Pos
        }
    }

    /// The bit that stands for this flag in a branch's `nzp` field.
    pub fn bits(self) -> (bits: u16)
        ensures
            bits == self.mask(),
    {
        match self {
            ConditionalFlag::Pos => 1,
            ConditionalFlag::Zro => 2,
            ConditionalFlag::Neg => 4,
        }
    }
}

/// The mathematical content of a [`Register`].
#[verifier::ext_equal]
pub struct RegisterFile {
    /// R0 to R7, in order.
    pub general: Seq<u16>,
    pub pc: u16,
    pub cond: ConditionalFlag,
}

impl RegisterFile {
    /// There are exactly eight general-purpose registers.
    pub open spec fn wf(self) -> bool {
        self.general.len() == 8
    }

    /// The register file of a machine that has not run yet.
    pub open spec fn fresh() -> RegisterFile {
        RegisterFile {
            general: Seq::new(8, |i: int| 0u16),
            pc: PC_START,
            cond: ConditionalFlag::Zro,
        }
    }

    /// This register file with `value` in general register `register`.
    pub open spec fn set(self, register: u16, value: u16) -> RegisterFile {
        RegisterFile { general: self.general.update(register as int, value), ..self }
    }

    /// This register file with the condition flag recomputed from the current
    /// value of general register `register`.
    pub open spec fn with_flag_of(self, register: u16) -> RegisterFile {
        RegisterFile { cond: ConditionalFlag::of(self.general[register as int]), ..self }
    }

    /// This register file with the program counter moved to `pc`.
    pub open spec fn jump(self, pc: u16) -> RegisterFile {
        RegisterFile { pc, ..self }
    }

    /// This register file with the program counter one word further, wrapping
    /// from 0xFFFF to 0.
    pub open spec fn advance(self) -> RegisterFile {
        self.jump(self.pc.wrapping_add(1))
    }
}

/// 8 general purpose registers (R0-R7), 1 program counter (PC) register and
/// 1 condition flags (COND) register.
#[derive(Debug, Clone, Copy, PartialEq, Eq)]
pub struct Register {
    /// R0 to R7, indexed by register number.
    pub general: [u16; 8],
    pub pc: u16,
    pub cond: ConditionalFlag,
}

impl View for Register {
    type V = RegisterFile;

    open spec fn view(&self) -> RegisterFile {
        RegisterFile { general: self.general@, pc: self.pc, cond: self.cond }
    }
}

impl Register {
    /// Stores `value` in general register `register`. The condition flag is
    /// left alone.
    pub fn set_register(&mut self, register: u16, value: u16)
        requires
            register < 8,
        ensures
            final(self)@ == old(self)@.set(register, value),
    {
        self.general[register as usize] = value;
    }

    /// The value of general register `register`.
    pub fn get_register(&self, register: u16) -> (value: u16)
        requires
            register < 8,
        ensures
            value == self@.general[register as int],
    {
        self.general[register as usize]
    }

    /// Recomputes the condition flag from the value that general register `r`
    /// holds now: zero gives Z, a set bit 15 gives N, anything else P.
    pub fn set_cc_flag(&mut self, r: u16)
        requires
            r < 8,
        ensures
            final(self)@ == old(self)@.with_flag_of(r),
            final(self).cond == ConditionalFlag::of(old(self)@.general[r as int]),
    {
        let value: u16 = self.get_register(r);
        if value == 0 {
            self.cond = ConditionalFlag::Zro;
        } else if Lc3::is_negative(value, 16) {
            self.cond = ConditionalFlag::Neg;
        } else {
            self.cond = ConditionalFlag::Pos;
        }
    }

    /// Advances the program counter by one word, wrapping from 0xFFFF to 0.
    pub fn increment_pc(&mut self)
        ensures
            final(self)@ == old(self)@.advance(),
    {
        self.pc = self.pc.wrapping_add(1);
    }
}

impl Default for Register {
    /// All general registers zero, the program counter at [`PC_START`], the
    /// flag Z.
    fn default() -> (registers: Register)
        ensures
            registers@ == RegisterFile::fresh(),
    {
        let registers = Register { general: [0; 8], pc: PC_START, cond: ConditionalFlag::Zro };
        assert(registers@.general =~= RegisterFile::fresh().general);
        registers
    }
}

} // verus!
