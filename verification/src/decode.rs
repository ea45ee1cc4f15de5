//! Instruction decoding: the fields of an instruction word, the sixteen
//! opcodes and the six trap vectors.
use crate::bits::sign_extended;
use vstd::prelude::*;

verus! {

/// Bits 15..12: the opcode.
pub open spec fn opcode_field(instruction: u16) -> u16 {
    instruction >> 12
}

/// Bits 11..9: the destination register of an operate or load instruction,
/// and the source register of a store.
pub open spec fn dr_field(instruction: u16) -> u16 {
    (instruction >> 9) & 0x7
}

/// Bits 11..9 of a branch: the conditions on which it is taken.
pub open spec fn nzp_field(instruction: u16) -> u16 {
    (instruction >> 9) & 0x7
}

/// Bits 8..6: the first source register, or the base register.
pub open spec fn sr1_field(instruction: u16) -> u16 {
    (instruction >> 6) & 0x7
}

/// Bits 2..0: the second source register.
pub open spec fn sr2_field(instruction: u16) -> u16 {
    instruction & 0x7
}

/// Bit 5 of ADD and AND: whether the second operand is an immediate.
pub open spec fn immediate_mode(instruction: u16) -> bool {
    (instruction >> 5) & 0x1 == 1
}

/// Bit 11 of JSR: whether the target is relative to the program counter
/// (JSR) rather than taken from a register (JSRR).
pub open spec fn pc_relative_mode(instruction: u16) -> bool {
    (instruction >> 11) & 0x1 != 0
}

/// Bits 4..0, sign-extended.
pub open spec fn imm5_field(instruction: u16) -> u16 {
    sign_extended(instruction & 0x1F, 5)
}

/// Bits 5..0, sign-extended.
pub open spec fn offset6_field(instruction: u16) -> u16 {
    sign_extended(instruction & 0x3F, 6)
}

/// Bits 8..0, sign-extended.
pub open spec fn pc_offset9_field(instruction: u16) -> u16 {
    sign_extended(instruction & 0x1FF, 9)
}

/// Bits 10..0, sign-extended.
pub open spec fn pc_offset11_field(instruction: u16) -> u16 {
    sign_extended(instruction & 0x7FF, 11)
}

/// Bits 7..0 of a TRAP: the trap vector.
pub open spec fn trap_vector_field(instruction: u16) -> u16 {
    instruction & 0xFF
}

/// Every register field names one of the eight registers, and the opcode field
/// one of the sixteen opcodes.
pub proof fn lemma_field_ranges(instruction: u16)
    by (bit_vector)
    ensures
        instruction >> 12 < 16,
        (instruction >> 9) & 0x7 < 8,
        (instruction >> 6) & 0x7 < 8,
        instruction & 0x7 < 8,
        instruction & 0xFF < 256,
{
}

/// The operation an instruction performs, selected by its top four bits.
#[derive(Debug, Clone, Copy, PartialEq, Eq, Structural)]
pub enum Opcode {
    /// branch
    Br,
    /// add
    Add,
    /// load
    Ld,
    /// store
    St,
    /// jump register
    Jsr,
    /// bitwise and
    And,
    /// load register
    Ldr,
    /// store register
    Str,
    /// return from interrupt; not implemented
    Rti,
    /// bitwise not
    Not,
    /// load indirect
    Ldi,
    /// store indirect
    Sti,
    /// jump
    Jmp,
    /// reserved; not implemented
    Res,
    /// load effective address
    Lea,
    /// execute trap
    Trap,
}

impl Opcode {
    /// The four-bit number that selects this opcode.
    pub open spec fn number(self) -> u16 {
        match self {
            Opcode::Br => 0,
            Opcode::Add => 1,
            Opcode::Ld => 2,
            Opcode::St => 3,
            Opcode::Jsr => 4,
            Opcode::And => 5,
            Opcode::Ldr => 6,
            Opcode::Str => 7,
            Opcode::Rti => 8,
            Opcode::Not => 9,
            Opcode::Ldi => 10,
            Opcode::Sti => 11,
            Opcode::Jmp => 12,
            Opcode::Res => 13,
            Opcode::Lea => 14,
            Opcode::Trap => 15,
        }
    }

    /// Whether the machine implements this opcode. RTI and the reserved opcode
    /// are recognised and refused.
    pub open spec fn implemented(self) -> bool {
        self != Opcode::Rti && self != Opcode::Res
    }

    /// Whether an instruction with this opcode loads a register and sets the
    /// condition flag from what it loaded.
    pub open spec fn sets_condition_codes(self) -> bool {
        match self {
            Opcode::Add
            | Opcode::And
            | Opcode::Not
            | Opcode::Ld
            | Opcode::Ldi
            | Opcode::Ldr
            | Opcode::Lea => true,
            _ => false,
        }
    }

    /// The opcode numbered `code`, if there is one.
    pub open spec fn numbered(code: u16) -> Option<Opcode> {
        if exists|opcode: Opcode| opcode.number() == code {
            Some(choose|opcode: Opcode| opcode.number() == code)
        } else {
            None
        }
    }

    /// The opcode of `instruction`.
    pub open spec fn of(instruction: u16) -> Option<Opcode> {
        Opcode::numbered(opcode_field(instruction))
    }

    /// Decodes an opcode number. Every number from 0 to 15 names an opcode;
    /// no other does.
    pub fn from(code: u16) -> (opcode: Option<Opcode>)
        ensures
            opcode == Opcode::numbered(code),
            opcode is Some <==> code <= 15,
            opcode matches Some(found) ==> found.number() == code,
    {
        let opcode = match code {
            0 => Some(Opcode::Br),
            1 => Some(Opcode::Add),
            2 => Some(Opcode::Ld),
            3 => Some(Opcode::St),
            4 => Some(Opcode::Jsr),
            5 => Some(Opcode::And),
            6 => Some(Opcode::Ldr),
            7 => Some(Opcode::Str),
            8 => Some(Opcode::Rti),
            9 => Some(Opcode::Not),
            10 => Some(Opcode::Ldi),
            11 => Some(Opcode::Sti),
            12 => Some(Opcode::Jmp),
            13 => Some(Opcode::Res),
            14 => Some(Opcode::Lea),
            15 => Some(Opcode::Trap),
            _ => None,
        };
        proof {
            match opcode {
                Some(found) => {
                    assert(found.number() == code);
                    Opcode::lemma_number_is_injective(found, Opcode::numbered(code)->Some_0);
                },
                None => {
                    assert forall|other: Opcode| other.number() != code by {}
                },
            }
        }
        opcode
    }

    /// Two opcodes with the same number are the same opcode.
    pub proof fn lemma_number_is_injective(a: Opcode, b: Opcode)
        requires
            a.number() == b.number(),
        ensures
            a == b,
    {
    }
}

/// A service routine reached through the TRAP instruction, selected by the
/// trap vector in the instruction's low byte.
#[derive(Debug, Clone, Copy, PartialEq, Eq, Structural)]
pub enum Trap {
    /// get character from keyboard, not echoed onto the terminal
    Getc,
    /// output a character
    Out,
    /// output a word string
    Puts,
    /// get character from keyboard, echoed onto the terminal
    In,
    /// output a byte string
    Putsp,
    /// halt the program
    Halt,
}

impl Trap {
    /// The trap vector that selects this routine.
    pub open spec fn vector(self) -> u16 {
        match self {
            Trap::Getc => 0x20,
            Trap::Out => 0x21,
            Trap::Puts => 0x22,
            Trap::In => 0x23,
            Trap::Putsp => 0x24,
            Trap::Halt => 0x25,
        }
    }

    /// Whether this routine reads a byte from the keyboard.
    pub open spec fn reads_keyboard(self) -> bool {
        self == Trap::Getc || self == Trap::In
    }

    /// The routine at trap vector `vector`, if there is one.
    pub open spec fn at(vector: u16) -> Option<Trap> {
        if exists|trap: Trap| trap.vector() == vector {
            Some(choose|trap: Trap| trap.vector() == vector)
        } else {
            None
        }
    }

    /// The routine that the TRAP instruction `instruction` calls.
    pub open spec fn of(instruction: u16) -> Option<Trap> {
        Trap::at(trap_vector_field(instruction))
    }

    /// Decodes a trap vector. The six vectors 0x20 to 0x25 name a routine; no
    /// other does.
    pub fn from(vector: u16) -> (trap: Option<Trap>)
        ensures
            trap == Trap::at(vector),
            trap is Some <==> 0x20 <= vector <= 0x25,
            trap matches Some(found) ==> found.vector() == vector,
    {
        let trap = match vector {
            0x20 => Some(Trap::Getc),
            0x21 => Some(Trap::Out),
            0x22 => Some(Trap::Puts),
            0x23 => Some(Trap::In),
            0x24 => Some(Trap::Putsp),
            0x25 => Some(Trap::Halt),
            _ => None,
        };
        proof {
            match trap {
                Some(found) => {
                    assert(found.vector() == vector);
                    Trap::lemma_vector_is_injective(found, Trap::at(vector)->Some_0);
                },
                None => {
                    assert forall|other: Trap| other.vector() != vector by {}
                },
            }
        }
        trap
    }

    /// Two routines at the same vector are the same routine.
    pub proof fn lemma_vector_is_injective(a: Trap, b: Trap)
        requires
            a.vector() == b.vector(),
        ensures
            a == b,
    {
    }
}

} // verus!
