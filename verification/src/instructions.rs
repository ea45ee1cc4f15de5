//! One handler for each instruction but TRAP. Every handler takes the
//! instruction word and expects the program counter to point past it already.
use crate::decode::{dr_field, lemma_field_ranges};
use crate::registers::ConditionalFlag;
use crate::vm::Lc3;
use vstd::prelude::*;

verus! {

impl Lc3 {
    /// ADD: `DR = SR1 + SR2`, or `DR = SR1 + imm5` when bit 5 is set, wrapping
    /// at 16 bits. Sets the condition flag from the result.
    pub fn add(&mut self, instruction: u16)
        ensures
            final(self)@ == old(self)@.add(instruction),
            final(self)@.registers.cond == ConditionalFlag::of(
                final(self)@.reg(dr_field(instruction)),
            ),
    {
        proof {
            lemma_field_ranges(instruction);
        }
        let dr: u16 = (instruction >> 9) & 0x7;
        let sr1: u16 = self.registers.get_register((instruction >> 6) & 0x7);
        let is_imm_flag: bool = (instruction >> 5) & 0x1 == 1;

        if is_imm_flag {
            let imm5: u16 = Self::sign_extend(instruction & 0x1F, 5);
            self.registers.set_register(dr, sr1.wrapping_add(imm5));
        } else {
            let sr2: u16 = self.registers.get_register(instruction & 0x7);
            self.registers.set_register(dr, sr1.wrapping_add(sr2));
        }

        self.registers.set_cc_flag(dr);
    }

    /// AND: `DR = SR1 & SR2`, or `DR = SR1 & imm5` when bit 5 is set. Sets the
    /// condition flag from the result.
    pub fn and(&mut self, instruction: u16)
        ensures
            final(self)@ == old(self)@.and(instruction),
            final(self)@.registers.cond == ConditionalFlag::of(
                final(self)@.reg(dr_field(instruction)),
            ),
    {
        proof {
            lemma_field_ranges(instruction);
        }
        let dr: u16 = (instruction >> 9) & 0x7;
        let sr1: u16 = self.registers.get_register((instruction >> 6) & 0x7);
        let is_imm_flag: bool = (instruction >> 5) & 0x1 == 1;

        if is_imm_flag {
            let imm5: u16 = Self::sign_extend(instruction & 0x1F, 5);
            self.registers.set_register(dr, sr1 & imm5);
        } else {
            let sr2: u16 = self.registers.get_register(instruction & 0x7);
            self.registers.set_register(dr, sr1 & sr2);
        }

        self.registers.set_cc_flag(dr);
    }

    /// BR: adds the sign-extended 9-bit offset to the program counter when the
    /// `nzp` field names the current condition flag.
    pub fn br(&mut self, instruction: u16)
        ensures
            final(self)@ == old(self)@.br(instruction),
    {
        let nzp: u16 = (instruction >> 9) & 0x7;
        let cond: u16 = self.registers.cond.bits();
        let pc_offset: u16 = Self::sign_extend(instruction & 0x1FF, 9);

        if nzp & cond != 0 {
            self.registers.pc = self.registers.pc.wrapping_add(pc_offset);
        }
    }

    /// JMP: the program counter receives the value of the base register.
    /// With R7 as the base register this is RET.
    pub fn jmp(&mut self, instruction: u16)
        ensures
            final(self)@ == old(self)@.jmp(instruction),
    {
        proof {
            lemma_field_ranges(instruction);
        }
        let base_r: u16 = self.registers.get_register((instruction >> 6) & 0x7);
        self.registers.pc = base_r;
    }

    /// JSR and JSRR: R7 receives the program counter, which points just past
    /// this instruction. Then the program counter moves by the sign-extended
    /// 11-bit offset when bit 11 is set (JSR), and to the value of the base
    /// register otherwise (JSRR).
    pub fn jsr(&mut self, instruction: u16)
        ensures
            final(self)@ == old(self)@.jsr(instruction),
            final(self)@.reg(7) == old(self)@.pc(),
    {
        proof {
            lemma_field_ranges(instruction);
        }
        let flag: u16 = (instruction >> 11) & 0x1;
        let pc: u16 = self.registers.pc;
        self.registers.set_register(7, pc);

        if flag == 0 {
            let base_r: u16 = self.registers.get_register((instruction >> 6) & 0x7);
            self.registers.pc = base_r;
        } else {
            let pc_offset: u16 = Self::sign_extend(instruction & 0x7FF, 11);
            self.registers.pc = pc.wrapping_add(pc_offset);
        }
    }

    /// LD: `DR` receives the word read at the program counter plus the
    /// sign-extended 9-bit offset. Sets the condition flag from it.
    pub fn ld(&mut self, instruction: u16)
        ensures
            final(self)@ == old(self)@.ld(instruction),
            final(self)@.registers.cond == ConditionalFlag::of(
                final(self)@.reg(dr_field(instruction)),
            ),
    {
        proof {
            lemma_field_ranges(instruction);
        }
        let dr: u16 = (instruction >> 9) & 0x7;
        let pc_offset: u16 = Self::sign_extend(instruction & 0x1FF, 9);
        let to_be_loaded: u16 = self.read_mem(self.registers.pc.wrapping_add(pc_offset));

        self.registers.set_register(dr, to_be_loaded);
        self.registers.set_cc_flag(dr);
    }

    /// LDI: reads a pointer at the program counter plus the sign-extended
    /// 9-bit offset; `DR` receives the word read at that pointer. Sets the
    /// condition flag from it.
    pub fn ldi(&mut self, instruction: u16)
        ensures
            final(self)@ == old(self)@.ldi(instruction),
            final(self)@.registers.cond == ConditionalFlag::of(
                final(self)@.reg(dr_field(instruction)),
            ),
    {
        proof {
            lemma_field_ranges(instruction);
        }
        let dr: u16 = (instruction >> 9) & 0x7;
        let pc_offset: u16 = Self::sign_extend(instruction & 0x1FF, 9);

        let address: u16 = self.read_mem(self.registers.pc.wrapping_add(pc_offset));
        let to_be_loaded: u16 = self.read_mem(address);

        self.registers.set_register(dr, to_be_loaded);
        self.registers.set_cc_flag(dr);
    }

    /// LDR: `DR` receives the word read at the base register plus the
    /// sign-extended 6-bit offset. Sets the condition flag from it.
    pub fn ldr(&mut self, instruction: u16)
        ensures
            final(self)@ == old(self)@.ldr(instruction),
            final(self)@.registers.cond == ConditionalFlag::of(
                final(self)@.reg(dr_field(instruction)),
            ),
    {
        proof {
            lemma_field_ranges(instruction);
        }
        let dr: u16 = (instruction >> 9) & 0x7;
        let offset: u16 = Self::sign_extend(instruction & 0x3F, 6);
        let base_r: u16 = self.registers.get_register((instruction >> 6) & 0x7);

        let to_be_loaded: u16 = self.read_mem(base_r.wrapping_add(offset));

        self.registers.set_register(dr, to_be_loaded);
        self.registers.set_cc_flag(dr);
    }

    /// LEA: `DR` receives the program counter plus the sign-extended 9-bit
    /// offset. Sets the condition flag from it.
    pub fn lea(&mut self, instruction: u16)
        ensures
            final(self)@ == old(self)@.lea(instruction),
            final(self)@.registers.cond == ConditionalFlag::of(
                final(self)@.reg(dr_field(instruction)),
            ),
    {
        proof {
            lemma_field_ranges(instruction);
        }
        let dr: u16 = (instruction >> 9) & 0x7;
        let pc_offset: u16 = Self::sign_extend(instruction & 0x1FF, 9);

        self.registers.set_register(dr, self.registers.pc.wrapping_add(pc_offset));
        self.registers.set_cc_flag(dr);
    }

    /// NOT: `DR` receives the bitwise complement of `SR`. Sets the condition
    /// flag from it.
    pub fn not(&mut self, instruction: u16)
        ensures
            final(self)@ == old(self)@.not(instruction),
            final(self)@.registers.cond == ConditionalFlag::of(
                final(self)@.reg(dr_field(instruction)),
            ),
    {
        proof {
            lemma_field_ranges(instruction);
        }
        let dr: u16 = (instruction >> 9) & 0x7;
        let sr: u16 = (instruction >> 6) & 0x7;

        let value: u16 = !self.registers.get_register(sr);
        self.registers.set_register(dr, value);
        self.registers.set_cc_flag(dr);
    }

    /// ST: stores `SR` at the program counter plus the sign-extended 9-bit
    /// offset.
    pub fn st(&mut self, instruction: u16)
        ensures
            final(self)@ == old(self)@.st(instruction),
    {
        proof {
            lemma_field_ranges(instruction);
        }
        let sr: u16 = self.registers.get_register((instruction >> 9) & 0x7);
        let pc_offset: u16 = Self::sign_extend(instruction & 0x1FF, 9);

        self.write_mem(self.registers.pc.wrapping_add(pc_offset), sr);
    }

    /// STI: reads a pointer at the program counter plus the sign-extended
    /// 9-bit offset, and stores `SR` at that pointer.
    pub fn sti(&mut self, instruction: u16)
        ensures
            final(self)@ == old(self)@.sti(instruction),
    {
        proof {
            lemma_field_ranges(instruction);
        }
        let sr: u16 = self.registers.get_register((instruction >> 9) & 0x7);
        let pc_offset: u16 = Self::sign_extend(instruction & 0x1FF, 9);

        let mem_loc: u16 = self.read_mem(self.registers.pc.wrapping_add(pc_offset));
        self.write_mem(mem_loc, sr);
    }

    /// STR: stores `SR` at the base register plus the sign-extended 6-bit
    /// offset.
    pub fn op_str(&mut self, instruction: u16)
        ensures
            final(self)@ == old(self)@.op_str(instruction),
    {
        proof {
            lemma_field_ranges(instruction);
        }
        let sr: u16 = self.registers.get_register((instruction >> 9) & 0x7);
        let base_r: u16 = self.registers.get_register((instruction >> 6) & 0x7);
        let offset: u16 = Self::sign_extend(instruction & 0x3F, 6);

        let loc: u16 = base_r.wrapping_add(offset);
        self.write_mem(loc, sr);
    }
}

} // verus!
