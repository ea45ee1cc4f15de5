//! The fetch-decode-execute cycle.
use crate::decode::{Opcode, Trap};
use crate::machine::{ExecError, Outcome, KEYBOARD_STATUS, KEY_READY};
use crate::vm::Lc3;
use vstd::prelude::*;

verus! {

impl Lc3 {
    /// Executes the instruction word `instruction`, which the program counter
    /// already points past: decodes the opcode in its top four bits and hands
    /// the word to that opcode's handler.
    ///
    /// RTI and the reserved opcode are refused, and so is a TRAP that
    /// [`Lc3::trap`] refuses. A refused instruction changes nothing.
    pub fn execute(&mut self, instruction: u16) -> (result: Result<(), ExecError>)
        ensures
            match old(self)@.execute(instruction) {
                Ok(next) => result is Ok && final(self)@ == next,
                Err(error) => result == Err::<(), ExecError>(error) && final(self)@ == old(
                    self,
                )@,
            },
    {
        match Opcode::from(instruction >> 12) {
            Some(Opcode::Add) => self.add(instruction),
            Some(Opcode::And) => self.and(instruction),
            Some(Opcode::Br) => self.br(instruction),
            Some(Opcode::Jmp) => self.jmp(instruction),
            Some(Opcode::Jsr) => self.jsr(instruction),
            Some(Opcode::Ld) => self.ld(instruction),
            Some(Opcode::Ldi) => self.ldi(instruction),
            Some(Opcode::Ldr) => self.ldr(instruction),
            Some(Opcode::Lea) => self.lea(instruction),
            Some(Opcode::Not) => self.not(instruction),
            Some(Opcode::St) => self.st(instruction),
            Some(Opcode::Sti) => self.sti(instruction),
            Some(Opcode::Str) => self.op_str(instruction),
            Some(Opcode::Trap) => {
                return self.trap(instruction);
            },
            Some(Opcode::Rti) | Some(Opcode::Res) | None => {
                return Err(ExecError::ReservedOpcode);
            },
        }
        Ok(())
    }

    /// The word that a read of `address` would yield, without the read's side
    /// effect.
    fn peek(&self, address: u16) -> (value: u16)
        ensures
            value == self@.read(address),
    {
        if address == KEYBOARD_STATUS {
            if self.input.len() > 0 {
                KEY_READY
            } else {
                0
            }
        } else {
            self.memory[address as usize]
        }
    }

    /// Runs one fetch-decode-execute cycle: reads the instruction at the
    /// program counter, moves the program counter past it, and executes it.
    ///
    /// A halted machine does nothing. An instruction that cannot be executed
    /// is reported and changes nothing: the program counter still points at
    /// it, and no key was polled by its fetch.
    pub fn step(&mut self) -> (result: Result<(), ExecError>)
        ensures
            match old(self)@.step() {
                Ok(next) => result is Ok && final(self)@ == next,
                Err(error) => result == Err::<(), ExecError>(error) && final(self)@ == old(
                    self,
                )@,
            },
    {
        if !self.running {
            return Ok(());
        }
        let pc: u16 = self.registers.pc;
        let upcoming: u16 = self.peek(pc);
        proof {
            assert(KEY_READY >> 12 == 8) by (bit_vector);
            assert(0u16 >> 12 == 0) by (bit_vector);
        }
        match Opcode::from(upcoming >> 12) {
            Some(Opcode::Trap) => {
                match Trap::from(upcoming & 0xFF) {
                    Some(Trap::Getc) | Some(Trap::In) => {
                        if self.input.len() == 0 {
                            return Err(ExecError::InputExhausted);
                        }
                    },
                    Some(_) => {},
                    None => {
                        return Err(ExecError::UnknownTrap);
                    },
                }
            },
            Some(Opcode::Rti) | Some(Opcode::Res) | None => {
                return Err(ExecError::ReservedOpcode);
            },
            Some(_) => {},
        }
        let instruction: u16 = self.read_mem(pc);
        self.registers.increment_pc();
        self.execute(instruction)
    }

    /// Runs the machine until it halts, until an instruction cannot be
    /// executed, or until `max_steps` instructions have been executed,
    /// whichever comes first, and says which it was.
    ///
    /// A machine that is already halted is left untouched. After
    /// [`Outcome::Stopped`] the program counter points at the instruction
    /// that was refused; once the cause is removed (a key was queued, say)
    /// another call carries on from there.
    pub fn run(&mut self, max_steps: u64) -> (outcome: Outcome)
        ensures
            (final(self)@, outcome) == old(self)@.run(max_steps as nat),
            outcome == Outcome::Halted <==> !final(self)@.running,
    {
        let mut remaining: u64 = max_steps;
        while self.running && remaining > 0
            invariant
                self@.run(remaining as nat) == old(self)@.run(max_steps as nat),
            decreases remaining,
        {
            match self.step() {
                Ok(()) => {},
                Err(error) => {
                    return Outcome::Stopped(error);
                },
            }
            remaining -= 1;
        }
        if self.running {
            Outcome::OutOfSteps
        } else {
            Outcome::Halted
        }
    }
}

} // verus!
