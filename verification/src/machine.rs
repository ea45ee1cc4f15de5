//! The mathematical model of the machine: its state as plain values, and what
//! every instruction, every trap routine and the run loop do to it.
use crate::bits::{high_byte, low_byte};
use crate::decode::{
    dr_field, imm5_field, immediate_mode, nzp_field, offset6_field, pc_offset11_field,
    pc_offset9_field, pc_relative_mode, sr1_field, sr2_field, Opcode, Trap,
};
use crate::registers::RegisterFile;
use vstd::prelude::*;

verus! {

/// The address of the keyboard status register. Reading it polls the keyboard.
pub const KEYBOARD_STATUS: u16 = 0xFE00;

/// The address of the keyboard data register, which holds the last key polled.
pub const KEYBOARD_DATA: u16 = 0xFE02;

/// The keyboard status word while a key is waiting in the data register:
/// bit 15 alone.
pub const KEY_READY: u16 = 0x8000;

/// Why the machine could not execute an instruction. The machine's state is
/// left exactly as it was before the instruction was fetched.
#[derive(Debug, Clone, Copy, PartialEq, Eq, Structural)]
pub enum ExecError {
    /// The instruction is RTI, or has the reserved opcode.
    ReservedOpcode,
    /// The instruction is a TRAP whose vector names no routine.
    UnknownTrap,
    /// The instruction is a TRAP that reads the keyboard, and no key is queued.
    InputExhausted,
}

/// How a run of the machine ended.
#[derive(Debug, Clone, Copy, PartialEq, Eq, Structural)]
pub enum Outcome {
    /// The machine is halted.
    Halted,
    /// The step budget is used up and the machine is still running.
    OutOfSteps,
    /// The next instruction could not be executed.
    Stopped(ExecError),
}

/// The text that the IN routine prints before it reads a key:
/// `Enter a character: `.
pub open spec fn prompt() -> Seq<u8> {
    seq![
        'E' as u8, 'n' as u8, 't' as u8, 'e' as u8, 'r' as u8, ' ' as u8,
        'a' as u8, ' ' as u8,
        'c' as u8, 'h' as u8, 'a' as u8, 'r' as u8, 'a' as u8, 'c' as u8, 't' as u8, 'e' as u8,
        'r' as u8, ':' as u8, ' ' as u8,
    ]
}

/// The part of `text` that lies before the first occurrence of `end`; all of
/// `text` when `end` does not occur in it.
pub open spec fn before_first<T>(text: Seq<T>, end: T) -> Seq<T> {
    match text.index_of_first(end) {
        Some(position) => text.take(position),
        None => text,
    }
}

/// The state of an LC-3 as plain values.
#[verifier::ext_equal]
pub struct Machine {
    /// The 65536 words of memory, by address.
    pub memory: Seq<u16>,
    pub registers: RegisterFile,
    /// False once the HALT routine has run.
    pub running: bool,
    /// The keys typed and not yet read, oldest first.
    pub input: Seq<u8>,
    /// The characters printed and not yet collected, oldest first.
    pub output: Seq<u8>,
}

impl Machine {
    /// Memory has 65536 words and there are eight general registers.
    pub open spec fn wf(self) -> bool {
        self.memory.len() == 0x1_0000 && self.registers.wf()
    }

    /// A machine that has not run yet: memory and registers zero, the program
    /// counter at 0x3000, the flag Z, running, with nothing typed or printed.
    pub open spec fn fresh() -> Machine {
        Machine {
            memory: Seq::new(0x1_0000, |address: int| 0u16),
            registers: RegisterFile::fresh(),
            running: true,
            input: Seq::empty(),
            output: Seq::empty(),
        }
    }

    /// What a snapshot of this machine restores to: the same memory and
    /// registers, halted, with nothing typed or printed.
    pub open spec fn snapshot(self) -> Machine {
        Machine { running: false, input: Seq::empty(), output: Seq::empty(), ..self }
    }

    /// This machine set running again.
    pub open spec fn resumed(self) -> Machine {
        Machine { running: true, ..self }
    }

    /// This machine after `key` was typed.
    pub open spec fn with_key(self, key: u8) -> Machine {
        Machine { input: self.input.push(key), ..self }
    }

    /// This machine after everything it printed was collected.
    pub open spec fn flushed(self) -> Machine {
        Machine { output: Seq::empty(), ..self }
    }

    /// The value of general register `register`.
    pub open spec fn reg(self, register: u16) -> u16 {
        self.registers.general[register as int]
    }

    /// The program counter.
    pub open spec fn pc(self) -> u16 {
        self.registers.pc
    }

    /// The word stored at `address`.
    pub open spec fn word(self, address: u16) -> u16 {
        self.memory[address as int]
    }

    /// This machine with `value` in general register `register`; the
    /// condition flag keeps its value.
    pub open spec fn set_reg(self, register: u16, value: u16) -> Machine {
        Machine { registers: self.registers.set(register, value), ..self }
    }

    /// This machine after `value` was loaded into general register `register`
    /// by an instruction that sets the condition codes: the flag describes
    /// `value`.
    pub open spec fn load(self, register: u16, value: u16) -> Machine {
        Machine { registers: self.registers.set(register, value).with_flag_of(register), ..self }
    }

    /// This machine with the program counter at `pc`.
    pub open spec fn jump(self, pc: u16) -> Machine {
        Machine { registers: self.registers.jump(pc), ..self }
    }

    /// This machine with `value` stored at `address`.
    pub open spec fn store(self, address: u16, value: u16) -> Machine {
        Machine { memory: self.memory.update(address as int, value), ..self }
    }

    /// This machine with `text` printed.
    pub open spec fn emit(self, text: Seq<u8>) -> Machine {
        Machine { output: self.output + text, ..self }
    }

    /// This machine after the keyboard was polled. When a key is queued it
    /// moves to the data register and the status register shows bit 15;
    /// otherwise the status register is cleared.
    pub open spec fn poll_keyboard(self) -> Machine {
        if self.input.len() > 0 {
            Machine {
                memory: self.memory.update(KEYBOARD_STATUS as int, KEY_READY).update(
                    KEYBOARD_DATA as int,
                    self.input[0] as u16,
                ),
                input: self.input.drop_first(),
                ..self
            }
        } else {
            Machine { memory: self.memory.update(KEYBOARD_STATUS as int, 0), ..self }
        }
    }

    /// This machine after a read of `address`. Only a read of the keyboard
    /// status register changes anything: it polls the keyboard.
    pub open spec fn after_read(self, address: u16) -> Machine {
        if address == KEYBOARD_STATUS {
            self.poll_keyboard()
        } else {
            self
        }
    }

    /// The word that a read of `address` yields.
    pub open spec fn read(self, address: u16) -> u16 {
        self.after_read(address).word(address)
    }

    /// This machine with the oldest queued key moved into R0. The condition
    /// flag keeps its value.
    pub open spec fn take_key(self) -> Machine {
        Machine { input: self.input.drop_first(), ..self.set_reg(0, self.input[0] as u16) }
    }

    /// All of memory in address order, starting at `start` and wrapping from
    /// 0xFFFF to 0.
    pub open spec fn words_from(self, start: u16) -> Seq<u16> {
        Seq::new(0x1_0000, |i: int| self.memory[(start + i) % 0x1_0000])
    }

    /// The two bytes of every word of [`Self::words_from`], low byte first.
    pub open spec fn bytes_from(self, start: u16) -> Seq<u8> {
        Seq::new(
            0x2_0000,
            |i: int|
                if i % 2 == 0 {
                    low_byte(self.memory[(start + i / 2) % 0x1_0000])
                } else {
                    high_byte(self.memory[(start + i / 2) % 0x1_0000])
                },
        )
    }

    /// The string of one character per word that starts at `start`: the low
    /// byte of every word before the first word that is zero.
    pub open spec fn word_string(self, start: u16) -> Seq<u8> {
        before_first(self.words_from(start), 0u16).map_values(|word: u16| low_byte(word))
    }

    /// The string of two characters per word that starts at `start`: every
    /// byte before the first byte that is zero, the low byte of a word before
    /// its high byte.
    pub open spec fn byte_string(self, start: u16) -> Seq<u8> {
        before_first(self.bytes_from(start), 0u8)
    }

    /// ADD: the sum, wrapping at 16 bits, of a register and either a register
    /// or a 5-bit immediate.
    pub open spec fn add(self, instruction: u16) -> Machine {
        let operand = if immediate_mode(instruction) {
            imm5_field(instruction)
        } else {
            self.reg(sr2_field(instruction))
        };
        self.load(dr_field(instruction), self.reg(sr1_field(instruction)).wrapping_add(operand))
    }

    /// AND: the bitwise AND of a register and either a register or a 5-bit
    /// immediate.
    pub open spec fn and(self, instruction: u16) -> Machine {
        let operand = if immediate_mode(instruction) {
            imm5_field(instruction)
        } else {
            self.reg(sr2_field(instruction))
        };
        self.load(dr_field(instruction), self.reg(sr1_field(instruction)) & operand)
    }

    /// NOT: the bitwise complement of a register.
    pub open spec fn not(self, instruction: u16) -> Machine {
        self.load(dr_field(instruction), !self.reg(sr1_field(instruction)))
    }

    /// Whether the branch `instruction` is taken: one of the conditions it
    /// names is the current flag.
    pub open spec fn branch_taken(self, instruction: u16) -> bool {
        nzp_field(instruction) & self.registers.cond.mask() != 0
    }

    /// BR: a jump relative to the program counter, taken on the conditions
    /// that the instruction names.
    pub open spec fn br(self, instruction: u16) -> Machine {
        if self.branch_taken(instruction) {
            self.jump(self.pc().wrapping_add(pc_offset9_field(instruction)))
        } else {
            self
        }
    }

    /// JMP: a jump to the address in a register. With R7 this is RET.
    pub open spec fn jmp(self, instruction: u16) -> Machine {
        self.jump(self.reg(sr1_field(instruction)))
    }

    /// JSR and JSRR: R7 receives the program counter, then the machine jumps,
    /// relative to the program counter (JSR) or to the address in a register
    /// (JSRR), read after R7 was written.
    pub open spec fn jsr(self, instruction: u16) -> Machine {
        let linked = self.set_reg(7, self.pc());
        if pc_relative_mode(instruction) {
            linked.jump(self.pc().wrapping_add(pc_offset11_field(instruction)))
        } else {
            linked.jump(linked.reg(sr1_field(instruction)))
        }
    }

    /// LD: a load from an address relative to the program counter.
    pub open spec fn ld(self, instruction: u16) -> Machine {
        let address = self.pc().wrapping_add(pc_offset9_field(instruction));
        self.after_read(address).load(dr_field(instruction), self.read(address))
    }

    /// LDI: a load through a pointer that is stored at an address relative to
    /// the program counter.
    pub open spec fn ldi(self, instruction: u16) -> Machine {
        let pointer_address = self.pc().wrapping_add(pc_offset9_field(instruction));
        let pointer = self.read(pointer_address);
        let fetched = self.after_read(pointer_address);
        fetched.after_read(pointer).load(dr_field(instruction), fetched.read(pointer))
    }

    /// LDR: a load from a register plus a 6-bit offset.
    pub open spec fn ldr(self, instruction: u16) -> Machine {
        let address = self.reg(sr1_field(instruction)).wrapping_add(offset6_field(instruction));
        self.after_read(address).load(dr_field(instruction), self.read(address))
    }

    /// LEA: the address that LD would load from.
    pub open spec fn lea(self, instruction: u16) -> Machine {
        self.load(dr_field(instruction), self.pc().wrapping_add(pc_offset9_field(instruction)))
    }

    /// ST: a store to an address relative to the program counter.
    pub open spec fn st(self, instruction: u16) -> Machine {
        self.store(
            self.pc().wrapping_add(pc_offset9_field(instruction)),
            self.reg(dr_field(instruction)),
        )
    }

    /// STI: a store through a pointer that is stored at an address relative to
    /// the program counter.
    pub open spec fn sti(self, instruction: u16) -> Machine {
        let pointer_address = self.pc().wrapping_add(pc_offset9_field(instruction));
        self.after_read(pointer_address).store(
            self.read(pointer_address),
            self.reg(dr_field(instruction)),
        )
    }

    /// STR: a store to a register plus a 6-bit offset.
    pub open spec fn op_str(self, instruction: u16) -> Machine {
        self.store(
            self.reg(sr1_field(instruction)).wrapping_add(offset6_field(instruction)),
            self.reg(dr_field(instruction)),
        )
    }

    /// What the trap routine `routine` does, given that a key is queued if the
    /// routine reads one.
    pub open spec fn service(self, routine: Trap) -> Machine {
        match routine {
            Trap::Getc => self.take_key(),
            Trap::Out => self.emit(seq![low_byte(self.reg(0))]),
            Trap::Puts => self.emit(self.word_string(self.reg(0))),
            Trap::In => self.emit(prompt().push(self.input[0])).take_key(),
            Trap::Putsp => self.emit(self.byte_string(self.reg(0))),
            Trap::Halt => Machine { running: false, ..self },
        }
    }

    /// TRAP: R7 receives the program counter, then the routine that the trap
    /// vector names runs. A vector that names no routine is refused, and so is
    /// a routine that reads the keyboard while no key is queued.
    pub open spec fn trap(self, instruction: u16) -> Result<Machine, ExecError> {
        match Trap::of(instruction) {
            None => Err(ExecError::UnknownTrap),
            Some(routine) => if routine.reads_keyboard() && self.input.len() == 0 {
                Err(ExecError::InputExhausted)
            } else {
                Ok(self.set_reg(7, self.pc()).service(routine))
            },
        }
    }

    /// What executing `instruction` does to a machine whose program counter
    /// already points past it.
    pub open spec fn execute(self, instruction: u16) -> Result<Machine, ExecError> {
        match Opcode::of(instruction) {
            Some(Opcode::Add) => Ok(self.add(instruction)),
            Some(Opcode::And) => Ok(self.and(instruction)),
            Some(Opcode::Br) => Ok(self.br(instruction)),
            Some(Opcode::Jmp) => Ok(self.jmp(instruction)),
            Some(Opcode::Jsr) => Ok(self.jsr(instruction)),
            Some(Opcode::Ld) => Ok(self.ld(instruction)),
            Some(Opcode::Ldi) => Ok(self.ldi(instruction)),
            Some(Opcode::Ldr) => Ok(self.ldr(instruction)),
            Some(Opcode::Lea) => Ok(self.lea(instruction)),
            Some(Opcode::Not) => Ok(self.not(instruction)),
            Some(Opcode::St) => Ok(self.st(instruction)),
            Some(Opcode::Sti) => Ok(self.sti(instruction)),
            Some(Opcode::Str) => Ok(self.op_str(instruction)),
            Some(Opcode::Trap) => self.trap(instruction),
            Some(Opcode::Rti) | Some(Opcode::Res) | None => Err(ExecError::ReservedOpcode),
        }
    }

    /// This machine with the program counter one word further.
    pub open spec fn advance(self) -> Machine {
        Machine { registers: self.registers.advance(), ..self }
    }

    /// One fetch-decode-execute cycle: the instruction is read at the program
    /// counter, the program counter moves past it, and the instruction is
    /// executed. A halted machine stays as it is.
    pub open spec fn step(self) -> Result<Machine, ExecError> {
        if self.running {
            self.after_read(self.pc()).advance().execute(self.read(self.pc()))
        } else {
            Ok(self)
        }
    }

    /// The machine run for at most `budget` cycles: where it stops and why.
    /// It stops when it is halted, when an instruction cannot be executed, or
    /// when the budget is used up, whichever comes first.
    pub open spec fn run(self, budget: nat) -> (Machine, Outcome)
        decreases budget,
    {
        if !self.running {
            (self, Outcome::Halted)
        } else if budget == 0 {
            (self, Outcome::OutOfSteps)
        } else {
            match self.step() {
                Ok(next) => next.run((budget - 1) as nat),
                Err(error) => (self, Outcome::Stopped(error)),
            }
        }
    }
}

} // verus!
