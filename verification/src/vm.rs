//! The machine itself: memory, registers and console, and the operations that
//! do not execute instructions.
use crate::machine::{Machine, KEYBOARD_DATA, KEYBOARD_STATUS, KEY_READY};
use crate::registers::Register;
use std::collections::VecDeque;
use vstd::prelude::*;

verus! {

/// An LC-3: 65536 words of memory, the register file, and a console made of a
/// queue of keys typed and a buffer of characters printed.
#[derive(Debug)]
pub struct Lc3 {
    pub(crate) memory: [u16; 65_536],
    pub(crate) registers: Register,
    pub(crate) running: bool,
    pub(crate) input: VecDeque<u8>,
    pub(crate) output: Vec<u8>,
}

impl View for Lc3 {
    type V = Machine;

    open(crate) spec fn view(&self) -> Machine {
        Machine {
            memory: self.memory@,
            registers: self.registers@,
            running: self.running,
            input: self.input@,
            output: self.output@,
        }
    }
}

/// A copy of a machine's memory and registers, taken with
/// [`Lc3::into_state`] and turned back into a machine with
/// [`Lc3::from_state`].
pub struct Lc3State {
    pub(crate) memory: [u16; 65_536],
    pub(crate) registers: Register,
}

impl View for Lc3State {
    type V = Machine;

    /// The machine that this snapshot restores to.
    open(crate) spec fn view(&self) -> Machine {
        Machine {
            memory: self.memory@,
            registers: self.registers@,
            running: false,
            input: Seq::empty(),
            output: Seq::empty(),
        }
    }
}

impl Clone for Lc3State {
    /// An independent copy of the snapshot.
    fn clone(&self) -> (copy: Lc3State)
        ensures
            copy@ == self@,
    {
        Lc3State { memory: self.memory, registers: self.registers }
    }
}

impl Default for Lc3 {
    /// A fresh machine: memory and registers zero, the program counter at
    /// 0x3000, the flag Z, running, with nothing typed or printed.
    fn default() -> (vm: Lc3)
        ensures
            vm@ == Machine::fresh(),
    {
        let vm = Lc3 {
            memory: [0; 65_536],
            registers: Register::default(),
            running: true,
            input: VecDeque::new(),
            output: Vec::new(),
        };
        assert(vm@ =~= Machine::fresh());
        vm
    }
}

impl Lc3 {
    /// Every machine has 65536 words of memory and eight general registers.
    pub proof fn lemma_view_wf(&self)
        ensures
            self@.wf(),
    {
    }

    /// Takes the machine apart into a snapshot of its memory and registers.
    /// Keys still queued and characters not yet collected are dropped.
    pub fn into_state(self) -> (state: Lc3State)
        ensures
            state@ == self@.snapshot(),
    {
        Lc3State { memory: self.memory, registers: self.registers }
    }

    /// Builds a machine from a snapshot: memory and registers are those of the
    /// snapshot, the console is empty, and the machine is halted until
    /// [`Lc3::resume`] is called.
    pub fn from_state(state: Lc3State) -> (vm: Lc3)
        ensures
            vm@ == state@,
            !vm@.running,
    {
        Lc3 {
            running: false,
            memory: state.memory,
            registers: state.registers,
            input: VecDeque::new(),
            output: Vec::new(),
        }
    }

    /// Sets the machine running again, after a HALT or after
    /// [`Lc3::from_state`].
    pub fn resume(&mut self)
        ensures
            final(self)@ == old(self)@.resumed(),
    {
        self.running = true;
    }

    /// Whether the machine is running, that is whether it has not executed
    /// HALT since it was created or resumed.
    pub fn is_running(&self) -> (running: bool)
        ensures
            running == self@.running,
    {
        self.running
    }

    /// All of memory, by address. Looking at it has no side effect.
    pub fn memory(&self) -> (memory: &[u16; 65_536])
        ensures
            memory@ == self@.memory,
    {
        &self.memory
    }

    /// The register file.
    pub fn registers(&self) -> (registers: &Register)
        ensures
            registers@ == self@.registers,
    {
        &self.registers
    }

    /// Queues `key` behind the keys already typed.
    pub fn push_key(&mut self, key: u8)
        ensures
            final(self)@ == old(self)@.with_key(key),
    {
        self.input.push_back(key);
    }

    /// Hands out everything the machine has printed since the last call, in
    /// the order in which it was printed.
    pub fn take_output(&mut self) -> (printed: Vec<u8>)
        ensures
            printed@ == old(self)@.output,
            final(self)@ == old(self)@.flushed(),
    {
        let mut printed: Vec<u8> = Vec::new();
        std::mem::swap(&mut printed, &mut self.output);
        printed
    }

    /// Stores `value` at `address`. A store has no side effect, whatever the
    /// address.
    pub fn write_mem(&mut self, address: u16, value: u16)
        ensures
            final(self)@ == old(self)@.store(address, value),
    {
        self.memory[address as usize] = value;
        assert(self@ =~= old(self)@.store(address, value));
    }

    /// Reads the word at `address`. Reading the keyboard status register polls
    /// the keyboard first: a queued key moves to the keyboard data register and
    /// the status register shows bit 15, and with no key queued the status
    /// register is cleared.
    pub fn read_mem(&mut self, address: u16) -> (value: u16)
        ensures
            final(self)@ == old(self)@.after_read(address),
            value == old(self)@.read(address),
    {
        if address == KEYBOARD_STATUS {
            match self.input.pop_front() {
                Some(key) => {
                    self.memory[KEYBOARD_STATUS as usize] = KEY_READY;
                    self.memory[KEYBOARD_DATA as usize] = key as u16;
                },
                None => {
                    self.memory[KEYBOARD_STATUS as usize] = 0;
                },
            }
        }
        assert(self@ =~= old(self)@.after_read(address));
        self.memory[address as usize]
    }
}

} // verus!
