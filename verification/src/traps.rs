//! The TRAP instruction and the six service routines behind it.
use crate::bits::{lemma_bytes_of_word, low_byte};
use crate::decode::Trap;
use crate::machine::{before_first, prompt, ExecError};
use crate::vm::Lc3;
use vstd::prelude::*;

verus! {

/// A text ends exactly where its first terminator stands: if no element before
/// `position` is `end`, and `position` is either the end of `text` or the
/// place of an `end`, then the part before the first `end` is the first
/// `position` elements.
pub proof fn lemma_before_first<T>(text: Seq<T>, end: T, position: int)
    requires
        0 <= position <= text.len(),
        forall|i: int| 0 <= i < position ==> text[i] != end,
        position == text.len() || text[position] == end,
    ensures
        before_first(text, end) == text.take(position),
{
    text.index_of_first_ensures(end);
    match text.index_of_first(end) {
        Some(first) => {
            if first > position {
                assert(text[position] == end);
            }
        },
        None => {
            if position < text.len() {
                assert(text.contains(text[position]));
            }
            assert(text.take(position) =~= text);
        },
    }
}

impl Lc3 {
    /// Executes the TRAP instruction `instruction`: R7 receives the program
    /// counter, then the routine named by the low byte runs.
    ///
    /// * GETC moves the oldest queued key into R0.
    /// * OUT prints the low byte of R0.
    /// * PUTS prints the string of one character per word at the address in R0.
    /// * IN prints a prompt, then echoes the oldest queued key and moves it
    ///   into R0.
    /// * PUTSP prints the string of two characters per word at the address in
    ///   R0.
    /// * HALT stops the machine.
    ///
    /// A trap vector outside 0x20..=0x25 is refused, and so are GETC and IN
    /// while no key is queued. A refused instruction changes nothing.
    pub fn trap(&mut self, instruction: u16) -> (result: Result<(), ExecError>)
        ensures
            match old(self)@.trap(instruction) {
                Ok(next) => result is Ok && final(self)@ == next,
                Err(error) => result == Err::<(), ExecError>(error) && final(self)@ == old(
                    self,
                )@,
            },
    {
        let routine = match Trap::from(instruction & 0xFF) {
            Some(routine) => routine,
            None => {
                return Err(ExecError::UnknownTrap);
            },
        };
        let reads_keyboard = match routine {
            Trap::Getc | Trap::In => true,
            _ => false,
        };
        if reads_keyboard && self.input.len() == 0 {
            return Err(ExecError::InputExhausted);
        }
        let pc: u16 = self.registers.pc;
        self.registers.set_register(7, pc);
        match routine {
            Trap::Getc => {
                self.take_key();
            },
            Trap::Out => {
                let character: u16 = self.registers.get_register(0);
                proof {
                    lemma_bytes_of_word(character);
                }
                self.output.push((character & 0xFF) as u8);
                assert(self@ =~= old(self)@.set_reg(7, pc).service(routine));
            },
            Trap::Puts => {
                self.print_word_string();
            },
            Trap::In => {
                self.print_prompt();
                let key: u8 = self.take_key();
                self.output.push(key);
                assert(self@ =~= old(self)@.set_reg(7, pc).service(routine));
            },
            Trap::Putsp => {
                self.print_byte_string();
            },
            Trap::Halt => {
                self.running = false;
            },
        }
        Ok(())
    }

    /// Moves the oldest queued key into R0 and returns it.
    fn take_key(&mut self) -> (key: u8)
        requires
            old(self)@.input.len() > 0,
        ensures
            final(self)@ == old(self)@.take_key(),
            key == old(self)@.input[0],
    {
        let key: u8 = match self.input.pop_front() {
            Some(key) => key,
            None => 0,
        };
        self.registers.set_register(0, key as u16);
        assert(self@ =~= old(self)@.take_key());
        key
    }

    /// Prints the prompt of the IN routine.
    fn print_prompt(&mut self)
        ensures
            final(self)@ == old(self)@.emit(prompt()),
    {
        let text: [u8; 19] = [
            'E' as u8, 'n' as u8, 't' as u8, 'e' as u8, 'r' as u8, ' ' as u8,
            'a' as u8, ' ' as u8,
            'c' as u8, 'h' as u8, 'a' as u8, 'r' as u8, 'a' as u8, 'c' as u8, 't' as u8,
            'e' as u8, 'r' as u8, ':' as u8, ' ' as u8,
        ];
        assert(text@ =~= prompt());
        let ghost before = self@;
        let mut printed: usize = 0;
        while printed < 19
            invariant
                printed <= 19,
                text@ == prompt(),
                self@ == before.emit(prompt().take(printed as int)),
            decreases 19 - printed,
        {
            self.output.push(text[printed]);
            assert(prompt().take(printed + 1) =~= prompt().take(printed as int).push(
                prompt()[printed as int],
            ));
            printed += 1;
            assert(self@ =~= before.emit(prompt().take(printed as int)));
        }
        assert(prompt().take(19) =~= prompt());
    }

    /// Prints the low byte of every word from the address in R0 up to the
    /// first word that is zero.
    fn print_word_string(&mut self)
        ensures
            final(self)@ == old(self)@.emit(old(self)@.word_string(old(self)@.reg(0))),
    {
        let start: u16 = self.registers.get_register(0);
        let ghost before = self@;
        let ghost words = before.words_from(start);
        let ghost text = words.map_values(|word: u16| low_byte(word));
        let mut address: u16 = start;
        let mut printed: u32 = 0;
        while printed < 0x1_0000 && self.memory[address as usize] != 0
            invariant
                printed <= 0x1_0000,
                address == (start + printed) % 0x1_0000,
                words == before.words_from(start),
                text == words.map_values(|word: u16| low_byte(word)),
                forall|i: int| 0 <= i < printed ==> words[i] != 0,
                self@ == before.emit(text.take(printed as int)),
            decreases 0x1_0000 - printed,
        {
            let word: u16 = self.memory[address as usize];
            proof {
                lemma_bytes_of_word(word);
            }
            self.output.push((word & 0xFF) as u8);
            assert(text.take(printed + 1) =~= text.take(printed as int).push(low_byte(word)));
            address = address.wrapping_add(1);
            printed += 1;
            assert(self@ =~= before.emit(text.take(printed as int)));
        }
        proof {
            lemma_before_first(words, 0u16, printed as int);
            assert(words.take(printed as int).map_values(|word: u16| low_byte(word))
                =~= text.take(printed as int));
        }
    }

    /// Prints the bytes of the words from the address in R0, the low byte of a
    /// word before its high byte, up to the first byte that is zero.
    fn print_byte_string(&mut self)
        ensures
            final(self)@ == old(self)@.emit(old(self)@.byte_string(old(self)@.reg(0))),
    {
        let start: u16 = self.registers.get_register(0);
        let ghost before = self@;
        let ghost text = before.bytes_from(start);
        let ghost mut printed: int = 0;
        let mut address: u16 = start;
        let mut words: u32 = 0;
        let mut more: bool = true;
        while more && words < 0x1_0000
            invariant
                words <= 0x1_0000,
                address == (start + words) % 0x1_0000,
                text == before.bytes_from(start),
                0 <= printed <= 0x2_0000,
                more ==> printed == 2 * words,
                !more ==> printed < 0x2_0000 && text[printed] == 0,
                forall|i: int| 0 <= i < printed ==> text[i] != 0,
                self@ == before.emit(text.take(printed)),
            decreases 0x1_0000 - words, if more { 1int } else { 0int },
        {
            let word: u16 = self.memory[address as usize];
            proof {
                lemma_bytes_of_word(word);
            }
            let low: u8 = (word & 0xFF) as u8;
            let high: u8 = (word >> 8) as u8;
            assert(text[2 * words] == low);
            assert(text[2 * words + 1] == high);
            if low == 0 {
                more = false;
            } else {
                self.output.push(low);
                proof {
                    assert(text.take(printed + 1) =~= text.take(printed).push(low));
                    printed = printed + 1;
                }
                assert(self@ =~= before.emit(text.take(printed)));
                if high == 0 {
                    more = false;
                } else {
                    self.output.push(high);
                    proof {
                        assert(text.take(printed + 1) =~= text.take(printed).push(high));
                        printed = printed + 1;
                    }
                    assert(self@ =~= before.emit(text.take(printed)));
                    address = address.wrapping_add(1);
                    words += 1;
                }
            }
        }
        proof {
            lemma_before_first(text, 0u8, printed);
        }
    }
}

} // verus!
