//! Laws of the machine: what holds of it whatever program it runs.
use crate::bits::{field_size, low_byte, sign_bit, sign_extended, signed_value};
use crate::decode::{dr_field, lemma_field_ranges, Opcode, Trap};
use crate::loader::be_words;
use crate::machine::{ExecError, Machine, Outcome, KEYBOARD_DATA, KEYBOARD_STATUS, KEY_READY};
use crate::registers::ConditionalFlag;
use crate::traps::lemma_before_first;
use vstd::prelude::*;

verus! {

/// Sign extension in terms of bits and in terms of numbers, for a field that
/// has no bits set above its width.
proof fn lemma_sign_extension_bits(value: u16, width: u16)
    by (bit_vector)
    requires
        1 <= width <= 16,
        (value as u32) < (1u32 << (width as u32)),
    ensures
        2 <= (1u32 << (width as u32)) <= 0x1_0000,
        (1u32 << (width as u32)) / 2 == (1u32 << ((width - 1) as u32)),
        (1u32 << 16u32) == 0x1_0000,
        sign_bit(value, width) <==> (value as u32) >= (1u32 << ((width - 1) as u32)),
        sign_bit(value, width) ==> sign_extended(value, width) as u32 == (value as u32)
            + 0x1_0000u32 - (1u32 << (width as u32)),
        !sign_bit(value, width) ==> sign_extended(value, width) == value,
{
}

/// Sign extension widens a field without changing the number it stands for:
/// the sixteen-bit word that comes out stands for the same two's-complement
/// number as the field that went in. The sign bit marks exactly the negative
/// numbers.
pub proof fn law_sign_extension_keeps_the_number(value: u16, width: u16)
    requires
        1 <= width <= 16,
        value < field_size(width),
    ensures
        signed_value(sign_extended(value, width), 16) == signed_value(value, width),
        sign_bit(value, width) <==> signed_value(value, width) < 0,
{
    lemma_sign_extension_bits(value, width);
}

/// Adding a sign-extended field to an address, wrapping at 16 bits, moves
/// the address by the number that the field stands for, forwards or
/// backwards, around the 65536 words of the address space.
pub proof fn law_sign_extended_offset_moves_address(base: u16, value: u16, width: u16)
    requires
        1 <= width <= 16,
        value < field_size(width),
    ensures
        base.wrapping_add(sign_extended(value, width)) == (base + signed_value(value, width))
            % 0x1_0000,
{
    lemma_sign_extension_bits(value, width);
}

/// The condition flag of a value is Z exactly for zero, N exactly for the
/// values with bit 15 set, which are those from 0x8000 up, and P exactly for
/// the values in between.
pub proof fn law_flag_of_value(value: u16)
    ensures
        ConditionalFlag::of(value) == ConditionalFlag::Zro <==> value == 0,
        ConditionalFlag::of(value) == ConditionalFlag::Neg <==> value >= 0x8000,
        ConditionalFlag::of(value) == ConditionalFlag::Pos <==> 0 < value < 0x8000,
        sign_bit(value, 16) <==> value >= 0x8000,
{
    assert((value >> 15u16) & 1 == 1 <==> value >= 0x8000) by (bit_vector);
}

/// Decoding the number of an opcode gives that opcode back.
pub proof fn law_opcode_decodes_back(opcode: Opcode)
    ensures
        Opcode::numbered(opcode.number()) == Some(opcode),
        opcode.number() <= 15,
{
    let found = choose|other: Opcode| other.number() == opcode.number();
    Opcode::lemma_number_is_injective(found, opcode);
}

/// Decoding the vector of a trap routine gives that routine back.
pub proof fn law_trap_decodes_back(routine: Trap)
    ensures
        Trap::at(routine.vector()) == Some(routine),
        0x20 <= routine.vector() <= 0x25,
{
    let found = choose|other: Trap| other.vector() == routine.vector();
    Trap::lemma_vector_is_injective(found, routine);
}

/// Every step keeps the machine well formed.
pub proof fn law_step_keeps_machine_well_formed(machine: Machine)
    requires
        machine.wf(),
    ensures
        machine.step() matches Ok(next) ==> next.wf(),
{
    let instruction = machine.read(machine.pc());
    lemma_field_ranges(instruction);
}

/// After ADD, AND, NOT, LD, LDI, LDR or LEA the condition flag describes the
/// value that the instruction left in its destination register.
pub proof fn law_flag_follows_register_write(machine: Machine, instruction: u16)
    requires
        machine.wf(),
        Opcode::of(instruction) matches Some(opcode) && opcode.sets_condition_codes(),
    ensures
        machine.execute(instruction) matches Ok(next) && next.registers.cond
            == ConditionalFlag::of(next.reg(dr_field(instruction))),
{
    lemma_field_ranges(instruction);
}

/// No other instruction changes the condition flag, and neither does the
/// fetch.
pub proof fn law_flag_is_kept_otherwise(machine: Machine, instruction: u16)
    requires
        machine.wf(),
        Opcode::of(instruction) matches Some(opcode) && !opcode.sets_condition_codes(),
    ensures
        machine.execute(instruction) matches Ok(next) ==> next.registers.cond
            == machine.registers.cond,
        machine.after_read(machine.pc()).advance().registers.cond == machine.registers.cond,
{
}

/// The machine refuses exactly three kinds of instruction: one whose opcode
/// is RTI or reserved, a TRAP whose vector names no routine, and a TRAP that
/// reads the keyboard while no key is queued.
pub proof fn law_refused_instructions(machine: Machine, instruction: u16)
    ensures
        machine.execute(instruction) == Err::<Machine, ExecError>(ExecError::ReservedOpcode) <==> !(
        Opcode::of(instruction) matches Some(opcode) && opcode.implemented()),
        machine.execute(instruction) == Err::<Machine, ExecError>(ExecError::UnknownTrap) <==> (
        Opcode::of(instruction) == Some(Opcode::Trap) && Trap::of(instruction) is None),
        machine.execute(instruction) == Err::<Machine, ExecError>(ExecError::InputExhausted)
            <==> (Opcode::of(instruction) == Some(Opcode::Trap) && (Trap::of(instruction)
            matches Some(routine) && routine.reads_keyboard()) && machine.input.len() == 0),
{
}

/// JSR and JSRR leave in R7 the address of the instruction that follows
/// them, whatever the target of the jump.
pub proof fn law_jsr_links_next_instruction(machine: Machine)
    requires
        machine.wf(),
        machine.running,
        Opcode::of(machine.read(machine.pc())) == Some(Opcode::Jsr),
    ensures
        machine.step() matches Ok(next) && next.reg(7) == machine.pc().wrapping_add(1),
{
}

/// Only a read of the keyboard status register has a side effect.
pub proof fn law_other_reads_change_nothing(machine: Machine, address: u16)
    requires
        address != KEYBOARD_STATUS,
    ensures
        machine.after_read(address) == machine,
        machine.read(address) == machine.word(address),
{
}

/// The console is a pair of streams: a step prints behind what was printed
/// before, and takes at most one key, the oldest that is queued.
pub proof fn law_step_keeps_console_order(machine: Machine)
    requires
        machine.wf(),
    ensures
        machine.step() matches Ok(next) ==> machine.output.is_prefix_of(next.output) && (
        next.input == machine.input || (machine.input.len() > 0 && next.input
            == machine.input.drop_first())),
{
    if machine.running && machine.pc() == KEYBOARD_STATUS {
        assert(KEY_READY >> 12 == 8) by (bit_vector);
        assert(0u16 >> 12 == 0) by (bit_vector);
        law_opcode_decodes_back(Opcode::Rti);
        law_opcode_decodes_back(Opcode::Br);
    }
}

/// While no key is queued, the keyboard status register reads as zero, time
/// after time.
pub proof fn law_idle_keyboard_reads_zero(machine: Machine)
    requires
        machine.wf(),
        machine.input.len() == 0,
    ensures
        machine.read(KEYBOARD_STATUS) == 0,
        machine.after_read(KEYBOARD_STATUS).input.len() == 0,
        machine.after_read(KEYBOARD_STATUS).read(KEYBOARD_STATUS) == 0,
{
}

/// A queued key is reported by one read of the keyboard status register:
/// that read shows bit 15 and leaves the key in the keyboard data register.
/// The key leaves the queue, so that with no further key typed the next read
/// of the status register shows zero.
pub proof fn law_key_is_reported_once(machine: Machine)
    requires
        machine.wf(),
        machine.input.len() > 0,
    ensures
        machine.read(KEYBOARD_STATUS) == KEY_READY,
        machine.after_read(KEYBOARD_STATUS).word(KEYBOARD_DATA) == machine.input[0],
        machine.after_read(KEYBOARD_STATUS).input == machine.input.drop_first(),
        machine.input.len() == 1 ==> machine.after_read(KEYBOARD_STATUS).read(KEYBOARD_STATUS)
            == 0,
{
}

/// PUTS prints up to the first zero word and no further: if the `length`
/// words from the address in R0 on are not zero and the word after them is,
/// or if they are all of memory, the low bytes of exactly these words are
/// printed.
pub proof fn law_puts_stops_at_zero_word(machine: Machine, instruction: u16, length: int)
    requires
        machine.wf(),
        Trap::of(instruction) == Some(Trap::Puts),
        0 <= length <= 0x1_0000,
        forall|i: int| 0 <= i < length ==> machine.words_from(machine.reg(0))[i] != 0,
        length == 0x1_0000 || machine.words_from(machine.reg(0))[length] == 0,
    ensures
        machine.trap(instruction) matches Ok(next) && next.output == machine.output
            + machine.words_from(machine.reg(0)).take(length).map_values(
            |word: u16| low_byte(word),
        ),
{
    let start = machine.reg(0);
    let linked = machine.set_reg(7, machine.pc());
    assert(linked.words_from(start) =~= machine.words_from(start));
    lemma_before_first(machine.words_from(start), 0u16, length);
}

/// PUTSP prints up to the first zero byte and no further: if the first
/// `length` bytes of the words from the address in R0 on, the low byte of a
/// word before its high byte, are not zero and the byte after them is, or if
/// they are all of memory, exactly these bytes are printed.
pub proof fn law_putsp_stops_at_zero_byte(machine: Machine, instruction: u16, length: int)
    requires
        machine.wf(),
        Trap::of(instruction) == Some(Trap::Putsp),
        0 <= length <= 0x2_0000,
        forall|i: int| 0 <= i < length ==> machine.bytes_from(machine.reg(0))[i] != 0,
        length == 0x2_0000 || machine.bytes_from(machine.reg(0))[length] == 0,
    ensures
        machine.trap(instruction) matches Ok(next) && next.output == machine.output
            + machine.bytes_from(machine.reg(0)).take(length),
{
    let start = machine.reg(0);
    let linked = machine.set_reg(7, machine.pc());
    assert(linked.bytes_from(start) =~= machine.bytes_from(start));
    lemma_before_first(machine.bytes_from(start), 0u8, length);
}

/// HALT ends the run: once the machine has executed it, the run returns, and
/// of the machine's state only R7 and the program counter differ from what
/// they were before.
pub proof fn law_halt_ends_the_run(machine: Machine, budget: nat)
    requires
        machine.wf(),
        machine.running,
        budget > 0,
        Opcode::of(machine.read(machine.pc())) == Some(Opcode::Trap),
        Trap::of(machine.read(machine.pc())) == Some(Trap::Halt),
    ensures
        machine.run(budget).1 == Outcome::Halted,
        machine.run(budget).0 == (Machine {
            running: false,
            ..machine.set_reg(7, machine.pc().wrapping_add(1)).jump(machine.pc().wrapping_add(1))
        }),
{
    assert(machine.pc() != KEYBOARD_STATUS) by {
        assert(KEY_READY >> 12 == 8) by (bit_vector);
        assert(0u16 >> 12 == 0) by (bit_vector);
        law_opcode_decodes_back(Opcode::Rti);
        law_opcode_decodes_back(Opcode::Br);
    }
    let halted = machine.step()->Ok_0;
    assert(halted =~= Machine {
        running: false,
        ..machine.set_reg(7, machine.pc().wrapping_add(1)).jump(machine.pc().wrapping_add(1))
    });
    assert(halted.run((budget - 1) as nat) == (halted, Outcome::Halted));
}

/// Nothing but HALT stops the machine: a step that leaves a running machine
/// halted has executed TRAP with the vector of HALT.
pub proof fn law_only_halt_stops_the_machine(machine: Machine)
    requires
        machine.wf(),
        machine.running,
        machine.step() matches Ok(next) && !next.running,
    ensures
        Opcode::of(machine.read(machine.pc())) == Some(Opcode::Trap),
        Trap::of(machine.read(machine.pc())) == Some(Trap::Halt),
{
}

/// A halted machine does not change any more: a step leaves it as it is, and
/// so does a run, whatever its budget.
pub proof fn law_halted_machine_is_inert(machine: Machine, budget: nat)
    requires
        !machine.running,
    ensures
        machine.step() == Ok::<Machine, ExecError>(machine),
        machine.run(budget) == (machine, Outcome::Halted),
{
}

/// A run that used up its budget can be taken up again: running for `first`
/// cycles and then for `second` more is running for `first + second` cycles.
pub proof fn law_run_can_be_resumed(machine: Machine, first: nat, second: nat)
    requires
        machine.run(first).1 == Outcome::OutOfSteps,
    ensures
        machine.run(first + second) == machine.run(first).0.run(second),
    decreases first,
{
    if first > 0 {
        match machine.step() {
            Ok(next) => {
                law_run_can_be_resumed(next, (first - 1) as nat, second);
            },
            Err(_) => {},
        }
    }
}

/// Restoring a snapshot gives a machine with the memory and the registers of
/// the machine that the snapshot was taken of, halted.
pub proof fn law_snapshot_keeps_memory_and_registers(machine: Machine)
    ensures
        machine.snapshot().memory == machine.memory,
        machine.snapshot().registers == machine.registers,
        !machine.snapshot().running,
{
}

/// Storing up to 65536 words puts word `k` at the address `k` places after
/// the origin, counting on from 0 after 0xFFFF, and leaves every other word
/// of memory, the registers and the console as they were.
pub proof fn law_stored_words_read_back(machine: Machine, origin: u16, words: Seq<u16>)
    requires
        machine.wf(),
        words.len() <= 0x1_0000,
    ensures
        machine.store_words(origin, words).wf(),
        machine.store_words(origin, words) == (Machine {
            memory: machine.store_words(origin, words).memory,
            ..machine
        }),
        forall|k: int|
            0 <= k < words.len() ==> machine.store_words(origin, words).memory[(origin + k)
                % 0x1_0000] == #[trigger] words[k],
        forall|address: int|
            0 <= address < 0x1_0000 && (address - origin) % 0x1_0000 >= words.len()
                ==> machine.store_words(origin, words).memory[address]
                == #[trigger] machine.memory[address],
    decreases words.len(),
{
    if words.len() > 0 {
        let earlier = words.drop_last();
        let last_address = (origin + words.len() - 1) % 0x1_0000;
        let stored = machine.store_words(origin, words);
        law_stored_words_read_back(machine, origin, earlier);
        assert forall|k: int| 0 <= k < words.len() implies stored.memory[(origin + k)
            % 0x1_0000] == #[trigger] words[k] by {
            if k < words.len() - 1 {
                assert(earlier[k] == words[k]);
                assert((origin + k) % 0x1_0000 != last_address);
            }
        }
        assert forall|address: int|
            0 <= address < 0x1_0000 && (address - origin) % 0x1_0000
                >= words.len() implies stored.memory[address]
            == #[trigger] machine.memory[address] by {
            assert(address != last_address);
        }
    }
}

/// An image of an origin and up to 65536 further words loads word `k` of its
/// contents at the address `k` places after the origin.
pub proof fn law_loaded_image_reads_back(machine: Machine, image: Seq<u8>, k: int)
    requires
        machine.wf(),
        2 <= image.len() <= 2 * 0x1_0001,
        0 <= k < image.len() / 2 - 1,
    ensures
        machine.load_image(image).memory[(be_words(image)[0] + k) % 0x1_0000] == be_words(
            image,
        )[k + 1],
{
    let words = be_words(image);
    law_stored_words_read_back(machine, words[0], words.drop_first());
    assert(words.drop_first()[k] == words[k + 1]);
}

} // verus!
