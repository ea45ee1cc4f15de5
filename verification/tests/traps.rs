use lc3::{ConditionalFlag, ExecError, Lc3};

/// Puts `value` into register `register` with an LD from a scratch word 240
/// words after the program counter.
fn set(vm: &mut Lc3, register: u16, value: u16) {
    let scratch = vm.registers().pc.wrapping_add(0x00F0);
    vm.write_mem(scratch, value);
    vm.ld(0x2000 | (register << 9) | 0x0F0);
}

fn store_words(vm: &mut Lc3, origin: u16, words: &[u16]) {
    let mut address = origin;
    for word in words {
        vm.write_mem(address, *word);
        address = address.wrapping_add(1);
    }
}

#[test]
fn getc_moves_the_oldest_key_into_r0_without_echo() {
    let mut vm = Lc3::default();
    vm.push_key(b'x');
    vm.push_key(b'y');
    assert_eq!(vm.trap(0xF020), Ok(()));
    assert_eq!(vm.registers().get_register(0), 0x0078);
    assert_eq!(vm.take_output(), Vec::<u8>::new());
    assert_eq!(vm.trap(0xF020), Ok(()));
    assert_eq!(vm.registers().get_register(0), 0x0079);
    assert!(vm.is_running());
}

#[test]
fn getc_leaves_the_condition_flag_alone() {
    let mut vm = Lc3::default();
    set(&mut vm, 1, 0x8000);
    vm.push_key(b'x');
    assert_eq!(vm.trap(0xF020), Ok(()));
    assert_eq!(vm.registers().cond, ConditionalFlag::Neg);
}

#[test]
fn getc_without_a_key_is_refused_and_changes_nothing() {
    let mut vm = Lc3::default();
    set(&mut vm, 0, 0x0041);
    assert_eq!(vm.trap(0xF020), Err(ExecError::InputExhausted));
    assert_eq!(vm.registers().get_register(0), 0x0041);
    assert_eq!(vm.registers().get_register(7), 0);
    assert_eq!(vm.registers().pc, 0x3000);
    assert!(vm.is_running());
    assert_eq!(vm.take_output(), Vec::<u8>::new());
}

#[test]
fn every_trap_links_r7() {
    let mut vm = Lc3::default();
    assert_eq!(vm.trap(0xF021), Ok(()));
    assert_eq!(vm.registers().get_register(7), 0x3000);
    assert_eq!(vm.registers().pc, 0x3000);

    let mut vm = Lc3::default();
    vm.jsr(0x4810);
    vm.push_key(b'x');
    assert_eq!(vm.trap(0xF020), Ok(()));
    assert_eq!(vm.registers().get_register(7), 0x3010);

    let mut vm = Lc3::default();
    vm.jsr(0x4811);
    assert_eq!(vm.trap(0xF025), Ok(()));
    assert_eq!(vm.registers().get_register(7), 0x3011);
}

#[test]
fn out_prints_the_low_byte_of_r0() {
    let mut vm = Lc3::default();
    set(&mut vm, 0, 0x0141);
    assert_eq!(vm.trap(0xF021), Ok(()));
    assert_eq!(vm.take_output(), vec![0x41]);
    set(&mut vm, 0, 0x00E9);
    assert_eq!(vm.trap(0xF021), Ok(()));
    set(&mut vm, 0, 0xFF00);
    assert_eq!(vm.trap(0xF021), Ok(()));
    assert_eq!(vm.take_output(), vec![0xE9, 0x00]);
    assert_eq!(vm.registers().get_register(0), 0xFF00);
}

#[test]
fn puts_prints_up_to_the_first_zero_word() {
    let mut vm = Lc3::default();
    store_words(&mut vm, 0x4000, &[0x0048, 0x0069, 0x0000, 0x0021]);
    set(&mut vm, 0, 0x4000);
    assert_eq!(vm.trap(0xF022), Ok(()));
    assert_eq!(vm.take_output(), b"Hi".to_vec());
    assert_eq!(vm.registers().get_register(0), 0x4000);
    assert!(vm.is_running());
}

#[test]
fn puts_of_a_zero_word_prints_nothing() {
    let mut vm = Lc3::default();
    store_words(&mut vm, 0x4000, &[0x0000, 0x0048]);
    set(&mut vm, 0, 0x4000);
    assert_eq!(vm.trap(0xF022), Ok(()));
    assert_eq!(vm.take_output(), Vec::<u8>::new());
}

#[test]
fn puts_prints_the_low_byte_of_each_word_and_stops_at_a_zero_word_only() {
    let mut vm = Lc3::default();
    store_words(&mut vm, 0x4000, &[0x1241, 0x0100, 0xFF42, 0x0000]);
    set(&mut vm, 0, 0x4000);
    assert_eq!(vm.trap(0xF022), Ok(()));
    assert_eq!(vm.take_output(), vec![0x41, 0x00, 0x42]);
}

#[test]
fn puts_wraps_around_the_top_of_memory() {
    let mut vm = Lc3::default();
    store_words(&mut vm, 0xFFFE, &[0x0041, 0x0042, 0x0043, 0x0000]);
    set(&mut vm, 0, 0xFFFE);
    assert_eq!(vm.trap(0xF022), Ok(()));
    assert_eq!(vm.take_output(), b"ABC".to_vec());
}

#[test]
fn puts_of_a_memory_without_a_zero_word_prints_all_of_it_once() {
    let mut vm = Lc3::default();
    for address in 0u16..=0xFFFF {
        vm.write_mem(address, 0x0100 | (address & 0x00FF));
    }
    set(&mut vm, 0, 0x8003);
    let printed_from: Vec<u16> = (0u32..0x1_0000).map(|i| 0x8003u16.wrapping_add(i as u16)).collect();
    let expected: Vec<u8> = printed_from.iter().map(|address| vm.memory()[*address as usize] as u8).collect();
    assert!(vm.memory().iter().all(|word| *word != 0));
    assert_eq!(vm.trap(0xF022), Ok(()));
    let printed = vm.take_output();
    assert_eq!(printed.len(), 0x1_0000);
    assert_eq!(printed, expected);
}

#[test]
fn puts_does_not_poll_the_keyboard() {
    let mut vm = Lc3::default();
    store_words(&mut vm, 0xFDFF, &[0x0041, 0x0042, 0x0000]);
    vm.push_key(b'k');
    set(&mut vm, 0, 0xFDFF);
    assert_eq!(vm.trap(0xF022), Ok(()));
    assert_eq!(vm.take_output(), b"AB".to_vec());
    assert_eq!(vm.memory()[0xFE00], 0x0042);
    assert_eq!(vm.read_mem(0xFE00), 0x8000);
}

#[test]
fn in_prompts_echoes_the_key_and_moves_it_into_r0() {
    let mut vm = Lc3::default();
    vm.push_key(b'y');
    vm.push_key(b'n');
    assert_eq!(vm.trap(0xF023), Ok(()));
    assert_eq!(vm.take_output(), b"Enter a character: y".to_vec());
    assert_eq!(vm.registers().get_register(0), b'y' as u16);
    assert_eq!(vm.trap(0xF023), Ok(()));
    assert_eq!(vm.take_output(), b"Enter a character: n".to_vec());
    assert_eq!(vm.registers().get_register(0), b'n' as u16);
}

#[test]
fn in_without_a_key_is_refused_and_prints_nothing() {
    let mut vm = Lc3::default();
    assert_eq!(vm.trap(0xF023), Err(ExecError::InputExhausted));
    assert_eq!(vm.take_output(), Vec::<u8>::new());
    assert_eq!(vm.registers().get_register(7), 0);
}

#[test]
fn putsp_prints_two_characters_per_word_low_byte_first() {
    let mut vm = Lc3::default();
    store_words(&mut vm, 0x4000, &[0x6548, 0x6C6C, 0x216F, 0x0000, 0x4141]);
    set(&mut vm, 0, 0x4000);
    assert_eq!(vm.trap(0xF024), Ok(()));
    assert_eq!(vm.take_output(), b"Hello!".to_vec());
}

#[test]
fn putsp_stops_at_a_zero_high_byte_after_printing_the_low_byte() {
    let mut vm = Lc3::default();
    store_words(&mut vm, 0x4000, &[0x6548, 0x006C, 0x6F6C, 0x0000]);
    set(&mut vm, 0, 0x4000);
    assert_eq!(vm.trap(0xF024), Ok(()));
    assert_eq!(vm.take_output(), b"Hel".to_vec());
}

#[test]
fn putsp_stops_at_a_zero_low_byte_before_printing_the_high_byte() {
    let mut vm = Lc3::default();
    store_words(&mut vm, 0x4000, &[0x6548, 0x4100, 0x4242]);
    set(&mut vm, 0, 0x4000);
    assert_eq!(vm.trap(0xF024), Ok(()));
    assert_eq!(vm.take_output(), b"He".to_vec());
}

#[test]
fn putsp_of_a_zero_word_prints_nothing() {
    let mut vm = Lc3::default();
    store_words(&mut vm, 0x4000, &[0x0000, 0x4242]);
    set(&mut vm, 0, 0x4000);
    assert_eq!(vm.trap(0xF024), Ok(()));
    assert_eq!(vm.take_output(), Vec::<u8>::new());
}

#[test]
fn putsp_wraps_around_the_top_of_memory() {
    let mut vm = Lc3::default();
    store_words(&mut vm, 0xFFFF, &[0x4241, 0x0043]);
    set(&mut vm, 0, 0xFFFF);
    assert_eq!(vm.trap(0xF024), Ok(()));
    assert_eq!(vm.take_output(), b"ABC".to_vec());
}

#[test]
fn putsp_of_a_memory_without_a_zero_byte_prints_all_of_it_once() {
    let mut vm = Lc3::default();
    for address in 0u16..=0xFFFF {
        vm.write_mem(address, 0x0101 + (address & 0x007F));
    }
    set(&mut vm, 0, 0xFFFE);
    let mut expected: Vec<u8> = Vec::new();
    for i in 0u32..0x1_0000 {
        let word = vm.memory()[0xFFFEu16.wrapping_add(i as u16) as usize];
        expected.push((word & 0xFF) as u8);
        expected.push((word >> 8) as u8);
    }
    assert!(expected.iter().all(|byte| *byte != 0));
    assert_eq!(vm.trap(0xF024), Ok(()));
    let printed = vm.take_output();
    assert_eq!(printed.len(), 0x2_0000);
    assert_eq!(printed, expected);
}

#[test]
fn halt_stops_the_machine() {
    let mut vm = Lc3::default();
    assert!(vm.is_running());
    assert_eq!(vm.trap(0xF025), Ok(()));
    assert!(!vm.is_running());
    assert_eq!(vm.registers().get_register(7), 0x3000);
    assert_eq!(vm.take_output(), Vec::<u8>::new());
}

#[test]
fn a_trap_looks_at_the_low_byte_of_the_instruction_only() {
    let mut vm = Lc3::default();
    set(&mut vm, 0, 0x0041);
    assert_eq!(vm.trap(0xFF21), Ok(()));
    assert_eq!(vm.trap(0x0021), Ok(()));
    assert_eq!(vm.take_output(), vec![0x41, 0x41]);
}

#[test]
fn an_unknown_trap_vector_is_refused_and_changes_nothing() {
    for vector in 0u16..=0xFF {
        if (0x20..=0x25).contains(&vector) {
            continue;
        }
        let mut vm = Lc3::default();
        vm.push_key(b'k');
        assert_eq!(vm.trap(0xF000 | vector), Err(ExecError::UnknownTrap));
        assert_eq!(vm.registers().general, [0; 8]);
        assert_eq!(vm.registers().pc, 0x3000);
        assert!(vm.is_running());
        assert_eq!(vm.take_output(), Vec::<u8>::new());
        assert_eq!(vm.read_mem(0xFE00), 0x8000);
    }
}

#[test]
fn output_is_collected_in_the_order_printed_and_handed_out_once() {
    let mut vm = Lc3::default();
    set(&mut vm, 0, 0x0031);
    assert_eq!(vm.trap(0xF021), Ok(()));
    set(&mut vm, 0, 0x0032);
    assert_eq!(vm.trap(0xF021), Ok(()));
    assert_eq!(vm.take_output(), b"12".to_vec());
    assert_eq!(vm.take_output(), Vec::<u8>::new());
    set(&mut vm, 0, 0x0033);
    assert_eq!(vm.trap(0xF021), Ok(()));
    assert_eq!(vm.take_output(), b"3".to_vec());
}
