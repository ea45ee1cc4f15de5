use lc3::{Opcode, Trap};

#[test]
fn every_four_bit_number_names_its_opcode() {
    let table = [
        Opcode::Br,
        Opcode::Add,
        Opcode::Ld,
        Opcode::St,
        Opcode::Jsr,
        Opcode::And,
        Opcode::Ldr,
        Opcode::Str,
        Opcode::Rti,
        Opcode::Not,
        Opcode::Ldi,
        Opcode::Sti,
        Opcode::Jmp,
        Opcode::Res,
        Opcode::Lea,
        Opcode::Trap,
    ];
    for (code, opcode) in table.iter().enumerate() {
        assert_eq!(Opcode::from(code as u16), Some(*opcode));
    }
}

#[test]
fn numbers_above_fifteen_name_no_opcode() {
    assert_eq!(Opcode::from(16), None);
    assert_eq!(Opcode::from(0x00F0), None);
    assert_eq!(Opcode::from(0xFFFF), None);
}

#[test]
fn the_six_trap_vectors_name_their_routines() {
    assert_eq!(Trap::from(0x20), Some(Trap::Getc));
    assert_eq!(Trap::from(0x21), Some(Trap::Out));
    assert_eq!(Trap::from(0x22), Some(Trap::Puts));
    assert_eq!(Trap::from(0x23), Some(Trap::In));
    assert_eq!(Trap::from(0x24), Some(Trap::Putsp));
    assert_eq!(Trap::from(0x25), Some(Trap::Halt));
}

#[test]
fn every_other_trap_vector_names_no_routine() {
    for vector in 0u16..=0xFF {
        if !(0x20..=0x25).contains(&vector) {
            assert_eq!(Trap::from(vector), None);
        }
    }
    assert_eq!(Trap::from(0x0120), None);
    assert_eq!(Trap::from(0xFFFF), None);
}
