use chip8::instruction::{
    decode, decode_n, decode_nn, decode_nnn, decode_x_index, decode_y_index, Instruction,
};
use chip8::program::{get_demo_program, DEMO_CODE, DEMO_SIZE};

#[test]
fn operand_fields() {
    assert_eq!(decode_x_index(0xABCD), 0xB);
    assert_eq!(decode_y_index(0xABCD), 0xC);
    assert_eq!(decode_n(0xABCD), 0xD);
    assert_eq!(decode_nn(0xABCD), 0xCD);
    assert_eq!(decode_nnn(0xABCD), 0xBCD);
    assert_eq!(decode_x_index(0xFFFF), 0xF);
    assert_eq!(decode_y_index(0x0000), 0x0);
    assert_eq!(decode_nnn(0xF000), 0x000);
}

#[test]
fn every_instruction_decodes() {
    let table = [
        (0x00E0, Instruction::Cls),
        (0x00EE, Instruction::Ret),
        (0x1ABC, Instruction::Jp { addr: 0xABC }),
        (0x2FFF, Instruction::Call { addr: 0xFFF }),
        (0x3A12, Instruction::SeByte { x: 0xA, byte: 0x12 }),
        (0x4B34, Instruction::SneByte { x: 0xB, byte: 0x34 }),
        (0x5120, Instruction::SeReg { x: 1, y: 2 }),
        (0x6CFF, Instruction::LdByte { x: 0xC, byte: 0xFF }),
        (0x7D01, Instruction::AddByte { x: 0xD, byte: 0x01 }),
        (0x8120, Instruction::LdReg { x: 1, y: 2 }),
        (0x8121, Instruction::Or { x: 1, y: 2 }),
        (0x8122, Instruction::And { x: 1, y: 2 }),
        (0x8123, Instruction::Xor { x: 1, y: 2 }),
        (0x8124, Instruction::AddReg { x: 1, y: 2 }),
        (0x8125, Instruction::SubReg { x: 1, y: 2 }),
        (0x8126, Instruction::Shr { x: 1 }),
        (0x8127, Instruction::SubnReg { x: 1, y: 2 }),
        (0x812E, Instruction::Shl { x: 1 }),
        (0x9EF0, Instruction::SneReg { x: 0xE, y: 0xF }),
        (0xA123, Instruction::LdI { addr: 0x123 }),
        (0xB456, Instruction::JpV0 { addr: 0x456 }),
        (0xC7F0, Instruction::Rnd { x: 7, byte: 0xF0 }),
        (0xD12F, Instruction::Drw { x: 1, y: 2, n: 0xF }),
        (0xE39E, Instruction::Skp { x: 3 }),
        (0xE3A1, Instruction::Sknp { x: 3 }),
        (0xF407, Instruction::LdVxDt { x: 4 }),
        (0xF40A, Instruction::LdVxKey { x: 4 }),
        (0xF415, Instruction::LdDtVx { x: 4 }),
        (0xF418, Instruction::LdStVx { x: 4 }),
        (0xF41E, Instruction::AddI { x: 4 }),
        (0xF429, Instruction::LdFont { x: 4 }),
        (0xF433, Instruction::Bcd { x: 4 }),
        (0xF455, Instruction::Store { x: 4 }),
        (0xF465, Instruction::Load { x: 4 }),
    ];
    for (word, instruction) in table {
        assert_eq!(decode(word), instruction, "{word:04X}");
    }
}

#[test]
fn other_words_are_unknown() {
    for word in [
        0x0000u16, 0x00E1, 0x01E0, 0x0FEE, 0x5121, 0x512F, 0x8128, 0x812D, 0x812F, 0x9121, 0xE000,
        0xE19F, 0xE1A0, 0xF000, 0xF108, 0xF166, 0xFFFF,
    ] {
        assert_eq!(decode(word), Instruction::Unknown { word }, "{word:04X}");
    }
}

#[test]
fn every_word_decodes_to_operands_of_that_word() {
    for word in 0..=0xFFFFu16 {
        let x = ((word >> 8) & 0xF) as u8;
        let y = ((word >> 4) & 0xF) as u8;
        match decode(word) {
            Instruction::Jp { addr }
            | Instruction::Call { addr }
            | Instruction::LdI { addr }
            | Instruction::JpV0 { addr } => assert_eq!(addr, word & 0xFFF),
            Instruction::SeByte { x: rx, byte }
            | Instruction::SneByte { x: rx, byte }
            | Instruction::LdByte { x: rx, byte }
            | Instruction::AddByte { x: rx, byte }
            | Instruction::Rnd { x: rx, byte } => {
                assert_eq!((rx, byte), (x, (word & 0xFF) as u8))
            }
            Instruction::Drw { x: rx, y: ry, n } => {
                assert_eq!((rx, ry, n), (x, y, (word & 0xF) as u8))
            }
            Instruction::Unknown { word: kept } => assert_eq!(kept, word),
            _ => {}
        }
    }
}

#[test]
fn demo_program_is_the_code_padded_with_zeros() {
    let program = get_demo_program();
    assert_eq!(program.len(), 3584);
    assert_eq!(DEMO_SIZE, 48);
    assert_eq!(&program[..48], &DEMO_CODE[..]);
    assert!(program[48..].iter().all(|byte| *byte == 0));
    assert_eq!(&program[..6], &[0x6E, 0xFF, 0xFE, 0x18, 0x00, 0xE0]);
    assert_eq!(&program[0x22..0x2A], &[0xA2, 0x2A, 0xDA, 0xB6, 0xF8, 0x0A, 0x12, 0x04]);
    assert_eq!(&program[0x2A..0x30], &[0xBA, 0x7C, 0xD6, 0xFE, 0x54, 0xAA]);
}

#[test]
fn demo_program_decodes_to_known_instructions() {
    let program = get_demo_program();
    for at in (0..0x2A).step_by(2) {
        let word = (program[at] as u16) << 8 | program[at + 1] as u16;
        assert!(!matches!(decode(word), Instruction::Unknown { .. }), "{word:04X}");
    }
}
