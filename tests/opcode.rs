use chip8::opcode::{decode, digit, Instruction};

#[test]
fn test_resolve_instruction() {
    assert_eq!(decode(0x00E0), Instruction::Cls);
    assert_eq!(decode(0x00EE), Instruction::Ret);
    assert_eq!(decode(0x0123), Instruction::Sys { nnn: 0x123 });
    assert_eq!(decode(0x2ABC), Instruction::Call { nnn: 0xABC });
    assert_eq!(decode(0x3A42), Instruction::SeImm { x: 0xA, kk: 0x42 });
    assert_eq!(decode(0x4B17), Instruction::SneImm { x: 0xB, kk: 0x17 });
    assert_eq!(decode(0x5120), Instruction::SeReg { x: 1, y: 2 });
    assert_eq!(decode(0x6C05), Instruction::LdImm { x: 0xC, kk: 0x05 });
    assert_eq!(decode(0x7D01), Instruction::AddImm { x: 0xD, kk: 0x01 });
    assert_eq!(decode(0x8120), Instruction::LdReg { x: 1, y: 2 });
    assert_eq!(decode(0x8121), Instruction::Or { x: 1, y: 2 });
    assert_eq!(decode(0x8122), Instruction::And { x: 1, y: 2 });
    assert_eq!(decode(0x8123), Instruction::Xor { x: 1, y: 2 });
    assert_eq!(decode(0x8125), Instruction::Sub { x: 1, y: 2 });
    assert_eq!(decode(0x8126), Instruction::Shr { x: 1, y: 2 });
    assert_eq!(decode(0x8127), Instruction::Subn { x: 1, y: 2 });
    assert_eq!(decode(0x812E), Instruction::Shl { x: 1, y: 2 });
    assert_eq!(decode(0x9340), Instruction::SneReg { x: 3, y: 4 });
    assert_eq!(decode(0xA2F0), Instruction::LdI { nnn: 0x2F0 });
    assert_eq!(decode(0xB123), Instruction::JpV0 { nnn: 0x123 });
    assert_eq!(decode(0xC50F), Instruction::Rnd { x: 5, kk: 0x0F });
    assert_eq!(decode(0xD125), Instruction::Drw { x: 1, y: 2, n: 5 });
    assert_eq!(decode(0xE19E), Instruction::Skp { x: 1 });
    assert_eq!(decode(0xE2A1), Instruction::Sknp { x: 2 });
    assert_eq!(decode(0xF307), Instruction::LdVxDt { x: 3 });
    assert_eq!(decode(0xF40A), Instruction::LdVxK { x: 4 });
    assert_eq!(decode(0xF515), Instruction::LdDtVx { x: 5 });
    assert_eq!(decode(0xF618), Instruction::LdStVx { x: 6 });
    assert_eq!(decode(0xF71E), Instruction::AddIVx { x: 7 });
    assert_eq!(decode(0xF829), Instruction::LdFVx { x: 8 });
    assert_eq!(decode(0xF933), Instruction::LdBVx { x: 9 });
    assert_eq!(decode(0xFA55), Instruction::LdMemVx { x: 0xA });
    assert_eq!(decode(0xFB65), Instruction::LdVxMem { x: 0xB });
}

#[test]
fn decode_clear_screen() {
    assert_eq!(decode(0x00E0), Instruction::Cls);
}

#[test]
fn decode_jump() {
    assert_eq!(decode(0x1234), Instruction::Jp { nnn: 0x234 });
}

#[test]
fn decode_add_registers() {
    assert_eq!(decode(0x8014), Instruction::AddReg { x: 0, y: 1 });
}

#[test]
fn decode_unknown_words_as_invalid() {
    assert_eq!(decode(0x5121), Instruction::Invalid { word: 0x5121 });
    assert_eq!(decode(0x8128), Instruction::Invalid { word: 0x8128 });
    assert_eq!(decode(0x9121), Instruction::Invalid { word: 0x9121 });
    assert_eq!(decode(0xE1FF), Instruction::Invalid { word: 0xE1FF });
    assert_eq!(decode(0xF1FF), Instruction::Invalid { word: 0xF1FF });
}

#[test]
fn decode_every_word_twice_alike() {
    for w in 0..=u16::MAX {
        assert_eq!(decode(w), decode(w));
    }
}

#[test]
fn digit_extracts_each_nibble() {
    assert_eq!(digit(0x1234, 0), 4);
    assert_eq!(digit(0x1234, 1), 3);
    assert_eq!(digit(0x1234, 2), 2);
    assert_eq!(digit(0x1234, 3), 1);
    assert_eq!(digit(0xF00F, 3), 0xF);
}
