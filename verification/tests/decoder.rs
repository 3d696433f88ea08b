use chip8::{decode, Instruction};

#[test]
fn decodes_every_family() {
    let cases = [
        (0x0123, Instruction::Sys { addr: 0x123 }),
        (0x0000, Instruction::Sys { addr: 0x000 }),
        (0x00E0, Instruction::ClearScreen),
        (0x00EE, Instruction::Return),
        (0x1ABC, Instruction::Jump { addr: 0xABC }),
        (0x2FFF, Instruction::Call { addr: 0xFFF }),
        (0x3A12, Instruction::SkipEqByte { x: 0xA, byte: 0x12 }),
        (0x4B34, Instruction::SkipNeByte { x: 0xB, byte: 0x34 }),
        (0x5C10, Instruction::SkipEqReg { x: 0xC, y: 0x1 }),
        (0x6D56, Instruction::LoadByte { x: 0xD, byte: 0x56 }),
        (0x7E78, Instruction::AddByte { x: 0xE, byte: 0x78 }),
        (0x8120, Instruction::Move { x: 1, y: 2 }),
        (0x8121, Instruction::Or { x: 1, y: 2 }),
        (0x8122, Instruction::And { x: 1, y: 2 }),
        (0x8123, Instruction::Xor { x: 1, y: 2 }),
        (0x8124, Instruction::Add { x: 1, y: 2 }),
        (0x8125, Instruction::Sub { x: 1, y: 2 }),
        (0x8126, Instruction::ShiftRight { x: 1, y: 2 }),
        (0x8127, Instruction::SubFrom { x: 1, y: 2 }),
        (0x812E, Instruction::ShiftLeft { x: 1, y: 2 }),
        (0x9F00, Instruction::SkipNeReg { x: 0xF, y: 0 }),
        (0xA9AB, Instruction::LoadIndex { addr: 0x9AB }),
        (0xB001, Instruction::JumpOffset { addr: 0x001 }),
        (0xC3F0, Instruction::Random { x: 3, mask: 0xF0 }),
        (0xD45F, Instruction::Draw { x: 4, y: 5, rows: 0xF }),
        (0xE69E, Instruction::SkipKey { x: 6 }),
        (0xE7A1, Instruction::SkipNoKey { x: 7 }),
        (0xF807, Instruction::ReadDelay { x: 8 }),
        (0xF90A, Instruction::WaitKey { x: 9 }),
        (0xFA15, Instruction::SetDelay { x: 0xA }),
        (0xFB18, Instruction::SetSound { x: 0xB }),
        (0xFC1E, Instruction::AddIndex { x: 0xC }),
        (0xFD29, Instruction::Glyph { x: 0xD }),
        (0xFE33, Instruction::Bcd { x: 0xE }),
        (0xFF55, Instruction::Store { x: 0xF }),
        (0xF065, Instruction::Load { x: 0 }),
    ];
    for (word, expected) in cases {
        assert_eq!(decode(word), expected, "word {:#06x}", word);
    }
}

#[test]
fn unknown_words_carry_the_word() {
    for word in [0x5121, 0x512F, 0x8128, 0x812D, 0x812F, 0x9121, 0xE19F, 0xE100, 0xF100, 0xF166, 0xFFFF] {
        assert_eq!(decode(word), Instruction::Unknown(word), "word {:#06x}", word);
    }
}

#[test]
fn no_two_words_decode_alike() {
    let mut seen = std::collections::HashSet::new();
    let mut unknown = 0u32;
    for word in 0..=u16::MAX {
        let ins = decode(word);
        if let Instruction::Unknown(w) = ins {
            assert_eq!(w, word);
            unknown += 1;
        }
        assert!(seen.insert(format!("{:?}", ins)), "word {:#06x} decodes like another", word);
    }
    // 5XYN and 9XYN with N != 0: 2 * 3840; 8XYN with N in 8..=D, F: 7 * 256;
    // EXNN but 9E, A1: 16 * 254; FXNN but nine: 16 * 247
    assert_eq!(unknown, 2 * 3840 + 7 * 256 + 16 * 254 + 16 * 247);
}
