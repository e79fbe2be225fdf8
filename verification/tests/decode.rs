use chip8::{decode, Instruction};

/// The instruction set's table, written from the instruction word's four nibbles.
fn expected(opcode: u16) -> Instruction {
    let nibbles = (
        (opcode >> 12) as u8,
        ((opcode >> 8) & 0xF) as u8,
        ((opcode >> 4) & 0xF) as u8,
        (opcode & 0xF) as u8,
    );
    let addr = opcode & 0x0FFF;
    let byte = (opcode & 0x00FF) as u8;
    match nibbles {
        (0x0, _, _, 0x0) => Instruction::ClearScreen,
        (0x0, _, _, 0xE) => Instruction::Return,
        (0x0, _, _, _) => Instruction::Nop,
        (0x1, _, _, _) => Instruction::Jump { addr },
        (0x2, _, _, _) => Instruction::Call { addr },
        (0x3, x, _, _) => Instruction::SkipEqImm { x, byte },
        (0x4, x, _, _) => Instruction::SkipNeImm { x, byte },
        (0x5, x, y, _) => Instruction::SkipEqReg { x, y },
        (0x6, x, _, _) => Instruction::LoadImm { x, byte },
        (0x7, x, _, _) => Instruction::AddImm { x, byte },
        (0x8, x, y, 0x0) => Instruction::Move { x, y },
        (0x8, x, y, 0x1) => Instruction::Or { x, y },
        (0x8, x, y, 0x2) => Instruction::And { x, y },
        (0x8, x, y, 0x3) => Instruction::Xor { x, y },
        (0x8, x, y, 0x4) => Instruction::AddReg { x, y },
        (0x8, x, y, 0x5) => Instruction::Sub { x, y },
        (0x8, x, y, 0x6) => Instruction::ShiftRight { x, y },
        (0x8, x, y, 0x7) => Instruction::SubN { x, y },
        (0x8, x, y, 0xE) => Instruction::ShiftLeft { x, y },
        (0x8, _, _, _) => Instruction::Nop,
        (0x9, x, y, _) => Instruction::SkipNeReg { x, y },
        (0xA, _, _, _) => Instruction::LoadIndex { addr },
        (0xB, _, _, _) => Instruction::JumpOffset { addr },
        (0xC, x, _, _) => Instruction::RandAnd { x, byte },
        (0xD, x, y, height) => Instruction::Draw { x, y, height },
        (0xE, x, _, 0x1) => Instruction::SkipKeyUp { x },
        (0xE, x, _, 0xE) => Instruction::SkipKeyDown { x },
        (0xE, _, _, _) => Instruction::Nop,
        (0xF, x, 0x0, 0x7) => Instruction::GetDelay { x },
        (0xF, x, 0x0, 0xA) => Instruction::WaitKey { x },
        (0xF, x, 0x1, 0x5) => Instruction::SetDelay { x },
        (0xF, x, 0x1, 0x8) => Instruction::SetSound { x },
        (0xF, x, 0x1, 0xE) => Instruction::AddIndex { x },
        (0xF, x, 0x2, 0x9) => Instruction::FontAddr { x },
        (0xF, x, 0x3, 0x3) => Instruction::Bcd { x },
        (0xF, x, 0x5, 0x5) => Instruction::StoreRegs { x },
        (0xF, x, 0x6, 0x5) => Instruction::LoadRegs { x },
        _ => Instruction::Nop,
    }
}

fn check_family(family: u16) {
    for rest in 0..0x1000u16 {
        let opcode = (family << 12) | rest;
        assert_eq!(decode(opcode), expected(opcode), "opcode {:04X}", opcode);
    }
}

fn count_nops(family: u16) -> usize {
    let mut count = 0;
    for rest in 0..0x1000u16 {
        if decode((family << 12) | rest) == Instruction::Nop {
            count += 1;
        }
    }
    count
}

#[test]
fn decode_family_0_exhaustive() {
    check_family(0x0);
}

#[test]
fn decode_direct_families_exhaustive() {
    for family in [0x1u16, 0x2, 0x3, 0x4, 0x5, 0x6, 0x7, 0x9, 0xA, 0xB, 0xC, 0xD] {
        check_family(family);
    }
}

#[test]
fn decode_family_8_exhaustive() {
    check_family(0x8);
}

#[test]
fn decode_family_e_exhaustive() {
    check_family(0xE);
}

#[test]
fn decode_family_f_exhaustive() {
    check_family(0xF);
}

#[test]
fn decode_all_words_once() {
    let mut checked = 0u32;
    for opcode in 0..=0xFFFFu16 {
        assert_eq!(decode(opcode), expected(opcode), "opcode {:04X}", opcode);
        checked += 1;
    }
    assert_eq!(checked, 65536);
}

#[test]
fn decode_nop_counts_by_family() {
    assert_eq!(count_nops(0x0), 14 * 256);
    assert_eq!(count_nops(0x8), 7 * 256);
    assert_eq!(count_nops(0xE), 14 * 256);
    assert_eq!(count_nops(0xF), (256 - 9) * 16);
    for family in [0x1u16, 0x2, 0x3, 0x4, 0x5, 0x6, 0x7, 0x9, 0xA, 0xB, 0xC, 0xD] {
        assert_eq!(count_nops(family), 0);
    }
}

#[test]
fn decode_named_words() {
    assert_eq!(decode(0x00E0), Instruction::ClearScreen);
    assert_eq!(decode(0x00EE), Instruction::Return);
    assert_eq!(decode(0x1ABC), Instruction::Jump { addr: 0xABC });
    assert_eq!(decode(0x2FFF), Instruction::Call { addr: 0xFFF });
    assert_eq!(decode(0x3A42), Instruction::SkipEqImm { x: 0xA, byte: 0x42 });
    assert_eq!(decode(0x4B00), Instruction::SkipNeImm { x: 0xB, byte: 0x00 });
    assert_eq!(decode(0x5120), Instruction::SkipEqReg { x: 1, y: 2 });
    assert_eq!(decode(0x6CFF), Instruction::LoadImm { x: 0xC, byte: 0xFF });
    assert_eq!(decode(0x7D01), Instruction::AddImm { x: 0xD, byte: 0x01 });
    assert_eq!(decode(0x8014), Instruction::AddReg { x: 0, y: 1 });
    assert_eq!(decode(0x8EF6), Instruction::ShiftRight { x: 0xE, y: 0xF });
    assert_eq!(decode(0x8EFE), Instruction::ShiftLeft { x: 0xE, y: 0xF });
    assert_eq!(decode(0x9340), Instruction::SkipNeReg { x: 3, y: 4 });
    assert_eq!(decode(0xA123), Instruction::LoadIndex { addr: 0x123 });
    assert_eq!(decode(0xB456), Instruction::JumpOffset { addr: 0x456 });
    assert_eq!(decode(0xC70F), Instruction::RandAnd { x: 7, byte: 0x0F });
    assert_eq!(decode(0xD125), Instruction::Draw { x: 1, y: 2, height: 5 });
    assert_eq!(decode(0xE59E), Instruction::SkipKeyDown { x: 5 });
    assert_eq!(decode(0xE5A1), Instruction::SkipKeyUp { x: 5 });
    assert_eq!(decode(0xF207), Instruction::GetDelay { x: 2 });
    assert_eq!(decode(0xF20A), Instruction::WaitKey { x: 2 });
    assert_eq!(decode(0xF215), Instruction::SetDelay { x: 2 });
    assert_eq!(decode(0xF218), Instruction::SetSound { x: 2 });
    assert_eq!(decode(0xF21E), Instruction::AddIndex { x: 2 });
    assert_eq!(decode(0xF229), Instruction::FontAddr { x: 2 });
    assert_eq!(decode(0xF233), Instruction::Bcd { x: 2 });
    assert_eq!(decode(0xF255), Instruction::StoreRegs { x: 2 });
    assert_eq!(decode(0xF265), Instruction::LoadRegs { x: 2 });
}

#[test]
fn decode_family_0_looks_at_last_nibble_only() {
    assert_eq!(decode(0x0000), Instruction::ClearScreen);
    assert_eq!(decode(0x0120), Instruction::ClearScreen);
    assert_eq!(decode(0x0ABE), Instruction::Return);
    assert_eq!(decode(0x00EF), Instruction::Nop);
    assert_eq!(decode(0x0001), Instruction::Nop);
}

#[test]
fn decode_words_without_handler_are_nop() {
    assert_eq!(decode(0x8008), Instruction::Nop);
    assert_eq!(decode(0x812F), Instruction::Nop);
    assert_eq!(decode(0xE000), Instruction::Nop);
    assert_eq!(decode(0xE19F), Instruction::Nop);
    assert_eq!(decode(0xF000), Instruction::Nop);
    assert_eq!(decode(0xF066), Instruction::Nop);
    assert_eq!(decode(0xF0FF), Instruction::Nop);
}

#[test]
fn decode_family_e_looks_at_last_nibble_only() {
    assert_eq!(decode(0xE301), Instruction::SkipKeyUp { x: 3 });
    assert_eq!(decode(0xE3FE), Instruction::SkipKeyDown { x: 3 });
}
