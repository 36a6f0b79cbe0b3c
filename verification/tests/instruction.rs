use chip8::instruction::{decode, Instruction};

#[test]
fn decode_fixed_opcodes() {
    assert_eq!(decode(0x00E0), Some(Instruction::ClearScreen));
    assert_eq!(decode(0x00EE), Some(Instruction::Return));
}

#[test]
fn decode_address_opcodes() {
    assert_eq!(decode(0x1ABC), Some(Instruction::Jump { address: 0xABC }));
    assert_eq!(decode(0x2000), Some(Instruction::Call { address: 0x000 }));
    assert_eq!(decode(0x2FFF), Some(Instruction::Call { address: 0xFFF }));
    assert_eq!(decode(0xA123), Some(Instruction::LoadIndex { address: 0x123 }));
    assert_eq!(decode(0xB0F0), Some(Instruction::JumpOffset { address: 0x0F0 }));
}

#[test]
fn decode_register_and_value_opcodes() {
    assert_eq!(decode(0x3A12), Some(Instruction::SkipIfEqual { x: 0xA, value: 0x12 }));
    assert_eq!(decode(0x4BFF), Some(Instruction::SkipIfNotEqual { x: 0xB, value: 0xFF }));
    assert_eq!(decode(0x6005), Some(Instruction::LoadImmediate { x: 0, value: 5 }));
    assert_eq!(decode(0x7F01), Some(Instruction::AddImmediate { x: 0xF, value: 1 }));
    assert_eq!(decode(0xC30F), Some(Instruction::Random { x: 3, value: 0x0F }));
}

#[test]
fn decode_two_register_opcodes() {
    assert_eq!(decode(0x5120), Some(Instruction::SkipIfRegistersEqual { x: 1, y: 2 }));
    assert_eq!(decode(0x8120), Some(Instruction::Move { x: 1, y: 2 }));
    assert_eq!(decode(0x8121), Some(Instruction::Or { x: 1, y: 2 }));
    assert_eq!(decode(0x8122), Some(Instruction::And { x: 1, y: 2 }));
    assert_eq!(decode(0x8123), Some(Instruction::Xor { x: 1, y: 2 }));
    assert_eq!(decode(0x8124), Some(Instruction::Add { x: 1, y: 2 }));
    assert_eq!(decode(0x8125), Some(Instruction::Subtract { x: 1, y: 2 }));
    assert_eq!(decode(0x8126), Some(Instruction::ShiftRight { x: 1, y: 2 }));
    assert_eq!(decode(0x8127), Some(Instruction::SubtractReversed { x: 1, y: 2 }));
    assert_eq!(decode(0x812E), Some(Instruction::ShiftLeft { x: 1, y: 2 }));
    assert_eq!(decode(0x9120), Some(Instruction::SkipIfRegistersNotEqual { x: 1, y: 2 }));
    assert_eq!(decode(0xD005), Some(Instruction::Draw { x: 0, y: 0, rows: 5 }));
    assert_eq!(decode(0xDABF), Some(Instruction::Draw { x: 0xA, y: 0xB, rows: 0xF }));
}

#[test]
fn decode_one_register_opcodes() {
    assert_eq!(decode(0xE79E), Some(Instruction::SkipIfKeyPressed { x: 7 }));
    assert_eq!(decode(0xE7A1), Some(Instruction::SkipIfKeyNotPressed { x: 7 }));
    assert_eq!(decode(0xF707), Some(Instruction::LoadDelayTimer { x: 7 }));
    assert_eq!(decode(0xF70A), Some(Instruction::WaitForKey { x: 7 }));
    assert_eq!(decode(0xF715), Some(Instruction::SetDelayTimer { x: 7 }));
    assert_eq!(decode(0xF718), Some(Instruction::SetSoundTimer { x: 7 }));
    assert_eq!(decode(0xF71E), Some(Instruction::AddToIndex { x: 7 }));
    assert_eq!(decode(0xF029), Some(Instruction::FontAddress { x: 0 }));
    assert_eq!(decode(0xF733), Some(Instruction::DecimalDigits { x: 7 }));
    assert_eq!(decode(0xF755), Some(Instruction::StoreRegisters { x: 7 }));
    assert_eq!(decode(0xFF65), Some(Instruction::LoadRegisters { x: 0xF }));
}

#[test]
fn decode_rejects_unmatched_patterns() {
    for opcode in [
        0x0000u16, 0x00E1, 0x00ED, 0x0123, 0x01E0, 0x0FFF, 0x5001, 0x512F, 0x8008, 0x8129, 0x812A,
        0x812F, 0x9001, 0x912F, 0xE000, 0xE09F, 0xE0A0, 0xE19D, 0xF000, 0xF008, 0xF016, 0xF01F,
        0xF030, 0xF034, 0xF056, 0xF064, 0xF066, 0xF0FF, 0xFFFF,
    ] {
        assert_eq!(decode(opcode), None, "opcode {opcode:#06x}");
    }
}

fn encode(instruction: Instruction) -> u16 {
    let xy = |family: u16, x: u8, y: u8, low: u16| {
        family << 12 | (x as u16) << 8 | (y as u16) << 4 | low
    };
    match instruction {
        Instruction::ClearScreen => 0x00E0,
        Instruction::Return => 0x00EE,
        Instruction::Jump { address } => 0x1000 | address,
        Instruction::Call { address } => 0x2000 | address,
        Instruction::SkipIfEqual { x, value } => xy(0x3, x, 0, value as u16),
        Instruction::SkipIfNotEqual { x, value } => xy(0x4, x, 0, value as u16),
        Instruction::SkipIfRegistersEqual { x, y } => xy(0x5, x, y, 0x0),
        Instruction::LoadImmediate { x, value } => xy(0x6, x, 0, value as u16),
        Instruction::AddImmediate { x, value } => xy(0x7, x, 0, value as u16),
        Instruction::Move { x, y } => xy(0x8, x, y, 0x0),
        Instruction::Or { x, y } => xy(0x8, x, y, 0x1),
        Instruction::And { x, y } => xy(0x8, x, y, 0x2),
        Instruction::Xor { x, y } => xy(0x8, x, y, 0x3),
        Instruction::Add { x, y } => xy(0x8, x, y, 0x4),
        Instruction::Subtract { x, y } => xy(0x8, x, y, 0x5),
        Instruction::ShiftRight { x, y } => xy(0x8, x, y, 0x6),
        Instruction::SubtractReversed { x, y } => xy(0x8, x, y, 0x7),
        Instruction::ShiftLeft { x, y } => xy(0x8, x, y, 0xE),
        Instruction::SkipIfRegistersNotEqual { x, y } => xy(0x9, x, y, 0x0),
        Instruction::LoadIndex { address } => 0xA000 | address,
        Instruction::JumpOffset { address } => 0xB000 | address,
        Instruction::Random { x, value } => xy(0xC, x, 0, value as u16),
        Instruction::Draw { x, y, rows } => xy(0xD, x, y, rows as u16),
        Instruction::SkipIfKeyPressed { x } => xy(0xE, x, 0x9, 0xE),
        Instruction::SkipIfKeyNotPressed { x } => xy(0xE, x, 0xA, 0x1),
        Instruction::LoadDelayTimer { x } => xy(0xF, x, 0x0, 0x7),
        Instruction::WaitForKey { x } => xy(0xF, x, 0x0, 0xA),
        Instruction::SetDelayTimer { x } => xy(0xF, x, 0x1, 0x5),
        Instruction::SetSoundTimer { x } => xy(0xF, x, 0x1, 0x8),
        Instruction::AddToIndex { x } => xy(0xF, x, 0x1, 0xE),
        Instruction::FontAddress { x } => xy(0xF, x, 0x2, 0x9),
        Instruction::DecimalDigits { x } => xy(0xF, x, 0x3, 0x3),
        Instruction::StoreRegisters { x } => xy(0xF, x, 0x5, 0x5),
        Instruction::LoadRegisters { x } => xy(0xF, x, 0x6, 0x5),
    }
}

#[test]
fn every_decoded_opcode_encodes_back() {
    let mut decoded = 0u32;
    for opcode in 0..=0xFFFFu16 {
        if let Some(instruction) = decode(opcode) {
            assert_eq!(encode(instruction), opcode, "opcode {opcode:#06x}");
            decoded += 1;
        }
    }
    // 2 fixed, 10 families of 4096, 11 of 256 and 11 of 16 opcodes
    assert_eq!(decoded, 2 + 10 * 4096 + 11 * 256 + 11 * 16);
}
