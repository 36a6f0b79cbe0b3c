//! The instruction set: one variant per operation, and the 16-bit encoding.

use vstd::prelude::*;

verus! {

/// One decoded instruction. `x` and `y` name general registers, `value` is
/// an 8-bit immediate and `address` a 12-bit one.
#[derive(Clone, Copy, Debug, PartialEq, Eq, Structural)]
pub enum Instruction {
    /// `00E0`: turn every pixel off.
    ClearScreen,
    /// `00EE`: return from a subroutine.
    Return,
    /// `1NNN`: continue at `address`.
    Jump { address: u16 },
    /// `2NNN`: call the subroutine at `address`.
    Call { address: u16 },
    /// `3XNN`: skip the next instruction if register `x` equals `value`.
    SkipIfEqual { x: u8, value: u8 },
    /// `4XNN`: skip the next instruction if register `x` differs from `value`.
    SkipIfNotEqual { x: u8, value: u8 },
    /// `5XY0`: skip the next instruction if registers `x` and `y` are equal.
    SkipIfRegistersEqual { x: u8, y: u8 },
    /// `6XNN`: put `value` in register `x`.
    LoadImmediate { x: u8, value: u8 },
    /// `7XNN`: add `value` to register `x`, without touching the flag.
    AddImmediate { x: u8, value: u8 },
    /// `8XY0`: copy register `y` to register `x`.
    Move { x: u8, y: u8 },
    /// `8XY1`: bitwise or of registers `x` and `y`, into `x`.
    Or { x: u8, y: u8 },
    /// `8XY2`: bitwise and of registers `x` and `y`, into `x`.
    And { x: u8, y: u8 },
    /// `8XY3`: bitwise exclusive or of registers `x` and `y`, into `x`.
    Xor { x: u8, y: u8 },
    /// `8XY4`: add register `y` to register `x`; the flag tells a carry.
    Add { x: u8, y: u8 },
    /// `8XY5`: subtract register `y` from register `x`; the flag tells
    /// that there was no borrow.
    Subtract { x: u8, y: u8 },
    /// `8XY6`: register `y` shifted right by one, into `x`; the flag gets
    /// the bit shifted out.
    ShiftRight { x: u8, y: u8 },
    /// `8XY7`: register `y` minus register `x`, into `x`; the flag tells
    /// that there was no borrow.
    SubtractReversed { x: u8, y: u8 },
    /// `8XYE`: register `y` shifted left by one, into `x`; the flag gets
    /// the bit shifted out.
    ShiftLeft { x: u8, y: u8 },
    /// `9XY0`: skip the next instruction if registers `x` and `y` differ.
    SkipIfRegistersNotEqual { x: u8, y: u8 },
    /// `ANNN`: put `address` in the index register.
    LoadIndex { address: u16 },
    /// `BNNN`: continue at `address` plus register 0.
    JumpOffset { address: u16 },
    /// `CXNN`: put a random byte, masked by `value`, in register `x`.
    Random { x: u8, value: u8 },
    /// `DXYN`: draw the sprite of `rows` bytes at the index register, at
    /// the position held by registers `x` and `y`.
    Draw { x: u8, y: u8, rows: u8 },
    /// `EX9E`: skip the next instruction if the key named by register `x`
    /// is down.
    SkipIfKeyPressed { x: u8 },
    /// `EXA1`: skip the next instruction if the key named by register `x`
    /// is up.
    SkipIfKeyNotPressed { x: u8 },
    /// `FX07`: copy the delay timer to register `x`.
    LoadDelayTimer { x: u8 },
    /// `FX0A`: wait for a key and put its number in register `x`.
    WaitForKey { x: u8 },
    /// `FX15`: copy register `x` to the delay timer.
    SetDelayTimer { x: u8 },
    /// `FX18`: copy register `x` to the sound timer.
    SetSoundTimer { x: u8 },
    /// `FX1E`: add register `x` to the index register.
    AddToIndex { x: u8 },
    /// `FX29`: point the index register at the glyph for the low nibble of
    /// register `x`.
    FontAddress { x: u8 },
    /// `FX33`: write the three decimal digits of register `x` at the index
    /// register.
    DecimalDigits { x: u8 },
    /// `FX55`: write registers 0 to `x` at the index register.
    StoreRegisters { x: u8 },
    /// `FX65`: read registers 0 to `x` from the index register.
    LoadRegisters { x: u8 },
}

/// The opcode made of the four nibbles `a`, `b`, `c`, `d`, `a` the highest.
pub open spec fn nibbles(a: int, b: int, c: int, d: int) -> int {
    a * 0x1000 + b * 0x100 + c * 0x10 + d
}

impl Instruction {
    /// Register numbers are below 16, addresses below `0x1000`, and a
    /// sprite has fewer than 16 rows.
    pub open spec fn wf(self) -> bool {
        match self {
            Instruction::ClearScreen | Instruction::Return => true,
            Instruction::Jump { address }
            | Instruction::Call { address }
            | Instruction::LoadIndex { address }
            | Instruction::JumpOffset { address } => address < 0x1000,
            Instruction::SkipIfEqual { x, .. }
            | Instruction::SkipIfNotEqual { x, .. }
            | Instruction::LoadImmediate { x, .. }
            | Instruction::AddImmediate { x, .. }
            | Instruction::Random { x, .. } => x < 16,
            Instruction::SkipIfRegistersEqual { x, y }
            | Instruction::Move { x, y }
            | Instruction::Or { x, y }
            | Instruction::And { x, y }
            | Instruction::Xor { x, y }
            | Instruction::Add { x, y }
            | Instruction::Subtract { x, y }
            | Instruction::ShiftRight { x, y }
            | Instruction::SubtractReversed { x, y }
            | Instruction::ShiftLeft { x, y }
            | Instruction::SkipIfRegistersNotEqual { x, y } => x < 16 && y < 16,
            Instruction::Draw { x, y, rows } => x < 16 && y < 16 && rows < 16,
            Instruction::SkipIfKeyPressed { x }
            | Instruction::SkipIfKeyNotPressed { x }
            | Instruction::LoadDelayTimer { x }
            | Instruction::WaitForKey { x }
            | Instruction::SetDelayTimer { x }
            | Instruction::SetSoundTimer { x }
            | Instruction::AddToIndex { x }
            | Instruction::FontAddress { x }
            | Instruction::DecimalDigits { x }
            | Instruction::StoreRegisters { x }
            | Instruction::LoadRegisters { x } => x < 16,
        }
    }

    /// The 16-bit opcode of a well-formed instruction.
    pub open spec fn encode(self) -> int {
        match self {
            Instruction::ClearScreen => 0x00E0,
            Instruction::Return => 0x00EE,
            Instruction::Jump { address } => 0x1000 + address,
            Instruction::Call { address } => 0x2000 + address,
            Instruction::SkipIfEqual { x, value } => 0x3000 + x * 0x100 + value,
            Instruction::SkipIfNotEqual { x, value } => 0x4000 + x * 0x100 + value,
            Instruction::SkipIfRegistersEqual { x, y } => nibbles(0x5, x as int, y as int, 0x0),
            Instruction::LoadImmediate { x, value } => 0x6000 + x * 0x100 + value,
            Instruction::AddImmediate { x, value } => 0x7000 + x * 0x100 + value,
            Instruction::Move { x, y } => nibbles(0x8, x as int, y as int, 0x0),
            Instruction::Or { x, y } => nibbles(0x8, x as int, y as int, 0x1),
            Instruction::And { x, y } => nibbles(0x8, x as int, y as int, 0x2),
            Instruction::Xor { x, y } => nibbles(0x8, x as int, y as int, 0x3),
            Instruction::Add { x, y } => nibbles(0x8, x as int, y as int, 0x4),
            Instruction::Subtract { x, y } => nibbles(0x8, x as int, y as int, 0x5),
            Instruction::ShiftRight { x, y } => nibbles(0x8, x as int, y as int, 0x6),
            Instruction::SubtractReversed { x, y } => nibbles(0x8, x as int, y as int, 0x7),
            Instruction::ShiftLeft { x, y } => nibbles(0x8, x as int, y as int, 0xE),
            Instruction::SkipIfRegistersNotEqual { x, y } => nibbles(0x9, x as int, y as int, 0x0),
            Instruction::LoadIndex { address } => 0xA000 + address,
            Instruction::JumpOffset { address } => 0xB000 + address,
            Instruction::Random { x, value } => 0xC000 + x * 0x100 + value,
            Instruction::Draw { x, y, rows } => nibbles(0xD, x as int, y as int, rows as int),
            Instruction::SkipIfKeyPressed { x } => nibbles(0xE, x as int, 0x9, 0xE),
            Instruction::SkipIfKeyNotPressed { x } => nibbles(0xE, x as int, 0xA, 0x1),
            Instruction::LoadDelayTimer { x } => nibbles(0xF, x as int, 0x0, 0x7),
            Instruction::WaitForKey { x } => nibbles(0xF, x as int, 0x0, 0xA),
            Instruction::SetDelayTimer { x } => nibbles(0xF, x as int, 0x1, 0x5),
            Instruction::SetSoundTimer { x } => nibbles(0xF, x as int, 0x1, 0x8),
            Instruction::AddToIndex { x } => nibbles(0xF, x as int, 0x1, 0xE),
            Instruction::FontAddress { x } => nibbles(0xF, x as int, 0x2, 0x9),
            Instruction::DecimalDigits { x } => nibbles(0xF, x as int, 0x3, 0x3),
            Instruction::StoreRegisters { x } => nibbles(0xF, x as int, 0x5, 0x5),
            Instruction::LoadRegisters { x } => nibbles(0xF, x as int, 0x6, 0x5),
        }
    }
}

/// The instruction that `opcode` stands for, if any: the well-formed
/// instruction whose encoding it is.
pub open spec fn decoded(opcode: u16) -> Option<Instruction> {
    if exists|instruction: Instruction| instruction.wf() && #[trigger] instruction.encode() == opcode {
        Some(choose|instruction: Instruction| instruction.wf() && #[trigger] instruction.encode() == opcode)
    } else {
        None
    }
}

/// The instruction selected by the four nibbles of an opcode.
spec fn by_nibbles(first_nibble: u8, x: u8, y: u8, fourth_nibble: u8) -> Option<Instruction> {
    let value = (y * 0x10 + fourth_nibble) as u8;
    let address = (x * 0x100 + y * 0x10 + fourth_nibble) as u16;
    match (first_nibble, x, y, fourth_nibble) {
        (0x0, 0x0, 0xE, 0x0) => Some(Instruction::ClearScreen),
        (0x0, 0x0, 0xE, 0xE) => Some(Instruction::Return),
        (0x1, _, _, _) => Some(Instruction::Jump { address }),
        (0x2, _, _, _) => Some(Instruction::Call { address }),
        (0x3, _, _, _) => Some(Instruction::SkipIfEqual { x, value }),
        (0x4, _, _, _) => Some(Instruction::SkipIfNotEqual { x, value }),
        (0x5, _, _, 0x0) => Some(Instruction::SkipIfRegistersEqual { x, y }),
        (0x6, _, _, _) => Some(Instruction::LoadImmediate { x, value }),
        (0x7, _, _, _) => Some(Instruction::AddImmediate { x, value }),
        (0x8, _, _, 0x0) => Some(Instruction::Move { x, y }),
        (0x8, _, _, 0x1) => Some(Instruction::Or { x, y }),
        (0x8, _, _, 0x2) => Some(Instruction::And { x, y }),
        (0x8, _, _, 0x3) => Some(Instruction::Xor { x, y }),
        (0x8, _, _, 0x4) => Some(Instruction::Add { x, y }),
        (0x8, _, _, 0x5) => Some(Instruction::Subtract { x, y }),
        (0x8, _, _, 0x6) => Some(Instruction::ShiftRight { x, y }),
        (0x8, _, _, 0x7) => Some(Instruction::SubtractReversed { x, y }),
        (0x8, _, _, 0xE) => Some(Instruction::ShiftLeft { x, y }),
        (0x9, _, _, 0x0) => Some(Instruction::SkipIfRegistersNotEqual { x, y }),
        (0xA, _, _, _) => Some(Instruction::LoadIndex { address }),
        (0xB, _, _, _) => Some(Instruction::JumpOffset { address }),
        (0xC, _, _, _) => Some(Instruction::Random { x, value }),
        (0xD, _, _, _) => Some(Instruction::Draw { x, y, rows: fourth_nibble }),
        (0xE, _, 0x9, 0xE) => Some(Instruction::SkipIfKeyPressed { x }),
        (0xE, _, 0xA, 0x1) => Some(Instruction::SkipIfKeyNotPressed { x }),
        (0xF, _, 0x0, 0x7) => Some(Instruction::LoadDelayTimer { x }),
        (0xF, _, 0x1, 0x5) => Some(Instruction::SetDelayTimer { x }),
        (0xF, _, 0x1, 0x8) => Some(Instruction::SetSoundTimer { x }),
        (0xF, _, 0x1, 0xE) => Some(Instruction::AddToIndex { x }),
        (0xF, _, 0x0, 0xA) => Some(Instruction::WaitForKey { x }),
        (0xF, _, 0x2, 0x9) => Some(Instruction::FontAddress { x }),
        (0xF, _, 0x3, 0x3) => Some(Instruction::DecimalDigits { x }),
        (0xF, _, 0x5, 0x5) => Some(Instruction::StoreRegisters { x }),
        (0xF, _, 0x6, 0x5) => Some(Instruction::LoadRegisters { x }),
        _ => None,
    }
}

/// What the nibbles select encodes back to them.
proof fn lemma_by_nibbles_sound(a: u8, b: u8, c: u8, d: u8)
    requires
        a < 16,
        b < 16,
        c < 16,
        d < 16,
    ensures
        by_nibbles(a, b, c, d) matches Some(instruction) ==> instruction.wf()
            && instruction.encode() == nibbles(a as int, b as int, c as int, d as int),
{
}

/// A well-formed instruction is selected by the nibbles of its encoding.
proof fn lemma_by_nibbles_complete(a: u8, b: u8, c: u8, d: u8, instruction: Instruction)
    requires
        a < 16,
        b < 16,
        c < 16,
        d < 16,
        instruction.wf(),
        instruction.encode() == nibbles(a as int, b as int, c as int, d as int),
    ensures
        by_nibbles(a, b, c, d) == Some(instruction),
{
    let low = b * 0x100 + c * 0x10 + d;
    assert(0 <= low < 0x1000);
    match instruction {
        Instruction::ClearScreen => {
            assert(a == 0x0 && b == 0x0 && c == 0xE && d == 0x0);
        },
        Instruction::Return => {
            assert(a == 0x0 && b == 0x0 && c == 0xE && d == 0xE);
        },
        Instruction::Jump { address } => {
            assert(a == 0x1 && address == low);
        },
        Instruction::Call { address } => {
            assert(a == 0x2 && address == low);
        },
        Instruction::LoadIndex { address } => {
            assert(a == 0xA && address == low);
        },
        Instruction::JumpOffset { address } => {
            assert(a == 0xB && address == low);
        },
        Instruction::SkipIfEqual { x, value } => {
            assert(a == 0x3 && x == b && value == c * 0x10 + d);
        },
        Instruction::SkipIfNotEqual { x, value } => {
            assert(a == 0x4 && x == b && value == c * 0x10 + d);
        },
        Instruction::LoadImmediate { x, value } => {
            assert(a == 0x6 && x == b && value == c * 0x10 + d);
        },
        Instruction::AddImmediate { x, value } => {
            assert(a == 0x7 && x == b && value == c * 0x10 + d);
        },
        Instruction::Random { x, value } => {
            assert(a == 0xC && x == b && value == c * 0x10 + d);
        },
        Instruction::SkipIfRegistersEqual { x, y } => {
            assert(a == 0x5 && x == b && y == c && d == 0x0);
        },
        Instruction::SkipIfRegistersNotEqual { x, y } => {
            assert(a == 0x9 && x == b && y == c && d == 0x0);
        },
        Instruction::Draw { x, y, rows } => {
            assert(a == 0xD && x == b && y == c && d == rows);
        },
        Instruction::Move { x, y } => {
            assert(a == 0x8 && x == b && y == c && d == 0x0);
        },
        Instruction::Or { x, y } => {
            assert(a == 0x8 && x == b && y == c && d == 0x1);
        },
        Instruction::And { x, y } => {
            assert(a == 0x8 && x == b && y == c && d == 0x2);
        },
        Instruction::Xor { x, y } => {
            assert(a == 0x8 && x == b && y == c && d == 0x3);
        },
        Instruction::Add { x, y } => {
            assert(a == 0x8 && x == b && y == c && d == 0x4);
        },
        Instruction::Subtract { x, y } => {
            assert(a == 0x8 && x == b && y == c && d == 0x5);
        },
        Instruction::ShiftRight { x, y } => {
            assert(a == 0x8 && x == b && y == c && d == 0x6);
        },
        Instruction::SubtractReversed { x, y } => {
            assert(a == 0x8 && x == b && y == c && d == 0x7);
        },
        Instruction::ShiftLeft { x, y } => {
            assert(a == 0x8 && x == b && y == c && d == 0xE);
        },
        Instruction::SkipIfKeyPressed { x } => {
            assert(a == 0xE && x == b && c == 0x9 && d == 0xE);
        },
        Instruction::SkipIfKeyNotPressed { x } => {
            assert(a == 0xE && x == b && c == 0xA && d == 0x1);
        },
        Instruction::LoadDelayTimer { x } => {
            assert(a == 0xF && x == b && c == 0x0 && d == 0x7);
        },
        Instruction::WaitForKey { x } => {
            assert(a == 0xF && x == b && c == 0x0 && d == 0xA);
        },
        Instruction::SetDelayTimer { x } => {
            assert(a == 0xF && x == b && c == 0x1 && d == 0x5);
        },
        Instruction::SetSoundTimer { x } => {
            assert(a == 0xF && x == b && c == 0x1 && d == 0x8);
        },
        Instruction::AddToIndex { x } => {
            assert(a == 0xF && x == b && c == 0x1 && d == 0xE);
        },
        Instruction::FontAddress { x } => {
            assert(a == 0xF && x == b && c == 0x2 && d == 0x9);
        },
        Instruction::DecimalDigits { x } => {
            assert(a == 0xF && x == b && c == 0x3 && d == 0x3);
        },
        Instruction::StoreRegisters { x } => {
            assert(a == 0xF && x == b && c == 0x5 && d == 0x5);
        },
        Instruction::LoadRegisters { x } => {
            assert(a == 0xF && x == b && c == 0x6 && d == 0x5);
        },
    }
}

/// Every opcode is made of four nibbles.
proof fn lemma_split(opcode: u16) -> (r: (u8, u8, u8, u8))
    ensures
        r.0 < 16,
        r.1 < 16,
        r.2 < 16,
        r.3 < 16,
        opcode == nibbles(r.0 as int, r.1 as int, r.2 as int, r.3 as int),
{
    let a = (opcode & 0xF000) >> 12;
    let b = (opcode & 0x0F00) >> 8;
    let c = (opcode & 0x00F0) >> 4;
    let d = opcode & 0x000F;
    assert(a < 16 && b < 16 && c < 16 && d < 16 && opcode == a * 0x1000 + b * 0x100 + c * 0x10 + d)
        by (bit_vector)
        requires
            a == (opcode & 0xF000) >> 12,
            b == (opcode & 0x0F00) >> 8,
            c == (opcode & 0x00F0) >> 4,
            d == opcode & 0x000F,
    ;
    (a as u8, b as u8, c as u8, d as u8)
}

/// The encoding of a well-formed instruction fits in sixteen bits.
pub proof fn lemma_encode_range(instruction: Instruction)
    requires
        instruction.wf(),
    ensures
        0 <= instruction.encode() < 0x1_0000,
{
}

/// No two well-formed instructions share an opcode.
pub proof fn lemma_encode_injective(first: Instruction, second: Instruction)
    requires
        first.wf(),
        second.wf(),
        first.encode() == second.encode(),
    ensures
        first == second,
{
    lemma_encode_range(first);
    let (a, b, c, d) = lemma_split(first.encode() as u16);
    lemma_by_nibbles_complete(a, b, c, d, first);
    lemma_by_nibbles_complete(a, b, c, d, second);
}

/// Decoding is the inverse of encoding: the opcode of a well-formed
/// instruction stands for that instruction and no other.
pub proof fn lemma_decoded_encode(instruction: Instruction)
    requires
        instruction.wf(),
    ensures
        0 <= instruction.encode() < 0x1_0000,
        decoded(instruction.encode() as u16) == Some(instruction),
{
    lemma_encode_range(instruction);
    let opcode = instruction.encode() as u16;
    let chosen = choose|other: Instruction| other.wf() && #[trigger] other.encode() == opcode;
    lemma_encode_injective(instruction, chosen);
}

/// Splits `opcode` into its fields and finds the instruction it encodes;
/// `None` for a pattern that encodes none.
pub fn decode(opcode: u16) -> (r: Option<Instruction>)
    ensures
        r == decoded(opcode),
        r matches Some(instruction) ==> instruction.wf() && instruction.encode() == opcode,
        r is None ==> forall|instruction: Instruction|
            instruction.wf() ==> #[trigger] instruction.encode() != opcode,
{
    let first_nibble = ((opcode & 0xF000) >> 12) as u8;
    let x = ((opcode & 0x0F00) >> 8) as u8;
    let y = ((opcode & 0x00F0) >> 4) as u8;
    let fourth_nibble = (opcode & 0x000F) as u8;
    let value = (opcode & 0x00FF) as u8;
    let address = opcode & 0x0FFF;
    proof {
        let a = (opcode & 0xF000) >> 12;
        let b = (opcode & 0x0F00) >> 8;
        let c = (opcode & 0x00F0) >> 4;
        let d = opcode & 0x000F;
        assert(a < 16 && b < 16 && c < 16 && d < 16 && opcode == a * 0x1000 + b * 0x100 + c * 0x10
            + d && opcode & 0x00FF == c * 0x10 + d && opcode & 0x0FFF == b * 0x100 + c * 0x10 + d)
            by (bit_vector)
            requires
                a == (opcode & 0xF000) >> 12,
                b == (opcode & 0x0F00) >> 8,
                c == (opcode & 0x00F0) >> 4,
                d == opcode & 0x000F,
        ;
    }
    let r = match (first_nibble, x, y, fourth_nibble) {
        (0x0, 0x0, 0xE, 0x0) => Some(Instruction::ClearScreen),
        (0x0, 0x0, 0xE, 0xE) => Some(Instruction::Return),
        (0x1, _, _, _) => Some(Instruction::Jump { address }),
        (0x2, _, _, _) => Some(Instruction::Call { address }),
        (0x3, _, _, _) => Some(Instruction::SkipIfEqual { x, value }),
        (0x4, _, _, _) => Some(Instruction::SkipIfNotEqual { x, value }),
        (0x5, _, _, 0x0) => Some(Instruction::SkipIfRegistersEqual { x, y }),
        (0x6, _, _, _) => Some(Instruction::LoadImmediate { x, value }),
        (0x7, _, _, _) => Some(Instruction::AddImmediate { x, value }),
        (0x8, _, _, 0x0) => Some(Instruction::Move { x, y }),
        (0x8, _, _, 0x1) => Some(Instruction::Or { x, y }),
        (0x8, _, _, 0x2) => Some(Instruction::And { x, y }),
        (0x8, _, _, 0x3) => Some(Instruction::Xor { x, y }),
        (0x8, _, _, 0x4) => Some(Instruction::Add { x, y }),
        (0x8, _, _, 0x5) => Some(Instruction::Subtract { x, y }),
        (0x8, _, _, 0x6) => Some(Instruction::ShiftRight { x, y }),
        (0x8, _, _, 0x7) => Some(Instruction::SubtractReversed { x, y }),
        (0x8, _, _, 0xE) => Some(Instruction::ShiftLeft { x, y }),
        (0x9, _, _, 0x0) => Some(Instruction::SkipIfRegistersNotEqual { x, y }),
        (0xA, _, _, _) => Some(Instruction::LoadIndex { address }),
        (0xB, _, _, _) => Some(Instruction::JumpOffset { address }),
        (0xC, _, _, _) => Some(Instruction::Random { x, value }),
        (0xD, _, _, _) => Some(Instruction::Draw { x, y, rows: fourth_nibble }),
        (0xE, _, 0x9, 0xE) => Some(Instruction::SkipIfKeyPressed { x }),
        (0xE, _, 0xA, 0x1) => Some(Instruction::SkipIfKeyNotPressed { x }),
        (0xF, _, 0x0, 0x7) => Some(Instruction::LoadDelayTimer { x }),
        (0xF, _, 0x1, 0x5) => Some(Instruction::SetDelayTimer { x }),
        (0xF, _, 0x1, 0x8) => Some(Instruction::SetSoundTimer { x }),
        (0xF, _, 0x1, 0xE) => Some(Instruction::AddToIndex { x }),
        (0xF, _, 0x0, 0xA) => Some(Instruction::WaitForKey { x }),
        (0xF, _, 0x2, 0x9) => Some(Instruction::FontAddress { x }),
        (0xF, _, 0x3, 0x3) => Some(Instruction::DecimalDigits { x }),
        (0xF, _, 0x5, 0x5) => Some(Instruction::StoreRegisters { x }),
        (0xF, _, 0x6, 0x5) => Some(Instruction::LoadRegisters { x }),
        _ => None,
    };
    proof {
        assert(r == by_nibbles(first_nibble, x, y, fourth_nibble));
        lemma_by_nibbles_sound(first_nibble, x, y, fourth_nibble);
        assert forall|instruction: Instruction| instruction.wf() && #[trigger] instruction.encode()
            == opcode implies r == Some(instruction) by {
            lemma_by_nibbles_complete(first_nibble, x, y, fourth_nibble, instruction);
        }
    }
    r
}

} // verus!
