//! The instruction set and its decoder.
//!
//! An instruction word has sixteen bits. Its top four bits select a family;
//! the rest are read as `x` (bits 8 to 11), `y` (bits 4 to 7), `n` (bits 0 to
//! 3), `nn` (bits 0 to 7) or `nnn` (bits 0 to 11), as the family asks.

use vstd::prelude::*;

verus! {

/// One decoded instruction. `x` and `y` name registers, `addr` is a twelve-bit
/// address.
#[derive(Clone, Copy, Debug, PartialEq, Eq, Structural)]
pub enum Instruction {
    /// `0NNN`: call host machine code. Kept for completeness; it has no effect.
    Sys { addr: u16 },
    /// `00E0`: clear the display.
    ClearScreen,
    /// `00EE`: return from a subroutine.
    Return,
    /// `1NNN`: jump to `addr`.
    Jump { addr: u16 },
    /// `2NNN`: call the subroutine at `addr`.
    Call { addr: u16 },
    /// `3XNN`: skip the next instruction if `Vx == byte`.
    SkipEqByte { x: u8, byte: u8 },
    /// `4XNN`: skip the next instruction if `Vx != byte`.
    SkipNeByte { x: u8, byte: u8 },
    /// `5XY0`: skip the next instruction if `Vx == Vy`.
    SkipEqReg { x: u8, y: u8 },
    /// `6XNN`: `Vx = byte`.
    LoadByte { x: u8, byte: u8 },
    /// `7XNN`: `Vx = Vx + byte`, wrapping, flag untouched.
    AddByte { x: u8, byte: u8 },
    /// `8XY0`: `Vx = Vy`.
    Move { x: u8, y: u8 },
    /// `8XY1`: `Vx = Vx | Vy`.
    Or { x: u8, y: u8 },
    /// `8XY2`: `Vx = Vx & Vy`.
    And { x: u8, y: u8 },
    /// `8XY3`: `Vx = Vx ^ Vy`.
    Xor { x: u8, y: u8 },
    /// `8XY4`: `Vx = Vx + Vy`, wrapping; `VF` is the carry.
    Add { x: u8, y: u8 },
    /// `8XY5`: `Vx = Vx - Vy`, wrapping; `VF` is 1 unless a borrow occurred.
    Sub { x: u8, y: u8 },
    /// `8XY6`: `Vx = Vx >> 1`; `VF` is the bit shifted out.
    ShiftRight { x: u8, y: u8 },
    /// `8XY7`: `Vx = Vy - Vx`, wrapping; `VF` is 1 unless a borrow occurred.
    SubFrom { x: u8, y: u8 },
    /// `8XYE`: `Vx = Vx << 1`; `VF` is the bit shifted out.
    ShiftLeft { x: u8, y: u8 },
    /// `9XY0`: skip the next instruction if `Vx != Vy`.
    SkipNeReg { x: u8, y: u8 },
    /// `ANNN`: `I = addr`.
    LoadIndex { addr: u16 },
    /// `BNNN`: jump to `addr + V0`.
    JumpOffset { addr: u16 },
    /// `CXNN`: `Vx = random & mask`.
    Random { x: u8, mask: u8 },
    /// `DXYN`: draw the `rows`-byte sprite at `I` at `(Vx, Vy)`.
    Draw { x: u8, y: u8, rows: u8 },
    /// `EX9E`: skip the next instruction if key `Vx` is pressed.
    SkipKey { x: u8 },
    /// `EXA1`: skip the next instruction if key `Vx` is not pressed.
    SkipNoKey { x: u8 },
    /// `FX07`: `Vx = delay timer`.
    ReadDelay { x: u8 },
    /// `FX0A`: wait for a key press and store the key in `Vx`.
    WaitKey { x: u8 },
    /// `FX15`: `delay timer = Vx`.
    SetDelay { x: u8 },
    /// `FX18`: `sound timer = Vx`.
    SetSound { x: u8 },
    /// `FX1E`: `I = I + Vx`, wrapping at sixteen bits.
    AddIndex { x: u8 },
    /// `FX29`: `I` = address of the font sprite of digit `Vx`.
    Glyph { x: u8 },
    /// `FX33`: store the three decimal digits of `Vx` at `I`, `I+1`, `I+2`.
    Bcd { x: u8 },
    /// `FX55`: store `V0..=Vx` in memory from `I`.
    Store { x: u8 },
    /// `FX65`: load `V0..=Vx` from memory from `I`.
    Load { x: u8 },
    /// A word that is none of the above.
    Unknown(u16),
}

/// Bits 12 to 15 of a word: the family.
pub open spec fn field_op(word: u16) -> u8 {
    (word / 4096) as u8
}

/// Bits 8 to 11 of a word.
pub open spec fn field_x(word: u16) -> u8 {
    (word / 256 % 16) as u8
}

/// Bits 4 to 7 of a word.
pub open spec fn field_y(word: u16) -> u8 {
    (word / 16 % 16) as u8
}

/// Bits 0 to 3 of a word.
pub open spec fn field_n(word: u16) -> u8 {
    (word % 16) as u8
}

/// Bits 0 to 7 of a word.
pub open spec fn field_nn(word: u16) -> u8 {
    (word % 256) as u8
}

/// Bits 0 to 11 of a word.
pub open spec fn field_nnn(word: u16) -> u16 {
    word % 4096
}

/// The instruction that a word of the `8XYN` family stands for.
pub open spec fn decoding_alu(word: u16) -> Instruction {
    let x = field_x(word);
    let y = field_y(word);
    let n = field_n(word);
    if n == 0x0 {
        Instruction::Move { x, y }
    } else if n == 0x1 {
        Instruction::Or { x, y }
    } else if n == 0x2 {
        Instruction::And { x, y }
    } else if n == 0x3 {
        Instruction::Xor { x, y }
    } else if n == 0x4 {
        Instruction::Add { x, y }
    } else if n == 0x5 {
        Instruction::Sub { x, y }
    } else if n == 0x6 {
        Instruction::ShiftRight { x, y }
    } else if n == 0x7 {
        Instruction::SubFrom { x, y }
    } else if n == 0xE {
        Instruction::ShiftLeft { x, y }
    } else {
        Instruction::Unknown(word)
    }
}

/// The instruction that a word of the `FXNN` family stands for.
pub open spec fn decoding_misc(word: u16) -> Instruction {
    let x = field_x(word);
    let nn = field_nn(word);
    if nn == 0x07 {
        Instruction::ReadDelay { x }
    } else if nn == 0x0A {
        Instruction::WaitKey { x }
    } else if nn == 0x15 {
        Instruction::SetDelay { x }
    } else if nn == 0x18 {
        Instruction::SetSound { x }
    } else if nn == 0x1E {
        Instruction::AddIndex { x }
    } else if nn == 0x29 {
        Instruction::Glyph { x }
    } else if nn == 0x33 {
        Instruction::Bcd { x }
    } else if nn == 0x55 {
        Instruction::Store { x }
    } else if nn == 0x65 {
        Instruction::Load { x }
    } else {
        Instruction::Unknown(word)
    }
}

/// The instruction that a word stands for. Each family is looked at once, so
/// no word has two readings; a word that fits no pattern is `Unknown`.
pub open spec fn decoding(word: u16) -> Instruction {
    let op = field_op(word);
    let x = field_x(word);
    let y = field_y(word);
    let n = field_n(word);
    let nn = field_nn(word);
    let nnn = field_nnn(word);
    if op == 0x0 {
        if nnn == 0x0E0 {
            Instruction::ClearScreen
        } else if nnn == 0x0EE {
            Instruction::Return
        } else {
            Instruction::Sys { addr: nnn }
        }
    } else if op == 0x1 {
        Instruction::Jump { addr: nnn }
    } else if op == 0x2 {
        Instruction::Call { addr: nnn }
    } else if op == 0x3 {
        Instruction::SkipEqByte { x, byte: nn }
    } else if op == 0x4 {
        Instruction::SkipNeByte { x, byte: nn }
    } else if op == 0x5 {
        if n == 0 {
            Instruction::SkipEqReg { x, y }
        } else {
            Instruction::Unknown(word)
        }
    } else if op == 0x6 {
        Instruction::LoadByte { x, byte: nn }
    } else if op == 0x7 {
        Instruction::AddByte { x, byte: nn }
    } else if op == 0x8 {
        decoding_alu(word)
    } else if op == 0x9 {
        if n == 0 {
            Instruction::SkipNeReg { x, y }
        } else {
            Instruction::Unknown(word)
        }
    } else if op == 0xA {
        Instruction::LoadIndex { addr: nnn }
    } else if op == 0xB {
        Instruction::JumpOffset { addr: nnn }
    } else if op == 0xC {
        Instruction::Random { x, mask: nn }
    } else if op == 0xD {
        Instruction::Draw { x, y, rows: n }
    } else if op == 0xE {
        if nn == 0x9E {
            Instruction::SkipKey { x }
        } else if nn == 0xA1 {
            Instruction::SkipNoKey { x }
        } else {
            Instruction::Unknown(word)
        }
    } else {
        decoding_misc(word)
    }
}

impl Instruction {
    /// Whether the instruction's fields are in range: a register below 16, an
    /// address below 4096, a sprite height below 16. `Sys` excludes the two
    /// addresses that mean something else, and `Unknown` holds only words
    /// that fit no pattern.
    pub open spec fn well_formed(self) -> bool {
        match self {
            Instruction::Sys { addr } => addr < 0x1000 && addr != 0x0E0 && addr != 0x0EE,
            Instruction::ClearScreen | Instruction::Return => true,
            Instruction::Jump { addr }
            | Instruction::Call { addr }
            | Instruction::LoadIndex { addr }
            | Instruction::JumpOffset { addr } => addr < 0x1000,
            Instruction::SkipEqByte { x, byte }
            | Instruction::SkipNeByte { x, byte }
            | Instruction::LoadByte { x, byte }
            | Instruction::AddByte { x, byte } => x < 16,
            Instruction::Random { x, mask } => x < 16,
            Instruction::SkipEqReg { x, y }
            | Instruction::Move { x, y }
            | Instruction::Or { x, y }
            | Instruction::And { x, y }
            | Instruction::Xor { x, y }
            | Instruction::Add { x, y }
            | Instruction::Sub { x, y }
            | Instruction::ShiftRight { x, y }
            | Instruction::SubFrom { x, y }
            | Instruction::ShiftLeft { x, y }
            | Instruction::SkipNeReg { x, y } => x < 16 && y < 16,
            Instruction::Draw { x, y, rows } => x < 16 && y < 16 && rows < 16,
            Instruction::SkipKey { x }
            | Instruction::SkipNoKey { x }
            | Instruction::ReadDelay { x }
            | Instruction::WaitKey { x }
            | Instruction::SetDelay { x }
            | Instruction::SetSound { x }
            | Instruction::AddIndex { x }
            | Instruction::Glyph { x }
            | Instruction::Bcd { x }
            | Instruction::Store { x }
            | Instruction::Load { x } => x < 16,
            Instruction::Unknown(word) => decoding(word) == Instruction::Unknown(word),
        }
    }

    /// The word that stands for the instruction.
    pub open spec fn encoding(self) -> int {
        match self {
            Instruction::Sys { addr } => addr as int,
            Instruction::ClearScreen => 0x00E0,
            Instruction::Return => 0x00EE,
            Instruction::Jump { addr } => 0x1000 + addr,
            Instruction::Call { addr } => 0x2000 + addr,
            Instruction::SkipEqByte { x, byte } => 0x3000 + x * 256 + byte,
            Instruction::SkipNeByte { x, byte } => 0x4000 + x * 256 + byte,
            Instruction::SkipEqReg { x, y } => 0x5000 + x * 256 + y * 16,
            Instruction::LoadByte { x, byte } => 0x6000 + x * 256 + byte,
            Instruction::AddByte { x, byte } => 0x7000 + x * 256 + byte,
            Instruction::Move { x, y } => 0x8000 + x * 256 + y * 16,
            Instruction::Or { x, y } => 0x8001 + x * 256 + y * 16,
            Instruction::And { x, y } => 0x8002 + x * 256 + y * 16,
            Instruction::Xor { x, y } => 0x8003 + x * 256 + y * 16,
            Instruction::Add { x, y } => 0x8004 + x * 256 + y * 16,
            Instruction::Sub { x, y } => 0x8005 + x * 256 + y * 16,
            Instruction::ShiftRight { x, y } => 0x8006 + x * 256 + y * 16,
            Instruction::SubFrom { x, y } => 0x8007 + x * 256 + y * 16,
            Instruction::ShiftLeft { x, y } => 0x800E + x * 256 + y * 16,
            Instruction::SkipNeReg { x, y } => 0x9000 + x * 256 + y * 16,
            Instruction::LoadIndex { addr } => 0xA000 + addr,
            Instruction::JumpOffset { addr } => 0xB000 + addr,
            Instruction::Random { x, mask } => 0xC000 + x * 256 + mask,
            Instruction::Draw { x, y, rows } => 0xD000 + x * 256 + y * 16 + rows,
            Instruction::SkipKey { x } => 0xE09E + x * 256,
            Instruction::SkipNoKey { x } => 0xE0A1 + x * 256,
            Instruction::ReadDelay { x } => 0xF007 + x * 256,
            Instruction::WaitKey { x } => 0xF00A + x * 256,
            Instruction::SetDelay { x } => 0xF015 + x * 256,
            Instruction::SetSound { x } => 0xF018 + x * 256,
            Instruction::AddIndex { x } => 0xF01E + x * 256,
            Instruction::Glyph { x } => 0xF029 + x * 256,
            Instruction::Bcd { x } => 0xF033 + x * 256,
            Instruction::Store { x } => 0xF055 + x * 256,
            Instruction::Load { x } => 0xF065 + x * 256,
            Instruction::Unknown(word) => word as int,
        }
    }
}

/// Decodes a word of the `8XYN` family.
fn decode_alu(word: u16, x: u8, y: u8, n: u8) -> (ins: Instruction)
    requires
        x == field_x(word),
        y == field_y(word),
        n == field_n(word),
    ensures
        ins == decoding_alu(word),
{
    match n {
        0x0 => Instruction::Move { x, y },
        0x1 => Instruction::Or { x, y },
        0x2 => Instruction::And { x, y },
        0x3 => Instruction::Xor { x, y },
        0x4 => Instruction::Add { x, y },
        0x5 => Instruction::Sub { x, y },
        0x6 => Instruction::ShiftRight { x, y },
        0x7 => Instruction::SubFrom { x, y },
        0xE => Instruction::ShiftLeft { x, y },
        _ => Instruction::Unknown(word),
    }
}

/// Decodes a word of the `FXNN` family.
fn decode_misc(word: u16, x: u8, nn: u8) -> (ins: Instruction)
    requires
        x == field_x(word),
        nn == field_nn(word),
    ensures
        ins == decoding_misc(word),
{
    match nn {
        0x07 => Instruction::ReadDelay { x },
        0x0A => Instruction::WaitKey { x },
        0x15 => Instruction::SetDelay { x },
        0x18 => Instruction::SetSound { x },
        0x1E => Instruction::AddIndex { x },
        0x29 => Instruction::Glyph { x },
        0x33 => Instruction::Bcd { x },
        0x55 => Instruction::Store { x },
        0x65 => Instruction::Load { x },
        _ => Instruction::Unknown(word),
    }
}

/// Decodes an instruction word. Decoding never fails: a word that fits no
/// pattern comes back as `Unknown`, carrying the word.
pub fn decode(word: u16) -> (ins: Instruction)
    ensures
        ins == decoding(word),
        ins.well_formed(),
{
    proof {
        assert(word >> 12 == word / 4096) by (bit_vector);
        assert((word >> 8) & 0xF == word / 256 % 16) by (bit_vector);
        assert((word >> 4) & 0xF == word / 16 % 16) by (bit_vector);
        assert(word & 0xF == word % 16) by (bit_vector);
        assert(word & 0xFF == word % 256) by (bit_vector);
        assert(word & 0xFFF == word % 4096) by (bit_vector);
    }
    let op: u8 = (word >> 12) as u8;
    let x: u8 = ((word >> 8) & 0xF) as u8;
    let y: u8 = ((word >> 4) & 0xF) as u8;
    let n: u8 = (word & 0xF) as u8;
    let nn: u8 = (word & 0xFF) as u8;
    let nnn: u16 = word & 0xFFF;
    match op {
        0x0 => match nnn {
            0x0E0 => Instruction::ClearScreen,
            0x0EE => Instruction::Return,
            _ => Instruction::Sys { addr: nnn },
        },
        0x1 => Instruction::Jump { addr: nnn },
        0x2 => Instruction::Call { addr: nnn },
        0x3 => Instruction::SkipEqByte { x, byte: nn },
        0x4 => Instruction::SkipNeByte { x, byte: nn },
        0x5 => if n == 0 {
            Instruction::SkipEqReg { x, y }
        } else {
            Instruction::Unknown(word)
        },
        0x6 => Instruction::LoadByte { x, byte: nn },
        0x7 => Instruction::AddByte { x, byte: nn },
        0x8 => decode_alu(word, x, y, n),
        0x9 => if n == 0 {
            Instruction::SkipNeReg { x, y }
        } else {
            Instruction::Unknown(word)
        },
        0xA => Instruction::LoadIndex { addr: nnn },
        0xB => Instruction::JumpOffset { addr: nnn },
        0xC => Instruction::Random { x, mask: nn },
        0xD => Instruction::Draw { x, y, rows: n },
        0xE => match nn {
            0x9E => Instruction::SkipKey { x },
            0xA1 => Instruction::SkipNoKey { x },
            _ => Instruction::Unknown(word),
        },
        _ => decode_misc(word, x, nn),
    }
}

} // verus!
