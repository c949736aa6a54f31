//! The instruction set: the thirty-five instructions as a closed enumeration,
//! and the decoder that maps a 16-bit instruction word to one of them.

use vstd::prelude::*;

verus! {

/// The highest four bits of an instruction word.
pub open spec fn field_i(opcode: u16) -> int {
    opcode as int / 4096
}

/// Bits 8 to 11 of an instruction word: the first register operand.
pub open spec fn field_x(opcode: u16) -> int {
    (opcode as int / 256) % 16
}

/// Bits 4 to 7 of an instruction word: the second register operand.
pub open spec fn field_y(opcode: u16) -> int {
    (opcode as int / 16) % 16
}

/// The lowest four bits of an instruction word.
pub open spec fn field_n(opcode: u16) -> int {
    opcode as int % 16
}

/// The lowest eight bits of an instruction word: the immediate operand.
pub open spec fn field_nn(opcode: u16) -> int {
    opcode as int % 256
}

/// The lowest twelve bits of an instruction word: the address operand.
pub open spec fn field_nnn(opcode: u16) -> int {
    opcode as int % 4096
}

/// One decoded instruction. Register operands are register numbers, first
/// `x`, then `y`.
#[derive(Clone, Copy, Debug, PartialEq, Eq, Structural)]
pub enum Instruction {
    /// `00E0`: turn every pixel off.
    ClearScreen,
    /// `00EE`: return from a subroutine.
    Return,
    /// `1nnn`: continue at `nnn`.
    Jump(u16),
    /// `2nnn`: call the subroutine at `nnn`.
    Call(u16),
    /// `3xnn`: skip the next instruction if `Vx == nn`.
    SkipEqImm(usize, u8),
    /// `4xnn`: skip the next instruction if `Vx != nn`.
    SkipNeImm(usize, u8),
    /// `5xy0`: skip the next instruction if `Vx == Vy`.
    SkipEq(usize, usize),
    /// `6xnn`: `Vx = nn`.
    LoadImm(usize, u8),
    /// `7xnn`: `Vx = Vx + nn`, wrapping, flag untouched.
    AddImm(usize, u8),
    /// `8xy0`: `Vx = Vy`.
    Move(usize, usize),
    /// `8xy1`: `Vx = Vx | Vy`.
    Or(usize, usize),
    /// `8xy2`: `Vx = Vx & Vy`.
    And(usize, usize),
    /// `8xy3`: `Vx = Vx ^ Vy`.
    Xor(usize, usize),
    /// `8xy4`: `Vx = Vx + Vy`, `VF` = carry.
    Add(usize, usize),
    /// `8xy5`: `Vx = Vx - Vy`, `VF` = no borrow.
    Sub(usize, usize),
    /// `8xy6`: `Vx = Vx >> 1`, `VF` = the bit shifted out.
    ShiftRight(usize, usize),
    /// `8xy7`: `Vx = Vy - Vx`, `VF` = no borrow.
    SubFrom(usize, usize),
    /// `8xyE`: `Vx = Vx << 1`, `VF` = the bit shifted out.
    ShiftLeft(usize, usize),
    /// `9xy0`: skip the next instruction if `Vx != Vy`.
    SkipNe(usize, usize),
    /// `Annn`: `I = nnn`.
    LoadIndex(u16),
    /// `Bnnn`: continue at `V0 + nnn`.
    JumpOffset(u16),
    /// `Cxnn`: `Vx` = a random byte `& nn`.
    Random(usize, u8),
    /// `Dxyn`: draw the `n`-row sprite at `I` at `(Vx, Vy)`, `VF` = collision.
    Draw(usize, usize, u8),
    /// `Ex9E`: skip the next instruction if key `Vx` is down.
    SkipKeyDown(usize),
    /// `ExA1`: skip the next instruction if key `Vx` is not down.
    SkipKeyUp(usize),
    /// `Fx07`: `Vx` = delay timer.
    ReadDelay(usize),
    /// `Fx0A`: wait for a key press and store the key in `Vx`.
    WaitKey(usize),
    /// `Fx15`: delay timer = `Vx`.
    SetDelay(usize),
    /// `Fx18`: sound timer = `Vx`.
    SetSound(usize),
    /// `Fx1E`: `I = I + Vx`, `VF` = overflow.
    AddIndex(usize),
    /// `Fx29`: `I` = the address of the glyph for the digit `Vx`.
    FontGlyph(usize),
    /// `Fx33`: store the three decimal digits of `Vx` at `I`, `I+1`, `I+2`.
    StoreBcd(usize),
    /// `Fx55`: store `V0..=Vx` at `I` and following.
    StoreRegisters(usize),
    /// `Fx65`: load `V0..=Vx` from `I` and following.
    LoadRegisters(usize),
    /// A word that is no instruction.
    Unknown(u16),
}

impl Instruction {
    /// The operands are in range: registers are below 16, a sprite has at
    /// most 15 rows and an address at most twelve bits.
    pub open spec fn wf(self) -> bool {
        match self {
            Instruction::ClearScreen | Instruction::Return | Instruction::Unknown(_) => true,
            Instruction::Jump(nnn)
            | Instruction::Call(nnn)
            | Instruction::LoadIndex(nnn)
            | Instruction::JumpOffset(nnn) => nnn < 4096,
            Instruction::SkipEqImm(x, _)
            | Instruction::SkipNeImm(x, _)
            | Instruction::LoadImm(x, _)
            | Instruction::AddImm(x, _)
            | Instruction::Random(x, _) => x < 16,
            Instruction::SkipEq(x, y)
            | Instruction::Move(x, y)
            | Instruction::Or(x, y)
            | Instruction::And(x, y)
            | Instruction::Xor(x, y)
            | Instruction::Add(x, y)
            | Instruction::Sub(x, y)
            | Instruction::ShiftRight(x, y)
            | Instruction::SubFrom(x, y)
            | Instruction::ShiftLeft(x, y)
            | Instruction::SkipNe(x, y) => x < 16 && y < 16,
            Instruction::Draw(x, y, n) => x < 16 && y < 16 && n < 16,
            Instruction::SkipKeyDown(x)
            | Instruction::SkipKeyUp(x)
            | Instruction::ReadDelay(x)
            | Instruction::WaitKey(x)
            | Instruction::SetDelay(x)
            | Instruction::SetSound(x)
            | Instruction::AddIndex(x)
            | Instruction::FontGlyph(x)
            | Instruction::StoreBcd(x)
            | Instruction::StoreRegisters(x)
            | Instruction::LoadRegisters(x) => x < 16,
        }
    }
}

/// The instruction that an instruction word encodes.
pub open spec fn decode_spec(opcode: u16) -> Instruction {
    let i = field_i(opcode);
    let x = field_x(opcode) as usize;
    let y = field_y(opcode) as usize;
    let n = field_n(opcode);
    let nn = field_nn(opcode) as u8;
    let nnn = field_nnn(opcode) as u16;
    if opcode == 0x00E0 {
        Instruction::ClearScreen
    } else if opcode == 0x00EE {
        Instruction::Return
    } else if i == 0x1 {
        Instruction::Jump(nnn)
    } else if i == 0x2 {
        Instruction::Call(nnn)
    } else if i == 0x3 {
        Instruction::SkipEqImm(x, nn)
    } else if i == 0x4 {
        Instruction::SkipNeImm(x, nn)
    } else if i == 0x5 && n == 0x0 {
        Instruction::SkipEq(x, y)
    } else if i == 0x6 {
        Instruction::LoadImm(x, nn)
    } else if i == 0x7 {
        Instruction::AddImm(x, nn)
    } else if i == 0x8 && n == 0x0 {
        Instruction::Move(x, y)
    } else if i == 0x8 && n == 0x1 {
        Instruction::Or(x, y)
    } else if i == 0x8 && n == 0x2 {
        Instruction::And(x, y)
    } else if i == 0x8 && n == 0x3 {
        Instruction::Xor(x, y)
    } else if i == 0x8 && n == 0x4 {
        Instruction::Add(x, y)
    } else if i == 0x8 && n == 0x5 {
        Instruction::Sub(x, y)
    } else if i == 0x8 && n == 0x6 {
        Instruction::ShiftRight(x, y)
    } else if i == 0x8 && n == 0x7 {
        Instruction::SubFrom(x, y)
    } else if i == 0x8 && n == 0xE {
        Instruction::ShiftLeft(x, y)
    } else if i == 0x9 && n == 0x0 {
        Instruction::SkipNe(x, y)
    } else if i == 0xA {
        Instruction::LoadIndex(nnn)
    } else if i == 0xB {
        Instruction::JumpOffset(nnn)
    } else if i == 0xC {
        Instruction::Random(x, nn)
    } else if i == 0xD {
        Instruction::Draw(x, y, n as u8)
    } else if i == 0xE && nn == 0x9E {
        Instruction::SkipKeyDown(x)
    } else if i == 0xE && nn == 0xA1 {
        Instruction::SkipKeyUp(x)
    } else if i == 0xF && nn == 0x07 {
        Instruction::ReadDelay(x)
    } else if i == 0xF && nn == 0x0A {
        Instruction::WaitKey(x)
    } else if i == 0xF && nn == 0x15 {
        Instruction::SetDelay(x)
    } else if i == 0xF && nn == 0x18 {
        Instruction::SetSound(x)
    } else if i == 0xF && nn == 0x1E {
        Instruction::AddIndex(x)
    } else if i == 0xF && nn == 0x29 {
        Instruction::FontGlyph(x)
    } else if i == 0xF && nn == 0x33 {
        Instruction::StoreBcd(x)
    } else if i == 0xF && nn == 0x55 {
        Instruction::StoreRegisters(x)
    } else if i == 0xF && nn == 0x65 {
        Instruction::LoadRegisters(x)
    } else {
        Instruction::Unknown(opcode)
    }
}

/// The six fields of an instruction word.
pub struct Fields {
    pub i: u8,
    pub x: usize,
    pub y: usize,
    pub n: u8,
    pub nn: u8,
    pub nnn: u16,
}

/// Cuts an instruction word into its fields.
pub fn fields(opcode: u16) -> (f: Fields)
    ensures
        f.i == field_i(opcode),
        f.x == field_x(opcode),
        f.y == field_y(opcode),
        f.n == field_n(opcode),
        f.nn == field_nn(opcode),
        f.nnn == field_nnn(opcode),
        f.i < 16,
        f.x < 16,
        f.y < 16,
        f.n < 16,
        f.nnn < 4096,
{
    assert((opcode & 0xF000) >> 12 == opcode / 4096 && (opcode & 0xF000) >> 12 < 16)
        by (bit_vector);
    assert((opcode & 0x0F00) >> 8 == (opcode / 256) % 16) by (bit_vector);
    assert((opcode & 0x00F0) >> 4 == (opcode / 16) % 16) by (bit_vector);
    assert(opcode & 0x000F == opcode % 16) by (bit_vector);
    assert(opcode & 0x00FF == opcode % 256) by (bit_vector);
    assert(opcode & 0x0FFF == opcode % 4096) by (bit_vector);
    Fields {
        i: ((opcode & 0xF000) >> 12) as u8,
        x: ((opcode & 0x0F00) >> 8) as usize,
        y: ((opcode & 0x00F0) >> 4) as usize,
        n: (opcode & 0x000F) as u8,
        nn: (opcode & 0x00FF) as u8,
        nnn: opcode & 0x0FFF,
    }
}

/// Decodes an instruction word.
pub fn decode(opcode: u16) -> (ins: Instruction)
    ensures
        ins == decode_spec(opcode),
        ins.wf(),
{
    let f = fields(opcode);
    let (x, y, n, nn, nnn) = (f.x, f.y, f.n, f.nn, f.nnn);
    match (f.i, x, y, n) {
        (0x00, 0x00, 0x0E, 0x00) => Instruction::ClearScreen,
        (0x00, 0x00, 0x0E, 0x0E) => Instruction::Return,
        (0x01, _, _, _) => Instruction::Jump(nnn),
        (0x02, _, _, _) => Instruction::Call(nnn),
        (0x03, _, _, _) => Instruction::SkipEqImm(x, nn),
        (0x04, _, _, _) => Instruction::SkipNeImm(x, nn),
        (0x05, _, _, 0x00) => Instruction::SkipEq(x, y),
        (0x06, _, _, _) => Instruction::LoadImm(x, nn),
        (0x07, _, _, _) => Instruction::AddImm(x, nn),
        (0x08, _, _, 0x00) => Instruction::Move(x, y),
        (0x08, _, _, 0x01) => Instruction::Or(x, y),
        (0x08, _, _, 0x02) => Instruction::And(x, y),
        (0x08, _, _, 0x03) => Instruction::Xor(x, y),
        (0x08, _, _, 0x04) => Instruction::Add(x, y),
        (0x08, _, _, 0x05) => Instruction::Sub(x, y),
        (0x08, _, _, 0x06) => Instruction::ShiftRight(x, y),
        (0x08, _, _, 0x07) => Instruction::SubFrom(x, y),
        (0x08, _, _, 0x0E) => Instruction::ShiftLeft(x, y),
        (0x09, _, _, 0x00) => Instruction::SkipNe(x, y),
        (0x0A, _, _, _) => Instruction::LoadIndex(nnn),
        (0x0B, _, _, _) => Instruction::JumpOffset(nnn),
        (0x0C, _, _, _) => Instruction::Random(x, nn),
        (0x0D, _, _, _) => Instruction::Draw(x, y, n),
        (0x0E, _, 0x09, 0x0E) => Instruction::SkipKeyDown(x),
        (0x0E, _, 0x0A, 0x01) => Instruction::SkipKeyUp(x),
        (0x0F, _, 0x00, 0x07) => Instruction::ReadDelay(x),
        (0x0F, _, 0x01, 0x05) => Instruction::SetDelay(x),
        (0x0F, _, 0x01, 0x08) => Instruction::SetSound(x),
        (0x0F, _, 0x01, 0x0E) => Instruction::AddIndex(x),
        (0x0F, _, 0x00, 0x0A) => Instruction::WaitKey(x),
        (0x0F, _, 0x02, 0x09) => Instruction::FontGlyph(x),
        (0x0F, _, 0x03, 0x03) => Instruction::StoreBcd(x),
        (0x0F, _, 0x05, 0x05) => Instruction::StoreRegisters(x),
        (0x0F, _, 0x06, 0x05) => Instruction::LoadRegisters(x),
        _ => Instruction::Unknown(opcode),
    }
}

} // verus!
