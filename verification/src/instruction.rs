//! The instruction set and its decoder.
use vstd::prelude::*;

verus! {

/// One instruction with its operands. A register operand is the number of a
/// register (`x`, `y`), `byte` is an 8-bit constant, `addr` a 12-bit address
/// and `n` a 4-bit constant.
#[derive(Clone, Copy, Debug, PartialEq, Eq, Structural)]
pub enum Instruction {
    /// `00E0`: clear the display.
    Cls,
    /// `00EE`: return from a subroutine.
    Ret,
    /// `1NNN`: jump to `addr`.
    Jp { addr: u16 },
    /// `2NNN`: call the subroutine at `addr`.
    Call { addr: u16 },
    /// `3XNN`: skip the next instruction if `V[x] == byte`.
    SeByte { x: u8, byte: u8 },
    /// `4XNN`: skip the next instruction if `V[x] != byte`.
    SneByte { x: u8, byte: u8 },
    /// `5XY0`: skip the next instruction if `V[x] == V[y]`.
    SeReg { x: u8, y: u8 },
    /// `6XNN`: `V[x] = byte`.
    LdByte { x: u8, byte: u8 },
    /// `7XNN`: `V[x] = V[x] + byte`, without a carry flag.
    AddByte { x: u8, byte: u8 },
    /// `8XY0`: `V[x] = V[y]`.
    LdReg { x: u8, y: u8 },
    /// `8XY1`: `V[x] = V[x] | V[y]`.
    Or { x: u8, y: u8 },
    /// `8XY2`: `V[x] = V[x] & V[y]`.
    And { x: u8, y: u8 },
    /// `8XY3`: `V[x] = V[x] ^ V[y]`.
    Xor { x: u8, y: u8 },
    /// `8XY4`: `V[x] = V[x] + V[y]`, `VF` = carry.
    AddReg { x: u8, y: u8 },
    /// `8XY5`: `V[x] = V[x] - V[y]`, `VF` = no borrow.
    SubReg { x: u8, y: u8 },
    /// `8XY6`: `V[x] = V[x] >> 1`, `VF` = the bit shifted out.
    Shr { x: u8 },
    /// `8XY7`: `V[x] = V[y] - V[x]`, `VF` = no borrow.
    SubnReg { x: u8, y: u8 },
    /// `8XYE`: `V[x] = V[x] << 1`, `VF` = the bit shifted out.
    Shl { x: u8 },
    /// `9XY0`: skip the next instruction if `V[x] != V[y]`.
    SneReg { x: u8, y: u8 },
    /// `ANNN`: `I = addr`.
    LdI { addr: u16 },
    /// `BNNN`: jump to `addr + V[0]`.
    JpV0 { addr: u16 },
    /// `CXNN`: `V[x] = random & byte`.
    Rnd { x: u8, byte: u8 },
    /// `DXYN`: draw the sprite of `n` rows at `I` on `(V[x], V[y])`, `VF` = collision.
    Drw { x: u8, y: u8, n: u8 },
    /// `EX9E`: skip the next instruction if key `V[x]` is down.
    Skp { x: u8 },
    /// `EXA1`: skip the next instruction if key `V[x]` is up.
    Sknp { x: u8 },
    /// `FX07`: `V[x] = DT`.
    LdVxDt { x: u8 },
    /// `FX0A`: wait for a key and store it in `V[x]`.
    LdVxKey { x: u8 },
    /// `FX15`: `DT = V[x]`.
    LdDtVx { x: u8 },
    /// `FX18`: `ST = V[x]`.
    LdStVx { x: u8 },
    /// `FX1E`: `I = I + V[x]`.
    AddI { x: u8 },
    /// `FX29`: `I` = address of the glyph for the low digit of `V[x]`.
    LdFont { x: u8 },
    /// `FX33`: store the three decimal digits of `V[x]` at `I`, `I+1`, `I+2`.
    Bcd { x: u8 },
    /// `FX55`: store `V[0]..=V[x]` at `I`.
    Store { x: u8 },
    /// `FX65`: load `V[0]..=V[x]` from `I`.
    Load { x: u8 },
    /// Any other word: no operation.
    Unknown { word: u16 },
}

/// First operand nibble of an instruction word: bits 8 to 11.
pub open spec fn x_of(word: u16) -> u8 {
    (word / 256 % 16) as u8
}

/// Second operand nibble of an instruction word: bits 4 to 7.
pub open spec fn y_of(word: u16) -> u8 {
    (word / 16 % 16) as u8
}

/// Last nibble of an instruction word.
pub open spec fn n_of(word: u16) -> u8 {
    (word % 16) as u8
}

/// Low byte of an instruction word.
pub open spec fn nn_of(word: u16) -> u8 {
    (word % 256) as u8
}

/// Low twelve bits of an instruction word.
pub open spec fn nnn_of(word: u16) -> u16 {
    (word % 4096) as u16
}

/// The instruction that a word stands for.
pub open spec fn decode_spec(word: u16) -> Instruction {
    let x = x_of(word);
    let y = y_of(word);
    let n = n_of(word);
    let byte = nn_of(word);
    let addr = nnn_of(word);
    let unknown = Instruction::Unknown { word };
    match word / 4096 {
        0x0 => if word == 0x00E0 {
            Instruction::Cls
        } else if word == 0x00EE {
            Instruction::Ret
        } else {
            unknown
        },
        0x1 => Instruction::Jp { addr },
        0x2 => Instruction::Call { addr },
        0x3 => Instruction::SeByte { x, byte },
        0x4 => Instruction::SneByte { x, byte },
        0x5 => if n == 0 {
            Instruction::SeReg { x, y }
        } else {
            unknown
        },
        0x6 => Instruction::LdByte { x, byte },
        0x7 => Instruction::AddByte { x, byte },
        0x8 => match n {
            0x0 => Instruction::LdReg { x, y },
            0x1 => Instruction::Or { x, y },
            0x2 => Instruction::And { x, y },
            0x3 => Instruction::Xor { x, y },
            0x4 => Instruction::AddReg { x, y },
            0x5 => Instruction::SubReg { x, y },
            0x6 => Instruction::Shr { x },
            0x7 => Instruction::SubnReg { x, y },
            0xE => Instruction::Shl { x },
            _ => unknown,
        },
        0x9 => if n == 0 {
            Instruction::SneReg { x, y }
        } else {
            unknown
        },
        0xA => Instruction::LdI { addr },
        0xB => Instruction::JpV0 { addr },
        0xC => Instruction::Rnd { x, byte },
        0xD => Instruction::Drw { x, y, n },
        0xE => match byte {
            0x9E => Instruction::Skp { x },
            0xA1 => Instruction::Sknp { x },
            _ => unknown,
        },
        _ => match byte {
            0x07 => Instruction::LdVxDt { x },
            0x0A => Instruction::LdVxKey { x },
            0x15 => Instruction::LdDtVx { x },
            0x18 => Instruction::LdStVx { x },
            0x1E => Instruction::AddI { x },
            0x29 => Instruction::LdFont { x },
            0x33 => Instruction::Bcd { x },
            0x55 => Instruction::Store { x },
            0x65 => Instruction::Load { x },
            _ => unknown,
        },
    }
}

impl Instruction {
    /// Whether every operand is in its range: registers and `n` below 16,
    /// addresses below `0x1000`.
    pub open spec fn wf(self) -> bool {
        match self {
            Instruction::Cls | Instruction::Ret | Instruction::Unknown { .. } => true,
            Instruction::Jp { addr }
            | Instruction::Call { addr }
            | Instruction::LdI { addr }
            | Instruction::JpV0 { addr } => addr < 0x1000,
            Instruction::SeByte { x, .. }
            | Instruction::SneByte { x, .. }
            | Instruction::LdByte { x, .. }
            | Instruction::AddByte { x, .. }
            | Instruction::Rnd { x, .. }
            | Instruction::Shr { x }
            | Instruction::Shl { x }
            | Instruction::Skp { x }
            | Instruction::Sknp { x }
            | Instruction::LdVxDt { x }
            | Instruction::LdVxKey { x }
            | Instruction::LdDtVx { x }
            | Instruction::LdStVx { x }
            | Instruction::AddI { x }
            | Instruction::LdFont { x }
            | Instruction::Bcd { x }
            | Instruction::Store { x }
            | Instruction::Load { x } => x < 16,
            Instruction::SeReg { x, y }
            | Instruction::LdReg { x, y }
            | Instruction::Or { x, y }
            | Instruction::And { x, y }
            | Instruction::Xor { x, y }
            | Instruction::AddReg { x, y }
            | Instruction::SubReg { x, y }
            | Instruction::SubnReg { x, y }
            | Instruction::SneReg { x, y } => x < 16 && y < 16,
            Instruction::Drw { x, y, n } => x < 16 && y < 16 && n < 16,
        }
    }
}

/// Every word decodes to an instruction whose operands are in range.
pub proof fn lemma_decode_wf(word: u16)
    ensures
        decode_spec(word).wf(),
{
}

/// First operand nibble: `(word >> 8) & 0xF`.
pub fn decode_x_index(word: u16) -> (x: usize)
    ensures
        x == x_of(word),
        x < 16,
{
    assert((word & 0x0F00) >> 8 == word / 256 % 16) by (bit_vector);
    ((word & 0x0F00) >> 8) as usize
}

/// Second operand nibble: `(word >> 4) & 0xF`.
pub fn decode_y_index(word: u16) -> (y: usize)
    ensures
        y == y_of(word),
        y < 16,
{
    assert((word & 0x00F0) >> 4 == word / 16 % 16) by (bit_vector);
    ((word & 0x00F0) >> 4) as usize
}

/// Last nibble: `word & 0xF`.
pub fn decode_n(word: u16) -> (n: u8)
    ensures
        n == n_of(word),
        n < 16,
{
    assert(word & 0x000F == word % 16) by (bit_vector);
    (word & 0x000F) as u8
}

/// Low byte: `word & 0xFF`.
pub fn decode_nn(word: u16) -> (byte: u8)
    ensures
        byte == nn_of(word),
{
    assert(word & 0x00FF == word % 256) by (bit_vector);
    (word & 0x00FF) as u8
}

/// Low twelve bits: `word & 0xFFF`.
pub fn decode_nnn(word: u16) -> (addr: u16)
    ensures
        addr == nnn_of(word),
        addr < 0x1000,
{
    assert(word & 0x0FFF == word % 4096) by (bit_vector);
    word & 0x0FFF
}

/// Decodes an instruction word.
pub fn decode(word: u16) -> (ins: Instruction)
    ensures
        ins == decode_spec(word),
        ins.wf(),
{
    let x = decode_x_index(word) as u8;
    let y = decode_y_index(word) as u8;
    let n = decode_n(word);
    let byte = decode_nn(word);
    let addr = decode_nnn(word);
    let unknown = Instruction::Unknown { word };
    assert(word >> 12 == word / 4096) by (bit_vector);
    match word >> 12 {
        0x0 => if word == 0x00E0 {
            Instruction::Cls
        } else if word == 0x00EE {
            Instruction::Ret
        } else {
            unknown
        },
        0x1 => Instruction::Jp { addr },
        0x2 => Instruction::Call { addr },
        0x3 => Instruction::SeByte { x, byte },
        0x4 => Instruction::SneByte { x, byte },
        0x5 => if n == 0 {
            Instruction::SeReg { x, y }
        } else {
            unknown
        },
        0x6 => Instruction::LdByte { x, byte },
        0x7 => Instruction::AddByte { x, byte },
        0x8 => match n {
            0x0 => Instruction::LdReg { x, y },
            0x1 => Instruction::Or { x, y },
            0x2 => Instruction::And { x, y },
            0x3 => Instruction::Xor { x, y },
            0x4 => Instruction::AddReg { x, y },
            0x5 => Instruction::SubReg { x, y },
            0x6 => Instruction::Shr { x },
            0x7 => Instruction::SubnReg { x, y },
            0xE => Instruction::Shl { x },
            _ => unknown,
        },
        0x9 => if n == 0 {
            Instruction::SneReg { x, y }
        } else {
            unknown
        },
        0xA => Instruction::LdI { addr },
        0xB => Instruction::JpV0 { addr },
        0xC => Instruction::Rnd { x, byte },
        0xD => Instruction::Drw { x, y, n },
        0xE => match byte {
            0x9E => Instruction::Skp { x },
            0xA1 => Instruction::Sknp { x },
            _ => unknown,
        },
        _ => match byte {
            0x07 => Instruction::LdVxDt { x },
            0x0A => Instruction::LdVxKey { x },
            0x15 => Instruction::LdDtVx { x },
            0x18 => Instruction::LdStVx { x },
            0x1E => Instruction::AddI { x },
            0x29 => Instruction::LdFont { x },
            0x33 => Instruction::Bcd { x },
            0x55 => Instruction::Store { x },
            0x65 => Instruction::Load { x },
            _ => unknown,
        },
    }
}

} // verus!
