//! Instruction words and the operations they select.

use vstd::prelude::*;

verus! {

/// One decoded operation. `x` and `y` name registers, `kk` is an immediate
/// byte, `nnn` a 12-bit address and `n` a sprite height.
#[derive(Clone, Copy, Debug, PartialEq, Eq, Structural)]
pub enum Instruction {
    /// `00E0`: clear the screen.
    Cls,
    /// `00EE`: return from a subroutine.
    Ret,
    /// `1nnn`: jump to `nnn`.
    JpNnn { nnn: u16 },
    /// `2nnn`: call the subroutine at `nnn`.
    CallNnn { nnn: u16 },
    /// `3xkk`: skip the next instruction if `Vx == kk`.
    SeVxKk { x: usize, kk: u8 },
    /// `4xkk`: skip the next instruction if `Vx != kk`.
    SneVxKk { x: usize, kk: u8 },
    /// `5xy0`: skip the next instruction if `Vx == Vy`.
    SeVxVy { x: usize, y: usize },
    /// `6xkk`: `Vx = kk`.
    LdVxKk { x: usize, kk: u8 },
    /// `7xkk`: `Vx = Vx + kk`, wrapping, flag untouched.
    AddVxKk { x: usize, kk: u8 },
    /// `8xy0`: `Vx = Vy`.
    LdVxVy { x: usize, y: usize },
    /// `8xy1`: `Vx = Vx | Vy`.
    OrVxVy { x: usize, y: usize },
    /// `8xy2`: `Vx = Vx & Vy`.
    AndVxVy { x: usize, y: usize },
    /// `8xy3`: `Vx = Vx ^ Vy`.
    XorVxVy { x: usize, y: usize },
    /// `8xy4`: `Vx = Vx + Vy`, wrapping, `VF` = carry.
    AddVxVy { x: usize, y: usize },
    /// `8xy5`: `Vx = Vx - Vy`, wrapping, `VF` = `Vx > Vy`.
    SubVxVy { x: usize, y: usize },
    /// `8xy6`: `Vx = Vx >> 1`, `VF` = the bit shifted out.
    ShrVx { x: usize },
    /// `8xy7`: `Vx = Vy - Vx`, wrapping, `VF` = `Vy > Vx`.
    SubnVxVy { x: usize, y: usize },
    /// `8xyE`: `Vx = Vx << 1`, `VF` = the bit shifted out.
    ShlVx { x: usize },
    /// `9xy0`: skip the next instruction if `Vx != Vy`.
    SneVxVy { x: usize, y: usize },
    /// `Annn`: `I = nnn`.
    LdINnn { nnn: u16 },
    /// `Bnnn`: jump to `nnn + V0`.
    JpV0Nnn { nnn: u16 },
    /// `Cxkk`: `Vx = random byte & kk`.
    RndVxKk { x: usize, kk: u8 },
    /// `Dxyn`: draw the `n`-byte sprite at `I` at `(Vx, Vy)`.
    DrwVxVyN { x: usize, y: usize, n: u8 },
    /// `Ex9E`: skip the next instruction if key `Vx` is down.
    SkpVx { x: usize },
    /// `ExA1`: skip the next instruction if key `Vx` is up.
    SknpVx { x: usize },
    /// `Fx07`: `Vx = delay timer`.
    LdVxDt { x: usize },
    /// `Fx0A`: wait for a key and store it in `Vx`.
    LdVxK { x: usize },
    /// `Fx15`: `delay timer = Vx`.
    LdDtVx { x: usize },
    /// `Fx18`: `sound timer = Vx`.
    LdStVx { x: usize },
    /// `Fx1E`: `I = I + Vx`.
    AddIVx { x: usize },
    /// Any other word: does nothing.
    Unknown,
}

/// The most significant nibble of a word: the opcode family.
pub open spec fn nibble1(word: u16) -> u8 {
    (word / 0x1000) as u8
}

/// The second nibble of a word: the register operand `x`.
pub open spec fn nibble2(word: u16) -> u8 {
    (word / 0x100 % 0x10) as u8
}

/// The third nibble of a word: the register operand `y`.
pub open spec fn nibble3(word: u16) -> u8 {
    (word / 0x10 % 0x10) as u8
}

/// The least significant nibble of a word: the small immediate `n`.
pub open spec fn nibble4(word: u16) -> u8 {
    (word % 0x10) as u8
}

/// The low 12 bits of a word: the address operand `nnn`.
pub open spec fn low12(word: u16) -> u16 {
    word % 0x1000
}

/// The low 8 bits of a word: the immediate byte `kk`.
pub open spec fn low8(word: u16) -> u8 {
    (word % 0x100) as u8
}

/// The operation an instruction word selects.
pub open spec fn decode_word(word: u16) -> Instruction {
    let x = nibble2(word) as usize;
    let y = nibble3(word) as usize;
    let n = nibble4(word);
    let nnn = low12(word);
    let kk = low8(word);
    match (nibble1(word), nibble2(word), nibble3(word), nibble4(word)) {
        (0x0, 0x0, 0xE, 0x0) => Instruction::Cls,
        (0x0, 0x0, 0xE, 0xE) => Instruction::Ret,
        (0x1, _, _, _) => Instruction::JpNnn { nnn },
        (0x2, _, _, _) => Instruction::CallNnn { nnn },
        (0x3, _, _, _) => Instruction::SeVxKk { x, kk },
        (0x4, _, _, _) => Instruction::SneVxKk { x, kk },
        (0x5, _, _, 0x0) => Instruction::SeVxVy { x, y },
        (0x6, _, _, _) => Instruction::LdVxKk { x, kk },
        (0x7, _, _, _) => Instruction::AddVxKk { x, kk },
        (0x8, _, _, 0x0) => Instruction::LdVxVy { x, y },
        (0x8, _, _, 0x1) => Instruction::OrVxVy { x, y },
        (0x8, _, _, 0x2) => Instruction::AndVxVy { x, y },
        (0x8, _, _, 0x3) => Instruction::XorVxVy { x, y },
        (0x8, _, _, 0x4) => Instruction::AddVxVy { x, y },
        (0x8, _, _, 0x5) => Instruction::SubVxVy { x, y },
        (0x8, _, _, 0x6) => Instruction::ShrVx { x },
        (0x8, _, _, 0x7) => Instruction::SubnVxVy { x, y },
        (0x8, _, _, 0xE) => Instruction::ShlVx { x },
        (0x9, _, _, 0x0) => Instruction::SneVxVy { x, y },
        (0xA, _, _, _) => Instruction::LdINnn { nnn },
        (0xB, _, _, _) => Instruction::JpV0Nnn { nnn },
        (0xC, _, _, _) => Instruction::RndVxKk { x, kk },
        (0xD, _, _, _) => Instruction::DrwVxVyN { x, y, n },
        (0xE, _, 0x9, 0xE) => Instruction::SkpVx { x },
        (0xE, _, 0xA, 0x1) => Instruction::SknpVx { x },
        (0xF, _, 0x0, 0x7) => Instruction::LdVxDt { x },
        (0xF, _, 0x0, 0xA) => Instruction::LdVxK { x },
        (0xF, _, 0x1, 0x5) => Instruction::LdDtVx { x },
        (0xF, _, 0x1, 0x8) => Instruction::LdStVx { x },
        (0xF, _, 0x1, 0xE) => Instruction::AddIVx { x },
        _ => Instruction::Unknown,
    }
}

impl Instruction {
    /// Every register operand names one of the sixteen registers, and a
    /// sprite height fits in a nibble.
    pub open spec fn wf(self) -> bool {
        match self {
            Instruction::Cls
            | Instruction::Ret
            | Instruction::Unknown
            | Instruction::JpNnn { .. }
            | Instruction::CallNnn { .. }
            | Instruction::LdINnn { .. }
            | Instruction::JpV0Nnn { .. } => true,
            Instruction::SeVxKk { x, .. }
            | Instruction::SneVxKk { x, .. }
            | Instruction::LdVxKk { x, .. }
            | Instruction::AddVxKk { x, .. }
            | Instruction::RndVxKk { x, .. }
            | Instruction::ShrVx { x }
            | Instruction::ShlVx { x }
            | Instruction::SkpVx { x }
            | Instruction::SknpVx { x }
            | Instruction::LdVxDt { x }
            | Instruction::LdVxK { x }
            | Instruction::LdDtVx { x }
            | Instruction::LdStVx { x }
            | Instruction::AddIVx { x } => x < 16,
            Instruction::SeVxVy { x, y }
            | Instruction::LdVxVy { x, y }
            | Instruction::OrVxVy { x, y }
            | Instruction::AndVxVy { x, y }
            | Instruction::XorVxVy { x, y }
            | Instruction::AddVxVy { x, y }
            | Instruction::SubVxVy { x, y }
            | Instruction::SubnVxVy { x, y }
            | Instruction::SneVxVy { x, y } => x < 16 && y < 16,
            Instruction::DrwVxVyN { x, y, n } => x < 16 && y < 16 && n < 16,
        }
    }

    /// Splits a word into its nibbles and picks the operation they select.
    pub fn from_word(word: u16) -> (op: Instruction)
        ensures
            op == decode_word(word),
            op.wf(),
    {
        let n1 = (word / 0x1000) as u8;
        let n2 = (word / 0x100 % 0x10) as u8;
        let n3 = (word / 0x10 % 0x10) as u8;
        let n4 = (word % 0x10) as u8;

        let nnn = word % 0x1000;
        let kk = (word % 0x100) as u8;

        let (x, y, n) = (n2 as usize, n3 as usize, n4);

        match (n1, n2, n3, n4) {
            (0x0, 0x0, 0xE, 0x0) => Instruction::Cls,
            (0x0, 0x0, 0xE, 0xE) => Instruction::Ret,
            (0x1, _, _, _) => Instruction::JpNnn { nnn },
            (0x2, _, _, _) => Instruction::CallNnn { nnn },
            (0x3, _, _, _) => Instruction::SeVxKk { x, kk },
            (0x4, _, _, _) => Instruction::SneVxKk { x, kk },
            (0x5, _, _, 0x0) => Instruction::SeVxVy { x, y },
            (0x6, _, _, _) => Instruction::LdVxKk { x, kk },
            (0x7, _, _, _) => Instruction::AddVxKk { x, kk },
            (0x8, _, _, 0x0) => Instruction::LdVxVy { x, y },
            (0x8, _, _, 0x1) => Instruction::OrVxVy { x, y },
            (0x8, _, _, 0x2) => Instruction::AndVxVy { x, y },
            (0x8, _, _, 0x3) => Instruction::XorVxVy { x, y },
            (0x8, _, _, 0x4) => Instruction::AddVxVy { x, y },
            (0x8, _, _, 0x5) => Instruction::SubVxVy { x, y },
            (0x8, _, _, 0x6) => Instruction::ShrVx { x },
            (0x8, _, _, 0x7) => Instruction::SubnVxVy { x, y },
            (0x8, _, _, 0xE) => Instruction::ShlVx { x },
            (0x9, _, _, 0x0) => Instruction::SneVxVy { x, y },
            (0xA, _, _, _) => Instruction::LdINnn { nnn },
            (0xB, _, _, _) => Instruction::JpV0Nnn { nnn },
            (0xC, _, _, _) => Instruction::RndVxKk { x, kk },
            (0xD, _, _, _) => Instruction::DrwVxVyN { x, y, n },
            (0xE, _, 0x9, 0xE) => Instruction::SkpVx { x },
            (0xE, _, 0xA, 0x1) => Instruction::SknpVx { x },
            (0xF, _, 0x0, 0x7) => Instruction::LdVxDt { x },
            (0xF, _, 0x0, 0xA) => Instruction::LdVxK { x },
            (0xF, _, 0x1, 0x5) => Instruction::LdDtVx { x },
            (0xF, _, 0x1, 0x8) => Instruction::LdStVx { x },
            (0xF, _, 0x1, 0xE) => Instruction::AddIVx { x },
            _ => Instruction::Unknown,
        }
    }
}

} // verus!
