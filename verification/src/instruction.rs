//! Instruction words and what they decode to.
//!
//! An instruction is one 16-bit word, read as four 4-bit fields. The first
//! field selects the family; the others are register numbers, an 8-bit
//! constant, or a 12-bit address, depending on the family.

use vstd::prelude::*;

verus! {

/// A decoded instruction. `x` and `y` number registers, `value` is the 8-bit
/// constant `kk` in the low byte and `address` the 12-bit address `nnn`.
#[derive(Clone, Copy, Debug, PartialEq, Eq, Structural)]
pub enum Instruction {
    /// `00E0`: clear the display.
    Cls,
    /// `00EE`: return from a subroutine.
    Ret,
    /// `0nnn`: call a machine routine. It has a name but is not carried out.
    Sys { address: u16 },
    /// `1nnn`: jump to `nnn`.
    Jp { address: u16 },
    /// `2nnn`: call the subroutine at `nnn`.
    Call { address: u16 },
    /// `3xkk`: skip the next instruction if `Vx == kk`.
    SeByte { x: u8, value: u8 },
    /// `4xkk`: skip the next instruction if `Vx != kk`.
    SneByte { x: u8, value: u8 },
    /// `5xy0`: skip the next instruction if `Vx == Vy`.
    SeReg { x: u8, y: u8 },
    /// `6xkk`: `Vx = kk`.
    LdByte { x: u8, value: u8 },
    /// `7xkk`: `Vx = Vx + kk`, without a flag.
    AddByte { x: u8, value: u8 },
    /// `8xy0`: `Vx = Vy`.
    LdReg { x: u8, y: u8 },
    /// `8xy1`: `Vx = Vx | Vy`.
    Or { x: u8, y: u8 },
    /// `8xy2`: `Vx = Vx & Vy`.
    And { x: u8, y: u8 },
    /// `8xy3`: `Vx = Vx ^ Vy`.
    Xor { x: u8, y: u8 },
    /// `8xy4`: `Vx = Vx + Vy`, `VF` = carry.
    AddReg { x: u8, y: u8 },
    /// `8xy5`: `Vx = Vx - Vy`, `VF` = no borrow.
    Sub { x: u8, y: u8 },
    /// `8xy6`: `Vx = Vx >> 1`, `VF` = the bit shifted out. `y` is not read.
    Shr { x: u8, y: u8 },
    /// `8xy7`: `Vx = Vy - Vx`, `VF` = no borrow.
    Subn { x: u8, y: u8 },
    /// `8xyE`: `Vx = Vx << 1`, `VF` = the bit shifted out. `y` is not read.
    Shl { x: u8, y: u8 },
    /// `9xy0`: skip the next instruction if `Vx != Vy`.
    SneReg { x: u8, y: u8 },
    /// `Annn`: `I = nnn`.
    LdI { address: u16 },
    /// `Bnnn`: jump to `nnn + V0`.
    JpV0 { address: u16 },
    /// `Cxkk`: `Vx` = a random byte masked with `kk`.
    Rnd { x: u8, value: u8 },
    /// `Dxyn`: draw the `n`-row sprite at `I` at `(Vx, Vy)`, `VF` = collision.
    Drw { x: u8, y: u8, rows: u8 },
    /// `Ex9E`: skip the next instruction if the key named by `Vx` is down.
    Skp { x: u8 },
    /// `ExA1`: skip the next instruction if the key named by `Vx` is up.
    Sknp { x: u8 },
    /// `Fx07`: `Vx` = delay timer.
    LdVxDt { x: u8 },
    /// `Fx0A`: wait for a key and put its number in `Vx`.
    LdVxK { x: u8 },
    /// `Fx15`: delay timer = `Vx`.
    LdDtVx { x: u8 },
    /// `Fx18`: sound timer = `Vx`.
    LdStVx { x: u8 },
    /// `Fx1E`: `I = I + Vx`.
    AddI { x: u8 },
    /// `Fx29`: `I` = address of the glyph for the digit in `Vx`.
    LdF { x: u8 },
    /// `Fx33`: store the decimal digits of `Vx` at `I`, `I + 1`, `I + 2`.
    LdB { x: u8 },
    /// `Fx55`: store `V0` to `Vx` in memory from `I` on.
    LdIVx { x: u8 },
    /// `Fx65`: load `V0` to `Vx` from memory from `I` on.
    LdVxI { x: u8 },
    /// Any other word.
    Unknown,
}

/// Bits 12 to 15 of an instruction word.
pub open spec fn nibble1(opcode: u16) -> u8 {
    (opcode / 0x1000) as u8
}

/// Bits 8 to 11 of an instruction word: the register number `x`.
pub open spec fn nibble2(opcode: u16) -> u8 {
    ((opcode / 0x100) % 0x10) as u8
}

/// Bits 4 to 7 of an instruction word: the register number `y`.
pub open spec fn nibble3(opcode: u16) -> u8 {
    ((opcode / 0x10) % 0x10) as u8
}

/// Bits 0 to 3 of an instruction word.
pub open spec fn nibble4(opcode: u16) -> u8 {
    (opcode % 0x10) as u8
}

/// The low byte of an instruction word: the constant `kk`.
pub open spec fn low_byte(opcode: u16) -> u8 {
    (opcode % 0x100) as u8
}

/// The low twelve bits of an instruction word: the address `nnn`.
pub open spec fn low_address(opcode: u16) -> u16 {
    opcode % 0x1000
}

/// What an instruction word means. Every word means exactly one thing; the
/// words that belong to no instruction mean `Unknown`.
pub open spec fn decoded(opcode: u16) -> Instruction {
    let x = nibble2(opcode);
    let y = nibble3(opcode);
    let last = nibble4(opcode);
    let value = low_byte(opcode);
    let address = low_address(opcode);
    match nibble1(opcode) {
        0x0 => if opcode == 0x00E0 {
            Instruction::Cls
        } else if opcode == 0x00EE {
            Instruction::Ret
        } else {
            Instruction::Sys { address }
        },
        0x1 => Instruction::Jp { address },
        0x2 => Instruction::Call { address },
        0x3 => Instruction::SeByte { x, value },
        0x4 => Instruction::SneByte { x, value },
        0x5 => if last == 0x0 {
            Instruction::SeReg { x, y }
        } else {
            Instruction::Unknown
        },
        0x6 => Instruction::LdByte { x, value },
        0x7 => Instruction::AddByte { x, value },
        0x8 => match last {
            0x0 => Instruction::LdReg { x, y },
            0x1 => Instruction::Or { x, y },
            0x2 => Instruction::And { x, y },
            0x3 => Instruction::Xor { x, y },
            0x4 => Instruction::AddReg { x, y },
            0x5 => Instruction::Sub { x, y },
            0x6 => Instruction::Shr { x, y },
            0x7 => Instruction::Subn { x, y },
            0xE => Instruction::Shl { x, y },
            _ => Instruction::Unknown,
        },
        0x9 => if last == 0x0 {
            Instruction::SneReg { x, y }
        } else {
            Instruction::Unknown
        },
        0xA => Instruction::LdI { address },
        0xB => Instruction::JpV0 { address },
        0xC => Instruction::Rnd { x, value },
        0xD => Instruction::Drw { x, y, rows: last },
        0xE => match value {
            0x9E => Instruction::Skp { x },
            0xA1 => Instruction::Sknp { x },
            _ => Instruction::Unknown,
        },
        _ => match value {
            0x07 => Instruction::LdVxDt { x },
            0x0A => Instruction::LdVxK { x },
            0x15 => Instruction::LdDtVx { x },
            0x18 => Instruction::LdStVx { x },
            0x1E => Instruction::AddI { x },
            0x29 => Instruction::LdF { x },
            0x33 => Instruction::LdB { x },
            0x55 => Instruction::LdIVx { x },
            0x65 => Instruction::LdVxI { x },
            _ => Instruction::Unknown,
        },
    }
}

/// The word for a register instruction of family `family` with the last
/// field `last`.
pub open spec fn register_word(family: int, x: u8, y: u8, last: int) -> u16 {
    (family * 0x1000 + x * 0x100 + y * 0x10 + last) as u16
}

/// The word for an instruction of family `family` with a register and a
/// byte.
pub open spec fn byte_word(family: int, x: u8, value: u8) -> u16 {
    (family * 0x1000 + x * 0x100 + value) as u16
}

/// The word for an instruction of family `family` with an address.
pub open spec fn address_word(family: int, address: u16) -> u16 {
    (family * 0x1000 + address) as u16
}

/// The word that holds `instruction`. For `Unknown`, which many words decode
/// to, it is `0xFFFF`.
pub open spec fn encoded(instruction: Instruction) -> u16 {
    match instruction {
        Instruction::Cls => 0x00E0,
        Instruction::Ret => 0x00EE,
        Instruction::Sys { address } => address_word(0x0, address),
        Instruction::Jp { address } => address_word(0x1, address),
        Instruction::Call { address } => address_word(0x2, address),
        Instruction::SeByte { x, value } => byte_word(0x3, x, value),
        Instruction::SneByte { x, value } => byte_word(0x4, x, value),
        Instruction::SeReg { x, y } => register_word(0x5, x, y, 0x0),
        Instruction::LdByte { x, value } => byte_word(0x6, x, value),
        Instruction::AddByte { x, value } => byte_word(0x7, x, value),
        Instruction::LdReg { x, y } => register_word(0x8, x, y, 0x0),
        Instruction::Or { x, y } => register_word(0x8, x, y, 0x1),
        Instruction::And { x, y } => register_word(0x8, x, y, 0x2),
        Instruction::Xor { x, y } => register_word(0x8, x, y, 0x3),
        Instruction::AddReg { x, y } => register_word(0x8, x, y, 0x4),
        Instruction::Sub { x, y } => register_word(0x8, x, y, 0x5),
        Instruction::Shr { x, y } => register_word(0x8, x, y, 0x6),
        Instruction::Subn { x, y } => register_word(0x8, x, y, 0x7),
        Instruction::Shl { x, y } => register_word(0x8, x, y, 0xE),
        Instruction::SneReg { x, y } => register_word(0x9, x, y, 0x0),
        Instruction::LdI { address } => address_word(0xA, address),
        Instruction::JpV0 { address } => address_word(0xB, address),
        Instruction::Rnd { x, value } => byte_word(0xC, x, value),
        Instruction::Drw { x, y, rows } => register_word(0xD, x, y, rows as int),
        Instruction::Skp { x } => byte_word(0xE, x, 0x9E),
        Instruction::Sknp { x } => byte_word(0xE, x, 0xA1),
        Instruction::LdVxDt { x } => byte_word(0xF, x, 0x07),
        Instruction::LdVxK { x } => byte_word(0xF, x, 0x0A),
        Instruction::LdDtVx { x } => byte_word(0xF, x, 0x15),
        Instruction::LdStVx { x } => byte_word(0xF, x, 0x18),
        Instruction::AddI { x } => byte_word(0xF, x, 0x1E),
        Instruction::LdF { x } => byte_word(0xF, x, 0x29),
        Instruction::LdB { x } => byte_word(0xF, x, 0x33),
        Instruction::LdIVx { x } => byte_word(0xF, x, 0x55),
        Instruction::LdVxI { x } => byte_word(0xF, x, 0x65),
        Instruction::Unknown => 0xFFFF,
    }
}

/// The name of an instruction, with its operands in brackets.
pub open spec fn mnemonic(instruction: Instruction) -> Seq<char> {
    match instruction {
        Instruction::Cls => "CLS"@,
        Instruction::Ret => "RET"@,
        Instruction::Sys { .. } => "SYS"@,
        Instruction::Jp { .. } => "JP (addr)"@,
        Instruction::Call { .. } => "CALL (addr)"@,
        Instruction::SeByte { .. } => "SE (Vx, byte)"@,
        Instruction::SneByte { .. } => "SNE (Vx, byte)"@,
        Instruction::SeReg { .. } => "SE (Vx, Vy)"@,
        Instruction::LdByte { .. } => "LD (Vx, byte)"@,
        Instruction::AddByte { .. } => "ADD (Vx, byte)"@,
        Instruction::LdReg { .. } => "LD (Vx, Vy)"@,
        Instruction::Or { .. } => "OR (Vx, Vy)"@,
        Instruction::And { .. } => "AND (Vx, Vy)"@,
        Instruction::Xor { .. } => "XOR (Vx, Vy)"@,
        Instruction::AddReg { .. } => "ADD (Vx, Vy)"@,
        Instruction::Sub { .. } => "SUB (Vx, Vy)"@,
        Instruction::Shr { .. } => "SHR (Vx, Vy)"@,
        Instruction::Subn { .. } => "SUBN (Vy, Vy)"@,
        Instruction::Shl { .. } => "SHL (Vx, Vy)"@,
        Instruction::SneReg { .. } => "SNE (Vy, Vy)"@,
        Instruction::LdI { .. } => "LD (I, addr)"@,
        Instruction::JpV0 { .. } => "JP (V0, addr)"@,
        Instruction::Rnd { .. } => "RND (Vy, byte)"@,
        Instruction::Drw { .. } => "DRW (Vx, Vy, nibble)"@,
        Instruction::Skp { .. } => "SKP (Vx)"@,
        Instruction::Sknp { .. } => "SKNP (Vx)"@,
        Instruction::LdVxDt { .. } => "LD (Vx, DT)"@,
        Instruction::LdVxK { .. } => "LD (Vx, K)"@,
        Instruction::LdDtVx { .. } => "LD (DT, Vx)"@,
        Instruction::LdStVx { .. } => "LD (ST, Vx)"@,
        Instruction::AddI { .. } => "ADD (I, Vx)"@,
        Instruction::LdF { .. } => "LD (F, Vx)"@,
        Instruction::LdB { .. } => "LD (B, Vx)"@,
        Instruction::LdIVx { .. } => "LD (I, Vx)"@,
        Instruction::LdVxI { .. } => "LD (Vx, I)"@,
        Instruction::Unknown => "?"@,
    }
}

/// The fields of an instruction word, cut out with masks and shifts, are its
/// digits in base sixteen.
pub proof fn lemma_fields(opcode: u16)
    ensures
        (opcode & 0xF000) >> 12 == opcode / 0x1000,
        (opcode & 0x0F00) >> 8 == (opcode / 0x100) % 0x10,
        (opcode & 0x00F0) >> 4 == (opcode / 0x10) % 0x10,
        opcode & 0x000F == opcode % 0x10,
        opcode & 0x00FF == opcode % 0x100,
        opcode & 0x0FFF == opcode % 0x1000,
{
    assert((opcode & 0xF000) >> 12 == opcode / 0x1000) by (bit_vector);
    assert((opcode & 0x0F00) >> 8 == (opcode / 0x100) % 0x10) by (bit_vector);
    assert((opcode & 0x00F0) >> 4 == (opcode / 0x10) % 0x10) by (bit_vector);
    assert(opcode & 0x000F == opcode % 0x10) by (bit_vector);
    assert(opcode & 0x00FF == opcode % 0x100) by (bit_vector);
    assert(opcode & 0x0FFF == opcode % 0x1000) by (bit_vector);
}

impl Instruction {
    /// Whether the register numbers and the row count fit in four bits and
    /// the address in twelve.
    pub open spec fn well_formed(self) -> bool {
        match self {
            Instruction::Cls | Instruction::Ret | Instruction::Unknown => true,
            Instruction::Sys { address }
            | Instruction::Jp { address }
            | Instruction::Call { address }
            | Instruction::LdI { address }
            | Instruction::JpV0 { address } => address < 0x1000,
            Instruction::SeByte { x, .. }
            | Instruction::SneByte { x, .. }
            | Instruction::LdByte { x, .. }
            | Instruction::AddByte { x, .. }
            | Instruction::Rnd { x, .. }
            | Instruction::Skp { x }
            | Instruction::Sknp { x }
            | Instruction::LdVxDt { x }
            | Instruction::LdVxK { x }
            | Instruction::LdDtVx { x }
            | Instruction::LdStVx { x }
            | Instruction::AddI { x }
            | Instruction::LdF { x }
            | Instruction::LdB { x }
            | Instruction::LdIVx { x }
            | Instruction::LdVxI { x } => x < 0x10,
            Instruction::SeReg { x, y }
            | Instruction::LdReg { x, y }
            | Instruction::Or { x, y }
            | Instruction::And { x, y }
            | Instruction::Xor { x, y }
            | Instruction::AddReg { x, y }
            | Instruction::Sub { x, y }
            | Instruction::Shr { x, y }
            | Instruction::Subn { x, y }
            | Instruction::Shl { x, y }
            | Instruction::SneReg { x, y } => x < 0x10 && y < 0x10,
            Instruction::Drw { x, y, rows } => x < 0x10 && y < 0x10 && rows < 0x10,
        }
    }

    /// Decodes an instruction word.
    pub fn decode(opcode: u16) -> (instruction: Instruction)
        ensures
            instruction == decoded(opcode),
            instruction.well_formed(),
    {
        proof {
            lemma_fields(opcode);
        }
        let first: u8 = ((opcode & 0xF000) >> 12) as u8;
        let x: u8 = ((opcode & 0x0F00) >> 8) as u8;
        let y: u8 = ((opcode & 0x00F0) >> 4) as u8;
        let last: u8 = (opcode & 0x000F) as u8;
        let value: u8 = (opcode & 0x00FF) as u8;
        let address: u16 = opcode & 0x0FFF;
        match (first, x, y, last) {
            (0x0, 0x0, 0xE, 0x0) => Instruction::Cls,
            (0x0, 0x0, 0xE, 0xE) => Instruction::Ret,
            (0x0, _, _, _) => Instruction::Sys { address },
            (0x1, _, _, _) => Instruction::Jp { address },
            (0x2, _, _, _) => Instruction::Call { address },
            (0x3, _, _, _) => Instruction::SeByte { x, value },
            (0x4, _, _, _) => Instruction::SneByte { x, value },
            (0x5, _, _, 0x0) => Instruction::SeReg { x, y },
            (0x6, _, _, _) => Instruction::LdByte { x, value },
            (0x7, _, _, _) => Instruction::AddByte { x, value },
            (0x8, _, _, 0x0) => Instruction::LdReg { x, y },
            (0x8, _, _, 0x1) => Instruction::Or { x, y },
            (0x8, _, _, 0x2) => Instruction::And { x, y },
            (0x8, _, _, 0x3) => Instruction::Xor { x, y },
            (0x8, _, _, 0x4) => Instruction::AddReg { x, y },
            (0x8, _, _, 0x5) => Instruction::Sub { x, y },
            (0x8, _, _, 0x6) => Instruction::Shr { x, y },
            (0x8, _, _, 0x7) => Instruction::Subn { x, y },
            (0x8, _, _, 0xE) => Instruction::Shl { x, y },
            (0x9, _, _, 0x0) => Instruction::SneReg { x, y },
            (0xA, _, _, _) => Instruction::LdI { address },
            (0xB, _, _, _) => Instruction::JpV0 { address },
            (0xC, _, _, _) => Instruction::Rnd { x, value },
            (0xD, _, _, _) => Instruction::Drw { x, y, rows: last },
            (0xE, _, 0x9, 0xE) => Instruction::Skp { x },
            (0xE, _, 0xA, 0x1) => Instruction::Sknp { x },
            (0xF, _, 0x0, 0x7) => Instruction::LdVxDt { x },
            (0xF, _, 0x0, 0xA) => Instruction::LdVxK { x },
            (0xF, _, 0x1, 0x5) => Instruction::LdDtVx { x },
            (0xF, _, 0x1, 0x8) => Instruction::LdStVx { x },
            (0xF, _, 0x1, 0xE) => Instruction::AddI { x },
            (0xF, _, 0x2, 0x9) => Instruction::LdF { x },
            (0xF, _, 0x3, 0x3) => Instruction::LdB { x },
            (0xF, _, 0x5, 0x5) => Instruction::LdIVx { x },
            (0xF, _, 0x6, 0x5) => Instruction::LdVxI { x },
            _ => Instruction::Unknown,
        }
    }

    /// The name of this instruction, with its operands in brackets.
    pub fn name(&self) -> (name: &'static str)
        ensures
            name@ == mnemonic(*self),
    {
        match self {
            Instruction::Cls => "CLS",
            Instruction::Ret => "RET",
            Instruction::Sys { .. } => "SYS",
            Instruction::Jp { .. } => "JP (addr)",
            Instruction::Call { .. } => "CALL (addr)",
            Instruction::SeByte { .. } => "SE (Vx, byte)",
            Instruction::SneByte { .. } => "SNE (Vx, byte)",
            Instruction::SeReg { .. } => "SE (Vx, Vy)",
            Instruction::LdByte { .. } => "LD (Vx, byte)",
            Instruction::AddByte { .. } => "ADD (Vx, byte)",
            Instruction::LdReg { .. } => "LD (Vx, Vy)",
            Instruction::Or { .. } => "OR (Vx, Vy)",
            Instruction::And { .. } => "AND (Vx, Vy)",
            Instruction::Xor { .. } => "XOR (Vx, Vy)",
            Instruction::AddReg { .. } => "ADD (Vx, Vy)",
            Instruction::Sub { .. } => "SUB (Vx, Vy)",
            Instruction::Shr { .. } => "SHR (Vx, Vy)",
            Instruction::Subn { .. } => "SUBN (Vy, Vy)",
            Instruction::Shl { .. } => "SHL (Vx, Vy)",
            Instruction::SneReg { .. } => "SNE (Vy, Vy)",
            Instruction::LdI { .. } => "LD (I, addr)",
            Instruction::JpV0 { .. } => "JP (V0, addr)",
            Instruction::Rnd { .. } => "RND (Vy, byte)",
            Instruction::Drw { .. } => "DRW (Vx, Vy, nibble)",
            Instruction::Skp { .. } => "SKP (Vx)",
            Instruction::Sknp { .. } => "SKNP (Vx)",
            Instruction::LdVxDt { .. } => "LD (Vx, DT)",
            Instruction::LdVxK { .. } => "LD (Vx, K)",
            Instruction::LdDtVx { .. } => "LD (DT, Vx)",
            Instruction::LdStVx { .. } => "LD (ST, Vx)",
            Instruction::AddI { .. } => "ADD (I, Vx)",
            Instruction::LdF { .. } => "LD (F, Vx)",
            Instruction::LdB { .. } => "LD (B, Vx)",
            Instruction::LdIVx { .. } => "LD (I, Vx)",
            Instruction::LdVxI { .. } => "LD (Vx, I)",
            Instruction::Unknown => "?",
        }
    }
}

} // verus!
