//! Decoding: every word means one thing, and the fields it is cut into are
//! in range.

use crate::instruction::{
    address_word, byte_word, decoded, encoded, low_address, low_byte, nibble1, nibble2, nibble3,
    nibble4, register_word, Instruction,
};
use vstd::arithmetic::div_mod::lemma_fundamental_div_mod_converse;
use vstd::prelude::*;

verus! {

/// Every word decodes to an instruction whose register numbers and row
/// count lie between 0 and 15 and whose address lies below 4096.
pub proof fn lemma_decoded_well_formed(opcode: u16)
    ensures
        decoded(opcode).well_formed(),
{
}

/// The fields of a word put together from four fields are those fields.
proof fn lemma_word_fields(family: int, x: u8, y: u8, last: int)
    requires
        0 <= family < 0x10,
        x < 0x10,
        y < 0x10,
        0 <= last < 0x10,
    ensures
        ({
            let word = register_word(family, x, y, last);
            &&& word == family * 0x1000 + x * 0x100 + y * 0x10 + last
            &&& nibble1(word) == family
            &&& nibble2(word) == x
            &&& nibble3(word) == y
            &&& nibble4(word) == last
            &&& low_byte(word) == y * 0x10 + last
            &&& low_address(word) == x * 0x100 + y * 0x10 + last
        }),
{
    let word = family * 0x1000 + x * 0x100 + y * 0x10 + last;
    lemma_fundamental_div_mod_converse(word, 0x1000, family, x * 0x100 + y * 0x10 + last);
    lemma_fundamental_div_mod_converse(word, 0x100, family * 0x10 + x, y * 0x10 + last);
    lemma_fundamental_div_mod_converse(word, 0x10, family * 0x100 + x * 0x10 + y, last);
    lemma_fundamental_div_mod_converse(family * 0x10 + x, 0x10, family, x as int);
    lemma_fundamental_div_mod_converse(
        family * 0x100 + x * 0x10 + y,
        0x10,
        family * 0x10 + x,
        y as int,
    );
}

/// A word is put together from its four fields.
proof fn lemma_fields_word(opcode: u16)
    ensures
        opcode == register_word(
            nibble1(opcode) as int,
            nibble2(opcode),
            nibble3(opcode),
            nibble4(opcode) as int,
        ),
        opcode == byte_word(nibble1(opcode) as int, nibble2(opcode), low_byte(opcode)),
        opcode == address_word(nibble1(opcode) as int, low_address(opcode)),
        nibble1(opcode) < 0x10,
        nibble2(opcode) < 0x10,
        nibble3(opcode) < 0x10,
        nibble4(opcode) < 0x10,
        low_byte(opcode) == nibble3(opcode) * 0x10 + nibble4(opcode),
{
    assert(opcode == (opcode / 0x1000) * 0x1000 + ((opcode / 0x100) % 0x10) * 0x100 + ((opcode
        / 0x10) % 0x10) * 0x10 + opcode % 0x10) by (bit_vector);
    assert(opcode == (opcode / 0x1000) * 0x1000 + ((opcode / 0x100) % 0x10) * 0x100 + opcode
        % 0x100) by (bit_vector);
    assert(opcode == (opcode / 0x1000) * 0x1000 + opcode % 0x1000) by (bit_vector);
    assert(opcode % 0x100 == ((opcode / 0x10) % 0x10) * 0x10 + opcode % 0x10) by (bit_vector);
    assert(opcode / 0x1000 < 0x10) by (bit_vector);
}

/// Decoding undoes encoding: the word that holds an instruction decodes to
/// that instruction. The two words `00E0` and `00EE` are taken: the machine
/// routines at `0x0E0` and `0x0EE` have no word of their own.
pub proof fn lemma_decode_encoded(instruction: Instruction)
    requires
        instruction.well_formed(),
        instruction matches Instruction::Sys { address } ==> address != 0x0E0 && address != 0x0EE,
    ensures
        decoded(encoded(instruction)) == instruction,
{
    let word = encoded(instruction);
    lemma_fields_word(word);
    match instruction {
        Instruction::Cls | Instruction::Ret | Instruction::Unknown => {},
        Instruction::Sys { address } => {
            lemma_address_fields(0x0, address);
        },
        Instruction::Jp { address } => {
            lemma_address_fields(0x1, address);
        },
        Instruction::Call { address } => {
            lemma_address_fields(0x2, address);
        },
        Instruction::LdI { address } => {
            lemma_address_fields(0xA, address);
        },
        Instruction::JpV0 { address } => {
            lemma_address_fields(0xB, address);
        },
        Instruction::SeByte { x, value } => {
            lemma_byte_fields(0x3, x, value);
        },
        Instruction::SneByte { x, value } => {
            lemma_byte_fields(0x4, x, value);
        },
        Instruction::LdByte { x, value } => {
            lemma_byte_fields(0x6, x, value);
        },
        Instruction::AddByte { x, value } => {
            lemma_byte_fields(0x7, x, value);
        },
        Instruction::Rnd { x, value } => {
            lemma_byte_fields(0xC, x, value);
        },
        Instruction::Skp { x } => {
            lemma_byte_fields(0xE, x, 0x9E);
        },
        Instruction::Sknp { x } => {
            lemma_byte_fields(0xE, x, 0xA1);
        },
        Instruction::LdVxDt { x } => {
            lemma_byte_fields(0xF, x, 0x07);
        },
        Instruction::LdVxK { x } => {
            lemma_byte_fields(0xF, x, 0x0A);
        },
        Instruction::LdDtVx { x } => {
            lemma_byte_fields(0xF, x, 0x15);
        },
        Instruction::LdStVx { x } => {
            lemma_byte_fields(0xF, x, 0x18);
        },
        Instruction::AddI { x } => {
            lemma_byte_fields(0xF, x, 0x1E);
        },
        Instruction::LdF { x } => {
            lemma_byte_fields(0xF, x, 0x29);
        },
        Instruction::LdB { x } => {
            lemma_byte_fields(0xF, x, 0x33);
        },
        Instruction::LdIVx { x } => {
            lemma_byte_fields(0xF, x, 0x55);
        },
        Instruction::LdVxI { x } => {
            lemma_byte_fields(0xF, x, 0x65);
        },
        Instruction::SeReg { x, y } => {
            lemma_word_fields(0x5, x, y, 0x0);
        },
        Instruction::LdReg { x, y } => {
            lemma_word_fields(0x8, x, y, 0x0);
        },
        Instruction::Or { x, y } => {
            lemma_word_fields(0x8, x, y, 0x1);
        },
        Instruction::And { x, y } => {
            lemma_word_fields(0x8, x, y, 0x2);
        },
        Instruction::Xor { x, y } => {
            lemma_word_fields(0x8, x, y, 0x3);
        },
        Instruction::AddReg { x, y } => {
            lemma_word_fields(0x8, x, y, 0x4);
        },
        Instruction::Sub { x, y } => {
            lemma_word_fields(0x8, x, y, 0x5);
        },
        Instruction::Shr { x, y } => {
            lemma_word_fields(0x8, x, y, 0x6);
        },
        Instruction::Subn { x, y } => {
            lemma_word_fields(0x8, x, y, 0x7);
        },
        Instruction::Shl { x, y } => {
            lemma_word_fields(0x8, x, y, 0xE);
        },
        Instruction::SneReg { x, y } => {
            lemma_word_fields(0x9, x, y, 0x0);
        },
        Instruction::Drw { x, y, rows } => {
            lemma_word_fields(0xD, x, y, rows as int);
        },
    }
}

/// The fields of a word put together from a family, a register and a byte.
proof fn lemma_byte_fields(family: int, x: u8, value: u8)
    requires
        0 <= family < 0x10,
        x < 0x10,
    ensures
        ({
            let word = byte_word(family, x, value);
            &&& nibble1(word) == family
            &&& nibble2(word) == x
            &&& nibble4(word) == value % 0x10
            &&& low_byte(word) == value
        }),
{
}

/// The fields of a word put together from a family and an address.
proof fn lemma_address_fields(family: int, address: u16)
    requires
        0 <= family < 0x10,
        address < 0x1000,
    ensures
        ({
            let word = address_word(family, address);
            &&& nibble1(word) == family
            &&& low_address(word) == address
            &&& word == family * 0x1000 + address
        }),
{
}

/// Encoding undoes decoding: a word that decodes to an instruction is the
/// word that holds it. No two words decode to the same instruction.
pub proof fn lemma_encode_decoded(opcode: u16)
    requires
        decoded(opcode) != Instruction::Unknown,
    ensures
        encoded(decoded(opcode)) == opcode,
{
    lemma_fields_word(opcode);
}

} // verus!
