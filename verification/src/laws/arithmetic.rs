//! The arithmetic instructions: where the flag and the result come from.

use crate::instruction::Instruction;
use crate::semantics::{
    carry, no_borrow, run, wrapped_difference, wrapped_sum, Machine, FLAG_REGISTER,
};
use vstd::prelude::*;

verus! {

/// Whether `instruction` is one of the five that set the flag register from
/// their operands: `8xy4`, `8xy5`, `8xy6`, `8xy7` and `8xyE`.
pub open spec fn sets_flag(instruction: Instruction) -> bool {
    instruction is AddReg || instruction is Sub || instruction is Shr || instruction is Subn
        || instruction is Shl
}

/// The register that an arithmetic instruction writes its result to.
pub open spec fn target(instruction: Instruction) -> u8 {
    match instruction {
        Instruction::AddReg { x, .. } => x,
        Instruction::Sub { x, .. } => x,
        Instruction::Shr { x, .. } => x,
        Instruction::Subn { x, .. } => x,
        Instruction::Shl { x, .. } => x,
        _ => 0,
    }
}

/// The flag that an arithmetic instruction derives from the registers `v`:
/// the carry of the sum, whether the difference borrows nothing, or the bit
/// that the shift pushes out.
pub open spec fn flag_of(instruction: Instruction, v: Seq<u8>) -> u8 {
    match instruction {
        Instruction::AddReg { x, y } => carry(v[x as int], v[y as int]),
        Instruction::Sub { x, y } => no_borrow(v[x as int], v[y as int]),
        Instruction::Shr { x, .. } => v[x as int] % 2,
        Instruction::Subn { x, y } => no_borrow(v[y as int], v[x as int]),
        Instruction::Shl { x, .. } => v[x as int] / 0x80,
        _ => 0,
    }
}

/// The flag of an arithmetic instruction comes from the registers as they
/// were before the instruction, never from its result: where the result
/// does not itself go to the flag register, the flag register ends up
/// holding `flag_of` the registers before. For `8xy4` this holds even where
/// the result goes to the flag register, as the carry is written last.
pub proof fn lemma_flag_from_operands(
    m: Machine,
    keys: Seq<bool>,
    instruction: Instruction,
    random: u8,
)
    requires
        m.cpu.well_formed(),
        instruction.well_formed(),
        sets_flag(instruction),
        target(instruction) != FLAG_REGISTER || instruction is AddReg,
    ensures
        run(m, keys, instruction, random) matches Ok(after) ==> after.cpu.v[FLAG_REGISTER as int]
            == flag_of(instruction, m.cpu.v),
{
}

/// Whether `instruction` is one of the four of the arithmetic family that
/// set no flag: `8xy0`, `8xy1`, `8xy2` and `8xy3`.
pub open spec fn is_logic(instruction: Instruction) -> bool {
    instruction is LdReg || instruction is Or || instruction is And || instruction is Xor
}

/// The register that a logic instruction writes its result to.
pub open spec fn logic_target(instruction: Instruction) -> u8 {
    match instruction {
        Instruction::LdReg { x, .. } => x,
        Instruction::Or { x, .. } => x,
        Instruction::And { x, .. } => x,
        Instruction::Xor { x, .. } => x,
        _ => 0,
    }
}

/// The copy and the three bitwise instructions leave the flag register
/// alone, unless it is the register they write their result to; and they
/// change no register but that one.
pub proof fn lemma_logic_keeps_flag(
    m: Machine,
    keys: Seq<bool>,
    instruction: Instruction,
    random: u8,
    register: int,
)
    requires
        m.cpu.well_formed(),
        instruction.well_formed(),
        is_logic(instruction),
        0 <= register < m.cpu.v.len(),
        register != logic_target(instruction),
    ensures
        run(m, keys, instruction, random) matches Ok(after) ==> after.cpu.v[register]
            == m.cpu.v[register],
{
}

/// What an arithmetic instruction makes of the registers `v`: the sum or
/// the difference cut to a byte, or the shifted byte.
pub open spec fn result_of(instruction: Instruction, v: Seq<u8>) -> u8 {
    match instruction {
        Instruction::AddReg { x, y } => wrapped_sum(v[x as int], v[y as int]),
        Instruction::Sub { x, y } => wrapped_difference(v[x as int], v[y as int]),
        Instruction::Shr { x, .. } => v[x as int] / 2,
        Instruction::Subn { x, y } => wrapped_difference(v[y as int], v[x as int]),
        Instruction::Shl { x, .. } => ((v[x as int] * 2) % 0x100) as u8,
        _ => 0,
    }
}

/// The second operand of an arithmetic instruction, if it reads one.
pub open spec fn second_operand(instruction: Instruction) -> Option<u8> {
    match instruction {
        Instruction::AddReg { y, .. } => Some(y),
        Instruction::Sub { y, .. } => Some(y),
        Instruction::Subn { y, .. } => Some(y),
        _ => None,
    }
}

/// The result of an arithmetic instruction comes from the registers as they
/// were before the instruction, where neither the result goes to the flag
/// register nor an operand is read from it. No other register changes.
pub proof fn lemma_result_from_operands(
    m: Machine,
    keys: Seq<bool>,
    instruction: Instruction,
    random: u8,
)
    requires
        m.cpu.well_formed(),
        instruction.well_formed(),
        sets_flag(instruction),
        target(instruction) != FLAG_REGISTER,
        second_operand(instruction) != Some(FLAG_REGISTER),
    ensures
        run(m, keys, instruction, random) matches Ok(after) ==> after.cpu.v == m.cpu.v.update(
            target(instruction) as int,
            result_of(instruction, m.cpu.v),
        ).update(FLAG_REGISTER as int, flag_of(instruction, m.cpu.v)),
{
    if let Ok(after) = run(m, keys, instruction, random) {
        assert(after.cpu.v =~= m.cpu.v.update(
            target(instruction) as int,
            result_of(instruction, m.cpu.v),
        ).update(FLAG_REGISTER as int, flag_of(instruction, m.cpu.v)));
    }
}

} // verus!
