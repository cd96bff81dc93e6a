//! The flow of control: skips, calls and returns, waits, and words that are
//! not carried out.

use crate::instruction::{decoded, Instruction};
use crate::keypad::KEY_COUNT;
use crate::semantics::{
    after_timers, cycle, execute, fetch, jump, lowest_pressed, next, run, with_register, word_at,
    CpuView, Fault, Machine, INSTRUCTION_BYTES, SCANNED_KEYS,
};
use vstd::prelude::*;

verus! {

/// Whether `instruction` sets the program counter itself, moves it by more
/// or less than one instruction, or is not carried out.
pub open spec fn breaks_sequence(instruction: Instruction) -> bool {
    instruction is Ret || instruction is Jp || instruction is Call || instruction is JpV0
        || is_skip(instruction) || instruction is Skp || instruction is Sknp
        || instruction is LdVxK || instruction is Sys || instruction is Unknown
}

/// Every instruction that goes through, and is none of the jumps, calls,
/// returns, skips and waits, adds exactly 2 to the program counter.
pub proof fn lemma_advances_by_two(
    m: Machine,
    keys: Seq<bool>,
    instruction: Instruction,
    random: u8,
)
    requires
        !breaks_sequence(instruction),
    ensures
        run(m, keys, instruction, random) matches Ok(after) ==> after.cpu.pc == m.cpu.pc
            + INSTRUCTION_BYTES,
{
}

/// Whether `instruction` is one of the four conditional skips on registers:
/// `3xkk`, `4xkk`, `5xy0` and `9xy0`.
pub open spec fn is_skip(instruction: Instruction) -> bool {
    instruction is SeByte || instruction is SneByte || instruction is SeReg
        || instruction is SneReg
}

/// The condition on which a conditional skip skips.
pub open spec fn skips(instruction: Instruction, v: Seq<u8>) -> bool {
    match instruction {
        Instruction::SeByte { x, value } => v[x as int] == value,
        Instruction::SneByte { x, value } => v[x as int] != value,
        Instruction::SeReg { x, y } => v[x as int] == v[y as int],
        Instruction::SneReg { x, y } => v[x as int] != v[y as int],
        _ => false,
    }
}

/// A conditional skip adds exactly 4 to the program counter where its
/// condition holds and exactly 2 where it does not, and changes nothing
/// else. It faults only where the program counter cannot go that far.
pub proof fn lemma_skip(m: Machine, keys: Seq<bool>, instruction: Instruction, random: u8)
    requires
        is_skip(instruction),
    ensures
        ({
            let by: int = if skips(instruction, m.cpu.v) {
                4
            } else {
                2
            };
            run(m, keys, instruction, random) == if m.cpu.pc + by > usize::MAX {
                Err::<Machine, Fault>(Fault::ProgramCounterOverflow)
            } else {
                Ok::<Machine, Fault>(jump(m, (m.cpu.pc + by) as usize))
            }
        }),
{
}

/// A skip on a key adds exactly 4 to the program counter where the key that
/// `Vx` names is down, for `Ex9E`, or up, for `ExA1`, and exactly 2 where it
/// is not, and changes nothing else.
pub proof fn lemma_key_skip(m: Machine, keys: Seq<bool>, x: u8, on_down: bool, random: u8)
    requires
        m.cpu.v[x as int] < KEY_COUNT,
    ensures
        ({
            let instruction = if on_down {
                Instruction::Skp { x }
            } else {
                Instruction::Sknp { x }
            };
            let by: int = if keys[m.cpu.v[x as int] as int] == on_down {
                4
            } else {
                2
            };
            run(m, keys, instruction, random) == if m.cpu.pc + by > usize::MAX {
                Err::<Machine, Fault>(Fault::ProgramCounterOverflow)
            } else {
                Ok::<Machine, Fault>(jump(m, (m.cpu.pc + by) as usize))
            }
        }),
{
}

/// A call followed by a return brings the program counter to the
/// instruction after the call and the stack pointer back to where it was:
/// where the call goes through, the return gives the machine as it was
/// before the call but for the program counter, which is 2 further, and the
/// stack slot that held the return address. The return faults only where
/// the program counter cannot go that far.
pub proof fn lemma_call_then_return(
    m: Machine,
    keys: Seq<bool>,
    address: u16,
    random: u8,
    later_keys: Seq<bool>,
    later_random: u8,
)
    requires
        m.cpu.well_formed(),
    ensures
        run(m, keys, Instruction::Call { address }, random) matches Ok(called) ==> {
            &&& called.cpu.pc == address
            &&& called.cpu.sp == m.cpu.sp + 1
            &&& run(called, later_keys, Instruction::Ret, later_random) == if m.cpu.pc
                + INSTRUCTION_BYTES > usize::MAX {
                Err::<Machine, Fault>(Fault::ProgramCounterOverflow)
            } else {
                Ok::<Machine, Fault>(
                    Machine {
                        cpu: CpuView {
                            pc: (m.cpu.pc + INSTRUCTION_BYTES) as usize,
                            stack: m.cpu.stack.update(m.cpu.sp + 1, m.cpu.pc),
                            ..m.cpu
                        },
                        ..m
                    },
                )
            }
        },
{
    if let Ok(called) = run(m, keys, Instruction::Call { address }, random) {
        if m.cpu.pc + INSTRUCTION_BYTES <= usize::MAX {
            let returned = run(called, later_keys, Instruction::Ret, later_random);
            let expected = Machine {
                cpu: CpuView {
                    pc: (m.cpu.pc + INSTRUCTION_BYTES) as usize,
                    stack: m.cpu.stack.update(m.cpu.sp + 1, m.cpu.pc),
                    ..m.cpu
                },
                ..m
            };
            assert(returned->Ok_0 =~= expected);
        }
    }
}

/// Whether one of the keys that a wait for a key looks at is held down.
pub open spec fn any_scanned(keys: Seq<bool>) -> bool {
    exists|key: int| 0 <= key < SCANNED_KEYS && keys[key]
}

/// Whether `key` is the lowest of the scanned keys that is held down.
pub open spec fn is_lowest_scanned(keys: Seq<bool>, key: int) -> bool {
    &&& 0 <= key < SCANNED_KEYS
    &&& keys[key]
    &&& forall|lower: int| 0 <= lower < key ==> !keys[lower]
}

/// The lowest key held down from `from` on is the one that is held down
/// while none between `from` and it is; there is none where none is held
/// down.
pub proof fn lemma_lowest_pressed(keys: Seq<bool>, from: int, limit: int)
    requires
        0 <= from <= limit <= u8::MAX,
    ensures
        match lowest_pressed(keys, from, limit) {
            Some(key) => from <= key < limit && keys[key as int] && forall|lower: int|
                from <= lower < key ==> !keys[lower],
            None => forall|key: int| from <= key < limit ==> !keys[key],
        },
    decreases limit - from,
{
    if from < limit && !keys[from] {
        lemma_lowest_pressed(keys, from + 1, limit);
    }
}

/// A wait for a key with none of the scanned keys held down leaves the
/// machine exactly as it was, program counter included: the same
/// instruction is met again, however often this is repeated.
pub proof fn lemma_wait_without_key(m: Machine, keys: Seq<bool>, x: u8, random: u8)
    requires
        !any_scanned(keys),
    ensures
        run(m, keys, Instruction::LdVxK { x }, random) == Ok::<Machine, Fault>(m),
{
    lemma_lowest_pressed(keys, 0, SCANNED_KEYS as int);
}

/// A wait for a key with `key` the lowest scanned key held down puts `key`
/// in `Vx` and adds 2 to the program counter.
pub proof fn lemma_wait_with_key(m: Machine, keys: Seq<bool>, x: u8, key: u8, random: u8)
    requires
        is_lowest_scanned(keys, key as int),
    ensures
        run(m, keys, Instruction::LdVxK { x }, random) == next(with_register(m, x, key)),
        m.cpu.pc + INSTRUCTION_BYTES <= usize::MAX ==> (run(
            m,
            keys,
            Instruction::LdVxK { x },
            random,
        ) matches Ok(after) && after.cpu.pc == m.cpu.pc + INSTRUCTION_BYTES && after.cpu.v
            == m.cpu.v.update(x as int, key)),
{
    lemma_lowest_pressed(keys, 0, SCANNED_KEYS as int);
}

/// A cycle that meets a wait for a key while none of the scanned keys is
/// held down changes nothing but the timers, which run down as in any other
/// cycle: the program counter stays on the wait, so that the next cycle
/// meets it again.
pub proof fn lemma_waiting_cycle(
    m: Machine,
    keys: Seq<bool>,
    x: u8,
    random: u8,
    delta_time: u64,
)
    requires
        fetch(m) matches Ok(fetched) && decoded(fetched.cpu.opcode) == (Instruction::LdVxK { x }),
        !any_scanned(keys),
    ensures
        cycle(m, keys, random, delta_time) == Ok::<Machine, Fault>(
            Machine { cpu: after_timers(fetch(m)->Ok_0.cpu, delta_time), ..m },
        ),
        cycle(m, keys, random, delta_time)->Ok_0.cpu.pc == m.cpu.pc,
{
    reveal(execute);
    lemma_wait_without_key(fetch(m)->Ok_0, keys, x, random);
}

/// A cycle that meets a word that is not carried out, on a processor told
/// to pass over such words, changes nothing but the timers: the program
/// counter stays on the word.
pub proof fn lemma_ignored_word_stalls(m: Machine, keys: Seq<bool>, random: u8, delta_time: u64)
    requires
        m.cpu.ignore_unknown_instructions,
        fetch(m) matches Ok(fetched) && (decoded(fetched.cpu.opcode) is Unknown || decoded(
            fetched.cpu.opcode,
        ) is Sys),
    ensures
        cycle(m, keys, random, delta_time) == Ok::<Machine, Fault>(
            Machine { cpu: after_timers(fetch(m)->Ok_0.cpu, delta_time), ..m },
        ),
        cycle(m, keys, random, delta_time)->Ok_0.cpu.pc == m.cpu.pc,
{
    reveal(execute);
}

/// A cycle that meets a word that is not carried out, on a processor not
/// told to pass over such words, faults and names the word and where it is.
pub proof fn lemma_unknown_word_faults(m: Machine, keys: Seq<bool>, random: u8, delta_time: u64)
    requires
        !m.cpu.ignore_unknown_instructions,
        fetch(m) matches Ok(fetched) && (decoded(fetched.cpu.opcode) is Unknown || decoded(
            fetched.cpu.opcode,
        ) is Sys),
    ensures
        cycle(m, keys, random, delta_time) == Err::<Machine, Fault>(
            Fault::UnknownOpcode { opcode: word_at(m.memory, m.cpu.pc as int), pc: m.cpu.pc },
        ),
{
    reveal(execute);
}

/// Carrying out an instruction keeps the sixteen registers, the sixteen
/// stack slots and the size of the memory.
pub proof fn lemma_stays_well_formed(
    m: Machine,
    keys: Seq<bool>,
    instruction: Instruction,
    random: u8,
)
    requires
        m.cpu.well_formed(),
        instruction.well_formed(),
    ensures
        run(m, keys, instruction, random) matches Ok(after) ==> after.cpu.well_formed()
            && after.memory.len() == m.memory.len(),
{
    match instruction {
        Instruction::Drw { x, y, rows } => {},
        Instruction::LdB { x } => {},
        Instruction::LdIVx { x } => {},
        Instruction::LdVxI { x } => {},
        Instruction::LdVxK { x } => {},
        _ => {},
    }
}

} // verus!
