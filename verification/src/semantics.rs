//! What each instruction does, as a function from one machine state to the
//! next.
//!
//! A machine is the processor together with the memory and the screen it
//! works on. Carrying out an instruction either gives the next machine or a
//! fault; a fault leaves the machine as it was. The keypad is only read, and
//! the one instruction that draws a random byte takes it as an argument.

use crate::display::{blank, collision_flag, drawn, Screen};
use crate::instruction::{decoded, Instruction};
use crate::keypad::KEY_COUNT;
use crate::timer::{decayed, ticks_completed, ticks_started, whole};
use vstd::prelude::*;

verus! {

/// Number of general registers, `V0` to `VF`.
pub const REGISTER_COUNT: usize = 16;

/// Number of slots of the call stack. Slot 0 is never written: a call first
/// raises the stack pointer.
pub const STACK_SIZE: usize = 16;

/// The register that doubles as carry, borrow and collision flag.
pub const FLAG_REGISTER: u8 = 0xF;

/// Number of bytes of one instruction.
pub const INSTRUCTION_BYTES: usize = 2;

/// Number of bytes that a skip moves on: over the next instruction too.
pub const SKIP_BYTES: usize = 4;

/// Number of bytes of one glyph of the built-in font.
pub const FONT_WIDTH: usize = 5;

/// Number of bytes of the built-in font: sixteen glyphs.
pub const FONT_BYTES: usize = 80;

/// The keys that a wait for a key looks at are those below this one: key
/// `0xF` is never seen by it.
pub const SCANNED_KEYS: u8 = 0xF;

/// Why an instruction could not be carried out.
#[derive(Clone, Copy, Debug, PartialEq, Eq, Structural)]
pub enum Fault {
    /// The word at `pc` is no instruction, or one that is not carried out,
    /// and the processor was not told to pass over such words.
    UnknownOpcode { opcode: u16, pc: usize },
    /// A return with no call pending.
    StackUnderflow,
    /// A call with every slot taken, or a stack pointer beyond the stack.
    StackOverflow,
    /// The bytes that the instruction needs, from `address` on, do not all
    /// lie within memory.
    MemoryOutOfBounds { address: usize },
    /// A key was asked for that the keypad does not have.
    InvalidKey { key: u8 },
    /// The program counter would pass the largest address there is.
    ProgramCounterOverflow,
}

/// The state of the processor.
///
/// The two timers each come with what is left of them in thousandths of a
/// tick, so that steps shorter than a tick add up.
#[verifier::ext_equal]
pub struct CpuView {
    pub opcode: u16,
    pub pc: usize,
    pub v: Seq<u8>,
    pub i: u16,
    pub delay_timer: u8,
    pub delay_left: u32,
    pub sound_timer: u8,
    pub sound_left: u32,
    pub stack: Seq<usize>,
    pub sp: u8,
    pub clock_rate: u32,
    pub ignore_unknown_instructions: bool,
    pub program_address: usize,
}

impl CpuView {
    /// Sixteen registers and sixteen stack slots.
    pub open spec fn well_formed(self) -> bool {
        &&& self.v.len() == REGISTER_COUNT
        &&& self.stack.len() == STACK_SIZE
    }
}

/// The processor with the memory and the screen it works on.
#[verifier::ext_equal]
pub struct Machine {
    pub cpu: CpuView,
    pub memory: Seq<u8>,
    pub screen: Screen,
}

/// The machine with register `x` set to `value`.
pub open spec fn with_register(m: Machine, x: u8, value: u8) -> Machine {
    Machine { cpu: CpuView { v: m.cpu.v.update(x as int, value), ..m.cpu }, ..m }
}

/// The machine with the address register set to `address`.
pub open spec fn with_index(m: Machine, address: u16) -> Machine {
    Machine { cpu: CpuView { i: address, ..m.cpu }, ..m }
}

/// The machine with the program counter set to `pc`.
pub open spec fn jump(m: Machine, pc: usize) -> Machine {
    Machine { cpu: CpuView { pc, ..m.cpu }, ..m }
}

/// The machine with the program counter moved on by `by` bytes.
pub open spec fn advance(m: Machine, by: int) -> Result<Machine, Fault> {
    if m.cpu.pc + by > usize::MAX {
        Err(Fault::ProgramCounterOverflow)
    } else {
        Ok(jump(m, (m.cpu.pc + by) as usize))
    }
}

/// The machine gone on to the next instruction.
pub open spec fn next(m: Machine) -> Result<Machine, Fault> {
    advance(m, INSTRUCTION_BYTES as int)
}

/// The machine gone on past the next instruction if `condition` holds, and
/// to it otherwise.
pub open spec fn skip_if(m: Machine, condition: bool) -> Result<Machine, Fault> {
    if condition {
        advance(m, SKIP_BYTES as int)
    } else {
        advance(m, INSTRUCTION_BYTES as int)
    }
}

/// The sum of two bytes, cut to a byte.
pub open spec fn wrapped_sum(a: u8, b: u8) -> u8 {
    ((a + b) % 0x100) as u8
}

/// The difference of two bytes, cut to a byte.
pub open spec fn wrapped_difference(a: u8, b: u8) -> u8 {
    ((a - b) % 0x100) as u8
}

/// 1 if the sum of two bytes does not fit in a byte, else 0.
pub open spec fn carry(a: u8, b: u8) -> u8 {
    if a + b > 0xFF {
        1
    } else {
        0
    }
}

/// 1 if `a` is greater than `b`, so that `a - b` borrows nothing, else 0.
pub open spec fn no_borrow(a: u8, b: u8) -> u8 {
    if a > b {
        1
    } else {
        0
    }
}

/// The sum of an address and an offset, cut to sixteen bits.
pub open spec fn wrapped_address(address: u16, offset: int) -> u16 {
    ((address + offset) % 0x1_0000) as u16
}

/// `00EE`: the program counter comes off the stack slot that the stack
/// pointer names, the stack pointer goes down by one, and execution goes on
/// with the instruction after the call.
pub open spec fn ret(m: Machine) -> Result<Machine, Fault> {
    if m.cpu.sp == 0 {
        Err(Fault::StackUnderflow)
    } else if m.cpu.sp >= STACK_SIZE {
        Err(Fault::StackOverflow)
    } else {
        next(
            Machine {
                cpu: CpuView {
                    pc: m.cpu.stack[m.cpu.sp as int],
                    sp: (m.cpu.sp - 1) as u8,
                    ..m.cpu
                },
                ..m
            },
        )
    }
}

/// `2nnn`: the stack pointer goes up by one, the program counter of the call
/// itself goes to the slot it then names, and execution goes on at `address`.
pub open spec fn call(m: Machine, address: u16) -> Result<Machine, Fault> {
    if m.cpu.sp + 1 >= STACK_SIZE {
        Err(Fault::StackOverflow)
    } else {
        Ok(
            Machine {
                cpu: CpuView {
                    pc: address as usize,
                    sp: (m.cpu.sp + 1) as u8,
                    stack: m.cpu.stack.update(m.cpu.sp + 1, m.cpu.pc),
                    ..m.cpu
                },
                ..m
            },
        )
    }
}

/// `8xy4`: the sum goes to `Vx`, then the carry to `VF`.
pub open spec fn add_registers(m: Machine, x: u8, y: u8) -> Machine {
    let a = m.cpu.v[x as int];
    let b = m.cpu.v[y as int];
    with_register(with_register(m, x, wrapped_sum(a, b)), FLAG_REGISTER, carry(a, b))
}

/// `8xy5`: `VF` says whether `Vx > Vy`, then `Vx - Vy` goes to `Vx`. The
/// difference is taken after the flag is written: where `x` or `y` is the
/// flag register, it is the flag that is subtracted or subtracted from.
pub open spec fn subtract(m: Machine, x: u8, y: u8) -> Machine {
    let flagged = with_register(
        m,
        FLAG_REGISTER,
        no_borrow(m.cpu.v[x as int], m.cpu.v[y as int]),
    );
    with_register(
        flagged,
        x,
        wrapped_difference(flagged.cpu.v[x as int], flagged.cpu.v[y as int]),
    )
}

/// `8xy7`: `VF` says whether `Vy > Vx`, then `Vy - Vx` goes to `Vx`, taken
/// after the flag is written.
pub open spec fn subtract_reversed(m: Machine, x: u8, y: u8) -> Machine {
    let flagged = with_register(
        m,
        FLAG_REGISTER,
        no_borrow(m.cpu.v[y as int], m.cpu.v[x as int]),
    );
    with_register(
        flagged,
        x,
        wrapped_difference(flagged.cpu.v[y as int], flagged.cpu.v[x as int]),
    )
}

/// `8xy6`: the lowest bit of `Vx` goes to `VF`, then `Vx` is halved.
pub open spec fn shift_right(m: Machine, x: u8) -> Machine {
    let flagged = with_register(m, FLAG_REGISTER, m.cpu.v[x as int] % 2);
    with_register(flagged, x, flagged.cpu.v[x as int] / 2)
}

/// `8xyE`: the highest bit of `Vx` goes to `VF`, then `Vx` is doubled and
/// cut to a byte.
pub open spec fn shift_left(m: Machine, x: u8) -> Machine {
    let flagged = with_register(m, FLAG_REGISTER, m.cpu.v[x as int] / 0x80);
    with_register(flagged, x, ((flagged.cpu.v[x as int] * 2) % 0x100) as u8)
}

/// `Dxyn`: the `rows` bytes at `I` are drawn as a sprite at `(Vx, Vy)`, and
/// `VF` says whether that turned a lit pixel off.
pub open spec fn draw(m: Machine, x: u8, y: u8, rows: u8) -> Result<Machine, Fault> {
    let start = m.cpu.i as int;
    if start + rows > m.memory.len() {
        Err(Fault::MemoryOutOfBounds { address: m.cpu.i as usize })
    } else {
        let sprite = m.memory.subrange(start, start + rows);
        let left = m.cpu.v[x as int] as int;
        let top = m.cpu.v[y as int] as int;
        next(
            Machine {
                screen: Screen {
                    pixels: drawn(m.screen.pixels, left, top, sprite),
                    needs_redraw: true,
                },
                ..with_register(
                    m,
                    FLAG_REGISTER,
                    collision_flag(m.screen.pixels, left, top, sprite),
                )
            },
        )
    }
}

/// `Ex9E` and `ExA1`: skip if the key named by `Vx` is down (`wanted`) or up
/// (`!wanted`).
pub open spec fn skip_on_key(m: Machine, keys: Seq<bool>, x: u8, wanted: bool) -> Result<
    Machine,
    Fault,
> {
    let key = m.cpu.v[x as int];
    if key >= KEY_COUNT {
        Err(Fault::InvalidKey { key })
    } else {
        skip_if(m, keys[key as int] == wanted)
    }
}

/// The lowest key from `from` on and below `limit` that is held down.
pub open spec fn lowest_pressed(keys: Seq<bool>, from: int, limit: int) -> Option<u8>
    decreases limit - from,
{
    if from >= limit {
        None
    } else if keys[from] {
        Some(from as u8)
    } else {
        lowest_pressed(keys, from + 1, limit)
    }
}

/// `Fx0A`: if one of the scanned keys is down, the lowest of them goes to
/// `Vx` and execution goes on; if none is, nothing changes, so that the same
/// instruction is met again.
pub open spec fn wait_for_key(m: Machine, keys: Seq<bool>, x: u8) -> Result<Machine, Fault> {
    match lowest_pressed(keys, 0, SCANNED_KEYS as int) {
        Some(key) => next(with_register(m, x, key)),
        None => Ok(m),
    }
}

/// `Fx15`: the delay timer is set to `Vx`, with whole ticks left.
pub open spec fn set_delay_timer(m: Machine, x: u8) -> Machine {
    let value = m.cpu.v[x as int];
    Machine { cpu: CpuView { delay_timer: value, delay_left: whole(value), ..m.cpu }, ..m }
}

/// `Fx18`: the sound timer is set to `Vx`, with whole ticks left.
pub open spec fn set_sound_timer(m: Machine, x: u8) -> Machine {
    let value = m.cpu.v[x as int];
    Machine { cpu: CpuView { sound_timer: value, sound_left: whole(value), ..m.cpu }, ..m }
}

/// The ones digit that `Fx33` stores. It is `(value % 100) & 10`, which is
/// not the last decimal digit of `value`.
pub open spec fn stored_ones(value: u8) -> u8 {
    (value % 100) & 10
}

/// `Fx33`: the hundreds and the tens digit of `Vx` go to `I` and `I + 1`, and
/// `stored_ones` goes to `I + 2`.
pub open spec fn store_decimal(m: Machine, x: u8) -> Result<Machine, Fault> {
    let at = m.cpu.i as int;
    let value = m.cpu.v[x as int];
    if at + 2 >= m.memory.len() {
        Err(Fault::MemoryOutOfBounds { address: m.cpu.i as usize })
    } else {
        next(
            Machine {
                memory: m.memory.update(at, value / 100).update(at + 1, (value / 10) % 10).update(
                    at + 2,
                    stored_ones(value),
                ),
                ..m
            },
        )
    }
}

/// The memory with the registers `V0` to `Vx` stored from `at` on.
pub open spec fn registers_stored(memory: Seq<u8>, v: Seq<u8>, at: int, x: int) -> Seq<u8> {
    Seq::new(
        memory.len(),
        |address: int|
            if at <= address <= at + x {
                v[address - at]
            } else {
                memory[address]
            },
    )
}

/// The registers with `V0` to `Vx` loaded from memory from `at` on.
pub open spec fn registers_loaded(memory: Seq<u8>, v: Seq<u8>, at: int, x: int) -> Seq<u8> {
    Seq::new(
        v.len(),
        |register: int|
            if register <= x {
                memory[at + register]
            } else {
                v[register]
            },
    )
}

/// `Fx55`: `V0` to `Vx` go to memory from `I` on, and `I` moves past them.
pub open spec fn store_registers(m: Machine, x: u8) -> Result<Machine, Fault> {
    let at = m.cpu.i as int;
    if at + x >= m.memory.len() {
        Err(Fault::MemoryOutOfBounds { address: m.cpu.i as usize })
    } else {
        next(
            Machine {
                cpu: CpuView { i: wrapped_address(m.cpu.i, x + 1), ..m.cpu },
                memory: registers_stored(m.memory, m.cpu.v, at, x as int),
                ..m
            },
        )
    }
}

/// `Fx65`: `V0` to `Vx` come from memory from `I` on, and `I` moves past
/// them.
pub open spec fn load_registers(m: Machine, x: u8) -> Result<Machine, Fault> {
    let at = m.cpu.i as int;
    if at + x >= m.memory.len() {
        Err(Fault::MemoryOutOfBounds { address: m.cpu.i as usize })
    } else {
        next(
            Machine {
                cpu: CpuView {
                    i: wrapped_address(m.cpu.i, x + 1),
                    v: registers_loaded(m.memory, m.cpu.v, at, x as int),
                    ..m.cpu
                },
                ..m
            },
        )
    }
}

/// A word that is not carried out: passed over, with nothing changed, if the
/// processor was told so, and a fault otherwise.
pub open spec fn not_implemented(m: Machine) -> Result<Machine, Fault> {
    if m.cpu.ignore_unknown_instructions {
        Ok(m)
    } else {
        Err(Fault::UnknownOpcode { opcode: m.cpu.opcode, pc: m.cpu.pc })
    }
}

/// The machine after `instruction`, with `keys` the state of the keypad and
/// `random` the byte that `Rnd` draws.
pub open spec fn run(m: Machine, keys: Seq<bool>, instruction: Instruction, random: u8) -> Result<
    Machine,
    Fault,
> {
    let v = m.cpu.v;
    match instruction {
        Instruction::Cls => next(
            Machine { screen: Screen { pixels: blank(), ..m.screen }, ..m },
        ),
        Instruction::Ret => ret(m),
        Instruction::Sys { .. } => not_implemented(m),
        Instruction::Jp { address } => Ok(jump(m, address as usize)),
        Instruction::Call { address } => call(m, address),
        Instruction::SeByte { x, value } => skip_if(m, v[x as int] == value),
        Instruction::SneByte { x, value } => skip_if(m, v[x as int] != value),
        Instruction::SeReg { x, y } => skip_if(m, v[x as int] == v[y as int]),
        Instruction::LdByte { x, value } => next(with_register(m, x, value)),
        Instruction::AddByte { x, value } => next(
            with_register(m, x, wrapped_sum(v[x as int], value)),
        ),
        Instruction::LdReg { x, y } => next(with_register(m, x, v[y as int])),
        Instruction::Or { x, y } => next(with_register(m, x, v[x as int] | v[y as int])),
        Instruction::And { x, y } => next(with_register(m, x, v[x as int] & v[y as int])),
        Instruction::Xor { x, y } => next(with_register(m, x, v[x as int] ^ v[y as int])),
        Instruction::AddReg { x, y } => next(add_registers(m, x, y)),
        Instruction::Sub { x, y } => next(subtract(m, x, y)),
        Instruction::Shr { x, .. } => next(shift_right(m, x)),
        Instruction::Subn { x, y } => next(subtract_reversed(m, x, y)),
        Instruction::Shl { x, .. } => next(shift_left(m, x)),
        Instruction::SneReg { x, y } => skip_if(m, v[x as int] != v[y as int]),
        Instruction::LdI { address } => next(with_index(m, address)),
        Instruction::JpV0 { address } => Ok(jump(m, (address + v[0]) as usize)),
        Instruction::Rnd { x, value } => next(with_register(m, x, value & random)),
        Instruction::Drw { x, y, rows } => draw(m, x, y, rows),
        Instruction::Skp { x } => skip_on_key(m, keys, x, true),
        Instruction::Sknp { x } => skip_on_key(m, keys, x, false),
        Instruction::LdVxDt { x } => next(with_register(m, x, m.cpu.delay_timer)),
        Instruction::LdVxK { x } => wait_for_key(m, keys, x),
        Instruction::LdDtVx { x } => next(set_delay_timer(m, x)),
        Instruction::LdStVx { x } => next(set_sound_timer(m, x)),
        Instruction::AddI { x } => next(
            with_index(m, wrapped_address(m.cpu.i, v[x as int] as int)),
        ),
        Instruction::LdF { x } => next(with_index(m, (v[x as int] * FONT_WIDTH) as u16)),
        Instruction::LdB { x } => store_decimal(m, x),
        Instruction::LdIVx { x } => store_registers(m, x),
        Instruction::LdVxI { x } => load_registers(m, x),
        Instruction::Unknown => not_implemented(m),
    }
}

/// The machine after the instruction that its `opcode` holds.
#[verifier::opaque]
pub open spec fn execute(m: Machine, keys: Seq<bool>, random: u8) -> Result<Machine, Fault> {
    run(m, keys, decoded(m.cpu.opcode), random)
}

/// The word that the two bytes at `pc` make, the first byte being the high
/// one.
pub open spec fn word_at(memory: Seq<u8>, pc: int) -> u16 {
    (memory[pc] * 0x100 + memory[pc + 1]) as u16
}

/// The machine with the instruction at the program counter fetched into
/// `opcode`.
pub open spec fn fetch(m: Machine) -> Result<Machine, Fault> {
    if m.cpu.pc + 1 >= m.memory.len() {
        Err(Fault::MemoryOutOfBounds { address: m.cpu.pc })
    } else {
        Ok(Machine { cpu: CpuView { opcode: word_at(m.memory, m.cpu.pc as int), ..m.cpu }, ..m })
    }
}

/// The processor after its delay timer has run down for `delta_time`
/// milliseconds. A timer that has run out is left alone; one that is running
/// shows the ticks that are left in full.
pub open spec fn delay_run_down(cpu: CpuView, delta_time: u64) -> CpuView {
    if cpu.delay_left > 0 {
        let left = decayed(cpu.delay_left, delta_time);
        CpuView { delay_left: left, delay_timer: ticks_completed(left), ..cpu }
    } else {
        cpu
    }
}

/// The processor after its sound timer has run down for `delta_time`
/// milliseconds. A timer that has run out is left alone; one that is running
/// shows the ticks that are left in full or in part.
pub open spec fn sound_run_down(cpu: CpuView, delta_time: u64) -> CpuView {
    if cpu.sound_left > 0 {
        let left = decayed(cpu.sound_left, delta_time);
        CpuView { sound_left: left, sound_timer: ticks_started(left), ..cpu }
    } else {
        cpu
    }
}

/// The processor after both timers have run down for `delta_time`
/// milliseconds.
pub open spec fn after_timers(cpu: CpuView, delta_time: u64) -> CpuView {
    sound_run_down(delay_run_down(cpu, delta_time), delta_time)
}

/// Whether the sound timer, running down for `delta_time` milliseconds,
/// runs out: it was running and is then at zero.
pub open spec fn beeps(cpu: CpuView, delta_time: u64) -> bool {
    cpu.sound_left > 0 && ticks_started(decayed(cpu.sound_left, delta_time)) == 0
}

/// One whole cycle: fetch, execute, and run the timers down for `delta_time`
/// milliseconds. A fault in the fetch leaves the machine as it was; a fault
/// in the execution leaves it with the instruction fetched.
pub open spec fn cycle(m: Machine, keys: Seq<bool>, random: u8, delta_time: u64) -> Result<
    Machine,
    Fault,
> {
    match fetch(m) {
        Err(fault) => Err(fault),
        Ok(fetched) => match execute(fetched, keys, random) {
            Err(fault) => Err(fault),
            Ok(executed) => Ok(
                Machine { cpu: after_timers(executed.cpu, delta_time), ..executed },
            ),
        },
    }
}

/// Whether a cycle queues a beep: it carries its instruction out, and the
/// sound timer then runs out.
pub open spec fn cycle_beeps(m: Machine, keys: Seq<bool>, random: u8, delta_time: u64) -> bool {
    match fetch(m) {
        Err(_) => false,
        Ok(fetched) => match execute(fetched, keys, random) {
            Err(_) => false,
            Ok(executed) => beeps(executed.cpu, delta_time),
        },
    }
}

} // verus!
