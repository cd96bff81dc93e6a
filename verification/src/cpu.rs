//! The instruction engine: registers, stack and timers, and the cycle that
//! fetches an instruction from memory, carries it out and runs the timers
//! down.

use crate::display::{blank, DisplayTrait, Screen};
use crate::instruction::{decoded, lemma_fields, low_address, low_byte, mnemonic, Instruction};
use crate::keypad::{KeypadTrait, KEY_COUNT};
use crate::memory::{zeroed, MemoryTrait};
use crate::semantics::{
    beeps, cycle, cycle_beeps, delay_run_down, execute, fetch, jump, lowest_pressed,
    registers_loaded, registers_stored, skip_if, sound_run_down, with_index, with_register,
    word_at, wrapped_address, wrapped_sum, CpuView, Fault, Machine, FLAG_REGISTER, FONT_BYTES,
    FONT_WIDTH, INSTRUCTION_BYTES, REGISTER_COUNT, SCANNED_KEYS, SKIP_BYTES, STACK_SIZE,
};
use crate::speaker::SpeakerTrait;
use crate::timer::{ceil_ticks, decay, floor_ticks, set_to};
use vstd::prelude::*;

verus! {

/// The built-in font: for each of the sixteen hexadecimal digits a glyph of
/// five rows, four pixels wide, in the high half of each byte.
pub const FONT: [u8; FONT_BYTES] = [
    0xF0, 0x90, 0x90, 0x90, 0xF0,  // 0
    0x20, 0x60, 0x20, 0x20, 0x70,  // 1
    0xF0, 0x10, 0xF0, 0x80, 0xF0,  // 2
    0xF0, 0x10, 0xF0, 0x10, 0xF0,  // 3
    0x90, 0x90, 0xF0, 0x10, 0x10,  // 4
    0xF0, 0x80, 0xF0, 0x10, 0xF0,  // 5
    0xF0, 0x80, 0xF0, 0x90, 0xF0,  // 6
    0xF0, 0x10, 0x20, 0x40, 0x40,  // 7
    0xF0, 0x90, 0xF0, 0x90, 0xF0,  // 8
    0xF0, 0x90, 0xF0, 0x10, 0xF0,  // 9
    0xF0, 0x90, 0xF0, 0x90, 0x90,  // A
    0xE0, 0x90, 0xE0, 0x90, 0xE0,  // B
    0xF0, 0x80, 0x80, 0x80, 0xF0,  // C
    0xE0, 0x90, 0x90, 0x90, 0xE0,  // D
    0xF0, 0x80, 0xF0, 0x80, 0xF0,  // E
    0xF0, 0x80, 0xF0, 0x80, 0x80,  // F
];

/// The shortest program there is: one instruction.
pub const MINIMUM_ROM_BYTES: usize = 2;

/// Why a program could not be loaded.
#[derive(Clone, Copy, Debug, PartialEq, Eq, Structural)]
pub enum RomError {
    /// The program holds no instruction.
    TooShort { rom_size: usize },
    /// The program does not fit between the program address and the end of
    /// memory, where `available` bytes are.
    TooLarge { rom_size: usize, available: usize },
}

/// A memory of `size` bytes that holds the font at its start and nothing
/// else.
pub open spec fn font_image(size: nat) -> Seq<u8> {
    Seq::new(
        size,
        |address: int|
            if address < FONT_BYTES {
                FONT[address]
            } else {
                0u8
            },
    )
}

/// The memory `base` with `bytes` laid over it from `at` on.
pub open spec fn overlaid(base: Seq<u8>, at: int, bytes: Seq<u8>) -> Seq<u8> {
    Seq::new(
        base.len(),
        |address: int|
            if at <= address < at + bytes.len() {
                bytes[address - at]
            } else {
                base[address]
            },
    )
}

/// The bytes between `program_address` and the end of a memory of `size`
/// bytes.
pub open spec fn program_space(size: nat, program_address: usize) -> usize {
    if program_address > size {
        0
    } else {
        (size - program_address) as usize
    }
}

/// Whether a program of `rom_size` bytes can be loaded, and why not.
pub open spec fn rom_check(rom_size: usize, size: nat, program_address: usize) -> Result<
    usize,
    RomError,
> {
    if rom_size < MINIMUM_ROM_BYTES {
        Err(RomError::TooShort { rom_size })
    } else if rom_size > size - program_address {
        Err(RomError::TooLarge { rom_size, available: program_space(size, program_address) })
    } else {
        Ok(rom_size)
    }
}

/// What carrying out an instruction leaves behind, given what the
/// instruction makes of the machine `before`: the next machine, or the fault
/// and the machine as it was.
pub open spec fn outcome(
    before: Machine,
    expected: Result<Machine, Fault>,
    result: Result<(), Fault>,
    after: Machine,
) -> bool {
    match expected {
        Ok(machine) => result is Ok && after == machine,
        Err(fault) => result == Err::<(), Fault>(fault) && after == before,
    }
}

/// `outcome` for the instruction in `opcode`, with `random` the byte drawn.
pub open spec fn executed(
    before: Machine,
    keys: Seq<bool>,
    random: u8,
    result: Result<(), Fault>,
    after: Machine,
) -> bool {
    outcome(before, execute(before, keys, random), result, after)
}

/// The machine that a cycle leaves behind when it faults: as it was, but for
/// the instruction, if that could be fetched.
pub open spec fn stalled(before: Machine) -> Machine {
    match fetch(before) {
        Ok(fetched) => fetched,
        Err(_) => before,
    }
}

/// What a whole cycle leaves behind, with `random` the byte drawn: the next
/// machine and a beep queued if the sound timer ran out, or the fault, the
/// machine stalled and the speaker as it was.
pub open spec fn stepped(
    before: Machine,
    keys: Seq<bool>,
    random: u8,
    delta_time: u64,
    beep_before: bool,
    result: Result<(), Fault>,
    after: Machine,
    beep_after: bool,
) -> bool {
    match cycle(before, keys, random, delta_time) {
        Ok(machine) => {
            &&& result is Ok
            &&& after == machine
            &&& beep_after == (beep_before || cycle_beeps(before, keys, random, delta_time))
        },
        Err(fault) => {
            &&& result == Err::<(), Fault>(fault)
            &&& after == stalled(before)
            &&& beep_after == beep_before
        },
    }
}

/// The interface of an instruction engine.
pub trait CpuTrait: View<V = CpuView> {
    /// Clears the memory, puts the font at its start and the program `rom`
    /// at the program address, and points the program counter there. A
    /// program of fewer than two bytes, or of more than there are from the
    /// program address to the end of memory, is refused: the memory then
    /// holds the font and nothing else.
    fn load_rom<M: MemoryTrait>(&mut self, memory: &mut M, rom: &[u8]) -> (loaded: Result<
        usize,
        RomError,
    >)
        requires
            FONT_BYTES <= old(memory)@.len(),
        ensures
            loaded == rom_check(rom.len(), old(memory)@.len(), old(self)@.program_address),
            loaded is Ok ==> final(memory)@ == overlaid(
                font_image(old(memory)@.len()),
                old(self)@.program_address as int,
                rom@,
            ) && final(self)@ == (CpuView { pc: old(self)@.program_address, ..old(self)@ }),
            loaded is Err ==> final(memory)@ == font_image(old(memory)@.len()) && final(self)@
                == old(self)@,
    ;

    /// One cycle: fetches the instruction at the program counter, carries it
    /// out, and runs both timers down for `delta_time` milliseconds.
    fn step<M: MemoryTrait, K: KeypadTrait, D: DisplayTrait, S: SpeakerTrait>(
        &mut self,
        delta_time: u64,
        memory: &mut M,
        keypad: &mut K,
        display: &mut D,
        speaker: &mut S,
    ) -> (result: Result<(), Fault>)
        ensures
            final(keypad)@ == old(keypad)@,
            exists|random: u8|
                stepped(
                    (Machine { cpu: old(self)@, memory: old(memory)@, screen: old(display)@ }),
                    old(keypad)@,
                    random,
                    delta_time,
                    old(speaker)@,
                    result,
                    (Machine {
                        cpu: final(self)@,
                        memory: final(memory)@,
                        screen: final(display)@,
                    }),
                    final(speaker)@,
                ),
    ;

    /// The number of cycles per second that the engine is meant to run at.
    fn get_clock_rate(&self) -> (clock_rate: u32)
        ensures
            clock_rate == self@.clock_rate,
    ;
}

/// The processor. Its state lies open: a driver or a test may set any field
/// between two instructions, and every value of every field is a state that
/// the processor carries on from.
pub struct Cpu {
    /// The instruction last fetched.
    pub opcode: u16,
    /// The program counter.
    pub pc: usize,
    /// The general registers `V0` to `VF`.
    pub v: [u8; REGISTER_COUNT],
    /// The address register.
    pub i: u16,
    /// The delay timer, in ticks.
    pub delay_timer: u8,
    /// What is left of the delay timer, in thousandths of a tick.
    pub delay_left: u32,
    /// The sound timer, in ticks.
    pub sound_timer: u8,
    /// What is left of the sound timer, in thousandths of a tick.
    pub sound_left: u32,
    /// The return addresses of the calls that are pending.
    pub stack: [usize; STACK_SIZE],
    /// The stack slot that holds the return address of the innermost call; 0
    /// while no call is pending.
    pub sp: u8,
    /// Cycles per second.
    pub clock_rate: u32,
    /// Whether words that are no instruction are passed over.
    pub ignore_unknown_instructions: bool,
    /// Where programs are loaded and started.
    pub program_address: usize,
}

impl View for Cpu {
    type V = CpuView;

    open spec fn view(&self) -> CpuView {
        CpuView {
            opcode: self.opcode,
            pc: self.pc,
            v: self.v@,
            i: self.i,
            delay_timer: self.delay_timer,
            delay_left: self.delay_left,
            sound_timer: self.sound_timer,
            sound_left: self.sound_left,
            stack: self.stack@,
            sp: self.sp,
            clock_rate: self.clock_rate,
            ignore_unknown_instructions: self.ignore_unknown_instructions,
            program_address: self.program_address,
        }
    }
}

/// Draws one byte from the thread-local generator of the `rand` crate, by
/// `rand::random`. Nothing is claimed of the byte: any value may come, and a
/// second call may give another. The call takes no argument; it fails only
/// where the system cannot seed the generator.
#[verifier::external_body]
fn random_byte() -> (byte: u8) {
    rand::random::<u8>()
}

impl Cpu {
    /// A processor at rest: registers, stack and timers at zero, and the
    /// program counter at zero until a program is loaded.
    pub open spec fn new_spec(
        clock_rate: u32,
        ignore_unknown_instructions: bool,
        program_address: usize,
    ) -> CpuView {
        CpuView {
            opcode: 0,
            pc: 0,
            v: Seq::new(REGISTER_COUNT as nat, |register: int| 0u8),
            i: 0,
            delay_timer: 0,
            delay_left: 0,
            sound_timer: 0,
            sound_left: 0,
            stack: Seq::new(STACK_SIZE as nat, |slot: int| 0usize),
            sp: 0,
            clock_rate,
            ignore_unknown_instructions,
            program_address,
        }
    }

    /// A processor at rest.
    pub fn new(clock_rate: u32, ignore_unknown_instructions: bool, program_address: usize) -> (cpu:
        Cpu)
        ensures
            cpu@ == Cpu::new_spec(clock_rate, ignore_unknown_instructions, program_address),
    {
        Cpu {
            opcode: 0x00,
            pc: 0,
            v: [0; REGISTER_COUNT],
            i: 0,
            delay_timer: 0,
            delay_left: 0,
            sound_timer: 0,
            sound_left: 0,
            stack: [0; STACK_SIZE],
            sp: 0,
            clock_rate: clock_rate,
            ignore_unknown_instructions: ignore_unknown_instructions,
            program_address: program_address,
        }
    }

    /// Every processor has sixteen registers and sixteen stack slots.
    pub proof fn lemma_well_formed(&self)
        ensures
            self@.well_formed(),
    {
    }

    /// The constant `kk` of the instruction last fetched.
    pub fn op_00kk(&self) -> (value: u8)
        ensures
            value == low_byte(self.opcode),
    {
        proof {
            lemma_fields(self.opcode);
        }
        (self.opcode & 0x00FF) as u8
    }

    /// The address `nnn` of the instruction last fetched.
    pub fn op_0nnn(&self) -> (address: usize)
        ensures
            address == low_address(self.opcode),
    {
        proof {
            lemma_fields(self.opcode);
        }
        (self.opcode & 0x0FFF) as usize
    }

    /// The name of the instruction that `opcode` holds.
    pub fn get_opname(opcode: &u16) -> (name: &str)
        ensures
            name@ == mnemonic(decoded(*opcode)),
    {
        Instruction::decode(*opcode).name()
    }

    /// The instruction at the program counter: two bytes, the high one
    /// first.
    pub fn fetch<M: MemoryTrait>(&self, memory: &M) -> (fetched: Result<u16, Fault>)
        ensures
            match fetched {
                Ok(opcode) => self.pc + 1 < memory@.len() && opcode == word_at(
                    memory@,
                    self.pc as int,
                ),
                Err(fault) => self.pc + 1 >= memory@.len() && fault == (Fault::MemoryOutOfBounds {
                    address: self.pc,
                }),
            },
    {
        let size = memory.get_size();
        if size < INSTRUCTION_BYTES || self.pc > size - INSTRUCTION_BYTES {
            return Err(Fault::MemoryOutOfBounds { address: self.pc });
        }
        let high: u8 = memory.read(self.pc);
        let low: u8 = memory.read(self.pc + 1);
        assert((high as u16) << 8 | (low as u16) == high * 0x100 + low) by (bit_vector);
        Ok((high as u16) << 8 | (low as u16))
    }

    /// Carries out the instruction in `opcode`. A fault changes nothing.
    /// The byte that a random instruction draws comes from the `rand` crate:
    /// what is carried out is what `execute_with` does with some byte.
    pub fn execute_instruction<M: MemoryTrait, K: KeypadTrait, D: DisplayTrait>(
        &mut self,
        memory: &mut M,
        keypad: &mut K,
        display: &mut D,
    ) -> (result: Result<(), Fault>)
        ensures
            final(keypad)@ == old(keypad)@,
            exists|random: u8|
                executed(
                    (Machine { cpu: old(self)@, memory: old(memory)@, screen: old(display)@ }),
                    old(keypad)@,
                    random,
                    result,
                    (Machine {
                        cpu: final(self)@,
                        memory: final(memory)@,
                        screen: final(display)@,
                    }),
                ),
    {
        let random: u8 = Cpu::random_for(self.opcode);
        self.execute_with(memory, keypad, display, random)
    }

    /// The byte that the instruction in `opcode` draws, if it draws one, and
    /// zero if it draws none.
    pub(crate) fn random_for(opcode: u16) -> (random: u8)
        ensures
            !(decoded(opcode) is Rnd) ==> random == 0,
    {
        match Instruction::decode(opcode) {
            Instruction::Rnd { .. } => random_byte(),
            _ => 0,
        }
    }

    /// Runs the delay timer down for `delta_time` milliseconds.
    pub fn update_delay_timer(&mut self, delta_time: u64)
        ensures
            final(self)@ == delay_run_down(old(self)@, delta_time),
    {
        if self.delay_left > 0 {
            self.delay_left = decay(self.delay_left, delta_time);
            self.delay_timer = floor_ticks(self.delay_left);
        }
    }

    /// Runs the sound timer down for `delta_time` milliseconds, and queues a
    /// beep if it runs out.
    pub fn update_sound_timer<S: SpeakerTrait>(&mut self, delta_time: u64, speaker: &mut S)
        ensures
            final(self)@ == sound_run_down(old(self)@, delta_time),
            final(speaker)@ == (old(speaker)@ || beeps(old(self)@, delta_time)),
    {
        if self.sound_left > 0 {
            self.sound_left = decay(self.sound_left, delta_time);
            self.sound_timer = ceil_ticks(self.sound_left);
            if self.sound_timer == 0 {
                speaker.queue_beep();
            }
        }
    }

    /// One cycle, with `random` for the byte that a random instruction
    /// draws: fetches the instruction at the program counter, carries it out,
    /// and runs both timers down for `delta_time` milliseconds.
    pub fn step_with<M: MemoryTrait, K: KeypadTrait, D: DisplayTrait, S: SpeakerTrait>(
        &mut self,
        delta_time: u64,
        memory: &mut M,
        keypad: &mut K,
        display: &mut D,
        speaker: &mut S,
        random: u8,
    ) -> (result: Result<(), Fault>)
        ensures
            final(keypad)@ == old(keypad)@,
            stepped(
                (Machine { cpu: old(self)@, memory: old(memory)@, screen: old(display)@ }),
                old(keypad)@,
                random,
                delta_time,
                old(speaker)@,
                result,
                (Machine { cpu: final(self)@, memory: final(memory)@, screen: final(display)@ }),
                final(speaker)@,
            ),
    {
        let ghost before = Machine { cpu: self@, memory: memory@, screen: display@ };
        match self.fetch(memory) {
            Ok(opcode) => {
                self.opcode = opcode;
            },
            Err(fault) => {
                return Err(fault);
            },
        }
        match self.execute_with(memory, keypad, display, random) {
            Ok(()) => {
                self.update_delay_timer(delta_time);
                self.update_sound_timer(delta_time, speaker);
                Ok(())
            },
            Err(fault) => Err(fault),
        }
    }

    /// Carries out the instruction in `opcode`, with `random` for the byte
    /// that a random instruction draws. A fault changes nothing.
    pub fn execute_with<M: MemoryTrait, K: KeypadTrait, D: DisplayTrait>(
        &mut self,
        memory: &mut M,
        keypad: &mut K,
        display: &mut D,
        random: u8,
    ) -> (result: Result<(), Fault>)
        ensures
            final(keypad)@ == old(keypad)@,
            executed(
                (Machine { cpu: old(self)@, memory: old(memory)@, screen: old(display)@ }),
                old(keypad)@,
                random,
                result,
                (Machine { cpu: final(self)@, memory: final(memory)@, screen: final(display)@ }),
            ),
    {
        let instruction = Instruction::decode(self.opcode);
        proof {
            reveal(execute);
        }
        self.run(memory, keypad, display, instruction, random)
    }

    /// Carries out `instruction`.
    fn run<M: MemoryTrait, K: KeypadTrait, D: DisplayTrait>(
        &mut self,
        memory: &mut M,
        keypad: &mut K,
        display: &mut D,
        instruction: Instruction,
        random: u8,
    ) -> (result: Result<(), Fault>)
        requires
            instruction.well_formed(),
        ensures
            final(keypad)@ == old(keypad)@,
            outcome(
                (Machine { cpu: old(self)@, memory: old(memory)@, screen: old(display)@ }),
                crate::semantics::run(
                    (Machine { cpu: old(self)@, memory: old(memory)@, screen: old(display)@ }),
                    old(keypad)@,
                    instruction,
                    random,
                ),
                result,
                (Machine { cpu: final(self)@, memory: final(memory)@, screen: final(display)@ }),
            ),
    {
        let ghost before = Machine { cpu: self@, memory: memory@, screen: display@ };
        let next: Option<usize> = self.pc.checked_add(INSTRUCTION_BYTES);
        let skip: Option<usize> = self.pc.checked_add(SKIP_BYTES);
        match instruction {
            Instruction::Cls => self.clear_screen(display, next, Ghost(before)),
            Instruction::Ret => self.ret(Ghost(before)),
            Instruction::Jp { address } => self.jump(address as usize, Ghost(before)),
            Instruction::Call { address } => self.call(address, Ghost(before)),
            Instruction::SeByte { x, value } => {
                let equal: bool = self.v[x as usize] == value;
                self.branch(equal, next, skip, Ghost(before))
            },
            Instruction::SneByte { x, value } => {
                let differ: bool = self.v[x as usize] != value;
                self.branch(differ, next, skip, Ghost(before))
            },
            Instruction::SeReg { x, y } => {
                let equal: bool = self.v[x as usize] == self.v[y as usize];
                self.branch(equal, next, skip, Ghost(before))
            },
            Instruction::LdByte { x, value } => self.store(x, value, next, Ghost(before)),
            Instruction::AddByte { x, value } => {
                let sum: u8 = Cpu::sum(self.v[x as usize], value);
                self.store(x, sum, next, Ghost(before))
            },
            Instruction::LdReg { x, y } => {
                let value: u8 = self.v[y as usize];
                self.store(x, value, next, Ghost(before))
            },
            Instruction::Or { x, y } => {
                let value: u8 = self.v[x as usize] | self.v[y as usize];
                self.store(x, value, next, Ghost(before))
            },
            Instruction::And { x, y } => {
                let value: u8 = self.v[x as usize] & self.v[y as usize];
                self.store(x, value, next, Ghost(before))
            },
            Instruction::Xor { x, y } => {
                let value: u8 = self.v[x as usize] ^ self.v[y as usize];
                self.store(x, value, next, Ghost(before))
            },
            Instruction::AddReg { x, y } => self.add_registers(x, y, next, Ghost(before)),
            Instruction::Sub { x, y } => self.subtract(x, y, next, Ghost(before)),
            Instruction::Shr { x, .. } => self.shift_right(x, next, Ghost(before)),
            Instruction::Subn { x, y } => self.subtract_reversed(x, y, next, Ghost(before)),
            Instruction::Shl { x, .. } => self.shift_left(x, next, Ghost(before)),
            Instruction::SneReg { x, y } => {
                let differ: bool = self.v[x as usize] != self.v[y as usize];
                self.branch(differ, next, skip, Ghost(before))
            },
            Instruction::LdI { address } => self.set_index(address, next, Ghost(before)),
            Instruction::JpV0 { address } => {
                let target: usize = Cpu::offset_address(address, self.v[0x0]);
                self.jump(target, Ghost(before))
            },
            Instruction::Rnd { x, value } => self.store(x, value & random, next, Ghost(before)),
            Instruction::Drw { x, y, rows } => self.draw(
                memory,
                display,
                x,
                y,
                rows,
                next,
                Ghost(before),
            ),
            Instruction::Skp { x } => self.skip_on_key(keypad, x, true, next, skip, Ghost(before)),
            Instruction::Sknp { x } => self.skip_on_key(
                keypad,
                x,
                false,
                next,
                skip,
                Ghost(before),
            ),
            Instruction::LdVxDt { x } => {
                let value: u8 = self.delay_timer;
                self.store(x, value, next, Ghost(before))
            },
            Instruction::LdVxK { x } => self.wait_for_key(keypad, x, next, Ghost(before)),
            Instruction::LdDtVx { x } => self.set_delay_timer(x, next, Ghost(before)),
            Instruction::LdStVx { x } => self.set_sound_timer(x, next, Ghost(before)),
            Instruction::AddI { x } => {
                let address: u16 = Cpu::index_sum(self.i, self.v[x as usize]);
                self.set_index(address, next, Ghost(before))
            },
            Instruction::LdF { x } => {
                let address: u16 = Cpu::glyph_address(self.v[x as usize]);
                self.set_index(address, next, Ghost(before))
            },
            Instruction::LdB { x } => self.store_decimal(memory, x, next, Ghost(before)),
            Instruction::LdIVx { x } => self.store_registers(memory, x, next, Ghost(before)),
            Instruction::LdVxI { x } => self.load_registers(memory, x, next, Ghost(before)),
            Instruction::Sys { .. } | Instruction::Unknown => self.not_implemented(Ghost(before)),
        }
    }

    /// The sum of two bytes, cut to a byte.
    fn sum(a: u8, b: u8) -> (sum: u8)
        ensures
            sum == wrapped_sum(a, b),
    {
        a.wrapping_add(b)
    }

    /// The sum of an address and a byte, cut to sixteen bits.
    fn index_sum(address: u16, offset: u8) -> (sum: u16)
        ensures
            sum == wrapped_address(address, offset as int),
    {
        address.wrapping_add(offset as u16)
    }

    /// The sum of an address and a byte.
    fn offset_address(address: u16, offset: u8) -> (sum: usize)
        ensures
            sum == (address + offset) as usize,
    {
        address as usize + offset as usize
    }

    /// Where the glyph of `digit` starts.
    fn glyph_address(digit: u8) -> (address: u16)
        ensures
            address == (digit * FONT_WIDTH) as u16,
    {
        assert(digit * FONT_WIDTH <= u8::MAX * FONT_WIDTH);
        digit as u16 * FONT_WIDTH as u16
    }

    /// A word that is not carried out.
    fn not_implemented(&self, Ghost(before): Ghost<Machine>) -> (result: Result<(), Fault>)
        requires
            before.cpu == self@,
        ensures
            outcome(before, crate::semantics::not_implemented(before), result, before),
    {
        if self.ignore_unknown_instructions {
            Ok(())
        } else {
            Err(Fault::UnknownOpcode { opcode: self.opcode, pc: self.pc })
        }
    }

    /// Sets the program counter.
    fn jump(&mut self, pc: usize, Ghost(before): Ghost<Machine>) -> (result: Result<(), Fault>)
        requires
            before.cpu == old(self)@,
        ensures
            outcome(
                before,
                Ok(crate::semantics::jump(before, pc)),
                result,
                (Machine { cpu: final(self)@, ..before }),
            ),
    {
        self.pc = pc;
        Ok(())
    }

    /// Moves on past the next instruction if `condition` holds, and to it
    /// otherwise.
    fn branch(
        &mut self,
        condition: bool,
        next: Option<usize>,
        skip: Option<usize>,
        Ghost(before): Ghost<Machine>,
    ) -> (result: Result<(), Fault>)
        requires
            before.cpu == old(self)@,
            next == old(self).pc.checked_add(INSTRUCTION_BYTES),
            skip == old(self).pc.checked_add(SKIP_BYTES),
        ensures
            outcome(
                before,
                skip_if(before, condition),
                result,
                (Machine { cpu: final(self)@, ..before }),
            ),
    {
        let target: Option<usize> = if condition {
            skip
        } else {
            next
        };
        match target {
            Some(pc) => {
                self.pc = pc;
                Ok(())
            },
            None => Err(Fault::ProgramCounterOverflow),
        }
    }

    /// Sets register `x` and moves on.
    fn store(
        &mut self,
        x: u8,
        value: u8,
        next: Option<usize>,
        Ghost(before): Ghost<Machine>,
    ) -> (result: Result<(), Fault>)
        requires
            x < REGISTER_COUNT,
            before.cpu == old(self)@,
            next == old(self).pc.checked_add(INSTRUCTION_BYTES),
        ensures
            outcome(
                before,
                crate::semantics::next(with_register(before, x, value)),
                result,
                (Machine { cpu: final(self)@, ..before }),
            ),
    {
        match next {
            Some(pc) => {
                self.v[x as usize] = value;
                self.pc = pc;
                Ok(())
            },
            None => Err(Fault::ProgramCounterOverflow),
        }
    }

    /// Sets the address register and moves on.
    fn set_index(
        &mut self,
        address: u16,
        next: Option<usize>,
        Ghost(before): Ghost<Machine>,
    ) -> (result: Result<(), Fault>)
        requires
            before.cpu == old(self)@,
            next == old(self).pc.checked_add(INSTRUCTION_BYTES),
        ensures
            outcome(
                before,
                crate::semantics::next(with_index(before, address)),
                result,
                (Machine { cpu: final(self)@, ..before }),
            ),
    {
        match next {
            Some(pc) => {
                self.i = address;
                self.pc = pc;
                Ok(())
            },
            None => Err(Fault::ProgramCounterOverflow),
        }
    }

    /// `00E0`.
    fn clear_screen<D: DisplayTrait>(
        &mut self,
        display: &mut D,
        next: Option<usize>,
        Ghost(before): Ghost<Machine>,
    ) -> (result: Result<(), Fault>)
        requires
            before.cpu == old(self)@,
            before.screen == old(display)@,
            next == old(self).pc.checked_add(INSTRUCTION_BYTES),
        ensures
            outcome(
                before,
                crate::semantics::next(
                    (Machine { screen: Screen { pixels: blank(), ..before.screen }, ..before }),
                ),
                result,
                (Machine { cpu: final(self)@, screen: final(display)@, ..before }),
            ),
    {
        match next {
            Some(pc) => {
                display.clear();
                self.pc = pc;
                Ok(())
            },
            None => Err(Fault::ProgramCounterOverflow),
        }
    }

    /// `00EE`.
    fn ret(&mut self, Ghost(before): Ghost<Machine>) -> (result: Result<(), Fault>)
        requires
            before.cpu == old(self)@,
        ensures
            outcome(
                before,
                crate::semantics::ret(before),
                result,
                (Machine { cpu: final(self)@, ..before }),
            ),
    {
        if self.sp == 0 {
            Err(Fault::StackUnderflow)
        } else if self.sp as usize >= STACK_SIZE {
            Err(Fault::StackOverflow)
        } else {
            match self.stack[self.sp as usize].checked_add(INSTRUCTION_BYTES) {
                Some(pc) => {
                    self.sp = self.sp - 1;
                    self.pc = pc;
                    Ok(())
                },
                None => Err(Fault::ProgramCounterOverflow),
            }
        }
    }

    /// `2nnn`.
    fn call(&mut self, address: u16, Ghost(before): Ghost<Machine>) -> (result: Result<(), Fault>)
        requires
            before.cpu == old(self)@,
        ensures
            outcome(
                before,
                crate::semantics::call(before, address),
                result,
                (Machine { cpu: final(self)@, ..before }),
            ),
    {
        if self.sp as usize + 1 >= STACK_SIZE {
            Err(Fault::StackOverflow)
        } else {
            self.sp = self.sp + 1;
            self.stack[self.sp as usize] = self.pc;
            self.pc = address as usize;
            Ok(())
        }
    }

    /// `8xy4`.
    fn add_registers(
        &mut self,
        x: u8,
        y: u8,
        next: Option<usize>,
        Ghost(before): Ghost<Machine>,
    ) -> (result: Result<(), Fault>)
        requires
            x < REGISTER_COUNT,
            y < REGISTER_COUNT,
            before.cpu == old(self)@,
            next == old(self).pc.checked_add(INSTRUCTION_BYTES),
        ensures
            outcome(
                before,
                crate::semantics::next(crate::semantics::add_registers(before, x, y)),
                result,
                (Machine { cpu: final(self)@, ..before }),
            ),
    {
        match next {
            Some(pc) => {
                let a: u8 = self.v[x as usize];
                let b: u8 = self.v[y as usize];
                self.v[x as usize] = a.wrapping_add(b);
                self.v[FLAG_REGISTER as usize] = if a as u16 + b as u16 > 0xFF {
                    1
                } else {
                    0
                };
                self.pc = pc;
                Ok(())
            },
            None => Err(Fault::ProgramCounterOverflow),
        }
    }

    /// `8xy5`.
    fn subtract(
        &mut self,
        x: u8,
        y: u8,
        next: Option<usize>,
        Ghost(before): Ghost<Machine>,
    ) -> (result: Result<(), Fault>)
        requires
            x < REGISTER_COUNT,
            y < REGISTER_COUNT,
            before.cpu == old(self)@,
            next == old(self).pc.checked_add(INSTRUCTION_BYTES),
        ensures
            outcome(
                before,
                crate::semantics::next(crate::semantics::subtract(before, x, y)),
                result,
                (Machine { cpu: final(self)@, ..before }),
            ),
    {
        match next {
            Some(pc) => {
                if self.v[x as usize] > self.v[y as usize] {
                    self.v[FLAG_REGISTER as usize] = 1;
                } else {
                    self.v[FLAG_REGISTER as usize] = 0;
                }
                self.v[x as usize] = self.v[x as usize].wrapping_sub(self.v[y as usize]);
                self.pc = pc;
                Ok(())
            },
            None => Err(Fault::ProgramCounterOverflow),
        }
    }

    /// `8xy7`.
    fn subtract_reversed(
        &mut self,
        x: u8,
        y: u8,
        next: Option<usize>,
        Ghost(before): Ghost<Machine>,
    ) -> (result: Result<(), Fault>)
        requires
            x < REGISTER_COUNT,
            y < REGISTER_COUNT,
            before.cpu == old(self)@,
            next == old(self).pc.checked_add(INSTRUCTION_BYTES),
        ensures
            outcome(
                before,
                crate::semantics::next(crate::semantics::subtract_reversed(before, x, y)),
                result,
                (Machine { cpu: final(self)@, ..before }),
            ),
    {
        match next {
            Some(pc) => {
                if self.v[y as usize] > self.v[x as usize] {
                    self.v[FLAG_REGISTER as usize] = 1;
                } else {
                    self.v[FLAG_REGISTER as usize] = 0;
                }
                self.v[x as usize] = self.v[y as usize].wrapping_sub(self.v[x as usize]);
                self.pc = pc;
                Ok(())
            },
            None => Err(Fault::ProgramCounterOverflow),
        }
    }

    /// `8xy6`.
    fn shift_right(
        &mut self,
        x: u8,
        next: Option<usize>,
        Ghost(before): Ghost<Machine>,
    ) -> (result: Result<(), Fault>)
        requires
            x < REGISTER_COUNT,
            before.cpu == old(self)@,
            next == old(self).pc.checked_add(INSTRUCTION_BYTES),
        ensures
            outcome(
                before,
                crate::semantics::next(crate::semantics::shift_right(before, x)),
                result,
                (Machine { cpu: final(self)@, ..before }),
            ),
    {
        match next {
            Some(pc) => {
                let value: u8 = self.v[x as usize];
                assert(value & 0x1 == value % 2) by (bit_vector);
                self.v[FLAG_REGISTER as usize] = value & 0x1;
                let flagged: u8 = self.v[x as usize];
                assert(flagged >> 1 == flagged / 2) by (bit_vector);
                self.v[x as usize] = flagged >> 1;
                self.pc = pc;
                Ok(())
            },
            None => Err(Fault::ProgramCounterOverflow),
        }
    }

    /// `8xyE`.
    fn shift_left(
        &mut self,
        x: u8,
        next: Option<usize>,
        Ghost(before): Ghost<Machine>,
    ) -> (result: Result<(), Fault>)
        requires
            x < REGISTER_COUNT,
            before.cpu == old(self)@,
            next == old(self).pc.checked_add(INSTRUCTION_BYTES),
        ensures
            outcome(
                before,
                crate::semantics::next(crate::semantics::shift_left(before, x)),
                result,
                (Machine { cpu: final(self)@, ..before }),
            ),
    {
        match next {
            Some(pc) => {
                let value: u8 = self.v[x as usize];
                assert((value >> 7) & 0x1 == value / 0x80) by (bit_vector);
                self.v[FLAG_REGISTER as usize] = (value >> 7) & 0x1;
                let flagged: u8 = self.v[x as usize];
                assert(flagged << 1 == (flagged * 2) % 0x100) by (bit_vector);
                self.v[x as usize] = flagged << 1;
                self.pc = pc;
                Ok(())
            },
            None => Err(Fault::ProgramCounterOverflow),
        }
    }

    /// `Fx15`.
    fn set_delay_timer(
        &mut self,
        x: u8,
        next: Option<usize>,
        Ghost(before): Ghost<Machine>,
    ) -> (result: Result<(), Fault>)
        requires
            x < REGISTER_COUNT,
            before.cpu == old(self)@,
            next == old(self).pc.checked_add(INSTRUCTION_BYTES),
        ensures
            outcome(
                before,
                crate::semantics::next(crate::semantics::set_delay_timer(before, x)),
                result,
                (Machine { cpu: final(self)@, ..before }),
            ),
    {
        match next {
            Some(pc) => {
                self.delay_timer = self.v[x as usize];
                self.delay_left = set_to(self.delay_timer);
                self.pc = pc;
                Ok(())
            },
            None => Err(Fault::ProgramCounterOverflow),
        }
    }

    /// `Fx18`.
    fn set_sound_timer(
        &mut self,
        x: u8,
        next: Option<usize>,
        Ghost(before): Ghost<Machine>,
    ) -> (result: Result<(), Fault>)
        requires
            x < REGISTER_COUNT,
            before.cpu == old(self)@,
            next == old(self).pc.checked_add(INSTRUCTION_BYTES),
        ensures
            outcome(
                before,
                crate::semantics::next(crate::semantics::set_sound_timer(before, x)),
                result,
                (Machine { cpu: final(self)@, ..before }),
            ),
    {
        match next {
            Some(pc) => {
                self.sound_timer = self.v[x as usize];
                self.sound_left = set_to(self.sound_timer);
                self.pc = pc;
                Ok(())
            },
            None => Err(Fault::ProgramCounterOverflow),
        }
    }

    /// `Dxyn`.
    fn draw<M: MemoryTrait, D: DisplayTrait>(
        &mut self,
        memory: &M,
        display: &mut D,
        x: u8,
        y: u8,
        rows: u8,
        next: Option<usize>,
        Ghost(before): Ghost<Machine>,
    ) -> (result: Result<(), Fault>)
        requires
            x < REGISTER_COUNT,
            y < REGISTER_COUNT,
            before.cpu == old(self)@,
            before.memory == memory@,
            before.screen == old(display)@,
            next == old(self).pc.checked_add(INSTRUCTION_BYTES),
        ensures
            outcome(
                before,
                crate::semantics::draw(before, x, y, rows),
                result,
                (Machine { cpu: final(self)@, screen: final(display)@, ..before }),
            ),
    {
        let start: usize = self.i as usize;
        let count: usize = rows as usize;
        let size: usize = memory.get_size();
        if start > size || count > size - start {
            return Err(Fault::MemoryOutOfBounds { address: start });
        }
        match next {
            Some(pc) => {
                let mut sprite: Vec<u8> = Vec::new();
                let mut row: usize = 0;
                while row < count
                    invariant
                        row <= count,
                        start + count <= size,
                        size == memory@.len(),
                        sprite@ == memory@.subrange(start as int, start + row),
                    decreases count - row,
                {
                    sprite.push(memory.read(start + row));
                    row += 1;
                }
                let collision: u8 = display.draw_sprite(
                    self.v[x as usize] as usize,
                    self.v[y as usize] as usize,
                    sprite.as_slice(),
                );
                self.v[FLAG_REGISTER as usize] = collision;
                self.pc = pc;
                Ok(())
            },
            None => Err(Fault::ProgramCounterOverflow),
        }
    }

    /// `Ex9E` and `ExA1`.
    fn skip_on_key<K: KeypadTrait>(
        &mut self,
        keypad: &mut K,
        x: u8,
        wanted: bool,
        next: Option<usize>,
        skip: Option<usize>,
        Ghost(before): Ghost<Machine>,
    ) -> (result: Result<(), Fault>)
        requires
            x < REGISTER_COUNT,
            next == old(self).pc.checked_add(INSTRUCTION_BYTES),
            skip == old(self).pc.checked_add(SKIP_BYTES),
            before.cpu == old(self)@,
        ensures
            final(keypad)@ == old(keypad)@,
            outcome(
                before,
                crate::semantics::skip_on_key(before, old(keypad)@, x, wanted),
                result,
                (Machine { cpu: final(self)@, ..before }),
            ),
    {
        let key: u8 = self.v[x as usize];
        if key as usize >= KEY_COUNT {
            return Err(Fault::InvalidKey { key });
        }
        let matches: bool = keypad.get_key(key) == wanted;
        self.branch(matches, next, skip, Ghost(before))
    }

    /// `Fx0A`.
    fn wait_for_key<K: KeypadTrait>(
        &mut self,
        keypad: &mut K,
        x: u8,
        next: Option<usize>,
        Ghost(before): Ghost<Machine>,
    ) -> (result: Result<(), Fault>)
        requires
            x < REGISTER_COUNT,
            next == old(self).pc.checked_add(INSTRUCTION_BYTES),
            before.cpu == old(self)@,
        ensures
            final(keypad)@ == old(keypad)@,
            outcome(
                before,
                crate::semantics::wait_for_key(before, old(keypad)@, x),
                result,
                (Machine { cpu: final(self)@, ..before }),
            ),
    {
        let ghost keys = keypad@;
        let mut index: u8 = 0x0;
        while index < SCANNED_KEYS
            invariant
                index <= SCANNED_KEYS,
                x < REGISTER_COUNT,
                keypad@ == keys,
                keys == old(keypad)@,
                self == old(self),
                before.cpu == self@,
                next == self.pc.checked_add(INSTRUCTION_BYTES),
                lowest_pressed(keys, 0, SCANNED_KEYS as int) == lowest_pressed(
                    keys,
                    index as int,
                    SCANNED_KEYS as int,
                ),
            decreases SCANNED_KEYS - index,
        {
            if keypad.get_key(index) {
                return self.store(x, index, next, Ghost(before));
            }
            index += 1;
        }
        Ok(())
    }

    /// `Fx33`.
    fn store_decimal<M: MemoryTrait>(
        &mut self,
        memory: &mut M,
        x: u8,
        next: Option<usize>,
        Ghost(before): Ghost<Machine>,
    ) -> (result: Result<(), Fault>)
        requires
            x < REGISTER_COUNT,
            next == old(self).pc.checked_add(INSTRUCTION_BYTES),
            before.cpu == old(self)@,
            before.memory == old(memory)@,
        ensures
            outcome(
                before,
                crate::semantics::store_decimal(before, x),
                result,
                (Machine { cpu: final(self)@, memory: final(memory)@, ..before }),
            ),
    {
        let at: usize = self.i as usize;
        let value: u8 = self.v[x as usize];
        let size: usize = memory.get_size();
        if size < 3 || at > size - 3 {
            return Err(Fault::MemoryOutOfBounds { address: at });
        }
        match next {
            Some(pc) => {
                memory.write(at, value / 100);
                memory.write(at + 1, (value / 10) % 10);
                memory.write(at + 2, (value % 100) & 10);
                self.pc = pc;
                Ok(())
            },
            None => Err(Fault::ProgramCounterOverflow),
        }
    }

    /// `Fx55`.
    fn store_registers<M: MemoryTrait>(
        &mut self,
        memory: &mut M,
        x: u8,
        next: Option<usize>,
        Ghost(before): Ghost<Machine>,
    ) -> (result: Result<(), Fault>)
        requires
            x < REGISTER_COUNT,
            next == old(self).pc.checked_add(INSTRUCTION_BYTES),
            before.cpu == old(self)@,
            before.memory == old(memory)@,
        ensures
            outcome(
                before,
                crate::semantics::store_registers(before, x),
                result,
                (Machine { cpu: final(self)@, memory: final(memory)@, ..before }),
            ),
    {
        let at: usize = self.i as usize;
        let last: usize = x as usize;
        let size: usize = memory.get_size();
        if size <= last || at >= size - last {
            return Err(Fault::MemoryOutOfBounds { address: at });
        }
        match next {
            Some(pc) => {
                let mut index: usize = 0;
                while index < last + 1
                    invariant
                        index <= last + 1,
                        last < REGISTER_COUNT,
                        at + last < size,
                        size == before.memory.len(),
                        self == old(self),
                        memory@ =~= registers_stored(
                            before.memory,
                            self.v@,
                            at as int,
                            index - 1,
                        ),
                    decreases last + 1 - index,
                {
                    memory.write(at + index, self.v[index]);
                    index += 1;
                }
                self.i = self.i.wrapping_add(x as u16 + 1);
                self.pc = pc;
                Ok(())
            },
            None => Err(Fault::ProgramCounterOverflow),
        }
    }

    /// `Fx65`.
    fn load_registers<M: MemoryTrait>(
        &mut self,
        memory: &M,
        x: u8,
        next: Option<usize>,
        Ghost(before): Ghost<Machine>,
    ) -> (result: Result<(), Fault>)
        requires
            x < REGISTER_COUNT,
            next == old(self).pc.checked_add(INSTRUCTION_BYTES),
            before.cpu == old(self)@,
            before.memory == memory@,
        ensures
            outcome(
                before,
                crate::semantics::load_registers(before, x),
                result,
                (Machine { cpu: final(self)@, ..before }),
            ),
    {
        let at: usize = self.i as usize;
        let last: usize = x as usize;
        let size: usize = memory.get_size();
        if size <= last || at >= size - last {
            return Err(Fault::MemoryOutOfBounds { address: at });
        }
        match next {
            Some(pc) => {
                let mut index: usize = 0;
                while index < last + 1
                    invariant
                        index <= last + 1,
                        last < REGISTER_COUNT,
                        at + last < size,
                        size == memory@.len(),
                        self.v@ =~= registers_loaded(
                            memory@,
                            before.cpu.v,
                            at as int,
                            index - 1,
                        ),
                        self@ == (CpuView { v: self.v@, ..before.cpu }),
                    decreases last + 1 - index,
                {
                    self.v[index] = memory.read(at + index);
                    index += 1;
                }
                self.i = self.i.wrapping_add(x as u16 + 1);
                self.pc = pc;
                Ok(())
            },
            None => Err(Fault::ProgramCounterOverflow),
        }
    }
}

impl CpuTrait for Cpu {
    fn load_rom<M: MemoryTrait>(&mut self, memory: &mut M, rom: &[u8]) -> (loaded: Result<
        usize,
        RomError,
    >) {
        let ghost size = memory@.len();
        memory.clear();
        let mut index: usize = 0;
        while index < FONT_BYTES
            invariant
                index <= FONT_BYTES,
                FONT_BYTES <= size,
                memory@ =~= overlaid(zeroed(size), 0, FONT@.take(index as int)),
            decreases FONT_BYTES - index,
        {
            memory.write(index, FONT[index]);
            index += 1;
        }
        let available: usize = memory.get_size();
        if rom.len() < MINIMUM_ROM_BYTES {
            return Err(RomError::TooShort { rom_size: rom.len() });
        }
        if self.program_address > available {
            return Err(RomError::TooLarge { rom_size: rom.len(), available: 0 });
        }
        let available: usize = available - self.program_address;
        if rom.len() > available {
            return Err(RomError::TooLarge { rom_size: rom.len(), available });
        }
        let at: usize = self.program_address;
        let mut index: usize = 0;
        while index < rom.len()
            invariant
                index <= rom.len(),
                at + rom.len() <= size,
                size <= usize::MAX,
                memory@ =~= overlaid(font_image(size), at as int, rom@.take(index as int)),
            decreases rom.len() - index,
        {
            memory.write(at + index, rom[index]);
            index += 1;
        }
        self.pc = self.program_address;
        Ok(rom.len())
    }

    fn step<M: MemoryTrait, K: KeypadTrait, D: DisplayTrait, S: SpeakerTrait>(
        &mut self,
        delta_time: u64,
        memory: &mut M,
        keypad: &mut K,
        display: &mut D,
        speaker: &mut S,
    ) -> (result: Result<(), Fault>) {
        let random: u8 = match self.fetch(memory) {
            Ok(opcode) => Cpu::random_for(opcode),
            Err(_) => 0,
        };
        self.step_with(delta_time, memory, keypad, display, speaker, random)
    }

    fn get_clock_rate(&self) -> (clock_rate: u32) {
        self.clock_rate
    }
}

} // verus!
