//! The whole machine: the processor with its memory and peripherals, stepped
//! once per frame by a driver that shows the screen and plays the beeps.

use crate::cpu::{font_image, overlaid, rom_check, stalled, Cpu, CpuTrait, RomError};
use crate::display::{blank, Display, DisplayTrait, Screen};
use crate::keypad::{all_released, Keypad, KeypadTrait};
use crate::memory::{Memory, MEMORY_SIZE};
use crate::semantics::{cycle, cycle_beeps, CpuView, Fault, Machine};
use crate::speaker::{Speaker, SpeakerTrait};
use vstd::prelude::*;

verus! {

/// What the driver has to do after a step.
#[derive(Clone, Copy, Debug, PartialEq, Eq, Structural)]
pub struct Output {
    /// Show the screen: it changed, or has never been shown.
    pub redraw: bool,
    /// Play one beep.
    pub beep: bool,
}

/// The state of the whole machine.
#[verifier::ext_equal]
pub struct EmulatorView {
    pub cpu: CpuView,
    pub memory: Seq<u8>,
    pub keys: Seq<bool>,
    pub screen: Screen,
    /// Whether a beep is waiting to be played.
    pub beep: bool,
    /// The number of the step that comes next, counted from 1.
    pub iteration: u64,
}

/// The part of the machine that instructions work on.
pub open spec fn machine_of(emulator: EmulatorView) -> Machine {
    Machine { cpu: emulator.cpu, memory: emulator.memory, screen: emulator.screen }
}

/// The step count after one more step. It stops at the largest number
/// there is.
pub open spec fn counted_on(iteration: u64) -> u64 {
    if iteration == u64::MAX {
        iteration
    } else {
        (iteration + 1) as u64
    }
}

/// What a step leaves behind, with `random` the byte drawn.
///
/// A fault leaves the machine stalled and everything else as it was.
/// Otherwise the driver is told to show the screen if it changed or if this
/// was the first step, and the screen then counts as shown; and it is told to
/// play a beep if one is pending and `sound` is on. With `sound` off a
/// pending beep stays pending.
pub open spec fn emulated(
    before: EmulatorView,
    random: u8,
    delta_time: u64,
    sound: bool,
    result: Result<Output, Fault>,
    after: EmulatorView,
) -> bool {
    match cycle(machine_of(before), before.keys, random, delta_time) {
        Err(fault) => {
            &&& result == Err::<Output, Fault>(fault)
            &&& after == (EmulatorView { cpu: stalled(machine_of(before)).cpu, ..before })
        },
        Ok(machine) => {
            let pending = before.beep || cycle_beeps(
                machine_of(before),
                before.keys,
                random,
                delta_time,
            );
            let redraw = machine.screen.needs_redraw || before.iteration == 1;
            &&& result == Ok::<Output, Fault>(Output { redraw, beep: sound && pending })
            &&& after == (EmulatorView {
                cpu: machine.cpu,
                memory: machine.memory,
                keys: before.keys,
                screen: Screen { needs_redraw: false, ..machine.screen },
                beep: pending && !sound,
                iteration: counted_on(before.iteration),
            })
        },
    }
}

/// The processor with its memory and peripherals.
pub struct Emulator {
    pub cpu: Cpu,
    pub memory: Memory,
    pub keypad: Keypad,
    pub display: Display,
    pub speaker: Speaker,
    /// The number of the step that comes next, counted from 1.
    pub iteration: u64,
}

impl View for Emulator {
    type V = EmulatorView;

    open spec fn view(&self) -> EmulatorView {
        EmulatorView {
            cpu: self.cpu@,
            memory: self.memory@,
            keys: self.keypad@,
            screen: self.display@,
            beep: self.speaker@,
            iteration: self.iteration,
        }
    }
}

impl Emulator {
    /// A machine at rest, before its first step.
    pub fn new(
        clock_rate: u32,
        ignore_unknown_instructions: bool,
        program_address: usize,
        display_scale: u8,
    ) -> (emulator: Emulator)
        ensures
            emulator.cpu@ == Cpu::new_spec(
                clock_rate,
                ignore_unknown_instructions,
                program_address,
            ),
            emulator.memory@ == crate::memory::zeroed(MEMORY_SIZE as nat),
            emulator.keypad@ == all_released(),
            emulator.display@ == (Screen { pixels: blank(), needs_redraw: false }),
            emulator.display.scale() == display_scale,
            !emulator.speaker@,
            emulator.iteration == 1,
    {
        Emulator {
            cpu: Cpu::new(clock_rate, ignore_unknown_instructions, program_address),
            memory: Memory::new(),
            keypad: Keypad::new(),
            display: Display::new(display_scale),
            speaker: Speaker::new(),
            iteration: 1,
        }
    }

    /// Starts over with the program `rom`: releases the keys, blanks the
    /// screen, drops a pending beep, and loads the program as the processor
    /// does. The next step counts as the first again.
    pub fn load_rom(&mut self, rom: &[u8]) -> (loaded: Result<usize, RomError>)
        ensures
            loaded == rom_check(rom.len(), MEMORY_SIZE as nat, old(self)@.cpu.program_address),
            final(self)@ == (EmulatorView {
                cpu: if loaded is Ok {
                    CpuView { pc: old(self)@.cpu.program_address, ..old(self)@.cpu }
                } else {
                    old(self)@.cpu
                },
                memory: if loaded is Ok {
                    overlaid(
                        font_image(MEMORY_SIZE as nat),
                        old(self)@.cpu.program_address as int,
                        rom@,
                    )
                } else {
                    font_image(MEMORY_SIZE as nat)
                },
                keys: all_released(),
                screen: Screen { pixels: blank(), needs_redraw: old(self)@.screen.needs_redraw },
                beep: false,
                iteration: 1,
            }),
    {
        self.iteration = 1;
        self.keypad.reset();
        self.display.clear();
        self.speaker.clear_queue();
        proof {
            self.memory.lemma_size();
        }
        self.cpu.load_rom(&mut self.memory, rom)
    }

    /// One step, with `random` for the byte that a random instruction draws.
    pub fn step_with(&mut self, delta_time: u64, sound: bool, random: u8) -> (result: Result<
        Output,
        Fault,
    >)
        ensures
            emulated(old(self)@, random, delta_time, sound, result, final(self)@),
    {
        let stepped = self.cpu.step_with(
            delta_time,
            &mut self.memory,
            &mut self.keypad,
            &mut self.display,
            &mut self.speaker,
            random,
        );
        self.finish(stepped, sound)
    }

    /// One step: one cycle of the processor for `delta_time` milliseconds,
    /// and what the driver has to do after it. The byte that a random
    /// instruction draws comes from the `rand` crate: the step is what
    /// `step_with` does with some byte.
    pub fn step(&mut self, delta_time: u64, sound: bool) -> (result: Result<Output, Fault>)
        ensures
            exists|random: u8|
                emulated(old(self)@, random, delta_time, sound, result, final(self)@),
    {
        let random: u8 = match self.cpu.fetch(&self.memory) {
            Ok(opcode) => Cpu::random_for(opcode),
            Err(_) => 0,
        };
        self.step_with(delta_time, sound, random)
    }

    /// Settles what the driver has to do after a cycle of the processor.
    fn finish(&mut self, stepped: Result<(), Fault>, sound: bool) -> (result: Result<Output, Fault>)
        ensures
            match stepped {
                Err(fault) => result == Err::<Output, Fault>(fault) && final(self)@ == old(self)@,
                Ok(_) => {
                    &&& result == Ok::<Output, Fault>(
                        Output {
                            redraw: old(self)@.screen.needs_redraw || old(self)@.iteration == 1,
                            beep: sound && old(self)@.beep,
                        },
                    )
                    &&& final(self)@ == (EmulatorView {
                        screen: Screen { needs_redraw: false, ..old(self)@.screen },
                        beep: old(self)@.beep && !sound,
                        iteration: counted_on(old(self)@.iteration),
                        ..old(self)@
                    })
                },
            },
    {
        match stepped {
            Err(fault) => Err(fault),
            Ok(()) => {
                let redraw: bool = self.display.needs_redraw() || self.iteration == 1;
                if redraw {
                    self.display.mark_drawn();
                }
                let beep: bool = if sound {
                    self.speaker.flush_queue()
                } else {
                    false
                };
                if self.iteration < u64::MAX {
                    self.iteration += 1;
                }
                Ok(Output { redraw, beep })
            },
        }
    }
}

} // verus!
