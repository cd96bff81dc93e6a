//! A CHIP-8 virtual machine.
//!
//! The machine fetches two-byte instructions from a memory of 4096 bytes,
//! decodes them, and carries them out on sixteen registers, a call stack and
//! two timers, drawing on a screen of 64 by 32 pixels and reading a keypad
//! of sixteen keys.
//!
//! - [`instruction`] decodes instruction words.
//! - [`semantics`] says what each instruction does to the machine, and
//!   [`timer`] how the timers run down.
//! - [`cpu`] is the instruction engine that carries this out.
//! - [`memory`], [`display`], [`keypad`] and [`speaker`] are the peripherals
//!   it works on, each behind an interface of its own.
//! - [`emulator`] puts them together, and [`driver`] holds what a program
//!   that runs the emulator has to work out around the steps.
//! - [`laws`] states what holds of the machine in every state.

pub mod cpu;
pub mod display;
pub mod driver;
pub mod emulator;
pub mod instruction;
pub mod keypad;
pub mod laws;
pub mod memory;
pub mod semantics;
pub mod speaker;
pub mod timer;
