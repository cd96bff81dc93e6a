//! The timer model: two timers that run down at sixty ticks per second,
//! however often and however fast the processor is stepped.
//!
//! What is left of a timer is kept in thousandths of a tick. One millisecond
//! is sixty of them, so that a step of any whole number of milliseconds is
//! taken off exactly. The delay timer shows the ticks that are left in full,
//! the sound timer the ticks that are left in full or in part.

use vstd::prelude::*;

verus! {

/// Thousandths in one tick.
pub const TICK: u32 = 1000;

/// Thousandths of a tick that pass in one millisecond: sixty ticks a second.
pub const DECAY_PER_MILLISECOND: u32 = 60;

/// What is left of a timer that was just set to `value`.
pub open spec fn whole(value: u8) -> u32 {
    (value * TICK) as u32
}

/// The thousandths of a tick that pass in `delta_time` milliseconds.
pub open spec fn spent_in(delta_time: u64) -> nat {
    (DECAY_PER_MILLISECOND * delta_time) as nat
}

/// What is left of `left` once `spent` thousandths of a tick have passed:
/// never less than nothing.
pub open spec fn run_down(left: u32, spent: nat) -> u32 {
    if spent >= left {
        0
    } else {
        (left - spent) as u32
    }
}

/// What is left of `left` after `delta_time` milliseconds.
pub open spec fn decayed(left: u32, delta_time: u64) -> u32 {
    run_down(left, spent_in(delta_time))
}

/// What is left of `left` after `steps` steps in each of which `spent`
/// thousandths of a tick pass.
pub open spec fn run_down_in_steps(left: u32, spent: nat, steps: nat) -> u32
    decreases steps,
{
    if steps == 0 {
        left
    } else {
        run_down(run_down_in_steps(left, spent, (steps - 1) as nat), spent)
    }
}

/// The ticks that are left in full, at most 255.
pub open spec fn ticks_completed(left: u32) -> u8 {
    if left / TICK > u8::MAX {
        u8::MAX
    } else {
        (left / TICK) as u8
    }
}

/// The ticks that are left in full or in part, at most 255.
pub open spec fn ticks_started(left: u32) -> u8 {
    let ticks: int = if left % TICK == 0 {
        left as int / TICK as int
    } else {
        left as int / TICK as int + 1
    };
    if ticks > u8::MAX {
        u8::MAX
    } else {
        ticks as u8
    }
}

/// What is left of a timer that was just set to `value`.
pub fn set_to(value: u8) -> (left: u32)
    ensures
        left == whole(value),
{
    value as u32 * TICK
}

/// What is left of `left` after `delta_time` milliseconds.
pub fn decay(left: u32, delta_time: u64) -> (rest: u32)
    ensures
        rest == decayed(left, delta_time),
{
    if delta_time > (u32::MAX / DECAY_PER_MILLISECOND) as u64 {
        0
    } else {
        assert(DECAY_PER_MILLISECOND * delta_time <= u32::MAX);
        let spent: u64 = DECAY_PER_MILLISECOND as u64 * delta_time;
        if spent >= left as u64 {
            0
        } else {
            left - spent as u32
        }
    }
}

/// The ticks that are left in full, at most 255.
pub fn floor_ticks(left: u32) -> (ticks: u8)
    ensures
        ticks == ticks_completed(left),
{
    let ticks: u32 = left / TICK;
    if ticks > u8::MAX as u32 {
        u8::MAX
    } else {
        ticks as u8
    }
}

/// The ticks that are left in full or in part, at most 255.
pub fn ceil_ticks(left: u32) -> (ticks: u8)
    ensures
        ticks == ticks_started(left),
{
    let full: u32 = left / TICK;
    let ticks: u32 = if left % TICK == 0 {
        full
    } else {
        full + 1
    };
    if ticks > u8::MAX as u32 {
        u8::MAX
    } else {
        ticks as u8
    }
}

} // verus!
