//! The timers: what is left of them does not depend on how the time is cut
//! into steps.

use crate::timer::{
    decayed, run_down, run_down_in_steps, spent_in, ticks_completed, ticks_started, whole,
    DECAY_PER_MILLISECOND, TICK,
};
use vstd::prelude::*;

verus! {

/// Time adds up: two steps one after the other take off a timer what one
/// step of their length together takes off. How the time is cut into steps
/// makes no difference to what is left.
pub proof fn lemma_decay_adds(left: u32, first: u64, second: u64)
    requires
        first + second <= u64::MAX,
    ensures
        decayed(decayed(left, first), second) == decayed(left, (first + second) as u64),
{
    assert(DECAY_PER_MILLISECOND * (first + second) == DECAY_PER_MILLISECOND * first
        + DECAY_PER_MILLISECOND * second);
}

/// A timer never goes up by running down, and never below zero.
pub proof fn lemma_decay_bounds(left: u32, delta_time: u64)
    ensures
        0 <= decayed(left, delta_time) <= left,
        ticks_completed(decayed(left, delta_time)) <= ticks_completed(left),
        ticks_started(decayed(left, delta_time)) <= ticks_started(left),
{
}

/// What several equal steps take off a timer is what one step of their
/// length together takes off.
pub proof fn lemma_steps_add(left: u32, spent: nat, steps: nat)
    ensures
        run_down_in_steps(left, spent, steps) == run_down(left, spent * steps),
    decreases steps,
{
    if steps > 0 {
        lemma_steps_add(left, spent, (steps - 1) as nat);
        assert(spent * steps == spent * (steps - 1) + spent) by (nonlinear_arith);
    } else {
        assert(spent * steps == 0) by (nonlinear_arith)
            requires
                steps == 0,
        ;
    }
}

/// A timer set to `value` and run down tick by tick shows one tick less
/// after each step until it is at exactly zero, and stays there: set to 10,
/// it shows 9, 8 and so on after the steps, 0 after the tenth, and 0 after
/// every step that follows. The delay timer and the sound timer agree on
/// this, as whole ticks are left at every step.
pub proof fn lemma_tick_by_tick(value: u8, steps: nat)
    ensures
        run_down_in_steps(whole(value), TICK as nat, steps) == if steps >= value {
            0
        } else {
            (value - steps) * TICK
        },
        ticks_completed(run_down_in_steps(whole(value), TICK as nat, steps)) == if steps
            >= value {
            0
        } else {
            value - steps
        },
        ticks_started(run_down_in_steps(whole(value), TICK as nat, steps)) == if steps >= value {
            0
        } else {
            value - steps
        },
{
    lemma_steps_add(whole(value), TICK as nat, steps);
}

/// A timer set to `value` that has run for a time worth `ticks` whole ticks
/// shows `value - ticks`, or zero if that many ticks were not left.
pub proof fn lemma_whole_ticks(value: u8, delta_time: u64, ticks: nat)
    requires
        spent_in(delta_time) == TICK * ticks,
    ensures
        ticks_completed(decayed(whole(value), delta_time)) == if ticks >= value {
            0
        } else {
            value - ticks
        },
        ticks_started(decayed(whole(value), delta_time)) == if ticks >= value {
            0
        } else {
            value - ticks
        },
{
}

} // verus!
