//! What a driver of the machine has to work out around the steps: whether
//! its configuration can be run at all, how many milliseconds a step took,
//! and how long to wait until the next.

use vstd::prelude::*;

verus! {

/// Milliseconds in one second.
pub const MILLISECONDS_PER_SECOND: u32 = 1000;

/// Why a configuration cannot be run.
#[derive(Clone, Copy, Debug, PartialEq, Eq, Structural)]
pub enum ConfigError {
    /// The clock rate is not above zero.
    ClockRate,
    /// The display scale is not above zero.
    DisplayScale,
}

/// Whether a configuration can be run, and why not. A clock rate of zero is
/// named before a display scale of zero.
pub open spec fn configuration_check(clock_rate: u32, display_scale: u8) -> Result<
    (),
    ConfigError,
> {
    if clock_rate == 0 {
        Err(ConfigError::ClockRate)
    } else if display_scale == 0 {
        Err(ConfigError::DisplayScale)
    } else {
        Ok(())
    }
}

/// Whether a configuration can be run, and why not.
pub fn check_configuration(clock_rate: u32, display_scale: u8) -> (checked: Result<(), ConfigError>)
    ensures
        checked == configuration_check(clock_rate, display_scale),
{
    if clock_rate == 0 {
        Err(ConfigError::ClockRate)
    } else if display_scale == 0 {
        Err(ConfigError::DisplayScale)
    } else {
        Ok(())
    }
}

/// The whole milliseconds between two readings of a counter that counts
/// `frequency` times a second, or the largest number there is if they are
/// more than that.
pub open spec fn milliseconds_between(now: u64, before: u64, frequency: u64) -> u64 {
    let elapsed = (now - before) * MILLISECONDS_PER_SECOND / (frequency as int);
    if elapsed > u64::MAX {
        u64::MAX
    } else {
        elapsed as u64
    }
}

/// The whole milliseconds between two readings of a counter that counts
/// `frequency` times a second.
pub fn elapsed_milliseconds(now: u64, before: u64, frequency: u64) -> (elapsed: u64)
    requires
        before <= now,
        frequency > 0,
    ensures
        elapsed == milliseconds_between(now, before, frequency),
{
    let ticks: u128 = (now - before) as u128;
    assert(ticks * MILLISECONDS_PER_SECOND <= u64::MAX * MILLISECONDS_PER_SECOND);
    let scaled: u128 = ticks * MILLISECONDS_PER_SECOND as u128;
    let elapsed: u128 = scaled / frequency as u128;
    if elapsed > u64::MAX as u128 {
        u64::MAX
    } else {
        elapsed as u64
    }
}

/// The whole milliseconds from one step to the next at `clock_rate` steps a
/// second.
pub fn frame_duration(clock_rate: u32) -> (milliseconds: u32)
    requires
        clock_rate > 0,
    ensures
        milliseconds == MILLISECONDS_PER_SECOND / clock_rate,
{
    MILLISECONDS_PER_SECOND / clock_rate
}

/// The milliseconds to wait after a step whose work took `processing`
/// milliseconds, so that steps are `frame` milliseconds apart: what is left
/// of `frame`, or nothing if the work took longer.
pub fn sleep_duration(frame: u32, processing: u64) -> (milliseconds: u32)
    ensures
        milliseconds == if processing >= frame {
            0
        } else {
            frame - processing
        },
{
    if processing >= frame as u64 {
        0
    } else {
        frame - processing as u32
    }
}

} // verus!
