// What the driver works out around the steps.

use chip8::driver::{
    check_configuration, elapsed_milliseconds, frame_duration, sleep_duration, ConfigError,
    MILLISECONDS_PER_SECOND,
};

#[test]
fn a_configuration_needs_a_clock_rate_and_a_display_scale() {
    assert_eq!(check_configuration(600, 10), Ok(()));
    assert_eq!(check_configuration(1, 1), Ok(()));
    assert_eq!(check_configuration(u32::MAX, u8::MAX), Ok(()));
    assert_eq!(check_configuration(0, 10), Err(ConfigError::ClockRate));
    assert_eq!(check_configuration(600, 0), Err(ConfigError::DisplayScale));
    // The clock rate is named first.
    assert_eq!(check_configuration(0, 0), Err(ConfigError::ClockRate));
}

#[test]
fn elapsed_time_is_counted_in_whole_milliseconds() {
    assert_eq!(MILLISECONDS_PER_SECOND, 1000);
    assert_eq!(elapsed_milliseconds(0, 0, 1_000_000), 0);
    assert_eq!(elapsed_milliseconds(1_000_000, 0, 1_000_000), 1000);
    assert_eq!(elapsed_milliseconds(16_667, 0, 1_000_000), 16);
    assert_eq!(elapsed_milliseconds(500_999, 500_000, 1_000_000), 0);
    assert_eq!(elapsed_milliseconds(501_000, 500_000, 1_000_000), 1);
    assert_eq!(elapsed_milliseconds(7, 4, 1), 3000);
    assert_eq!(elapsed_milliseconds(10, 0, 3), 3333);
}

#[test]
fn elapsed_time_does_not_overflow() {
    assert_eq!(elapsed_milliseconds(u64::MAX, 0, u64::MAX), 1000);
    assert_eq!(elapsed_milliseconds(u64::MAX, 0, 1000), u64::MAX);
    assert_eq!(elapsed_milliseconds(u64::MAX, 0, 999), u64::MAX);
    assert_eq!(elapsed_milliseconds(u64::MAX, 0, 1), u64::MAX);
    assert_eq!(elapsed_milliseconds(u64::MAX, 0, 2000), u64::MAX / 2);
    assert_eq!(elapsed_milliseconds(u64::MAX, u64::MAX, 1), 0);
}

#[test]
fn a_frame_lasts_the_whole_milliseconds_of_one_step() {
    assert_eq!(frame_duration(1), 1000);
    assert_eq!(frame_duration(60), 16);
    assert_eq!(frame_duration(600), 1);
    assert_eq!(frame_duration(1000), 1);
    assert_eq!(frame_duration(1001), 0);
    assert_eq!(frame_duration(u32::MAX), 0);
}

#[test]
fn the_driver_sleeps_for_what_is_left_of_the_frame() {
    assert_eq!(sleep_duration(16, 0), 16);
    assert_eq!(sleep_duration(16, 5), 11);
    assert_eq!(sleep_duration(16, 15), 1);
    assert_eq!(sleep_duration(16, 16), 0);
    assert_eq!(sleep_duration(16, 17), 0);
    assert_eq!(sleep_duration(16, u64::MAX), 0);
    assert_eq!(sleep_duration(16, (1 << 32) + 5), 0);
    assert_eq!(sleep_duration(0, 0), 0);
    assert_eq!(sleep_duration(u32::MAX, 1), u32::MAX - 1);
}
