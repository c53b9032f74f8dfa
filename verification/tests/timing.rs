use midi_recorder::event::DELTA_LIMIT;
use midi_recorder::timing::{
    delta_ticks, duration_seconds, DEFAULT_TICKS_PER_BEAT, DEFAULT_USEC_PER_TICK,
};

const MS: u64 = 1_000_000;

#[test]
fn constants_are_the_documented_ones() {
    assert_eq!(DEFAULT_USEC_PER_TICK, 500);
    assert_eq!(DEFAULT_TICKS_PER_BEAT, 1000);
    assert_eq!(DELTA_LIMIT, 1 << 28);
}

#[test]
fn first_entry_has_no_delta() {
    assert_eq!(delta_ticks(None, 0, 500), 0);
    assert_eq!(delta_ticks(None, 123_456_789_000, 500), 0);
}

#[test]
fn half_a_second_is_a_thousand_ticks() {
    assert_eq!(delta_ticks(Some(0), 500 * MS, 500), 1000);
}

#[test]
fn delta_is_rounded_down() {
    // 499.999 microseconds: no tick yet.
    assert_eq!(delta_ticks(Some(10), 10 + 499_999, 500), 0);
    assert_eq!(delta_ticks(Some(10), 10 + 500_000, 500), 1);
    assert_eq!(delta_ticks(Some(10), 10 + 999_999, 500), 1);
    assert_eq!(delta_ticks(Some(10), 10 + 1_000_000, 500), 2);
    // 1234.567 milliseconds.
    assert_eq!(delta_ticks(Some(7 * MS), 7 * MS + 1_234_567_000, 500), 2469);
}

#[test]
fn delta_follows_the_tick_length() {
    assert_eq!(delta_ticks(Some(0), 500 * MS, 250), 2000);
    assert_eq!(delta_ticks(Some(0), 500 * MS, 1000), 500);
}

#[test]
fn a_clock_going_back_gives_no_delta() {
    assert_eq!(delta_ticks(Some(500 * MS), 0, 500), 0);
}

#[test]
fn delta_keeps_the_low_28_bits() {
    let tick: u64 = 500_000;
    let limit = DELTA_LIMIT as u64;
    assert_eq!(delta_ticks(Some(0), (limit - 1) * tick, 500), DELTA_LIMIT - 1);
    assert_eq!(delta_ticks(Some(0), limit * tick, 500), 0);
    assert_eq!(delta_ticks(Some(0), (limit + 5) * tick, 500), 5);
    assert_eq!(delta_ticks(Some(0), u64::MAX, 500), ((u64::MAX / 500_000) % limit) as u32);
}

#[test]
fn duration_is_rounded_up() {
    assert_eq!(duration_seconds(0, 0), 0);
    assert_eq!(duration_seconds(5, 5), 0);
    assert_eq!(duration_seconds(0, 1), 1);
    assert_eq!(duration_seconds(0, 500 * MS), 1);
    assert_eq!(duration_seconds(0, 1_000_000_000), 1);
    assert_eq!(duration_seconds(0, 1_000_000_001), 2);
    assert_eq!(duration_seconds(3_000_000_000, 10_500_000_000), 8);
    assert_eq!(duration_seconds(0, u64::MAX), 18_446_744_074);
}

#[test]
fn duration_of_a_clock_going_back_is_zero() {
    assert_eq!(duration_seconds(10, 5), 0);
}
