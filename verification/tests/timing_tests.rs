use minigames::timing::{Timing, FIRST_DELTA, NANOS_PER_MILLI};

#[test]
fn timing_starts_with_a_tick_of_one_millisecond() {
    let timing = Timing::new(42);
    assert_eq!(timing.now, 42);
    assert_eq!(timing.started_at, 42);
    assert_eq!(timing.delta_time, 1_000_000);
    assert_eq!(timing.elapsed, 0);
    assert_eq!(FIRST_DELTA, NANOS_PER_MILLI);
}

#[test]
fn timing_advance_measures_from_the_last_tick_and_from_the_start() {
    let mut timing = Timing::new(1_000);
    timing.advance(1_500);
    assert_eq!(timing, Timing { now: 1_500, started_at: 1_000, delta_time: 500, elapsed: 500 });
    timing.advance(4_000);
    assert_eq!(timing, Timing { now: 4_000, started_at: 1_000, delta_time: 2_500, elapsed: 3_000 });
}

#[test]
fn timing_advance_to_the_same_reading_is_a_tick_of_no_length() {
    let mut timing = Timing::new(7);
    timing.advance(7);
    assert_eq!(timing, Timing { now: 7, started_at: 7, delta_time: 0, elapsed: 0 });
}

#[test]
fn timing_advance_with_a_clock_that_ran_backwards() {
    let mut timing = Timing::new(1_000);
    timing.advance(2_000);
    timing.advance(1_200);
    assert_eq!(timing, Timing { now: 1_200, started_at: 1_000, delta_time: 0, elapsed: 200 });
    timing.advance(10);
    assert_eq!(timing, Timing { now: 10, started_at: 1_000, delta_time: 0, elapsed: 0 });
}

#[test]
fn timing_advance_over_the_whole_range_of_the_clock() {
    let mut timing = Timing::new(0);
    timing.advance(u64::MAX);
    assert_eq!(timing.delta_time, u64::MAX);
    assert_eq!(timing.elapsed, u64::MAX);
}

#[test]
fn timing_tick_lengths_add_up_to_the_elapsed_time() {
    let mut timing = Timing::new(100);
    let mut sum = 0;
    for now in [150, 150, 900, 901, 5_000] {
        timing.advance(now);
        sum += timing.delta_time;
        assert_eq!(timing.elapsed, sum);
        assert_eq!(timing.elapsed, now - 100);
    }
}
