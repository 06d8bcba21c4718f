use tge::error::GameError;
use tge::timer::{Timer, TimerConfig};

#[test]
fn fixed_step_sixty_hertz_scenario() {
    // Target rate 60; the wall clock delivers exactly 16.667 ms per poll
    // for 180 polls: every poll is due and every delta is one interval.
    let mut timer = Timer::new(TimerConfig::new().target_rate(Some(60))).unwrap();
    assert_eq!(timer.interval_ns(), 16_666_666);
    let mut now: u64 = 0;
    let mut due_ticks: u64 = 0;
    for _ in 0..180 {
        now += 16_667_000;
        if timer.tick_and_check(now) {
            due_ticks += 1;
            assert_eq!(timer.delta_time_ns(), 16_666_666);
        }
    }
    assert_eq!(due_ticks, 180);
}

#[test]
fn accumulator_keeps_the_remainder() {
    // Interval 100; polls of 60 each: due on every other poll, and over
    // any window the tick count stays within one of elapsed/interval.
    let mut timer = Timer::new(TimerConfig::new().target_rate(Some(10_000_000))).unwrap();
    assert_eq!(timer.interval_ns(), 100);
    let mut now: u64 = 0;
    let mut due_ticks: u64 = 0;
    for _ in 0..10 {
        now += 60;
        if timer.tick_and_check(now) {
            due_ticks += 1;
        }
    }
    // 600 ns elapsed at interval 100 with poll deltas below one interval:
    // exactly 6 ticks.
    assert_eq!(due_ticks, 6);
}

#[test]
fn uncapped_timer_is_due_on_every_poll() {
    let mut timer = Timer::new(TimerConfig::new().target_rate(None)).unwrap();
    assert_eq!(timer.interval_ns(), 0);
    assert!(timer.tick_and_check(5_000));
    assert_eq!(timer.delta_time_ns(), 5_000);
    assert!(timer.tick_and_check(12_000));
    assert_eq!(timer.delta_time_ns(), 7_000);
}

#[test]
fn zero_target_rate_is_rejected() {
    let r = Timer::new(TimerConfig::new().target_rate(Some(0)));
    match r {
        Err(GameError::InitError(_)) => (),
        _ => panic!("a zero target rate must fail initialization"),
    }
}

#[test]
fn reset_tick_zeroes_the_accumulator() {
    let mut timer = Timer::new(TimerConfig::new().target_rate(Some(10_000_000))).unwrap();
    // Accumulate 60 of 100 needed.
    assert!(!timer.tick_and_check(60));
    timer.reset_tick(1_000);
    // After the reset the next poll starts from scratch: 60 more does not
    // reach an interval.
    assert!(!timer.tick_and_check(1_060));
    assert!(timer.tick_and_check(1_160));
}

#[test]
fn fps_estimate_smooths_the_poll_rate() {
    let mut timer = Timer::new(TimerConfig::new().target_rate(None)).unwrap();
    assert_eq!(timer.real_time_fps_milli(), 0);
    // One-second polls: the instantaneous estimate is 1000 milli-fps and
    // the smoothed value climbs toward it.
    timer.tick_and_check(1_000_000_000);
    assert_eq!(timer.real_time_fps_milli(), 125);
    timer.tick_and_check(2_000_000_000);
    assert_eq!(timer.real_time_fps_milli(), (125 * 7 + 1000) / 8);
}
