use chip8::timing::TimerClock;

#[test]
fn clock_counts_whole_periods_and_carries_the_rest() {
    let mut clock = TimerClock::new(1000);
    assert_eq!(clock.advance(2500), 2);
    assert_eq!(clock.advance(600), 1);
    assert_eq!(clock.advance(899), 0);
    assert_eq!(clock.advance(1), 1);
}

#[test]
fn clock_with_unit_period_ticks_per_nanosecond() {
    let mut clock = TimerClock::new(1);
    assert_eq!(clock.advance(u64::MAX), u64::MAX);
    assert_eq!(clock.advance(0), 0);
}

#[test]
fn clock_with_largest_period() {
    let mut clock = TimerClock::new(u64::MAX);
    assert_eq!(clock.advance(u64::MAX - 1), 0);
    assert_eq!(clock.advance(u64::MAX), 1);
}
