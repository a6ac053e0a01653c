use midi_router::tempo::{every, get_interval, ClockEvent};

fn emissions(period: u64, events: &[ClockEvent]) -> Vec<bool> {
    let mut counter = every(period);
    events.iter().map(|event| counter.step(*event)).collect()
}

#[test]
fn one_tick_in_four_starting_with_the_fourth() {
    let ticks = vec![ClockEvent::Tick; 12];
    let seen = emissions(4, &ticks);
    let indices: Vec<usize> = (0..12).filter(|i| seen[*i]).collect();
    assert_eq!(indices, vec![3, 7, 11]);
}

#[test]
fn a_period_of_one_lets_every_tick_through() {
    assert_eq!(emissions(1, &[ClockEvent::Tick; 3]), vec![true, true, true]);
}

#[test]
fn a_restart_makes_the_next_tick_count() {
    let (restart, tick) = (ClockEvent::Restart, ClockEvent::Tick);
    let seen = emissions(4, &[tick, restart, tick, tick, tick, tick, tick]);
    assert_eq!(seen, vec![false, false, true, false, false, false, true]);
    let seen = emissions(3, &[restart, restart, tick, tick, tick, tick]);
    assert_eq!(seen, vec![false, false, true, false, false, true]);
    let seen = emissions(1, &[restart, tick]);
    assert_eq!(seen, vec![false, true]);
}

#[test]
fn interval_is_a_minute_over_the_ticks_in_it() {
    assert_eq!(get_interval(60, 48), 20_833);
    assert_eq!(get_interval(120, 24), 20_833);
    assert_eq!(get_interval(60, 1), 1_000_000);
    assert_eq!(get_interval(1, 1), 60_000_000);
    assert_eq!(get_interval(7, 1), 8_571_428);
    assert_eq!(get_interval(60_000_000, 1), 1);
    assert_eq!(get_interval(60_000_001, 1), 0);
    assert_eq!(get_interval(u64::MAX, u64::MAX), 0);
}

#[test]
fn interval_without_a_tempo_is_endless() {
    assert_eq!(get_interval(0, 48), u64::MAX);
    assert_eq!(get_interval(60, 0), u64::MAX);
}
