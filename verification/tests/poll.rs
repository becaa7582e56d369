use lilac::clock::Clock;
use lilac::poll::{Ticker, Wake, TICK_RATE};
use lilac::session::Key;

#[test]
fn tick_rate_is_a_tenth_of_a_second() {
    assert_eq!(TICK_RATE, 100_000_000);
}

#[test]
fn timeout_is_what_is_left_until_the_tick() {
    let t = Ticker::new(1_000);
    assert_eq!(t.timeout(1_000), TICK_RATE);
    assert_eq!(t.timeout(1_000 + 30_000_000), 70_000_000);
    assert_eq!(t.timeout(1_000 + TICK_RATE - 1), 1);
    assert_eq!(t.timeout(1_000 + TICK_RATE), 0);
    assert_eq!(t.timeout(1_000 + 5 * TICK_RATE), 0);
    assert_eq!(t.timeout(0), TICK_RATE);
}

#[test]
fn wait_that_runs_out_sends_a_tick() {
    let mut t = Ticker::new(0);
    let wake = t.poll(None, TICK_RATE);
    assert_eq!(wake, Wake { input: None, tick: true, done: false });
    assert_eq!(t.timeout(TICK_RATE), TICK_RATE);
    assert_eq!(t.timeout(TICK_RATE + 40_000_000), 60_000_000);
}

#[test]
fn key_before_the_tick_sends_the_key_alone() {
    let mut t = Ticker::new(0);
    let wake = t.poll(Some(Key::Space), 20_000_000);
    assert_eq!(wake, Wake { input: Some(Key::Space), tick: false, done: false });
    assert_eq!(t.timeout(20_000_000), 80_000_000);
}

#[test]
fn key_at_the_tick_sends_both() {
    let mut t = Ticker::new(0);
    let wake = t.poll(Some(Key::Other), TICK_RATE + 5);
    assert_eq!(wake, Wake { input: Some(Key::Other), tick: true, done: false });
    assert_eq!(t.timeout(TICK_RATE + 5), TICK_RATE);
}

#[test]
fn escape_ends_the_source_without_a_tick() {
    let mut t = Ticker::new(0);
    let wake = t.poll(Some(Key::Esc), 3 * TICK_RATE);
    assert_eq!(wake, Wake { input: Some(Key::Esc), tick: false, done: true });
    assert_eq!(t.timeout(3 * TICK_RATE), 0);
}

#[test]
fn ticks_follow_each_other_at_the_rate() {
    let mut t = Ticker::new(0);
    let mut now = 0;
    let mut ticks = 0;
    for _ in 0..50 {
        now += t.timeout(now);
        if t.poll(None, now).tick {
            ticks += 1;
            assert_eq!(now, ticks * TICK_RATE);
        }
    }
    assert_eq!(ticks, 50);
}

#[test]
fn poll_on_the_clock() {
    let clock = Clock::new();
    let mut t = Ticker::new(clock.now());
    assert!(t.timeout_on(&clock) <= TICK_RATE);
    let wake = t.poll_on(Some(Key::Esc), &clock);
    assert_eq!(wake.input, Some(Key::Esc));
    assert!(wake.done);
    assert!(!wake.tick);
    let wake = t.poll_on(Some(Key::Up), &clock);
    assert_eq!(wake.input, Some(Key::Up));
    assert!(!wake.done);
}
