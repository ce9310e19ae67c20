use tetris_core::ticker::Ticker;

#[test]
fn ticks_counts_whole_intervals_and_keeps_the_remainder() {
    let mut ticker = Ticker::new(0, 500_000);
    assert_eq!(ticker.ticks(499_999), 0);
    assert_eq!(ticker.ticks(1_250_000), 2);
    // `last` advanced to the newest boundary, 1_000_000.
    assert_eq!(ticker.ticks(1_499_999), 0);
    assert_eq!(ticker.ticks(1_500_000), 1);
}

#[test]
fn set_interval_changes_future_spacing_only() {
    let mut ticker = Ticker::new(0, 500_000);
    assert_eq!(ticker.ticks(500_000), 1);
    ticker.set_interval(250_000);
    assert_eq!(ticker.ticks(1_000_000), 2);
}

#[test]
fn paused_time_never_counts_toward_gravity() {
    // Times in microseconds: a tick was consumed at t = 10.0 s with a 0.5 s
    // interval, pause at 10.2 s, resume 40 s later at 50.2 s; the call at
    // t = 50.45 s must report 0 ticks, since only 0.45 s of unpaused time
    // have elapsed since the last boundary.
    let mut ticker = Ticker::new(9_500_000, 500_000);
    assert_eq!(ticker.ticks(10_000_000), 1);
    ticker.pause(10_200_000);
    ticker.resume(50_200_000);
    assert_eq!(ticker.ticks(50_450_000), 0);
    // The boundary was shifted to exactly 50.0 s.
    assert_eq!(ticker.ticks(50_500_000), 1);
}

#[test]
fn resume_without_pause_changes_nothing() {
    let mut ticker = Ticker::new(1_000_000, 500_000);
    ticker.resume(9_000_000);
    assert_eq!(ticker.ticks(2_000_000), 2);
}
