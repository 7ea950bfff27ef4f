use roboapp::camera::gauge::stamp_is_recent;
use roboapp::camera::gauge::FpsWindow;
use roboapp::camera::gauge::WINDOW_MICROS;

#[test]
fn window_is_one_second_of_microseconds() {
    assert_eq!(WINDOW_MICROS, 1_000_000);
}

#[test]
fn new_window_is_empty() {
    let mut w = FpsWindow::new();
    assert_eq!(w.len(), 0);
    assert_eq!(w.observe(5), 0);
}

#[test]
fn stamp_exactly_one_second_old_is_counted() {
    let t0: u64 = 42_000_000;
    let mut w = FpsWindow::new();
    w.push(t0);
    assert_eq!(w.observe(t0 + 1_000_000), 1);
    assert_eq!(w.len(), 1);
}

#[test]
fn stamp_older_than_one_second_is_dropped() {
    let t0: u64 = 42_000_000;
    let mut w = FpsWindow::new();
    w.push(t0);
    assert_eq!(w.observe(t0 + 1_000_001), 0);
    assert_eq!(w.len(), 0);
}

#[test]
fn observe_counts_frames_of_the_trailing_second() {
    let mut w = FpsWindow::new();
    for i in 0..30u64 {
        w.push(i * 100_000);
    }
    // At 2.9 s the stamps from 1.9 s on are recent: 1.9, 2.0, ..., 2.9.
    assert_eq!(w.observe(2_900_000), 11);
    assert_eq!(w.observe(2_900_000), 11);
    assert_eq!(w.observe(3_900_000), 1);
    assert_eq!(w.observe(3_900_001), 0);
}

#[test]
fn prune_keeps_recent_stamps_wherever_they_stand() {
    let mut w = FpsWindow::new();
    w.push(5_000_000);
    w.push(1);
    w.push(4_500_000);
    w.push(2);
    w.prune(5_000_000);
    assert_eq!(w.len(), 2);
    w.prune(5_500_001);
    assert_eq!(w.len(), 1);
    w.prune(6_000_001);
    assert_eq!(w.len(), 0);
}

#[test]
fn stamp_ahead_of_the_observation_is_recent() {
    assert!(stamp_is_recent(10, 3));
    assert!(stamp_is_recent(u64::MAX, 0));
    let mut w = FpsWindow::new();
    w.push(u64::MAX);
    assert_eq!(w.observe(0), 1);
}

#[test]
fn recency_at_the_edges() {
    assert!(stamp_is_recent(0, 0));
    assert!(stamp_is_recent(0, 1_000_000));
    assert!(!stamp_is_recent(0, 1_000_001));
    assert!(!stamp_is_recent(0, u64::MAX));
    assert!(stamp_is_recent(u64::MAX - 1_000_000, u64::MAX));
    assert!(!stamp_is_recent(u64::MAX - 1_000_001, u64::MAX));
}
