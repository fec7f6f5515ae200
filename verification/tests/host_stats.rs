use pulsewave::host::HostState;
use pulsewave::ratio::Ratio;

fn host(max_points: usize) -> HostState {
    HostState::new("example.com".to_string(), max_points)
}

#[test]
fn new_host_shows_nothing() {
    let h = host(120);
    assert_eq!(h.host, "example.com");
    assert_eq!(h.count, 0);
    assert_eq!(h.lost, 0);
    assert_eq!(h.current_us, 0);
    assert_eq!(h.min_us, u64::MAX);
    assert_eq!(h.max_us, 0);
    assert_eq!(h.sum_us, 0);
    assert!(h.data.is_empty());
    assert!(h.sparkline.is_empty());
    assert_eq!(h.max_points, 120);
}

#[test]
fn record_updates_counters() {
    let mut h = host(120);
    h.record(12_000);
    h.record(8_000);
    h.record(45_000);
    assert_eq!(h.count, 3);
    assert_eq!(h.lost, 0);
    assert_eq!(h.current_us, 45_000);
    assert_eq!(h.min_us, 8_000);
    assert_eq!(h.max_us, 45_000);
    assert_eq!(h.sum_us, 65_000);
    let points: Vec<(u64, u64)> = h.data.iter().copied().collect();
    assert_eq!(points, vec![(0, 12_000), (1, 8_000), (2, 45_000)]);
    assert_eq!(h.sparkline, vec![120, 80, 450]);
}

#[test]
fn timeout_counts_as_lost_point_at_zero() {
    let mut h = host(120);
    h.record(10_000);
    h.record_timeout();
    assert_eq!(h.count, 2);
    assert_eq!(h.lost, 1);
    assert_eq!(h.current_us, 10_000);
    assert_eq!(h.min_us, 10_000);
    assert_eq!(h.max_us, 10_000);
    let points: Vec<(u64, u64)> = h.data.iter().copied().collect();
    // a lost probe is drawn one step later than a reply at the same position
    assert_eq!(points, vec![(0, 10_000), (2, 0)]);
    assert_eq!(h.sparkline, vec![100, 0]);
}

#[test]
fn window_keeps_newest_points() {
    let mut h = host(3);
    for i in 1..=5u64 {
        h.record(i * 1_000);
    }
    let points: Vec<(u64, u64)> = h.data.iter().copied().collect();
    assert_eq!(points, vec![(2, 3_000), (3, 4_000), (4, 5_000)]);
    assert_eq!(h.count, 5);
    assert_eq!(h.sum_us, 15_000);
}

#[test]
fn window_of_zero_keeps_one_point() {
    let mut h = host(0);
    h.record(1_000);
    h.record(2_000);
    h.record_timeout();
    let points: Vec<(u64, u64)> = h.data.iter().copied().collect();
    assert_eq!(points, vec![(3, 0)]);
}

#[test]
fn trend_line_holds_last_twenty() {
    let mut h = host(120);
    for i in 0..25u64 {
        h.record(i * 100);
    }
    assert_eq!(h.data.len(), 25);
    assert_eq!(h.sparkline.len(), 20);
    let expected: Vec<u64> = (5..25u64).collect();
    assert_eq!(h.sparkline, expected);
}

#[test]
fn trend_line_rounds_down_to_tenths_of_ms() {
    let mut h = host(10);
    h.record(12_345);
    h.record(99);
    assert_eq!(h.sparkline, vec![123, 0]);
}

#[test]
fn average_is_over_replies() {
    let mut h = host(120);
    assert_eq!(h.avg_ms(), Ratio { num: 0, den: 1 });
    h.record(10_000);
    h.record_timeout();
    // one 10 ms reply and a lost probe: the average latency is 10 ms
    assert_eq!(h.avg_ms(), Ratio { num: 10_000, den: 1_000 });
    h.record(20_000);
    h.record_timeout();
    assert_eq!(h.avg_ms(), Ratio { num: 30_000, den: 2_000 });
}

#[test]
fn average_of_only_losses_is_zero() {
    let mut h = host(120);
    h.record_timeout();
    h.record_timeout();
    assert_eq!(h.avg_ms(), Ratio { num: 0, den: 1 });
    assert_eq!(h.avg_us(), 0);
    assert!(!h.has_reply());
}

#[test]
fn has_reply_after_first_reply() {
    let mut h = host(120);
    assert!(!h.has_reply());
    h.record_timeout();
    assert!(!h.has_reply());
    h.record(1_000);
    assert!(h.has_reply());
    h.clear();
    assert!(!h.has_reply());
}

#[test]
fn loss_percentage() {
    let mut h = host(120);
    assert_eq!(h.loss_pct(), Ratio { num: 0, den: 1 });
    h.record(10_000);
    h.record_timeout();
    h.record_timeout();
    h.record(5_000);
    assert_eq!(h.loss_pct(), Ratio { num: 200, den: 4 });
}

#[test]
fn jitter_is_mean_absolute_change() {
    let mut h = host(120);
    assert_eq!(h.jitter(), Ratio { num: 0, den: 1 });
    h.record(10_000);
    assert_eq!(h.jitter(), Ratio { num: 0, den: 1 });
    h.record(14_000);
    h.record(11_000);
    h.record_timeout();
    // |14-10| + |11-14| + |0-11| = 18 ms over 3 changes
    assert_eq!(h.jitter(), Ratio { num: 18_000, den: 3_000 });
}

#[test]
fn jitter_uses_only_the_window() {
    let mut h = host(2);
    h.record(100_000);
    h.record(1_000);
    h.record(3_000);
    assert_eq!(h.jitter(), Ratio { num: 2_000, den: 1_000 });
}

#[test]
fn clear_resets_to_fresh() {
    let mut h = host(5);
    h.record(7_000);
    h.record_timeout();
    h.clear();
    let fresh = host(5);
    assert_eq!(h.host, fresh.host);
    assert_eq!(h.count, fresh.count);
    assert_eq!(h.lost, fresh.lost);
    assert_eq!(h.current_us, fresh.current_us);
    assert_eq!(h.min_us, fresh.min_us);
    assert_eq!(h.max_us, fresh.max_us);
    assert_eq!(h.sum_us, fresh.sum_us);
    assert!(h.data.is_empty());
    assert!(h.sparkline.is_empty());
    assert_eq!(h.max_points, 5);
    h.record(3_000);
    let points: Vec<(u64, u64)> = h.data.iter().copied().collect();
    assert_eq!(points, vec![(0, 3_000)]);
}

#[test]
fn counters_stay_consistent() {
    let mut h = host(4);
    let samples = [Some(30_000u64), None, Some(10_000), Some(50_000), None, Some(20_000)];
    for s in samples {
        match s {
            Some(v) => h.record(v),
            None => h.record_timeout(),
        }
    }
    assert!(h.lost <= h.count);
    assert!(h.min_us <= h.current_us && h.current_us <= h.max_us);
    let replies = (h.count - h.lost) as u128;
    assert!(replies * h.min_us as u128 <= h.sum_us);
    assert!(h.sum_us <= replies * h.max_us as u128);
    assert!(h.min_us <= h.avg_us() && h.avg_us() <= h.max_us);
    assert!(h.data.len() <= 4);
}

#[test]
fn average_in_whole_microseconds() {
    let mut h = host(120);
    assert_eq!(h.avg_us(), 0);
    h.record(10_001);
    h.record(20_000);
    h.record_timeout();
    assert_eq!(h.avg_us(), 15_000);
    h.record(u64::MAX);
    assert!(h.avg_us() >= h.min_us && h.avg_us() <= h.max_us);
}
