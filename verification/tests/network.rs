use pulsewave::network::NetworkStats;
use pulsewave::ratio::Ratio;

#[test]
fn new_stats_are_zero() {
    let n = NetworkStats::new();
    assert_eq!(n.rx_speed, Ratio { num: 0, den: 1 });
    assert_eq!(n.tx_speed, Ratio { num: 0, den: 1 });
    assert_eq!(n.total_rx_mb, Ratio { num: 0, den: 1_000_000 });
    assert_eq!(n.total_tx_mb, Ratio { num: 0, den: 1_000_000 });
}

#[test]
fn refresh_sums_interfaces() {
    let mut n = NetworkStats::new();
    n.refresh(&[(1_000_000, 20_000), (500_000, 30_000)], 200_000);
    // 1.5 MB in 0.2 s
    assert_eq!(n.rx_speed, Ratio { num: 1_500_000, den: 200_000 });
    assert_eq!(n.tx_speed, Ratio { num: 50_000, den: 200_000 });
    assert_eq!(n.total_rx_mb, Ratio { num: 1_500_000, den: 1_000_000 });
    assert_eq!(n.total_tx_mb, Ratio { num: 50_000, den: 1_000_000 });
    n.refresh(&[(250_000, 0)], 200_000);
    assert_eq!(n.rx_speed, Ratio { num: 250_000, den: 200_000 });
    assert_eq!(n.tx_speed, Ratio { num: 0, den: 200_000 });
    assert_eq!(n.total_rx_mb, Ratio { num: 1_750_000, den: 1_000_000 });
    assert_eq!(n.total_tx_mb, Ratio { num: 50_000, den: 1_000_000 });
}

#[test]
fn empty_interval_keeps_speeds() {
    let mut n = NetworkStats::new();
    n.refresh(&[(10, 20)], 100);
    n.refresh(&[(1_000, 2_000)], 0);
    assert_eq!(n.rx_speed, Ratio { num: 10, den: 100 });
    assert_eq!(n.tx_speed, Ratio { num: 20, den: 100 });
    assert_eq!(n.total_rx_mb.num, 1_010);
    assert_eq!(n.total_tx_mb.num, 2_020);
}

#[test]
fn no_interfaces_means_no_traffic() {
    let mut n = NetworkStats::new();
    n.refresh(&[], 200_000);
    assert_eq!(n.rx_speed, Ratio { num: 0, den: 200_000 });
    assert_eq!(n.total_rx_mb.num, 0);
}

#[test]
fn counters_sum_beyond_u64() {
    let mut n = NetworkStats::new();
    n.refresh(&[(u64::MAX, u64::MAX), (u64::MAX, 1)], 1);
    assert_eq!(n.total_rx_mb.num, 2 * (u64::MAX as u128));
    assert_eq!(n.total_tx_mb.num, u64::MAX as u128 + 1);
}

#[test]
fn totals_stop_at_their_largest_count() {
    let mut n = NetworkStats::new();
    n.total_rx_mb.num = u128::MAX - 5;
    n.refresh(&[(10, 3)], 1);
    assert_eq!(n.total_rx_mb.num, u128::MAX);
    assert_eq!(n.total_tx_mb.num, 3);
    assert_eq!(n.rx_speed, Ratio { num: 10, den: 1 });
    n.refresh(&[(10, 0)], 1);
    assert_eq!(n.total_rx_mb.num, u128::MAX);
}
