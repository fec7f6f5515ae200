use pulsewave::app::{
    AppState, Control, Input, Key, PingEvent, PingResult, DEFAULT_PING_INTERVAL_MS, PING_INTERVAL_STEP_MS,
    TICK_INTERVAL_US,
};
use pulsewave::ratio::Ratio;

fn names(list: &[&str]) -> Vec<String> {
    list.iter().map(|s| s.to_string()).collect()
}

fn reply(host: &str, latency_us: u64) -> PingEvent {
    PingEvent { host: host.to_string(), result: PingResult::Reply { latency_us } }
}

fn timeout(host: &str) -> PingEvent {
    PingEvent { host: host.to_string(), result: PingResult::Timeout }
}

#[test]
fn new_dashboard() {
    let app = AppState::new(names(&["a", "b", "c"]), 50);
    assert_eq!(app.hosts.len(), 3);
    assert_eq!(app.hosts[1].host, "b");
    assert_eq!(app.hosts[2].max_points, 50);
    assert!(!app.show_stats);
    assert_eq!(app.selected, 0);
    assert_eq!(app.tick_interval_us, TICK_INTERVAL_US);
    assert_eq!(app.tick_interval_us, 200_000);
    assert_eq!(app.net.total_rx_mb.num, 0);
}

#[test]
fn events_reach_their_host() {
    let mut app = AppState::new(names(&["a", "b"]), 50);
    app.handle_event(reply("b", 12_000));
    app.handle_event(timeout("b"));
    app.handle_event(reply("a", 3_000));
    assert_eq!(app.hosts[0].count, 1);
    assert_eq!(app.hosts[0].current_us, 3_000);
    assert_eq!(app.hosts[1].count, 2);
    assert_eq!(app.hosts[1].lost, 1);
    assert_eq!(app.hosts[1].current_us, 12_000);
}

#[test]
fn errors_count_as_lost() {
    let mut app = AppState::new(names(&["a"]), 50);
    app.handle_event(PingEvent {
        host: "a".to_string(),
        result: PingResult::Error("could not resolve host: a".to_string()),
    });
    assert_eq!(app.hosts[0].count, 1);
    assert_eq!(app.hosts[0].lost, 1);
}

#[test]
fn unknown_host_is_ignored() {
    let mut app = AppState::new(names(&["a", "b"]), 50);
    app.handle_event(reply("zzz", 1_000));
    assert_eq!(app.hosts[0].count, 0);
    assert_eq!(app.hosts[1].count, 0);
}

#[test]
fn duplicate_names_go_to_the_first() {
    let mut app = AppState::new(names(&["a", "a"]), 50);
    app.handle_event(reply("a", 1_000));
    assert_eq!(app.hosts[0].count, 1);
    assert_eq!(app.hosts[1].count, 0);
}

#[test]
fn keys_quit() {
    let mut app = AppState::new(names(&["a"]), 50);
    assert_eq!(app.handle_key(Key::Char('q')), Control::Quit);
    assert_eq!(app.handle_key(Key::Esc), Control::Quit);
    assert_eq!(app.handle_key(Key::Char('x')), Control::Continue);
    assert_eq!(app.handle_key(Key::Other), Control::Continue);
}

#[test]
fn toggle_stats_twice() {
    let mut app = AppState::new(names(&["a"]), 50);
    app.handle_key(Key::Char('d'));
    assert!(app.show_stats);
    app.toggle_stats();
    assert!(!app.show_stats);
}

#[test]
fn scrolling_stays_in_the_list() {
    let mut app = AppState::new(names(&["a", "b", "c"]), 50);
    app.handle_key(Key::Up);
    assert_eq!(app.selected, 0);
    app.handle_key(Key::Down);
    app.handle_key(Key::Down);
    assert_eq!(app.selected, 2);
    app.handle_key(Key::Down);
    assert_eq!(app.selected, 2);
    app.scroll_up();
    assert_eq!(app.selected, 1);
    app.scroll_down();
    assert_eq!(app.selected, 2);
}

#[test]
fn clear_key_clears_every_host() {
    let mut app = AppState::new(names(&["a", "b"]), 50);
    app.handle_event(reply("a", 1_000));
    app.handle_event(timeout("b"));
    assert_eq!(app.handle_key(Key::Char('c')), Control::Continue);
    assert_eq!(app.hosts[0].count, 0);
    assert_eq!(app.hosts[1].lost, 0);
    assert!(app.hosts[0].data.is_empty());
    assert_eq!(app.hosts[0].host, "a");
    app.handle_event(reply("a", 2_000));
    app.clear_chart();
    assert_eq!(app.hosts[0].count, 0);
}

#[test]
fn inputs_of_the_loop() {
    let mut app = AppState::new(names(&["a"]), 50);
    assert_eq!(app.handle_input(Input::Ping(reply("a", 8_000))), Control::Continue);
    assert_eq!(app.hosts[0].count, 1);
    assert_eq!(app.handle_input(Input::Tick(vec![(400_000, 100_000)])), Control::Continue);
    assert_eq!(app.net.rx_speed, Ratio { num: 400_000, den: 200_000 });
    assert_eq!(app.net.tx_speed, Ratio { num: 100_000, den: 200_000 });
    assert_eq!(app.handle_input(Input::Key(Key::Char('d'))), Control::Continue);
    assert!(app.show_stats);
    assert_eq!(app.handle_input(Input::Key(Key::Esc)), Control::Quit);
}

#[test]
fn on_tick_accumulates() {
    let mut app = AppState::new(names(&["a"]), 50);
    app.on_tick(&[(1_000, 2_000)]);
    app.on_tick(&[(3_000, 4_000)]);
    assert_eq!(app.net.total_rx_mb, Ratio { num: 4_000, den: 1_000_000 });
    assert_eq!(app.net.total_tx_mb, Ratio { num: 6_000, den: 1_000_000 });
}

#[test]
fn overall_figures() {
    let mut app = AppState::new(names(&["a", "b"]), 50);
    assert_eq!(app.overall_avg_ms(), Ratio { num: 0, den: 1 });
    assert_eq!(app.overall_loss_pct(), Ratio { num: 0, den: 1 });
    app.handle_event(reply("a", 10_000));
    app.handle_event(reply("b", 30_000));
    app.handle_event(timeout("b"));
    app.handle_event(reply("a", 20_000));
    assert_eq!(app.overall_avg_ms(), Ratio { num: 60_000, den: 4_000 });
    assert_eq!(app.overall_loss_pct(), Ratio { num: 100, den: 4 });
}

#[test]
fn chart_scale() {
    let mut app = AppState::new(names(&["a", "b"]), 50);
    assert_eq!(app.chart_peak_us(), 100_000);
    assert_eq!(app.chart_width(), 1);
    app.handle_event(reply("a", 20_000));
    assert_eq!(app.chart_peak_us(), 100_000);
    app.handle_event(reply("b", 250_000));
    app.handle_event(reply("b", 1_000));
    app.handle_event(timeout("b"));
    assert_eq!(app.chart_peak_us(), 250_000);
    assert_eq!(app.chart_width(), 3);
}

#[test]
fn chart_scale_without_hosts() {
    let app = AppState::new(Vec::new(), 50);
    assert_eq!(app.chart_peak_us(), 100_000);
    assert_eq!(app.chart_width(), 1);
}

#[test]
fn plus_and_minus_adjust_the_probe_interval() {
    let mut app = AppState::new(names(&["a"]), 50);
    assert_eq!(app.ping_interval_ms, DEFAULT_PING_INTERVAL_MS);
    assert_eq!(app.ping_interval_ms, 1000);
    assert_eq!(PING_INTERVAL_STEP_MS, 100);
    assert_eq!(app.handle_key(Key::Char('+')), Control::Continue);
    assert_eq!(app.ping_interval_ms, 1100);
    assert_eq!(app.handle_key(Key::Char('-')), Control::Continue);
    assert_eq!(app.ping_interval_ms, 1000);
    app.set_ping_interval_ms(250);
    app.handle_key(Key::Char('-'));
    assert_eq!(app.ping_interval_ms, 150);
    app.handle_key(Key::Char('-'));
    assert_eq!(app.ping_interval_ms, 150);
    app.set_ping_interval_ms(u64::MAX - 50);
    app.lengthen_interval();
    assert_eq!(app.ping_interval_ms, u64::MAX - 50);
    app.shorten_interval();
    assert_eq!(app.ping_interval_ms, u64::MAX - 150);
    // the other figures stay
    assert_eq!(app.hosts[0].count, 0);
    assert!(!app.show_stats);
}

#[test]
fn overall_average_counts_every_probe() {
    let mut app = AppState::new(names(&["a"]), 50);
    app.handle_event(reply("a", 10_000));
    app.handle_event(timeout("a"));
    assert_eq!(app.overall_avg_ms(), Ratio { num: 10_000, den: 2_000 });
    assert_eq!(app.hosts[0].avg_ms(), Ratio { num: 10_000, den: 1_000 });
}
