use std::collections::VecDeque;
use vstd::prelude::*;

use crate::host::{lemma_counter_bounds, HostState};
use crate::network::{grown_total, received_sum, transmitted_sum, NetworkStats};
use crate::ratio::Ratio;

verus! {

/// How often the dashboard refreshes its network figures, in microseconds.
pub const TICK_INTERVAL_US: u64 = 200_000;

/// The probe interval before it is set or adjusted, in milliseconds.
pub const DEFAULT_PING_INTERVAL_MS: u64 = 1000;

/// How much one press of `+` or `-` changes the probe interval, in
/// milliseconds; it is also the shortest interval `-` leads to.
pub const PING_INTERVAL_STEP_MS: u64 = 100;

/// The probe interval after `+`: one step longer, unless that leaves the
/// range of the interval.
pub open spec fn lengthened(ms: u64) -> u64 {
    if ms <= u64::MAX - PING_INTERVAL_STEP_MS {
        (ms + PING_INTERVAL_STEP_MS) as u64
    } else {
        ms
    }
}

/// The probe interval after `-`: one step shorter, unless that goes under
/// one step.
pub open spec fn shortened(ms: u64) -> u64 {
    if ms >= 2 * PING_INTERVAL_STEP_MS {
        (ms - PING_INTERVAL_STEP_MS) as u64
    } else {
        ms
    }
}

/// The probe interval after `key`.
pub open spec fn interval_after(ms: u64, key: Key) -> u64 {
    if key == Key::Char('+') {
        lengthened(ms)
    } else if key == Key::Char('-') {
        shortened(ms)
    } else {
        ms
    }
}

/// The outcome of one probe.
pub enum PingResult {
    /// A reply arrived after `latency_us` microseconds.
    Reply { latency_us: u64 },
    /// No reply arrived in time.
    Timeout,
    /// The probe could not be made.
    Error(String),
}

/// The outcome of one probe of `host`.
pub struct PingEvent {
    pub host: String,
    pub result: PingResult,
}

/// A key press on the dashboard.
pub enum Key {
    Char(char),
    Up,
    Down,
    Esc,
    Other,
}

/// Whether the dashboard goes on.
#[derive(Clone, Copy, Debug, PartialEq, Eq)]
pub enum Control {
    Continue,
    Quit,
}

/// Something the dashboard reacts to.
pub enum Input {
    Key(Key),
    Ping(PingEvent),
    /// The refresh timer fired; the bytes each network interface moved
    /// since the last tick, `(received, transmitted)`.
    Tick(Vec<(u64, u64)>),
}

/// What a probe outcome adds to a host's history.
pub open spec fn outcome_of(result: PingResult) -> Option<u64> {
    match result {
        PingResult::Reply { latency_us } => Some(latency_us),
        _ => None,
    }
}

/// `i` is the first host whose name is `name`.
pub open spec fn first_host_named(hosts: Seq<HostState>, name: String, i: int) -> bool {
    &&& 0 <= i < hosts.len()
    &&& hosts[i].host@ == name@
    &&& forall|j: int| 0 <= j < i ==> hosts[j].host@ != name@
}

/// `new` is `old` with every host cleared.
pub open spec fn all_cleared(old: Seq<HostState>, new: Seq<HostState>) -> bool {
    &&& new.len() == old.len()
    &&& forall|i: int|
        0 <= i < old.len() ==> {
            &&& (#[trigger] new[i]).wf()
            &&& new[i].history().len() == 0
            &&& new[i].host == old[i].host
            &&& new[i].window_limit() == old[i].window_limit()
        }
}

/// The selection after scrolling up.
pub open spec fn scrolled_up(selected: usize) -> usize {
    if selected > 0 {
        (selected - 1) as usize
    } else {
        selected
    }
}

/// The selection after scrolling down a list of `len` hosts.
pub open spec fn scrolled_down(selected: usize, len: nat) -> usize {
    if selected < len - 1 {
        (selected + 1) as usize
    } else {
        selected
    }
}

/// The key quits the dashboard.
pub open spec fn is_quit_key(key: Key) -> bool {
    key is Esc || key == Key::Char('q')
}

/// Sum of the probe counts of the hosts.
pub open spec fn total_count(hs: Seq<HostState>) -> nat
    decreases hs.len(),
{
    if hs.len() == 0 {
        0
    } else {
        total_count(hs.drop_last()) + hs.last().count as nat
    }
}

/// Sum of the lost-probe counts of the hosts.
pub open spec fn total_lost(hs: Seq<HostState>) -> nat
    decreases hs.len(),
{
    if hs.len() == 0 {
        0
    } else {
        total_lost(hs.drop_last()) + hs.last().lost as nat
    }
}

/// Sum of the latency sums of the hosts.
pub open spec fn total_sum(hs: Seq<HostState>) -> nat
    decreases hs.len(),
{
    if hs.len() == 0 {
        0
    } else {
        total_sum(hs.drop_last()) + hs.last().sum_us as nat
    }
}

/// Largest latency among chart points; 0 when there is none.
pub open spec fn data_peak(d: Seq<(u64, u64)>) -> u64
    decreases d.len(),
{
    if d.len() == 0 {
        0
    } else {
        let m = data_peak(d.drop_last());
        if d.last().1 > m {
            d.last().1
        } else {
            m
        }
    }
}

/// Largest latency among all hosts' chart points; 0 when there is none.
pub open spec fn hosts_peak(hs: Seq<HostState>) -> u64
    decreases hs.len(),
{
    if hs.len() == 0 {
        0
    } else {
        let m = hosts_peak(hs.drop_last());
        let p = data_peak(hs.last().data@);
        if p > m {
            p
        } else {
            m
        }
    }
}

/// Most chart points any host holds; 0 when there is no host.
pub open spec fn longest_window(hs: Seq<HostState>) -> nat
    decreases hs.len(),
{
    if hs.len() == 0 {
        0
    } else {
        let m = longest_window(hs.drop_last());
        let l = hs.last().data@.len();
        if l > m {
            l
        } else {
            m
        }
    }
}

/// The latency chart's vertical scale reaches at least 100 ms.
pub const CHART_FLOOR_US: u64 = 100_000;

/// A prefix of the hosts has no more probes than all of them.
proof fn lemma_total_count_prefix(hs: Seq<HostState>, i: int)
    requires
        0 <= i <= hs.len(),
    ensures
        total_count(hs.subrange(0, i)) <= total_count(hs),
    decreases hs.len(),
{
    if i < hs.len() {
        let t = hs.drop_last();
        assert(t.subrange(0, i) =~= hs.subrange(0, i));
        lemma_total_count_prefix(t, i);
    } else {
        assert(hs.subrange(0, i) =~= hs);
    }
}

/// Largest latency among the points of one chart.
fn window_peak(d: &VecDeque<(u64, u64)>) -> (m: u64)
    ensures
        m == data_peak(d@),
{
    let mut m: u64 = 0;
    let mut i: usize = 0;
    while i < d.len()
        invariant
            i <= d@.len(),
            m == data_peak(d@.subrange(0, i as int)),
        decreases d@.len() - i,
    {
        proof {
            assert(d@.subrange(0, i + 1).drop_last() =~= d@.subrange(0, i as int));
        }
        let y = d[i].1;
        if y > m {
            m = y;
        }
        i = i + 1;
    }
    proof {
        assert(d@.subrange(0, d@.len() as int) =~= d@);
    }
    m
}

/// The dashboard's state.
pub struct AppState {
    pub hosts: Vec<HostState>,
    pub net: NetworkStats,
    pub show_stats: bool,
    pub selected: usize,
    pub tick_interval_us: u64,
    /// Time between two probes of a host, in milliseconds.
    pub ping_interval_ms: u64,
}

impl AppState {
    /// Every host's statistics and the network figures are well formed.
    pub open spec fn wf(&self) -> bool {
        &&& forall|i: int| 0 <= i < self.hosts@.len() ==> (#[trigger] self.hosts@[i]).wf()
        &&& self.net.wf()
    }

    /// `new` is `old` after `key` is pressed.
    pub open spec fn key_effect(old: AppState, new: AppState, key: Key) -> bool {
        &&& new.net == old.net
        &&& new.tick_interval_us == old.tick_interval_us
        &&& new.ping_interval_ms == interval_after(old.ping_interval_ms, key)
        &&& match key {
            Key::Char(c) => if c == 'd' {
                &&& new.show_stats == !old.show_stats
                &&& new.selected == old.selected
                &&& new.hosts@ == old.hosts@
            } else if c == 'c' {
                &&& new.show_stats == old.show_stats
                &&& new.selected == old.selected
                &&& all_cleared(old.hosts@, new.hosts@)
            } else {
                &&& new.show_stats == old.show_stats
                &&& new.selected == old.selected
                &&& new.hosts@ == old.hosts@
            },
            Key::Up => {
                &&& new.show_stats == old.show_stats
                &&& new.selected == scrolled_up(old.selected)
                &&& new.hosts@ == old.hosts@
            },
            Key::Down => {
                &&& new.show_stats == old.show_stats
                &&& new.selected == scrolled_down(old.selected, old.hosts@.len())
                &&& new.hosts@ == old.hosts@
            },
            _ => {
                &&& new.show_stats == old.show_stats
                &&& new.selected == old.selected
                &&& new.hosts@ == old.hosts@
            },
        }
    }

    /// `new` is `old` after the probe outcome `event` arrives: the first
    /// host with the event's name records the outcome, nothing else
    /// changes.
    pub open spec fn event_effect(old: AppState, new: AppState, event: PingEvent) -> bool {
        &&& new.net == old.net
        &&& new.show_stats == old.show_stats
        &&& new.selected == old.selected
        &&& new.tick_interval_us == old.tick_interval_us
        &&& new.ping_interval_ms == old.ping_interval_ms
        &&& new.hosts@.len() == old.hosts@.len()
        &&& forall|i: int|
            0 <= i < old.hosts@.len() ==> if first_host_named(old.hosts@, event.host, i) {
                &&& (#[trigger] new.hosts@[i]).wf()
                &&& new.hosts@[i].history() == old.hosts@[i].history().push(
                    outcome_of(event.result),
                )
                &&& new.hosts@[i].host == old.hosts@[i].host
                &&& new.hosts@[i].window_limit() == old.hosts@[i].window_limit()
            } else {
                new.hosts@[i] == old.hosts@[i]
            }
    }

    /// The probe outcome `event` can be recorded: the host it goes to has
    /// not reached the largest probe count.
    pub open spec fn can_take_event(&self, event: PingEvent) -> bool {
        forall|i: int|
            first_host_named(self.hosts@, event.host, i) ==> (#[trigger] self.hosts@[i]).count
                < u64::MAX
    }

    /// A dashboard for `hosts`, in that order, each keeping at most
    /// `max_points` chart points; nothing recorded, the statistics table
    /// hidden, the first host selected.
    pub fn new(hosts: Vec<String>, max_points: usize) -> (s: Self)
        ensures
            s.wf(),
            s.hosts@.len() == hosts@.len(),
            forall|i: int|
                0 <= i < hosts@.len() ==> {
                    &&& (#[trigger] s.hosts@[i]).host == hosts@[i]
                    &&& s.hosts@[i].history().len() == 0
                    &&& s.hosts@[i].window_limit() == max_points
                },
            s.net.rx_speed == Ratio::spec_zero(),
            s.net.tx_speed == Ratio::spec_zero(),
            s.net.total_rx_mb.num == 0,
            s.net.total_tx_mb.num == 0,
            !s.show_stats,
            s.selected == 0,
            s.tick_interval_us == TICK_INTERVAL_US,
            s.ping_interval_ms == DEFAULT_PING_INTERVAL_MS,
    {
        let mut states: Vec<HostState> = Vec::new();
        let mut i: usize = 0;
        while i < hosts.len()
            invariant
                i <= hosts@.len(),
                states@.len() == i,
                forall|k: int|
                    0 <= k < i ==> {
                        &&& (#[trigger] states@[k]).wf()
                        &&& states@[k].host == hosts@[k]
                        &&& states@[k].history().len() == 0
                        &&& states@[k].window_limit() == max_points
                    },
            decreases hosts@.len() - i,
        {
            let name = hosts[i].clone();
            states.push(HostState::new(name, max_points));
            i = i + 1;
        }
        AppState {
            hosts: states,
            net: NetworkStats::new(),
            show_stats: false,
            selected: 0,
            tick_interval_us: TICK_INTERVAL_US,
            ping_interval_ms: DEFAULT_PING_INTERVAL_MS,
        }
    }

    /// Records a probe outcome for the first host of the event's name;
    /// an event for a host that is not monitored changes nothing.  An
    /// error counts as a lost probe.
    pub fn handle_event(&mut self, event: PingEvent)
        requires
            old(self).wf(),
            old(self).can_take_event(event),
        ensures
            final(self).wf(),
            AppState::event_effect(*old(self), *final(self), event),
    {
        let n = self.hosts.len();
        let mut i: usize = 0;
        while i < n
            invariant
                i <= n,
                n == self.hosts@.len(),
                *self == *old(self),
                self.wf(),
                self.can_take_event(event),
                forall|j: int| 0 <= j < i ==> self.hosts@[j].host@ != event.host@,
            decreases n - i,
        {
            if self.hosts[i].host == event.host {
                assert(first_host_named(self.hosts@, event.host, i as int));
                match event.result {
                    PingResult::Reply { latency_us } => self.hosts[i].record(latency_us),
                    _ => self.hosts[i].record_timeout(),
                }
                proof {
                    assert forall|j: int| 0 <= j < old(self).hosts@.len() && j != i implies !first_host_named(old(self).hosts@, event.host, j) by {
                        if j > i {
                            assert(old(self).hosts@[i as int].host@ == event.host@);
                        }
                    }
                }
                return;
            }
            i = i + 1;
        }
    }

    /// Sets the time between two probes of a host.
    pub fn set_ping_interval_ms(&mut self, ms: u64)
        ensures
            final(self).ping_interval_ms == ms,
            final(self).hosts == old(self).hosts,
            final(self).net == old(self).net,
            final(self).show_stats == old(self).show_stats,
            final(self).selected == old(self).selected,
            final(self).tick_interval_us == old(self).tick_interval_us,
    {
        self.ping_interval_ms = ms;
    }

    /// Probes one step less often.
    pub fn lengthen_interval(&mut self)
        ensures
            final(self).ping_interval_ms == lengthened(old(self).ping_interval_ms),
            final(self).hosts == old(self).hosts,
            final(self).net == old(self).net,
            final(self).show_stats == old(self).show_stats,
            final(self).selected == old(self).selected,
            final(self).tick_interval_us == old(self).tick_interval_us,
    {
        if self.ping_interval_ms <= u64::MAX - PING_INTERVAL_STEP_MS {
            self.ping_interval_ms = self.ping_interval_ms + PING_INTERVAL_STEP_MS;
        }
    }

    /// Probes one step more often, down to one step.
    pub fn shorten_interval(&mut self)
        ensures
            final(self).ping_interval_ms == shortened(old(self).ping_interval_ms),
            final(self).hosts == old(self).hosts,
            final(self).net == old(self).net,
            final(self).show_stats == old(self).show_stats,
            final(self).selected == old(self).selected,
            final(self).tick_interval_us == old(self).tick_interval_us,
    {
        if self.ping_interval_ms >= 2 * PING_INTERVAL_STEP_MS {
            self.ping_interval_ms = self.ping_interval_ms - PING_INTERVAL_STEP_MS;
        }
    }

    /// Shows or hides the statistics table.
    pub fn toggle_stats(&mut self)
        ensures
            final(self).show_stats == !old(self).show_stats,
            final(self).hosts == old(self).hosts,
            final(self).net == old(self).net,
            final(self).selected == old(self).selected,
            final(self).tick_interval_us == old(self).tick_interval_us,
            final(self).ping_interval_ms == old(self).ping_interval_ms,
    {
        self.show_stats = !self.show_stats;
    }

    /// Selects the previous host, staying at the first.
    pub fn scroll_up(&mut self)
        ensures
            final(self).selected == scrolled_up(old(self).selected),
            final(self).hosts == old(self).hosts,
            final(self).net == old(self).net,
            final(self).show_stats == old(self).show_stats,
            final(self).tick_interval_us == old(self).tick_interval_us,
            final(self).ping_interval_ms == old(self).ping_interval_ms,
    {
        if self.selected > 0 {
            self.selected = self.selected - 1;
        }
    }

    /// Selects the next host, staying at the last.
    pub fn scroll_down(&mut self)
        requires
            old(self).hosts@.len() > 0,
        ensures
            final(self).selected == scrolled_down(old(self).selected, old(self).hosts@.len()),
            final(self).hosts == old(self).hosts,
            final(self).net == old(self).net,
            final(self).show_stats == old(self).show_stats,
            final(self).tick_interval_us == old(self).tick_interval_us,
            final(self).ping_interval_ms == old(self).ping_interval_ms,
    {
        if self.selected < self.hosts.len() - 1 {
            self.selected = self.selected + 1;
        }
    }

    /// Forgets everything recorded for every host.
    pub fn clear_chart(&mut self)
        requires
            old(self).wf(),
        ensures
            final(self).wf(),
            all_cleared(old(self).hosts@, final(self).hosts@),
            final(self).net == old(self).net,
            final(self).show_stats == old(self).show_stats,
            final(self).selected == old(self).selected,
            final(self).tick_interval_us == old(self).tick_interval_us,
            final(self).ping_interval_ms == old(self).ping_interval_ms,
    {
        let n = self.hosts.len();
        let mut i: usize = 0;
        while i < n
            invariant
                i <= n,
                n == self.hosts@.len(),
                n == old(self).hosts@.len(),
                self.net == old(self).net,
                self.show_stats == old(self).show_stats,
                self.selected == old(self).selected,
                self.tick_interval_us == old(self).tick_interval_us,
                self.ping_interval_ms == old(self).ping_interval_ms,
                forall|k: int| 0 <= k < n ==> (#[trigger] old(self).hosts@[k]).wf(),
                forall|k: int| i <= k < n ==> #[trigger] self.hosts@[k] == old(self).hosts@[k],
                forall|k: int|
                    0 <= k < i ==> {
                        &&& (#[trigger] self.hosts@[k]).wf()
                        &&& self.hosts@[k].history().len() == 0
                        &&& self.hosts@[k].host == old(self).hosts@[k].host
                        &&& self.hosts@[k].window_limit() == old(self).hosts@[k].window_limit()
                    },
            decreases n - i,
        {
            self.hosts[i].clear();
            i = i + 1;
        }
    }

    /// Reacts to a key: `q` and Esc quit, `d` shows or hides the
    /// statistics table, Up and Down move the selection, `+` and `-`
    /// lengthen and shorten the probe interval, `c` clears every host;
    /// other keys do nothing.
    pub fn handle_key(&mut self, key: Key) -> (c: Control)
        requires
            old(self).wf(),
            key is Down ==> old(self).hosts@.len() > 0,
        ensures
            final(self).wf(),
            AppState::key_effect(*old(self), *final(self), key),
            c == (if is_quit_key(key) {
                Control::Quit
            } else {
                Control::Continue
            }),
            (c == Control::Quit) <==> (key is Esc || key == Key::Char('q')),
    {
        match key {
            Key::Char(c) => {
                if c == 'q' {
                    Control::Quit
                } else if c == 'd' {
                    self.toggle_stats();
                    Control::Continue
                } else if c == 'c' {
                    self.clear_chart();
                    Control::Continue
                } else if c == '+' {
                    self.lengthen_interval();
                    Control::Continue
                } else if c == '-' {
                    self.shorten_interval();
                    Control::Continue
                } else {
                    Control::Continue
                }
            },
            Key::Esc => Control::Quit,
            Key::Up => {
                self.scroll_up();
                Control::Continue
            },
            Key::Down => {
                self.scroll_down();
                Control::Continue
            },
            Key::Other => Control::Continue,
        }
    }

    /// The dashboard may take `input`.
    pub open spec fn can_take(&self, input: Input) -> bool {
        match input {
            Input::Key(key) => key is Down ==> self.hosts@.len() > 0,
            Input::Ping(event) => self.can_take_event(event),
            Input::Tick(_) => true,
        }
    }

    /// Reacts to one input of the dashboard's loop: a key press, a probe
    /// outcome, or a refresh tick with the interfaces' traffic.
    pub fn handle_input(&mut self, input: Input) -> (c: Control)
        requires
            old(self).wf(),
            old(self).can_take(input),
        ensures
            final(self).wf(),
            match input {
                Input::Key(key) => {
                    &&& AppState::key_effect(*old(self), *final(self), key)
                    &&& (c == Control::Quit) <==> (key is Esc || key == Key::Char('q'))
                    &&& c == if is_quit_key(key) {
                        Control::Quit
                    } else {
                        Control::Continue
                    }
                },
                Input::Ping(event) => {
                    &&& AppState::event_effect(*old(self), *final(self), event)
                    &&& c == Control::Continue
                },
                Input::Tick(counters) => {
                    &&& final(self).hosts == old(self).hosts
                    &&& final(self).show_stats == old(self).show_stats
                    &&& final(self).selected == old(self).selected
                    &&& final(self).tick_interval_us == old(self).tick_interval_us
                    &&& final(self).ping_interval_ms == old(self).ping_interval_ms
                    &&& final(self).net.rx_speed == if old(self).tick_interval_us > 0 {
                        Ratio {
                            num: received_sum(counters@) as u128,
                            den: old(self).tick_interval_us as u128,
                        }
                    } else {
                        old(self).net.rx_speed
                    }
                    &&& final(self).net.tx_speed == if old(self).tick_interval_us > 0 {
                        Ratio {
                            num: transmitted_sum(counters@) as u128,
                            den: old(self).tick_interval_us as u128,
                        }
                    } else {
                        old(self).net.tx_speed
                    }
                    &&& final(self).net.total_rx_mb.num == grown_total(
                        old(self).net.total_rx_mb.num,
                        received_sum(counters@),
                    )
                    &&& final(self).net.total_tx_mb.num == grown_total(
                        old(self).net.total_tx_mb.num,
                        transmitted_sum(counters@),
                    )
                    &&& c == Control::Continue
                },
            },
    {
        match input {
            Input::Key(key) => self.handle_key(key),
            Input::Ping(event) => {
                self.handle_event(event);
                Control::Continue
            },
            Input::Tick(counters) => {
                self.on_tick(counters.as_slice());
                Control::Continue
            },
        }
    }

    /// Probe, loss and latency totals over all hosts.
    fn totals(&self) -> (t: (u64, u64, u128))
        requires
            self.wf(),
            total_count(self.hosts@) <= u64::MAX,
        ensures
            t.0 == total_count(self.hosts@),
            t.1 == total_lost(self.hosts@),
            t.2 == total_sum(self.hosts@),
    {
        let mut count: u64 = 0;
        let mut lost: u64 = 0;
        let mut sum: u128 = 0;
        let mut i: usize = 0;
        while i < self.hosts.len()
            invariant
                i <= self.hosts@.len(),
                self.wf(),
                total_count(self.hosts@) <= u64::MAX,
                count == total_count(self.hosts@.subrange(0, i as int)),
                lost == total_lost(self.hosts@.subrange(0, i as int)),
                sum == total_sum(self.hosts@.subrange(0, i as int)),
                lost <= count,
                sum <= count * 18446744073709551615u128,
            decreases self.hosts@.len() - i,
        {
            let ghost pre = self.hosts@.subrange(0, i as int);
            let ghost post = self.hosts@.subrange(0, i + 1);
            proof {
                assert(post.drop_last() =~= pre);
                lemma_total_count_prefix(self.hosts@, i + 1);
                lemma_counter_bounds(&self.hosts@[i as int]);
            }
            let h = &self.hosts[i];
            count = count + h.count;
            lost = lost + h.lost;
            sum = sum + h.sum_us;
            i = i + 1;
        }
        proof {
            assert(self.hosts@.subrange(0, self.hosts@.len() as int) =~= self.hosts@);
        }
        (count, lost, sum)
    }

    /// Average latency in milliseconds over the probes of all hosts; 0
    /// when nothing was recorded.
    pub fn overall_avg_ms(&self) -> (r: Ratio)
        requires
            self.wf(),
            total_count(self.hosts@) <= u64::MAX,
        ensures
            r == (if total_count(self.hosts@) > 0 {
                Ratio {
                    num: total_sum(self.hosts@) as u128,
                    den: (total_count(self.hosts@) * 1000) as u128,
                }
            } else {
                Ratio::spec_zero()
            }),
    {
        let (count, _lost, sum) = self.totals();
        if count > 0 {
            Ratio { num: sum, den: count as u128 * 1000 }
        } else {
            Ratio::zero()
        }
    }

    /// Percentage of the probes of all hosts that got no reply; 0 when
    /// nothing was recorded.
    pub fn overall_loss_pct(&self) -> (r: Ratio)
        requires
            self.wf(),
            total_count(self.hosts@) <= u64::MAX,
        ensures
            r == (if total_count(self.hosts@) > 0 {
                Ratio {
                    num: (total_lost(self.hosts@) * 100) as u128,
                    den: total_count(self.hosts@) as u128,
                }
            } else {
                Ratio::spec_zero()
            }),
    {
        let (count, lost, _sum) = self.totals();
        if count > 0 {
            Ratio { num: lost as u128 * 100, den: count as u128 }
        } else {
            Ratio::zero()
        }
    }

    /// Top of the latency chart's scale before headroom: the largest
    /// latency on any host's chart, but at least 100 ms.
    pub fn chart_peak_us(&self) -> (m: u64)
        ensures
            m == (if hosts_peak(self.hosts@) > CHART_FLOOR_US {
                hosts_peak(self.hosts@)
            } else {
                CHART_FLOOR_US
            }),
    {
        let mut m: u64 = 0;
        let mut i: usize = 0;
        while i < self.hosts.len()
            invariant
                i <= self.hosts@.len(),
                m == hosts_peak(self.hosts@.subrange(0, i as int)),
            decreases self.hosts@.len() - i,
        {
            proof {
                assert(self.hosts@.subrange(0, i + 1).drop_last() =~= self.hosts@.subrange(
                    0,
                    i as int,
                ));
            }
            let p = window_peak(&self.hosts[i].data);
            if p > m {
                m = p;
            }
            i = i + 1;
        }
        proof {
            assert(self.hosts@.subrange(0, self.hosts@.len() as int) =~= self.hosts@);
        }
        if m > CHART_FLOOR_US {
            m
        } else {
            CHART_FLOOR_US
        }
    }

    /// Width of the latency chart in points: the most points any host's
    /// chart holds, but at least 1.
    pub fn chart_width(&self) -> (w: usize)
        ensures
            w == (if longest_window(self.hosts@) > 1 {
                longest_window(self.hosts@)
            } else {
                1
            }),
    {
        let mut m: usize = 0;
        let mut i: usize = 0;
        while i < self.hosts.len()
            invariant
                i <= self.hosts@.len(),
                m == longest_window(self.hosts@.subrange(0, i as int)),
            decreases self.hosts@.len() - i,
        {
            proof {
                assert(self.hosts@.subrange(0, i + 1).drop_last() =~= self.hosts@.subrange(
                    0,
                    i as int,
                ));
            }
            let l = self.hosts[i].data.len();
            if l > m {
                m = l;
            }
            i = i + 1;
        }
        proof {
            assert(self.hosts@.subrange(0, self.hosts@.len() as int) =~= self.hosts@);
        }
        if m > 1 {
            m
        } else {
            1
        }
    }

    /// Accounts for the traffic of the last tick.
    pub fn on_tick(&mut self, counters: &[(u64, u64)])
        requires
            old(self).wf(),
        ensures
            final(self).wf(),
            final(self).hosts == old(self).hosts,
            final(self).show_stats == old(self).show_stats,
            final(self).selected == old(self).selected,
            final(self).tick_interval_us == old(self).tick_interval_us,
            final(self).ping_interval_ms == old(self).ping_interval_ms,
            final(self).net.rx_speed == (if old(self).tick_interval_us > 0 {
                Ratio {
                    num: received_sum(counters@) as u128,
                    den: old(self).tick_interval_us as u128,
                }
            } else {
                old(self).net.rx_speed
            }),
            final(self).net.tx_speed == (if old(self).tick_interval_us > 0 {
                Ratio {
                    num: transmitted_sum(counters@) as u128,
                    den: old(self).tick_interval_us as u128,
                }
            } else {
                old(self).net.tx_speed
            }),
            final(self).net.total_rx_mb.num == grown_total(
                old(self).net.total_rx_mb.num,
                received_sum(counters@),
            ),
            final(self).net.total_tx_mb.num == grown_total(
                old(self).net.total_tx_mb.num,
                transmitted_sum(counters@),
            ),
    {
        let interval = self.tick_interval_us;
        self.net.refresh(counters, interval);
    }
}

// ------------------------------------------------------------------
// Laws of the dashboard.
// ------------------------------------------------------------------

/// Scrolling never leaves the host list: a selection inside a non-empty
/// list stays inside it, whatever key is pressed.
pub proof fn law_selection_stays_in_list(old: AppState, new: AppState, key: Key)
    requires
        old.hosts@.len() > 0,
        old.selected < old.hosts@.len(),
        AppState::key_effect(old, new, key),
    ensures
        new.selected < new.hosts@.len(),
{
}

/// Scrolling down and back up (or up and back down) away from the ends
/// of the list returns to the same host.
pub proof fn law_scroll_round_trip(selected: usize, len: nat)
    requires
        0 < len <= usize::MAX,
    ensures
        selected + 1 < len ==> scrolled_up(scrolled_down(selected, len)) == selected,
        0 < selected < len ==> scrolled_down(scrolled_up(selected), len) == selected,
{
}

/// Pressing `d` twice leaves the dashboard as it was.
pub proof fn law_toggle_twice(a: AppState, b: AppState, c: AppState)
    requires
        AppState::key_effect(a, b, Key::Char('d')),
        AppState::key_effect(b, c, Key::Char('d')),
    ensures
        c.show_stats == a.show_stats,
        c.selected == a.selected,
        c.hosts@ == a.hosts@,
        c.net == a.net,
{
}

/// Quitting changes nothing.
pub proof fn law_quit_changes_nothing(old: AppState, new: AppState, key: Key)
    requires
        is_quit_key(key),
        AppState::key_effect(old, new, key),
    ensures
        new.show_stats == old.show_stats,
        new.selected == old.selected,
        new.hosts@ == old.hosts@,
        new.net == old.net,
{
}

/// An outcome for a host that is not monitored changes nothing.
pub proof fn law_unknown_host_ignored(old: AppState, new: AppState, event: PingEvent)
    requires
        forall|i: int| 0 <= i < old.hosts@.len() ==> (#[trigger] old.hosts@[i]).host@ != event.host@,
        AppState::event_effect(old, new, event),
    ensures
        new.hosts@ == old.hosts@,
        new.show_stats == old.show_stats,
        new.selected == old.selected,
        new.net == old.net,
{
    assert(new.hosts@ =~= old.hosts@);
}

/// An outcome is recorded by exactly one host, the first of its name: that
/// host's probe count grows by one, every other host stays as it was.
pub proof fn law_event_reaches_one_host(old: AppState, new: AppState, event: PingEvent, i: int)
    requires
        old.wf(),
        first_host_named(old.hosts@, event.host, i),
        AppState::event_effect(old, new, event),
    ensures
        new.hosts@[i].count == old.hosts@[i].count + 1,
        forall|j: int| 0 <= j < old.hosts@.len() && j != i ==> new.hosts@[j] == old.hosts@[j],
{
    assert(old.hosts@[i].wf());
    assert(new.hosts@[i].wf());
    assert forall|j: int| 0 <= j < old.hosts@.len() && j != i implies new.hosts@[j]
        == old.hosts@[j] by {
        if j > i {
            assert(old.hosts@[i].host@ == event.host@);
        }
        assert(!first_host_named(old.hosts@, event.host, j));
    }
}

/// Every chart point lies under the chart's peak.
proof fn lemma_data_peak_bound(d: Seq<(u64, u64)>, k: int)
    requires
        0 <= k < d.len(),
    ensures
        d[k].1 <= data_peak(d),
    decreases d.len(),
{
    if k < d.len() - 1 {
        assert(d.drop_last()[k] == d[k]);
        lemma_data_peak_bound(d.drop_last(), k);
    }
}

/// Every host's chart lies under the peak of all of them, and is no
/// longer than the longest.
proof fn lemma_hosts_peak_bound(hs: Seq<HostState>, i: int)
    requires
        0 <= i < hs.len(),
    ensures
        data_peak(hs[i].data@) <= hosts_peak(hs),
        hs[i].data@.len() <= longest_window(hs),
    decreases hs.len(),
{
    if i < hs.len() - 1 {
        assert(hs.drop_last()[i] == hs[i]);
        lemma_hosts_peak_bound(hs.drop_last(), i);
    }
}

/// The chart's scale covers every point: no chart point of any host lies
/// above the peak, the peak is at least 100 ms, and the chart is at
/// least as wide as any host's window.
pub proof fn law_chart_covers_points(hs: Seq<HostState>, i: int, k: int)
    requires
        0 <= i < hs.len(),
        0 <= k < hs[i].data@.len(),
    ensures
        hs[i].data@[k].1 <= hosts_peak(hs),
        hs[i].data@.len() <= longest_window(hs),
{
    lemma_data_peak_bound(hs[i].data@, k);
    lemma_hosts_peak_bound(hs, i);
}

/// Lost probes never outnumber probes over all hosts, so the overall loss
/// is at most 100 %.
pub proof fn law_overall_loss_bounded(hs: Seq<HostState>)
    requires
        forall|i: int| 0 <= i < hs.len() ==> (#[trigger] hs[i]).wf(),
    ensures
        total_lost(hs) <= total_count(hs),
    decreases hs.len(),
{
    if hs.len() > 0 {
        let t = hs.drop_last();
        assert forall|i: int| 0 <= i < t.len() implies (#[trigger] t[i]).wf() by {
            assert(t[i] == hs[i]);
        }
        law_overall_loss_bounded(t);
        lemma_counter_bounds(&hs[hs.len() - 1]);
    }
}

/// `+` then `-` (or `-` then `+`) restores the probe interval away from
/// the ends of its range, and `-` never takes an interval of at least one
/// step below one step.
pub proof fn law_interval_round_trip(ms: u64)
    ensures
        PING_INTERVAL_STEP_MS <= ms <= u64::MAX - PING_INTERVAL_STEP_MS ==> shortened(
            lengthened(ms),
        ) == ms,
        ms >= 2 * PING_INTERVAL_STEP_MS ==> lengthened(shortened(ms)) == ms,
        ms >= PING_INTERVAL_STEP_MS ==> shortened(ms) >= PING_INTERVAL_STEP_MS,
        lengthened(ms) >= ms,
        shortened(ms) <= ms,
{
}

/// Only `q` and Esc quit: every other key, every other character
/// included, lets the dashboard go on.
pub proof fn law_only_q_and_esc_quit(key: Key, c: char)
    ensures
        is_quit_key(key) <==> (key is Esc || key == Key::Char('q')),
        c != 'q' ==> !is_quit_key(Key::Char(c)),
        is_quit_key(Key::Char('q')),
        is_quit_key(Key::Esc),
        !is_quit_key(Key::Up),
        !is_quit_key(Key::Down),
        !is_quit_key(Key::Other),
{
}

/// The overall totals add up every host, whether or not it ever got a
/// reply: none for no host, and one more host adds its probe count, its
/// lost-probe count and its latency sum.
pub proof fn law_totals_add_every_host(hs: Seq<HostState>, h: HostState)
    ensures
        total_count(Seq::<HostState>::empty()) == 0,
        total_lost(Seq::<HostState>::empty()) == 0,
        total_sum(Seq::<HostState>::empty()) == 0,
        total_count(hs.push(h)) == total_count(hs) + h.count,
        total_lost(hs.push(h)) == total_lost(hs) + h.lost,
        total_sum(hs.push(h)) == total_sum(hs) + h.sum_us,
{
    assert(hs.push(h).drop_last() =~= hs);
}

/// The totals of two lists of hosts together are the sums of their
/// totals.
pub proof fn law_totals_split(a: Seq<HostState>, b: Seq<HostState>)
    ensures
        total_count(a + b) == total_count(a) + total_count(b),
        total_lost(a + b) == total_lost(a) + total_lost(b),
        total_sum(a + b) == total_sum(a) + total_sum(b),
    decreases b.len(),
{
    if b.len() == 0 {
        assert(a + b =~= a);
    } else {
        let t = b.drop_last();
        law_totals_split(a, t);
        assert((a + b).drop_last() =~= a + t);
        assert((a + b).last() == b.last());
    }
}

/// The chart's peak is the largest latency on any host's chart, and its
/// width the most points any host's chart holds: none for no host, and
/// one more host raises them to its own chart's when that is larger.
pub proof fn law_chart_scale_steps(hs: Seq<HostState>, h: HostState, d: Seq<(u64, u64)>, p: (u64, u64))
    ensures
        hosts_peak(Seq::<HostState>::empty()) == 0,
        longest_window(Seq::<HostState>::empty()) == 0,
        data_peak(Seq::<(u64, u64)>::empty()) == 0,
        data_peak(d.push(p)) == (if p.1 > data_peak(d) {
            p.1
        } else {
            data_peak(d)
        }),
        hosts_peak(hs.push(h)) == (if data_peak(h.data@) > hosts_peak(hs) {
            data_peak(h.data@)
        } else {
            hosts_peak(hs)
        }),
        longest_window(hs.push(h)) == (if h.data@.len() > longest_window(hs) {
            h.data@.len()
        } else {
            longest_window(hs)
        }),
{
    assert(hs.push(h).drop_last() =~= hs);
    assert(d.push(p).drop_last() =~= d);
}

/// Up moves the selection one host back and Down one host on, each
/// stopping at the end of the list.
pub proof fn law_scroll_moves_by_one(selected: usize, len: nat)
    requires
        0 < len <= usize::MAX,
    ensures
        selected > 0 ==> scrolled_up(selected) == selected - 1,
        selected == 0 ==> scrolled_up(selected) == 0,
        selected + 1 < len ==> scrolled_down(selected, len) == selected + 1,
        selected + 1 >= len ==> scrolled_down(selected, len) == selected,
{
}

/// A reply is recorded with its latency; a timeout and an error are both
/// recorded as a lost probe.
pub proof fn law_outcome_of_results(latency_us: u64, msg: String)
    ensures
        outcome_of(PingResult::Reply { latency_us }) == Some(latency_us),
        outcome_of(PingResult::Timeout) == None::<u64>,
        outcome_of(PingResult::Error(msg)) == None::<u64>,
{
}

/// The host an event goes to is the first one with the event's name: a
/// host with that name and none before it is that host, and there is at
/// most one such host.
pub proof fn law_first_host_named(hs: Seq<HostState>, name: String, i: int, j: int)
    ensures
        (0 <= i < hs.len() && hs[i].host@ == name@ && forall|k: int|
            0 <= k < i ==> #[trigger] hs[k].host@ != name@) ==> first_host_named(hs, name, i),
        first_host_named(hs, name, i) ==> hs[i].host@ == name@,
        first_host_named(hs, name, i) && first_host_named(hs, name, j) ==> i == j,
        first_host_named(hs, name, i) && 0 <= j < i ==> hs[j].host@ != name@,
{
}

/// `+` adds one step of 100 ms to the probe interval unless that leaves
/// its range; `-` takes one step off unless that goes under one step;
/// other keys leave it.
pub proof fn law_interval_steps(ms: u64, key: Key)
    ensures
        ms <= u64::MAX - 100 ==> lengthened(ms) == ms + 100,
        ms > u64::MAX - 100 ==> lengthened(ms) == ms,
        ms >= 200 ==> shortened(ms) == ms - 100,
        ms < 200 ==> shortened(ms) == ms,
        key != Key::Char('+') && key != Key::Char('-') ==> interval_after(ms, key) == ms,
        interval_after(ms, Key::Char('+')) == lengthened(ms),
        interval_after(ms, Key::Char('-')) == shortened(ms),
{
}

} // verus!
