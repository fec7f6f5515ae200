use std::collections::VecDeque;
use vstd::prelude::*;

use crate::ratio::Ratio;

verus! {

/// How many of the most recent chart points the trend line shows.
pub const TREND_LEN: usize = 20;

// ------------------------------------------------------------------
// The model: everything a host's statistics show is a function of the
// sequence of probe outcomes recorded since the last clear.  An outcome
// is `Some(latency_us)` for a reply and `None` for a lost probe.
// ------------------------------------------------------------------

/// How many points the chart window holds for a given `max_points`.
/// A window asked to hold no points still keeps the newest one.
pub open spec fn window_capacity(max_points: usize) -> nat {
    if max_points == 0 {
        1
    } else {
        max_points as nat
    }
}

/// The chart point of the `i`-th outcome: a reply at position `i` is
/// drawn at `x = i` with its latency; a lost probe at position `i` is
/// drawn at `x = i + 1` with latency 0.
pub open spec fn point_at(h: Seq<Option<u64>>, i: int) -> (u64, u64) {
    match h[i] {
        Some(v) => (i as u64, v),
        None => ((i + 1) as u64, 0u64),
    }
}

/// The chart points of all outcomes, oldest first.
pub open spec fn points(h: Seq<Option<u64>>) -> Seq<(u64, u64)> {
    Seq::new(h.len(), |i: int| point_at(h, i))
}

/// The last `n` elements of `s` (all of `s` when it is shorter).
pub open spec fn last_n<A>(s: Seq<A>, n: nat) -> Seq<A> {
    if s.len() <= n {
        s
    } else {
        s.subrange(s.len() - n, s.len() as int)
    }
}

/// The chart window: the newest points, at most `window_capacity` of them.
pub open spec fn window(h: Seq<Option<u64>>, max_points: usize) -> Seq<(u64, u64)> {
    last_n(points(h), window_capacity(max_points))
}

/// The trend line of a window: the latencies of its last `TREND_LEN`
/// points, in tenths of a millisecond (rounded down).
pub open spec fn trend_of(win: Seq<(u64, u64)>) -> Seq<u64> {
    last_n(win, TREND_LEN as nat).map_values(|p: (u64, u64)| p.1 / 100)
}

/// Number of lost probes among the outcomes.
pub open spec fn lost_count(h: Seq<Option<u64>>) -> nat
    decreases h.len(),
{
    if h.len() == 0 {
        0
    } else {
        lost_count(h.drop_last()) + if h.last() is None {
            1nat
        } else {
            0nat
        }
    }
}

/// Sum of the latencies of all replies.
pub open spec fn reply_sum(h: Seq<Option<u64>>) -> nat
    decreases h.len(),
{
    if h.len() == 0 {
        0
    } else {
        reply_sum(h.drop_last()) + match h.last() {
            Some(v) => v as nat,
            None => 0nat,
        }
    }
}

/// Smallest reply latency; `u64::MAX` when there was no reply.
pub open spec fn reply_min(h: Seq<Option<u64>>) -> u64
    decreases h.len(),
{
    if h.len() == 0 {
        u64::MAX
    } else {
        let m = reply_min(h.drop_last());
        match h.last() {
            Some(v) => if v < m {
                v
            } else {
                m
            },
            None => m,
        }
    }
}

/// Largest reply latency; 0 when there was no reply.
pub open spec fn reply_max(h: Seq<Option<u64>>) -> u64
    decreases h.len(),
{
    if h.len() == 0 {
        0
    } else {
        let m = reply_max(h.drop_last());
        match h.last() {
            Some(v) => if v > m {
                v
            } else {
                m
            },
            None => m,
        }
    }
}

/// Latency of the newest reply; 0 when there was no reply.
pub open spec fn last_reply(h: Seq<Option<u64>>) -> u64
    decreases h.len(),
{
    if h.len() == 0 {
        0
    } else {
        match h.last() {
            Some(v) => v,
            None => last_reply(h.drop_last()),
        }
    }
}

/// `|a - b|`.
pub open spec fn abs_diff(a: u64, b: u64) -> nat {
    if a >= b {
        (a - b) as nat
    } else {
        (b - a) as nat
    }
}

/// Sum of the absolute latency changes between consecutive points among
/// the first `n` points of `s`.
pub open spec fn change_sum(s: Seq<(u64, u64)>, n: int) -> nat
    decreases n,
{
    if n <= 1 {
        0
    } else {
        change_sum(s, n - 1) + abs_diff(s[n - 1].1, s[n - 2].1)
    }
}

/// Mean absolute latency change between consecutive window points, in
/// milliseconds; 0 when the window holds fewer than two points.
pub open spec fn spec_jitter(win: Seq<(u64, u64)>) -> Ratio {
    if win.len() < 2 {
        Ratio::spec_zero()
    } else {
        Ratio { num: change_sum(win, win.len() as int) as u128, den: ((win.len() - 1) * 1000) as u128 }
    }
}

/// The live statistics of one monitored host.
///
/// Latencies are whole microseconds.  Every field is determined by the
/// host name, the window size and the outcomes recorded since the last
/// clear (see `wf`).
pub struct HostState {
    pub host: String,
    /// Chart points `(x, latency_us)`, oldest first.
    pub data: VecDeque<(u64, u64)>,
    pub current_us: u64,
    pub min_us: u64,
    pub max_us: u64,
    pub sum_us: u128,
    /// Probes recorded, replies and losses together.
    pub count: u64,
    pub lost: u64,
    /// Trend line: the last points' latencies in tenths of a millisecond.
    pub sparkline: Vec<u64>,
    /// The window size the chart was created with.
    pub max_points: usize,
    /// The outcomes recorded since the last clear, oldest first.
    pub history: Ghost<Seq<Option<u64>>>,
}

impl HostState {
    /// The outcomes recorded since the last clear, oldest first.
    pub open spec fn history(&self) -> Seq<Option<u64>> {
        self.history@
    }

    /// The window size the state was created with.
    pub open spec fn window_limit(&self) -> usize {
        self.max_points
    }

    /// Every field agrees with the recorded outcomes.
    pub open spec fn wf(&self) -> bool {
        let h = self.history();
        &&& self.count == h.len()
        &&& self.lost == lost_count(h)
        &&& self.sum_us == reply_sum(h)
        &&& self.min_us == reply_min(h)
        &&& self.max_us == reply_max(h)
        &&& self.current_us == last_reply(h)
        &&& self.data@ == window(h, self.window_limit())
        &&& self.sparkline@ == trend_of(self.data@)
    }

    /// A host with nothing recorded, whose chart keeps at most
    /// `max_points` points (at least the newest one).
    pub fn new(host: String, max_points: usize) -> (s: Self)
        ensures
            s.wf(),
            s.host == host,
            s.window_limit() == max_points,
            s.history() == Seq::<Option<u64>>::empty(),
    {
        let s = HostState {
            host,
            data: VecDeque::with_capacity(max_points),
            current_us: 0,
            min_us: u64::MAX,
            max_us: 0,
            sum_us: 0,
            count: 0,
            lost: 0,
            sparkline: Vec::new(),
            max_points,
            history: Ghost(Seq::empty()),
        };
        proof {
            assert(points(s.history@) =~= Seq::<(u64, u64)>::empty());
            assert(trend_of(s.data@) =~= Seq::<u64>::empty());
        }
        s
    }

    /// Records a reply that took `latency_us` microseconds.
    pub fn record(&mut self, latency_us: u64)
        requires
            old(self).wf(),
            old(self).count < u64::MAX,
        ensures
            final(self).wf(),
            final(self).history() == old(self).history().push(Some(latency_us)),
            final(self).host == old(self).host,
            final(self).window_limit() == old(self).window_limit(),
            final(self).count == old(self).count + 1,
            final(self).lost == old(self).lost,
            final(self).current_us == latency_us,
            final(self).sum_us == old(self).sum_us + latency_us,
            final(self).min_us == (if latency_us < old(self).min_us {
                latency_us
            } else {
                old(self).min_us
            }),
            final(self).max_us == (if latency_us > old(self).max_us {
                latency_us
            } else {
                old(self).max_us
            }),
    {
        let ghost h = self.history@;
        proof {
            lemma_history_push(h, Some(latency_us));
            lemma_reply_sum_bound(h);
        }
        let x = self.count;
        self.push_point((x, latency_us), Ghost(h), Ghost(Some(latency_us)));
        self.current_us = latency_us;
        if latency_us < self.min_us {
            self.min_us = latency_us;
        }
        if latency_us > self.max_us {
            self.max_us = latency_us;
        }
        self.sum_us = self.sum_us + latency_us as u128;
        self.count = self.count + 1;
        self.history = Ghost(h.push(Some(latency_us)));
        self.update_sparkline();
    }

    /// Records a probe that got no reply.
    pub fn record_timeout(&mut self)
        requires
            old(self).wf(),
            old(self).count < u64::MAX,
        ensures
            final(self).wf(),
            final(self).history() == old(self).history().push(None),
            final(self).host == old(self).host,
            final(self).window_limit() == old(self).window_limit(),
            final(self).count == old(self).count + 1,
            final(self).lost == old(self).lost + 1,
            final(self).current_us == old(self).current_us,
            final(self).sum_us == old(self).sum_us,
            final(self).min_us == old(self).min_us,
            final(self).max_us == old(self).max_us,
    {
        let ghost h = self.history@;
        proof {
            lemma_history_push(h, None);
            lemma_lost_bound(h);
        }
        self.lost = self.lost + 1;
        self.count = self.count + 1;
        let x = self.count;
        self.push_point((x, 0), Ghost(h), Ghost(None));
        self.history = Ghost(h.push(None));
        self.update_sparkline();
    }

    /// Rebuilds the trend line from the chart window.
    fn update_sparkline(&mut self)
        ensures
            final(self).sparkline@ == trend_of(old(self).data@),
            final(self).host == old(self).host,
            final(self).data == old(self).data,
            final(self).current_us == old(self).current_us,
            final(self).min_us == old(self).min_us,
            final(self).max_us == old(self).max_us,
            final(self).sum_us == old(self).sum_us,
            final(self).count == old(self).count,
            final(self).lost == old(self).lost,
            final(self).max_points == old(self).max_points,
            final(self).history == old(self).history,
    {
        let len = self.data.len();
        let start: usize = if len > TREND_LEN {
            len - TREND_LEN
        } else {
            0
        };
        let mut spark: Vec<u64> = Vec::new();
        let mut i: usize = start;
        while i < len
            invariant
                start <= i <= len,
                len == self.data@.len(),
                start == (if len > TREND_LEN { len - TREND_LEN } else { 0 }),
                spark@.len() == i - start,
                forall|j: int| 0 <= j < spark@.len() ==> spark@[j] == self.data@[start + j].1 / 100,
            decreases len - i,
        {
            let p = self.data[i];
            spark.push(p.1 / 100);
            i = i + 1;
        }
        proof {
            assert(spark@ =~= trend_of(self.data@));
        }
        self.sparkline = spark;
    }

    /// Forgets every recorded outcome; the host name and the window size
    /// stay.
    pub fn clear(&mut self)
        requires
            old(self).wf(),
        ensures
            final(self).wf(),
            final(self).history() == Seq::<Option<u64>>::empty(),
            final(self).host == old(self).host,
            final(self).window_limit() == old(self).window_limit(),
    {
        self.data.clear();
        self.current_us = 0;
        self.min_us = u64::MAX;
        self.max_us = 0;
        self.sum_us = 0;
        self.count = 0;
        self.lost = 0;
        self.sparkline.clear();
        self.history = Ghost(Seq::empty());
        proof {
            assert(points(self.history@) =~= Seq::<(u64, u64)>::empty());
            assert(trend_of(self.data@) =~= Seq::<u64>::empty());
        }
    }

    /// Some probe got a reply (so minimum, maximum, current and average
    /// latency have values).
    pub fn has_reply(&self) -> (b: bool)
        requires
            self.wf(),
        ensures
            b == (self.lost < self.count),
    {
        self.lost < self.count
    }

    /// Average latency in milliseconds over the replies (a lost probe has
    /// no latency); 0 when there was no reply.
    pub fn avg_ms(&self) -> (r: Ratio)
        requires
            self.wf(),
        ensures
            r == (if self.count > self.lost {
                Ratio { num: self.sum_us, den: ((self.count - self.lost) * 1000) as u128 }
            } else {
                Ratio::spec_zero()
            }),
    {
        if self.count > self.lost {
            Ratio { num: self.sum_us, den: (self.count - self.lost) as u128 * 1000 }
        } else {
            Ratio::zero()
        }
    }

    /// Average latency over the replies in whole microseconds (rounded
    /// down); 0 when there was no reply.  On the same side of any
    /// whole-microsecond threshold as `avg_ms`, and between the minimum and
    /// the maximum latency.
    pub fn avg_us(&self) -> (r: u64)
        requires
            self.wf(),
        ensures
            r == (if self.count > self.lost {
                self.sum_us / ((self.count - self.lost) as u128)
            } else {
                0
            }),
            self.count > self.lost ==> forall|t: u64| #![trigger t * (self.count - self.lost)]
                (r < t) <==> (self.sum_us < t * (self.count - self.lost)),
            self.count > self.lost ==> self.min_us <= r <= self.max_us,
    {
        if self.count > self.lost {
            let replies = self.count - self.lost;
            proof {
                let c = replies as int;
                let s = self.sum_us as int;
                assert forall|t: u64| #![trigger t * (self.count - self.lost)]
                    (s / c < t) <==> (s < t * (self.count - self.lost)) by {
                    assert((s / c < t) <==> (s < t * c)) by (nonlinear_arith)
                        requires
                            c > 0,
                            s >= 0,
                    ;
                }
                law_counters_consistent(self);
                let lo = self.min_us as int;
                let hi = self.max_us as int;
                assert(lo <= s / c <= hi) by (nonlinear_arith)
                    requires
                        c * lo <= s <= c * hi,
                        c > 0,
                ;
            }
            (self.sum_us / (replies as u128)) as u64
        } else {
            0
        }
    }

    /// Percentage of recorded probes that got no reply; 0 when nothing
    /// was recorded.
    pub fn loss_pct(&self) -> (r: Ratio)
        requires
            self.wf(),
        ensures
            r == (if self.count > 0 {
                Ratio { num: (self.lost * 100) as u128, den: self.count as u128 }
            } else {
                Ratio::spec_zero()
            }),
    {
        if self.count > 0 {
            Ratio { num: self.lost as u128 * 100, den: self.count as u128 }
        } else {
            Ratio::zero()
        }
    }

    /// Mean absolute latency change between consecutive chart points, in
    /// milliseconds; 0 when the chart holds fewer than two points.
    pub fn jitter(&self) -> (r: Ratio)
        requires
            self.wf(),
        ensures
            r == spec_jitter(self.data@),
    {
        let n = self.data.len();
        if n < 2 {
            return Ratio::zero();
        }
        let mut total: u128 = 0;
        let mut i: usize = 1;
        while i < n
            invariant
                1 <= i <= n,
                n == self.data@.len(),
                total == change_sum(self.data@, i as int),
                total <= i * 18446744073709551615u128,
            decreases n - i,
        {
            let a = self.data[i].1;
            let b = self.data[i - 1].1;
            let d = if a >= b {
                a - b
            } else {
                b - a
            };
            total = total + d as u128;
            i = i + 1;
        }
        Ratio { num: total, den: (n - 1) as u128 * 1000 }
    }

    /// Appends the point of a new outcome `o` to the chart window,
    /// dropping the oldest point when the window is full.
    fn push_point(&mut self, point: (u64, u64), Ghost(h): Ghost<Seq<Option<u64>>>, Ghost(o): Ghost<Option<u64>>)
        requires
            old(self).data@ == window(h, old(self).max_points),
            h.len() < u64::MAX,
            point == point_at(h.push(o), h.len() as int),
        ensures
            final(self).data@ == window(h.push(o), old(self).max_points),
            final(self).host == old(self).host,
            final(self).current_us == old(self).current_us,
            final(self).min_us == old(self).min_us,
            final(self).max_us == old(self).max_us,
            final(self).sum_us == old(self).sum_us,
            final(self).count == old(self).count,
            final(self).lost == old(self).lost,
            final(self).sparkline == old(self).sparkline,
            final(self).max_points == old(self).max_points,
            final(self).history == old(self).history,
    {
        proof {
            lemma_window_push(h, o, self.max_points);
        }
        if self.data.len() >= self.max_points {
            self.data.pop_front();
        }
        self.data.push_back(point);
    }
}

/// How the counters of the model move when one more outcome arrives.
proof fn lemma_history_push(h: Seq<Option<u64>>, o: Option<u64>)
    ensures
        lost_count(h.push(o)) == lost_count(h) + if o is None {
            1nat
        } else {
            0nat
        },
        reply_sum(h.push(o)) == reply_sum(h) + match o {
            Some(v) => v as nat,
            None => 0nat,
        },
        reply_min(h.push(o)) == (match o {
            Some(v) => if v < reply_min(h) {
                v
            } else {
                reply_min(h)
            },
            None => reply_min(h),
        }),
        reply_max(h.push(o)) == (match o {
            Some(v) => if v > reply_max(h) {
                v
            } else {
                reply_max(h)
            },
            None => reply_max(h),
        }),
        last_reply(h.push(o)) == (match o {
            Some(v) => v,
            None => last_reply(h),
        }),
{
    assert(h.push(o).drop_last() =~= h);
}

/// Losses never outnumber the outcomes.
proof fn lemma_lost_bound(h: Seq<Option<u64>>)
    ensures
        lost_count(h) <= h.len(),
    decreases h.len(),
{
    if h.len() > 0 {
        lemma_lost_bound(h.drop_last());
    }
}

/// The latency sum is at most `u64::MAX` per outcome.
proof fn lemma_reply_sum_bound(h: Seq<Option<u64>>)
    ensures
        reply_sum(h) <= h.len() * 18446744073709551615,
    decreases h.len(),
{
    if h.len() > 0 {
        lemma_reply_sum_bound(h.drop_last());
    }
}

/// The points of `h.push(o)` are those of `h` followed by the new one.
proof fn lemma_points_push(h: Seq<Option<u64>>, o: Option<u64>)
    ensures
        points(h.push(o)) == points(h).push(point_at(h.push(o), h.len() as int)),
{
    assert forall|i: int| 0 <= i < h.len() implies point_at(h.push(o), i) == point_at(h, i) by {
        assert(h.push(o)[i] == h[i]);
    }
    assert(points(h.push(o)) =~= points(h).push(point_at(h.push(o), h.len() as int)));
}

/// How one more outcome moves the chart window.
proof fn lemma_window_push(h: Seq<Option<u64>>, o: Option<u64>, max_points: usize)
    ensures
        window(h, max_points).len() <= window_capacity(max_points),
        window(h, max_points).len() < window_capacity(max_points) ==> window(h, max_points).len()
            == h.len(),
        ({
            let w = window(h, max_points);
            let p = point_at(h.push(o), h.len() as int);
            if w.len() < window_capacity(max_points) {
                window(h.push(o), max_points) == w.push(p)
            } else {
                window(h.push(o), max_points) == w.subrange(1, w.len() as int).push(p)
            }
        }),
{
    lemma_points_push(h, o);
    let w = window(h, max_points);
    let p = point_at(h.push(o), h.len() as int);
    let cap = window_capacity(max_points);
    let ps = points(h);
    if ps.len() < cap {
        assert(window(h.push(o), max_points) =~= w.push(p));
    } else {
        assert(window(h.push(o), max_points) =~= w.subrange(1, w.len() as int).push(p));
    }
}

// ------------------------------------------------------------------
// Laws of the per-host statistics.
// ------------------------------------------------------------------

/// The statistics are a function of what was recorded: two states with
/// the same window size and the same recorded outcomes show the same
/// counters, chart window and trend line.
pub proof fn law_state_follows_history(a: &HostState, b: &HostState)
    requires
        a.wf(),
        b.wf(),
        a.history() == b.history(),
        a.window_limit() == b.window_limit(),
    ensures
        a.count == b.count,
        a.lost == b.lost,
        a.sum_us == b.sum_us,
        a.min_us == b.min_us,
        a.max_us == b.max_us,
        a.current_us == b.current_us,
        a.data@ == b.data@,
        a.sparkline@ == b.sparkline@,
{
}

/// A host with nothing recorded (fresh, or just cleared) shows nothing:
/// no probes, no losses, an empty chart and trend line, and the "no
/// reply yet" values for current, minimum and maximum latency.
pub proof fn law_empty_state(s: &HostState)
    requires
        s.wf(),
        s.history().len() == 0,
    ensures
        s.count == 0,
        s.lost == 0,
        s.sum_us == 0,
        s.current_us == 0,
        s.min_us == u64::MAX,
        s.max_us == 0,
        s.data@.len() == 0,
        s.sparkline@.len() == 0,
{
}

/// The chart never holds more than its window size (at least one point),
/// it holds the newest points, and the trend line shows at most
/// `TREND_LEN` of them.
pub proof fn law_window_bounds(s: &HostState)
    requires
        s.wf(),
    ensures
        s.data@.len() <= window_capacity(s.max_points),
        s.data@.len() == (if s.count <= window_capacity(s.max_points) {
            s.count as nat
        } else {
            window_capacity(s.max_points)
        }),
        s.count > 0 ==> s.data@.last() == point_at(s.history(), s.count - 1),
        s.sparkline@.len() <= TREND_LEN,
        s.sparkline@.len() == (if s.data@.len() <= TREND_LEN {
            s.data@.len()
        } else {
            TREND_LEN as nat
        }),
{
}

/// Every reply latency lies between the minimum and the maximum.
proof fn lemma_reply_bounds(h: Seq<Option<u64>>, i: int)
    requires
        0 <= i < h.len(),
        h[i] is Some,
    ensures
        reply_min(h) <= h[i]->0 <= reply_max(h),
    decreases h.len(),
{
    let t = h.drop_last();
    if i < h.len() - 1 {
        assert(t[i] == h[i]);
        lemma_reply_bounds(t, i);
    }
}

/// Once there is a reply, the newest one lies between minimum and maximum.
proof fn lemma_current_bounds(h: Seq<Option<u64>>)
    requires
        lost_count(h) < h.len(),
    ensures
        reply_min(h) <= last_reply(h) <= reply_max(h),
    decreases h.len(),
{
    let t = h.drop_last();
    if h.last() is None {
        lemma_current_bounds(t);
    }
}

/// The latency sum is at most the maximum per reply.
proof fn lemma_sum_below_max(h: Seq<Option<u64>>)
    ensures
        lost_count(h) <= h.len(),
        reply_sum(h) <= (h.len() - lost_count(h)) * reply_max(h),
    decreases h.len(),
{
    if h.len() > 0 {
        let t = h.drop_last();
        lemma_sum_below_max(t);
        lemma_history_push(t, h.last());
        assert(t.push(h.last()) =~= h);
        let r = (t.len() - lost_count(t)) as int;
        let m0 = reply_max(t) as int;
        let m1 = reply_max(h) as int;
        assert(r * m0 <= r * m1) by (nonlinear_arith)
            requires
                m0 <= m1,
                r >= 0,
        ;
        if h.last() is Some {
            assert((r + 1) * m1 == r * m1 + m1) by (nonlinear_arith);
        }
    }
}

/// The latency sum is at least the minimum per reply.
proof fn lemma_sum_above_min(h: Seq<Option<u64>>)
    ensures
        lost_count(h) <= h.len(),
        (h.len() - lost_count(h)) * reply_min(h) <= reply_sum(h),
    decreases h.len(),
{
    if h.len() > 0 {
        let t = h.drop_last();
        lemma_sum_above_min(t);
        lemma_history_push(t, h.last());
        assert(t.push(h.last()) =~= h);
        let r = (t.len() - lost_count(t)) as int;
        let m0 = reply_min(t) as int;
        let m1 = reply_min(h) as int;
        assert(r * m1 <= r * m0) by (nonlinear_arith)
            requires
                m1 <= m0,
                r >= 0,
        ;
        if h.last() is Some {
            let v = h.last()->0 as int;
            assert(m1 <= v);
            assert(h.len() - lost_count(h) == r + 1);
            assert(reply_sum(h) == reply_sum(t) + v);
            assert((r + 1) * m1 == r * m1 + m1) by (nonlinear_arith);
            assert((h.len() - lost_count(h)) * reply_min(h) == (r + 1) * m1);
            assert(r * m0 <= reply_sum(t));
        } else {
            assert(h.len() - lost_count(h) == r);
            assert((h.len() - lost_count(h)) * reply_min(h) == r * m0);
        }
    } else {
        assert(lost_count(h) == 0);
        assert((h.len() - lost_count(h)) * reply_min(h) == 0);
    }
}

/// The counters agree with one another: losses never outnumber probes,
/// every reply lies between the minimum and the maximum, the current
/// latency does too once there has been a reply, and so does the average
/// over the replies (`replies * min <= sum <= replies * max`).
pub proof fn law_counters_consistent(s: &HostState)
    requires
        s.wf(),
    ensures
        s.lost <= s.count,
        forall|i: int|
            0 <= i < s.history().len() && #[trigger] s.history()[i] is Some ==> s.min_us
                <= s.history()[i]->0 <= s.max_us,
        s.lost < s.count ==> s.min_us <= s.current_us <= s.max_us,
        (s.count - s.lost) * s.min_us <= s.sum_us <= (s.count - s.lost) * s.max_us,
{
    let h = s.history();
    lemma_lost_bound(h);
    assert forall|i: int| 0 <= i < h.len() && #[trigger] h[i] is Some implies reply_min(h)
        <= h[i]->0 <= reply_max(h) by {
        lemma_reply_bounds(h, i);
    }
    if s.lost < s.count {
        lemma_current_bounds(h);
    }
    lemma_sum_below_max(h);
    lemma_sum_above_min(h);
}

/// The latency sum fits `u64::MAX` per probe and losses never outnumber
/// probes.
pub proof fn lemma_counter_bounds(s: &HostState)
    requires
        s.wf(),
    ensures
        s.sum_us <= s.count * 18446744073709551615,
        s.lost <= s.count,
{
    lemma_reply_sum_bound(s.history());
    lemma_lost_bound(s.history());
}

/// The chart window holds the newest points, as many as the window size
/// allows: after `count` outcomes it holds `min(count, max_points)` points
/// (one when `max_points` is 0), and its `k`-th point is that of outcome
/// `count - len + k`: a reply at position `i` drawn at `(i, latency)`, a
/// lost probe at position `i` drawn at `(i + 1, 0)`.
pub proof fn law_window_holds_newest_points(s: &HostState)
    requires
        s.wf(),
    ensures
        s.max_points >= 1 ==> s.data@.len() == (if s.count <= s.max_points {
            s.count as nat
        } else {
            s.max_points as nat
        }),
        s.max_points == 0 ==> s.data@.len() == (if s.count == 0 {
            0nat
        } else {
            1nat
        }),
        forall|k: int|
            0 <= k < s.data@.len() ==> #[trigger] s.data@[k] == (match s.history()[s.count
                - s.data@.len() + k] {
                Some(v) => ((s.count - s.data@.len() + k) as u64, v),
                None => ((s.count - s.data@.len() + k + 1) as u64, 0u64),
            }),
{
    let h = s.history();
    let p = points(h);
    assert(p.len() == h.len());
    assert forall|k: int| 0 <= k < s.data@.len() implies #[trigger] s.data@[k] == (match h[s.count
        - s.data@.len() + k] {
        Some(v) => ((s.count - s.data@.len() + k) as u64, v),
        None => ((s.count - s.data@.len() + k + 1) as u64, 0u64),
    }) by {
        let i = s.count - s.data@.len() + k;
        assert(s.data@[k] == p[i]);
    }
}

/// The trend line shows the latencies of the last (at most 20) chart
/// points, in tenths of a millisecond rounded down, oldest first.
pub proof fn law_trend_line_follows_window(s: &HostState)
    requires
        s.wf(),
    ensures
        s.sparkline@.len() == (if s.data@.len() <= 20 {
            s.data@.len()
        } else {
            20
        }),
        forall|k: int|
            0 <= k < s.sparkline@.len() ==> #[trigger] s.sparkline@[k] == s.data@[s.data@.len()
                - s.sparkline@.len() + k].1 / 100,
{
}

/// The sum of the latency changes over the first `n` points does not
/// depend on the points after them.
proof fn lemma_change_sum_prefix(s: Seq<(u64, u64)>, p: (u64, u64), n: int)
    requires
        0 <= n <= s.len(),
    ensures
        change_sum(s.push(p), n) == change_sum(s, n),
    decreases n,
{
    if n > 1 {
        lemma_change_sum_prefix(s, p, n - 1);
        assert(s.push(p)[n - 1] == s[n - 1]);
        assert(s.push(p)[n - 2] == s[n - 2]);
    }
}

/// Each latency change is at most `u64::MAX`.
proof fn lemma_change_sum_bound(s: Seq<(u64, u64)>, n: int)
    ensures
        change_sum(s, n) <= (if n > 1 { n - 1 } else { 0 }) * 18446744073709551615,
    decreases n,
{
    if n > 1 {
        lemma_change_sum_bound(s, n - 1);
    }
}

/// Jitter is the mean change over every consecutive pair of the window:
/// 0 for fewer than two points; for two points, their change over one;
/// and one more point adds its change from the previous last point to the
/// sum and one more change to the count.
pub proof fn law_jitter_steps(win: Seq<(u64, u64)>, p: (u64, u64))
    requires
        win.len() < 18446744073709551615,
    ensures
        win.len() < 2 ==> spec_jitter(win) == (Ratio { num: 0, den: 1 }),
        win.len() == 1 ==> spec_jitter(win.push(p)).den == 1000,
        win.len() == 1 ==> spec_jitter(win.push(p)).num == (if p.1 >= win[0].1 {
            p.1 - win[0].1
        } else {
            win[0].1 - p.1
        }),
        win.len() >= 2 ==> spec_jitter(win.push(p)).den == win.len() * 1000,
        win.len() >= 2 ==> spec_jitter(win.push(p)).num == spec_jitter(win).num + (if p.1
            >= win.last().1 {
            p.1 - win.last().1
        } else {
            win.last().1 - p.1
        }),
{
    let n = win.len() as int;
    let w = win.push(p);
    if n >= 1 {
        lemma_change_sum_prefix(win, p, n);
        assert(w[n] == p);
        assert(w[n - 1] == win.last());
        lemma_change_sum_bound(w, n + 1);
        lemma_change_sum_bound(win, n);
        if n == 1 {
            assert(change_sum(win, 1) == 0);
        }
    }
}

} // verus!
