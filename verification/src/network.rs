use vstd::prelude::*;

use crate::ratio::Ratio;

verus! {

/// Bytes per megabyte.
pub const BYTES_PER_MB: u128 = 1_000_000;

/// Sum of the received-byte counters `(received, transmitted)` of the
/// interfaces.
pub open spec fn received_sum(counters: Seq<(u64, u64)>) -> nat
    decreases counters.len(),
{
    if counters.len() == 0 {
        0
    } else {
        received_sum(counters.drop_last()) + counters.last().0 as nat
    }
}

/// Sum of the transmitted-byte counters of the interfaces.
pub open spec fn transmitted_sum(counters: Seq<(u64, u64)>) -> nat
    decreases counters.len(),
{
    if counters.len() == 0 {
        0
    } else {
        transmitted_sum(counters.drop_last()) + counters.last().1 as nat
    }
}

/// A byte total after `bytes` more: the sum, or the largest count a total
/// holds when the sum exceeds it.
pub open spec fn grown_total(total: u128, bytes: nat) -> u128 {
    if total + bytes > u128::MAX {
        u128::MAX
    } else {
        (total + bytes) as u128
    }
}

/// Throughput of the machine's network interfaces.
///
/// Speeds are in megabytes per second (bytes per microsecond); totals are
/// in megabytes (bytes over `BYTES_PER_MB`).
pub struct NetworkStats {
    pub rx_speed: Ratio,
    pub tx_speed: Ratio,
    pub total_rx_mb: Ratio,
    pub total_tx_mb: Ratio,
}

impl NetworkStats {
    /// Totals are counted in bytes, over one megabyte.
    pub open spec fn wf(&self) -> bool {
        &&& self.total_rx_mb.den == BYTES_PER_MB
        &&& self.total_tx_mb.den == BYTES_PER_MB
    }

    /// No traffic seen yet.
    pub fn new() -> (s: Self)
        ensures
            s.wf(),
            s.rx_speed == Ratio::spec_zero(),
            s.tx_speed == Ratio::spec_zero(),
            s.total_rx_mb.num == 0,
            s.total_tx_mb.num == 0,
    {
        NetworkStats {
            rx_speed: Ratio::zero(),
            tx_speed: Ratio::zero(),
            total_rx_mb: Ratio { num: 0, den: BYTES_PER_MB },
            total_tx_mb: Ratio { num: 0, den: BYTES_PER_MB },
        }
    }

    /// Accounts for the bytes each interface moved during the last
    /// `interval_us` microseconds, given as `(received, transmitted)` per
    /// interface: the speeds become those bytes over the interval (kept
    /// when the interval is empty), and the totals grow by them, stopping
    /// at the largest count they can hold.
    pub fn refresh(&mut self, counters: &[(u64, u64)], interval_us: u64)
        requires
            old(self).wf(),
        ensures
            final(self).wf(),
            final(self).rx_speed == (if interval_us > 0 {
                Ratio { num: received_sum(counters@) as u128, den: interval_us as u128 }
            } else {
                old(self).rx_speed
            }),
            final(self).tx_speed == (if interval_us > 0 {
                Ratio { num: transmitted_sum(counters@) as u128, den: interval_us as u128 }
            } else {
                old(self).tx_speed
            }),
            final(self).total_rx_mb.num == grown_total(old(self).total_rx_mb.num, received_sum(counters@)),
            final(self).total_tx_mb.num == grown_total(old(self).total_tx_mb.num, transmitted_sum(counters@)),
            final(self).total_rx_mb.num >= old(self).total_rx_mb.num,
            final(self).total_tx_mb.num >= old(self).total_tx_mb.num,
    {
        let mut rx: u128 = 0;
        let mut tx: u128 = 0;
        let mut i: usize = 0;
        while i < counters.len()
            invariant
                i <= counters@.len(),
                rx == received_sum(counters@.subrange(0, i as int)),
                tx == transmitted_sum(counters@.subrange(0, i as int)),
                rx <= i * 18446744073709551615u128,
                tx <= i * 18446744073709551615u128,
            decreases counters@.len() - i,
        {
            proof {
                assert(counters@.subrange(0, i + 1).drop_last() =~= counters@.subrange(0, i as int));
            }
            let (r, t) = counters[i];
            rx = rx + r as u128;
            tx = tx + t as u128;
            i = i + 1;
        }
        proof {
            assert(counters@.subrange(0, counters@.len() as int) =~= counters@);
        }
        if interval_us > 0 {
            self.rx_speed = Ratio { num: rx, den: interval_us as u128 };
            self.tx_speed = Ratio { num: tx, den: interval_us as u128 };
        }
        self.total_rx_mb.num = self.total_rx_mb.num.saturating_add(rx);
        self.total_tx_mb.num = self.total_tx_mb.num.saturating_add(tx);
    }
}

/// The session totals never decrease, and the speeds are the bytes of
/// the last interval: a refresh adds every byte it is handed (up to the
/// largest count a total holds) and never takes any away.
pub proof fn law_totals_never_decrease(total: u128, bytes: nat)
    ensures
        grown_total(total, bytes) >= total,
        total + bytes <= u128::MAX ==> grown_total(total, bytes) == total + bytes,
{
}

/// Every interface counts: no interface moves no bytes, and one more
/// interface adds its received and transmitted bytes to the sums.
pub proof fn law_sums_add_every_interface(s: Seq<(u64, u64)>, c: (u64, u64))
    ensures
        received_sum(Seq::<(u64, u64)>::empty()) == 0,
        transmitted_sum(Seq::<(u64, u64)>::empty()) == 0,
        received_sum(s.push(c)) == received_sum(s) + c.0,
        transmitted_sum(s.push(c)) == transmitted_sum(s) + c.1,
{
    assert(s.push(c).drop_last() =~= s);
}

/// The sums over two groups of interfaces together are the sums of the
/// groups' sums, in either order.
pub proof fn law_sums_split(a: Seq<(u64, u64)>, b: Seq<(u64, u64)>)
    ensures
        received_sum(a + b) == received_sum(a) + received_sum(b),
        transmitted_sum(a + b) == transmitted_sum(a) + transmitted_sum(b),
    decreases b.len(),
{
    if b.len() == 0 {
        assert(a + b =~= a);
    } else {
        let t = b.drop_last();
        law_sums_split(a, t);
        assert((a + b).drop_last() =~= a + t);
        assert((a + b).last() == b.last());
    }
}

} // verus!
