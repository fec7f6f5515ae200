use vstd::prelude::*;

verus! {

/// An exact non-negative rational number `num / den`.
///
/// The statistics of the monitor (average latency, loss percentage,
/// jitter, transfer speeds) are quotients of integer counters; they are
/// handed out in this form so that nothing is lost to rounding before a
/// value is displayed.
#[derive(Clone, Copy, Debug, PartialEq, Eq)]
pub struct Ratio {
    pub num: u128,
    pub den: u128,
}

impl Ratio {
    /// The ratio `0 / 1`.
    pub open spec fn spec_zero() -> Ratio {
        Ratio { num: 0, den: 1 }
    }

    /// The ratio is at least one (for a positive denominator).
    pub fn at_least_one(&self) -> (b: bool)
        ensures
            b == (self.num >= self.den),
    {
        self.num >= self.den
    }

    /// The ratio `0 / 1`.
    pub fn zero() -> (r: Ratio)
        ensures
            r == Ratio::spec_zero(),
    {
        Ratio { num: 0, den: 1 }
    }
}

} // verus!
