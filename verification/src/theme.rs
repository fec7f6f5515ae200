use vstd::prelude::*;

use crate::ratio::Ratio;

verus! {

/// A 24-bit colour.
#[derive(Clone, Copy, Debug, PartialEq, Eq)]
pub struct Rgb {
    pub r: u8,
    pub g: u8,
    pub b: u8,
}

/// Latency below this many microseconds is shown as good.
pub const GOOD_BELOW_US: u64 = 50_000;

/// Latency below this many microseconds (and not good) is shown as a warning.
pub const WARN_BELOW_US: u64 = 150_000;

pub open spec fn spec_good() -> Rgb {
    Rgb { r: 80, g: 250, b: 123 }
}

pub open spec fn spec_warn() -> Rgb {
    Rgb { r: 241, g: 250, b: 140 }
}

pub open spec fn spec_bad() -> Rgb {
    Rgb { r: 255, g: 85, b: 85 }
}

/// Colour of a good reading.
pub fn good() -> (c: Rgb)
    ensures
        c == spec_good(),
{
    Rgb { r: 80, g: 250, b: 123 }
}

/// Colour of a reading that deserves attention.
pub fn warn() -> (c: Rgb)
    ensures
        c == spec_warn(),
{
    Rgb { r: 241, g: 250, b: 140 }
}

/// Colour of a bad reading.
pub fn bad() -> (c: Rgb)
    ensures
        c == spec_bad(),
{
    Rgb { r: 255, g: 85, b: 85 }
}

/// The colours that successive hosts are drawn in, cycling.
pub open spec fn host_palette() -> Seq<Rgb> {
    seq![
        Rgb { r: 0, g: 255, b: 255 },
        Rgb { r: 255, g: 121, b: 198 },
        Rgb { r: 241, g: 250, b: 140 },
        Rgb { r: 80, g: 250, b: 123 },
        Rgb { r: 255, g: 184, b: 108 },
        Rgb { r: 189, g: 147, b: 249 },
    ]
}

/// Severity of a latency: 0 under 50 ms, 1 under 150 ms, 2 from 150 ms on.
pub open spec fn latency_severity(latency_us: u64) -> nat {
    if latency_us < GOOD_BELOW_US {
        0
    } else if latency_us < WARN_BELOW_US {
        1
    } else {
        2
    }
}

/// The colour of a severity.
pub open spec fn severity_color(severity: nat) -> Rgb {
    if severity == 0 {
        spec_good()
    } else if severity == 1 {
        spec_warn()
    } else {
        spec_bad()
    }
}

/// Colour for a latency: good under 50 ms, a warning under 150 ms, bad
/// from 150 ms on.
pub fn latency_color(latency_us: u64) -> (c: Rgb)
    ensures
        c == severity_color(latency_severity(latency_us)),
        latency_us < 50_000 ==> c == (Rgb { r: 80, g: 250, b: 123 }),
        50_000 <= latency_us < 150_000 ==> c == (Rgb { r: 241, g: 250, b: 140 }),
        150_000 <= latency_us ==> c == (Rgb { r: 255, g: 85, b: 85 }),
{
    if latency_us < GOOD_BELOW_US {
        good()
    } else if latency_us < WARN_BELOW_US {
        warn()
    } else {
        bad()
    }
}

/// Colour of the `index`-th host: the palette, cycled.
pub fn host_color(index: usize) -> (c: Rgb)
    ensures
        c == host_palette()[(index % 6) as int],
{
    let slot = index % 6;
    if slot == 0 {
        Rgb { r: 0, g: 255, b: 255 }
    } else if slot == 1 {
        Rgb { r: 255, g: 121, b: 198 }
    } else if slot == 2 {
        Rgb { r: 241, g: 250, b: 140 }
    } else if slot == 3 {
        Rgb { r: 80, g: 250, b: 123 }
    } else if slot == 4 {
        Rgb { r: 255, g: 184, b: 108 }
    } else {
        Rgb { r: 189, g: 147, b: 249 }
    }
}

/// Colour of a loss percentage: bad as soon as any probe was lost.
pub fn loss_color(loss: Ratio) -> (c: Rgb)
    ensures
        c == (if loss.num > 0 {
            spec_bad()
        } else {
            spec_good()
        }),
{
    if loss.num > 0 {
        bad()
    } else {
        good()
    }
}

/// Colours repeat with the palette's period: hosts six apart share a
/// colour, and six consecutive hosts all differ.
pub proof fn law_host_color_cycle(i: nat, j: nat)
    requires
        i < j,
    ensures
        host_palette()[((i + 6) % 6) as int] == host_palette()[(i % 6) as int],
        j - i < 6 ==> host_palette()[(i % 6) as int] != host_palette()[(j % 6) as int],
{
    assert((i + 6) % 6 == i % 6);
    if j - i < 6 {
        assert(i % 6 != j % 6);
    }
}

/// Colour never improves as latency grows: a higher latency is at least
/// as severe, and the three severities have three distinct colours.
pub proof fn law_latency_color_monotone(a: u64, b: u64)
    requires
        a <= b,
    ensures
        latency_severity(a) <= latency_severity(b),
        severity_color(0) != severity_color(1),
        severity_color(1) != severity_color(2),
        severity_color(0) != severity_color(2),
{
}

} // verus!
